use super::constants::{JWT_COOKIE_NAME, JWT_COOKIE_PATH};
use super::hex;
use super::signing::{compute_tag, tag_is_genuine};
use super::token::{
    body_claims, is_first_dot, lemma_first_dot_unique, lemma_signed_claims_of_token, token_body,
    token_text, validation_result, ClaimsView, TokenError, EXPIRY_BYTES,
};
use crate::domain::data_stores::BannedTokenStore;
use crate::domain::email::{is_valid_email, Email};
use crate::services::hashset_banned_token_store::HashsetBannedTokenStore;
use vstd::bytes::{u64_from_le_bytes, u64_to_le_bytes};
use vstd::prelude::*;
use vstd::slice::{slice_subrange, slice_to_vec};
use vstd::utf8::{decode_utf8, encode_utf8, valid_utf8};

verus! {

/// How long a token stays valid after it was issued, in seconds.
pub const TOKEN_TTL_SECONDS: u64 = 3600;

/// Whether a token can be issued at a time: its expiry must be a `u64`.
pub open spec fn can_issue_at(now: u64) -> bool {
    now + TOKEN_TTL_SECONDS <= u64::MAX
}

/// The token that is issued to a subject at a time: it holds for
/// `TOKEN_TTL_SECONDS` from then. Key, subject and second fix the text:
/// two tokens issued to one subject within one second are one token, and
/// revoking it revokes both.
pub open spec fn issued_token(key: Seq<u8>, subject: Seq<char>, issued_at: u64) -> Seq<char> {
    token_text(key, ClaimsView { subject, expiry: (issued_at + TOKEN_TTL_SECONDS) as u64 })
}

/// Calls `String::from_utf8`, which accepts exactly the well-formed UTF-8
/// and gives the text that the bytes encode.
#[verifier::external_body]
fn text_from_utf8(bytes: Vec<u8>) -> (text: Option<String>)
    ensures
        match text {
            Some(text) => valid_utf8(bytes@) && text@ == decode_utf8(bytes@),
            None => !valid_utf8(bytes@),
        },
{
    String::from_utf8(bytes).ok()
}

/// Why no token could be issued.
#[derive(Debug, PartialEq, Eq, Structural)]
pub enum GenerateTokenError {
    UnexpectedError,
}

/// Finds the first `.` of a text of the given length.
fn find_first_dot(text: &str, length: usize) -> (at: Option<usize>)
    requires
        length == text@.len(),
    ensures
        match at {
            Some(at) => is_first_dot(text@, at as int),
            None => !text@.contains('.'),
        },
{
    let mut position: usize = 0;
    for c in it: text.chars()
        invariant
            it.seq() == text@,
            length == text@.len(),
            position == it.index(),
            forall|i: int| 0 <= i < it.index() ==> #[trigger] text@[i] != '.',
    {
        if c == '.' {
            return Some(position);
        }
        position = position + 1;
    }
    assert forall|i: int| 0 <= i < text@.len() implies text@[i] != '.' by {}
    None
}

/// Reads the claims out of a body: the subject as a validated address.
fn read_body(body: &[u8]) -> (claims: Option<(Email, u64)>)
    ensures
        match claims {
            Some((subject, expiry)) => body_claims(body@) matches Some(claims) && claims.subject
                == subject@ && claims.expiry == expiry,
            None => body_claims(body@) is None,
        },
{
    if body.len() < EXPIRY_BYTES {
        return None;
    }
    let expiry = u64_from_le_bytes(slice_subrange(body, 0, EXPIRY_BYTES));
    let subject_bytes = slice_to_vec(slice_subrange(body, EXPIRY_BYTES, body.len()));
    assert(subject_bytes@ =~= body@.skip(EXPIRY_BYTES as int));
    assert(body@.subrange(0, EXPIRY_BYTES as int) =~= body@.take(EXPIRY_BYTES as int));
    let subject_text = match text_from_utf8(subject_bytes) {
        Some(text) => text,
        None => {
            return None;
        },
    };
    match Email::parse(subject_text.as_str()) {
        Ok(subject) => Some((subject, expiry)),
        Err(_) => None,
    }
}

/// Issues and validates session tokens under one signing key, which it is
/// given once and keeps for its lifetime.
pub struct TokenService {
    key: Vec<u8>,
}

impl TokenService {
    /// The signing key.
    pub closed spec fn key(&self) -> Seq<u8> {
        self.key@
    }

    /// Takes the signing secret. An empty secret is refused.
    pub fn new(secret: &str) -> (service: Option<TokenService>)
        ensures
            match service {
                Some(service) => secret@.len() > 0 && service.key() == encode_utf8(secret@),
                None => secret@.len() == 0,
            },
    {
        if secret.is_empty() {
            None
        } else {
            Some(TokenService { key: secret.as_bytes_vec() })
        }
    }

    /// Issues a token to the subject that holds for `TOKEN_TTL_SECONDS`
    /// from `now`. It fails only where that expiry is no `u64`.
    pub fn issue(&self, subject: &Email, now: u64) -> (r: Result<String, GenerateTokenError>)
        ensures
            match r {
                Ok(token) => can_issue_at(now) && token@ == issued_token(
                    self.key(),
                    subject@,
                    now,
                ),
                Err(e) => !can_issue_at(now) && e == GenerateTokenError::UnexpectedError,
            },
    {
        let expiry = match now.checked_add(TOKEN_TTL_SECONDS) {
            Some(expiry) => expiry,
            None => {
                return Err(GenerateTokenError::UnexpectedError);
            },
        };
        let ghost claims = ClaimsView { subject: subject@, expiry };
        let mut body = u64_to_le_bytes(expiry);
        let mut subject_bytes = subject.as_str().as_bytes_vec();
        body.append(&mut subject_bytes);
        assert(body@ =~= token_body(claims));
        let tag = compute_tag(self.key.as_slice(), body.as_slice());
        let mut token = hex::encode(body.as_slice());
        proof {
            reveal_strlit(".");
        }
        token.append(".");
        assert("."@ =~= seq!['.']);
        let tag_text = hex::encode(tag.as_slice());
        token.append(tag_text.as_str());
        Ok(token)
    }

    /// Judges a token at the time `now`: the signature first, then the
    /// expiry, then whether it was revoked. On success it hands out the
    /// address the token was issued to.
    pub fn validate(
        &self,
        token: &str,
        now: u64,
        banned: &HashsetBannedTokenStore,
    ) -> (r: Result<Email, TokenError>)
        ensures
            match r {
                Ok(subject) => validation_result(self.key(), token@, now, banned.banned())
                    == Ok::<_, TokenError>(subject@),
                Err(e) => validation_result(self.key(), token@, now, banned.banned()) == Err::<
                    Seq<char>,
                    _,
                >(e),
            },
    {
        let length = token.unicode_len();
        let at = match find_first_dot(token, length) {
            Some(at) => at,
            None => {
                assert forall|at: int| !is_first_dot(token@, at) by {
                    if is_first_dot(token@, at) {
                        assert(token@.contains(token@[at]));
                    }
                }
                return Err(TokenError::InvalidSignature);
            },
        };
        proof {
            let chosen = choose|at: int| is_first_dot(token@, at);
            lemma_first_dot_unique(token@, at as int, chosen);
        }
        let body_text = token.substring_char(0, at);
        let tag_text = token.substring_char(at + 1, length);
        assert(body_text@ =~= token@.take(at as int));
        assert(tag_text@ =~= token@.skip(at + 1));
        let body = match hex::decode(body_text) {
            Some(body) => body,
            None => {
                return Err(TokenError::InvalidSignature);
            },
        };
        let tag = match hex::decode(tag_text) {
            Some(tag) => tag,
            None => {
                return Err(TokenError::InvalidSignature);
            },
        };
        if !tag_is_genuine(self.key.as_slice(), body.as_slice(), tag.as_slice()) {
            return Err(TokenError::InvalidSignature);
        }
        let (subject, expiry) = match read_body(body.as_slice()) {
            Some(claims) => claims,
            None => {
                return Err(TokenError::InvalidSignature);
            },
        };
        if expiry <= now {
            return Err(TokenError::Expired);
        }
        if banned.check(token.to_owned()).is_err() {
            return Err(TokenError::Revoked);
        }
        Ok(subject)
    }
}

/// A token issued for a valid address validates right away, and at any
/// time before its expiry, to that address, unless the very token is among
/// the revoked ones: as it is where the subject logged out of a session
/// that began in the same second.
pub proof fn lemma_issued_token_validates(
    key: Seq<u8>,
    subject: Seq<char>,
    issued_at: u64,
    now: u64,
    banned: Set<Seq<char>>,
)
    requires
        is_valid_email(subject),
        can_issue_at(issued_at),
        issued_at <= now < issued_at + TOKEN_TTL_SECONDS,
        !banned.contains(issued_token(key, subject, issued_at)),
    ensures
        validation_result(key, issued_token(key, subject, issued_at), now, banned) == Ok::<
            _,
            TokenError,
        >(subject),
{
    lemma_signed_claims_of_token(
        key,
        ClaimsView { subject, expiry: (issued_at + TOKEN_TTL_SECONDS) as u64 },
    );
}

/// When a browser sends a cookie along with a request from another site.
#[derive(Debug, Clone, Copy, PartialEq, Eq, Structural)]
pub enum SameSite {
    Strict,
    Lax,
    Unrestricted,
}

/// A cookie as plain values.
#[derive(Debug)]
pub struct SessionCookie {
    pub name: String,
    pub value: String,
    pub path: String,
    pub http_only: bool,
    pub secure: bool,
    pub same_site: SameSite,
}

impl SessionCookie {
    /// The cookie is the session cookie with the given value: named
    /// `JWT_COOKIE_NAME`, bound to the path `/`, hidden from scripts, sent
    /// over secure channels only, and `Lax` towards other sites.
    pub open spec fn carries(self, value: Seq<char>) -> bool {
        &&& self.name@ == JWT_COOKIE_NAME@
        &&& self.value@ == value
        &&& self.path@ == JWT_COOKIE_PATH@
        &&& self.http_only
        &&& self.secure
        &&& self.same_site == SameSite::Lax
    }
}

/// Wraps a token into the session cookie.
pub fn create_auth_cookie(token: String) -> (cookie: SessionCookie)
    ensures
        cookie.carries(token@),
{
    SessionCookie {
        name: JWT_COOKIE_NAME.to_owned(),
        value: token,
        path: JWT_COOKIE_PATH.to_owned(),
        http_only: true,
        secure: true,
        same_site: SameSite::Lax,
    }
}

/// Issues a token to the subject and wraps it into the session cookie.
pub fn generate_auth_cookie(
    service: &TokenService,
    email: &Email,
    now: u64,
) -> (r: Result<SessionCookie, GenerateTokenError>)
    ensures
        match r {
            Ok(cookie) => can_issue_at(now) && cookie.carries(
                issued_token(service.key(), email@, now),
            ),
            Err(e) => !can_issue_at(now) && e == GenerateTokenError::UnexpectedError,
        },
{
    match service.issue(email, now) {
        Ok(token) => Ok(create_auth_cookie(token)),
        Err(e) => Err(e),
    }
}

/// Judges a token as `TokenService::validate` does.
pub fn validate_token(
    service: &TokenService,
    token: &str,
    now: u64,
    banned: &HashsetBannedTokenStore,
) -> (r: Result<Email, TokenError>)
    ensures
        match r {
            Ok(subject) => validation_result(service.key(), token@, now, banned.banned())
                == Ok::<_, TokenError>(subject@),
            Err(e) => validation_result(service.key(), token@, now, banned.banned()) == Err::<
                Seq<char>,
                _,
            >(e),
        },
{
    service.validate(token, now, banned)
}

} // verus!
