use super::hex::{hex_bytes, hex_text, lemma_hex_round_trip, lemma_hex_text_of_bytes};
use super::signing::hmac_sha256;
use crate::domain::email::is_valid_email;
use vstd::bytes::{
    lemma_auto_spec_u64_to_from_le_bytes, spec_u64_from_le_bytes, spec_u64_to_le_bytes,
};
use vstd::prelude::*;
use vstd::utf8::{decode_utf8, encode_utf8, valid_utf8};

verus! {

/// The bytes that hold the expiry at the head of a token's body.
pub const EXPIRY_BYTES: usize = 8;

/// What a token states: whom it was issued to and until when it holds.
pub ghost struct ClaimsView {
    pub subject: Seq<char>,
    pub expiry: u64,
}

/// The body of a token: the expiry, low byte first, then the subject.
pub open spec fn token_body(claims: ClaimsView) -> Seq<u8> {
    spec_u64_to_le_bytes(claims.expiry) + encode_utf8(claims.subject)
}

/// The text of a token: its body and the tag of the body under the key,
/// both in hexadecimal, with a `.` between them.
pub open spec fn token_text(key: Seq<u8>, claims: ClaimsView) -> Seq<char> {
    hex_text(token_body(claims)) + seq!['.'] + hex_text(hmac_sha256(key, token_body(claims)))
}

/// The place of the first `.` of a text.
pub open spec fn is_first_dot(text: Seq<char>, at: int) -> bool {
    &&& 0 <= at < text.len()
    &&& text[at] == '.'
    &&& forall|i: int| 0 <= i < at ==> #[trigger] text[i] != '.'
}

/// The two parts of a text around its first `.`.
pub open spec fn token_parts(token: Seq<char>) -> Option<(Seq<char>, Seq<char>)> {
    if exists|at: int| is_first_dot(token, at) {
        let at = choose|at: int| is_first_dot(token, at);
        Some((token.take(at), token.skip(at + 1)))
    } else {
        None
    }
}

/// The claims that a body holds, if it holds an expiry and the well-formed
/// text of a valid e-mail address.
pub open spec fn body_claims(body: Seq<u8>) -> Option<ClaimsView> {
    if body.len() >= EXPIRY_BYTES && valid_utf8(body.skip(EXPIRY_BYTES as int)) && is_valid_email(
        decode_utf8(body.skip(EXPIRY_BYTES as int)),
    ) {
        Some(
            ClaimsView {
                subject: decode_utf8(body.skip(EXPIRY_BYTES as int)),
                expiry: spec_u64_from_le_bytes(body.take(EXPIRY_BYTES as int)),
            },
        )
    } else {
        None
    }
}

/// The claims of a token whose tag is genuine under the key; `None` for a
/// text of another shape, a tag that is not the body's, or a body that
/// holds no claims.
pub open spec fn signed_claims(key: Seq<u8>, token: Seq<char>) -> Option<ClaimsView> {
    match token_parts(token) {
        Some((body_text, tag_text)) => match (hex_bytes(body_text), hex_bytes(tag_text)) {
            (Some(body), Some(tag)) => if tag == hmac_sha256(key, body) {
                body_claims(body)
            } else {
                None
            },
            _ => None,
        },
        None => None,
    }
}

/// Why a token was refused.
#[derive(Debug, PartialEq, Eq, Structural)]
pub enum TokenError {
    InvalidSignature,
    Expired,
    Revoked,
}

/// The verdict on a token at a time, given the revoked tokens: the
/// signature is judged first, then the expiry, then the revocation. A
/// token holds up to, and not at, its expiry.
pub open spec fn validation_result(
    key: Seq<u8>,
    token: Seq<char>,
    now: u64,
    banned: Set<Seq<char>>,
) -> Result<Seq<char>, TokenError> {
    match signed_claims(key, token) {
        None => Err(TokenError::InvalidSignature),
        Some(claims) => if claims.expiry <= now {
            Err(TokenError::Expired)
        } else if banned.contains(token) {
            Err(TokenError::Revoked)
        } else {
            Ok(claims.subject)
        },
    }
}

/// A text has one first `.` at most.
pub proof fn lemma_first_dot_unique(text: Seq<char>, a: int, b: int)
    requires
        is_first_dot(text, a),
        is_first_dot(text, b),
    ensures
        a == b,
{
    if a < b {
        assert(text[a] != '.');
    } else if b < a {
        assert(text[b] != '.');
    }
}

/// Parting undoes joining, where the first part holds no `.`.
pub proof fn lemma_token_parts_of_joined(head: Seq<char>, tail: Seq<char>)
    requires
        !head.contains('.'),
    ensures
        token_parts(head + seq!['.'] + tail) == Some((head, tail)),
{
    let token = head + seq!['.'] + tail;
    let at = head.len() as int;
    assert forall|i: int| 0 <= i < at implies #[trigger] token[i] != '.' by {
        assert(token[i] == head[i]);
        assert(head.contains(head[i]));
    }
    assert(is_first_dot(token, at));
    let chosen = choose|at: int| is_first_dot(token, at);
    lemma_first_dot_unique(token, at, chosen);
    assert(token.take(at) =~= head);
    assert(token.skip(at + 1) =~= tail);
}

/// Reading undoes writing: the claims of a valid address come back out of
/// their body.
pub proof fn lemma_body_claims_of_body(claims: ClaimsView)
    requires
        is_valid_email(claims.subject),
    ensures
        body_claims(token_body(claims)) == Some(claims),
{
    broadcast use vstd::utf8::encode_utf8_valid_utf8, vstd::utf8::encode_utf8_decode_utf8;

    lemma_auto_spec_u64_to_from_le_bytes();
    let head = spec_u64_to_le_bytes(claims.expiry);
    let body = token_body(claims);
    assert(body.take(EXPIRY_BYTES as int) =~= head);
    assert(body.skip(EXPIRY_BYTES as int) =~= encode_utf8(claims.subject));
}

/// A token written under a key for a valid address is read back, under
/// that key, as the claims it was written for.
pub proof fn lemma_signed_claims_of_token(key: Seq<u8>, claims: ClaimsView)
    requires
        is_valid_email(claims.subject),
    ensures
        signed_claims(key, token_text(key, claims)) == Some(claims),
{
    let body = token_body(claims);
    let tag = hmac_sha256(key, body);
    lemma_hex_round_trip(body);
    lemma_hex_round_trip(tag);
    lemma_token_parts_of_joined(hex_text(body), hex_text(tag));
    lemma_body_claims_of_body(claims);
}

/// A revoked token is refused from then on, whatever it holds and however
/// the set of revoked tokens grows: as revoked where its signature and
/// expiry still stand, and for what is wrong with it otherwise.
pub proof fn lemma_revoked_token_is_refused(
    key: Seq<u8>,
    token: Seq<char>,
    now: u64,
    banned: Set<Seq<char>>,
)
    requires
        banned.contains(token),
    ensures
        validation_result(key, token, now, banned) is Err,
        (signed_claims(key, token) matches Some(claims) && now < claims.expiry)
            ==> validation_result(key, token, now, banned) == Err::<Seq<char>, _>(
            TokenError::Revoked,
        ),
{
}

/// A token is accepted exactly when all three hold: its signature is
/// genuine, it has not expired, and it is not among the revoked ones. The
/// order of the checks decides which failure is named, never whether the
/// token is accepted.
pub proof fn lemma_accepted_iff_all_three_hold(
    key: Seq<u8>,
    token: Seq<char>,
    now: u64,
    banned: Set<Seq<char>>,
)
    ensures
        validation_result(key, token, now, banned) is Ok <==> (signed_claims(key, token) is Some
            && now < signed_claims(key, token).unwrap().expiry && !banned.contains(token)),
        validation_result(key, token, now, banned) matches Ok(subject) ==> subject
            == signed_claims(key, token).unwrap().subject && is_valid_email(subject),
{
}

/// A token that is refused stays refused: time only passes, and revoked
/// tokens are never taken back.
pub proof fn lemma_refused_stays_refused(
    key: Seq<u8>,
    token: Seq<char>,
    now: u64,
    later: u64,
    banned: Set<Seq<char>>,
    banned_later: Set<Seq<char>>,
)
    requires
        now <= later,
        banned.subset_of(banned_later),
        validation_result(key, token, now, banned) is Err,
    ensures
        validation_result(key, token, later, banned_later) is Err,
{
}

/// Joining undoes parting: a text is its two parts around a `.`.
pub proof fn lemma_joined_of_token_parts(token: Seq<char>)
    requires
        token_parts(token) is Some,
    ensures
        token == token_parts(token).unwrap().0 + seq!['.'] + token_parts(token).unwrap().1,
{
    let at = choose|at: int| is_first_dot(token, at);
    assert(token =~= token.take(at) + seq!['.'] + token.skip(at + 1));
}

/// Writing undoes reading: a body that holds claims is the body of those
/// claims.
pub proof fn lemma_body_of_body_claims(body: Seq<u8>)
    requires
        body_claims(body) is Some,
    ensures
        token_body(body_claims(body).unwrap()) == body,
{
    broadcast use vstd::utf8::decode_utf8_encode_utf8;

    lemma_auto_spec_u64_to_from_le_bytes();
    let head = body.take(EXPIRY_BYTES as int);
    let rest = body.skip(EXPIRY_BYTES as int);
    assert(spec_u64_to_le_bytes(spec_u64_from_le_bytes(head)) == head);
    assert(encode_utf8(decode_utf8(rest)) == rest);
    assert(head + rest =~= body);
}

/// Only a token that was written under the key is read as signed: the
/// text is the very one that is written for the claims read out of it.
pub proof fn lemma_signed_token_was_written(key: Seq<u8>, token: Seq<char>)
    requires
        signed_claims(key, token) is Some,
    ensures
        token == token_text(key, signed_claims(key, token).unwrap()),
{
    let (body_text, tag_text) = token_parts(token).unwrap();
    let body = hex_bytes(body_text).unwrap();
    lemma_joined_of_token_parts(token);
    lemma_hex_text_of_bytes(body_text);
    lemma_hex_text_of_bytes(tag_text);
    lemma_body_of_body_claims(body);
}

} // verus!
