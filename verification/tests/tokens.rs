use auth_service::domain::{BannedTokenStore, Email};
use auth_service::services::HashsetBannedTokenStore;
use auth_service::utils::auth::{
    create_auth_cookie, generate_auth_cookie, validate_token, GenerateTokenError, SameSite,
    TokenService, TOKEN_TTL_SECONDS,
};
use auth_service::utils::token::TokenError;
use auth_service::utils::constants::JWT_COOKIE_NAME;

const NOW: u64 = 1_700_000_000;

fn service() -> TokenService {
    TokenService::new("a-signing-secret").unwrap()
}

#[test]
fn an_empty_secret_is_refused() {
    assert!(TokenService::new("").is_none());
    assert!(TokenService::new("s").is_some());
}

#[test]
fn the_token_lives_for_an_hour() {
    assert_eq!(TOKEN_TTL_SECONDS, 3600);
}

#[test]
fn issue_writes_body_and_tag_in_hexadecimal() {
    let email = Email::parse("a@b.com").unwrap();
    let token = service().issue(&email, NOW).unwrap();
    assert_eq!(
        token,
        "10ff5365000000006140622e636f6d.\
         5a1007df26d4c2c49f7a8e0651cf4bcff78a91877a8a6f496a74e7e2315a1ed8"
    );
}

#[test]
fn an_issued_token_validates_to_the_same_email() {
    let banned = HashsetBannedTokenStore::new();
    for text in ["a@b.com", "existing@user.com", "weirder-email@here.and.there.com"] {
        let email = Email::parse(text).unwrap();
        let token = service().issue(&email, NOW).unwrap();
        assert_eq!(service().validate(&token, NOW, &banned), Ok(email.clone()));
        assert_eq!(validate_token(&service(), &token, NOW, &banned), Ok(email));
    }
}

#[test]
fn a_token_holds_up_to_its_expiry_and_not_at_it() {
    let banned = HashsetBannedTokenStore::new();
    let email = Email::parse("a@b.com").unwrap();
    let token = service().issue(&email, NOW).unwrap();
    let expiry = NOW + TOKEN_TTL_SECONDS;
    assert_eq!(service().validate(&token, expiry - 1, &banned), Ok(email));
    assert_eq!(service().validate(&token, expiry, &banned), Err(TokenError::Expired));
    assert_eq!(service().validate(&token, u64::MAX, &banned), Err(TokenError::Expired));
}

#[test]
fn a_revoked_token_is_refused_though_signature_and_expiry_stand() {
    let mut banned = HashsetBannedTokenStore::new();
    let email = Email::parse("a@b.com").unwrap();
    let token = service().issue(&email, NOW).unwrap();
    assert_eq!(service().validate(&token, NOW, &banned), Ok(email));

    banned.add(token.clone()).unwrap();
    assert_eq!(service().validate(&token, NOW, &banned), Err(TokenError::Revoked));
    assert_eq!(service().validate(&token, NOW + 1, &banned), Err(TokenError::Revoked));

    banned.add(String::from("another token")).unwrap();
    assert_eq!(service().validate(&token, NOW + 2, &banned), Err(TokenError::Revoked));
}

#[test]
fn the_expiry_is_judged_before_the_revocation() {
    let mut banned = HashsetBannedTokenStore::new();
    let email = Email::parse("a@b.com").unwrap();
    let token = service().issue(&email, NOW).unwrap();
    banned.add(token.clone()).unwrap();
    assert_eq!(
        service().validate(&token, NOW + TOKEN_TTL_SECONDS, &banned),
        Err(TokenError::Expired)
    );
}

#[test]
fn a_token_under_another_key_is_refused() {
    let banned = HashsetBannedTokenStore::new();
    let email = Email::parse("a@b.com").unwrap();
    let token = service().issue(&email, NOW).unwrap();
    let other = TokenService::new("another-secret").unwrap();
    assert_eq!(other.validate(&token, NOW, &banned), Err(TokenError::InvalidSignature));
}

#[test]
fn a_changed_token_is_refused() {
    let banned = HashsetBannedTokenStore::new();
    let email = Email::parse("a@b.com").unwrap();
    let token = service().issue(&email, NOW).unwrap();

    // A later expiry in the body, under the old tag.
    let forged = token.replacen("10ff5365", "10ff5366", 1);
    assert_ne!(forged, token);
    assert_eq!(service().validate(&forged, NOW, &banned), Err(TokenError::InvalidSignature));

    // A tag cut short.
    let short = &token[..token.len() - 2];
    assert_eq!(service().validate(short, NOW, &banned), Err(TokenError::InvalidSignature));
}

#[test]
fn text_of_another_shape_is_refused() {
    let banned = HashsetBannedTokenStore::new();
    for text in ["", "321", "invalid", ".", "00.", ".00", "zz.zz", "0011.2233.4455", "é.é"] {
        assert_eq!(
            service().validate(text, NOW, &banned),
            Err(TokenError::InvalidSignature),
            "{}",
            text
        );
    }
}

#[test]
fn no_token_is_issued_where_the_expiry_overflows() {
    let email = Email::parse("a@b.com").unwrap();
    assert_eq!(service().issue(&email, u64::MAX), Err(GenerateTokenError::UnexpectedError));
    assert_eq!(
        service().issue(&email, u64::MAX - TOKEN_TTL_SECONDS + 1),
        Err(GenerateTokenError::UnexpectedError)
    );
    assert!(service().issue(&email, u64::MAX - TOKEN_TTL_SECONDS).is_ok());
    assert!(generate_auth_cookie(&service(), &email, u64::MAX).is_err());
}

#[test]
fn the_session_cookie_has_its_attributes() {
    let email = Email::parse("a@b.com").unwrap();
    let cookie = generate_auth_cookie(&service(), &email, NOW).unwrap();
    assert_eq!(cookie.name, JWT_COOKIE_NAME);
    assert_eq!(cookie.name, "jwt");
    assert_eq!(cookie.value, service().issue(&email, NOW).unwrap());
    assert_eq!(cookie.path, "/");
    assert!(cookie.http_only);
    assert!(cookie.secure);
    assert_eq!(cookie.same_site, SameSite::Lax);

    let plain = create_auth_cookie(String::from("value"));
    assert_eq!(plain.value, "value");
    assert_eq!(plain.name, "jwt");
}

#[test]
fn a_signed_body_without_claims_is_refused() {
    let banned = HashsetBannedTokenStore::new();
    // Each tag is genuine under the key; the bodies hold, in turn, a subject
    // that is no UTF-8, a subject that is no address, no room for an expiry,
    // and nothing.
    for text in [
        "10ff536500000000fffe6140622e636f6d.\
         028a80d2e0b33f2989badcc6f83e8f66150f3aaf561488d8d08fa3bc033fcb64",
        "10ff5365000000006e6f626f6479.\
         169c262e5840c58c806a570966e7b6fddb027314e777d8bbae44b0fd0e45d3ae",
        "01020304.8c1be0d99a1d500bab653c5505ffe79fe6473c67404fe9f98c414bdcd3654f69",
        ".f4fba81f2c0844d4121eefa74b149dee419cdd89efc58896348aef11f557116e",
    ] {
        assert_eq!(
            service().validate(text, NOW, &banned),
            Err(TokenError::InvalidSignature),
            "{}",
            text
        );
    }
}

#[test]
fn a_token_in_upper_case_is_refused() {
    let banned = HashsetBannedTokenStore::new();
    let email = Email::parse("a@b.com").unwrap();
    let token = service().issue(&email, NOW).unwrap();
    assert_eq!(
        service().validate(&token.to_uppercase(), NOW, &banned),
        Err(TokenError::InvalidSignature)
    );
}

#[test]
fn a_subject_beyond_ascii_comes_back_as_it_went_in() {
    let banned = HashsetBannedTokenStore::new();
    let email = Email::parse("test@domain.with.idn.tld.उदाहरण.परीक्षा").unwrap();
    let token = service().issue(&email, NOW).unwrap();
    assert_eq!(
        token,
        "10ff5365000000007465737440646f6d61696e2e776974682e69646e2e746c642ee0a489e0a4a6e0a4be\
         e0a4b9e0a4b0e0a4a32ee0a4aae0a4b0e0a580e0a495e0a58de0a4b7e0a4be.\
         cdd3ea2ac689ccb667063bb064d8cbeb56724656f9c31457cf8ef98e5fe41fb3"
    );
    assert_eq!(service().validate(&token, NOW, &banned), Ok(email));
}

#[test]
fn a_token_refused_once_is_refused_later() {
    let mut banned = HashsetBannedTokenStore::new();
    let email = Email::parse("a@b.com").unwrap();
    let token = service().issue(&email, NOW).unwrap();
    banned.add(token.clone()).unwrap();
    for later in [NOW, NOW + 1, NOW + TOKEN_TTL_SECONDS - 1, NOW + TOKEN_TTL_SECONDS, u64::MAX] {
        assert!(service().validate(&token, later, &banned).is_err());
    }
}
