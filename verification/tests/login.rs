use auth_service::domain::{AuthAPIError, User, UserStore};
use auth_service::routes::{login, signup, LoginRequest, SignupRequest};
use auth_service::services::{HashmapUserStore, HashsetBannedTokenStore};
use auth_service::utils::auth::TokenService;
use auth_service::utils::constants::JWT_COOKIE_NAME;

const NOW: u64 = 1_700_000_000;

fn store_with_existing_user() -> HashmapUserStore {
    let mut store = HashmapUserStore::default();
    let existing = User::new("existing@user.com", "!@#(*$&#!234234alsdkj!@#", true)
        .expect("unable to created existing user for tests");
    store.add_user(existing).expect("unable to add mock user");
    store
}

fn tokens() -> TokenService {
    TokenService::new("a-signing-secret").unwrap()
}

fn request(email: &str, password: &str) -> LoginRequest {
    LoginRequest { email: email.to_string(), password: password.to_string() }
}

#[test]
fn should_return_happy_path_if_user_found() {
    let store = store_with_existing_user();

    let test_case = request("existing@user.com", "!@#(*$&#!234234alsdkj!@#");

    let (_, status) = login(&store, &tokens(), test_case, NOW).unwrap();
    assert_eq!(status, 200)
}

#[test]
fn should_return_422_if_malformed_credentials() {
    let store = store_with_existing_user();

    let test_case = request("exis", "!@#(*$&#!234234alsdkj!@#");

    let error = login(&store, &tokens(), test_case, NOW).unwrap_err();
    assert_eq!(error.status_code(), 422)
}

#[test]
fn should_return_401_if_creds_are_valid_but_incorrect() {
    let store = store_with_existing_user();

    let test_case = request("bestie@mail.com", "!@#(*$&#!234234alsdkj!@#");

    let error = login(&store, &tokens(), test_case, NOW).unwrap_err();
    assert_eq!(error.status_code(), 401)
}

#[test]
fn should_return_200_if_valid_credentials_and_2fa_disabled() {
    let mut store = store_with_existing_user();

    let signup_body = SignupRequest {
        email: "e1xisting@user.com".to_string(),
        password: "!@#(*$&#!234234alsdkj!@#".to_string(),
        requires_2fa: false,
    };

    let (status, _) = signup(&mut store, signup_body).unwrap();

    assert_eq!(status, 201);

    let login_body = request("e1xisting@user.com", "!@#(*$&#!234234alsdkj!@#");

    let (auth_cookie, status) = login(&store, &tokens(), login_body, NOW).unwrap();
    assert_eq!(status, 200);

    assert_eq!(auth_cookie.name, JWT_COOKIE_NAME);

    assert!(!auth_cookie.value.is_empty());
}

#[test]
fn login_rejects_empty_credentials() {
    let store = store_with_existing_user();
    for (email, password) in [("", ""), ("", "!@#(*$&#!234234alsdkj!@#"), ("existing@user.com", "")]
    {
        let error = login(&store, &tokens(), request(email, password), NOW).unwrap_err();
        assert_eq!(error, AuthAPIError::InvalidCredentials);
        assert_eq!(error.status_code(), 422);
    }
}

#[test]
fn login_with_a_wrong_password_is_unauthorized() {
    let store = store_with_existing_user();
    let error =
        login(&store, &tokens(), request("existing@user.com", "not the password"), NOW).unwrap_err();
    assert_eq!(error, AuthAPIError::Unauthorized);
    assert_eq!(error.status_code(), 401);
}

#[test]
fn login_with_a_short_password_is_a_bad_request() {
    let store = store_with_existing_user();
    let error = login(&store, &tokens(), request("existing@user.com", "short"), NOW).unwrap_err();
    assert_eq!(error, AuthAPIError::InvalidUserCredentials);
    assert_eq!(error.status_code(), 400);
}

#[test]
fn login_hands_out_a_token_that_validates_to_the_user() {
    let store = store_with_existing_user();
    let service = tokens();
    let (cookie, _) =
        login(&store, &service, request("existing@user.com", "!@#(*$&#!234234alsdkj!@#"), NOW)
            .unwrap();
    assert_eq!(
        cookie.value,
        "10ff5365000000006578697374696e6740757365722e636f6d.\
         082642ec869f67caf713a46498f16b72e57ae6f2c8c03ecd23e8d98f98f3da0e"
    );
    let subject = service.validate(&cookie.value, NOW, &HashsetBannedTokenStore::new()).unwrap();
    assert_eq!(subject.as_str(), "existing@user.com");
}

#[test]
fn login_fails_where_no_expiry_can_be_had() {
    let store = store_with_existing_user();
    let error = login(
        &store,
        &tokens(),
        request("existing@user.com", "!@#(*$&#!234234alsdkj!@#"),
        u64::MAX,
    )
    .unwrap_err();
    assert_eq!(error, AuthAPIError::UnexpectedError);
    assert_eq!(error.status_code(), 500);
}
