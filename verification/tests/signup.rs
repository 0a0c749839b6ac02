use auth_service::domain::{AuthAPIError, User, UserStore};
use auth_service::routes::{signup, SignupRequest};
use auth_service::services::HashmapUserStore;

fn store_with_existing_user() -> HashmapUserStore {
    let mut store = HashmapUserStore::default();
    let existing = User::new("existing@user.com", "!@#(*$&#!234234alsdkj!@#", true)
        .expect("unable to created existing user for tests");
    store.add_user(existing).expect("unable to add mock user");
    store
}

fn request(email: &str, password: &str, requires_2fa: bool) -> SignupRequest {
    SignupRequest { email: email.to_string(), password: password.to_string(), requires_2fa }
}

#[test]
fn should_return_201_if_valid_input() {
    let mut store = store_with_existing_user();

    let test_cases = [request("fast@gmail.com", "123lkjslk##dfj@@laskdjf", false)];

    for each in test_cases {
        let (status, _) = signup(&mut store, each).unwrap();
        assert_eq!(status, 201);
    }
}

#[test]
fn should_return_400_if_invalid_input() {
    let mut store = store_with_existing_user();

    let test_cases = [request("asdfasdf_not_an_email", "123lkjslkdfjlaskdjf", false)];

    for each in test_cases {
        let (status, body) = signup(&mut store, each).unwrap_err().into_response();
        assert_eq!(status, 400);
        assert_eq!(body.error, "Invalid credentials".to_owned())
    }
}

#[test]
fn should_return_409_if_email_already_exists() {
    let mut store = store_with_existing_user();

    let test_cases = [request("existing@user.com", "1234!@#$@!#$(&*&*qwer1234", true)];

    for each in test_cases {
        let (status, body) = signup(&mut store, each).unwrap_err().into_response();
        assert_eq!(status, 409);
        assert_eq!(body.error, "User already exists".to_owned())
    }
}

#[test]
fn signup_then_the_same_email_again_is_a_conflict() {
    let mut store = HashmapUserStore::new();

    let (status, body) = signup(&mut store, request("a@b.com", "longenough1", false)).unwrap();
    assert_eq!(status, 201);
    assert_eq!(body.message, "User created successfully!");
    assert_eq!(store.len(), 1);

    let error = signup(&mut store, request("a@b.com", "longenough1", false)).unwrap_err();
    assert_eq!(error, AuthAPIError::UserAlreadyExists);
    let (status, body) = error.into_response();
    assert_eq!(status, 409);
    assert_eq!(body.error, "User already exists");
    assert_eq!(store.len(), 1);
}

#[test]
fn signup_stores_the_record_as_sent() {
    let mut store = HashmapUserStore::new();
    signup(&mut store, request("a@b.com", "longenough1", true)).unwrap();
    let stored = store.get_user("a@b.com").unwrap();
    assert_eq!(stored, User::new("a@b.com", "longenough1", true).unwrap());
}

#[test]
fn signup_refuses_a_short_password_and_stores_nothing() {
    let mut store = HashmapUserStore::new();
    let error = signup(&mut store, request("a@b.com", "short", false)).unwrap_err();
    assert_eq!(error, AuthAPIError::InvalidUserCredentials);
    assert_eq!(store.len(), 0);
}
