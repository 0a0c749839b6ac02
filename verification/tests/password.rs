use auth_service::domain::password::{
    MAX_ESTIMATED_LENGTH, MAX_STRENGTH_SCORE, MIN_PASSWORD_LENGTH, REQUIRED_STRENGTH_SCORE,
};
use auth_service::domain::{CreateUserError, Password};

#[test]
fn the_minimum_length_is_eight() {
    assert_eq!(MIN_PASSWORD_LENGTH, 8);
    assert_eq!(MAX_STRENGTH_SCORE, 4);
    assert_eq!(REQUIRED_STRENGTH_SCORE, 0);
    assert_eq!(MAX_ESTIMATED_LENGTH, 12);
}

#[test]
fn parse_accepts_a_weak_password_that_is_long_enough() {
    assert!(Password::parse("password").is_ok());
    assert!(Password::parse("aaaaaaaa").is_ok());
}

#[test]
fn parse_accepts_eight_characters_and_more() {
    for text in ["12345678", "123oi1u23", "longenough1", "!@#(*$&#!234234alsdkj!@#"] {
        let password = Password::parse(text).unwrap();
        assert_eq!(password.as_str(), text);
        assert_eq!(password.as_ref(), text);
    }
}

#[test]
fn parse_refuses_shorter_passwords_every_time() {
    for text in ["", "1", "123", "1234567"] {
        assert_eq!(Password::parse(text), Err(CreateUserError::InvalidPassword));
        assert_eq!(Password::parse(text), Err(CreateUserError::InvalidPassword));
    }
}

#[test]
fn the_length_counts_characters_not_bytes() {
    // Seven characters in fourteen bytes, then eight in sixteen.
    assert_eq!(Password::parse("ééééééé"), Err(CreateUserError::InvalidPassword));
    assert!(Password::parse("éééééééé").is_ok());
}

#[test]
fn from_estimate_follows_length_and_score() {
    assert!(Password::from_estimate("12345678", Some(2), 2).is_ok());
    assert!(Password::from_estimate("12345678", Some(4), 2).is_ok());
    assert_eq!(
        Password::from_estimate("12345678", Some(1), 2),
        Err(CreateUserError::InvalidPassword)
    );
    assert_eq!(
        Password::from_estimate("1234567", Some(4), 2),
        Err(CreateUserError::InvalidPassword)
    );
}

#[test]
fn a_missing_estimate_is_not_strong_enough() {
    assert_eq!(
        Password::from_estimate("12345678", None, 1),
        Err(CreateUserError::InvalidPassword)
    );
    // Where no strength is asked for, none is missed.
    assert!(Password::from_estimate("12345678", None, 0).is_ok());
}

#[test]
fn parse_with_strength_refuses_a_common_password() {
    assert_eq!(
        Password::parse_with_strength("password", 2),
        Err(CreateUserError::InvalidPassword)
    );
    assert!(Password::parse_with_strength("password", 0).is_ok());
}

#[test]
fn parse_with_strength_accepts_a_strong_password() {
    let text = "Xk9#mQ2$vL7!";
    let password = Password::parse_with_strength(text, 3).unwrap();
    assert_eq!(password.as_str(), text);
}

#[test]
fn no_password_reaches_a_score_above_the_scale() {
    assert_eq!(
        Password::parse_with_strength("Xk9#mQ2$vL7!", 5),
        Err(CreateUserError::InvalidPassword)
    );
}

#[test]
fn a_password_too_long_to_estimate_is_not_strong_enough() {
    let thirteen = "Xk9#mQ2$vL7!a";
    assert_eq!(thirteen.chars().count(), 13);
    assert_eq!(
        Password::parse_with_strength(thirteen, 1),
        Err(CreateUserError::InvalidPassword)
    );
    assert_eq!(
        Password::parse_with_strength("!@#(*$&#!234234alsdkj!@#", 1),
        Err(CreateUserError::InvalidPassword)
    );
    // Where no strength is asked for, the length is no hindrance.
    assert!(Password::parse_with_strength(thirteen, 0).is_ok());
    assert!(Password::parse(thirteen).is_ok());
}

#[test]
fn long_walks_over_the_keyboard_are_parsed_without_an_estimate() {
    let keys = "qw".repeat(17);
    let digits = "12".repeat(15);
    for text in [keys.as_str(), digits.as_str()] {
        assert_eq!(Password::parse(text).unwrap().as_str(), text);
        assert_eq!(
            Password::parse_with_strength(text, 1),
            Err(CreateUserError::InvalidPassword)
        );
    }
}

#[test]
fn a_walk_over_the_keyboard_of_twelve_keys_is_weak() {
    assert_eq!(
        Password::parse_with_strength("qwqwqwqwqwqw", 3),
        Err(CreateUserError::InvalidPassword)
    );
    assert_eq!(
        Password::parse_with_strength("121212121212", 3),
        Err(CreateUserError::InvalidPassword)
    );
    assert_eq!(
        Password::parse_with_strength("aaaaaaaaaaaa", 3),
        Err(CreateUserError::InvalidPassword)
    );
}

#[test]
fn the_estimate_counts_characters_not_bytes() {
    // Twelve characters in twenty-four bytes: still shown to the estimator,
    // which makes little of a repeated letter.
    assert_eq!(
        Password::parse_with_strength("éééééééééééé", 4),
        Err(CreateUserError::InvalidPassword)
    );
    assert!(Password::parse_with_strength("éééééééééééé", 0).is_ok());
}

#[test]
fn parse_with_strength_refuses_short_passwords_first() {
    assert_eq!(
        Password::parse_with_strength("Zq9!x", 0),
        Err(CreateUserError::InvalidPassword)
    );
}

#[test]
fn passwords_compare_by_their_text() {
    let a = Password::parse("123asdf987234").unwrap();
    let b = Password::parse("123asdf987234").unwrap();
    let c = Password::parse("123asdf98723").unwrap();
    assert_eq!(a, b);
    assert_ne!(a, c);
    assert_eq!(a.clone(), a);
}

#[test]
fn the_estimator_takes_twelve_characters_of_any_kind() {
    for text in [
        "qwqwqwqwqwqw",
        "QWqwQWqwQWqw",
        "!@!@!@!@!@!@",
        "121212121212",
        "c(c{c[c<c(c{",
        "4@4@a4@a4@aa",
        "1!|il1!|il1!",
        "PaSsWoRdPaSs",
        "p4$$w0rdp4$$",
        "drowssapdrow",
        "11/11/1991ab",
        "111119911111",
        "1991-01-01xx",
        "abcdefghijkl",
        "zyxwvu987654",
        "abcabcabcabc",
        "aaaaaaaaaaaa",
        "iiiiiiiiiiii",
        "İİİİİİİİİİİİ",
        "пароль123456",
        "密码密码密码密码密码密码",
        "a b\tc\nd e f ",
        "password",
        "12345678",
    ] {
        assert!(text.chars().count() <= 12, "{}", text);
        for min_score in 1..=4 {
            let outcome = Password::parse_with_strength(text, min_score);
            if let Ok(password) = outcome {
                assert_eq!(password.as_str(), text);
            }
        }
    }
}
