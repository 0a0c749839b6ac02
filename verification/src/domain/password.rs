use super::errors::CreateUserError;
use vstd::prelude::*;

verus! {

/// The fewest characters a password may have.
pub const MIN_PASSWORD_LENGTH: usize = 8;

/// The strongest score the estimator gives.
pub const MAX_STRENGTH_SCORE: u8 = 4;

/// The score that `Password::parse` asks for. At zero nothing is asked of
/// the strength: the length alone decides, and no estimate is made.
pub const REQUIRED_STRENGTH_SCORE: u8 = 0;

/// The most characters that the estimator is shown. It multiplies without
/// a check for overflow: the factorial of the number of patterns it finds,
/// which is at most the number of characters, and powers and products that
/// grow with that number. Up to twelve characters none of them leaves its
/// type, whether `usize` has 32 bits or 64.
pub const MAX_ESTIMATED_LENGTH: usize = 12;

/// A text that the estimator can be shown.
pub open spec fn can_be_estimated(text: Seq<char>) -> bool {
    text.len() <= MAX_ESTIMATED_LENGTH
}

/// Calls `zxcvbn::zxcvbn` with no user inputs and hands out the score as a
/// number. The estimate takes the current year into account, so all that is
/// known of it is its range.
#[verifier::external_body]
fn estimate_strength(password: &str) -> (score: u8)
    requires
        can_be_estimated(password@),
    ensures
        score <= MAX_STRENGTH_SCORE,
{
    u8::from(zxcvbn::zxcvbn(password, &[]).score())
}

/// A password has the required length.
pub open spec fn is_long_enough(password: Seq<char>) -> bool {
    password.len() >= MIN_PASSWORD_LENGTH
}

/// An estimate meets a required score. Where a score above zero is
/// required, a missing estimate does not meet it.
pub open spec fn is_strong_enough(estimate: Option<u8>, min_score: u8) -> bool {
    min_score == 0 || (estimate matches Some(score) && score >= min_score)
}

/// A validated password. Its text never changes after construction. It
/// is held in the clear, and `Debug` prints it: keep it out of logs.
#[derive(Debug, Eq, Hash)]
pub struct Password(String);

impl View for Password {
    type V = Seq<char>;

    closed spec fn view(&self) -> Seq<char> {
        self.0@
    }
}

impl Password {
    #[verifier::type_invariant]
    spec fn valid(self) -> bool {
        is_long_enough(self.0@)
    }

    /// Decides on a password from its text and the strength estimate that
    /// was obtained for it, `None` where no estimate could be had: accepted
    /// exactly when it is long enough and strong enough.
    pub fn from_estimate(
        pas: &str,
        estimate: Option<u8>,
        min_score: u8,
    ) -> (r: Result<Password, CreateUserError>)
        ensures
            match r {
                Ok(parsed) => is_long_enough(pas@) && is_strong_enough(estimate, min_score)
                    && parsed@ == pas@,
                Err(e) => !(is_long_enough(pas@) && is_strong_enough(estimate, min_score)) && e
                    == CreateUserError::InvalidPassword,
            },
    {
        if pas.unicode_len() < MIN_PASSWORD_LENGTH {
            return Err(CreateUserError::InvalidPassword);
        }
        let strong = min_score == 0 || match estimate {
            Some(score) => score >= min_score,
            None => false,
        };
        if strong {
            Ok(Password(pas.to_owned()))
        } else {
            Err(CreateUserError::InvalidPassword)
        }
    }

    /// Accepts a password that is long enough and whose estimated strength
    /// reaches `min_score`. With `min_score` zero the length alone decides
    /// and no estimate is made. With a higher one, a password that the
    /// estimator cannot be shown has no estimate, and is refused as not
    /// strong enough.
    pub fn parse_with_strength(pas: &str, min_score: u8) -> (r: Result<Password, CreateUserError>)
        ensures
            !is_long_enough(pas@) ==> r is Err,
            is_long_enough(pas@) && min_score == 0 ==> r is Ok,
            min_score > 0 && !can_be_estimated(pas@) ==> r is Err,
            min_score > MAX_STRENGTH_SCORE ==> r is Err,
            r matches Ok(parsed) ==> is_long_enough(pas@) && parsed@ == pas@,
            r matches Err(e) ==> e == CreateUserError::InvalidPassword,
    {
        let length = pas.unicode_len();
        if length < MIN_PASSWORD_LENGTH {
            return Err(CreateUserError::InvalidPassword);
        }
        let estimate = if min_score > 0 && length <= MAX_ESTIMATED_LENGTH {
            Some(estimate_strength(pas))
        } else {
            None
        };
        Password::from_estimate(pas, estimate, min_score)
    }

    /// Accepts a password that is long enough and as strong as
    /// `REQUIRED_STRENGTH_SCORE` asks: exactly the passwords that are long
    /// enough. It keeps the text as given.
    pub fn parse(pas: &str) -> (r: Result<Password, CreateUserError>)
        ensures
            match r {
                Ok(parsed) => is_long_enough(pas@) && parsed@ == pas@,
                Err(e) => !is_long_enough(pas@) && e == CreateUserError::InvalidPassword,
            },
    {
        Password::parse_with_strength(pas, REQUIRED_STRENGTH_SCORE)
    }

    /// The password as text; every `Password` is long enough.
    pub fn as_str(&self) -> (s: &str)
        ensures
            s@ == self@,
            is_long_enough(self@),
    {
        proof {
            use_type_invariant(self);
        }
        self.0.as_str()
    }
}

impl Clone for Password {
    fn clone(&self) -> (r: Self)
        ensures
            r@ == self@,
    {
        proof {
            use_type_invariant(self);
        }
        Password(self.0.clone())
    }
}

impl AsRef<str> for Password {
    fn as_ref(&self) -> (s: &str)
        ensures
            s@ == self@,
    {
        self.0.as_str()
    }
}

impl PartialEq for Password {
    fn eq(&self, other: &Self) -> (equal: bool) {
        self.0 == other.0
    }
}

impl vstd::std_specs::cmp::PartialEqSpecImpl for Password {
    open spec fn obeys_eq_spec() -> bool {
        true
    }

    open spec fn eq_spec(&self, other: &Self) -> bool {
        self@ == other@
    }
}

} // verus!
