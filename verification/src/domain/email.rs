use super::errors::CreateUserError;
use vstd::prelude::*;

verus! {

/// The verdict of `validator::validate_email` on an address.
pub uninterp spec fn email_pattern_accepts(address: Seq<char>) -> bool;

/// Calls `validator::validate_email`, which answers from the text alone.
#[verifier::external_body]
fn matches_email_pattern(address: &str) -> (ok: bool)
    ensures
        ok == email_pattern_accepts(address@),
{
    validator::validate_email(address)
}

/// The place of the last `@` of a text.
pub open spec fn is_last_at(address: Seq<char>, at: int) -> bool {
    &&& 0 <= at < address.len()
    &&& address[at] == '@'
    &&& forall|k: int| at < k < address.len() ==> #[trigger] address[k] != '@'
}

/// A `.` in the domain part, which is what follows the last `@`.
pub open spec fn has_domain_separator(address: Seq<char>) -> bool {
    exists|at: int, dot: int|
        #[trigger] is_last_at(address, at) && at < dot < address.len() && #[trigger] address[dot]
            == '.'
}

/// A text has one last `@` at most.
pub proof fn lemma_last_at_unique(address: Seq<char>, a: int, b: int)
    requires
        is_last_at(address, a),
        is_last_at(address, b),
    ensures
        a == b,
{
    if a < b {
        assert(address[b] != '@');
    } else if b < a {
        assert(address[a] != '@');
    }
}

fn find_domain_separator(address: &str) -> (found: bool)
    ensures
        found == has_domain_separator(address@),
{
    let mut seen_at = false;
    let mut found = false;
    for c in it: address.chars()
        invariant
            it.seq() == address@,
            seen_at == exists|i: int| 0 <= i < it.index() && #[trigger] address@[i] == '@',
            found == has_domain_separator(address@.take(it.index() as int)),
    {
        let ghost n = it.index() as int;
        let ghost before = address@.take(n);
        let ghost after = address@.take(n + 1);
        assert(after.len() == n + 1 && after[n] == c);
        assert(forall|k: int| 0 <= k < n ==> #[trigger] after[k] == before[k]);
        if c == '@' {
            assert(address@[n] == '@');
            assert forall|at: int, dot: int|
                !(#[trigger] is_last_at(after, at) && at < dot < after.len() && #[trigger] after[dot]
                    == '.') by {
                if is_last_at(after, at) && at < n {
                    assert(after[n] != '@');
                }
            }
            seen_at = true;
            found = false;
        } else if c == '.' {
            if seen_at {
                proof {
                    let i = choose|i: int| 0 <= i < n && #[trigger] address@[i] == '@';
                    lemma_some_at_is_last(after, i);
                    let at = choose|at: int| is_last_at(after, at);
                    assert(at < n);
                    assert(is_last_at(after, at) && at < n < after.len() && after[n] == '.');
                }
                found = true;
            } else {
                assert forall|at: int| !is_last_at(after, at) by {
                    if is_last_at(after, at) {
                        assert(address@[at] == '@');
                    }
                }
            }
        } else {
            proof {
                lemma_separator_unchanged_by_other(before, after);
            }
        }
    }
    assert(address@.take(address@.len() as int) =~= address@);
    found
}

/// A text that holds an `@` has a last one.
proof fn lemma_some_at_is_last(address: Seq<char>, i: int)
    requires
        0 <= i < address.len(),
        address[i] == '@',
    ensures
        exists|at: int| is_last_at(address, at) && i <= at,
    decreases address.len() - i,
{
    if exists|k: int| i < k < address.len() && #[trigger] address[k] == '@' {
        let k = choose|k: int| i < k < address.len() && #[trigger] address[k] == '@';
        lemma_some_at_is_last(address, k);
    } else {
        assert(is_last_at(address, i));
    }
}

/// A character that is neither `@` nor `.` at the end of a text leaves
/// its domain separator as it was.
proof fn lemma_separator_unchanged_by_other(before: Seq<char>, after: Seq<char>)
    requires
        after.len() == before.len() + 1,
        forall|k: int| 0 <= k < before.len() ==> #[trigger] after[k] == before[k],
        after[before.len() as int] != '@',
        after[before.len() as int] != '.',
    ensures
        has_domain_separator(after) == has_domain_separator(before),
{
    let n = before.len() as int;
    if has_domain_separator(before) {
        let (at, dot) = choose|at: int, dot: int|
            #[trigger] is_last_at(before, at) && at < dot < before.len() && #[trigger] before[dot]
                == '.';
        assert(is_last_at(after, at)) by {
            assert forall|k: int| at < k < after.len() implies #[trigger] after[k] != '@' by {
                if k < n {
                    assert(before[k] != '@');
                }
            }
        }
        assert(after[dot] == '.');
    }
    if has_domain_separator(after) {
        let (at, dot) = choose|at: int, dot: int|
            #[trigger] is_last_at(after, at) && at < dot < after.len() && #[trigger] after[dot]
                == '.';
        assert(at < n && dot < n);
        assert(is_last_at(before, at)) by {
            assert forall|k: int| at < k < before.len() implies #[trigger] before[k] != '@' by {
                assert(after[k] != '@');
            }
        }
        assert(before[dot] == '.');
    }
}

/// The fewest characters an address can have: a local part, `@`, and a
/// domain of two labels around a `.`.
pub const MIN_EMAIL_LENGTH: usize = 5;

/// What makes a text an accepted address: it is long enough, its domain
/// part holds a `.`, and the pattern accepts it.
pub open spec fn is_valid_email(address: Seq<char>) -> bool {
    &&& address.len() >= MIN_EMAIL_LENGTH
    &&& has_domain_separator(address)
    &&& email_pattern_accepts(address)
}

/// No address is valid without an `@`, nor without a `.` in its domain
/// part, which is what follows the last `@`: a valid address holds both.
pub proof fn lemma_valid_email_has_at_and_separator(address: Seq<char>)
    ensures
        !address.contains('@') ==> !is_valid_email(address),
        !has_domain_separator(address) ==> !is_valid_email(address),
        forall|at: int|
            is_last_at(address, at) && !(#[trigger] address.skip(at + 1)).contains('.')
                ==> !is_valid_email(address),
        is_valid_email(address) ==> address.contains('@') && address.contains('.'),
{
    if has_domain_separator(address) {
        let (at, dot) = choose|at: int, dot: int|
            #[trigger] is_last_at(address, at) && at < dot < address.len() && #[trigger] address[dot]
            == '.';
        assert(address.contains(address[at]));
        assert(address.contains(address[dot]));
        assert forall|other: int|
            is_last_at(address, other) implies (#[trigger] address.skip(other + 1)).contains(
            '.',
        ) by {
            lemma_last_at_unique(address, at, other);
            assert(address.skip(at + 1)[dot - at - 1] == '.');
        }
    }
}

/// A validated e-mail address. Its text never changes after construction.
#[derive(Debug, Eq, Hash)]
pub struct Email(String);

impl View for Email {
    type V = Seq<char>;

    closed spec fn view(&self) -> Seq<char> {
        self.0@
    }
}

impl Email {
    #[verifier::type_invariant]
    spec fn valid(self) -> bool {
        is_valid_email(self.0@)
    }

    /// Accepts exactly the valid addresses, and keeps the text as given.
    /// A text without an `@`, or without a `.` after its last `@`, is
    /// refused.
    pub fn parse(email: &str) -> (r: Result<Email, CreateUserError>)
        ensures
            match r {
                Ok(parsed) => is_valid_email(email@) && parsed@ == email@,
                Err(e) => !is_valid_email(email@) && e == CreateUserError::InvalidEmail,
            },
            !email@.contains('@') || !has_domain_separator(email@) ==> r is Err,
    {
        proof {
            lemma_valid_email_has_at_and_separator(email@);
        }
        if email.unicode_len() >= MIN_EMAIL_LENGTH && find_domain_separator(email)
            && matches_email_pattern(email) {
            Ok(Email(email.to_owned()))
        } else {
            Err(CreateUserError::InvalidEmail)
        }
    }

    /// The address as text; every `Email` holds a valid one.
    pub fn as_str(&self) -> (s: &str)
        ensures
            s@ == self@,
            is_valid_email(self@),
    {
        proof {
            use_type_invariant(self);
        }
        self.0.as_str()
    }
}

impl Clone for Email {
    fn clone(&self) -> (r: Self)
        ensures
            r@ == self@,
    {
        proof {
            use_type_invariant(self);
        }
        Email(self.0.clone())
    }
}

impl AsRef<str> for Email {
    fn as_ref(&self) -> (s: &str)
        ensures
            s@ == self@,
    {
        self.0.as_str()
    }
}

impl PartialEq for Email {
    fn eq(&self, other: &Self) -> (equal: bool) {
        self.0 == other.0
    }
}

impl vstd::std_specs::cmp::PartialEqSpecImpl for Email {
    open spec fn obeys_eq_spec() -> bool {
        true
    }

    open spec fn eq_spec(&self, other: &Self) -> bool {
        self@ == other@
    }
}

} // verus!
