//! A validated, normalized email address.
use crate::error::{DomainError, DomainErrorView};
use crate::text::{
    ascii_lower, is_ascii_text, lemma_ascii_normalization_idempotent, lemma_trimmed_keeps_ascii, lowercased,
    to_lowercase, trim, trimmed,
};
use vstd::prelude::*;

verus! {

/// A validated email address (trimmed and lower-cased).
#[derive(Debug, PartialEq, Eq)]
pub struct Email(String);

impl View for Email {
    type V = Seq<char>;

    closed spec fn view(&self) -> Seq<char> {
        self.0@
    }
}

/// The text of an email address after trimming and lower-casing.
pub open spec fn normalized_email(value: Seq<char>) -> Seq<char> {
    lowercased(trimmed(value))
}

/// The validation message for a normalized address, or `None` when it is
/// accepted: it must be non-empty, hold an `@`, and have a non-empty part on
/// both sides of its first `@`.
pub open spec fn email_problem(t: Seq<char>) -> Option<Seq<char>> {
    if t.len() == 0 {
        Some("Email cannot be empty"@)
    } else if !t.contains('@') {
        Some("Email must contain '@'"@)
    } else if t[0] == '@' || (t.last() == '@' && forall|j: int| 0 <= j < t.len() - 1 ==> t[j] != '@') {
        Some("Email must have both local and domain parts"@)
    } else {
        None
    }
}

impl Clone for Email {
    fn clone(&self) -> (r: Self)
        ensures
            r == *self,
    {
        Email(self.0.clone())
    }
}

impl Email {
    /// Create a new email after trimming, lower-casing and basic validation.
    pub fn new(value: &str) -> (r: Result<Self, DomainError>)
        ensures
            email_problem(normalized_email(value@)) is None ==> (r matches Ok(e) && e@
                == normalized_email(value@)),
            email_problem(normalized_email(value@)) matches Some(m) ==> (r matches Err(err)
                && err@ == DomainErrorView::Validation(m)),
            is_ascii_text(value@) ==> normalized_email(value@) == ascii_lower(trimmed(value@)),
            is_ascii_text(value@) ==> is_ascii_text(normalized_email(value@)) && ascii_lower(
                trimmed(normalized_email(value@)),
            ) == normalized_email(value@),
    {
        proof {
            if is_ascii_text(value@) {
                lemma_ascii_normalization_idempotent(value@);
                lemma_trimmed_keeps_ascii(value@);
            }
        }
        let lowered = to_lowercase(trim(value));
        Self::from_normalized(lowered)
    }

    /// Validate an address as given, keeping its text: this does not trim or
    /// lower-case it. `Email::new` hands it the trimmed, lower-cased input;
    /// other callers are to pass text normalized the same way.
    pub fn from_normalized(t: String) -> (r: Result<Self, DomainError>)
        ensures
            email_problem(t@) is None ==> (r matches Ok(e) && e@ == t@),
            email_problem(t@) matches Some(m) ==> (r matches Err(err) && err@
                == DomainErrorView::Validation(m)),
    {
        let n = t.as_str().unicode_len();
        if n == 0 {
            return Err(DomainError::validation("Email cannot be empty"));
        }
        let mut first_at: usize = n;
        let mut i: usize = 0;
        while i < n
            invariant
                n == t@.len(),
                i <= n,
                first_at <= n,
                first_at == n ==> forall|j: int| 0 <= j < i ==> t@[j] != '@',
                first_at < n ==> first_at < i && t@[first_at as int] == '@' && forall|j: int|
                    0 <= j < first_at ==> t@[j] != '@',
            decreases n - i,
        {
            if first_at == n && t.as_str().get_char(i) == '@' {
                first_at = i;
            }
            i = i + 1;
        }
        if first_at == n {
            return Err(DomainError::validation("Email must contain '@'"));
        }
        assert(t@[first_at as int] == '@');
        assert(t@.contains('@'));
        if first_at == 0 || first_at == n - 1 {
            return Err(DomainError::validation("Email must have both local and domain parts"));
        }
        assert(0 < first_at);
        assert(t@[0] != '@');
        assert(!(t@.last() == '@' && forall|j: int| 0 <= j < t@.len() - 1 ==> t@[j] != '@')) by {
            if t@.last() == '@' {
                assert(t@[first_at as int] == '@' && first_at < t@.len() - 1);
            }
        }
        Ok(Email(t))
    }

    /// Access the inner email text.
    pub fn as_str(&self) -> (s: &str)
        ensures
            s@ == self@,
    {
        self.0.as_str()
    }

    /// Consume the email, returning the inner text.
    pub fn into_inner(self) -> (s: String)
        ensures
            s@ == self@,
    {
        self.0
    }

    /// The email text (what `Display` writes).
    pub fn to_string(&self) -> (s: String)
        ensures
            s@ == self@,
    {
        self.0.clone()
    }
}

impl AsRef<str> for Email {
    /// The email text.
    fn as_ref(&self) -> (s: &str)
        ensures
            s@ == self@,
    {
        self.0.as_str()
    }
}

/// True when `i` is the position of the first `@` in `t`.
pub open spec fn is_first_at(t: Seq<char>, i: int) -> bool {
    0 <= i < t.len() && t[i] == '@' && forall|j: int| 0 <= j < i ==> t[j] != '@'
}

/// A text that holds an `@` has a first one.
proof fn lemma_first_at_exists(t: Seq<char>)
    requires
        t.contains('@'),
    ensures
        exists|i: int| is_first_at(t, i),
    decreases t.len(),
{
    let k = choose|k: int| 0 <= k < t.len() && t[k] == '@';
    if t.drop_last().contains('@') {
        lemma_first_at_exists(t.drop_last());
        let i = choose|i: int| is_first_at(t.drop_last(), i);
        assert(t[i] == t.drop_last()[i]);
        assert forall|j: int| 0 <= j < i implies t[j] != '@' by {
            assert(t[j] == t.drop_last()[j]);
        }
        assert(is_first_at(t, i));
    } else {
        assert(k == t.len() - 1) by {
            if k < t.len() - 1 {
                assert(t.drop_last()[k] == '@');
            }
        }
        assert forall|j: int| 0 <= j < t.len() - 1 implies t[j] != '@' by {
            if t[j] == '@' {
                assert(t.drop_last()[j] == '@');
            }
        }
        assert(is_first_at(t, t.len() - 1));
    }
}

/// A normalized address is accepted exactly when it has a non-empty part on
/// both sides of its first `@` (so, for instance, any other characters,
/// further `@`s included, may stand around it).
pub proof fn lemma_email_acceptance(t: Seq<char>)
    ensures
        email_problem(t) is None <==> exists|i: int| is_first_at(t, i) && 0 < i < t.len() - 1,
{
    if exists|i: int| is_first_at(t, i) && 0 < i < t.len() - 1 {
        let i = choose|i: int| is_first_at(t, i) && 0 < i < t.len() - 1;
        assert(t.contains('@'));
        assert(t[0] != '@');
        assert(!(forall|j: int| 0 <= j < t.len() - 1 ==> t[j] != '@')) by {
            assert(t[i] == '@');
        }
    }
    if email_problem(t) is None {
        lemma_first_at_exists(t);
        let i = choose|i: int| is_first_at(t, i);
        assert(i != 0);
        if i == t.len() - 1 {
            assert(t.last() == '@');
            assert(forall|j: int| 0 <= j < t.len() - 1 ==> t[j] != '@');
        }
        assert(is_first_at(t, i) && 0 < i < t.len() - 1);
    }
}

} // verus!
