//! A six-digit one-time password code.
use crate::error::{DomainError, DomainErrorView};
use crate::text::{byte_len, is_ascii_digit};
use vstd::prelude::*;

verus! {

/// A 6-digit OTP code.
#[derive(Debug, Clone, PartialEq, Eq)]
pub struct OtpCode(String);

impl View for OtpCode {
    type V = Seq<char>;

    closed spec fn view(&self) -> Seq<char> {
        self.0@
    }
}

/// True when a text is a valid OTP code: six bytes long and made only of
/// ASCII digits.
pub open spec fn is_otp_text(s: Seq<char>) -> bool {
    byte_len(s) == 6 && all_digits(s)
}

/// True when every character is an ASCII digit.
pub open spec fn all_digits(s: Seq<char>) -> bool {
    forall|i: int| 0 <= i < s.len() ==> is_ascii_digit(#[trigger] s[i])
}

/// A text of ASCII digits takes one byte per character.
pub proof fn lemma_digits_byte_len(s: Seq<char>)
    requires
        all_digits(s),
    ensures
        byte_len(s) == s.len(),
{
    assert(vstd::utf8::is_ascii_chars(s));
    vstd::utf8::is_ascii_chars_encode_utf8(s);
}

impl OtpCode {
    /// Create a new OTP code, validating that it is exactly 6 digits.
    pub fn new(value: &str) -> (r: Result<Self, DomainError>)
        ensures
            is_otp_text(value@) ==> (r matches Ok(c) && c@ == value@),
            !is_otp_text(value@) ==> (r matches Err(e) && e@ == DomainErrorView::Validation(
                "OTP code must be exactly 6 digits"@,
            )),
    {
        if !all_ascii_digits(value) || value.unicode_len() != 6 {
            proof {
                if all_digits(value@) {
                    lemma_digits_byte_len(value@);
                }
            }
            return Err(DomainError::validation("OTP code must be exactly 6 digits"));
        }
        proof { lemma_digits_byte_len(value@); }
        Ok(OtpCode(value.to_owned()))
    }

    /// Access the inner code text.
    pub fn as_str(&self) -> (s: &str)
        ensures
            s@ == self@,
    {
        self.0.as_str()
    }

    /// Consume the OTP code, returning the inner text.
    pub fn into_inner(self) -> (s: String)
        ensures
            s@ == self@,
    {
        self.0
    }

    /// What `Display` writes: never the code itself.
    pub fn to_string(&self) -> (s: String)
        ensures
            s@ == "[OTP REDACTED]"@,
    {
        "[OTP REDACTED]".to_owned()
    }
}

/// True when every character of `s` is an ASCII digit.
fn all_ascii_digits(s: &str) -> (b: bool)
    ensures
        b == all_digits(s@),
{
    let n = s.unicode_len();
    let mut i: usize = 0;
    while i < n
        invariant
            n == s@.len(),
            i <= n,
            forall|j: int| 0 <= j < i ==> is_ascii_digit(#[trigger] s@[j]),
        decreases n - i,
    {
        let c = s.get_char(i);
        if !('0' <= c && c <= '9') {
            return false;
        }
        i = i + 1;
    }
    true
}

} // verus!
