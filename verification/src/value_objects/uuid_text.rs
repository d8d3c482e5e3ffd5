//! Calls into the `uuid` crate, over the 128-bit value of a UUID.
use crate::text::hex_lower_char;
use vstd::prelude::*;

verus! {

/// The version field of a UUID (the high four bits of its seventh byte).
pub open spec fn uuid_version(u: u128) -> u128 {
    (u >> 76u128) & 0xfu128
}

/// The variant field of a UUID (the high two bits of its ninth byte).
pub open spec fn uuid_variant(u: u128) -> u128 {
    (u >> 62u128) & 0x3u128
}

/// The `k`-th four-bit group of a UUID, counting from the most significant.
pub open spec fn uuid_nibble(u: u128, k: int) -> int {
    ((u >> ((124 - 4 * k) as u128)) & 0xfu128) as int
}

/// The hyphenated lower-case text of a UUID, e.g.
/// `67e55044-10b1-426f-9247-bb680e5fe0c8`.
pub open spec fn uuid_text(u: u128) -> Seq<char> {
    Seq::new(
        36,
        |p: int|
            if p == 8 || p == 13 || p == 18 || p == 23 {
                '-'
            } else {
                let k = if p < 8 {
                    p
                } else if p < 13 {
                    p - 1
                } else if p < 18 {
                    p - 2
                } else if p < 23 {
                    p - 3
                } else {
                    p - 4
                };
                hex_lower_char(uuid_nibble(u, k))
            },
    )
}

/// What `uuid::Uuid::parse_str` accepts, and the value it parses, for a text.
pub uninterp spec fn uuid_parsed(s: Seq<char>) -> Option<u128>;

/// The text of the error `uuid::Uuid::parse_str` gives for a text it
/// refuses (its `Display`).
pub uninterp spec fn uuid_error_text(s: Seq<char>) -> Seq<char>;

/// Calls `uuid::Uuid::now_v7`. The result depends on the clock and on random
/// bits; the contract states only what holds of every outcome: the version
/// field is 7 and the variant is the RFC 9562 one.
///
/// The call can panic in a broken environment, and no input rules that out:
/// `uuid` panics when the system clock reads before 1970 and when the
/// operating system cannot supply random bytes. Every `*Id::new` (and so
/// every aggregate constructor) shares this.
#[verifier::external_body]
pub(crate) fn uuid_now_v7() -> (u: u128)
    ensures
        uuid_version(u) == 7,
        uuid_variant(u) == 2,
{
    uuid::Uuid::now_v7().as_u128()
}

/// When `s` is the hyphenated text of a UUID, the parse gives that UUID.
pub open spec fn hyphenated_text_parses(s: Seq<char>, r: Result<u128, String>) -> bool {
    forall|u: u128| #[trigger] uuid_text(u) == s ==> r == Ok::<u128, String>(u)
}

/// Calls `uuid::Uuid::parse_str`; its result is named by [`uuid_parsed`],
/// and the text of its error, when it refuses, by [`uuid_error_text`].
/// Beside the name, the contract states what the crate documents of the
/// hyphenated form it writes itself: that text parses back to the same
/// value.
#[verifier::external_body]
pub(crate) fn uuid_parse(s: &str) -> (r: Result<u128, String>)
    ensures
        r is Ok <==> uuid_parsed(s@) is Some,
        r matches Ok(u) ==> uuid_parsed(s@) == Some(u),
        r matches Err(m) ==> m@ == uuid_error_text(s@),
        hyphenated_text_parses(s@, r),
{
    uuid::Uuid::parse_str(s).map(|u| u.as_u128()).map_err(|e| e.to_string())
}

/// Calls the `Display` of `uuid::Uuid`, which writes the hyphenated
/// lower-case form.
#[verifier::external_body]
pub(crate) fn uuid_to_string(u: u128) -> (s: String)
    ensures
        s@ == uuid_text(u),
{
    uuid::Uuid::from_u128(u).to_string()
}

} // verus!
