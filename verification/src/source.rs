//! The two sources of randomness that an order draws on directly: a fresh
//! identifier and a whole number from a closed range.

use vstd::prelude::*;

verus! {

/// A digit of lower-case hexadecimal notation.
pub open spec fn is_lower_hex(c: char) -> bool {
    ('0' <= c && c <= '9') || ('a' <= c && c <= 'f')
}

/// The four places at which a hyphenated identifier holds its hyphens.
pub open spec fn is_hyphen_place(i: int) -> bool {
    i == 8 || i == 13 || i == 18 || i == 23
}

/// The textual shape of a 128-bit identifier: 36 characters, hyphens after the
/// 8th, 12th, 16th and 20th hexadecimal digit, lower-case digits elsewhere.
pub open spec fn is_hyphenated_id(s: Seq<char>) -> bool {
    &&& s.len() == 36
    &&& forall|i: int|
        0 <= i < 36 ==> if is_hyphen_place(i) {
            s[i] == '-'
        } else {
            is_lower_hex(#[trigger] s[i])
        }
}

/// Trusted: `uuid::Uuid::new_v4`, rendered by the `Display` of `uuid::Uuid`.
///
/// The identifier itself is random, so nothing is claimed of its digits. What
/// is claimed is the shape that `Display` gives every identifier: the
/// hyphenated lower-case form of 36 characters.
#[verifier::external_body]
pub(crate) fn fresh_id() -> (id: String)
    ensures
        is_hyphenated_id(id@),
{
    uuid::Uuid::new_v4().to_string()
}

/// Trusted: `rand::Rng::gen_range` on `rand::thread_rng()`, with the closed
/// range from `low` to `high`.
///
/// `gen_range` panics on an empty range, which `low <= high` rules out. The
/// value is random; the claim is only that it lies in the range.
#[verifier::external_body]
pub(crate) fn draw_between(low: u32, high: u32) -> (n: u32)
    requires
        low <= high,
    ensures
        low <= n <= high,
{
    rand::Rng::gen_range(&mut rand::thread_rng(), low..=high)
}

} // verus!
