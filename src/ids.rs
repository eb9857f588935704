use vstd::prelude::*;
use crate::job::JobId;

verus! {

/// Lower-case hexadecimal digit of a value below sixteen.
pub open spec fn hex_digit(d: u128) -> char {
    seq!['0', '1', '2', '3', '4', '5', '6', '7', '8', '9', 'a', 'b', 'c', 'd', 'e', 'f'][d as int]
}

pub open spec fn hyphen_at(p: int) -> bool {
    p == 8 || p == 13 || p == 18 || p == 23
}

/// Which of the 32 digits stands at text position `p` (not a hyphen).
pub open spec fn digit_at(p: int) -> int {
    p - (if p > 23 { 4int } else if p > 18 { 3int } else if p > 13 { 2int } else if p > 8 { 1int } else { 0int })
}

/// The `k`-th of the 32 hexadecimal digits of `v`, the most significant first.
pub open spec fn nibble(v: u128, k: int) -> u128 {
    (v >> ((124 - 4 * k) as u128)) & 0xf
}

/// The hyphenated text of an identifier: 8-4-4-4-12 lower-case digits.
pub open spec fn id_text(v: u128) -> Seq<char> {
    Seq::new(36, |p: int| if hyphen_at(p) { '-' } else { hex_digit(nibble(v, digit_at(p))) })
}

/// What `uuid::Uuid::parse_str` makes of a text (simple, hyphenated, braced
/// and URN forms are accepted).
pub uninterp spec fn parsed_id(s: Seq<char>) -> Option<u128>;

/// Relies on uuid::Uuid::new_v4: a random version-4 UUID, whose version
/// nibble is 4 and whose variant bits are 10.
#[verifier::external_body]
pub(crate) fn fresh_id() -> (r: JobId)
    ensures
        (r >> 76u128) & 0xf == 4,
        (r >> 62u128) & 0x3 == 2,
{
    uuid::Uuid::new_v4().as_u128()
}

/// Relies on the `Display` of uuid::Uuid (built by uuid::Uuid::from_u128):
/// the hyphenated lower-case form of the 128-bit value.
#[verifier::external_body]
pub(crate) fn format_id(id: JobId) -> (r: String)
    ensures
        r@ == id_text(id),
{
    uuid::Uuid::from_u128(id).to_string()
}

/// Relies on uuid::Uuid::parse_str (read back with as_u128), which accepts
/// the hyphenated form that `format_id` writes, and only texts of 32, 36, 38
/// or 45 characters, all of them ASCII.
#[verifier::external_body]
pub(crate) fn parse_id(text: &str) -> (r: Option<JobId>)
    ensures
        r == parsed_id(text@),
        forall|v: u128| text@ == id_text(v) ==> r == Some(v),
        r is Some ==> text@.len() == 32 || text@.len() == 36 || text@.len() == 38 || text@.len() == 45,
{
    uuid::Uuid::parse_str(text).ok().map(|u| u.as_u128())
}

} // verus!
