//! Identifiers. Every row and every single-use code is named by a 128-bit
//! UUID, held here as a `u128` and written in text in the hyphenated form.
use vstd::prelude::*;
use vstd::arithmetic::power::pow;
use crate::hasher::hex_text;

verus! {

/// The sixteen bytes of `x`, most significant first.
pub open spec fn be_bytes_16(x: u128) -> Seq<u8> {
    Seq::new(16, |i: int| ((x as int / pow(256, (15 - i) as nat)) % 256) as u8)
}

/// The hyphenated lowercase text of an identifier: 8-4-4-4-12 hex digits.
pub open spec fn uuid_text(x: u128) -> Seq<char> {
    let h = hex_text(be_bytes_16(x));
    h.subrange(0, 8) + seq!['-'] + h.subrange(8, 12) + seq!['-'] + h.subrange(12, 16) + seq!['-']
        + h.subrange(16, 20) + seq!['-'] + h.subrange(20, 32)
}

/// Whether `x` is marked as a random identifier: its version is 4 and its
/// variant is the one of RFC 9562, whatever the other 122 bits are.
pub open spec fn is_random_id(x: u128) -> bool {
    x & 0x0000_0000_0000_f000_c000_0000_0000_0000u128
        == 0x0000_0000_0000_4000_8000_0000_0000_0000u128
}

/// What `uuid::Uuid::parse_str` makes of a text: the identifier it denotes,
/// or `None` where it rejects the text.
pub uninterp spec fn uuid_parse(text: Seq<char>) -> Option<u128>;

/// Calls `uuid::Uuid::new_v4` and hands the value out as an integer
/// (`as_u128`). The value is random. Trusted: only what holds of every
/// outcome, that the version and variant bits are set as `new_v4` sets
/// them. `uuid` panics where the operating system gives it no randomness.
#[verifier::external_body]
pub(crate) fn random_uuid() -> (r: u128)
    ensures
        is_random_id(r),
{
    uuid::Uuid::new_v4().as_u128()
}

/// Formats `uuid::Uuid::from_u128(id)` through its `Display` (`to_string`).
/// Trusted: the result is the hyphenated lowercase form of the big-endian
/// bytes.
#[verifier::external_body]
pub(crate) fn uuid_to_string(id: u128) -> (r: String)
    ensures
        r@ == uuid_text(id),
{
    uuid::Uuid::from_u128(id).to_string()
}

/// Calls `uuid::Uuid::parse_str` and hands an accepted value out as an
/// integer (`as_u128`). Trusted: the result depends on the text alone, and
/// the hyphenated text of an identifier is read back as that identifier.
#[verifier::external_body]
pub(crate) fn uuid_from_str(text: &str) -> (r: Option<u128>)
    ensures
        r == uuid_parse(text@),
        forall|id: u128| text@ == uuid_text(id) ==> r == Some(id),
{
    match uuid::Uuid::parse_str(text) {
        Ok(id) => Some(id.as_u128()),
        Err(_) => None,
    }
}

/// A fresh random identifier, marked as one by its version and variant.
pub fn new_id() -> (r: u128)
    ensures
        is_random_id(r),
{
    random_uuid()
}

/// The text form of an identifier.
pub fn id_text(id: u128) -> (r: String)
    ensures
        r@ == uuid_text(id),
        r@.len() == 36,
{
    uuid_to_string(id)
}

/// Reads an identifier from text. What `id_text` writes is read back.
pub fn parse_id(text: &str) -> (r: Option<u128>)
    ensures
        r == uuid_parse(text@),
        forall|id: u128| text@ == uuid_text(id) ==> r == Some(id),
{
    uuid_from_str(text)
}

} // verus!
