use vstd::prelude::*;
use vstd::arithmetic::power2::pow2;

verus! {

/// Lower-case hexadecimal digits, indexed by their value.
pub open spec fn hex_digits() -> Seq<char> {
    seq!['0', '1', '2', '3', '4', '5', '6', '7', '8', '9', 'a', 'b', 'c', 'd', 'e', 'f']
}

/// The `k`-th hexadecimal digit of `v`, counting from the most significant.
pub open spec fn nibble(v: u128, k: int) -> int {
    (v as int / pow2((4 * (31 - k)) as nat) as int) % 16
}

/// How many hyphens precede position `i` of the hyphenated form.
pub open spec fn hyphens_before(i: int) -> int {
    if i < 9 { 0 } else if i < 14 { 1 } else if i < 19 { 2 } else if i < 24 { 3 } else { 4 }
}

/// The hyphenated lower-case form of a UUID, `xxxxxxxx-xxxx-xxxx-xxxx-xxxxxxxxxxxx`.
pub open spec fn hyphenated(v: u128) -> Seq<char> {
    Seq::new(
        36,
        |i: int|
            if i == 8 || i == 13 || i == 18 || i == 23 {
                '-'
            } else {
                hex_digits()[nibble(v, i - hyphens_before(i))]
            },
    )
}

/// Bits of a UUID that hold its version and variant.
pub const VERSION_VARIANT_MASK: u128 = 0xF000_C000_0000_0000_0000;

/// The version and variant bits of a random (version 4, RFC 4122) UUID.
pub const RANDOM_VERSION_VARIANT: u128 = 0x4000_8000_0000_0000_0000;

/// Relies on uuid::Uuid::new_v4 (with Uuid::as_u128): a random identifier
/// whose version bits say 4 and whose variant bits say RFC 4122. (It panics
/// only when the operating system's random source fails.)
#[verifier::external_body]
pub(crate) fn random_uuid() -> (r: u128)
    ensures
        r & VERSION_VARIANT_MASK == RANDOM_VERSION_VARIANT,
{
    uuid::Uuid::new_v4().as_u128()
}

/// Relies on uuid::Uuid::from_u128 and its hyphenated formatting: the 32
/// lower-case hex digits of the big-endian value, grouped 8-4-4-4-12.
#[verifier::external_body]
pub(crate) fn uuid_text(id: u128) -> (r: String)
    ensures
        r@ == hyphenated(id),
{
    uuid::Uuid::from_u128(id).hyphenated().to_string()
}

/// The filename stored for a new document, built from a fresh token.
pub open spec fn document_filename_of(token: u128) -> Seq<char> {
    "document_"@ + hyphenated(token) + ".jpg"@
}

/// Builds `document_<token>.jpg`, the token in hyphenated form.
pub fn document_filename(token: u128) -> (r: String)
    ensures
        r@ == document_filename_of(token),
{
    let text = uuid_text(token);
    let name = String::from_str("document_").concat(text.as_str());
    name.concat(".jpg")
}

} // verus!
