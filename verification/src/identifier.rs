//! 128-bit identifiers and their canonical text, as the `uuid` crate reads and
//! writes it.

use vstd::prelude::*;

verus! {

/// The text that `uuid::Uuid` displays for the identifier with the given bits:
/// thirty-two lower-case hexadecimal digits in five hyphenated groups.
pub uninterp spec fn uuid_text(value: u128) -> Seq<char>;

/// The bits of the identifier that `uuid::Uuid::parse_str` reads from a text,
/// or `None` where it rejects the text.
pub uninterp spec fn uuid_parse(text: Seq<char>) -> Option<u128>;

/// `uuid::Error`, the reason for which the `uuid` crate rejects a text. The
/// library hands it on and never looks inside.
#[verifier::external_type_specification]
#[verifier::external_body]
pub struct ExUuidError(uuid::Error);

/// Whether the bits are those of a randomly drawn identifier: the version
/// field holds 4, the variant field holds binary 10, and the other 122 bits
/// are free.
pub open spec fn is_random_uuid(value: u128) -> bool {
    (value & 0x0000_0000_0000_f000_c000_0000_0000_0000)
        == 0x0000_0000_0000_4000_8000_0000_0000_0000
}

/// Calls `uuid::Uuid::new_v4` and hands back the bits of the identifier it
/// drew. The value comes from the operating system's random source. The
/// contract claims only what the crate fixes of every such value: its
/// version field and its variant field.
#[verifier::external_body]
pub(crate) fn random_uuid() -> (value: u128)
    ensures
        is_random_uuid(value),
{
    uuid::Uuid::new_v4().as_u128()
}

/// Calls `to_string` on the `uuid::Uuid` with the given bits. The contract
/// claims that the result is the identifier's displayed text, and that
/// `uuid::Uuid::parse_str` reads the same identifier back from it, as the
/// crate documents of every format that it writes.
#[verifier::external_body]
pub(crate) fn format_uuid(value: u128) -> (text: String)
    ensures
        text@ == uuid_text(value),
        uuid_parse(text@) == Some(value),
{
    uuid::Uuid::from_u128(value).to_string()
}

/// Calls `uuid::Uuid::parse_str`. The contract claims that the call succeeds
/// exactly on the texts that the parser accepts, and then returns the bits of
/// the identifier it read.
#[verifier::external_body]
pub(crate) fn parse_uuid(text: &str) -> (parsed: Result<u128, uuid::Error>)
    ensures
        parsed is Ok <==> uuid_parse(text@) is Some,
        parsed matches Ok(value) ==> uuid_parse(text@) == Some(value),
{
    match uuid::Uuid::parse_str(text) {
        Ok(id) => Ok(id.as_u128()),
        Err(error) => Err(error),
    }
}

} // verus!
