use vstd::prelude::*;

verus! {

/// The text that the identifier crate prints for a 128-bit identifier:
/// the hyphenated lowercase form, a function of the value alone.
pub uninterp spec fn uuid_text_of(id: u128) -> Seq<char>;

/// The value that the identifier crate reads back from a piece of
/// text, or nothing where the text spells no identifier.
pub uninterp spec fn uuid_parse_of(s: Seq<char>) -> Option<u128>;

/// Relies on uuid's `Uuid::new_v4` for a fresh random 128-bit
/// identifier; the outcome is random, so nothing is assumed of it.
#[verifier::external_body]
pub(crate) fn fresh_uuid() -> (id: u128) {
    uuid::Uuid::new_v4().as_u128()
}

/// Relies on uuid's `Display` form: 36 ASCII characters, hyphenated
/// lowercase hexadecimal, which `Uuid::try_parse` documents it reads
/// back to the same value.
#[verifier::external_body]
pub(crate) fn format_uuid(id: u128) -> (s: String)
    ensures
        s@ == uuid_text_of(id),
        s@.len() == 36,
        uuid_parse_of(s@) == Some(id),
{
    uuid::Uuid::from_u128(id).to_string()
}

/// Relies on uuid's `Uuid::try_parse`: the accepted textual forms map
/// to the 128-bit value they spell.
#[verifier::external_body]
pub(crate) fn parse_uuid(s: &str) -> (r: Option<u128>)
    ensures
        r == uuid_parse_of(s@),
{
    match uuid::Uuid::try_parse(s) {
        Ok(u) => Some(u.as_u128()),
        Err(_) => None,
    }
}

} // verus!
