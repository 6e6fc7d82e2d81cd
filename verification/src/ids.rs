//! Point and author identities.
//!
//! Identities carry 128-bit UUID semantics.  Inside the library an identity
//! is its 128-bit value; the engine's wire format carries identities as
//! text, so the library converts through the `uuid` crate.  The text of an
//! identity, and which texts parse back to one, are functions of the values
//! alone; they are given names here and the conversions are trusted calls
//! whose contracts speak of those names.

use vstd::prelude::*;

verus! {

/// The canonical text of a 128-bit identity: its hyphenated form.
pub uninterp spec fn uuid_text_of(id: u128) -> Seq<char>;

/// Which identity, if any, a given text denotes.
pub uninterp spec fn uuid_of_text(s: Seq<char>) -> Option<u128>;

/// Relies on `uuid::Uuid`'s `Display` impl, which renders the hyphenated
/// lowercase form: 36 characters, determined by the 128-bit value alone.
#[verifier::external_body]
pub(crate) fn format_uuid(id: u128) -> (r: String)
    ensures
        r@ == uuid_text_of(id),
        r@.len() == 36,
{
    uuid::Uuid::from_u128(id).to_string()
}

/// Relies on `uuid::Uuid::parse_str`: whether a text is accepted, and the
/// 128-bit value it denotes, depend on the text alone.
#[verifier::external_body]
pub(crate) fn parse_uuid_text(s: &str) -> (r: Option<u128>)
    ensures
        r == uuid_of_text(s@),
{
    match uuid::Uuid::parse_str(s) {
        Ok(u) => Some(u.as_u128()),
        Err(_) => None,
    }
}

} // verus!
