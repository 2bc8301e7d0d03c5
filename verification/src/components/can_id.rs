//! Identifiers of the bus, as the crate `embedded_can` holds them.
//!
//! Nothing in this file is proved: it states what the library takes from
//! `embedded_can` on trust.

use vstd::prelude::*;

verus! {

/// `embedded_can::Id`: a standard (11-bit) or an extended (29-bit) identifier.
#[verifier::external_type_specification]
#[verifier::external_body]
pub struct ExId(embedded_can::Id);

/// What `embedded_can::StandardId::as_raw` returns for the identifier inside
/// a standard `Id`: its bits. `None` for an extended identifier.
pub uninterp spec fn standard_bits(id: embedded_can::Id) -> Option<u16>;

/// Calls `embedded_can::StandardId::new` and wraps the identifier in
/// `embedded_can::Id::Standard`. The crate makes an identifier of every number
/// up to `0x7FF`, with that number as its bits, and of no other number.
#[verifier::external_body]
pub(crate) fn standard_id(raw: u16) -> (id: Option<embedded_can::Id>)
    ensures
        id is Some <==> raw <= 0x7FF,
        id is Some ==> standard_bits(id.unwrap()) == Some(raw),
{
    embedded_can::StandardId::new(raw).map(embedded_can::Id::Standard)
}

/// Calls `embedded_can::StandardId::as_raw` on the identifier inside a
/// standard `Id`; an extended one gives `None`.
#[verifier::external_body]
pub(crate) fn standard_raw(id: &embedded_can::Id) -> (raw: Option<u16>)
    ensures
        raw == standard_bits(*id),
{
    match id {
        embedded_can::Id::Standard(standard) => Some(standard.as_raw()),
        embedded_can::Id::Extended(_) => None,
    }
}

} // verus!
