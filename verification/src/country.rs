use vstd::prelude::*;

verus! {

/// Whether a territory code appears in the ISO 3166-1 alpha-2 table.
pub uninterp spec fn is_known_territory(code: Seq<char>) -> bool;

/// Relies on rust_iso3166::from_alpha2: an exact lookup of the code in the
/// crate's static ISO 3166-1 table, whose value carries the looked-up code
/// itself as its `alpha2` field.
#[verifier::external_body]
pub(crate) fn territory_for(code: &str) -> (r: Option<&'static str>)
    ensures
        r is Some <==> is_known_territory(code@),
        r matches Some(a) ==> a@ == code@,
{
    rust_iso3166::from_alpha2(code).map(|c| c.alpha2)
}

} // verus!
