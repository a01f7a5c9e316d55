//! Comparison of codes, and the ISO 3166 tables that country and
//! subdivision codes are checked against.
use vstd::prelude::*;
use vstd::string::StrSliceExecFns;

verus! {

/// Whether two strings hold the same characters.
pub fn str_equal(a: &str, b: &str) -> (r: bool)
    ensures
        r == (a@ == b@),
{
    let n = a.unicode_len();
    if n != b.unicode_len() {
        return false;
    }
    let mut i: usize = 0;
    while i < n
        invariant
            n == a@.len() == b@.len(),
            i <= n,
            forall|j: int| 0 <= j < i ==> a@[j] == b@[j],
        decreases n - i,
    {
        if a.get_char(i) != b.get_char(i) {
            return false;
        }
        i = i + 1;
    }
    assert(a@ =~= b@);
    true
}

/// What `rust_iso3166::from_alpha2` finds for a code: `None` for an unknown
/// code, else whether the country has ISO 3166-2 subdivisions.
pub uninterp spec fn iso_country(code: Seq<char>) -> Option<bool>;

/// The country code of the ISO 3166-2 subdivision with the given code, if the
/// table holds one.
pub uninterp spec fn iso_subdivision_country(code: Seq<char>) -> Option<Seq<char>>;

/// Relies on `rust_iso3166::from_alpha2` and `CountryCode::subdivisions`: a
/// lookup in fixed tables, so the answer depends on the code alone.
#[verifier::external_body]
pub(crate) fn lookup_iso_country(code: &str) -> (r: Option<bool>)
    ensures
        r == iso_country(code@),
{
    rust_iso3166::from_alpha2(code).map(|c| c.subdivisions().is_some())
}

/// Relies on `rust_iso3166::iso3166_2::from_code`: a lookup in a fixed table;
/// the subdivision's `country_code` field is handed back.
#[verifier::external_body]
pub(crate) fn lookup_iso_subdivision(code: &str) -> (r: Option<String>)
    ensures
        r matches Some(c) ==> iso_subdivision_country(code@) == Some(c@),
        r is None <==> iso_subdivision_country(code@) is None,
{
    rust_iso3166::iso3166_2::from_code(code).map(|s| s.country_code.to_string())
}

} // verus!
