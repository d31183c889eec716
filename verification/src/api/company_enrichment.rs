//! Result schema of the company enrichment endpoint.

use vstd::prelude::*;

verus! {

/// A company record, as the company enrichment endpoint returns it. Fields
/// the upstream API may omit are optional; absence is kept distinct from an
/// empty value.
#[derive(Debug, Clone, PartialEq)]
pub struct CompanyDetails {
    /// Company name, if known.
    pub name: Option<String>,
    /// The queried domain.
    pub domain: String,
    /// Founding year, if known.
    pub year_founded: Option<i64>,
    /// Industry, if known.
    pub industry: Option<String>,
    /// Number of employees, if known.
    pub employees_count: Option<i64>,
    /// Locality, if known.
    pub locality: Option<String>,
    /// Country, if known.
    pub country: Option<String>,
    /// LinkedIn URL, if known.
    pub linkedin_url: Option<String>,
}

} // verus!
