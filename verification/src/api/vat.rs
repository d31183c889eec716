//! Result schemas of the VAT endpoints.

use vstd::prelude::*;

verus! {

/// A VAT number validation record, as the VAT validation endpoint returns it.
#[derive(Debug, Clone, PartialEq)]
pub struct VatDetails {
    /// The VAT number that was validated.
    pub vat_number: String,
    /// Whether the number is valid.
    pub valid: bool,
    /// The company registered under the number.
    pub company: Company,
    /// The country of the number.
    pub country: Country,
}

/// The company a VAT number is registered to.
#[derive(Debug, Clone, PartialEq)]
pub struct Company {
    /// Registered name.
    pub name: String,
    /// Registered address.
    pub address: String,
}

/// A country, by code and name.
#[derive(Debug, Clone, PartialEq)]
pub struct Country {
    /// Country code.
    pub code: String,
    /// Country name.
    pub name: String,
}

/// A VAT calculation record, as the VAT calculation endpoint returns it.
/// Amounts are rendered as text by the upstream API.
#[derive(Debug, Clone, PartialEq)]
pub struct Vat {
    /// Amount without VAT.
    pub amount_excluding_vat: String,
    /// Amount with VAT.
    pub amount_including_vat: String,
    /// The VAT amount.
    pub vat_amount: String,
    /// The category the rate was taken from.
    pub vat_category: String,
    /// The rate that was applied.
    pub vat_rate: String,
    /// The country whose rate was applied.
    pub country: Country,
}

/// The VAT categories endpoint returns an ordered sequence of rate records.
pub type VatRates = Vec<VatRate>;

/// One VAT rate category of a country.
#[derive(Debug, Clone, PartialEq)]
pub struct VatRate {
    /// Country code.
    pub country_code: String,
    /// The rate, rendered as text.
    pub rate: String,
    /// Category name.
    pub category: String,
    /// Category description.
    pub description: String,
}

} // verus!
