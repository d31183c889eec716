//! Result schema of the phone validation endpoint.

use vstd::prelude::*;

verus! {

/// A phone validation record, as the phone validation endpoint returns it.
#[derive(Debug, Clone, PartialEq)]
pub struct PhoneResult {
    /// The number that was validated.
    pub phone: String,
    /// Whether the number is valid.
    pub valid: bool,
    /// The number's renderings.
    pub format: Format,
    /// The number's country.
    pub country: Country,
    /// Location associated with the number.
    pub location: String,
    /// Line type; the wire format calls this field `type`.
    pub type_: String,
    /// Carrier name.
    pub carrier: String,
}

/// The international and local renderings of a phone number.
#[derive(Debug, Clone, PartialEq)]
pub struct Format {
    /// International rendering.
    pub international: String,
    /// Local rendering.
    pub local: String,
}

/// The country a phone number belongs to.
#[derive(Debug, Clone, PartialEq)]
pub struct Country {
    /// Country code.
    pub code: String,
    /// Country name.
    pub name: String,
    /// Dialling prefix.
    pub prefix: String,
}

} // verus!
