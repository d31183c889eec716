//! Result schemas of the endpoints, one module per service.
//!
//! These are pure data contracts mirroring the upstream JSON shape; records
//! whose fields are floating-point numbers live with the HTTP layer around
//! this crate instead.

/// Company details API.
pub mod company_enrichment;
/// Email validation API.
pub mod email_validation;
/// Geolocation API.
pub mod geolocation;
/// Holidays API.
pub mod holidays;
/// Phone validation API.
pub mod phone_validation;
/// VAT API.
pub mod vat;

pub use company_enrichment::CompanyDetails;
pub use email_validation::{
    EmailResult, IsCatchallEmail, IsDisposableEmail, IsFreeEmail, IsMxFound, IsRoleEmail,
    IsSmtpValid, IsValidFormat,
};
pub use geolocation::{Connection, Currency, Flag, Security, Timezone};
pub use holidays::{Holiday, Holidays};
pub use phone_validation::{Format, PhoneResult};
pub use vat::{Vat, VatDetails, VatRate, VatRates};
