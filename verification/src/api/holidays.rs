//! Result schema of the holidays endpoint.

use vstd::prelude::*;

verus! {

/// The holidays endpoint returns an ordered sequence of holiday records.
pub type Holidays = Vec<Holiday>;

/// A holiday record, as the holidays endpoint returns it.
#[derive(Debug, Clone, PartialEq)]
pub struct Holiday {
    /// English name.
    pub name: String,
    /// Local name.
    pub name_local: String,
    /// Language of the local name.
    pub language: String,
    /// Description.
    pub description: String,
    /// Country code.
    pub country: String,
    /// Location the holiday applies to.
    pub location: String,
    /// Kind of holiday; the wire format calls this field `type`.
    pub type_field: String,
    /// Date.
    pub date: String,
    /// Year of the date.
    pub date_year: String,
    /// Month of the date.
    pub date_month: String,
    /// Day of the date.
    pub date_day: String,
    /// Weekday of the date.
    pub week_day: String,
}

} // verus!
