//! Result sub-schemas of the IP geolocation endpoint.
//!
//! The top-level geolocation record carries floating-point coordinates, so it
//! lives with the HTTP layer around this crate; its nested records are here.

use vstd::prelude::*;

verus! {

/// Security information within a geolocation record.
#[derive(Debug, Clone, PartialEq)]
pub struct Security {
    /// Whether the address belongs to a VPN.
    pub is_vpn: bool,
}

/// Timezone information within a geolocation record.
#[derive(Debug, Clone, PartialEq)]
pub struct Timezone {
    /// Timezone name.
    pub name: String,
    /// Timezone abbreviation.
    pub abbreviation: String,
    /// Offset from GMT, in hours.
    pub gmt_offset: i64,
    /// Current time at the location.
    pub current_time: String,
    /// Whether daylight saving time is in effect.
    pub is_dst: bool,
}

/// Flag renderings within a geolocation record.
#[derive(Debug, Clone, PartialEq)]
pub struct Flag {
    /// The flag as an emoji.
    pub emoji: String,
    /// The flag as a unicode escape.
    pub unicode: String,
    /// URL of a PNG rendering.
    pub png: String,
    /// URL of an SVG rendering.
    pub svg: String,
}

/// Currency information within a geolocation record.
#[derive(Debug, Clone, PartialEq)]
pub struct Currency {
    /// Currency name.
    pub currency_name: String,
    /// Currency code.
    pub currency_code: String,
}

/// Connection information within a geolocation record.
#[derive(Debug, Clone, PartialEq)]
pub struct Connection {
    /// Autonomous system number.
    pub autonomous_system_number: i64,
    /// Autonomous system organization.
    pub autonomous_system_organization: String,
    /// Connection type.
    pub connection_type: String,
    /// ISP name.
    pub isp_name: String,
    /// Organization name, if known.
    pub organization_name: Option<String>,
}

} // verus!
