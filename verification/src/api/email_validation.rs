//! Result schema of the email validation endpoint.

use vstd::prelude::*;

verus! {

/// An email validation record, as the email validation endpoint returns it.
#[derive(Debug, Clone, PartialEq)]
pub struct EmailResult {
    /// The address that was validated.
    pub email: String,
    /// The autocorrected address, or an empty string.
    pub autocorrect: String,
    /// Deliverability verdict.
    pub deliverability: String,
    /// Quality score, rendered as text.
    pub quality_score: String,
    /// Whether the address is well formed.
    pub is_valid_format: IsValidFormat,
    /// Whether the address belongs to a free provider.
    pub is_free_email: IsFreeEmail,
    /// Whether the address is disposable.
    pub is_disposable_email: IsDisposableEmail,
    /// Whether the address is a role address.
    pub is_role_email: IsRoleEmail,
    /// Whether the domain accepts any local part.
    pub is_catchall_email: IsCatchallEmail,
    /// Whether an MX record was found.
    pub is_mx_found: IsMxFound,
    /// Whether the SMTP check succeeded.
    pub is_smtp_valid: IsSmtpValid,
}

/// A boolean verdict with its textual rendering.
#[derive(Debug, Clone, PartialEq)]
pub struct IsValidFormat {
    /// The verdict.
    pub value: bool,
    /// The verdict as text.
    pub text: String,
}

/// A boolean verdict with its textual rendering.
#[derive(Debug, Clone, PartialEq)]
pub struct IsFreeEmail {
    /// The verdict.
    pub value: bool,
    /// The verdict as text.
    pub text: String,
}

/// A boolean verdict with its textual rendering.
#[derive(Debug, Clone, PartialEq)]
pub struct IsDisposableEmail {
    /// The verdict.
    pub value: bool,
    /// The verdict as text.
    pub text: String,
}

/// A boolean verdict with its textual rendering.
#[derive(Debug, Clone, PartialEq)]
pub struct IsRoleEmail {
    /// The verdict.
    pub value: bool,
    /// The verdict as text.
    pub text: String,
}

/// A boolean verdict with its textual rendering.
#[derive(Debug, Clone, PartialEq)]
pub struct IsCatchallEmail {
    /// The verdict.
    pub value: bool,
    /// The verdict as text.
    pub text: String,
}

/// A boolean verdict with its textual rendering.
#[derive(Debug, Clone, PartialEq)]
pub struct IsMxFound {
    /// The verdict.
    pub value: bool,
    /// The verdict as text.
    pub text: String,
}

/// A boolean verdict with its textual rendering.
#[derive(Debug, Clone, PartialEq)]
pub struct IsSmtpValid {
    /// The verdict.
    pub value: bool,
    /// The verdict as text.
    pub text: String,
}

} // verus!
