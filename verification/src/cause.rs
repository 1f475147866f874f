//! Classified reasons for rejecting a request, and their mapping to
//! HTTP status codes.

use vstd::prelude::*;

verus! {

/// Every way a validation can fail. The distinct causes are kept apart
/// internally; on the wire they collapse to a generic status (401 for
/// authentication failures, 403 for scope failures) so that a caller
/// probing with forged tokens learns nothing about which check failed.
#[derive(Clone, Copy, Debug, PartialEq, Eq, Structural)]
pub enum RejectionCause {
    /// The `Authorization` header is absent, or its scheme is not
    /// exactly `Bearer` followed by a single space and a token.
    MissingOrMalformedCredential,
    /// The token cannot be parsed into its expected structural shape.
    MalformedToken,
    /// The token's header carries no key identifier.
    MissingKeyIdentifier,
    /// The discovery document could not be fetched or understood.
    DiscoveryUnavailable,
    /// The key-set document could not be fetched or understood.
    KeySetUnavailable,
    /// No entry of the key set carries the token's key identifier.
    KeyNotFound,
    /// The matching key entry has an empty certificate chain.
    CertificateMissing,
    /// The matching entry's first certificate is not standard base64,
    /// or no public key can be extracted from its DER bytes.
    InvalidKeyMaterial,
    /// The signature did not verify, or the declared algorithm is not
    /// on the asymmetric allow-list.
    SignatureInvalid,
    /// The token's expiry is not strictly in the future.
    TokenExpired,
    /// The token's audience differs from the configured audience.
    AudienceMismatch,
    /// The token's issuer matches neither accepted issuer form.
    IssuerMismatch,
    /// The token carries no scope claim at all.
    MissingScope,
    /// The scope claim is present but lacks the required scope token.
    InsufficientScope,
}

/// A scope failure is an authorization failure: the caller proved who it
/// is but lacks the permission. Everything else is an authentication
/// failure.
pub open spec fn is_scope_failure(c: RejectionCause) -> bool {
    c == RejectionCause::MissingScope || c == RejectionCause::InsufficientScope
}

/// HTTP status for a rejection: 403 for the two scope failures,
/// 401 for every authentication failure.
pub fn http_status(c: &RejectionCause) -> (s: u16)
    ensures
        s == 403 <==> is_scope_failure(*c),
        s == 401 <==> !is_scope_failure(*c),
{
    match c {
        RejectionCause::MissingScope => 403,
        RejectionCause::InsufficientScope => 403,
        _ => 401,
    }
}

} // verus!
