//! The failure kinds of attestation verification.

use vstd::prelude::*;

verus! {

/// Why verification of attestation evidence was aborted.
///
/// The kinds are disjoint, and the first failing step decides which one a
/// caller sees.
#[derive(Clone, Copy, Debug, PartialEq, Eq, Structural)]
pub enum AttestationError {
    /// Malformed bytes: a short or over-long buffer, an unknown version or
    /// signature-type discriminant, undecodable base64.
    ParseError,
    /// The certificate does not have the expected X.509 structure.
    CertError,
    /// The signing certificate does not chain to the pinned root, or the
    /// report signature does not verify.
    CryptoError,
    /// The signed report lacks a field, carries an unusable timestamp, or is
    /// not bound to the certificate's public key.
    ReportError,
    /// The current instant cannot be represented.
    TimeError,
}

impl AttestationError {
    /// A short human-readable description of the failure kind.
    pub fn message(&self) -> (text: &'static str)
        ensures
            text@ == Self::message_text(*self),
    {
        match self {
            AttestationError::ParseError => "malformed quote bytes",
            AttestationError::CertError => "malformed attestation certificate",
            AttestationError::CryptoError => "report is not endorsed under the pinned root",
            AttestationError::ReportError => "report is unusable or not bound to the key",
            AttestationError::TimeError => "current time is not representable",
        }
    }

    /// The text that [`AttestationError::message`] returns for each kind.
    pub open spec fn message_text(e: AttestationError) -> Seq<char> {
        match e {
            AttestationError::ParseError => "malformed quote bytes"@,
            AttestationError::CertError => "malformed attestation certificate"@,
            AttestationError::CryptoError => "report is not endorsed under the pinned root"@,
            AttestationError::ReportError => "report is unusable or not bound to the key"@,
            AttestationError::TimeError => "current time is not representable"@,
        }
    }
}

} // verus!
