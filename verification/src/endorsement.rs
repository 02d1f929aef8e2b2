//! The envelope in which an attestation report travels: the report as the
//! attestation service signed it, the signature, and the certificate of the
//! key that signed.

use vstd::prelude::*;
use crate::error::AttestationError;
use crate::json::{byte_array_member, json_document, member, parse_json};

verus! {

/// An attestation report together with its endorsement by the attestation
/// service.
pub struct EndorsedAttestationReport {
    /// The report: a JSON document, exactly as it was signed.
    pub report: Vec<u8>,
    /// The signature of the attestation service over `report`.
    pub signature: Vec<u8>,
    /// The DER-encoded certificate of the key that signed.
    pub signing_cert: Vec<u8>,
}

/// The mathematical content of an [`EndorsedAttestationReport`].
pub ghost struct EndorsedAttestationReportView {
    pub report: Seq<u8>,
    pub signature: Seq<u8>,
    pub signing_cert: Seq<u8>,
}

impl View for EndorsedAttestationReport {
    type V = EndorsedAttestationReportView;

    open spec fn view(&self) -> EndorsedAttestationReportView {
        EndorsedAttestationReportView {
            report: self.report@,
            signature: self.signature@,
            signing_cert: self.signing_cert@,
        }
    }
}

/// The envelope that the JSON document `payload` holds, if it is a JSON
/// document with the three members `report`, `signature` and
/// `signing_cert`, each an array of bytes.
pub open spec fn endorsed_report_of(payload: Seq<u8>) -> Option<EndorsedAttestationReportView> {
    match json_document(payload) {
        None => None,
        Some(members) => match member(members.byte_arrays, "report"@) {
            None => None,
            Some(report) => match member(members.byte_arrays, "signature"@) {
                None => None,
                Some(signature) => match member(members.byte_arrays, "signing_cert"@) {
                    None => None,
                    Some(signing_cert) => Some(
                        EndorsedAttestationReportView { report, signature, signing_cert },
                    ),
                },
            },
        },
    }
}

impl EndorsedAttestationReport {
    /// Reads the envelope out of the payload of the certificate extension.
    ///
    /// Fails with [`AttestationError::CertError`] when the payload is not a
    /// JSON object with the three members.
    pub fn from_payload(payload: &[u8]) -> (r: Result<Self, AttestationError>)
        ensures
            match endorsed_report_of(payload@) {
                Some(envelope) => r matches Ok(found) && found@ == envelope,
                None => r matches Err(e) && e == AttestationError::CertError,
            },
    {
        let value = match parse_json(payload) {
            Ok(value) => value,
            Err(_) => {
                return Err(AttestationError::CertError);
            },
        };
        let report = match byte_array_member(&value, "report") {
            Some(report) => report,
            None => {
                return Err(AttestationError::CertError);
            },
        };
        let signature = match byte_array_member(&value, "signature") {
            Some(signature) => signature,
            None => {
                return Err(AttestationError::CertError);
            },
        };
        let signing_cert = match byte_array_member(&value, "signing_cert") {
            Some(signing_cert) => signing_cert,
            None => {
                return Err(AttestationError::CertError);
            },
        };
        Ok(EndorsedAttestationReport { report, signature, signing_cert })
    }
}

} // verus!
