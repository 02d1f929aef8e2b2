//! Verification of Intel SGX remote-attestation evidence carried in an
//! X.509 certificate.
//!
//! An enclave presents a self-signed certificate. One extension of it holds
//! a report that the attestation service signed over the enclave's quote.
//! [`AttestationReport::from_cert`] finds that report, checks that the
//! attestation service endorsed it under a pinned root certificate, decodes
//! the quote, and checks that the quote is bound to the public key of the
//! certificate.
//!
//! The decoders of the SGX structures ([`SgxEnclaveReport`], [`SgxQuote`])
//! and of the certificate are verified against a description of the bytes.
//! JSON, base64, timestamps and cryptography are the work of other crates;
//! the modules that call them say what is taken on trust.

pub mod certificate;
pub mod clock;
pub mod cursor;
pub mod der;
pub mod enclave_report;
pub mod endorsement;
pub mod error;
pub mod evidence;
pub mod json;
pub mod quote;
pub mod quote_status;
pub mod trust;

pub use crate::evidence::AttestationReport;
pub use crate::clock::UnixTime;
pub use crate::enclave_report::SgxEnclaveReport;
pub use crate::endorsement::EndorsedAttestationReport;
pub use crate::error::AttestationError;
pub use crate::quote::{SgxEcdsaQuoteAkType, SgxEpidQuoteSigType, SgxQuote, SgxQuoteVersion};
pub use crate::quote_status::SgxQuoteStatus;
