//! Verification of the attestation evidence in an enclave's certificate.
//!
//! The certificate carries, in an extension, a report that the attestation
//! service signed over the enclave's quote. Verification finds the report,
//! checks that the service endorsed it, reads it, and checks that the quote
//! in it is bound to the public key of the certificate.

use vstd::prelude::*;
use std::time::Duration;
use crate::certificate::{certificate_parts, extract_certificate_parts};
use crate::clock::{
    age_of, age_seconds, duration_nanos, lemma_age_advances, parse_report_timestamp,
    report_timestamp, Timestamp, UnixTime, NANOS_PER_SEC,
};
use crate::endorsement::{endorsed_report_of, EndorsedAttestationReport};
use crate::error::AttestationError;
use crate::json::{json_document, member, parse_json, text_member};
use crate::quote::{quote_fields, SgxQuote, SgxQuoteView};
use crate::quote_status::{quote_status_of, SgxQuoteStatus};
use crate::trust::{endorsement_valid, verify_endorsement};

verus! {

/// `base64::DecodeError`, of which nothing is read.
#[verifier::external_type_specification]
#[verifier::external_body]
pub struct ExBase64DecodeError(base64::DecodeError);

/// The bytes that `base64` decodes `text` into by its standard
/// configuration, if it accepts the text.
///
/// This is what `base64` makes of the text; it is not defined here.
pub uninterp spec fn base64_decoded(text: Seq<char>) -> Option<Seq<u8>>;

/// The content of a decoding outcome.
pub open spec fn decoded_view(r: Result<Vec<u8>, base64::DecodeError>) -> Option<Seq<u8>> {
    match r {
        Ok(bytes) => Some(bytes@),
        Err(_) => None,
    }
}

/// Calls `base64::decode`, which decodes by the standard configuration, on
/// the bytes of `text`.
///
/// The contract claims only that the outcome is a function of the text,
/// named [`base64_decoded`].
#[verifier::external_body]
pub(crate) fn base64_decode(text: &str) -> (r: Result<Vec<u8>, base64::DecodeError>)
    ensures
        decoded_view(r) == base64_decoded(text@),
{
    base64::decode(text.as_bytes())
}

/// The verified content of an enclave's attestation evidence.
pub struct AttestationReport {
    /// The age of the report when it was verified.
    pub freshness: Duration,
    /// What the attestation service says of the platform.
    pub sgx_quote_status: SgxQuoteStatus,
    /// The quote that the attestation service signed.
    pub sgx_quote_body: SgxQuote,
}

/// The mathematical content of an [`AttestationReport`].
pub ghost struct AttestationReportView {
    /// The age of the report, in nanoseconds.
    pub freshness: nat,
    pub sgx_quote_status: SgxQuoteStatus,
    pub sgx_quote_body: SgxQuoteView,
}

impl View for AttestationReport {
    type V = AttestationReportView;

    open spec fn view(&self) -> AttestationReportView {
        AttestationReportView {
            freshness: duration_nanos(self.freshness),
            sgx_quote_status: self.sgx_quote_status,
            sgx_quote_body: self.sgx_quote_body@,
        }
    }
}

/// The content of a verification outcome.
pub open spec fn outcome_view(r: Result<AttestationReport, AttestationError>) -> Result<
    AttestationReportView,
    AttestationError,
> {
    match r {
        Ok(report) => Ok(report@),
        Err(e) => Err(e),
    }
}

/// Whether `public_key` is an uncompressed elliptic-curve point whose
/// coordinates are exactly `report_data`.
///
/// The point is uncompressed when its first octet is 4; the coordinates are
/// all octets after the first.
pub open spec fn key_is_bound(public_key: Seq<u8>, report_data: Seq<u8>) -> bool {
    &&& public_key.len() > 0
    &&& public_key[0] == 4
    &&& public_key.skip(1) == report_data
}

/// What a report says whose parts have been decoded: it has the age `age`
/// in seconds, its status text is `status`, and `quote` is what its quote
/// body holds in base64.
///
/// Bytes that are not a quote body are an
/// [`AttestationError::ParseError`]; a quote whose report data is not bound
/// to `public_key` is an [`AttestationError::ReportError`].
pub open spec fn decoded_verdict(
    age: nat,
    status: Seq<char>,
    quote: Seq<u8>,
    public_key: Seq<u8>,
) -> Result<AttestationReportView, AttestationError> {
    match quote_fields(quote) {
        None => Err(AttestationError::ParseError),
        Some(body) => if key_is_bound(public_key, body.isv_enclave_report.report_data) {
            Ok(
                AttestationReportView {
                    freshness: age * (NANOS_PER_SEC as nat),
                    sgx_quote_status: quote_status_of(status),
                    sgx_quote_body: body,
                },
            )
        } else {
            Err(AttestationError::ReportError)
        },
    }
}

/// What a signed report `report` says at the instant `now` to the holder of
/// `public_key`.
///
/// The steps, in order, and what their failure is: `now` is representable
/// ([`AttestationError::TimeError`]); the report is a JSON document; its
/// member `timestamp` is a text, names an instant, and the instant does not
/// lie a second or more after `now`
/// ([`AttestationError::ReportError`]); the member
/// `isvEnclaveQuoteStatus` is a text, and so is the member
/// `isvEnclaveQuoteBody` (`ReportError`); the latter is base64
/// ([`AttestationError::ParseError`]); what it holds is a quote whose report
/// data is bound to `public_key` (see [`decoded_verdict`]).
pub open spec fn report_verdict(report: Seq<u8>, public_key: Seq<u8>, now: UnixTime) -> Result<
    AttestationReportView,
    AttestationError,
> {
    if !now.is_representable() {
        Err(AttestationError::TimeError)
    } else {
        signed_report_verdict(report, public_key, now)
    }
}

/// The instant that the member `timestamp` of the signed report `report`
/// names, if it names one.
pub open spec fn signed_timestamp(report: Seq<u8>) -> Option<Timestamp> {
    match json_document(report) {
        None => None,
        Some(members) => match member(members.texts, "timestamp"@) {
            None => None,
            Some(time) => report_timestamp(time),
        },
    }
}

/// The bytes that the member `isvEnclaveQuoteBody` of the signed report
/// `report` holds in base64, if it holds any.
pub open spec fn signed_quote(report: Seq<u8>) -> Option<Seq<u8>> {
    match json_document(report) {
        None => None,
        Some(members) => match member(members.texts, "isvEnclaveQuoteBody"@) {
            None => None,
            Some(body) => base64_decoded(body),
        },
    }
}

/// What [`report_verdict`] says at a representable instant.
pub open spec fn signed_report_verdict(
    report: Seq<u8>,
    public_key: Seq<u8>,
    now: UnixTime,
) -> Result<AttestationReportView, AttestationError> {
    match json_document(report) {
        None => Err(AttestationError::ReportError),
        Some(members) => match member(members.texts, "timestamp"@) {
            None => Err(AttestationError::ReportError),
            Some(time) => match report_timestamp(time) {
                None => Err(AttestationError::ReportError),
                Some(timestamp) => match age_seconds(now, timestamp) {
                    None => Err(AttestationError::ReportError),
                    Some(age) => match member(members.texts, "isvEnclaveQuoteStatus"@) {
                        None => Err(AttestationError::ReportError),
                        Some(status) => match member(members.texts, "isvEnclaveQuoteBody"@) {
                            None => Err(AttestationError::ReportError),
                            Some(body) => match base64_decoded(body) {
                                None => Err(AttestationError::ParseError),
                                Some(quote) => decoded_verdict(age, status, quote, public_key),
                            },
                        },
                    },
                },
            },
        },
    }
}

/// The outcome of verifying the certificate `cert` against the pinned root
/// `root` at the instant `now`, where `None` stands for a clock that gives
/// no instant.
///
/// The steps, in order, and what their failure is: the certificate has the
/// expected structure, and the payload of its extension is an envelope
/// ([`AttestationError::CertError`]); the current instant is representable
/// ([`AttestationError::TimeError`]); the attestation service endorsed the
/// report ([`AttestationError::CryptoError`]); the report is usable and
/// bound to the public key of the certificate (see [`report_verdict`]).
pub open spec fn attestation_of(cert: Seq<u8>, root: Seq<u8>, now: Option<UnixTime>) -> Result<
    AttestationReportView,
    AttestationError,
> {
    match certificate_parts(cert) {
        None => Err(AttestationError::CertError),
        Some(parts) => match endorsed_report_of(parts.payload) {
            None => Err(AttestationError::CertError),
            Some(envelope) => match now {
                None => Err(AttestationError::TimeError),
                Some(instant) => if !instant.is_representable() {
                    Err(AttestationError::TimeError)
                } else if !endorsement_valid(
                    envelope.signing_cert,
                    root,
                    instant.secs as int,
                    envelope.report,
                    envelope.signature,
                ) {
                    Err(AttestationError::CryptoError)
                } else {
                    report_verdict(envelope.report, parts.public_key, instant)
                },
            },
        },
    }
}

/// The instant that the report in the certificate `cert` names, if the
/// certificate carries an envelope whose report names one.
pub open spec fn evidence_timestamp(cert: Seq<u8>) -> Option<Timestamp> {
    match certificate_parts(cert) {
        None => None,
        Some(parts) => match endorsed_report_of(parts.payload) {
            None => None,
            Some(envelope) => signed_timestamp(envelope.report),
        },
    }
}

/// A report is accepted only for a public key that its quote is bound to;
/// and where a report is accepted for one key, it is rejected with
/// [`AttestationError::ReportError`] for every key that the report data is
/// not bound to.
pub proof fn lemma_report_binds_key(
    report: Seq<u8>,
    public_key: Seq<u8>,
    other_key: Seq<u8>,
    now: UnixTime,
)
    ensures
        report_verdict(report, public_key, now) matches Ok(accepted) ==> {
            let report_data = accepted.sgx_quote_body.isv_enclave_report.report_data;
            &&& key_is_bound(public_key, report_data)
            &&& !key_is_bound(other_key, report_data) ==> report_verdict(report, other_key, now)
                == Err::<AttestationReportView, AttestationError>(AttestationError::ReportError)
        },
{
}

/// Evidence is accepted only where the report data of its quote is bound to
/// the public key of the certificate, where the attestation service endorsed
/// the report, and where the quote is what the report carries.
pub proof fn lemma_accepted_evidence(cert: Seq<u8>, root: Seq<u8>, now: UnixTime)
    ensures
        attestation_of(cert, root, Some(now)) matches Ok(accepted) ==> {
            &&& certificate_parts(cert) matches Some(parts)
            &&& endorsed_report_of(parts.payload) matches Some(envelope)
            &&& endorsement_valid(
                envelope.signing_cert,
                root,
                now.secs as int,
                envelope.report,
                envelope.signature,
            )
            &&& key_is_bound(
                parts.public_key,
                accepted.sgx_quote_body.isv_enclave_report.report_data,
            )
            &&& signed_quote(envelope.report) matches Some(quote)
            &&& quote_fields(quote) == Some(accepted.sgx_quote_body)
        },
{
}

/// Endorsed evidence whose quote decodes, but whose report data is not
/// bound to the public key of the certificate, is rejected with
/// [`AttestationError::ReportError`], whatever else the report says.
///
/// Evidence that is not endorsed, and an instant that is not representable,
/// are rejected before the report is read, with their own errors.
pub proof fn lemma_unbound_evidence(cert: Seq<u8>, root: Seq<u8>, now: UnixTime)
    requires
        now.is_representable(),
        ({
            &&& certificate_parts(cert) matches Some(parts)
            &&& endorsed_report_of(parts.payload) matches Some(envelope)
            &&& endorsement_valid(
                envelope.signing_cert,
                root,
                now.secs as int,
                envelope.report,
                envelope.signature,
            )
            &&& signed_quote(envelope.report) matches Some(quote)
            &&& quote_fields(quote) matches Some(body)
            &&& !key_is_bound(parts.public_key, body.isv_enclave_report.report_data)
        }),
    ensures
        attestation_of(cert, root, Some(now)) == Err::<AttestationReportView, AttestationError>(
            AttestationError::ReportError,
        ),
{
}

/// Evidence whose envelope the attestation service did not endorse under
/// the pinned root is rejected with [`AttestationError::CryptoError`],
/// whatever the report says.
pub proof fn lemma_unendorsed_evidence(cert: Seq<u8>, root: Seq<u8>, now: UnixTime)
    requires
        now.is_representable(),
        ({
            &&& certificate_parts(cert) matches Some(parts)
            &&& endorsed_report_of(parts.payload) matches Some(envelope)
            &&& !endorsement_valid(
                envelope.signing_cert,
                root,
                now.secs as int,
                envelope.report,
                envelope.signature,
            )
        }),
    ensures
        attestation_of(cert, root, Some(now)) == Err::<AttestationReportView, AttestationError>(
            AttestationError::CryptoError,
        ),
{
}

/// Where the same evidence is accepted at the instant `now` and `delta`
/// whole seconds later, the later freshness is the earlier one and `delta`
/// seconds, and nothing else differs.
///
/// This holds where the report's timestamp does not lie after `now`. A
/// timestamp less than a second after `now` is accepted with the freshness
/// zero, and the freshness then grows by less than `delta`.
pub proof fn lemma_freshness_advances(
    cert: Seq<u8>,
    root: Seq<u8>,
    now: UnixTime,
    later: UnixTime,
    delta: nat,
)
    requires
        later.secs == now.secs + delta,
        later.nanos == now.nanos,
        attestation_of(cert, root, Some(now)) is Ok,
        attestation_of(cert, root, Some(later)) is Ok,
        evidence_timestamp(cert) matches Some(timestamp) ==> timestamp.total_nanos()
            <= now.total_nanos(),
    ensures
        ({
            let earlier = attestation_of(cert, root, Some(now))->Ok_0;
            attestation_of(cert, root, Some(later)) matches Ok(accepted) && accepted
                == AttestationReportView {
                freshness: earlier.freshness + delta * (NANOS_PER_SEC as nat),
                ..earlier
            }
        }),
{
    let timestamp = evidence_timestamp(cert)->Some_0;
    lemma_age_advances(now, later, timestamp, delta);
    let age = age_seconds(now, timestamp)->Some_0;
    let unit = NANOS_PER_SEC as nat;
    assert((age + delta) * unit == age * unit + delta * unit) by (nonlinear_arith);
}

/// Whether two byte slices hold the same bytes.
pub fn same_bytes(a: &[u8], b: &[u8]) -> (same: bool)
    ensures
        same == (a@ == b@),
{
    if a.len() != b.len() {
        return false;
    }
    let mut i: usize = 0;
    while i < a.len()
        invariant
            i <= a@.len(),
            a@.len() == b@.len(),
            forall|j: int| 0 <= j < i ==> a@[j] == b@[j],
        decreases a@.len() - i,
    {
        if a[i] != b[i] {
            return false;
        }
        i = i + 1;
    }
    assert(a@ =~= b@);
    true
}

/// Checks that `public_key` is an uncompressed elliptic-curve point whose
/// coordinates are exactly `report_data`.
///
/// A compressed point, an empty key, and coordinates that differ in any
/// bit are an [`AttestationError::ReportError`].
pub fn check_key_binding(public_key: &[u8], report_data: &[u8]) -> (r: Result<
    (),
    AttestationError,
>)
    ensures
        r == if key_is_bound(public_key@, report_data@) {
            Ok::<(), AttestationError>(())
        } else {
            Err::<(), AttestationError>(AttestationError::ReportError)
        },
{
    if public_key.len() == 0 || public_key[0] != 4 {
        return Err(AttestationError::ReportError);
    }
    let coordinates = vstd::slice::slice_subrange(public_key, 1, public_key.len());
    if same_bytes(coordinates, report_data) {
        Ok(())
    } else {
        Err(AttestationError::ReportError)
    }
}

impl AttestationReport {
    /// Puts a report together from its decoded parts: its age in seconds,
    /// its status text, and the bytes of its quote body; and checks that the
    /// quote is bound to `public_key`.
    pub fn from_decoded(age: u64, status: &str, quote: &[u8], public_key: &[u8]) -> (r: Result<
        Self,
        AttestationError,
    >)
        ensures
            outcome_view(r) == decoded_verdict(age as nat, status@, quote@, public_key@),
    {
        let sgx_quote_body = SgxQuote::parse_from(quote)?;
        check_key_binding(public_key, sgx_quote_body.isv_enclave_report.report_data.as_slice())?;
        Ok(
            AttestationReport {
                freshness: Duration::from_secs(age),
                sgx_quote_status: SgxQuoteStatus::from(status),
                sgx_quote_body,
            },
        )
    }

    /// Reads a report that the attestation service endorsed, at the
    /// instant `now`, for the holder of `public_key`.
    pub fn from_signed_report(report: &[u8], public_key: &[u8], now: UnixTime) -> (r: Result<
        Self,
        AttestationError,
    >)
        ensures
            outcome_view(r) == report_verdict(report@, public_key@, now),
    {
        if !now.check_representable() {
            return Err(AttestationError::TimeError);
        }
        let document = match parse_json(report) {
            Ok(document) => document,
            Err(_) => {
                return Err(AttestationError::ReportError);
            },
        };
        let time = match text_member(&document, "timestamp") {
            Some(time) => time,
            None => {
                return Err(AttestationError::ReportError);
            },
        };
        let timestamp = parse_report_timestamp(time)?;
        let age = age_of(now, timestamp)?;
        let status = match text_member(&document, "isvEnclaveQuoteStatus") {
            Some(status) => status,
            None => {
                return Err(AttestationError::ReportError);
            },
        };
        let encoded = match text_member(&document, "isvEnclaveQuoteBody") {
            Some(encoded) => encoded,
            None => {
                return Err(AttestationError::ReportError);
            },
        };
        let quote = match base64_decode(encoded) {
            Ok(quote) => quote,
            Err(_) => {
                return Err(AttestationError::ParseError);
            },
        };
        Self::from_decoded(age, status, quote.as_slice(), public_key)
    }

    /// Verifies the attestation evidence in the certificate `cert` against
    /// the pinned root `ias_report_ca_cert`, with `now` as the current
    /// instant, or with `None` where the clock gives none.
    fn verify(cert: &[u8], ias_report_ca_cert: &[u8], now: Option<UnixTime>) -> (r: Result<
        Self,
        AttestationError,
    >)
        ensures
            outcome_view(r) == attestation_of(cert@, ias_report_ca_cert@, now),
    {
        let parts = extract_certificate_parts(cert)?;
        let envelope = EndorsedAttestationReport::from_payload(parts.payload)?;
        let instant = match now {
            Some(instant) => instant,
            None => {
                return Err(AttestationError::TimeError);
            },
        };
        if !instant.check_representable() {
            return Err(AttestationError::TimeError);
        }
        verify_endorsement(
            envelope.signing_cert.as_slice(),
            ias_report_ca_cert,
            instant.secs,
            envelope.report.as_slice(),
            envelope.signature.as_slice(),
        )?;
        Self::from_signed_report(envelope.report.as_slice(), parts.public_key, instant)
    }

    /// Verifies the attestation evidence in the DER-encoded certificate
    /// `cert` against the pinned root `ias_report_ca_cert`, at the instant
    /// `now`.
    ///
    /// The signature of `cert` itself is not examined: the caller has
    /// checked it.
    pub fn from_cert_at(cert: &[u8], ias_report_ca_cert: &[u8], now: UnixTime) -> (r: Result<
        Self,
        AttestationError,
    >)
        ensures
            outcome_view(r) == attestation_of(cert@, ias_report_ca_cert@, Some(now)),
    {
        Self::verify(cert, ias_report_ca_cert, Some(now))
    }

    /// Verifies the attestation evidence in the DER-encoded certificate
    /// `cert` against the pinned root `ias_report_ca_cert`, at the instant
    /// of the system clock.
    ///
    /// The outcome is that of [`AttestationReport::from_cert_at`] at some
    /// instant, or that of a clock that gives no instant.
    pub fn from_cert(cert: &[u8], ias_report_ca_cert: &[u8]) -> (r: Result<Self, AttestationError>)
        ensures
            exists|now: Option<UnixTime>|
                outcome_view(r) == #[trigger] attestation_of(cert@, ias_report_ca_cert@, now),
    {
        Self::verify(cert, ias_report_ca_cert, UnixTime::now())
    }
}

} // verus!
