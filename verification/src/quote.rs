//! The 432-byte SGX quote body: a header that names the quoting enclave,
//! followed by the enclave report that it endorses.

use vstd::prelude::*;
use uuid::Uuid;
use crate::cursor::{u16_le, u32_le, ByteCursor};
use crate::enclave_report::{enclave_report_fields, SgxEnclaveReport, SgxEnclaveReportView};
use crate::error::AttestationError;

verus! {

/// The exact length of an encoded quote body.
pub const QUOTE_LEN: usize = 432;

/// How an EPID quote signature relates to other signatures of the platform.
#[derive(Clone, Copy, Debug, PartialEq, Eq, Structural)]
pub enum SgxEpidQuoteSigType {
    /// Two signatures of one platform cannot be linked.
    Unlinkable,
    /// Two signatures of one platform can be recognised as such.
    Linkable,
}

/// The attestation key type of an ECDSA quote.
#[allow(non_camel_case_types)]
#[derive(Clone, Copy, Debug, PartialEq, Eq, Structural)]
pub enum SgxEcdsaQuoteAkType {
    /// ECDSA over P-256 with a 256-bit digest.
    P256_256,
    /// ECDSA over P-384 with a 384-bit digest.
    P384_384,
}

/// The version of a quote, together with the signature or key type that the
/// version defines.
#[derive(Clone, Copy, Debug, PartialEq, Eq, Structural)]
pub enum SgxQuoteVersion {
    /// EPID quote, version 1.
    V1(SgxEpidQuoteSigType),
    /// EPID quote, version 2.
    V2(SgxEpidQuoteSigType),
    /// ECDSA quote, version 3.
    V3(SgxEcdsaQuoteAkType),
}

/// `uuid::Uuid`, known here only by the octets it holds.
#[verifier::external_type_specification]
#[verifier::external_body]
pub struct ExUuid(uuid::Uuid);

/// `uuid::Error`, of which nothing is read.
#[verifier::external_type_specification]
#[verifier::external_body]
pub struct ExUuidError(uuid::Error);

/// The 16 octets that a UUID holds, in the big-endian group order of
/// RFC 4122.
pub uninterp spec fn uuid_octets(id: Uuid) -> Seq<u8>;

/// `Uuid::from_slice` accepts a slice exactly when it holds 16 bytes, and
/// the UUID it then returns holds those bytes, unchanged and in order.
pub assume_specification[ Uuid::from_slice ](b: &[u8]) -> (r: Result<Uuid, uuid::Error>)
    ensures
        r is Ok <==> b@.len() == 16,
        r matches Ok(id) ==> uuid_octets(id) == b@,
;

/// An SGX quote body: an enclave report as endorsed by the quoting enclave
/// of the platform.
pub struct SgxQuote {
    /// Quote version and the signature or key type it was made with.
    pub version: SgxQuoteVersion,
    /// EPID group of the platform.
    pub gid: u32,
    /// Security version of the quoting enclave.
    pub isv_svn_qe: u16,
    /// Security version of the provisioning certification enclave.
    pub isv_svn_pce: u16,
    /// Vendor of the quoting enclave.
    pub qe_vendor_id: Uuid,
    /// Free-form data of the quoting enclave.
    pub user_data: [u8; 20],
    /// The report of the attested enclave.
    pub isv_enclave_report: SgxEnclaveReport,
}

/// The mathematical content of an [`SgxQuote`].
pub ghost struct SgxQuoteView {
    pub version: SgxQuoteVersion,
    pub gid: u32,
    pub isv_svn_qe: u16,
    pub isv_svn_pce: u16,
    pub qe_vendor_id: Seq<u8>,
    pub user_data: Seq<u8>,
    pub isv_enclave_report: SgxEnclaveReportView,
}

impl View for SgxQuote {
    type V = SgxQuoteView;

    open spec fn view(&self) -> SgxQuoteView {
        SgxQuoteView {
            version: self.version,
            gid: self.gid,
            isv_svn_qe: self.isv_svn_qe,
            isv_svn_pce: self.isv_svn_pce,
            qe_vendor_id: uuid_octets(self.qe_vendor_id),
            user_data: self.user_data@,
            isv_enclave_report: self.isv_enclave_report@,
        }
    }
}

/// The EPID signature type that the number `kind` stands for, if any.
pub open spec fn epid_sig_type(kind: u16) -> Option<SgxEpidQuoteSigType> {
    if kind == 0 {
        Some(SgxEpidQuoteSigType::Unlinkable)
    } else if kind == 1 {
        Some(SgxEpidQuoteSigType::Linkable)
    } else {
        None
    }
}

/// The ECDSA attestation key type that the number `kind` stands for, if any.
pub open spec fn ecdsa_ak_type(kind: u16) -> Option<SgxEcdsaQuoteAkType> {
    if kind == 2 {
        Some(SgxEcdsaQuoteAkType::P256_256)
    } else if kind == 3 {
        Some(SgxEcdsaQuoteAkType::P384_384)
    } else {
        None
    }
}

/// The quote version that the first two header fields select, if any.
///
/// Versions 1 and 2 read the second field as an EPID signature type,
/// version 3 reads it as an ECDSA attestation key type.
pub open spec fn quote_version(version: u16, kind: u16) -> Option<SgxQuoteVersion> {
    if version == 1 {
        match epid_sig_type(kind) {
            Some(t) => Some(SgxQuoteVersion::V1(t)),
            None => None,
        }
    } else if version == 2 {
        match epid_sig_type(kind) {
            Some(t) => Some(SgxQuoteVersion::V2(t)),
            None => None,
        }
    } else if version == 3 {
        match ecdsa_ak_type(kind) {
            Some(t) => Some(SgxQuoteVersion::V3(t)),
            None => None,
        }
    } else {
        None
    }
}

/// The version field of a quote header.
pub open spec fn header_version(b: Seq<u8>) -> u16
    recommends
        b.len() >= 4,
{
    u16_le(b.subrange(0, 2))
}

/// The signature-type or key-type field of a quote header.
pub open spec fn header_kind(b: Seq<u8>) -> u16
    recommends
        b.len() >= 4,
{
    u16_le(b.subrange(2, 4))
}

/// The fields that a quote body encodes, if it is well formed.
///
/// | offset | size | field                         |
/// |-------:|-----:|-------------------------------|
/// |      0 |    2 | version                       |
/// |      2 |    2 | signature type or key type    |
/// |      4 |    4 | gid                           |
/// |      8 |    2 | isv_svn_qe                    |
/// |     10 |    2 | isv_svn_pce                   |
/// |     12 |   16 | qe_vendor_id                  |
/// |     28 |   20 | user_data                     |
/// |     48 |  384 | isv_enclave_report            |
///
/// A body is well formed when it has exactly 432 bytes and its first two
/// fields select a version.
pub open spec fn quote_fields(b: Seq<u8>) -> Option<SgxQuoteView> {
    if b.len() != QUOTE_LEN {
        None
    } else {
        match quote_version(header_version(b), header_kind(b)) {
            None => None,
            Some(version) => Some(
                SgxQuoteView {
                    version,
                    gid: u32_le(b.subrange(4, 8)),
                    isv_svn_qe: u16_le(b.subrange(8, 10)),
                    isv_svn_pce: u16_le(b.subrange(10, 12)),
                    qe_vendor_id: b.subrange(12, 28),
                    user_data: b.subrange(28, 48),
                    isv_enclave_report: enclave_report_fields(b.subrange(48, 432)),
                },
            ),
        }
    }
}

/// Reads the number of an EPID signature type.
fn parse_epid_sig_type(kind: u16) -> (r: Result<SgxEpidQuoteSigType, AttestationError>)
    ensures
        match epid_sig_type(kind) {
            Some(t) => r == Ok::<SgxEpidQuoteSigType, AttestationError>(t),
            None => r == Err::<SgxEpidQuoteSigType, AttestationError>(
                AttestationError::ParseError,
            ),
        },
{
    match kind {
        0 => Ok(SgxEpidQuoteSigType::Unlinkable),
        1 => Ok(SgxEpidQuoteSigType::Linkable),
        _ => Err(AttestationError::ParseError),
    }
}

/// Reads the number of an ECDSA attestation key type.
fn parse_ecdsa_ak_type(kind: u16) -> (r: Result<SgxEcdsaQuoteAkType, AttestationError>)
    ensures
        match ecdsa_ak_type(kind) {
            Some(t) => r == Ok::<SgxEcdsaQuoteAkType, AttestationError>(t),
            None => r == Err::<SgxEcdsaQuoteAkType, AttestationError>(
                AttestationError::ParseError,
            ),
        },
{
    match kind {
        2 => Ok(SgxEcdsaQuoteAkType::P256_256),
        3 => Ok(SgxEcdsaQuoteAkType::P384_384),
        _ => Err(AttestationError::ParseError),
    }
}

impl SgxQuote {
    /// Decodes a quote body from exactly 432 bytes.
    ///
    /// Fails on any other length, on a version other than 1, 2 or 3, and on
    /// a signature or key type that the version does not define.
    pub fn parse_from(bytes: &[u8]) -> (r: Result<Self, AttestationError>)
        ensures
            match quote_fields(bytes@) {
                Some(fields) => r matches Ok(quote) && quote@ == fields,
                None => r == Err::<Self, AttestationError>(AttestationError::ParseError),
            },
            bytes@.len() != QUOTE_LEN ==> r == Err::<Self, AttestationError>(
                AttestationError::ParseError,
            ),
            bytes@.len() == QUOTE_LEN ==> (r is Ok <==> {
                let version = header_version(bytes@);
                let kind = header_kind(bytes@);
                ||| (version == 1 || version == 2) && (kind == 0 || kind == 1)
                ||| version == 3 && (kind == 2 || kind == 3)
            }),
    {
        let mut cursor = ByteCursor::new(bytes);
        let version_number = cursor.take_u16_le()?;
        let kind = cursor.take_u16_le()?;
        let version = match version_number {
            1 => SgxQuoteVersion::V1(parse_epid_sig_type(kind)?),
            2 => SgxQuoteVersion::V2(parse_epid_sig_type(kind)?),
            3 => SgxQuoteVersion::V3(parse_ecdsa_ak_type(kind)?),
            _ => {
                return Err(AttestationError::ParseError);
            },
        };
        let gid = cursor.take_u32_le()?;
        let isv_svn_qe = cursor.take_u16_le()?;
        let isv_svn_pce = cursor.take_u16_le()?;
        let qe_vendor_id_raw = cursor.take(16)?;
        let qe_vendor_id = match Uuid::from_slice(qe_vendor_id_raw) {
            Ok(id) => id,
            Err(_) => {
                return Err(AttestationError::ParseError);
            },
        };
        let user_data = cursor.take_array::<20>()?;
        let isv_enclave_report = SgxEnclaveReport::parse_from(cursor.take(384)?)?;
        cursor.finish()?;
        Ok(
            SgxQuote {
                version,
                gid,
                isv_svn_qe,
                isv_svn_pce,
                qe_vendor_id,
                user_data,
                isv_enclave_report,
            },
        )
    }
}

} // verus!
