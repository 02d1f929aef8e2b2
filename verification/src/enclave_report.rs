//! The 384-byte report body that SGX hardware produces for an enclave.

use vstd::prelude::*;
use crate::cursor::{
    lemma_u16_le_bytes_round_trip, lemma_u16_le_round_trip, lemma_u32_le_bytes_round_trip,
    lemma_u32_le_round_trip, u16_le, u16_le_bytes, u32_le, u32_le_bytes, ByteCursor,
};
use crate::error::AttestationError;

verus! {

/// The exact length of an encoded enclave report.
pub const ENCLAVE_REPORT_LEN: usize = 384;

/// The measurement of an enclave, as the SGX hardware reports it.
///
/// This is the report of the enclave itself. It is not the attestation
/// report, which an attestation service signs over a quote that embeds this
/// structure.
pub struct SgxEnclaveReport {
    /// Security version of the CPU.
    pub cpu_svn: [u8; 16],
    /// Which fields of the enclave's state save area are in use.
    pub misc_select: u32,
    /// The enclave's attribute flags.
    pub attributes: [u8; 16],
    /// Measurement of the enclave's code and data.
    pub mr_enclave: [u8; 32],
    /// Measurement of the key that signed the enclave.
    pub mr_signer: [u8; 32],
    /// Product identifier that the enclave's author chose.
    pub isv_prod_id: u16,
    /// Security version that the enclave's author chose.
    pub isv_svn: u16,
    /// Free-form data that the enclave put into its report.
    pub report_data: [u8; 64],
}

/// The mathematical content of an [`SgxEnclaveReport`].
pub ghost struct SgxEnclaveReportView {
    pub cpu_svn: Seq<u8>,
    pub misc_select: u32,
    pub attributes: Seq<u8>,
    pub mr_enclave: Seq<u8>,
    pub mr_signer: Seq<u8>,
    pub isv_prod_id: u16,
    pub isv_svn: u16,
    pub report_data: Seq<u8>,
}

impl View for SgxEnclaveReport {
    type V = SgxEnclaveReportView;

    open spec fn view(&self) -> SgxEnclaveReportView {
        SgxEnclaveReportView {
            cpu_svn: self.cpu_svn@,
            misc_select: self.misc_select,
            attributes: self.attributes@,
            mr_enclave: self.mr_enclave@,
            mr_signer: self.mr_signer@,
            isv_prod_id: self.isv_prod_id,
            isv_svn: self.isv_svn,
            report_data: self.report_data@,
        }
    }
}

/// The fields that a 384-byte enclave report encodes.
///
/// | offset | size | field        |
/// |-------:|-----:|--------------|
/// |      0 |   16 | cpu_svn      |
/// |     16 |    4 | misc_select  |
/// |     48 |   16 | attributes   |
/// |     64 |   32 | mr_enclave   |
/// |    128 |   32 | mr_signer    |
/// |    256 |    2 | isv_prod_id  |
/// |    258 |    2 | isv_svn      |
/// |    320 |   64 | report_data  |
///
/// The ranges in between are reserved and carry no meaning.
pub open spec fn enclave_report_fields(b: Seq<u8>) -> SgxEnclaveReportView
    recommends
        b.len() == ENCLAVE_REPORT_LEN,
{
    SgxEnclaveReportView {
        cpu_svn: b.subrange(0, 16),
        misc_select: u32_le(b.subrange(16, 20)),
        attributes: b.subrange(48, 64),
        mr_enclave: b.subrange(64, 96),
        mr_signer: b.subrange(128, 160),
        isv_prod_id: u16_le(b.subrange(256, 258)),
        isv_svn: u16_le(b.subrange(258, 260)),
        report_data: b.subrange(320, 384),
    }
}

/// The 384 bytes that encode the fields `v`, with the reserved ranges taken
/// from the same positions of `reserved`.
pub open spec fn enclave_report_bytes(v: SgxEnclaveReportView, reserved: Seq<u8>) -> Seq<u8>
    recommends
        reserved.len() == ENCLAVE_REPORT_LEN,
{
    v.cpu_svn + u32_le_bytes(v.misc_select) + reserved.subrange(20, 48) + v.attributes
        + v.mr_enclave + reserved.subrange(96, 128) + v.mr_signer + reserved.subrange(160, 256)
        + u16_le_bytes(v.isv_prod_id) + u16_le_bytes(v.isv_svn) + reserved.subrange(260, 320)
        + v.report_data
}

/// Decoding a 384-byte buffer and encoding the fields again, with the
/// reserved ranges filled from the buffer, gives the buffer back.
pub proof fn lemma_enclave_report_round_trip(b: Seq<u8>)
    requires
        b.len() == ENCLAVE_REPORT_LEN,
    ensures
        enclave_report_bytes(enclave_report_fields(b), b) == b,
{
    lemma_u32_le_round_trip(b.subrange(16, 20));
    lemma_u16_le_round_trip(b.subrange(256, 258));
    lemma_u16_le_round_trip(b.subrange(258, 260));
}

/// Encoding fields and decoding the bytes gives the fields back, whatever
/// fills the reserved ranges.
pub proof fn lemma_enclave_report_fields_of_bytes(v: SgxEnclaveReportView, reserved: Seq<u8>)
    requires
        reserved.len() == ENCLAVE_REPORT_LEN,
        v.cpu_svn.len() == 16,
        v.attributes.len() == 16,
        v.mr_enclave.len() == 32,
        v.mr_signer.len() == 32,
        v.report_data.len() == 64,
    ensures
        enclave_report_bytes(v, reserved).len() == ENCLAVE_REPORT_LEN,
        enclave_report_fields(enclave_report_bytes(v, reserved)) == v,
{
    let b = enclave_report_bytes(v, reserved);
    let f = enclave_report_fields(b);
    lemma_u32_le_bytes_round_trip(v.misc_select);
    lemma_u16_le_bytes_round_trip(v.isv_prod_id);
    lemma_u16_le_bytes_round_trip(v.isv_svn);
    assert(f.cpu_svn =~= v.cpu_svn);
    assert(f.attributes =~= v.attributes);
    assert(f.mr_enclave =~= v.mr_enclave);
    assert(f.mr_signer =~= v.mr_signer);
    assert(f.report_data =~= v.report_data);
}

impl SgxEnclaveReport {
    /// Decodes an enclave report from exactly 384 bytes.
    ///
    /// Every byte is consumed in order, the reserved ranges included; their
    /// content is not examined. A buffer of any other length is rejected.
    pub fn parse_from(bytes: &[u8]) -> (r: Result<Self, AttestationError>)
        ensures
            bytes@.len() == ENCLAVE_REPORT_LEN ==> {
                &&& r matches Ok(report)
                &&& report@ == enclave_report_fields(bytes@)
            },
            bytes@.len() != ENCLAVE_REPORT_LEN ==> r == Err::<Self, AttestationError>(
                AttestationError::ParseError,
            ),
    {
        let mut cursor = ByteCursor::new(bytes);
        let cpu_svn = cursor.take_array::<16>()?;
        let misc_select = cursor.take_u32_le()?;
        let _reserved = cursor.take(28)?;
        let attributes = cursor.take_array::<16>()?;
        let mr_enclave = cursor.take_array::<32>()?;
        let _reserved = cursor.take(32)?;
        let mr_signer = cursor.take_array::<32>()?;
        let _reserved = cursor.take(96)?;
        let isv_prod_id = cursor.take_u16_le()?;
        let isv_svn = cursor.take_u16_le()?;
        let _reserved = cursor.take(60)?;
        let report_data = cursor.take_array::<64>()?;
        cursor.finish()?;
        Ok(
            SgxEnclaveReport {
                cpu_svn,
                misc_select,
                attributes,
                mr_enclave,
                mr_signer,
                isv_prod_id,
                isv_svn,
                report_data,
            },
        )
    }

    /// Encodes the report into 384 bytes, copying the reserved ranges from
    /// the same positions of `reserved`.
    ///
    /// Where the report was decoded from `reserved`, the result is
    /// `reserved` again.
    pub fn to_bytes(&self, reserved: &[u8; 384]) -> (out: Vec<u8>)
        ensures
            out@ == enclave_report_bytes(self@, reserved@),
            out@.len() == ENCLAVE_REPORT_LEN,
            self@ == enclave_report_fields(reserved@) ==> out@ == reserved@,
    {
        proof {
            lemma_enclave_report_round_trip(reserved@);
        }
        self.write_fields(reserved)
    }

    /// Writes the fields and the reserved ranges one after the other.
    fn write_fields(&self, reserved: &[u8; 384]) -> (out: Vec<u8>)
        ensures
            out@ == enclave_report_bytes(self@, reserved@),
            out@.len() == ENCLAVE_REPORT_LEN,
    {
        let mut out: Vec<u8> = Vec::new();
        append_range(&mut out, self.cpu_svn.as_slice(), 0, 16);
        append_u32_le(&mut out, self.misc_select);
        append_range(&mut out, reserved.as_slice(), 20, 48);
        append_range(&mut out, self.attributes.as_slice(), 0, 16);
        append_range(&mut out, self.mr_enclave.as_slice(), 0, 32);
        append_range(&mut out, reserved.as_slice(), 96, 128);
        append_range(&mut out, self.mr_signer.as_slice(), 0, 32);
        append_range(&mut out, reserved.as_slice(), 160, 256);
        append_u16_le(&mut out, self.isv_prod_id);
        append_u16_le(&mut out, self.isv_svn);
        append_range(&mut out, reserved.as_slice(), 260, 320);
        append_range(&mut out, self.report_data.as_slice(), 0, 64);
        proof {
            assert(self.cpu_svn@.subrange(0, 16) =~= self.cpu_svn@);
            assert(self.attributes@.subrange(0, 16) =~= self.attributes@);
            assert(self.mr_enclave@.subrange(0, 32) =~= self.mr_enclave@);
            assert(self.mr_signer@.subrange(0, 32) =~= self.mr_signer@);
            assert(self.report_data@.subrange(0, 64) =~= self.report_data@);
        }
        out
    }
}

/// Appends `src[from..to]` to `out`.
fn append_range(out: &mut Vec<u8>, src: &[u8], from: usize, to: usize)
    requires
        from <= to <= src@.len(),
    ensures
        final(out)@ == old(out)@ + src@.subrange(from as int, to as int),
{
    let mut i: usize = from;
    while i < to
        invariant
            from <= i <= to <= src@.len(),
            out@ == old(out)@ + src@.subrange(from as int, i as int),
        decreases to - i,
    {
        out.push(src[i]);
        i = i + 1;
    }
}

/// Appends the little-endian encoding of `x` to `out`.
fn append_u16_le(out: &mut Vec<u8>, x: u16)
    ensures
        final(out)@ == old(out)@ + u16_le_bytes(x),
{
    out.push((x % 256) as u8);
    out.push((x / 256) as u8);
}

/// Appends the little-endian encoding of `x` to `out`.
fn append_u32_le(out: &mut Vec<u8>, x: u32)
    ensures
        final(out)@ == old(out)@ + u32_le_bytes(x),
{
    out.push((x % 256) as u8);
    out.push((x / 256 % 256) as u8);
    out.push((x / 65536 % 256) as u8);
    out.push((x / 16777216) as u8);
}

} // verus!
