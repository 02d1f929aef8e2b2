//! Decoding and encoding of the 384-byte enclave report.

use attestation::enclave_report::{SgxEnclaveReport, ENCLAVE_REPORT_LEN};
use attestation::error::AttestationError;

/// A buffer in which every byte, the reserved ones included, differs from
/// its neighbours.
fn sample() -> [u8; 384] {
    let mut b = [0u8; 384];
    for (i, byte) in b.iter_mut().enumerate() {
        *byte = ((i * 31 + 7) % 251) as u8;
    }
    b
}

fn parsed(bytes: &[u8]) -> SgxEnclaveReport {
    match SgxEnclaveReport::parse_from(bytes) {
        Ok(report) => report,
        Err(e) => panic!("rejected: {:?}", e),
    }
}

fn rejected(bytes: &[u8]) -> AttestationError {
    match SgxEnclaveReport::parse_from(bytes) {
        Ok(_) => panic!("accepted {} bytes", bytes.len()),
        Err(e) => e,
    }
}

#[test]
fn enclave_report_length_is_384() {
    assert_eq!(ENCLAVE_REPORT_LEN, 384);
}

#[test]
fn fields_are_read_at_their_offsets() {
    let b = sample();
    let report = parsed(&b);
    assert_eq!(&report.cpu_svn[..], &b[0..16]);
    assert_eq!(report.misc_select, u32::from_le_bytes([b[16], b[17], b[18], b[19]]));
    assert_eq!(&report.attributes[..], &b[48..64]);
    assert_eq!(&report.mr_enclave[..], &b[64..96]);
    assert_eq!(&report.mr_signer[..], &b[128..160]);
    assert_eq!(report.isv_prod_id, u16::from_le_bytes([b[256], b[257]]));
    assert_eq!(report.isv_svn, u16::from_le_bytes([b[258], b[259]]));
    assert_eq!(&report.report_data[..], &b[320..384]);
}

#[test]
fn integers_are_little_endian() {
    let mut b = [0u8; 384];
    b[16] = 0x78;
    b[17] = 0x56;
    b[18] = 0x34;
    b[19] = 0x12;
    b[256] = 0xcd;
    b[257] = 0xab;
    b[258] = 0x01;
    b[259] = 0xff;
    let report = parsed(&b);
    assert_eq!(report.misc_select, 0x1234_5678);
    assert_eq!(report.isv_prod_id, 0xabcd);
    assert_eq!(report.isv_svn, 0xff01);
}

#[test]
fn largest_integers_are_read() {
    let b = [0xffu8; 384];
    let report = parsed(&b);
    assert_eq!(report.misc_select, u32::MAX);
    assert_eq!(report.isv_prod_id, u16::MAX);
    assert_eq!(report.isv_svn, u16::MAX);
    assert_eq!(report.report_data, [0xffu8; 64]);
}

#[test]
fn reserved_bytes_are_not_examined() {
    let mut b = sample();
    let before = parsed(&b);
    for range in [20..48, 96..128, 160..256, 260..320] {
        for i in range {
            b[i] = !b[i];
        }
    }
    let after = parsed(&b);
    assert_eq!(before.cpu_svn, after.cpu_svn);
    assert_eq!(before.misc_select, after.misc_select);
    assert_eq!(before.attributes, after.attributes);
    assert_eq!(before.mr_enclave, after.mr_enclave);
    assert_eq!(before.mr_signer, after.mr_signer);
    assert_eq!(before.isv_prod_id, after.isv_prod_id);
    assert_eq!(before.isv_svn, after.isv_svn);
    assert_eq!(before.report_data, after.report_data);
}

#[test]
fn truncation_by_one_byte_is_a_parse_error() {
    assert_eq!(rejected(&sample()[..383]), AttestationError::ParseError);
}

#[test]
fn extension_by_one_byte_is_a_parse_error() {
    let mut b = sample().to_vec();
    b.push(0);
    assert_eq!(rejected(&b), AttestationError::ParseError);
}

#[test]
fn empty_input_is_a_parse_error() {
    assert_eq!(rejected(&[]), AttestationError::ParseError);
}

#[test]
fn every_other_length_is_a_parse_error() {
    let b = [0u8; 600];
    for len in 0..600 {
        if len != 384 {
            assert_eq!(rejected(&b[..len]), AttestationError::ParseError);
        }
    }
    parsed(&b[..384]);
}

#[test]
fn encoding_the_decoded_report_gives_the_buffer_back() {
    let b = sample();
    assert_eq!(parsed(&b).to_bytes(&b), b.to_vec());
    let ones = [0xffu8; 384];
    assert_eq!(parsed(&ones).to_bytes(&ones), ones.to_vec());
    let zeros = [0u8; 384];
    assert_eq!(parsed(&zeros).to_bytes(&zeros), zeros.to_vec());
}

#[test]
fn encoding_takes_reserved_bytes_from_the_template() {
    let b = sample();
    let template = [0xeeu8; 384];
    let out = parsed(&b).to_bytes(&template);
    assert_eq!(out.len(), 384);
    for range in [20..48, 96..128, 160..256, 260..320] {
        for i in range {
            assert_eq!(out[i], 0xee);
        }
    }
    for range in [0..20, 48..96, 128..160, 256..260, 320..384] {
        for i in range {
            assert_eq!(out[i], b[i]);
        }
    }
}

#[test]
fn decoding_the_encoded_report_gives_the_fields_back() {
    let report = SgxEnclaveReport {
        cpu_svn: [1; 16],
        misc_select: 0xdead_beef,
        attributes: [2; 16],
        mr_enclave: [3; 32],
        mr_signer: [4; 32],
        isv_prod_id: 0x0100,
        isv_svn: 0x00ff,
        report_data: [5; 64],
    };
    let bytes = report.to_bytes(&[0u8; 384]);
    assert_eq!(&bytes[16..20], &[0xef, 0xbe, 0xad, 0xde]);
    assert_eq!(&bytes[256..260], &[0x00, 0x01, 0xff, 0x00]);
    let again = parsed(&bytes);
    assert_eq!(again.cpu_svn, report.cpu_svn);
    assert_eq!(again.misc_select, report.misc_select);
    assert_eq!(again.attributes, report.attributes);
    assert_eq!(again.mr_enclave, report.mr_enclave);
    assert_eq!(again.mr_signer, report.mr_signer);
    assert_eq!(again.isv_prod_id, report.isv_prod_id);
    assert_eq!(again.isv_svn, report.isv_svn);
    assert_eq!(again.report_data, report.report_data);
}
