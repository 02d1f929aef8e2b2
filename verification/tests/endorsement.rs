//! Reading the envelope of a signed report.

use attestation::endorsement::EndorsedAttestationReport;
use attestation::error::AttestationError;

fn refused(payload: &[u8]) {
    match EndorsedAttestationReport::from_payload(payload) {
        Ok(_) => panic!("accepted"),
        Err(e) => assert_eq!(e, AttestationError::CertError),
    }
}

#[test]
fn three_members_are_read() {
    let payload = b"{\"report\":[123,125],\"signature\":[0,255,7],\"signing_cert\":[48,0]}";
    let envelope = EndorsedAttestationReport::from_payload(payload).unwrap_or_else(|e| panic!("{:?}", e));
    assert_eq!(envelope.report, vec![123, 125]);
    assert_eq!(envelope.signature, vec![0, 255, 7]);
    assert_eq!(envelope.signing_cert, vec![48, 0]);
}

#[test]
fn members_come_in_any_order_and_others_are_ignored() {
    let payload =
        b" { \"signing_cert\" : [1], \"extra\" : {\"a\": null}, \"signature\" : [], \"report\" : [2, 3] } ";
    let envelope = EndorsedAttestationReport::from_payload(payload).unwrap_or_else(|e| panic!("{:?}", e));
    assert_eq!(envelope.report, vec![2, 3]);
    assert_eq!(envelope.signature, Vec::<u8>::new());
    assert_eq!(envelope.signing_cert, vec![1]);
}

#[test]
fn missing_member_is_a_cert_error() {
    refused(b"{\"signature\":[1],\"signing_cert\":[2]}");
    refused(b"{\"report\":[1],\"signing_cert\":[2]}");
    refused(b"{\"report\":[1],\"signature\":[2]}");
    refused(b"{\"report\":[1],\"signature\":[2],\"signingCert\":[3]}");
    refused(b"{}");
}

#[test]
fn member_that_is_no_array_of_bytes_is_a_cert_error() {
    refused(b"{\"report\":\"AQI=\",\"signature\":[1],\"signing_cert\":[2]}");
    refused(b"{\"report\":[1],\"signature\":[256],\"signing_cert\":[2]}");
    refused(b"{\"report\":[1],\"signature\":[1],\"signing_cert\":[-1]}");
    refused(b"{\"report\":[1.5],\"signature\":[1],\"signing_cert\":[2]}");
    refused(b"{\"report\":null,\"signature\":[1],\"signing_cert\":[2]}");
    refused(b"{\"report\":[[1]],\"signature\":[1],\"signing_cert\":[2]}");
}

#[test]
fn payload_that_is_no_json_object_is_a_cert_error() {
    refused(b"");
    refused(b"[[1],[2],[3]]");
    refused(b"null");
    refused(b"{\"report\":[1],\"signature\":[2],\"signing_cert\":[3]");
    refused(b"{\"report\":[1],\"signature\":[2],\"signing_cert\":[3]} x");
    refused(&[0xff, 0xfe]);
}
