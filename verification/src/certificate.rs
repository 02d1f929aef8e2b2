//! Finding the two parts of an attestation certificate that verification
//! needs: the subject's public key, and the payload of the extension that
//! carries the endorsed attestation report.
//!
//! The certificate's own signature is not examined here.

use vstd::prelude::*;
use crate::der::{
    bit_string_octets, der_fields, lemma_der_fields_len, pieces_view, read_bit_string,
    read_fields,
};
use crate::error::AttestationError;

verus! {

/// Identifier octet of a SEQUENCE.
pub const TAG_SEQUENCE: u8 = 0x30;

/// Identifier octet of an INTEGER.
pub const TAG_INTEGER: u8 = 0x02;

/// Identifier octet of a BIT STRING.
pub const TAG_BIT_STRING: u8 = 0x03;

/// Identifier octet of an OCTET STRING.
pub const TAG_OCTET_STRING: u8 = 0x04;

/// Identifier octet of an OBJECT IDENTIFIER.
pub const TAG_OBJECT_IDENTIFIER: u8 = 0x06;

/// Identifier octet of the explicitly tagged version field, `[0]`.
pub const TAG_VERSION: u8 = 0xa0;

/// Identifier octet of the explicitly tagged extension list, `[3]`.
pub const TAG_EXTENSIONS: u8 = 0xa3;

/// The fields of a certificate: what is signed, the signature algorithm,
/// and the signature.
pub open spec fn certificate_tags() -> Seq<u8> {
    seq![TAG_SEQUENCE, TAG_SEQUENCE, TAG_BIT_STRING]
}

/// The fields of the signed part of an attestation certificate: version,
/// serial number, signature algorithm, issuer, validity, subject, subject
/// public key info, and extensions.
pub open spec fn tbs_certificate_tags() -> Seq<u8> {
    seq![
        TAG_VERSION,
        TAG_INTEGER,
        TAG_SEQUENCE,
        TAG_SEQUENCE,
        TAG_SEQUENCE,
        TAG_SEQUENCE,
        TAG_SEQUENCE,
        TAG_EXTENSIONS,
    ]
}

/// The octets of the subject public key in the content `info` of a subject
/// public key info: an algorithm identifier, then the key as a BIT STRING.
pub open spec fn subject_public_key(info: Seq<u8>) -> Option<Seq<u8>> {
    match der_fields(info, seq![TAG_SEQUENCE, TAG_BIT_STRING]) {
        None => None,
        Some(fields) => bit_string_octets(fields[1]),
    }
}

/// The payload in the content `extensions` of the tagged extension list: a
/// list of exactly one extension, which is an object identifier followed by
/// an OCTET STRING.
pub open spec fn extension_payload(extensions: Seq<u8>) -> Option<Seq<u8>> {
    match der_fields(extensions, seq![TAG_SEQUENCE]) {
        None => None,
        Some(list) => match der_fields(list[0], seq![TAG_SEQUENCE]) {
            None => None,
            Some(extension) => match der_fields(
                extension[0],
                seq![TAG_OBJECT_IDENTIFIER, TAG_OCTET_STRING],
            ) {
                None => None,
                Some(fields) => Some(fields[1]),
            },
        },
    }
}

/// The mathematical content of [`CertificateParts`].
pub ghost struct CertificatePartsView {
    pub public_key: Seq<u8>,
    pub payload: Seq<u8>,
}

/// The subject public key and the extension payload of the certificate
/// `cert`, if `cert` has the structure of an attestation certificate.
pub open spec fn certificate_parts(cert: Seq<u8>) -> Option<CertificatePartsView> {
    match der_fields(cert, seq![TAG_SEQUENCE]) {
        None => None,
        Some(outer) => match der_fields(outer[0], certificate_tags()) {
            None => None,
            Some(certificate) => match der_fields(certificate[0], tbs_certificate_tags()) {
                None => None,
                Some(tbs) => match subject_public_key(tbs[6]) {
                    None => None,
                    Some(public_key) => match extension_payload(tbs[7]) {
                        None => None,
                        Some(payload) => Some(CertificatePartsView { public_key, payload }),
                    },
                },
            },
        },
    }
}

/// What verification reads from an attestation certificate.
pub struct CertificateParts<'a> {
    /// The octets of the subject public key.
    pub public_key: &'a [u8],
    /// The payload of the extension that carries the endorsed report.
    pub payload: &'a [u8],
}

impl<'a> View for CertificateParts<'a> {
    type V = CertificatePartsView;

    open spec fn view(&self) -> CertificatePartsView {
        CertificatePartsView { public_key: self.public_key@, payload: self.payload@ }
    }
}

/// Reads the subject public key out of a subject public key info.
fn read_subject_public_key<'a>(info: &'a [u8]) -> (r: Option<&'a [u8]>)
    ensures
        match subject_public_key(info@) {
            Some(key) => r matches Some(piece) && piece@ == key,
            None => r is None,
        },
{
    let tags: [u8; 2] = [TAG_SEQUENCE, TAG_BIT_STRING];
    assert(tags@ =~= seq![TAG_SEQUENCE, TAG_BIT_STRING]);
    proof {
        lemma_der_fields_len(info@, tags@);
    }
    match read_fields(info, tags.as_slice()) {
        None => None,
        Some(fields) => read_bit_string(fields[1]),
    }
}

/// Reads the payload of the single extension out of the extension list.
fn read_extension_payload<'a>(extensions: &'a [u8]) -> (r: Option<&'a [u8]>)
    ensures
        match extension_payload(extensions@) {
            Some(payload) => r matches Some(piece) && piece@ == payload,
            None => r is None,
        },
{
    let one: [u8; 1] = [TAG_SEQUENCE];
    let pair: [u8; 2] = [TAG_OBJECT_IDENTIFIER, TAG_OCTET_STRING];
    assert(one@ =~= seq![TAG_SEQUENCE]);
    assert(pair@ =~= seq![TAG_OBJECT_IDENTIFIER, TAG_OCTET_STRING]);
    proof {
        lemma_der_fields_len(extensions@, one@);
    }
    let list = match read_fields(extensions, one.as_slice()) {
        None => {
            return None;
        },
        Some(list) => list,
    };
    proof {
        lemma_der_fields_len(list[0]@, one@);
    }
    let extension = match read_fields(list[0], one.as_slice()) {
        None => {
            return None;
        },
        Some(extension) => extension,
    };
    proof {
        lemma_der_fields_len(extension[0]@, pair@);
    }
    match read_fields(extension[0], pair.as_slice()) {
        None => None,
        Some(fields) => Some(fields[1]),
    }
}

/// Finds the subject public key and the extension payload in a DER-encoded
/// attestation certificate.
///
/// Fails with [`AttestationError::CertError`] when the certificate does not
/// have the expected structure: a field is missing, has another tag, is cut
/// short, or is followed by bytes that do not belong there.
pub fn extract_certificate_parts<'a>(cert: &'a [u8]) -> (r: Result<
    CertificateParts<'a>,
    AttestationError,
>)
    ensures
        match certificate_parts(cert@) {
            Some(parts) => r matches Ok(found) && found@ == parts,
            None => r matches Err(e) && e == AttestationError::CertError,
        },
{
    let one: [u8; 1] = [TAG_SEQUENCE];
    let top: [u8; 3] = [TAG_SEQUENCE, TAG_SEQUENCE, TAG_BIT_STRING];
    let signed: [u8; 8] = [
        TAG_VERSION,
        TAG_INTEGER,
        TAG_SEQUENCE,
        TAG_SEQUENCE,
        TAG_SEQUENCE,
        TAG_SEQUENCE,
        TAG_SEQUENCE,
        TAG_EXTENSIONS,
    ];
    assert(one@ =~= seq![TAG_SEQUENCE]);
    assert(top@ =~= certificate_tags());
    assert(signed@ =~= tbs_certificate_tags());
    proof {
        lemma_der_fields_len(cert@, one@);
    }
    let outer = match read_fields(cert, one.as_slice()) {
        None => {
            return Err(AttestationError::CertError);
        },
        Some(outer) => outer,
    };
    proof {
        lemma_der_fields_len(outer[0]@, top@);
    }
    let certificate = match read_fields(outer[0], top.as_slice()) {
        None => {
            return Err(AttestationError::CertError);
        },
        Some(certificate) => certificate,
    };
    proof {
        lemma_der_fields_len(certificate[0]@, signed@);
    }
    let tbs = match read_fields(certificate[0], signed.as_slice()) {
        None => {
            return Err(AttestationError::CertError);
        },
        Some(tbs) => tbs,
    };
    let public_key = match read_subject_public_key(tbs[6]) {
        None => {
            return Err(AttestationError::CertError);
        },
        Some(public_key) => public_key,
    };
    let payload = match read_extension_payload(tbs[7]) {
        None => {
            return Err(AttestationError::CertError);
        },
        Some(payload) => payload,
    };
    Ok(CertificateParts { public_key, payload })
}

} // verus!
