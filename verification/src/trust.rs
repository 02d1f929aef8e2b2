//! Checking the endorsement of an attestation report: that the signing
//! certificate chains to the pinned root, and that it signed the report.
//!
//! The cryptography is that of `webpki`; what is decided here is which
//! algorithms are admitted, and what is asked of it.

use vstd::prelude::*;
use crate::error::AttestationError;

verus! {

/// A signature algorithm that certificate validation can be told to trust.
#[derive(Clone, Copy, Debug, PartialEq, Eq, Structural)]
pub enum SignatureScheme {
    /// ECDSA on P-256 with SHA-256.
    EcdsaP256Sha256,
    /// ECDSA on P-256 with SHA-384.
    EcdsaP256Sha384,
    /// ECDSA on P-384 with SHA-256.
    EcdsaP384Sha256,
    /// ECDSA on P-384 with SHA-384.
    EcdsaP384Sha384,
    /// RSA-PSS with SHA-256, for keys of 2048 to 8192 bits in the legacy
    /// encoding.
    RsaPssSha256LegacyKey,
    /// RSA-PSS with SHA-384, for keys of 2048 to 8192 bits in the legacy
    /// encoding.
    RsaPssSha384LegacyKey,
    /// RSA-PSS with SHA-512, for keys of 2048 to 8192 bits in the legacy
    /// encoding.
    RsaPssSha512LegacyKey,
    /// RSA PKCS#1 v1.5 with SHA-256, for keys of 2048 to 8192 bits.
    RsaPkcs1Sha256,
    /// RSA PKCS#1 v1.5 with SHA-384, for keys of 2048 to 8192 bits.
    RsaPkcs1Sha384,
    /// RSA PKCS#1 v1.5 with SHA-512, for keys of 2048 to 8192 bits.
    RsaPkcs1Sha512,
    /// RSA PKCS#1 v1.5 with SHA-384, for keys of 3072 to 8192 bits.
    RsaPkcs1Sha384Min3072,
}

/// The algorithms that are trusted in the signatures of a certificate chain.
pub open spec fn supported_sig_algs() -> Seq<SignatureScheme> {
    seq![
        SignatureScheme::EcdsaP256Sha256,
        SignatureScheme::EcdsaP256Sha384,
        SignatureScheme::EcdsaP384Sha256,
        SignatureScheme::EcdsaP384Sha384,
        SignatureScheme::RsaPssSha256LegacyKey,
        SignatureScheme::RsaPssSha384LegacyKey,
        SignatureScheme::RsaPssSha512LegacyKey,
        SignatureScheme::RsaPkcs1Sha256,
        SignatureScheme::RsaPkcs1Sha384,
        SignatureScheme::RsaPkcs1Sha512,
        SignatureScheme::RsaPkcs1Sha384Min3072,
    ]
}

/// The algorithm with which the attestation service signs its reports.
pub open spec fn report_sig_alg() -> SignatureScheme {
    SignatureScheme::RsaPkcs1Sha256
}

/// The list of [`supported_sig_algs`].
pub fn supported_sig_alg_list() -> (list: Vec<SignatureScheme>)
    ensures
        list@ == supported_sig_algs(),
{
    let mut list: Vec<SignatureScheme> = Vec::new();
    list.push(SignatureScheme::EcdsaP256Sha256);
    list.push(SignatureScheme::EcdsaP256Sha384);
    list.push(SignatureScheme::EcdsaP384Sha256);
    list.push(SignatureScheme::EcdsaP384Sha384);
    list.push(SignatureScheme::RsaPssSha256LegacyKey);
    list.push(SignatureScheme::RsaPssSha384LegacyKey);
    list.push(SignatureScheme::RsaPssSha512LegacyKey);
    list.push(SignatureScheme::RsaPkcs1Sha256);
    list.push(SignatureScheme::RsaPkcs1Sha384);
    list.push(SignatureScheme::RsaPkcs1Sha512);
    list.push(SignatureScheme::RsaPkcs1Sha384Min3072);
    list
}

/// `webpki::Error`, of which nothing is read.
#[verifier::external_type_specification]
#[verifier::external_body]
pub struct ExWebpkiError(webpki::Error);

/// `webpki::SignatureAlgorithm`, handed on to `webpki` as it is.
#[verifier::external_type_specification]
#[verifier::external_body]
pub struct ExSignatureAlgorithm(webpki::SignatureAlgorithm);

/// Whether `webpki` finds the DER-encoded certificate `signing_cert` valid
/// as a TLS server certificate at `now` seconds after the Unix epoch, with
/// `root` as the only trust anchor and the only intermediate certificate,
/// trusting the algorithms `schemes` in certificate signatures.
///
/// This is the verdict of `webpki`; it is not defined here.
pub uninterp spec fn tls_server_cert_valid(
    signing_cert: Seq<u8>,
    root: Seq<u8>,
    schemes: Seq<SignatureScheme>,
    now: int,
) -> bool;

/// Whether `webpki` finds `signature` to be a signature over `message`, by
/// the public key of the DER-encoded certificate `signing_cert`, with the
/// algorithm `scheme`.
///
/// This is the verdict of `webpki`; it is not defined here.
pub uninterp spec fn signature_valid(
    signing_cert: Seq<u8>,
    scheme: SignatureScheme,
    message: Seq<u8>,
    signature: Seq<u8>,
) -> bool;

/// Gives for each scheme the algorithm of `webpki` that it stands for. The
/// two functions below convert their argument with it.
#[verifier::external_body]
fn webpki_algorithm(scheme: SignatureScheme) -> &'static webpki::SignatureAlgorithm {
    match scheme {
        SignatureScheme::EcdsaP256Sha256 => &webpki::ECDSA_P256_SHA256,
        SignatureScheme::EcdsaP256Sha384 => &webpki::ECDSA_P256_SHA384,
        SignatureScheme::EcdsaP384Sha256 => &webpki::ECDSA_P384_SHA256,
        SignatureScheme::EcdsaP384Sha384 => &webpki::ECDSA_P384_SHA384,
        SignatureScheme::RsaPssSha256LegacyKey => &webpki::RSA_PSS_2048_8192_SHA256_LEGACY_KEY,
        SignatureScheme::RsaPssSha384LegacyKey => &webpki::RSA_PSS_2048_8192_SHA384_LEGACY_KEY,
        SignatureScheme::RsaPssSha512LegacyKey => &webpki::RSA_PSS_2048_8192_SHA512_LEGACY_KEY,
        SignatureScheme::RsaPkcs1Sha256 => &webpki::RSA_PKCS1_2048_8192_SHA256,
        SignatureScheme::RsaPkcs1Sha384 => &webpki::RSA_PKCS1_2048_8192_SHA384,
        SignatureScheme::RsaPkcs1Sha512 => &webpki::RSA_PKCS1_2048_8192_SHA512,
        SignatureScheme::RsaPkcs1Sha384Min3072 => &webpki::RSA_PKCS1_3072_8192_SHA384,
    }
}

/// Parses `signing_cert` with `webpki::EndEntityCert::from`, makes `root`
/// the only trust anchor by `rustls::RootCertStore::add`, and calls
/// `EndEntityCert::verify_is_valid_tls_server_cert` with the algorithms of
/// `schemes`, with `root` as the only intermediate certificate, and with the
/// time `now`, in seconds after the Unix epoch.
///
/// The contract claims only that success is a function of the four
/// arguments, named [`tls_server_cert_valid`]: the validation reads no
/// clock and nothing else of the machine.
#[verifier::external_body]
pub(crate) fn check_tls_server_cert(
    signing_cert: &[u8],
    root: &[u8],
    schemes: &Vec<SignatureScheme>,
    now: u64,
) -> (r: Result<(), webpki::Error>)
    ensures
        r is Ok <==> tls_server_cert_valid(signing_cert@, root@, schemes@, now as int),
{
    let end_entity = webpki::EndEntityCert::from(signing_cert)?;
    let mut store = rustls::RootCertStore::empty();
    store.add(&rustls::Certificate(root.to_vec()))?;
    let anchors: Vec<_> = store.roots.iter().map(|r| r.to_trust_anchor()).collect();
    let anchors = webpki::TLSServerTrustAnchors(&anchors);
    let algorithms: Vec<_> = schemes.iter().map(|s| webpki_algorithm(*s)).collect();
    let time = webpki::Time::from_seconds_since_unix_epoch(now);
    end_entity.verify_is_valid_tls_server_cert(&algorithms, &anchors, &[root], time)
}

/// Parses `signing_cert` with `webpki::EndEntityCert::from` and calls
/// `EndEntityCert::verify_signature` on `message` and `signature` with the
/// algorithm of `scheme`.
///
/// The contract claims only that success is a function of the four
/// arguments, named [`signature_valid`].
#[verifier::external_body]
pub(crate) fn check_signature(
    signing_cert: &[u8],
    scheme: SignatureScheme,
    message: &[u8],
    signature: &[u8],
) -> (r: Result<(), webpki::Error>)
    ensures
        r is Ok <==> signature_valid(signing_cert@, scheme, message@, signature@),
{
    let end_entity = webpki::EndEntityCert::from(signing_cert)?;
    end_entity.verify_signature(webpki_algorithm(scheme), message, signature)
}

/// Whether the envelope's endorsement holds: the signing certificate is a
/// valid TLS server certificate under the pinned root at `now`, by the
/// supported algorithms, and its key signed the report with RSA PKCS#1 v1.5
/// and SHA-256.
pub open spec fn endorsement_valid(
    signing_cert: Seq<u8>,
    root: Seq<u8>,
    now: int,
    report: Seq<u8>,
    signature: Seq<u8>,
) -> bool {
    &&& tls_server_cert_valid(signing_cert, root, supported_sig_algs(), now)
    &&& signature_valid(signing_cert, report_sig_alg(), report, signature)
}

/// Checks the endorsement of `report`.
///
/// The chain is validated first, the report signature after it. Either
/// failure is an [`AttestationError::CryptoError`].
pub fn verify_endorsement(
    signing_cert: &[u8],
    root: &[u8],
    now: u64,
    report: &[u8],
    signature: &[u8],
) -> (r: Result<(), AttestationError>)
    ensures
        r == if endorsement_valid(signing_cert@, root@, now as int, report@, signature@) {
            Ok::<(), AttestationError>(())
        } else {
            Err::<(), AttestationError>(AttestationError::CryptoError)
        },
{
    let schemes = supported_sig_alg_list();
    match check_tls_server_cert(signing_cert, root, &schemes, now) {
        Ok(_) => {},
        Err(_) => {
            return Err(AttestationError::CryptoError);
        },
    }
    match check_signature(signing_cert, SignatureScheme::RsaPkcs1Sha256, report, signature) {
        Ok(_) => Ok(()),
        Err(_) => Err(AttestationError::CryptoError),
    }
}

} // verus!
