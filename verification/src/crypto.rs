//! The signature boundary: extracting the certificate's public key and
//! computing the RSA verdict. Both results are functions of their
//! arguments alone, so each carries a name; what the pipeline does with
//! them — and that a failed key extraction is its own distinct cause —
//! is decided by verified code in `gate`.

use vstd::prelude::*;
use rsa::pkcs8::DecodePublicKey;
use sha2::Digest;

verus! {

/// The raw DER of the subjectPublicKeyInfo inside an X.509 certificate,
/// or `None` where the bytes are not a parseable certificate.
pub uninterp spec fn cert_public_key_of(der: Seq<u8>) -> Option<Seq<u8>>;

/// Relies on x509_parser::parse_x509_certificate: extracts the
/// certificate's subjectPublicKeyInfo, a function of the DER bytes
/// alone.
#[verifier::external_body]
pub(crate) fn cert_public_key(der: &Vec<u8>) -> (r: Option<Vec<u8>>)
    ensures
        r matches Some(k) ==> cert_public_key_of(der@) == Some(k@),
        r is None ==> cert_public_key_of(der@) is None,
{
    match x509_parser::parse_x509_certificate(der.as_slice()) {
        Ok((_, cert)) => Some(cert.public_key().raw.to_vec()),
        Err(_) => None,
    }
}

/// The PKCS#1 v1.5 verdict for `sig` over `msg` under the public key
/// `key` (a subjectPublicKeyInfo DER) and the hash that `alg` names;
/// false for a key that does not decode as an RSA key or an algorithm
/// other than RS256, RS384 and RS512. A function of its arguments
/// alone.
pub uninterp spec fn rsa_verdict_of(alg: Seq<char>, key: Seq<u8>, msg: Seq<char>, sig: Seq<u8>) -> bool;

/// Relies on rsa::RsaPublicKey::{from_public_key_der, verify} and
/// sha2's digests: computes the named PKCS#1 v1.5 verdict.
#[verifier::external_body]
pub(crate) fn rsa_pkcs1v15_verify(alg: &str, key: &Vec<u8>, msg: &str, sig: &Vec<u8>) -> (b: bool)
    ensures
        b == rsa_verdict_of(alg@, key@, msg@, sig@),
{
    let k = match rsa::RsaPublicKey::from_public_key_der(key.as_slice()) {
        Ok(k) => k,
        Err(_) => return false,
    };
    let (scheme, hashed) = match alg {
        "RS256" => (rsa::Pkcs1v15Sign::new::<sha2::Sha256>(), sha2::Sha256::digest(msg.as_bytes()).to_vec()),
        "RS384" => (rsa::Pkcs1v15Sign::new::<sha2::Sha384>(), sha2::Sha384::digest(msg.as_bytes()).to_vec()),
        "RS512" => (rsa::Pkcs1v15Sign::new::<sha2::Sha512>(), sha2::Sha512::digest(msg.as_bytes()).to_vec()),
        _ => return false,
    };
    k.verify(scheme, &hashed, sig.as_slice()).is_ok()
}

} // verus!
