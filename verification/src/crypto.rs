//! The items of `ring` and `webpki` that the message types refer to: the
//! system random generator, and the algorithm descriptors that cipher
//! suites, named groups and signature schemes stand for.
use vstd::prelude::*;

use ring::agreement;
use ring::digest;
use ring::hkdf;
use ring::rand::{SecureRandom, SystemRandom};

verus! {

#[verifier::external_type_specification]
#[verifier::external_body]
pub struct ExSystemRandom(SystemRandom);

#[verifier::external_type_specification]
#[verifier::external_body]
pub struct ExDigestAlgorithm(digest::Algorithm);

#[verifier::external_type_specification]
#[verifier::external_body]
pub struct ExHkdfAlgorithm(hkdf::Algorithm);

#[verifier::external_type_specification]
#[verifier::external_body]
pub struct ExAgreementAlgorithm(agreement::Algorithm);

#[verifier::external_type_specification]
#[verifier::external_body]
pub struct ExSignatureAlgorithm(webpki::SignatureAlgorithm);

/// `ring::rand::SystemRandom::new`: the operating system's generator.
#[verifier::external_body]
pub(crate) fn system_random() -> SystemRandom {
    SystemRandom::new()
}

/// `SecureRandom::fill` of `ring`: fills `dest` with random bytes. The bytes
/// are random, and whether the generator works is up to the machine, so only
/// the length is promised of `dest`. A failure comes back as the `Display`
/// text of `ring::error::Unspecified`, the one error that `fill` returns,
/// which is always `ring::error::Unspecified`.
#[verifier::external_body]
pub(crate) fn fill_random(rng: &SystemRandom, dest: &mut [u8]) -> (res: Result<(), String>)
    ensures
        final(dest)@.len() == old(dest)@.len(),
        res matches Err(m) ==> m@ == "ring::error::Unspecified"@,
{
    match rng.fill(dest) {
        Ok(()) => Ok(()),
        Err(e) => Err(e.to_string()),
    }
}

/// The output length, in bytes, that `digest::Algorithm::output_len` of
/// `ring` reports for an algorithm.
pub uninterp spec fn digest_output_len(a: digest::Algorithm) -> usize;

/// The key length, in bytes, that `hkdf::KeyType::len` of `ring` reports for
/// an HKDF algorithm: the output length of its digest.
pub uninterp spec fn hkdf_len(a: hkdf::Algorithm) -> usize;

/// The name of the id of a `ring` digest algorithm: the variant of its
/// private `AlgorithmID` (`SHA256`, `SHA384`, ...), which is what its `==`
/// compares and what its `Debug` writes.
pub uninterp spec fn digest_id(a: digest::Algorithm) -> Seq<char>;

/// For a `ring` HKDF algorithm, the id name (as `digest_id` gives it) of the
/// digest under its HMAC, `hmac_algorithm().digest_algorithm()`, which is what
/// its `==` compares.
pub uninterp spec fn hkdf_digest_id(a: hkdf::Algorithm) -> Seq<char>;

/// The name of the curve of a `ring` key agreement algorithm: the variant of
/// its curve's `CurveID` (`Curve25519`, `P256`, `P384`), which is what its
/// `==` compares and what its `Debug` shows.
pub uninterp spec fn agreement_curve_id(a: agreement::Algorithm) -> Seq<char>;

/// `ring::digest::SHA256`: id `SHA256`, output 32 bytes long.
#[verifier::external_body]
pub(crate) fn digest_sha256() -> (res: &'static digest::Algorithm)
    ensures
        digest_output_len(*res) == 32,
        digest_id(*res) == "SHA256"@,
{
    &digest::SHA256
}

/// `ring::digest::SHA384`: id `SHA384`, output 48 bytes long.
#[verifier::external_body]
pub(crate) fn digest_sha384() -> (res: &'static digest::Algorithm)
    ensures
        digest_output_len(*res) == 48,
        digest_id(*res) == "SHA384"@,
{
    &digest::SHA384
}

/// `ring::hkdf::HKDF_SHA256`: HMAC over `digest::SHA256`, so its key length
/// is SHA-256's output length, 32.
#[verifier::external_body]
pub(crate) fn hkdf_sha256() -> (res: hkdf::Algorithm)
    ensures
        hkdf_len(res) == 32,
        hkdf_digest_id(res) == "SHA256"@,
{
    hkdf::HKDF_SHA256
}

/// `ring::hkdf::HKDF_SHA384`: HMAC over `digest::SHA384`, so its key length
/// is SHA-384's output length, 48.
#[verifier::external_body]
pub(crate) fn hkdf_sha384() -> (res: hkdf::Algorithm)
    ensures
        hkdf_len(res) == 48,
        hkdf_digest_id(res) == "SHA384"@,
{
    hkdf::HKDF_SHA384
}

/// `ring::agreement::X25519`, on the curve whose id is `Curve25519`.
#[verifier::external_body]
pub(crate) fn agreement_x25519() -> (res: &'static agreement::Algorithm)
    ensures
        agreement_curve_id(*res) == "Curve25519"@,
{
    &agreement::X25519
}

/// `ring::agreement::ECDH_P256`, on the curve whose id is `P256`.
#[verifier::external_body]
pub(crate) fn agreement_ecdh_p256() -> (res: &'static agreement::Algorithm)
    ensures
        agreement_curve_id(*res) == "P256"@,
{
    &agreement::ECDH_P256
}

/// `ring::agreement::ECDH_P384`, on the curve whose id is `P384`.
#[verifier::external_body]
pub(crate) fn agreement_ecdh_p384() -> (res: &'static agreement::Algorithm)
    ensures
        agreement_curve_id(*res) == "P384"@,
{
    &agreement::ECDH_P384
}

/// The DER bytes of the signature algorithm identifier that a `webpki`
/// signature algorithm matches (its private `signature_alg_id`, read from
/// the crate's `data/alg-*.der` files).
pub uninterp spec fn webpki_signature_alg_id(a: webpki::SignatureAlgorithm) -> Seq<u8>;

/// The DER bytes of the public key algorithm identifier that a `webpki`
/// signature algorithm matches (its private `public_key_alg_id`).
pub uninterp spec fn webpki_public_key_alg_id(a: webpki::SignatureAlgorithm) -> Seq<u8>;

/// `webpki::ED25519`: Ed25519 (OID 1.3.101.112) as both its signature and
/// its public key algorithm.
#[verifier::external_body]
pub(crate) fn webpki_ed25519() -> (res: &'static webpki::SignatureAlgorithm)
    ensures
        webpki_signature_alg_id(*res) == seq![0x06u8, 0x03, 0x2b, 0x65, 0x70],
        webpki_public_key_alg_id(*res) == seq![0x06u8, 0x03, 0x2b, 0x65, 0x70],
{
    &webpki::ED25519
}

/// `webpki::ECDSA_P256_SHA256`: ecdsa-with-SHA256 on an EC key on P-256.
#[verifier::external_body]
pub(crate) fn webpki_ecdsa_p256_sha256() -> (res: &'static webpki::SignatureAlgorithm)
    ensures
        webpki_signature_alg_id(*res) == seq![0x06u8, 0x08, 0x2a, 0x86, 0x48, 0xce, 0x3d, 0x04, 0x03, 0x02],
        webpki_public_key_alg_id(*res) == seq![0x06u8, 0x07, 0x2a, 0x86, 0x48, 0xce, 0x3d, 0x02, 0x01, 0x06, 0x08, 0x2a, 0x86, 0x48, 0xce, 0x3d, 0x03, 0x01, 0x07],
{
    &webpki::ECDSA_P256_SHA256
}

/// `webpki::ECDSA_P384_SHA384`: ecdsa-with-SHA384 on an EC key on P-384.
#[verifier::external_body]
pub(crate) fn webpki_ecdsa_p384_sha384() -> (res: &'static webpki::SignatureAlgorithm)
    ensures
        webpki_signature_alg_id(*res) == seq![0x06u8, 0x08, 0x2a, 0x86, 0x48, 0xce, 0x3d, 0x04, 0x03, 0x03],
        webpki_public_key_alg_id(*res) == seq![0x06u8, 0x07, 0x2a, 0x86, 0x48, 0xce, 0x3d, 0x02, 0x01, 0x06, 0x05, 0x2b, 0x81, 0x04, 0x00, 0x22],
{
    &webpki::ECDSA_P384_SHA384
}

} // verus!
