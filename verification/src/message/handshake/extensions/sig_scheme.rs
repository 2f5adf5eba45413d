//! Signature schemes, and the `signature_algorithms` extension.
use vstd::prelude::*;

use bytes::BytesMut;

use crate::error::{TlsError, TlsErrorView, TlsResult};
use crate::message::serialize::{
    Serialize, SpecResult, all_wf, decode_counted, encode_counted, lemma_counted_roundtrip,
    lemma_decode_n_suffix, spec_decode_counted, spec_encode_counted, spec_read_length, views,
};
use crate::buffer::{be16, bm_get_u16, bm_len, bm_put_u16, bytes_mut_view, read_be16};
use crate::crypto::{
    webpki_ecdsa_p256_sha256, webpki_ecdsa_p384_sha384, webpki_ed25519, webpki_public_key_alg_id,
    webpki_signature_alg_id,
};
use crate::message::handshake::grease::{GreasePayloadU16, is_grease_u16_spec};

verus! {

broadcast use crate::seqs::group_codec;

/// The signature schemes that a peer accepts.
#[derive(Debug, Clone, PartialEq, Eq)]
pub struct SignatureAlgorithmsPayload {
    pub schemes: Vec<SignatureScheme>,
}

pub struct SignatureAlgorithmsPayloadView {
    pub schemes: Seq<SignatureScheme>,
}

impl View for SignatureAlgorithmsPayload {
    type V = SignatureAlgorithmsPayloadView;

    open spec fn view(&self) -> SignatureAlgorithmsPayloadView {
        SignatureAlgorithmsPayloadView { schemes: views(self.schemes@) }
    }
}

impl Serialize for SignatureAlgorithmsPayload {
    open spec fn spec_encode(v: SignatureAlgorithmsPayloadView) -> Seq<u8> {
        spec_encode_counted::<SignatureScheme>(v.schemes, 2, 2)
    }

    open spec fn spec_decode(s: Seq<u8>) -> SpecResult<SignatureAlgorithmsPayloadView> {
        match spec_decode_counted::<SignatureScheme>(s, 2, 2) {
            Ok((schemes, rest)) => Ok((SignatureAlgorithmsPayloadView { schemes }, rest)),
            Err(e) => Err(e),
        }
    }

    open spec fn spec_wf(v: SignatureAlgorithmsPayloadView) -> bool {
        all_wf::<SignatureScheme>(v.schemes) && v.schemes.len() * 2 < 0x1_0000
    }

    open spec fn spec_self_delimiting() -> bool {
        true
    }

    open spec fn spec_consumes() -> bool {
        true
    }

    proof fn lemma_decode_suffix(s: Seq<u8>) {
        lemma_decode_n_suffix::<SignatureScheme>(s.skip(2), (spec_read_length(s, 2) / 2) as nat);
    }

    proof fn lemma_roundtrip(v: SignatureAlgorithmsPayloadView, rest: Seq<u8>) {
        lemma_counted_roundtrip::<SignatureScheme>(v.schemes, rest, 2, 2);
    }

    fn encode(&self, buf: &mut BytesMut) {
        encode_counted(&self.schemes, buf, 2, 2);
    }

    fn decode(buf: &mut BytesMut) -> (res: TlsResult<Self>) {
        let schemes = decode_counted::<SignatureScheme>(buf, 2, 2)?;
        Ok(Self { schemes })
    }
}

/// A signature scheme as it appears on the wire.
#[derive(Debug, Clone, Copy, PartialEq, Eq, Structural)]
pub enum SignatureScheme {
    RsaPssSha256,
    RsaPssSha384,
    RsaPssSha512,
    EcdsaSecp256r1Sha256,
    EcdsaSecp384r1Sha384,
    EcdsaSecp521r1Sha512,
    Ed25519,
    Ed448,
    Grease(GreasePayloadU16),
    Unknown(u16),
}

impl SignatureScheme {
    /// The code that stands for the value on the wire.
    pub open spec fn spec_code(self) -> u16 {
        match self {
            SignatureScheme::RsaPssSha256 => 0x0804,
            SignatureScheme::RsaPssSha384 => 0x0805,
            SignatureScheme::RsaPssSha512 => 0x0806,
            SignatureScheme::EcdsaSecp256r1Sha256 => 0x0403,
            SignatureScheme::EcdsaSecp384r1Sha384 => 0x0503,
            SignatureScheme::EcdsaSecp521r1Sha512 => 0x0603,
            SignatureScheme::Ed25519 => 0x0807,
            SignatureScheme::Ed448 => 0x0808,
            SignatureScheme::Grease(g) => g.grease,
            SignatureScheme::Unknown(v) => v,
        }
    }

    /// The value that a code stands for.
    pub open spec fn spec_from_code(v: u16) -> SignatureScheme {
        match v {
            0x0804 => SignatureScheme::RsaPssSha256,
            0x0805 => SignatureScheme::RsaPssSha384,
            0x0806 => SignatureScheme::RsaPssSha512,
            0x0403 => SignatureScheme::EcdsaSecp256r1Sha256,
            0x0503 => SignatureScheme::EcdsaSecp384r1Sha384,
            0x0603 => SignatureScheme::EcdsaSecp521r1Sha512,
            0x0807 => SignatureScheme::Ed25519,
            0x0808 => SignatureScheme::Ed448,
            _ => if is_grease_u16_spec(v) {
                SignatureScheme::Grease(GreasePayloadU16 { grease: v })
            } else {
                SignatureScheme::Unknown(v)
            },
        }
    }

    /// The wire codes of the named values, as the protocol's registry fixes
    /// them: each value is written as its number, and a code is read as that
    /// value exactly when it is that number.
    pub proof fn lemma_wire_codes(c: u16)
        ensures
            SignatureScheme::RsaPssSha256.spec_code() == 0x0804,
            SignatureScheme::RsaPssSha384.spec_code() == 0x0805,
            SignatureScheme::RsaPssSha512.spec_code() == 0x0806,
            SignatureScheme::EcdsaSecp256r1Sha256.spec_code() == 0x0403,
            SignatureScheme::EcdsaSecp384r1Sha384.spec_code() == 0x0503,
            SignatureScheme::EcdsaSecp521r1Sha512.spec_code() == 0x0603,
            SignatureScheme::Ed25519.spec_code() == 0x0807,
            SignatureScheme::Ed448.spec_code() == 0x0808,
            (SignatureScheme::spec_from_code(c) == SignatureScheme::RsaPssSha256) <==> c == 0x0804,
            (SignatureScheme::spec_from_code(c) == SignatureScheme::RsaPssSha384) <==> c == 0x0805,
            (SignatureScheme::spec_from_code(c) == SignatureScheme::RsaPssSha512) <==> c == 0x0806,
            (SignatureScheme::spec_from_code(c) == SignatureScheme::EcdsaSecp256r1Sha256) <==> c == 0x0403,
            (SignatureScheme::spec_from_code(c) == SignatureScheme::EcdsaSecp384r1Sha384) <==> c == 0x0503,
            (SignatureScheme::spec_from_code(c) == SignatureScheme::EcdsaSecp521r1Sha512) <==> c == 0x0603,
            (SignatureScheme::spec_from_code(c) == SignatureScheme::Ed25519) <==> c == 0x0807,
            (SignatureScheme::spec_from_code(c) == SignatureScheme::Ed448) <==> c == 0x0808,
    {
    }

    /// The values that are read back as written: those whose code is not
    /// taken by another variant.
    pub open spec fn spec_canonical(self) -> bool {
        SignatureScheme::spec_from_code(self.spec_code()) == self
    }

    /// Every code is read as a value whose code it is; a value that is not
    /// `Unknown` with a code of another variant is read back as itself.
    pub proof fn lemma_code_roundtrip(self, v: u16)
        ensures
            SignatureScheme::spec_from_code(v).spec_code() == v,
            SignatureScheme::spec_from_code(v).spec_canonical(),
            self.spec_canonical() <==> match self {
                SignatureScheme::Grease(g) => is_grease_u16_spec(g.grease),
                SignatureScheme::Unknown(u) => SignatureScheme::spec_from_code(u) is Unknown,
                _ => true,
            },
    {
    }
}

impl View for SignatureScheme {
    type V = SignatureScheme;

    open spec fn view(&self) -> SignatureScheme {
        *self
    }
}

impl SignatureScheme {
    /// The code that stands for the value on the wire.
    pub fn code(self) -> (res: u16)
        ensures
            res == self.spec_code(),
    {
        match self {
            SignatureScheme::RsaPssSha256 => 0x0804,
            SignatureScheme::RsaPssSha384 => 0x0805,
            SignatureScheme::RsaPssSha512 => 0x0806,
            SignatureScheme::EcdsaSecp256r1Sha256 => 0x0403,
            SignatureScheme::EcdsaSecp384r1Sha384 => 0x0503,
            SignatureScheme::EcdsaSecp521r1Sha512 => 0x0603,
            SignatureScheme::Ed25519 => 0x0807,
            SignatureScheme::Ed448 => 0x0808,
            SignatureScheme::Grease(g) => g.grease,
            SignatureScheme::Unknown(v) => v,
        }
    }

    /// The value that a code stands for; this never fails.
    pub fn try_from(value: u16) -> (res: Result<Self, TlsError>)
        ensures
            res == Ok::<_, TlsError>(SignatureScheme::spec_from_code(value)),
    {
        match value {
            0x0804 => Ok(SignatureScheme::RsaPssSha256),
            0x0805 => Ok(SignatureScheme::RsaPssSha384),
            0x0806 => Ok(SignatureScheme::RsaPssSha512),
            0x0403 => Ok(SignatureScheme::EcdsaSecp256r1Sha256),
            0x0503 => Ok(SignatureScheme::EcdsaSecp384r1Sha384),
            0x0603 => Ok(SignatureScheme::EcdsaSecp521r1Sha512),
            0x0807 => Ok(SignatureScheme::Ed25519),
            0x0808 => Ok(SignatureScheme::Ed448),
            _ => match GreasePayloadU16::is_grease(value) {
                Ok(g) => Ok(SignatureScheme::Grease(g)),
                Err(_) => Ok(SignatureScheme::Unknown(value)),
            },
        }
    }
}

impl Serialize for SignatureScheme {
    open spec fn spec_encode(v: SignatureScheme) -> Seq<u8> {
        be16(v.spec_code())
    }

    open spec fn spec_decode(s: Seq<u8>) -> SpecResult<SignatureScheme> {
        if s.len() < 2 {
            Err(TlsErrorView::Incomplete((2 - s.len()) as usize))
        } else {
            Ok((SignatureScheme::spec_from_code(read_be16(s, 0)), s.skip(2)))
        }
    }

    open spec fn spec_wf(v: SignatureScheme) -> bool {
        v.spec_canonical()
    }

    open spec fn spec_self_delimiting() -> bool {
        true
    }

    open spec fn spec_consumes() -> bool {
        true
    }

    proof fn lemma_decode_suffix(s: Seq<u8>) {
    }

    proof fn lemma_roundtrip(v: SignatureScheme, rest: Seq<u8>) {
        v.lemma_code_roundtrip(0);
        let s = Self::spec_encode(v) + rest;
        assert(s.skip(2) =~= rest);
    }

    fn encode(&self, buf: &mut BytesMut) {
        bm_put_u16(buf, self.code());
        assert(bytes_mut_view(*buf) =~= bytes_mut_view(*old(buf)) + Self::spec_encode(self@));
    }

    fn decode(buf: &mut BytesMut) -> (res: TlsResult<Self>) {
        let remaining = bm_len(buf);
        if remaining < 2 {
            return Err(TlsError::Incomplete(2 - remaining));
        }
        SignatureScheme::try_from(bm_get_u16(buf))
    }
}

impl SignatureScheme {
    /// The scheme as one that this library verifies, if it is one.
    pub fn to_supported(&self) -> (res: Option<SupportedScheme>)
        ensures
            res == self.to_supported_spec(),
    {
        match self {
            SignatureScheme::Ed25519 => Some(SupportedScheme::Ed25519),
            SignatureScheme::EcdsaSecp256r1Sha256 => Some(SupportedScheme::EcdsaSecp256r1Sha256),
            SignatureScheme::EcdsaSecp384r1Sha384 => Some(SupportedScheme::EcdsaSecp384r1Sha384),
            _ => None,
        }
    }

    /// What `to_supported` returns.
    pub open spec fn to_supported_spec(self) -> Option<SupportedScheme> {
        match self {
            SignatureScheme::Ed25519 => Some(SupportedScheme::Ed25519),
            SignatureScheme::EcdsaSecp256r1Sha256 => Some(SupportedScheme::EcdsaSecp256r1Sha256),
            SignatureScheme::EcdsaSecp384r1Sha384 => Some(SupportedScheme::EcdsaSecp384r1Sha384),
            _ => None,
        }
    }
}

/// The signature schemes that this library verifies.
#[derive(Debug, Clone, Copy, PartialEq, Eq, Structural)]
pub enum SupportedScheme {
    Ed25519,
    EcdsaSecp256r1Sha256,
    EcdsaSecp384r1Sha384,
}

impl SupportedScheme {
    /// The scheme's code point.
    pub fn to_unsupported(&self) -> (res: SignatureScheme)
        ensures
            res == self.to_unsupported_spec(),
    {
        match self {
            SupportedScheme::Ed25519 => SignatureScheme::Ed25519,
            SupportedScheme::EcdsaSecp256r1Sha256 => SignatureScheme::EcdsaSecp256r1Sha256,
            SupportedScheme::EcdsaSecp384r1Sha384 => SignatureScheme::EcdsaSecp384r1Sha384,
        }
    }

    /// What `to_unsupported` returns.
    pub open spec fn to_unsupported_spec(self) -> SignatureScheme {
        match self {
            SupportedScheme::Ed25519 => SignatureScheme::Ed25519,
            SupportedScheme::EcdsaSecp256r1Sha256 => SignatureScheme::EcdsaSecp256r1Sha256,
            SupportedScheme::EcdsaSecp384r1Sha384 => SignatureScheme::EcdsaSecp384r1Sha384,
        }
    }

    /// A supported scheme is found again from its code point, and a code
    /// point has a supported scheme exactly when it is one's code point.
    pub proof fn lemma_supported_roundtrip(self, s: SignatureScheme)
        ensures
            self.to_unsupported_spec().to_supported_spec() == Some(self),
            s.to_supported_spec() matches Some(x) ==> x.to_unsupported_spec() == s,
    {
    }

    /// The DER bytes of the signature algorithm identifier of the scheme:
    /// Ed25519, ecdsa-with-SHA256 or ecdsa-with-SHA384.
    pub open spec fn signature_alg_id_spec(self) -> Seq<u8> {
        match self {
            SupportedScheme::Ed25519 => seq![0x06u8, 0x03, 0x2b, 0x65, 0x70],
            SupportedScheme::EcdsaSecp256r1Sha256 => seq![0x06u8, 0x08, 0x2a, 0x86, 0x48, 0xce, 0x3d, 0x04, 0x03, 0x02],
            SupportedScheme::EcdsaSecp384r1Sha384 => seq![0x06u8, 0x08, 0x2a, 0x86, 0x48, 0xce, 0x3d, 0x04, 0x03, 0x03],
        }
    }

    /// The DER bytes of the public key algorithm identifier of the scheme:
    /// Ed25519, or an EC key on P-256 or on P-384.
    pub open spec fn public_key_alg_id_spec(self) -> Seq<u8> {
        match self {
            SupportedScheme::Ed25519 => seq![0x06u8, 0x03, 0x2b, 0x65, 0x70],
            SupportedScheme::EcdsaSecp256r1Sha256 => seq![0x06u8, 0x07, 0x2a, 0x86, 0x48, 0xce, 0x3d, 0x02, 0x01, 0x06, 0x08, 0x2a, 0x86, 0x48, 0xce, 0x3d, 0x03, 0x01, 0x07],
            SupportedScheme::EcdsaSecp384r1Sha384 => seq![0x06u8, 0x07, 0x2a, 0x86, 0x48, 0xce, 0x3d, 0x02, 0x01, 0x06, 0x05, 0x2b, 0x81, 0x04, 0x00, 0x22],
        }
    }

    /// The `webpki` signature algorithm for the scheme: `ED25519`,
    /// `ECDSA_P256_SHA256` or `ECDSA_P384_SHA384`.
    pub fn to_webpki(&self) -> (res: &'static webpki::SignatureAlgorithm)
        ensures
            webpki_signature_alg_id(*res) == self.signature_alg_id_spec(),
            webpki_public_key_alg_id(*res) == self.public_key_alg_id_spec(),
    {
        match self {
            SupportedScheme::Ed25519 => webpki_ed25519(),
            SupportedScheme::EcdsaSecp256r1Sha256 => webpki_ecdsa_p256_sha256(),
            SupportedScheme::EcdsaSecp384r1Sha384 => webpki_ecdsa_p384_sha384(),
        }
    }
}

} // verus!
