//! The `CertificateVerify` handshake message: a signature over the
//! handshake so far, and the scheme that made it.
use vstd::prelude::*;

use bytes::{Bytes, BytesMut};

use crate::buffer::{
    b_as_slice, be16, bm_get_u16, bm_len, bm_put_slice, bm_put_u16, bytes_mut_view, bytes_view,
    read_be16,
};
use crate::error::{TlsError, TlsErrorView, TlsResult};
use crate::message::handshake::extensions::sig_scheme::SignatureScheme;
use crate::message::serialize::{Serialize, SpecResult, take_bytes};

verus! {

broadcast use crate::seqs::group_codec;

/// A signature and its scheme; the signature follows a 16-bit byte count.
#[derive(Debug, Clone, PartialEq, Eq)]
pub struct CertificateVerifyPayload {
    pub algorithm: SignatureScheme,
    pub signature: Bytes,  // length u16
}

pub struct CertificateVerifyPayloadView {
    pub algorithm: SignatureScheme,
    pub signature: Seq<u8>,
}

impl View for CertificateVerifyPayload {
    type V = CertificateVerifyPayloadView;

    open spec fn view(&self) -> CertificateVerifyPayloadView {
        CertificateVerifyPayloadView { algorithm: self.algorithm, signature: bytes_view(self.signature) }
    }
}

impl Serialize for CertificateVerifyPayload {
    open spec fn spec_encode(v: CertificateVerifyPayloadView) -> Seq<u8> {
        be16(v.algorithm.spec_code()) + be16(v.signature.len() as u16) + v.signature
    }

    open spec fn spec_decode(s: Seq<u8>) -> SpecResult<CertificateVerifyPayloadView> {
        if s.len() < 4 {
            Err(TlsErrorView::Incomplete((4 - s.len()) as usize))
        } else {
            let n = read_be16(s, 2) as int;
            let t = s.skip(4);
            if t.len() < n {
                Err(TlsErrorView::Incomplete((n - t.len()) as usize))
            } else {
                Ok((
                    CertificateVerifyPayloadView {
                        algorithm: SignatureScheme::spec_from_code(read_be16(s, 0)),
                        signature: t.take(n),
                    },
                    t.skip(n),
                ))
            }
        }
    }

    open spec fn spec_wf(v: CertificateVerifyPayloadView) -> bool {
        v.algorithm.spec_canonical() && v.signature.len() <= 0xFFFF
    }

    open spec fn spec_self_delimiting() -> bool {
        true
    }

    open spec fn spec_consumes() -> bool {
        true
    }

    proof fn lemma_decode_suffix(s: Seq<u8>) {
    }

    proof fn lemma_roundtrip(v: CertificateVerifyPayloadView, rest: Seq<u8>) {
        v.algorithm.lemma_code_roundtrip(0);
        let b = v.signature;
        let s = Self::spec_encode(v) + rest;
        assert(s.skip(4) =~= b + rest);
        assert((b + rest).take(b.len() as int) =~= b);
        assert((b + rest).skip(b.len() as int) =~= rest);
    }

    fn encode(&self, buf: &mut BytesMut) {
        bm_put_u16(buf, self.algorithm.code());
        let signature = b_as_slice(&self.signature);
        bm_put_u16(buf, signature.len() as u16);
        bm_put_slice(buf, signature);
        assert(bytes_mut_view(*buf) =~= bytes_mut_view(*old(buf)) + Self::spec_encode(self@));
    }

    fn decode(buf: &mut BytesMut) -> (res: TlsResult<Self>) {
        let remaining = bm_len(buf);
        if remaining < 4 {
            return Err(TlsError::Incomplete(4 - remaining));
        }
        let algorithm = SignatureScheme::try_from(bm_get_u16(buf))?;
        let length = bm_get_u16(buf) as usize;
        let signature = take_bytes(buf, length)?;
        Ok(Self { algorithm, signature })
    }
}

/// How a certificate verify message's first two bytes name its signature
/// scheme, for every input and every message: the scheme read is the one
/// that those bytes name in the registry (`05 03` ECDSA on P-384 with
/// SHA-384, `06 03` on P-521 with SHA-512, ...), and a message is written
/// with its scheme's number first.
pub proof fn lemma_verify_scheme_bytes(s: Seq<u8>, v: CertificateVerifyPayloadView)
    ensures
        CertificateVerifyPayload::spec_decode(s) matches Ok((r, _)) ==> {
            &&& (r.algorithm == SignatureScheme::RsaPssSha256 <==> s[0] == 0x08 && s[1] == 0x04)
            &&& (r.algorithm == SignatureScheme::RsaPssSha384 <==> s[0] == 0x08 && s[1] == 0x05)
            &&& (r.algorithm == SignatureScheme::RsaPssSha512 <==> s[0] == 0x08 && s[1] == 0x06)
            &&& (r.algorithm == SignatureScheme::EcdsaSecp256r1Sha256 <==> s[0] == 0x04 && s[1] == 0x03)
            &&& (r.algorithm == SignatureScheme::EcdsaSecp384r1Sha384 <==> s[0] == 0x05 && s[1] == 0x03)
            &&& (r.algorithm == SignatureScheme::EcdsaSecp521r1Sha512 <==> s[0] == 0x06 && s[1] == 0x03)
            &&& (r.algorithm == SignatureScheme::Ed25519 <==> s[0] == 0x08 && s[1] == 0x07)
            &&& (r.algorithm == SignatureScheme::Ed448 <==> s[0] == 0x08 && s[1] == 0x08)
        },
        v.algorithm == SignatureScheme::RsaPssSha256 ==> CertificateVerifyPayload::spec_encode(v)[0] == 0x08 && CertificateVerifyPayload::spec_encode(v)[1] == 0x04,
        v.algorithm == SignatureScheme::RsaPssSha384 ==> CertificateVerifyPayload::spec_encode(v)[0] == 0x08 && CertificateVerifyPayload::spec_encode(v)[1] == 0x05,
        v.algorithm == SignatureScheme::RsaPssSha512 ==> CertificateVerifyPayload::spec_encode(v)[0] == 0x08 && CertificateVerifyPayload::spec_encode(v)[1] == 0x06,
        v.algorithm == SignatureScheme::EcdsaSecp256r1Sha256 ==> CertificateVerifyPayload::spec_encode(v)[0] == 0x04 && CertificateVerifyPayload::spec_encode(v)[1] == 0x03,
        v.algorithm == SignatureScheme::EcdsaSecp384r1Sha384 ==> CertificateVerifyPayload::spec_encode(v)[0] == 0x05 && CertificateVerifyPayload::spec_encode(v)[1] == 0x03,
        v.algorithm == SignatureScheme::EcdsaSecp521r1Sha512 ==> CertificateVerifyPayload::spec_encode(v)[0] == 0x06 && CertificateVerifyPayload::spec_encode(v)[1] == 0x03,
        v.algorithm == SignatureScheme::Ed25519 ==> CertificateVerifyPayload::spec_encode(v)[0] == 0x08 && CertificateVerifyPayload::spec_encode(v)[1] == 0x07,
        v.algorithm == SignatureScheme::Ed448 ==> CertificateVerifyPayload::spec_encode(v)[0] == 0x08 && CertificateVerifyPayload::spec_encode(v)[1] == 0x08,
{
}

} // verus!
