//! The `signature_algorithms_cert` extension.
use vstd::prelude::*;

use bytes::BytesMut;

use crate::error::TlsResult;
use crate::message::serialize::{
    Serialize, SpecResult, all_wf, decode_counted, encode_counted, lemma_counted_roundtrip,
    lemma_decode_n_suffix, spec_decode_counted, spec_encode_counted, spec_read_length, views,
};
use crate::message::handshake::extensions::sig_scheme::SignatureScheme;

verus! {

broadcast use crate::seqs::group_codec;

/// The signature schemes that a peer accepts in certificates.
#[derive(Debug, Clone, PartialEq, Eq)]
pub struct SignatureAlgorithmsCertPayload {
    pub schemes: Vec<SignatureScheme>,
}

pub struct SignatureAlgorithmsCertPayloadView {
    pub schemes: Seq<SignatureScheme>,
}

impl View for SignatureAlgorithmsCertPayload {
    type V = SignatureAlgorithmsCertPayloadView;

    open spec fn view(&self) -> SignatureAlgorithmsCertPayloadView {
        SignatureAlgorithmsCertPayloadView { schemes: views(self.schemes@) }
    }
}

impl Serialize for SignatureAlgorithmsCertPayload {
    open spec fn spec_encode(v: SignatureAlgorithmsCertPayloadView) -> Seq<u8> {
        spec_encode_counted::<SignatureScheme>(v.schemes, 2, 2)
    }

    open spec fn spec_decode(s: Seq<u8>) -> SpecResult<SignatureAlgorithmsCertPayloadView> {
        match spec_decode_counted::<SignatureScheme>(s, 2, 2) {
            Ok((schemes, rest)) => Ok((SignatureAlgorithmsCertPayloadView { schemes }, rest)),
            Err(e) => Err(e),
        }
    }

    open spec fn spec_wf(v: SignatureAlgorithmsCertPayloadView) -> bool {
        all_wf::<SignatureScheme>(v.schemes) && v.schemes.len() * 2 < 0x1_0000
    }

    open spec fn spec_self_delimiting() -> bool {
        true
    }

    open spec fn spec_consumes() -> bool {
        true
    }

    proof fn lemma_decode_suffix(s: Seq<u8>) {
        lemma_decode_n_suffix::<SignatureScheme>(s.skip(2), (spec_read_length(s, 2) / 2) as nat);
    }

    proof fn lemma_roundtrip(v: SignatureAlgorithmsCertPayloadView, rest: Seq<u8>) {
        lemma_counted_roundtrip::<SignatureScheme>(v.schemes, rest, 2, 2);
    }

    fn encode(&self, buf: &mut BytesMut) {
        encode_counted(&self.schemes, buf, 2, 2);
    }

    fn decode(buf: &mut BytesMut) -> (res: TlsResult<Self>) {
        let schemes = decode_counted::<SignatureScheme>(buf, 2, 2)?;
        Ok(Self { schemes })
    }
}
} // verus!
