//! The `supported_versions` extension of a client.
use vstd::prelude::*;

use bytes::BytesMut;

use crate::error::TlsResult;
use crate::message::serialize::{
    Serialize, SpecResult, all_wf, decode_counted, encode_counted, lemma_counted_roundtrip,
    lemma_decode_n_suffix, spec_decode_counted, spec_encode_counted, spec_read_length, views,
};
use crate::message::version::Version;

verus! {

broadcast use crate::seqs::group_codec;

/// The versions that a client offers.
#[derive(Debug, PartialEq, Eq)]
pub struct SupportedVersionsPayload {
    pub versions: Vec<Version>,
}

pub struct SupportedVersionsPayloadView {
    pub versions: Seq<Version>,
}

impl View for SupportedVersionsPayload {
    type V = SupportedVersionsPayloadView;

    open spec fn view(&self) -> SupportedVersionsPayloadView {
        SupportedVersionsPayloadView { versions: views(self.versions@) }
    }
}

impl Serialize for SupportedVersionsPayload {
    open spec fn spec_encode(v: SupportedVersionsPayloadView) -> Seq<u8> {
        spec_encode_counted::<Version>(v.versions, 1, 2)
    }

    open spec fn spec_decode(s: Seq<u8>) -> SpecResult<SupportedVersionsPayloadView> {
        match spec_decode_counted::<Version>(s, 1, 2) {
            Ok((versions, rest)) => Ok((SupportedVersionsPayloadView { versions }, rest)),
            Err(e) => Err(e),
        }
    }

    open spec fn spec_wf(v: SupportedVersionsPayloadView) -> bool {
        all_wf::<Version>(v.versions) && v.versions.len() * 2 < 0x100
    }

    open spec fn spec_self_delimiting() -> bool {
        true
    }

    open spec fn spec_consumes() -> bool {
        true
    }

    proof fn lemma_decode_suffix(s: Seq<u8>) {
        lemma_decode_n_suffix::<Version>(s.skip(1), (spec_read_length(s, 1) / 2) as nat);
    }

    proof fn lemma_roundtrip(v: SupportedVersionsPayloadView, rest: Seq<u8>) {
        lemma_counted_roundtrip::<Version>(v.versions, rest, 1, 2);
    }

    fn encode(&self, buf: &mut BytesMut) {
        encode_counted(&self.versions, buf, 1, 2);
    }

    fn decode(buf: &mut BytesMut) -> (res: TlsResult<Self>) {
        let versions = decode_counted::<Version>(buf, 1, 2)?;
        Ok(Self { versions })
    }
}
} // verus!
