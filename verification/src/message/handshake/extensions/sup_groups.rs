//! The `supported_groups` extension.
use vstd::prelude::*;

use bytes::BytesMut;

use crate::error::TlsResult;
use crate::message::serialize::{
    Serialize, SpecResult, all_wf, decode_counted, encode_counted, lemma_counted_roundtrip,
    lemma_decode_n_suffix, spec_decode_counted, spec_encode_counted, spec_read_length, views,
};
use crate::message::handshake::extensions::key_share::NamedGroup;

verus! {

broadcast use crate::seqs::group_codec;

/// The groups that a peer supports.
#[derive(Debug, PartialEq, Eq)]
pub struct SupportedGroupsPayload {
    pub groups: Vec<NamedGroup>,
}

pub struct SupportedGroupsPayloadView {
    pub groups: Seq<NamedGroup>,
}

impl View for SupportedGroupsPayload {
    type V = SupportedGroupsPayloadView;

    open spec fn view(&self) -> SupportedGroupsPayloadView {
        SupportedGroupsPayloadView { groups: views(self.groups@) }
    }
}

impl Serialize for SupportedGroupsPayload {
    open spec fn spec_encode(v: SupportedGroupsPayloadView) -> Seq<u8> {
        spec_encode_counted::<NamedGroup>(v.groups, 2, 2)
    }

    open spec fn spec_decode(s: Seq<u8>) -> SpecResult<SupportedGroupsPayloadView> {
        match spec_decode_counted::<NamedGroup>(s, 2, 2) {
            Ok((groups, rest)) => Ok((SupportedGroupsPayloadView { groups }, rest)),
            Err(e) => Err(e),
        }
    }

    open spec fn spec_wf(v: SupportedGroupsPayloadView) -> bool {
        all_wf::<NamedGroup>(v.groups) && v.groups.len() * 2 < 0x1_0000
    }

    open spec fn spec_self_delimiting() -> bool {
        true
    }

    open spec fn spec_consumes() -> bool {
        true
    }

    proof fn lemma_decode_suffix(s: Seq<u8>) {
        lemma_decode_n_suffix::<NamedGroup>(s.skip(2), (spec_read_length(s, 2) / 2) as nat);
    }

    proof fn lemma_roundtrip(v: SupportedGroupsPayloadView, rest: Seq<u8>) {
        lemma_counted_roundtrip::<NamedGroup>(v.groups, rest, 2, 2);
    }

    fn encode(&self, buf: &mut BytesMut) {
        encode_counted(&self.groups, buf, 2, 2);
    }

    fn decode(buf: &mut BytesMut) -> (res: TlsResult<Self>) {
        let groups = decode_counted::<NamedGroup>(buf, 2, 2)?;
        Ok(Self { groups })
    }
}
} // verus!
