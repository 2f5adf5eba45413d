//! The payload of a GREASE extension: bytes that carry no meaning.
use vstd::prelude::*;

use bytes::BytesMut;

use crate::buffer::{bm_as_slice, bm_len, bm_put_slice, bm_split_to, bytes_mut_view};
use crate::error::TlsResult;
use crate::message::serialize::{Serialize, SpecResult};

verus! {

broadcast use crate::seqs::group_codec;

/// The payload of a GREASE extension: all the bytes of the extension.
pub struct GreasePayload {
    pub data: BytesMut,
}

impl View for GreasePayload {
    type V = Seq<u8>;

    open spec fn view(&self) -> Seq<u8> {
        bytes_mut_view(self.data)
    }
}

impl Serialize for GreasePayload {
    open spec fn spec_encode(v: Seq<u8>) -> Seq<u8> {
        v
    }

    open spec fn spec_decode(s: Seq<u8>) -> SpecResult<Seq<u8>> {
        Ok((s, Seq::empty()))
    }

    open spec fn spec_wf(v: Seq<u8>) -> bool {
        true
    }

    open spec fn spec_self_delimiting() -> bool {
        false
    }

    open spec fn spec_consumes() -> bool {
        false
    }

    proof fn lemma_decode_suffix(s: Seq<u8>) {
        assert(Seq::<u8>::empty() =~= s.skip(s.len() as int));
    }

    proof fn lemma_roundtrip(v: Seq<u8>, rest: Seq<u8>) {
        assert(rest =~= Seq::<u8>::empty());
        assert(v + rest =~= v);
    }

    fn encode(&self, buf: &mut BytesMut) {
        bm_put_slice(buf, bm_as_slice(&self.data));
    }

    fn decode(buf: &mut BytesMut) -> (res: TlsResult<Self>) {
        let all = bm_len(buf);
        let data = bm_split_to(buf, all);
        proof {
            assert(bytes_mut_view(*buf) =~= Seq::<u8>::empty());
        }
        Ok(Self { data })
    }
}

} // verus!
