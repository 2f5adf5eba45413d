//! The `renegotiation_info` extension.
use vstd::prelude::*;

use bytes::{Bytes, BytesMut};

use crate::buffer::{
    b_as_slice, b_new, bm_get_u8, bm_len, bm_put_slice, bm_put_u8, bytes_mut_view, bytes_view,
};
use crate::error::{TlsErrorView, TlsResult};
use crate::message::serialize::{Serialize, SpecResult, take_bytes};

verus! {

broadcast use crate::seqs::group_codec;

/// The verify data of the connection being renegotiated, after an 8-bit
/// byte count; an extension without data stands for none.
#[derive(Debug, Clone, PartialEq, Eq)]
pub struct RenegotiationInfoPayload {
    pub renegotiated_connection: Bytes,
}

pub struct RenegotiationInfoPayloadView {
    pub renegotiated_connection: Seq<u8>,
}

impl View for RenegotiationInfoPayload {
    type V = RenegotiationInfoPayloadView;

    open spec fn view(&self) -> RenegotiationInfoPayloadView {
        RenegotiationInfoPayloadView { renegotiated_connection: bytes_view(self.renegotiated_connection) }
    }
}

impl Serialize for RenegotiationInfoPayload {
    open spec fn spec_encode(v: RenegotiationInfoPayloadView) -> Seq<u8> {
        seq![v.renegotiated_connection.len() as u8] + v.renegotiated_connection
    }

    open spec fn spec_decode(s: Seq<u8>) -> SpecResult<RenegotiationInfoPayloadView> {
        if s.len() == 0 {
            Ok((RenegotiationInfoPayloadView { renegotiated_connection: Seq::empty() }, s))
        } else {
            let n = s[0] as int;
            let t = s.skip(1);
            if t.len() < n {
                Err(TlsErrorView::Incomplete((n - t.len()) as usize))
            } else {
                Ok((RenegotiationInfoPayloadView { renegotiated_connection: t.take(n) }, t.skip(n)))
            }
        }
    }

    open spec fn spec_wf(v: RenegotiationInfoPayloadView) -> bool {
        v.renegotiated_connection.len() <= 0xFF
    }

    open spec fn spec_self_delimiting() -> bool {
        true
    }

    open spec fn spec_consumes() -> bool {
        false
    }

    proof fn lemma_decode_suffix(s: Seq<u8>) {
    }

    proof fn lemma_roundtrip(v: RenegotiationInfoPayloadView, rest: Seq<u8>) {
        let b = v.renegotiated_connection;
        let s = Self::spec_encode(v) + rest;
        assert(s.skip(1) =~= b + rest);
        assert((b + rest).take(b.len() as int) =~= b);
        assert((b + rest).skip(b.len() as int) =~= rest);
    }

    fn encode(&self, buf: &mut BytesMut) {
        let data = b_as_slice(&self.renegotiated_connection);
        bm_put_u8(buf, data.len() as u8);
        bm_put_slice(buf, data);
        assert(bytes_mut_view(*buf) =~= bytes_mut_view(*old(buf)) + Self::spec_encode(self@));
    }

    fn decode(buf: &mut BytesMut) -> (res: TlsResult<Self>) {
        if bm_len(buf) == 0 {
            return Ok(Self { renegotiated_connection: b_new() });
        }
        let len = bm_get_u8(buf) as usize;
        let renegotiated_connection = take_bytes(buf, len)?;
        Ok(RenegotiationInfoPayload { renegotiated_connection })
    }
}

} // verus!
