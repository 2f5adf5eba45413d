//! The `encrypted_client_hello` extension, kept as opaque bytes.
use vstd::prelude::*;

use bytes::{Bytes, BytesMut};

use crate::buffer::{b_as_slice, bm_freeze, bm_len, bm_put_slice, bm_split_to, bytes_mut_view, bytes_view};
use crate::error::TlsResult;
use crate::message::serialize::{Serialize, SpecResult};

verus! {

broadcast use crate::seqs::group_codec;

/// The body of an encrypted client hello: all the bytes of the extension.
#[derive(Debug, PartialEq, Eq)]
pub struct EncryptedClientHelloPayload {
    pub data: Bytes,
}

pub struct EncryptedClientHelloPayloadView {
    pub data: Seq<u8>,
}

impl View for EncryptedClientHelloPayload {
    type V = EncryptedClientHelloPayloadView;

    open spec fn view(&self) -> EncryptedClientHelloPayloadView {
        EncryptedClientHelloPayloadView { data: bytes_view(self.data) }
    }
}

impl Serialize for EncryptedClientHelloPayload {
    open spec fn spec_encode(v: EncryptedClientHelloPayloadView) -> Seq<u8> {
        v.data
    }

    open spec fn spec_decode(s: Seq<u8>) -> SpecResult<EncryptedClientHelloPayloadView> {
        Ok((EncryptedClientHelloPayloadView { data: s }, Seq::empty()))
    }

    open spec fn spec_wf(v: EncryptedClientHelloPayloadView) -> bool {
        true
    }

    open spec fn spec_self_delimiting() -> bool {
        false
    }

    open spec fn spec_consumes() -> bool {
        false
    }

    proof fn lemma_decode_suffix(s: Seq<u8>) {
        assert(Seq::<u8>::empty() =~= s.skip(s.len() as int));
    }

    proof fn lemma_roundtrip(v: EncryptedClientHelloPayloadView, rest: Seq<u8>) {
        assert(rest =~= Seq::<u8>::empty());
        assert(v.data + rest =~= v.data);
    }

    fn encode(&self, buf: &mut BytesMut) {
        bm_put_slice(buf, b_as_slice(&self.data));
    }

    fn decode(buf: &mut BytesMut) -> (res: TlsResult<Self>) {
        let all = bm_len(buf);
        let data = bm_freeze(bm_split_to(buf, all));
        proof {
            assert(bytes_mut_view(*buf) =~= Seq::<u8>::empty());
        }
        Ok(Self { data })
    }
}

} // verus!
