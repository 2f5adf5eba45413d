//! The `certificate_authorities` extension: the distinguished names of the
//! authorities that a peer accepts.
use vstd::prelude::*;

use bytes::{Bytes, BytesMut};

use crate::buffer::{b_as_slice, bm_get_u16, bm_len, bm_put_slice, bm_put_u16, bytes_mut_view, bytes_view, read_be16};
use crate::error::{TlsError, TlsErrorView, TlsResult};
use crate::message::serialize::{
    Serialize, SpecResult, all_wf, decode_list16, encode_list16, lemma_list16_roundtrip,
    spec_decode_list16, spec_encode_list, spec_prefixed16, take_bytes, views,
};

verus! {

broadcast use crate::seqs::group_codec;

/// The authorities, each a distinguished name as opaque bytes after a
/// 16-bit byte count, all after a 16-bit byte count.
#[derive(Debug, Clone, PartialEq, Eq)]
pub struct CertificateAuthoritiesPayload {
    pub authorities: Vec<Bytes>,  // length u16
}

pub struct CertificateAuthoritiesPayloadView {
    pub authorities: Seq<Seq<u8>>,
}

/// The contents of a sequence of `Bytes`.
pub open spec fn bytes_views(s: Seq<Bytes>) -> Seq<Seq<u8>> {
    s.map_values(|b: Bytes| bytes_view(b))
}

impl View for CertificateAuthoritiesPayload {
    type V = CertificateAuthoritiesPayloadView;

    open spec fn view(&self) -> CertificateAuthoritiesPayloadView {
        CertificateAuthoritiesPayloadView { authorities: bytes_views(self.authorities@) }
    }
}

/// Opaque bytes after a 16-bit byte count: one item of a list of names.
pub struct Opaque16 {
    pub data: Bytes,
}

impl View for Opaque16 {
    type V = Seq<u8>;

    open spec fn view(&self) -> Seq<u8> {
        bytes_view(self.data)
    }
}

impl Serialize for Opaque16 {
    open spec fn spec_encode(v: Seq<u8>) -> Seq<u8> {
        spec_prefixed16(v)
    }

    open spec fn spec_decode(s: Seq<u8>) -> SpecResult<Seq<u8>> {
        if s.len() < 2 {
            Err(TlsErrorView::Incomplete((2 - s.len()) as usize))
        } else {
            let n = read_be16(s, 0) as int;
            let t = s.skip(2);
            if t.len() < n {
                Err(TlsErrorView::Incomplete((n - t.len()) as usize))
            } else {
                Ok((t.take(n), t.skip(n)))
            }
        }
    }

    open spec fn spec_wf(v: Seq<u8>) -> bool {
        v.len() <= 0xFFFF
    }

    open spec fn spec_self_delimiting() -> bool {
        true
    }

    open spec fn spec_consumes() -> bool {
        true
    }

    proof fn lemma_decode_suffix(s: Seq<u8>) {
    }

    proof fn lemma_roundtrip(v: Seq<u8>, rest: Seq<u8>) {
        let s = Self::spec_encode(v) + rest;
        assert(s.skip(2) =~= v + rest);
        assert((v + rest).take(v.len() as int) =~= v);
        assert((v + rest).skip(v.len() as int) =~= rest);
    }

    fn encode(&self, buf: &mut BytesMut) {
        let data = b_as_slice(&self.data);
        bm_put_u16(buf, data.len() as u16);
        bm_put_slice(buf, data);
        assert(bytes_mut_view(*buf) =~= bytes_mut_view(*old(buf)) + Self::spec_encode(self@));
    }

    fn decode(buf: &mut BytesMut) -> (res: TlsResult<Self>) {
        let remaining = bm_len(buf);
        if remaining < 2 {
            return Err(TlsError::Incomplete(2 - remaining));
        }
        let len = bm_get_u16(buf) as usize;
        let data = take_bytes(buf, len)?;
        Ok(Self { data })
    }
}

impl Serialize for CertificateAuthoritiesPayload {
    open spec fn spec_encode(v: CertificateAuthoritiesPayloadView) -> Seq<u8> {
        spec_prefixed16(spec_encode_list::<Opaque16>(v.authorities))
    }

    open spec fn spec_decode(s: Seq<u8>) -> SpecResult<CertificateAuthoritiesPayloadView> {
        match spec_decode_list16::<Opaque16>(s) {
            Ok((authorities, rest)) => Ok((CertificateAuthoritiesPayloadView { authorities }, rest)),
            Err(e) => Err(e),
        }
    }

    open spec fn spec_wf(v: CertificateAuthoritiesPayloadView) -> bool {
        &&& all_wf::<Opaque16>(v.authorities)
        &&& spec_encode_list::<Opaque16>(v.authorities).len() <= 0xFFFF
    }

    open spec fn spec_self_delimiting() -> bool {
        true
    }

    open spec fn spec_consumes() -> bool {
        true
    }

    proof fn lemma_decode_suffix(s: Seq<u8>) {
    }

    proof fn lemma_roundtrip(v: CertificateAuthoritiesPayloadView, rest: Seq<u8>) {
        lemma_list16_roundtrip::<Opaque16>(v.authorities, rest);
    }

    fn encode(&self, buf: &mut BytesMut) {
        let mut items: Vec<Opaque16> = Vec::new();
        let mut i: usize = 0;
        while i < self.authorities.len()
            invariant
                0 <= i <= self.authorities@.len(),
                items@.len() == i,
                forall|j: int| 0 <= j < i ==> #[trigger] items@[j]@ == bytes_view(self.authorities@[j]),
            decreases self.authorities@.len() - i,
        {
            items.push(Opaque16 { data: self.authorities[i].clone() });
            i = i + 1;
        }
        assert(views(items@) =~= bytes_views(self.authorities@));
        encode_list16(&items, buf);
    }

    fn decode(buf: &mut BytesMut) -> (res: TlsResult<Self>) {
        let items = decode_list16::<Opaque16>(buf)?;
        let mut authorities: Vec<Bytes> = Vec::new();
        let mut i: usize = 0;
        while i < items.len()
            invariant
                0 <= i <= items@.len(),
                authorities@.len() == i,
                forall|j: int| 0 <= j < i ==> #[trigger] bytes_view(authorities@[j]) == items@[j]@,
            decreases items@.len() - i,
        {
            authorities.push(items[i].data.clone());
            i = i + 1;
        }
        assert(views(items@) =~= bytes_views(authorities@));
        Ok(CertificateAuthoritiesPayload { authorities })
    }
}

} // verus!
