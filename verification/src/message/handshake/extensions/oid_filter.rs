//! The `oid_filters` extension of a certificate request.
use vstd::prelude::*;

use bytes::{Bytes, BytesMut};

use crate::buffer::{
    b_as_slice, be16, bm_freeze, bm_get_u16, bm_len, bm_put_slice, bm_put_u16, bm_split_to,
    bytes_mut_view, bytes_view, read_be16,
};
use crate::error::{TlsError, TlsErrorView, TlsResult};
use crate::message::serialize::{
    Serialize, SpecResult, all_wf, decode_list16, encode_list16, lemma_list16_roundtrip,
    spec_decode_list16, spec_encode_list, spec_prefixed16, take_bytes, views,
};

verus! {

broadcast use crate::seqs::group_codec;

/// The certificate extension filters that a server sets.
#[derive(Debug, Clone, PartialEq, Eq)]
pub struct OidFiltersPayload {
    pub filters: Vec<OidFilter>,  // length u16
}

pub struct OidFiltersPayloadView {
    pub filters: Seq<OidFilterView>,
}

impl View for OidFiltersPayload {
    type V = OidFiltersPayloadView;

    open spec fn view(&self) -> OidFiltersPayloadView {
        OidFiltersPayloadView { filters: views(self.filters@) }
    }
}

impl Serialize for OidFiltersPayload {
    open spec fn spec_encode(v: OidFiltersPayloadView) -> Seq<u8> {
        spec_prefixed16(spec_encode_list::<OidFilter>(v.filters))
    }

    open spec fn spec_decode(s: Seq<u8>) -> SpecResult<OidFiltersPayloadView> {
        match spec_decode_list16::<OidFilter>(s) {
            Ok((filters, rest)) => Ok((OidFiltersPayloadView { filters }, rest)),
            Err(e) => Err(e),
        }
    }

    open spec fn spec_wf(v: OidFiltersPayloadView) -> bool {
        &&& all_wf::<OidFilter>(v.filters)
        &&& spec_encode_list::<OidFilter>(v.filters).len() <= 0xFFFF
    }

    open spec fn spec_self_delimiting() -> bool {
        true
    }

    open spec fn spec_consumes() -> bool {
        true
    }

    proof fn lemma_decode_suffix(s: Seq<u8>) {
    }

    proof fn lemma_roundtrip(v: OidFiltersPayloadView, rest: Seq<u8>) {
        lemma_list16_roundtrip::<OidFilter>(v.filters, rest);
    }

    fn encode(&self, buf: &mut BytesMut) {
        encode_list16(&self.filters, buf);
    }

    fn decode(buf: &mut BytesMut) -> (res: TlsResult<Self>) {
        let filters = decode_list16::<OidFilter>(buf)?;
        Ok(Self { filters })
    }
}

/// One filter: an object identifier and the values it must have, both as
/// opaque bytes after a 16-bit byte count.
#[derive(Debug, Clone, PartialEq, Eq)]
pub struct OidFilter {
    pub oid: Bytes,  // length u16
    pub value: Bytes,  // length u16
}

pub struct OidFilterView {
    pub oid: Seq<u8>,
    pub value: Seq<u8>,
}

impl View for OidFilter {
    type V = OidFilterView;

    open spec fn view(&self) -> OidFilterView {
        OidFilterView { oid: bytes_view(self.oid), value: bytes_view(self.value) }
    }
}

impl Serialize for OidFilter {
    open spec fn spec_encode(v: OidFilterView) -> Seq<u8> {
        spec_prefixed16(v.oid) + spec_prefixed16(v.value)
    }

    open spec fn spec_decode(s: Seq<u8>) -> SpecResult<OidFilterView> {
        if s.len() < 2 {
            Err(TlsErrorView::Incomplete((2 - s.len()) as usize))
        } else {
            let n = read_be16(s, 0) as int;
            let t = s.skip(2);
            if t.len() < n + 2 {
                Err(TlsErrorView::Incomplete((n + 2 - t.len()) as usize))
            } else {
                let m = read_be16(t, n) as int;
                let u = t.skip(n + 2);
                if u.len() < m {
                    Err(TlsErrorView::Incomplete((m - u.len()) as usize))
                } else {
                    Ok((OidFilterView { oid: t.take(n), value: u.take(m) }, u.skip(m)))
                }
            }
        }
    }

    open spec fn spec_wf(v: OidFilterView) -> bool {
        v.oid.len() <= 0xFFFF && v.value.len() <= 0xFFFF
    }

    open spec fn spec_self_delimiting() -> bool {
        true
    }

    open spec fn spec_consumes() -> bool {
        true
    }

    proof fn lemma_decode_suffix(s: Seq<u8>) {
    }

    proof fn lemma_roundtrip(v: OidFilterView, rest: Seq<u8>) {
        let a = v.oid;
        let b = v.value;
        let s = Self::spec_encode(v) + rest;
        let t = s.skip(2);
        assert(t =~= a + be16(b.len() as u16) + b + rest);
        assert(t.take(a.len() as int) =~= a);
        assert(t.skip(a.len() as int + 2) =~= b + rest);
        assert((b + rest).take(b.len() as int) =~= b);
        assert((b + rest).skip(b.len() as int) =~= rest);
    }

    fn encode(&self, buf: &mut BytesMut) {
        let oid = b_as_slice(&self.oid);
        bm_put_u16(buf, oid.len() as u16);
        bm_put_slice(buf, oid);
        let value = b_as_slice(&self.value);
        bm_put_u16(buf, value.len() as u16);
        bm_put_slice(buf, value);
        assert(bytes_mut_view(*buf) =~= bytes_mut_view(*old(buf)) + Self::spec_encode(self@));
    }

    fn decode(buf: &mut BytesMut) -> (res: TlsResult<Self>) {
        let remaining = bm_len(buf);
        if remaining < 2 {
            return Err(TlsError::Incomplete(2 - remaining));
        }
        let oid_length = bm_get_u16(buf) as usize;
        let ghost t = bytes_mut_view(*buf);
        let remaining = bm_len(buf);
        if remaining < oid_length + 2 {
            return Err(TlsError::Incomplete(oid_length + 2 - remaining));
        }
        let oid = bm_freeze(bm_split_to(buf, oid_length));
        assert(read_be16(bytes_mut_view(*buf), 0) == read_be16(t, oid_length as int));
        let value_length = bm_get_u16(buf) as usize;
        let value = take_bytes(buf, value_length)?;
        Ok(Self { oid, value })
    }
}

} // verus!
