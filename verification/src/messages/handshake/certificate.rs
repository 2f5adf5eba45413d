//! A certificate entry whose extensions are hello extensions.
use vstd::prelude::*;

use bytes::BytesMut;

use crate::buffer::{
    be24, bm_as_slice, bm_len, bm_put_slice, bm_split_to, bytes_mut_view, get_u24, lemma_be24_roundtrip,
    put_u24, read_be24,
};
use crate::error::{TlsError, TlsErrorView, TlsResult};
use crate::message::handshake::extensions::extension::{Extension, ExtensionView};
use crate::message::serialize::{
    Serialize, SpecResult, all_wf, decode_list16, encode_list16, lemma_list16_roundtrip,
    spec_decode_list16, spec_encode_list, spec_prefixed16, views,
};

verus! {

broadcast use crate::seqs::group_codec;

/// One certificate, after a 24-bit byte count, and its extensions, after a
/// 16-bit byte count.
pub struct CertificateEntry {
    pub certificate_data: BytesMut,  // length = 3 bytes
    pub extensions: Vec<Extension>,  // length = u16
}

pub struct CertificateEntryView {
    pub certificate_data: Seq<u8>,
    pub extensions: Seq<ExtensionView>,
}

impl View for CertificateEntry {
    type V = CertificateEntryView;

    open spec fn view(&self) -> CertificateEntryView {
        CertificateEntryView { certificate_data: bytes_mut_view(self.certificate_data), extensions: views(self.extensions@) }
    }
}

impl Serialize for CertificateEntry {
    open spec fn spec_encode(v: CertificateEntryView) -> Seq<u8> {
        be24(v.certificate_data.len()) + v.certificate_data + spec_prefixed16(spec_encode_list::<Extension>(v.extensions))
    }

    open spec fn spec_decode(s: Seq<u8>) -> SpecResult<CertificateEntryView> {
        if s.len() < 3 {
            Err(TlsErrorView::Incomplete((3 - s.len()) as usize))
        } else {
            let n = read_be24(s, 0) as int;
            let t = s.skip(3);
            if t.len() < n {
                Err(TlsErrorView::Incomplete((n - t.len()) as usize))
            } else {
                match spec_decode_list16::<Extension>(t.skip(n)) {
                    Ok((extensions, rest)) => Ok((CertificateEntryView { certificate_data: t.take(n), extensions }, rest)),
                    Err(e) => Err(e),
                }
            }
        }
    }

    open spec fn spec_wf(v: CertificateEntryView) -> bool {
        &&& v.certificate_data.len() < 0x100_0000
        &&& all_wf::<Extension>(v.extensions)
        &&& spec_encode_list::<Extension>(v.extensions).len() <= 0xFFFF
    }

    open spec fn spec_self_delimiting() -> bool {
        true
    }

    open spec fn spec_consumes() -> bool {
        true
    }

    proof fn lemma_decode_suffix(s: Seq<u8>) {
    }

    proof fn lemma_roundtrip(v: CertificateEntryView, rest: Seq<u8>) {
        let c = v.certificate_data;
        let exts = spec_prefixed16(spec_encode_list::<Extension>(v.extensions));
        lemma_be24_roundtrip(c.len());
        lemma_list16_roundtrip::<Extension>(v.extensions, rest);
        let s = Self::spec_encode(v) + rest;
        assert(s =~= be24(c.len()) + (c + (exts + rest)));
        assert(read_be24(s, 0) == read_be24(be24(c.len()), 0));
        let t = s.skip(3);
        assert(t =~= c + (exts + rest));
        assert(t.take(c.len() as int) =~= c);
        assert(t.skip(c.len() as int) =~= exts + rest);
    }

    fn encode(&self, buf: &mut BytesMut) {
        let data = bm_as_slice(&self.certificate_data);
        put_u24(buf, data.len());
        bm_put_slice(buf, data);
        encode_list16(&self.extensions, buf);
        assert(bytes_mut_view(*buf) =~= bytes_mut_view(*old(buf)) + Self::spec_encode(self@));
    }

    fn decode(buf: &mut BytesMut) -> (res: TlsResult<Self>) {
        let remaining = bm_len(buf);
        if remaining < 3 {
            return Err(TlsError::Incomplete(3 - remaining));
        }
        let cert_len = get_u24(buf);
        let remaining = bm_len(buf);
        if remaining < cert_len {
            return Err(TlsError::Incomplete(cert_len - remaining));
        }
        let certificate_data = bm_split_to(buf, cert_len);
        let extensions = decode_list16::<Extension>(buf)?;
        Ok(CertificateEntry { certificate_data, extensions })
    }
}

} // verus!
