//! The `Certificate` handshake message: a request context, then certificate
//! entries, each with its own extensions.
use vstd::prelude::*;

use bytes::{Bytes, BytesMut};

use crate::buffer::{b_as_slice, be16, be24, bm_as_slice, bm_get_u16, bm_get_u8, bm_len, bm_new, bm_put_slice, bm_put_u16, bm_put_u8, bm_split_to, bytes_mut_view, bytes_view, get_u24, put_u24, read_be16, read_be24, lemma_be24_roundtrip};
use crate::error::{TlsError, TlsErrorView, TlsResult};
pub use crate::message::handshake::extensions::sct::{
    CertificateEntryExtensionPayload, CertificateEntryExtensionPayloadView,
    CertificateEntryExtensionType, cert_ext_type, cert_ext_wf, lemma_cert_ext_roundtrip,
    lemma_cert_ext_suffix, spec_decode_cert_ext, spec_encode_cert_ext,
};
use crate::message::serialize::{Serialize, SpecResult, all_wf, decode_list, encode_list, lemma_list_roundtrip, lemma_views_push, prepend, spec_decode_list, spec_encode_list, take_bytes, views};
use crate::seqs::is_suffix;

verus! {

broadcast use crate::seqs::group_codec;

/// A certificate message: the context of the request it answers, after an
/// 8-bit byte count, and the entries, after a 24-bit byte count.
#[derive(Debug, PartialEq, Eq)]
pub struct CertificatePayload {
    pub certificate_request_context: Bytes,  // length u8
    pub certificate_list: Vec<CertificateEntryPayload>,  // length 3 bytes
}

pub struct CertificatePayloadView {
    pub certificate_request_context: Seq<u8>,
    pub certificate_list: Seq<CertificateEntryPayloadView>,
}

impl View for CertificatePayload {
    type V = CertificatePayloadView;

    open spec fn view(&self) -> CertificatePayloadView {
        CertificatePayloadView {
            certificate_request_context: bytes_view(self.certificate_request_context),
            certificate_list: views(self.certificate_list@),
        }
    }
}

impl Serialize for CertificatePayload {
    open spec fn spec_encode(v: CertificatePayloadView) -> Seq<u8> {
        seq![v.certificate_request_context.len() as u8] + v.certificate_request_context + be24(
            spec_encode_list::<CertificateEntryPayload>(v.certificate_list).len(),
        ) + spec_encode_list::<CertificateEntryPayload>(v.certificate_list)
    }

    open spec fn spec_decode(s: Seq<u8>) -> SpecResult<CertificatePayloadView> {
        if s.len() < 1 {
            Err(TlsErrorView::Incomplete((1 - s.len()) as usize))
        } else {
            let n = s[0] as int;
            let t = s.skip(1);
            if t.len() < n {
                Err(TlsErrorView::Incomplete((n - t.len()) as usize))
            } else {
                let u = t.skip(n);
                if u.len() < 3 {
                    Err(TlsErrorView::Incomplete((3 - u.len()) as usize))
                } else {
                    let m = read_be24(u, 0) as int;
                    let w = u.skip(3);
                    if w.len() < m {
                        Err(TlsErrorView::Incomplete((m - w.len()) as usize))
                    } else {
                        match spec_decode_list::<CertificateEntryPayload>(w.take(m)) {
                            Ok(certificate_list) => Ok((
                                CertificatePayloadView { certificate_request_context: t.take(n), certificate_list },
                                w.skip(m),
                            )),
                            Err(e) => Err(e),
                        }
                    }
                }
            }
        }
    }

    open spec fn spec_wf(v: CertificatePayloadView) -> bool {
        &&& v.certificate_request_context.len() <= 0xFF
        &&& all_wf::<CertificateEntryPayload>(v.certificate_list)
        &&& spec_encode_list::<CertificateEntryPayload>(v.certificate_list).len() < 0x100_0000
    }

    open spec fn spec_self_delimiting() -> bool {
        true
    }

    open spec fn spec_consumes() -> bool {
        true
    }

    proof fn lemma_decode_suffix(s: Seq<u8>) {
    }

    #[verifier::spinoff_prover]
    #[verifier::rlimit(60)]
    proof fn lemma_roundtrip(v: CertificatePayloadView, rest: Seq<u8>) {
        let c = v.certificate_request_context;
        let body = spec_encode_list::<CertificateEntryPayload>(v.certificate_list);
        let s = Self::spec_encode(v) + rest;
        lemma_be24_roundtrip(body.len());
        let t = s.skip(1);
        assert(t =~= c + (be24(body.len()) + (body + rest)));
        assert(t.take(c.len() as int) =~= c);
        let u = t.skip(c.len() as int);
        assert(u =~= be24(body.len()) + (body + rest));
        assert(read_be24(u, 0) == read_be24(be24(body.len()), 0));
        let w = u.skip(3);
        assert(w =~= body + rest);
        assert(w.take(body.len() as int) =~= body);
        assert(w.skip(body.len() as int) =~= rest);
        assert(s[0] == c.len() as u8);
        assert(s[0] as int == c.len());
        lemma_list_roundtrip::<CertificateEntryPayload>(v.certificate_list);
    }

    fn encode(&self, buf: &mut BytesMut) {
        let context = b_as_slice(&self.certificate_request_context);
        bm_put_u8(buf, context.len() as u8);
        bm_put_slice(buf, context);
        let mut inner = bm_new();
        encode_list(&self.certificate_list, &mut inner);
        put_u24(buf, bm_len(&inner));
        bm_put_slice(buf, bm_as_slice(&inner));
        assert(bytes_mut_view(*buf) =~= bytes_mut_view(*old(buf)) + Self::spec_encode(self@));
    }

    fn decode(buf: &mut BytesMut) -> (res: TlsResult<Self>) {
        let remaining = bm_len(buf);
        if remaining < 1 {
            return Err(TlsError::Incomplete(1 - remaining));
        }
        let context_length = bm_get_u8(buf) as usize;
        let certificate_request_context = take_bytes(buf, context_length)?;
        let remaining = bm_len(buf);
        if remaining < 3 {
            return Err(TlsError::Incomplete(3 - remaining));
        }
        let list_length = get_u24(buf);
        let remaining = bm_len(buf);
        if remaining < list_length {
            return Err(TlsError::Incomplete(list_length - remaining));
        }
        let mut list_buf = bm_split_to(buf, list_length);
        let certificate_list = decode_list::<CertificateEntryPayload>(&mut list_buf)?;
        Ok(Self { certificate_request_context, certificate_list })
    }
}

/// One certificate, after a 24-bit byte count, and its extensions, after a
/// 16-bit byte count; each extension is its type and then its payload.
#[derive(Debug, PartialEq, Eq)]
pub struct CertificateEntryPayload {
    pub certificate_data: Bytes,  // length = 3 bytes
    pub extensions: Vec<CertificateEntryExtension>,  // length = u16
}

pub struct CertificateEntryPayloadView {
    pub certificate_data: Seq<u8>,
    pub extensions: Seq<CertificateEntryExtensionView>,
}

impl View for CertificateEntryPayload {
    type V = CertificateEntryPayloadView;

    open spec fn view(&self) -> CertificateEntryPayloadView {
        CertificateEntryPayloadView {
            certificate_data: bytes_view(self.certificate_data),
            extensions: views(self.extensions@),
        }
    }
}

/// What reading one extension of an entry finds: its type, then its payload.
pub open spec fn spec_decode_entry_ext(s: Seq<u8>) -> SpecResult<CertificateEntryExtensionView> {
    if s.len() < 2 {
        Err(TlsErrorView::Incomplete((2 - s.len()) as usize))
    } else {
        match CertificateEntryExtensionType::spec_from_code(read_be16(s, 0)) {
            Err(e) => Err(e@),
            Ok(extension_type) => match spec_decode_cert_ext(extension_type, s.skip(2)) {
                Ok((payload, rest)) => Ok((CertificateEntryExtensionView { extension_type, payload }, rest)),
                Err(e) => Err(e),
            },
        }
    }
}

/// Reading the extensions of an entry until the bytes run out.
pub open spec fn spec_decode_entry_exts(s: Seq<u8>) -> Result<Seq<CertificateEntryExtensionView>, TlsErrorView>
    decreases s.len(),
{
    if s.len() == 0 {
        Ok(Seq::empty())
    } else {
        match spec_decode_entry_ext(s) {
            Err(e) => Err(e),
            Ok((v, rest)) => if rest.len() < s.len() {
                prepend(seq![v], spec_decode_entry_exts(rest))
            } else {
                Ok(seq![v])
            },
        }
    }
}

/// An extension of an entry that is read back as written there: its payload
/// is read back, by its type.
pub open spec fn entry_ext_wf(v: CertificateEntryExtensionView) -> bool {
    cert_ext_wf(v.payload) && cert_ext_type(v.payload) == v.extension_type
}

/// Reading one extension of an entry reads a prefix of the input, and at
/// least one byte.
pub proof fn lemma_entry_ext_suffix(s: Seq<u8>)
    ensures
        spec_decode_entry_ext(s) matches Ok((v, rest)) ==> is_suffix(rest, s) && rest.len() < s.len(),
{
    if s.len() >= 2 {
        if let Ok(ty) = CertificateEntryExtensionType::spec_from_code(read_be16(s, 0)) {
            lemma_cert_ext_suffix(ty, s.skip(2));
        }
    }
}

/// Reading the encodings of extensions that are read back as written gives them back.
pub proof fn lemma_entry_exts_roundtrip(vs: Seq<CertificateEntryExtensionView>)
    requires
        forall|i: int| 0 <= i < vs.len() ==> entry_ext_wf(#[trigger] vs[i]),
    ensures
        spec_decode_entry_exts(spec_encode_list::<CertificateEntryExtension>(vs)) == Ok::<_, TlsErrorView>(vs),
    decreases vs.len(),
{
    if vs.len() == 0 {
        assert(vs =~= Seq::<CertificateEntryExtensionView>::empty());
    } else {
        let v = vs[0];
        let tail = spec_encode_list::<CertificateEntryExtension>(vs.drop_first());
        let s = spec_encode_list::<CertificateEntryExtension>(vs);
        assert(entry_ext_wf(v));
        v.extension_type.lemma_code_roundtrip(0);
        lemma_cert_ext_roundtrip(v.payload, tail);
        assert(s.skip(2) =~= spec_encode_cert_ext(v.payload) + tail);
        lemma_entry_ext_suffix(s);
        assert(spec_decode_entry_ext(s) == Ok::<_, TlsErrorView>((v, tail)));
        assert forall|i: int| 0 <= i < vs.drop_first().len() implies entry_ext_wf(#[trigger] vs.drop_first()[i]) by {
            assert(vs.drop_first()[i] == vs[i + 1]);
        }
        lemma_entry_exts_roundtrip(vs.drop_first());
        assert(seq![v] + vs.drop_first() =~= vs);
    }
}

/// Reads the extensions of an entry, each its type and then its payload,
/// until `buf` is empty.
fn decode_entry_exts(buf: &mut BytesMut) -> (res: TlsResult<Vec<CertificateEntryExtension>>)
    ensures
        match spec_decode_entry_exts(bytes_mut_view(*old(buf))) {
            Ok(vs) => res matches Ok(xs) && views(xs@) == vs,
            Err(e) => res matches Err(x) && x@ == e,
        },
{
    let mut out: Vec<CertificateEntryExtension> = Vec::new();
    assert(views(out@) =~= Seq::<CertificateEntryExtensionView>::empty());
    assert(Seq::<CertificateEntryExtensionView>::empty() + Seq::<CertificateEntryExtensionView>::empty()
        =~= Seq::<CertificateEntryExtensionView>::empty());
    while bm_len(buf) > 0
        invariant
            spec_decode_entry_exts(bytes_mut_view(*old(buf))) == prepend(
                views(out@),
                spec_decode_entry_exts(bytes_mut_view(*buf)),
            ),
        decreases bytes_mut_view(*buf).len(),
    {
        let ghost before = bytes_mut_view(*buf);
        let ghost done = views(out@);
        proof {
            lemma_entry_ext_suffix(before);
        }
        let remaining = bm_len(buf);
        if remaining < 2 {
            return Err(TlsError::Incomplete(2 - remaining));
        }
        let extension_type = CertificateEntryExtensionType::try_from(bm_get_u16(buf))?;
        let payload = CertificateEntryExtensionPayload::decode_payload(extension_type, buf)?;
        let x = CertificateEntryExtension { extension_type, payload };
        proof {
            lemma_views_push(out@, x);
            let v = x@;
            let r = spec_decode_entry_exts(bytes_mut_view(*buf));
            assert(prepend(done, prepend(seq![v], r)) == prepend(done.push(v), r)) by {
                if let Ok(vs) = r {
                    assert(done + (seq![v] + vs) =~= done.push(v) + vs);
                }
            }
        }
        out.push(x);
    }
    proof {
        assert(views(out@) + Seq::<CertificateEntryExtensionView>::empty() =~= views(out@));
    }
    Ok(out)
}

impl Serialize for CertificateEntryPayload {
    open spec fn spec_encode(v: CertificateEntryPayloadView) -> Seq<u8> {
        be24(v.certificate_data.len()) + v.certificate_data + be16(
            spec_encode_list::<CertificateEntryExtension>(v.extensions).len() as u16,
        ) + spec_encode_list::<CertificateEntryExtension>(v.extensions)
    }

    open spec fn spec_decode(s: Seq<u8>) -> SpecResult<CertificateEntryPayloadView> {
        if s.len() < 3 {
            Err(TlsErrorView::Incomplete((3 - s.len()) as usize))
        } else {
            let n = read_be24(s, 0) as int;
            let t = s.skip(3);
            if t.len() < n {
                Err(TlsErrorView::Incomplete((n - t.len()) as usize))
            } else {
                let u = t.skip(n);
                if u.len() < 2 {
                    Err(TlsErrorView::Incomplete((2 - u.len()) as usize))
                } else {
                    let m = read_be16(u, 0) as int;
                    let w = u.skip(2);
                    if w.len() < m {
                        Err(TlsErrorView::Incomplete((m - w.len()) as usize))
                    } else {
                        match spec_decode_entry_exts(w.take(m)) {
                            Ok(extensions) => Ok((
                                CertificateEntryPayloadView { certificate_data: t.take(n), extensions },
                                w.skip(m),
                            )),
                            Err(e) => Err(e),
                        }
                    }
                }
            }
        }
    }

    open spec fn spec_wf(v: CertificateEntryPayloadView) -> bool {
        &&& v.certificate_data.len() < 0x100_0000
        &&& forall|i: int| 0 <= i < v.extensions.len() ==> entry_ext_wf(#[trigger] v.extensions[i])
        &&& spec_encode_list::<CertificateEntryExtension>(v.extensions).len() <= 0xFFFF
    }

    open spec fn spec_self_delimiting() -> bool {
        true
    }

    open spec fn spec_consumes() -> bool {
        true
    }

    proof fn lemma_decode_suffix(s: Seq<u8>) {
    }

    #[verifier::spinoff_prover]
    #[verifier::rlimit(60)]
    proof fn lemma_roundtrip(v: CertificateEntryPayloadView, rest: Seq<u8>) {
        let c = v.certificate_data;
        let body = spec_encode_list::<CertificateEntryExtension>(v.extensions);
        let s = Self::spec_encode(v) + rest;
        lemma_be24_roundtrip(c.len());
        lemma_entry_exts_roundtrip(v.extensions);
        assert(s =~= be24(c.len()) + (c + be16(body.len() as u16) + body + rest));
        assert(read_be24(s, 0) == read_be24(be24(c.len()), 0));
        let t = s.skip(3);
        assert(t =~= c + be16(body.len() as u16) + body + rest);
        assert(t.take(c.len() as int) =~= c);
        let u = t.skip(c.len() as int);
        assert(u =~= be16(body.len() as u16) + body + rest);
        assert(u.skip(2) =~= body + rest);
        assert((body + rest).take(body.len() as int) =~= body);
        assert((body + rest).skip(body.len() as int) =~= rest);
    }

    fn encode(&self, buf: &mut BytesMut) {
        let data = b_as_slice(&self.certificate_data);
        put_u24(buf, data.len());
        bm_put_slice(buf, data);
        let mut inner = bm_new();
        encode_list(&self.extensions, &mut inner);
        bm_put_u16(buf, bm_len(&inner) as u16);
        bm_put_slice(buf, bm_as_slice(&inner));
        assert(bytes_mut_view(*buf) =~= bytes_mut_view(*old(buf)) + Self::spec_encode(self@));
    }

    fn decode(buf: &mut BytesMut) -> (res: TlsResult<Self>) {
        let remaining = bm_len(buf);
        if remaining < 3 {
            return Err(TlsError::Incomplete(3 - remaining));
        }
        let cert_length = get_u24(buf);
        let certificate_data = take_bytes(buf, cert_length)?;
        let remaining = bm_len(buf);
        if remaining < 2 {
            return Err(TlsError::Incomplete(2 - remaining));
        }
        let ext_length = bm_get_u16(buf) as usize;
        let remaining = bm_len(buf);
        if remaining < ext_length {
            return Err(TlsError::Incomplete(ext_length - remaining));
        }
        let mut ext_buf = bm_split_to(buf, ext_length);
        let extensions = decode_entry_exts(&mut ext_buf)?;
        Ok(Self { certificate_data, extensions })
    }
}

/// An extension of a certificate entry: its type and its payload.
#[derive(Debug, PartialEq, Eq)]
pub struct CertificateEntryExtension {
    pub extension_type: CertificateEntryExtensionType,
    pub payload: CertificateEntryExtensionPayload,  // length u16
}

pub struct CertificateEntryExtensionView {
    pub extension_type: CertificateEntryExtensionType,
    pub payload: CertificateEntryExtensionPayloadView,
}

impl View for CertificateEntryExtension {
    type V = CertificateEntryExtensionView;

    open spec fn view(&self) -> CertificateEntryExtensionView {
        CertificateEntryExtensionView { extension_type: self.extension_type, payload: self.payload@ }
    }
}

impl Serialize for CertificateEntryExtension {
    /// The type and then the payload, with no byte count between them.
    open spec fn spec_encode(v: CertificateEntryExtensionView) -> Seq<u8> {
        be16(v.extension_type.spec_code()) + spec_encode_cert_ext(v.payload)
    }

    /// The type, a 16-bit byte count that must not pass the input's end, and
    /// then the payload, read from the bytes after the count.
    open spec fn spec_decode(s: Seq<u8>) -> SpecResult<CertificateEntryExtensionView> {
        if s.len() < 2 {
            Err(TlsErrorView::Incomplete((2 - s.len()) as usize))
        } else {
            match CertificateEntryExtensionType::spec_from_code(read_be16(s, 0)) {
                Err(e) => Err(e@),
                Ok(extension_type) => {
                    let t = s.skip(2);
                    if t.len() < 2 {
                        Err(TlsErrorView::Incomplete((2 - t.len()) as usize))
                    } else {
                        let n = read_be16(t, 0) as int;
                        let u = t.skip(2);
                        if u.len() < n {
                            Err(TlsErrorView::Incomplete((n - u.len()) as usize))
                        } else {
                            match spec_decode_cert_ext(extension_type, u) {
                                Ok((payload, rest)) => Ok((CertificateEntryExtensionView { extension_type, payload }, rest)),
                                Err(e) => Err(e),
                            }
                        }
                    }
                },
            }
        }
    }

    /// No value is read back as written by these two: the decoder expects a
    /// byte count that the encoder does not write. (An entry reads its
    /// extensions without the count; see `spec_decode_entry_ext`.)
    open spec fn spec_wf(v: CertificateEntryExtensionView) -> bool {
        false
    }

    open spec fn spec_self_delimiting() -> bool {
        true
    }

    open spec fn spec_consumes() -> bool {
        true
    }

    proof fn lemma_decode_suffix(s: Seq<u8>) {
        if s.len() >= 4 {
            if let Ok(ty) = CertificateEntryExtensionType::spec_from_code(read_be16(s, 0)) {
                lemma_cert_ext_suffix(ty, s.skip(4));
            }
        }
    }

    proof fn lemma_roundtrip(v: CertificateEntryExtensionView, rest: Seq<u8>) {
    }

    fn encode(&self, buf: &mut BytesMut) {
        bm_put_u16(buf, self.extension_type.code());
        self.payload.encode_payload(buf);
        assert(bytes_mut_view(*buf) =~= bytes_mut_view(*old(buf)) + Self::spec_encode(self@));
    }

    fn decode(buf: &mut BytesMut) -> (res: TlsResult<Self>) {
        let remaining = bm_len(buf);
        if remaining < 2 {
            return Err(TlsError::Incomplete(2 - remaining));
        }
        let extension_type = CertificateEntryExtensionType::try_from(bm_get_u16(buf))?;
        let remaining = bm_len(buf);
        if remaining < 2 {
            return Err(TlsError::Incomplete(2 - remaining));
        }
        let length = bm_get_u16(buf) as usize;
        let remaining = bm_len(buf);
        if remaining < length {
            return Err(TlsError::Incomplete(length - remaining));
        }
        let payload = CertificateEntryExtensionPayload::decode_payload(extension_type, buf)?;
        Ok(Self { extension_type, payload })
    }
}

} // verus!
