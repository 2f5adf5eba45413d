//! Signed certificate timestamps, and the extensions of a certificate entry
//! that may carry them; the two refer to each other, so both live here.
use vstd::prelude::*;

use bytes::{Bytes, BytesMut};

use crate::buffer::{
    b_as_slice, be16, be64, bm_as_slice, bm_get_u16, bm_get_u64, bm_get_u8, bm_len, bm_new,
    bm_put_slice, bm_put_u16, bm_put_u64, bm_put_u8, bm_split_to, bytes_mut_view, bytes_view,
    read_be16, read_be64,
};
use crate::error::{TlsError, TlsErrorView, TlsResult};
use crate::message::handshake::extensions::status_request::{
    StatusRequestPayload, StatusRequestPayloadView,
};
use crate::message::serialize::{Serialize, SpecResult, decoded_as, take_array, take_bytes};
use crate::seqs::is_suffix;

verus! {

broadcast use crate::seqs::group_codec;

/// A signed certificate timestamp: a log's promise to publish a certificate.
#[derive(Debug, PartialEq, Eq)]
pub struct SignedCertificateTimestampPayload {
    pub version: SctVersion,
    pub log_id: [u8; 32],  // log id
    pub timestamp: u64,  // unix epoch, 8 bytes
    pub extensions: Vec<CertificateEntryExtensionPayload>,  // length u16
    pub signature: DigitallySigned,
}

pub struct SignedCertificateTimestampPayloadView {
    pub version: SctVersion,
    pub log_id: Seq<u8>,
    pub timestamp: u64,
    pub extensions: Seq<CertificateEntryExtensionPayloadView>,
    pub signature: DigitallySignedView,
}

/// The payload of a certificate entry's extension.
#[derive(Debug, PartialEq, Eq)]
pub enum CertificateEntryExtensionPayload {
    StatusRequest(StatusRequestPayload),
    SignedCertificateTimestamp(SignedCertificateTimestampPayload),
}

pub enum CertificateEntryExtensionPayloadView {
    StatusRequest(StatusRequestPayloadView),
    SignedCertificateTimestamp(SignedCertificateTimestampPayloadView),
}

/// The view of a timestamp.
pub open spec fn sct_view(p: SignedCertificateTimestampPayload) -> SignedCertificateTimestampPayloadView
    decreases p,
{
    SignedCertificateTimestampPayloadView {
        version: p.version,
        log_id: p.log_id@,
        timestamp: p.timestamp,
        extensions: cert_ext_views(p.extensions@),
        signature: p.signature@,
    }
}

/// The views of a sequence of extension payloads.
pub open spec fn cert_ext_views(s: Seq<CertificateEntryExtensionPayload>) -> Seq<CertificateEntryExtensionPayloadView>
    decreases s,
{
    if s.len() == 0 {
        Seq::empty()
    } else {
        cert_ext_views(s.drop_last()).push(cert_ext_view(s.last()))
    }
}

/// The view of an extension payload.
pub open spec fn cert_ext_view(p: CertificateEntryExtensionPayload) -> CertificateEntryExtensionPayloadView
    decreases p,
{
    match p {
        CertificateEntryExtensionPayload::StatusRequest(q) => CertificateEntryExtensionPayloadView::StatusRequest(q@),
        CertificateEntryExtensionPayload::SignedCertificateTimestamp(q) =>
            CertificateEntryExtensionPayloadView::SignedCertificateTimestamp(sct_view(q)),
    }
}

impl View for SignedCertificateTimestampPayload {
    type V = SignedCertificateTimestampPayloadView;

    open spec fn view(&self) -> SignedCertificateTimestampPayloadView {
        sct_view(*self)
    }
}

impl View for CertificateEntryExtensionPayload {
    type V = CertificateEntryExtensionPayloadView;

    open spec fn view(&self) -> CertificateEntryExtensionPayloadView {
        cert_ext_view(*self)
    }
}

/// The encoding of a timestamp; its extensions are written as their payloads
/// alone, one after another, after a 16-bit byte count.
#[verifier::opaque]
pub open spec fn spec_encode_sct(v: SignedCertificateTimestampPayloadView) -> Seq<u8>
    decreases v,
{
    seq![v.version.spec_code()] + v.log_id + be64(v.timestamp) + be16(
        spec_encode_cert_exts(v.extensions).len() as u16,
    ) + spec_encode_cert_exts(v.extensions) + DigitallySigned::spec_encode(v.signature)
}

/// The encodings of extension payloads, one after another.
#[verifier::opaque]
pub open spec fn spec_encode_cert_exts(vs: Seq<CertificateEntryExtensionPayloadView>) -> Seq<u8>
    decreases vs,
{
    if vs.len() == 0 {
        Seq::empty()
    } else {
        spec_encode_cert_exts(vs.drop_last()) + spec_encode_cert_ext(vs.last())
    }
}

/// The encoding of an extension payload.
#[verifier::opaque]
pub open spec fn spec_encode_cert_ext(p: CertificateEntryExtensionPayloadView) -> Seq<u8>
    decreases p,
{
    match p {
        CertificateEntryExtensionPayloadView::StatusRequest(q) => StatusRequestPayload::spec_encode(q),
        CertificateEntryExtensionPayloadView::SignedCertificateTimestamp(q) => spec_encode_sct(q),
    }
}

/// What decoding a timestamp finds. After the fixed fields and the byte
/// count of the extensions, the extensions' payloads are read from the bytes
/// that the count covers, and the type of each from the bytes after them.
#[verifier::opaque]
pub open spec fn spec_decode_sct(s: Seq<u8>) -> SpecResult<SignedCertificateTimestampPayloadView>
    decreases s.len(), 2int,
{
    if s.len() < 43 {
        Err(TlsErrorView::Incomplete((43 - s.len()) as usize))
    } else {
        match SctVersion::spec_from_code(s[0]) {
            Err(e) => Err(e@),
            Ok(version) => {
                let n = read_be16(s, 41) as int;
                let t = s.skip(43);
                if t.len() < n + 1 {
                    Err(TlsErrorView::Incomplete((n + 1 - t.len()) as usize))
                } else {
                    match spec_decode_sct_exts(t.skip(n), t.take(n)) {
                        Err(e) => Err(e),
                        Ok((extensions, u)) => if u.len() < 1 {
                            Err(TlsErrorView::Incomplete((1 - u.len()) as usize))
                        } else {
                            match DigitallySigned::spec_decode(u) {
                                Err(e) => Err(e),
                                Ok((signature, rest)) => Ok((
                                    SignedCertificateTimestampPayloadView {
                                        version,
                                        log_id: s.subrange(1, 33),
                                        timestamp: read_be64(s, 33),
                                        extensions,
                                        signature,
                                    },
                                    rest,
                                )),
                            }
                        },
                    }
                }
            },
        }
    }
}

/// Reading the extensions of a timestamp: each payload from `inner`, each
/// type from `outer`, until `inner` is used up; gives the payloads and what
/// is left of `outer`.
#[verifier::opaque]
pub open spec fn spec_decode_sct_exts(outer: Seq<u8>, inner: Seq<u8>) -> Result<
    (Seq<CertificateEntryExtensionPayloadView>, Seq<u8>),
    TlsErrorView,
>
    decreases inner.len(), 4int,
{
    if inner.len() == 0 {
        Ok((Seq::empty(), outer))
    } else if outer.len() < 2 {
        Err(TlsErrorView::Incomplete((2 - outer.len()) as usize))
    } else {
        match CertificateEntryExtensionType::spec_from_code(read_be16(outer, 0)) {
            Err(e) => Err(e@),
            Ok(ty) => match spec_decode_cert_ext(ty, inner) {
                Err(e) => Err(e),
                Ok((p, inner2)) => if inner2.len() < inner.len() {
                    prepend_exts(seq![p], spec_decode_sct_exts(outer.skip(2), inner2))
                } else {
                    Ok((seq![p], outer.skip(2)))
                },
            },
        }
    }
}

/// What decoding the payload of an extension of the given type finds.
#[verifier::opaque]
pub open spec fn spec_decode_cert_ext(ty: CertificateEntryExtensionType, s: Seq<u8>) -> SpecResult<
    CertificateEntryExtensionPayloadView,
>
    decreases s.len(), 3int,
{
    match ty {
        CertificateEntryExtensionType::StatusRequest => match StatusRequestPayload::spec_decode(s) {
            Ok((q, rest)) => Ok((CertificateEntryExtensionPayloadView::StatusRequest(q), rest)),
            Err(e) => Err(e),
        },
        CertificateEntryExtensionType::SignedCertificateTimestamp => match spec_decode_sct(s) {
            Ok((q, rest)) => Ok((CertificateEntryExtensionPayloadView::SignedCertificateTimestamp(q), rest)),
            Err(e) => Err(e),
        },
    }
}

/// Puts payloads read earlier before those read after them.
pub open spec fn prepend_exts(
    done: Seq<CertificateEntryExtensionPayloadView>,
    r: Result<(Seq<CertificateEntryExtensionPayloadView>, Seq<u8>), TlsErrorView>,
) -> Result<(Seq<CertificateEntryExtensionPayloadView>, Seq<u8>), TlsErrorView> {
    match r {
        Ok((vs, o)) => Ok((done + vs, o)),
        Err(e) => Err(e),
    }
}

/// The type of an extension payload.
pub open spec fn cert_ext_type(p: CertificateEntryExtensionPayloadView) -> CertificateEntryExtensionType {
    match p {
        CertificateEntryExtensionPayloadView::StatusRequest(_) => CertificateEntryExtensionType::StatusRequest,
        CertificateEntryExtensionPayloadView::SignedCertificateTimestamp(_) =>
            CertificateEntryExtensionType::SignedCertificateTimestamp,
    }
}

/// The timestamps that decoding gives back as they were encoded: those
/// without extensions (an extension's type is read from after the list,
/// where the encoding does not put it).
pub open spec fn sct_wf(v: SignedCertificateTimestampPayloadView) -> bool {
    &&& v.extensions.len() == 0
    &&& v.log_id.len() == 32
    &&& DigitallySigned::spec_wf(v.signature)
}

/// The extension payloads that decoding gives back as they were encoded.
pub open spec fn cert_ext_wf(p: CertificateEntryExtensionPayloadView) -> bool {
    match p {
        CertificateEntryExtensionPayloadView::StatusRequest(q) => StatusRequestPayload::spec_wf(q),
        CertificateEntryExtensionPayloadView::SignedCertificateTimestamp(q) => sct_wf(q),
    }
}

/// The views of a vector after a push are the old views and the new one.
pub proof fn lemma_cert_ext_views_push(s: Seq<CertificateEntryExtensionPayload>, x: CertificateEntryExtensionPayload)
    ensures
        cert_ext_views(s.push(x)) == cert_ext_views(s).push(cert_ext_view(x)),
        cert_ext_views(s).len() == s.len(),
    decreases s.len(),
{
    assert(s.push(x).drop_last() =~= s);
    if s.len() > 0 {
        lemma_cert_ext_views_push(s.drop_last(), s.last());
        assert(s.drop_last().push(s.last()) =~= s);
    }
}

/// Encoding one more payload appends its encoding.
pub proof fn lemma_encode_cert_exts_push(vs: Seq<CertificateEntryExtensionPayloadView>, p: CertificateEntryExtensionPayloadView)
    ensures
        spec_encode_cert_exts(vs.push(p)) == spec_encode_cert_exts(vs) + spec_encode_cert_ext(p),
{
    reveal(spec_encode_cert_exts);
    reveal(spec_encode_cert_ext);
    assert(vs.push(p).drop_last() =~= vs);
}

/// The encoding of the first payloads of a list is no longer than that of all of them.
pub proof fn lemma_encode_cert_exts_prefix(s: Seq<CertificateEntryExtensionPayload>, j: int)
    requires
        0 <= j <= s.len(),
    ensures
        spec_encode_cert_exts(cert_ext_views(s.take(j))).len() <= spec_encode_cert_exts(cert_ext_views(s)).len(),
    decreases s.len() - j,
{
    if j == s.len() {
        assert(s.take(j) =~= s);
    } else {
        lemma_encode_cert_exts_prefix(s, j + 1);
        assert(s.take(j + 1) =~= s.take(j).push(s[j]));
        lemma_cert_ext_views_push(s.take(j), s[j]);
        lemma_encode_cert_exts_push(cert_ext_views(s.take(j)), cert_ext_view(s[j]));
    }
}

/// Reading the extensions of a timestamp leaves a suffix of the bytes after the list.
pub proof fn lemma_sct_exts_suffix(outer: Seq<u8>, inner: Seq<u8>)
    ensures
        spec_decode_sct_exts(outer, inner) matches Ok((ps, o)) ==> is_suffix(o, outer),
    decreases inner.len(),
{
    reveal(spec_decode_sct_exts);
    reveal(spec_decode_cert_ext);
    if inner.len() > 0 && outer.len() >= 2 {
        if let Ok(ty) = CertificateEntryExtensionType::spec_from_code(read_be16(outer, 0)) {
            if let Ok((p, inner2)) = spec_decode_cert_ext(ty, inner) {
                if inner2.len() < inner.len() {
                    lemma_sct_exts_suffix(outer.skip(2), inner2);
                }
            }
        }
    }
}

/// Decoding a timestamp reads a prefix of its input, and at least one byte.
pub proof fn lemma_sct_suffix(s: Seq<u8>)
    ensures
        spec_decode_sct(s) matches Ok((v, rest)) ==> is_suffix(rest, s) && rest.len() < s.len(),
{
    reveal(spec_decode_sct);
    reveal(spec_decode_sct_exts);
    if s.len() >= 43 {
        let n = read_be16(s, 41) as int;
        let t = s.skip(43);
        if t.len() >= n + 1 {
            lemma_sct_exts_suffix(t.skip(n), t.take(n));
            if let Ok((extensions, u)) = spec_decode_sct_exts(t.skip(n), t.take(n)) {
                DigitallySigned::lemma_decode_suffix(u);
            }
        }
    }
}

/// Decoding an extension payload reads a prefix of its input, and at least one byte.
pub proof fn lemma_cert_ext_suffix(ty: CertificateEntryExtensionType, s: Seq<u8>)
    ensures
        spec_decode_cert_ext(ty, s) matches Ok((v, rest)) ==> is_suffix(rest, s) && rest.len() < s.len(),
{
    reveal(spec_decode_sct);
    reveal(spec_decode_cert_ext);
    match ty {
        CertificateEntryExtensionType::StatusRequest => StatusRequestPayload::lemma_decode_suffix(s),
        CertificateEntryExtensionType::SignedCertificateTimestamp => lemma_sct_suffix(s),
    }
}

/// A timestamp without extensions is decoded from its encoding as it was.
pub proof fn lemma_sct_roundtrip(v: SignedCertificateTimestampPayloadView, rest: Seq<u8>)
    requires
        sct_wf(v),
    ensures
        spec_decode_sct(spec_encode_sct(v) + rest) == Ok::<_, TlsErrorView>((v, rest)),
{
    reveal(spec_encode_sct);
    reveal(spec_decode_sct);
    v.version.lemma_code_roundtrip(0);
    assert(v.extensions =~= Seq::<CertificateEntryExtensionPayloadView>::empty());
    let sig = DigitallySigned::spec_encode(v.signature);
    let s = spec_encode_sct(v) + rest;
    assert(s =~= seq![v.version.spec_code()] + v.log_id + be64(v.timestamp) + be16(0) + (sig + rest));
    assert(s.subrange(1, 33) =~= v.log_id);
    assert(s.skip(43) =~= sig + rest);
    assert((sig + rest).skip(0) =~= sig + rest);
    assert((sig + rest).take(0) =~= Seq::<u8>::empty());
    DigitallySigned::lemma_roundtrip(v.signature, rest);
    crate::buffer::lemma_be64_roundtrip(v.timestamp);
    assert(be64(v.timestamp) =~= s.subrange(33, 41));
    assert(read_be64(s, 33) == read_be64(be64(v.timestamp), 0));
}

/// An extension payload that decoding gives back is decoded from its
/// encoding, by the type it has, as it was.
pub proof fn lemma_cert_ext_roundtrip(p: CertificateEntryExtensionPayloadView, rest: Seq<u8>)
    requires
        cert_ext_wf(p),
    ensures
        spec_decode_cert_ext(cert_ext_type(p), spec_encode_cert_ext(p) + rest) == Ok::<_, TlsErrorView>((p, rest)),
{
    reveal(spec_encode_sct);
    reveal(spec_encode_cert_ext);
    reveal(spec_decode_sct);
    reveal(spec_decode_cert_ext);
    match p {
        CertificateEntryExtensionPayloadView::StatusRequest(q) => StatusRequestPayload::lemma_roundtrip(q, rest),
        CertificateEntryExtensionPayloadView::SignedCertificateTimestamp(q) => lemma_sct_roundtrip(q, rest),
    }
}

impl SignedCertificateTimestampPayload {
    /// Appends the encoding of the timestamp.
    fn encode_sct(&self, buf: &mut BytesMut)
        requires
            bytes_mut_view(*old(buf)).len() + spec_encode_sct(self@).len() <= isize::MAX,
        ensures
            bytes_mut_view(*final(buf)) == bytes_mut_view(*old(buf)) + spec_encode_sct(self@),
        decreases self,
    {
        proof {
            reveal(spec_encode_sct);
            reveal(spec_encode_cert_exts);
        }
        let ghost all = self.extensions@;
        bm_put_u8(buf, self.version.code());
        bm_put_slice(buf, &self.log_id);
        bm_put_u64(buf, self.timestamp);
        let mut inner = bm_new();
        let mut i: usize = 0;
        proof {
            assert(all.take(0) =~= Seq::<CertificateEntryExtensionPayload>::empty());
            lemma_encode_cert_exts_prefix(all, 0);
        }
        while i < self.extensions.len()
            invariant
                0 <= i <= all.len(),
                all == self.extensions@,
                bytes_mut_view(*old(buf)).len() + spec_encode_sct(self@).len() <= isize::MAX,
                bytes_mut_view(inner) == spec_encode_cert_exts(cert_ext_views(all.take(i as int))),
            decreases all.len() - i,
        {
            proof {
                reveal(spec_encode_sct);
                reveal(spec_encode_cert_exts);
                assert(all.take(i + 1) =~= all.take(i as int).push(all[i as int]));
                lemma_cert_ext_views_push(all.take(i as int), all[i as int]);
                lemma_encode_cert_exts_push(cert_ext_views(all.take(i as int)), cert_ext_view(all[i as int]));
                lemma_encode_cert_exts_prefix(all, i + 1);
                assert(decreases_to!(*self => self.extensions));
                assert(decreases_to!(self.extensions => self.extensions@));
                assert(decreases_to!(self.extensions@ => self.extensions@[i as int]));
            }
            self.extensions[i].encode_payload(&mut inner);
            i = i + 1;
        }
        proof {
            assert(all.take(all.len() as int) =~= all);
        }
        let len = bm_len(&inner);
        bm_put_u16(buf, len as u16);
        bm_put_slice(buf, bm_as_slice(&inner));
        self.signature.encode(buf);
        assert(bytes_mut_view(*buf) =~= bytes_mut_view(*old(buf)) + spec_encode_sct(self@));
    }

    /// Reads the extensions of a timestamp: each payload from `exts`, each
    /// type from `buf`, until `exts` is used up.
    fn decode_sct_exts(buf: &mut BytesMut, exts: &mut BytesMut) -> (res: TlsResult<Vec<CertificateEntryExtensionPayload>>)
        ensures
            match spec_decode_sct_exts(bytes_mut_view(*old(buf)), bytes_mut_view(*old(exts))) {
                Ok((vs, o)) => res matches Ok(xs) && cert_ext_views(xs@) == vs && bytes_mut_view(*final(buf)) == o,
                Err(e) => res matches Err(x) && x@ == e,
            },
            is_suffix(bytes_mut_view(*final(buf)), bytes_mut_view(*old(buf))),
        decreases bytes_mut_view(*old(exts)).len(), 4int,
    {
        proof {
            reveal(spec_decode_sct_exts);
        }
        let ghost outer0 = bytes_mut_view(*buf);
        let ghost inner0 = bytes_mut_view(*exts);
        let mut extensions: Vec<CertificateEntryExtensionPayload> = Vec::new();
        proof {
            assert(cert_ext_views(extensions@) =~= Seq::<CertificateEntryExtensionPayloadView>::empty());
            if let Ok((vs, o)) = spec_decode_sct_exts(outer0, inner0) {
                assert(Seq::<CertificateEntryExtensionPayloadView>::empty() + vs =~= vs);
            }
        }
        while bm_len(exts) > 0
            invariant
                outer0 == bytes_mut_view(*old(buf)),
                inner0 == bytes_mut_view(*old(exts)),
                is_suffix(bytes_mut_view(*exts), inner0),
                is_suffix(bytes_mut_view(*buf), outer0),
                spec_decode_sct_exts(outer0, inner0) == prepend_exts(
                    cert_ext_views(extensions@),
                    spec_decode_sct_exts(bytes_mut_view(*buf), bytes_mut_view(*exts)),
                ),
            decreases bytes_mut_view(*exts).len(),
        {
            proof {
                reveal(spec_decode_sct_exts);
                reveal(spec_decode_cert_ext);
            }
            let ghost inner = bytes_mut_view(*exts);
            let ghost done = cert_ext_views(extensions@);
            let remaining = bm_len(buf);
            if remaining < 2 {
                return Err(TlsError::Incomplete(2 - remaining));
            }
            let extension_type = CertificateEntryExtensionType::try_from(bm_get_u16(buf))?;
            proof {
                lemma_cert_ext_suffix(extension_type, inner);
            }
            let payload = CertificateEntryExtensionPayload::decode_payload(extension_type, exts)?;
            proof {
                lemma_cert_ext_views_push(extensions@, payload);
                let v = payload@;
                let r = spec_decode_sct_exts(bytes_mut_view(*buf), bytes_mut_view(*exts));
                if let Ok((vs, o)) = r {
                    assert(done + (seq![v] + vs) =~= done.push(v) + vs);
                }
            }
            extensions.push(payload);
        }
        proof {
            assert(cert_ext_views(extensions@) + Seq::<CertificateEntryExtensionPayloadView>::empty()
                =~= cert_ext_views(extensions@));
        }
        Ok(extensions)
    }

    /// Reads a timestamp from the start of `buf`.
    #[verifier::spinoff_prover]
    #[verifier::rlimit(40)]
    fn decode_sct(buf: &mut BytesMut) -> (res: TlsResult<Self>)
        ensures
            decoded_as(spec_decode_sct(bytes_mut_view(*old(buf))), res, bytes_mut_view(*final(buf))),
            is_suffix(bytes_mut_view(*final(buf)), bytes_mut_view(*old(buf))),
        decreases bytes_mut_view(*old(buf)).len(), 2int,
    {
        proof {
            reveal(spec_decode_sct);
        }
        let ghost s = bytes_mut_view(*buf);
        let remaining = bm_len(buf);
        if remaining < 43 {
            return Err(TlsError::Incomplete(43 - remaining));
        }
        let version = SctVersion::try_from(bm_get_u8(buf))?;
        let log_id: [u8; 32] = take_array(buf);
        let timestamp = bm_get_u64(buf);
        let extensions_length = bm_get_u16(buf) as usize;
        proof {
            assert(s.subrange(1, 33) =~= s.skip(1).take(32));
            assert(read_be64(s, 33) == read_be64(s.skip(33), 0));
            assert(read_be16(s, 41) == read_be16(s.skip(41), 0));
        }
        let remaining = bm_len(buf);
        if remaining < extensions_length + 1 {
            return Err(TlsError::Incomplete(extensions_length + 1 - remaining));
        }
        let mut exts = bm_split_to(buf, extensions_length);
        let extensions = Self::decode_sct_exts(buf, &mut exts)?;
        let remaining = bm_len(buf);
        if remaining < 1 {
            return Err(TlsError::Incomplete(1 - remaining));
        }
        let signature = DigitallySigned::decode(buf)?;
        Ok(Self { version, log_id, timestamp, extensions, signature })
    }
}

impl Serialize for SignedCertificateTimestampPayload {
    open spec fn spec_encode(v: SignedCertificateTimestampPayloadView) -> Seq<u8> {
        spec_encode_sct(v)
    }

    open spec fn spec_decode(s: Seq<u8>) -> SpecResult<SignedCertificateTimestampPayloadView> {
        spec_decode_sct(s)
    }

    open spec fn spec_wf(v: SignedCertificateTimestampPayloadView) -> bool {
        sct_wf(v)
    }

    open spec fn spec_self_delimiting() -> bool {
        true
    }

    open spec fn spec_consumes() -> bool {
        true
    }

    proof fn lemma_decode_suffix(s: Seq<u8>) {
        lemma_sct_suffix(s);
    }

    proof fn lemma_roundtrip(v: SignedCertificateTimestampPayloadView, rest: Seq<u8>) {
        lemma_sct_roundtrip(v, rest);
    }

    fn encode(&self, buf: &mut BytesMut) {
        self.encode_sct(buf);
    }

    fn decode(buf: &mut BytesMut) -> (res: TlsResult<Self>) {
        Self::decode_sct(buf)
    }
}

impl CertificateEntryExtensionPayload {
    /// Appends the encoding of the payload.
    pub fn encode_payload(&self, buf: &mut BytesMut)
        requires
            bytes_mut_view(*old(buf)).len() + spec_encode_cert_ext(self@).len() <= isize::MAX,
        ensures
            bytes_mut_view(*final(buf)) == bytes_mut_view(*old(buf)) + spec_encode_cert_ext(self@),
        decreases self,
    {
        proof {
            reveal(spec_encode_sct);
            reveal(spec_encode_cert_ext);
        }
        match self {
            CertificateEntryExtensionPayload::StatusRequest(p) => p.encode(buf),
            CertificateEntryExtensionPayload::SignedCertificateTimestamp(p) => p.encode_sct(buf),
        }
    }

    /// Reads the payload of an extension of the given type from the start of `buf`.
    pub fn decode_payload(extension_type: CertificateEntryExtensionType, buf: &mut BytesMut) -> (res: TlsResult<Self>)
        ensures
            decoded_as(spec_decode_cert_ext(extension_type, bytes_mut_view(*old(buf))), res, bytes_mut_view(*final(buf))),
            is_suffix(bytes_mut_view(*final(buf)), bytes_mut_view(*old(buf))),
        decreases bytes_mut_view(*old(buf)).len(), 3int,
    {
        proof {
            reveal(spec_decode_sct);
            reveal(spec_decode_cert_ext);
        }
        match extension_type {
            CertificateEntryExtensionType::StatusRequest => Ok(
                CertificateEntryExtensionPayload::StatusRequest(StatusRequestPayload::decode(buf)?),
            ),
            CertificateEntryExtensionType::SignedCertificateTimestamp => Ok(
                CertificateEntryExtensionPayload::SignedCertificateTimestamp(
                    SignedCertificateTimestampPayload::decode_sct(buf)?,
                ),
            ),
        }
    }
}

/// The type of a certificate entry's extension.
#[derive(Debug, Clone, Copy, PartialEq, Eq, Structural)]
pub enum CertificateEntryExtensionType {
    StatusRequest,
    SignedCertificateTimestamp,
}

impl CertificateEntryExtensionType {
    /// The code that stands for the value on the wire.
    pub open spec fn spec_code(self) -> u16 {
        match self {
            CertificateEntryExtensionType::StatusRequest => 0x0005,
            CertificateEntryExtensionType::SignedCertificateTimestamp => 0x0012,
        }
    }

    /// The value that a code stands for, or the error for a code that stands for none.
    pub open spec fn spec_from_code(v: u16) -> Result<CertificateEntryExtensionType, TlsError> {
        match v {
            0x0005 => Ok(CertificateEntryExtensionType::StatusRequest),
            0x0012 => Ok(CertificateEntryExtensionType::SignedCertificateTimestamp),
            _ => Err(TlsError::Unknown("certificate extension")),
        }
    }

    /// The wire codes of the named values, as the protocol's registry fixes
    /// them: each value is written as its number, and a code is read as that
    /// value exactly when it is that number.
    pub proof fn lemma_wire_codes(c: u16)
        ensures
            CertificateEntryExtensionType::StatusRequest.spec_code() == 0x0005,
            CertificateEntryExtensionType::SignedCertificateTimestamp.spec_code() == 0x0012,
            (CertificateEntryExtensionType::spec_from_code(c) == Ok::<_, TlsError>(CertificateEntryExtensionType::StatusRequest)) <==> c == 0x0005,
            (CertificateEntryExtensionType::spec_from_code(c) == Ok::<_, TlsError>(CertificateEntryExtensionType::SignedCertificateTimestamp)) <==> c == 0x0012,
    {
    }

    /// A value written as its code is read back as itself, and a code that
    /// is read as a value is that value's code.
    pub proof fn lemma_code_roundtrip(self, v: u16)
        ensures
            CertificateEntryExtensionType::spec_from_code(self.spec_code()) == Ok::<_, TlsError>(self),
            CertificateEntryExtensionType::spec_from_code(v) matches Ok(x) ==> x.spec_code() == v,
    {
    }

    /// The code that stands for the value on the wire.
    pub fn code(self) -> (res: u16)
        ensures
            res == self.spec_code(),
    {
        match self {
            CertificateEntryExtensionType::StatusRequest => 0x0005,
            CertificateEntryExtensionType::SignedCertificateTimestamp => 0x0012,
        }
    }

    /// The value that a code stands for, or the error for a code that stands for none.
    pub fn try_from(value: u16) -> (res: Result<Self, TlsError>)
        ensures
            res == CertificateEntryExtensionType::spec_from_code(value),
    {
        match value {
            0x0005 => Ok(CertificateEntryExtensionType::StatusRequest),
            0x0012 => Ok(CertificateEntryExtensionType::SignedCertificateTimestamp),
            _ => Err(TlsError::Unknown("certificate extension")),
        }
    }
}

/// The version of a timestamp.
#[derive(Debug, Clone, Copy, PartialEq, Eq, Structural)]
pub enum SctVersion {
    V1,
}

impl SctVersion {
    /// The code that stands for the value on the wire.
    pub open spec fn spec_code(self) -> u8 {
        match self {
            SctVersion::V1 => 0x00,
        }
    }

    /// The value that a code stands for, or the error for a code that stands for none.
    pub open spec fn spec_from_code(v: u8) -> Result<SctVersion, TlsError> {
        match v {
            0x00 => Ok(SctVersion::V1),
            _ => Err(TlsError::Unknown("SCT version")),
        }
    }

    /// The wire codes of the named values, as the protocol's registry fixes
    /// them: each value is written as its number, and a code is read as that
    /// value exactly when it is that number.
    pub proof fn lemma_wire_codes(c: u8)
        ensures
            SctVersion::V1.spec_code() == 0x00,
            (SctVersion::spec_from_code(c) == Ok::<_, TlsError>(SctVersion::V1)) <==> c == 0x00,
    {
    }

    /// A value written as its code is read back as itself, and a code that
    /// is read as a value is that value's code.
    pub proof fn lemma_code_roundtrip(self, v: u8)
        ensures
            SctVersion::spec_from_code(self.spec_code()) == Ok::<_, TlsError>(self),
            SctVersion::spec_from_code(v) matches Ok(x) ==> x.spec_code() == v,
    {
    }

    /// The code that stands for the value on the wire.
    pub fn code(self) -> (res: u8)
        ensures
            res == self.spec_code(),
    {
        match self {
            SctVersion::V1 => 0x00,
        }
    }

    /// The value that a code stands for, or the error for a code that stands for none.
    pub fn try_from(value: u8) -> (res: Result<Self, TlsError>)
        ensures
            res == SctVersion::spec_from_code(value),
    {
        match value {
            0x00 => Ok(SctVersion::V1),
            _ => Err(TlsError::Unknown("SCT version")),
        }
    }
}

/// A signature with the algorithms that made it; the signature follows a
/// 16-bit byte count.
#[derive(Debug, Clone, PartialEq, Eq)]
pub struct DigitallySigned {
    pub hash_algorithm: SctHashAlgorithm,
    pub signature_algorithm: SctSignatureAlgorithm,
    pub signature: Bytes,  // length u16
}

pub struct DigitallySignedView {
    pub hash_algorithm: SctHashAlgorithm,
    pub signature_algorithm: SctSignatureAlgorithm,
    pub signature: Seq<u8>,
}

impl View for DigitallySigned {
    type V = DigitallySignedView;

    open spec fn view(&self) -> DigitallySignedView {
        DigitallySignedView {
            hash_algorithm: self.hash_algorithm,
            signature_algorithm: self.signature_algorithm,
            signature: bytes_view(self.signature),
        }
    }
}

impl Serialize for DigitallySigned {
    open spec fn spec_encode(v: DigitallySignedView) -> Seq<u8> {
        seq![v.hash_algorithm.spec_code(), v.signature_algorithm.spec_code()] + be16(v.signature.len() as u16)
            + v.signature
    }

    open spec fn spec_decode(s: Seq<u8>) -> SpecResult<DigitallySignedView> {
        if s.len() < 4 {
            Err(TlsErrorView::Incomplete((4 - s.len()) as usize))
        } else {
            let n = read_be16(s, 2) as int;
            let t = s.skip(4);
            if t.len() < n {
                Err(TlsErrorView::Incomplete((n - t.len()) as usize))
            } else {
                Ok((
                    DigitallySignedView {
                        hash_algorithm: SctHashAlgorithm::spec_from_code(s[0]),
                        signature_algorithm: SctSignatureAlgorithm::spec_from_code(s[1]),
                        signature: t.take(n),
                    },
                    t.skip(n),
                ))
            }
        }
    }

    open spec fn spec_wf(v: DigitallySignedView) -> bool {
        &&& v.hash_algorithm.spec_canonical()
        &&& v.signature_algorithm.spec_canonical()
        &&& v.signature.len() <= 0xFFFF
    }

    open spec fn spec_self_delimiting() -> bool {
        true
    }

    open spec fn spec_consumes() -> bool {
        true
    }

    proof fn lemma_decode_suffix(s: Seq<u8>) {
    }

    proof fn lemma_roundtrip(v: DigitallySignedView, rest: Seq<u8>) {
        v.hash_algorithm.lemma_code_roundtrip(0);
        v.signature_algorithm.lemma_code_roundtrip(0);
        let b = v.signature;
        let s = Self::spec_encode(v) + rest;
        assert(s.skip(4) =~= b + rest);
        assert((b + rest).take(b.len() as int) =~= b);
        assert((b + rest).skip(b.len() as int) =~= rest);
    }

    /// Writes the two algorithm codes, then the signature after its 16-bit
    /// byte count: the layout that `decode` reads (RFC 5246's
    /// `digitally-signed`), so a signature is read back as written.
    fn encode(&self, buf: &mut BytesMut) {
        bm_put_u8(buf, self.hash_algorithm.code());
        bm_put_u8(buf, self.signature_algorithm.code());
        let signature = b_as_slice(&self.signature);
        bm_put_u16(buf, signature.len() as u16);
        bm_put_slice(buf, signature);
        assert(bytes_mut_view(*buf) =~= bytes_mut_view(*old(buf)) + Self::spec_encode(self@));
    }

    fn decode(buf: &mut BytesMut) -> (res: TlsResult<Self>) {
        let remaining = bm_len(buf);
        if remaining < 4 {
            return Err(TlsError::Incomplete(4 - remaining));
        }
        let hash_algorithm = SctHashAlgorithm::try_from(bm_get_u8(buf))?;
        let signature_algorithm = SctSignatureAlgorithm::try_from(bm_get_u8(buf))?;
        let signature_length = bm_get_u16(buf) as usize;
        let signature = take_bytes(buf, signature_length)?;
        Ok(Self { hash_algorithm, signature_algorithm, signature })
    }
}

/// The hash algorithm of a timestamp's signature; codes that name none of
/// the known ones are kept as they are.
#[derive(Debug, Clone, Copy, PartialEq, Eq, Structural)]
pub enum SctHashAlgorithm {
    Sha256,
    Sha384,
    Sha512,
    Unknown(u8),
}

impl SctHashAlgorithm {
    /// The code that stands for the value on the wire.
    pub open spec fn spec_code(self) -> u8 {
        match self {
            SctHashAlgorithm::Sha256 => 0x04,
            SctHashAlgorithm::Sha384 => 0x05,
            SctHashAlgorithm::Sha512 => 0x06,
            SctHashAlgorithm::Unknown(v) => v,
        }
    }

    /// The value that a code stands for.
    pub open spec fn spec_from_code(v: u8) -> SctHashAlgorithm {
        match v {
            0x04 => SctHashAlgorithm::Sha256,
            0x05 => SctHashAlgorithm::Sha384,
            0x06 => SctHashAlgorithm::Sha512,
            _ => SctHashAlgorithm::Unknown(v),
        }
    }

    /// The wire codes of the named values, as the protocol's registry fixes
    /// them: each value is written as its number, and a code is read as that
    /// value exactly when it is that number.
    pub proof fn lemma_wire_codes(c: u8)
        ensures
            SctHashAlgorithm::Sha256.spec_code() == 0x04,
            SctHashAlgorithm::Sha384.spec_code() == 0x05,
            SctHashAlgorithm::Sha512.spec_code() == 0x06,
            (SctHashAlgorithm::spec_from_code(c) == SctHashAlgorithm::Sha256) <==> c == 0x04,
            (SctHashAlgorithm::spec_from_code(c) == SctHashAlgorithm::Sha384) <==> c == 0x05,
            (SctHashAlgorithm::spec_from_code(c) == SctHashAlgorithm::Sha512) <==> c == 0x06,
    {
    }

    /// The values that are read back as written: those whose code is not
    /// taken by another variant.
    pub open spec fn spec_canonical(self) -> bool {
        SctHashAlgorithm::spec_from_code(self.spec_code()) == self
    }

    /// Every code is read as a value whose code it is; a value that is not
    /// `Unknown` with a code of another variant is read back as itself.
    pub proof fn lemma_code_roundtrip(self, v: u8)
        ensures
            SctHashAlgorithm::spec_from_code(v).spec_code() == v,
            SctHashAlgorithm::spec_from_code(v).spec_canonical(),
            self.spec_canonical() <==> match self {
                SctHashAlgorithm::Unknown(u) => SctHashAlgorithm::spec_from_code(u) is Unknown,
                _ => true,
            },
    {
    }

    /// The code that stands for the value on the wire.
    pub fn code(self) -> (res: u8)
        ensures
            res == self.spec_code(),
    {
        match self {
            SctHashAlgorithm::Sha256 => 0x04,
            SctHashAlgorithm::Sha384 => 0x05,
            SctHashAlgorithm::Sha512 => 0x06,
            SctHashAlgorithm::Unknown(v) => v,
        }
    }

    /// The value that a code stands for; reading a code never fails.
    pub fn try_from(value: u8) -> (res: Result<Self, TlsError>)
        ensures
            res == Ok::<_, TlsError>(SctHashAlgorithm::spec_from_code(value)),
    {
        match value {
            0x04 => Ok(SctHashAlgorithm::Sha256),
            0x05 => Ok(SctHashAlgorithm::Sha384),
            0x06 => Ok(SctHashAlgorithm::Sha512),
            _ => Ok(SctHashAlgorithm::Unknown(value)),
        }
    }
}

/// The signature algorithm of a timestamp's signature; codes that name none
/// of the known ones are kept as they are.
#[derive(Debug, Clone, Copy, PartialEq, Eq, Structural)]
pub enum SctSignatureAlgorithm {
    Rsa,
    Ecdsa,
    Unknown(u8),
}

impl SctSignatureAlgorithm {
    /// The code that stands for the value on the wire.
    pub open spec fn spec_code(self) -> u8 {
        match self {
            SctSignatureAlgorithm::Rsa => 0x01,
            SctSignatureAlgorithm::Ecdsa => 0x03,
            SctSignatureAlgorithm::Unknown(v) => v,
        }
    }

    /// The value that a code stands for.
    pub open spec fn spec_from_code(v: u8) -> SctSignatureAlgorithm {
        match v {
            0x01 => SctSignatureAlgorithm::Rsa,
            0x03 => SctSignatureAlgorithm::Ecdsa,
            _ => SctSignatureAlgorithm::Unknown(v),
        }
    }

    /// The wire codes of the named values, as the protocol's registry fixes
    /// them: each value is written as its number, and a code is read as that
    /// value exactly when it is that number.
    pub proof fn lemma_wire_codes(c: u8)
        ensures
            SctSignatureAlgorithm::Rsa.spec_code() == 0x01,
            SctSignatureAlgorithm::Ecdsa.spec_code() == 0x03,
            (SctSignatureAlgorithm::spec_from_code(c) == SctSignatureAlgorithm::Rsa) <==> c == 0x01,
            (SctSignatureAlgorithm::spec_from_code(c) == SctSignatureAlgorithm::Ecdsa) <==> c == 0x03,
    {
    }

    /// The values that are read back as written: those whose code is not
    /// taken by another variant.
    pub open spec fn spec_canonical(self) -> bool {
        SctSignatureAlgorithm::spec_from_code(self.spec_code()) == self
    }

    /// Every code is read as a value whose code it is; a value that is not
    /// `Unknown` with a code of another variant is read back as itself.
    pub proof fn lemma_code_roundtrip(self, v: u8)
        ensures
            SctSignatureAlgorithm::spec_from_code(v).spec_code() == v,
            SctSignatureAlgorithm::spec_from_code(v).spec_canonical(),
            self.spec_canonical() <==> match self {
                SctSignatureAlgorithm::Unknown(u) => SctSignatureAlgorithm::spec_from_code(u) is Unknown,
                _ => true,
            },
    {
    }

    /// The code that stands for the value on the wire.
    pub fn code(self) -> (res: u8)
        ensures
            res == self.spec_code(),
    {
        match self {
            SctSignatureAlgorithm::Rsa => 0x01,
            SctSignatureAlgorithm::Ecdsa => 0x03,
            SctSignatureAlgorithm::Unknown(v) => v,
        }
    }

    /// The value that a code stands for; reading a code never fails.
    pub fn try_from(value: u8) -> (res: Result<Self, TlsError>)
        ensures
            res == Ok::<_, TlsError>(SctSignatureAlgorithm::spec_from_code(value)),
    {
        match value {
            0x01 => Ok(SctSignatureAlgorithm::Rsa),
            0x03 => Ok(SctSignatureAlgorithm::Ecdsa),
            _ => Ok(SctSignatureAlgorithm::Unknown(value)),
        }
    }
}

} // verus!
