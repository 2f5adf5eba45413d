//! The `CertificateRequest` handshake message: a request context and the
//! extensions that say which certificates are acceptable.
use vstd::prelude::*;

use bytes::{Bytes, BytesMut};

use crate::buffer::{
    b_as_slice, be16, bm_as_slice, bm_freeze, bm_get_u16, bm_get_u8, bm_len, bm_new, bm_put_slice,
    bm_put_u16, bm_put_u8, bm_split_to, bytes_mut_view, bytes_view, read_be16,
};
use crate::error::{TlsError, TlsErrorView, TlsResult};
use crate::message::handshake::extensions::authorities::{
    CertificateAuthoritiesPayload, CertificateAuthoritiesPayloadView,
};
use crate::message::handshake::extensions::oid_filter::{OidFiltersPayload, OidFiltersPayloadView};
use crate::message::handshake::extensions::sig_algo_cert::{
    SignatureAlgorithmsCertPayload, SignatureAlgorithmsCertPayloadView,
};
use crate::message::handshake::extensions::sig_scheme::{
    SignatureAlgorithmsPayload, SignatureAlgorithmsPayloadView,
};
use crate::message::serialize::{
    Serialize, SpecResult, decoded_as, encode_list, lemma_views_push, prepend, spec_encode_list,
    views,
};
use crate::seqs::is_suffix;

verus! {

broadcast use crate::seqs::group_codec;

/// A certificate request: the context that the answer echoes, after an 8-bit
/// byte count, and the extensions, after a 16-bit byte count.
#[derive(Debug, Clone, PartialEq, Eq)]
pub struct CertificateRequestPayload {
    pub certificate_request_context: Bytes,  // length u8
    pub extensions: Vec<CertificateRequestExtension>,  // length u16
}

pub struct CertificateRequestPayloadView {
    pub certificate_request_context: Seq<u8>,
    pub extensions: Seq<CertificateRequestExtensionView>,
}

impl View for CertificateRequestPayload {
    type V = CertificateRequestPayloadView;

    open spec fn view(&self) -> CertificateRequestPayloadView {
        CertificateRequestPayloadView {
            certificate_request_context: bytes_view(self.certificate_request_context),
            extensions: views(self.extensions@),
        }
    }
}

/// What reading one extension of a request finds: its type, and then its
/// payload straight after it.
pub open spec fn spec_decode_request_ext(s: Seq<u8>) -> SpecResult<CertificateRequestExtensionView> {
    if s.len() < 2 {
        Err(TlsErrorView::Incomplete((2 - s.len()) as usize))
    } else {
        match CertificateRequestExtensionType::spec_from_code(read_be16(s, 0)) {
            Err(e) => Err(e@),
            Ok(extension_type) => match spec_decode_request_payload(extension_type, s.skip(2)) {
                Ok((payload, rest)) => Ok((CertificateRequestExtensionView { extension_type, payload }, rest)),
                Err(e) => Err(e),
            },
        }
    }
}

/// Reading the extensions of a request until the bytes run out.
pub open spec fn spec_decode_request_exts(s: Seq<u8>) -> Result<Seq<CertificateRequestExtensionView>, TlsErrorView>
    decreases s.len(),
{
    if s.len() == 0 {
        Ok(Seq::empty())
    } else {
        match spec_decode_request_ext(s) {
            Err(e) => Err(e),
            Ok((v, rest)) => if rest.len() < s.len() {
                prepend(seq![v], spec_decode_request_exts(rest))
            } else {
                Ok(seq![v])
            },
        }
    }
}

/// Reading one extension of a request reads a prefix of the input, and at
/// least one byte.
pub proof fn lemma_request_ext_suffix(s: Seq<u8>)
    ensures
        spec_decode_request_ext(s) matches Ok((v, rest)) ==> is_suffix(rest, s) && rest.len() < s.len(),
{
    if s.len() >= 2 {
        if let Ok(ty) = CertificateRequestExtensionType::spec_from_code(read_be16(s, 0)) {
            lemma_request_payload_suffix(ty, s.skip(2));
        }
    }
}

/// Reads the extensions of a request, each its type and then its payload,
/// until `buf` is empty.
fn decode_request_exts(buf: &mut BytesMut) -> (res: TlsResult<Vec<CertificateRequestExtension>>)
    ensures
        match spec_decode_request_exts(bytes_mut_view(*old(buf))) {
            Ok(vs) => res matches Ok(xs) && views(xs@) == vs,
            Err(e) => res matches Err(x) && x@ == e,
        },
{
    let mut out: Vec<CertificateRequestExtension> = Vec::new();
    assert(views(out@) =~= Seq::<CertificateRequestExtensionView>::empty());
    assert(Seq::<CertificateRequestExtensionView>::empty() + Seq::<CertificateRequestExtensionView>::empty()
        =~= Seq::<CertificateRequestExtensionView>::empty());
    while bm_len(buf) > 0
        invariant
            spec_decode_request_exts(bytes_mut_view(*old(buf))) == prepend(
                views(out@),
                spec_decode_request_exts(bytes_mut_view(*buf)),
            ),
        decreases bytes_mut_view(*buf).len(),
    {
        let ghost before = bytes_mut_view(*buf);
        let ghost done = views(out@);
        proof {
            lemma_request_ext_suffix(before);
        }
        let remaining = bm_len(buf);
        if remaining < 2 {
            return Err(TlsError::Incomplete(2 - remaining));
        }
        let extension_type = CertificateRequestExtensionType::try_from(bm_get_u16(buf))?;
        let payload = CertificateRequestExtensionPayload::decode_payload(extension_type, buf)?;
        let x = CertificateRequestExtension { extension_type, payload };
        proof {
            lemma_views_push(out@, x);
            let v = x@;
            let r = spec_decode_request_exts(bytes_mut_view(*buf));
            assert(prepend(done, prepend(seq![v], r)) == prepend(done.push(v), r)) by {
                if let Ok(vs) = r {
                    assert(done + (seq![v] + vs) =~= done.push(v) + vs);
                }
            }
        }
        out.push(x);
    }
    proof {
        assert(views(out@) + Seq::<CertificateRequestExtensionView>::empty() =~= views(out@));
    }
    Ok(out)
}

impl Serialize for CertificateRequestPayload {
    open spec fn spec_encode(v: CertificateRequestPayloadView) -> Seq<u8> {
        seq![v.certificate_request_context.len() as u8] + v.certificate_request_context + be16(
            spec_encode_list::<CertificateRequestExtension>(v.extensions).len() as u16,
        ) + spec_encode_list::<CertificateRequestExtension>(v.extensions)
    }

    open spec fn spec_decode(s: Seq<u8>) -> SpecResult<CertificateRequestPayloadView> {
        if s.len() < 1 {
            Err(TlsErrorView::Incomplete((1 - s.len()) as usize))
        } else {
            let n = s[0] as int;
            let t = s.skip(1);
            if t.len() < n + 2 {
                Err(TlsErrorView::Incomplete((n + 2 - t.len()) as usize))
            } else {
                let m = read_be16(t, n) as int;
                let u = t.skip(n + 2);
                if u.len() < m {
                    Err(TlsErrorView::Incomplete((m - u.len()) as usize))
                } else {
                    match spec_decode_request_exts(u.take(m)) {
                        Ok(extensions) => Ok((
                            CertificateRequestPayloadView { certificate_request_context: t.take(n), extensions },
                            u.skip(m),
                        )),
                        Err(e) => Err(e),
                    }
                }
            }
        }
    }

    /// The requests that are read back as written: those without extensions
    /// (each extension is written with a byte count after its type, which
    /// the request's reader does not expect).
    open spec fn spec_wf(v: CertificateRequestPayloadView) -> bool {
        v.certificate_request_context.len() <= 0xFF && v.extensions.len() == 0
    }

    open spec fn spec_self_delimiting() -> bool {
        true
    }

    open spec fn spec_consumes() -> bool {
        true
    }

    proof fn lemma_decode_suffix(s: Seq<u8>) {
    }

    proof fn lemma_roundtrip(v: CertificateRequestPayloadView, rest: Seq<u8>) {
        let c = v.certificate_request_context;
        assert(v.extensions =~= Seq::<CertificateRequestExtensionView>::empty());
        let s = Self::spec_encode(v) + rest;
        assert(s[0] == c.len() as u8);
        let t = s.skip(1);
        assert(t =~= c + (be16(0) + rest));
        assert(t.take(c.len() as int) =~= c);
        assert(t.skip(c.len() as int + 2) =~= rest);
        assert(rest.take(0) =~= Seq::<u8>::empty());
        assert(rest.skip(0) =~= rest);
    }

    fn encode(&self, buf: &mut BytesMut) {
        let context = b_as_slice(&self.certificate_request_context);
        bm_put_u8(buf, context.len() as u8);
        bm_put_slice(buf, context);
        let mut inner = bm_new();
        encode_list(&self.extensions, &mut inner);
        bm_put_u16(buf, bm_len(&inner) as u16);
        bm_put_slice(buf, bm_as_slice(&inner));
        assert(bytes_mut_view(*buf) =~= bytes_mut_view(*old(buf)) + Self::spec_encode(self@));
    }

    fn decode(buf: &mut BytesMut) -> (res: TlsResult<Self>) {
        let remaining = bm_len(buf);
        if remaining < 1 {
            return Err(TlsError::Incomplete(1 - remaining));
        }
        let ctx_len = bm_get_u8(buf) as usize;
        let ghost t = bytes_mut_view(*buf);
        let remaining = bm_len(buf);
        if remaining < ctx_len + 2 {
            return Err(TlsError::Incomplete(ctx_len + 2 - remaining));
        }
        let certificate_request_context = bm_freeze(bm_split_to(buf, ctx_len));
        assert(read_be16(bytes_mut_view(*buf), 0) == read_be16(t, ctx_len as int));
        let ext_len = bm_get_u16(buf) as usize;
        let remaining = bm_len(buf);
        if remaining < ext_len {
            return Err(TlsError::Incomplete(ext_len - remaining));
        }
        let mut ext_buf = bm_split_to(buf, ext_len);
        let extensions = decode_request_exts(&mut ext_buf)?;
        Ok(CertificateRequestPayload { certificate_request_context, extensions })
    }
}

/// An extension of a certificate request: its type and its payload.
#[derive(Debug, Clone, PartialEq, Eq)]
pub struct CertificateRequestExtension {
    pub extension_type: CertificateRequestExtensionType,
    pub payload: CertificateRequestExtensionPayload,
}

pub struct CertificateRequestExtensionView {
    pub extension_type: CertificateRequestExtensionType,
    pub payload: CertificateRequestExtensionPayloadView,
}

impl View for CertificateRequestExtension {
    type V = CertificateRequestExtensionView;

    open spec fn view(&self) -> CertificateRequestExtensionView {
        CertificateRequestExtensionView { extension_type: self.extension_type, payload: self.payload@ }
    }
}

impl Serialize for CertificateRequestExtension {
    open spec fn spec_encode(v: CertificateRequestExtensionView) -> Seq<u8> {
        be16(v.extension_type.spec_code()) + be16(spec_encode_request_payload(v.payload).len() as u16)
            + spec_encode_request_payload(v.payload)
    }

    open spec fn spec_decode(s: Seq<u8>) -> SpecResult<CertificateRequestExtensionView> {
        if s.len() < 4 {
            Err(TlsErrorView::Incomplete((4 - s.len()) as usize))
        } else {
            match CertificateRequestExtensionType::spec_from_code(read_be16(s, 0)) {
                Err(e) => Err(e@),
                Ok(extension_type) => {
                    let n = read_be16(s, 2) as int;
                    let t = s.skip(4);
                    if t.len() < n {
                        Err(TlsErrorView::Incomplete((n - t.len()) as usize))
                    } else {
                        match spec_decode_request_payload(extension_type, t.take(n)) {
                            Ok((payload, _)) => Ok((CertificateRequestExtensionView { extension_type, payload }, t.skip(n))),
                            Err(e) => Err(e),
                        }
                    }
                },
            }
        }
    }

    open spec fn spec_wf(v: CertificateRequestExtensionView) -> bool {
        &&& request_payload_fits(v.extension_type, v.payload)
        &&& spec_encode_request_payload(v.payload).len() <= 0xFFFF
    }

    open spec fn spec_self_delimiting() -> bool {
        true
    }

    open spec fn spec_consumes() -> bool {
        true
    }

    proof fn lemma_decode_suffix(s: Seq<u8>) {
    }

    proof fn lemma_roundtrip(v: CertificateRequestExtensionView, rest: Seq<u8>) {
        v.extension_type.lemma_code_roundtrip(0);
        let p = spec_encode_request_payload(v.payload);
        let s = Self::spec_encode(v) + rest;
        assert(s.skip(4) =~= p + rest);
        assert((p + rest).take(p.len() as int) =~= p);
        assert((p + rest).skip(p.len() as int) =~= rest);
        lemma_request_payload_roundtrip(v.extension_type, v.payload);
    }

    fn encode(&self, buf: &mut BytesMut) {
        bm_put_u16(buf, self.extension_type.code());
        let mut inner = bm_new();
        self.payload.encode_payload(&mut inner);
        bm_put_u16(buf, bm_len(&inner) as u16);
        bm_put_slice(buf, bm_as_slice(&inner));
        assert(bytes_mut_view(*buf) =~= bytes_mut_view(*old(buf)) + Self::spec_encode(self@));
    }

    fn decode(buf: &mut BytesMut) -> (res: TlsResult<Self>) {
        let remaining = bm_len(buf);
        if remaining < 4 {
            return Err(TlsError::Incomplete(4 - remaining));
        }
        let extension_type = CertificateRequestExtensionType::try_from(bm_get_u16(buf))?;
        let length = bm_get_u16(buf) as usize;
        let remaining = bm_len(buf);
        if remaining < length {
            return Err(TlsError::Incomplete(length - remaining));
        }
        let mut data_buf = bm_split_to(buf, length);
        let payload = CertificateRequestExtensionPayload::decode_payload(extension_type, &mut data_buf)?;
        Ok(Self { extension_type, payload })
    }
}

/// The type of a certificate request's extension.
#[derive(Debug, Clone, Copy, PartialEq, Eq, Structural)]
pub enum CertificateRequestExtensionType {
    SignatureAlgorithms,
    CertificateAuthorities,
    OidFilters,
    SignatureAlgorithmsCert,
}

impl CertificateRequestExtensionType {
    /// The code that stands for the value on the wire.
    pub open spec fn spec_code(self) -> u16 {
        match self {
            CertificateRequestExtensionType::SignatureAlgorithms => 0x000D,
            CertificateRequestExtensionType::CertificateAuthorities => 0x002F,
            CertificateRequestExtensionType::OidFilters => 0x0030,
            CertificateRequestExtensionType::SignatureAlgorithmsCert => 0x0032,
        }
    }

    /// The value that a code stands for, or the error for a code that stands for none.
    pub open spec fn spec_from_code(v: u16) -> Result<CertificateRequestExtensionType, TlsError> {
        match v {
            0x000D => Ok(CertificateRequestExtensionType::SignatureAlgorithms),
            0x002F => Ok(CertificateRequestExtensionType::CertificateAuthorities),
            0x0030 => Ok(CertificateRequestExtensionType::OidFilters),
            0x0032 => Ok(CertificateRequestExtensionType::SignatureAlgorithmsCert),
            _ => Err(TlsError::Unknown("certificate request extension")),
        }
    }

    /// The wire codes of the named values, as the protocol's registry fixes
    /// them: each value is written as its number, and a code is read as that
    /// value exactly when it is that number.
    pub proof fn lemma_wire_codes(c: u16)
        ensures
            CertificateRequestExtensionType::SignatureAlgorithms.spec_code() == 0x000D,
            CertificateRequestExtensionType::CertificateAuthorities.spec_code() == 0x002F,
            CertificateRequestExtensionType::OidFilters.spec_code() == 0x0030,
            CertificateRequestExtensionType::SignatureAlgorithmsCert.spec_code() == 0x0032,
            (CertificateRequestExtensionType::spec_from_code(c) == Ok::<_, TlsError>(CertificateRequestExtensionType::SignatureAlgorithms)) <==> c == 0x000D,
            (CertificateRequestExtensionType::spec_from_code(c) == Ok::<_, TlsError>(CertificateRequestExtensionType::CertificateAuthorities)) <==> c == 0x002F,
            (CertificateRequestExtensionType::spec_from_code(c) == Ok::<_, TlsError>(CertificateRequestExtensionType::OidFilters)) <==> c == 0x0030,
            (CertificateRequestExtensionType::spec_from_code(c) == Ok::<_, TlsError>(CertificateRequestExtensionType::SignatureAlgorithmsCert)) <==> c == 0x0032,
    {
    }

    /// A value written as its code is read back as itself, and a code that
    /// is read as a value is that value's code.
    pub proof fn lemma_code_roundtrip(self, v: u16)
        ensures
            CertificateRequestExtensionType::spec_from_code(self.spec_code()) == Ok::<_, TlsError>(self),
            CertificateRequestExtensionType::spec_from_code(v) matches Ok(x) ==> x.spec_code() == v,
    {
    }

    /// The code that stands for the value on the wire.
    pub fn code(self) -> (res: u16)
        ensures
            res == self.spec_code(),
    {
        match self {
            CertificateRequestExtensionType::SignatureAlgorithms => 0x000D,
            CertificateRequestExtensionType::CertificateAuthorities => 0x002F,
            CertificateRequestExtensionType::OidFilters => 0x0030,
            CertificateRequestExtensionType::SignatureAlgorithmsCert => 0x0032,
        }
    }

    /// The value that a code stands for, or the error for a code that stands for none.
    pub fn try_from(value: u16) -> (res: Result<Self, TlsError>)
        ensures
            res == CertificateRequestExtensionType::spec_from_code(value),
    {
        match value {
            0x000D => Ok(CertificateRequestExtensionType::SignatureAlgorithms),
            0x002F => Ok(CertificateRequestExtensionType::CertificateAuthorities),
            0x0030 => Ok(CertificateRequestExtensionType::OidFilters),
            0x0032 => Ok(CertificateRequestExtensionType::SignatureAlgorithmsCert),
            _ => Err(TlsError::Unknown("certificate request extension")),
        }
    }
}

/// The payload of a certificate request's extension.
#[derive(Debug, Clone, PartialEq, Eq)]
pub enum CertificateRequestExtensionPayload {
    SignatureAlgorithms(SignatureAlgorithmsPayload),
    CertificateAuthorities(CertificateAuthoritiesPayload),
    OidFilters(OidFiltersPayload),
    SignatureAlgorithmsCert(SignatureAlgorithmsCertPayload),
}

pub enum CertificateRequestExtensionPayloadView {
    SignatureAlgorithms(SignatureAlgorithmsPayloadView),
    CertificateAuthorities(CertificateAuthoritiesPayloadView),
    OidFilters(OidFiltersPayloadView),
    SignatureAlgorithmsCert(SignatureAlgorithmsCertPayloadView),
}

impl View for CertificateRequestExtensionPayload {
    type V = CertificateRequestExtensionPayloadView;

    open spec fn view(&self) -> CertificateRequestExtensionPayloadView {
        match self {
            CertificateRequestExtensionPayload::SignatureAlgorithms(p) =>
                CertificateRequestExtensionPayloadView::SignatureAlgorithms(p@),
            CertificateRequestExtensionPayload::CertificateAuthorities(p) =>
                CertificateRequestExtensionPayloadView::CertificateAuthorities(p@),
            CertificateRequestExtensionPayload::OidFilters(p) => CertificateRequestExtensionPayloadView::OidFilters(p@),
            CertificateRequestExtensionPayload::SignatureAlgorithmsCert(p) =>
                CertificateRequestExtensionPayloadView::SignatureAlgorithmsCert(p@),
        }
    }
}

/// The encoding of a request extension's payload.
#[verifier::opaque]
pub open spec fn spec_encode_request_payload(p: CertificateRequestExtensionPayloadView) -> Seq<u8> {
    match p {
        CertificateRequestExtensionPayloadView::SignatureAlgorithms(q) => SignatureAlgorithmsPayload::spec_encode(q),
        CertificateRequestExtensionPayloadView::CertificateAuthorities(q) => CertificateAuthoritiesPayload::spec_encode(q),
        CertificateRequestExtensionPayloadView::OidFilters(q) => OidFiltersPayload::spec_encode(q),
        CertificateRequestExtensionPayloadView::SignatureAlgorithmsCert(q) => SignatureAlgorithmsCertPayload::spec_encode(q),
    }
}

/// What decoding the payload of a request extension of the given type finds.
#[verifier::opaque]
pub open spec fn spec_decode_request_payload(ty: CertificateRequestExtensionType, s: Seq<u8>) -> SpecResult<
    CertificateRequestExtensionPayloadView,
> {
    match ty {
        CertificateRequestExtensionType::SignatureAlgorithms => match SignatureAlgorithmsPayload::spec_decode(s) {
            Ok((q, rest)) => Ok((CertificateRequestExtensionPayloadView::SignatureAlgorithms(q), rest)),
            Err(e) => Err(e),
        },
        CertificateRequestExtensionType::CertificateAuthorities => match CertificateAuthoritiesPayload::spec_decode(s) {
            Ok((q, rest)) => Ok((CertificateRequestExtensionPayloadView::CertificateAuthorities(q), rest)),
            Err(e) => Err(e),
        },
        CertificateRequestExtensionType::OidFilters => match OidFiltersPayload::spec_decode(s) {
            Ok((q, rest)) => Ok((CertificateRequestExtensionPayloadView::OidFilters(q), rest)),
            Err(e) => Err(e),
        },
        CertificateRequestExtensionType::SignatureAlgorithmsCert => match SignatureAlgorithmsCertPayload::spec_decode(s) {
            Ok((q, rest)) => Ok((CertificateRequestExtensionPayloadView::SignatureAlgorithmsCert(q), rest)),
            Err(e) => Err(e),
        },
    }
}

/// The payload is of the given type and is read back as written.
pub open spec fn request_payload_fits(ty: CertificateRequestExtensionType, p: CertificateRequestExtensionPayloadView) -> bool {
    match p {
        CertificateRequestExtensionPayloadView::SignatureAlgorithms(q) =>
            ty == CertificateRequestExtensionType::SignatureAlgorithms && SignatureAlgorithmsPayload::spec_wf(q),
        CertificateRequestExtensionPayloadView::CertificateAuthorities(q) =>
            ty == CertificateRequestExtensionType::CertificateAuthorities && CertificateAuthoritiesPayload::spec_wf(q),
        CertificateRequestExtensionPayloadView::OidFilters(q) =>
            ty == CertificateRequestExtensionType::OidFilters && OidFiltersPayload::spec_wf(q),
        CertificateRequestExtensionPayloadView::SignatureAlgorithmsCert(q) =>
            ty == CertificateRequestExtensionType::SignatureAlgorithmsCert && SignatureAlgorithmsCertPayload::spec_wf(q),
    }
}

/// Decoding a request extension's payload reads a prefix of the input, and
/// at least one byte.
pub proof fn lemma_request_payload_suffix(ty: CertificateRequestExtensionType, s: Seq<u8>)
    ensures
        spec_decode_request_payload(ty, s) matches Ok((v, rest)) ==> is_suffix(rest, s) && rest.len() < s.len(),
{
    reveal(spec_decode_request_payload);
    match ty {
        CertificateRequestExtensionType::SignatureAlgorithms => SignatureAlgorithmsPayload::lemma_decode_suffix(s),
        CertificateRequestExtensionType::CertificateAuthorities => CertificateAuthoritiesPayload::lemma_decode_suffix(s),
        CertificateRequestExtensionType::OidFilters => OidFiltersPayload::lemma_decode_suffix(s),
        CertificateRequestExtensionType::SignatureAlgorithmsCert => SignatureAlgorithmsCertPayload::lemma_decode_suffix(s),
    }
}

/// Decoding the encoding of a payload that fits its type gives it back.
pub proof fn lemma_request_payload_roundtrip(ty: CertificateRequestExtensionType, p: CertificateRequestExtensionPayloadView)
    requires
        request_payload_fits(ty, p),
    ensures
        spec_decode_request_payload(ty, spec_encode_request_payload(p)) matches Ok((q, _)) && q == p,
{
    reveal(spec_encode_request_payload);
    reveal(spec_decode_request_payload);
    let e = Seq::<u8>::empty();
    match p {
        CertificateRequestExtensionPayloadView::SignatureAlgorithms(q) => {
            SignatureAlgorithmsPayload::lemma_roundtrip(q, e);
            assert(SignatureAlgorithmsPayload::spec_encode(q) + e =~= SignatureAlgorithmsPayload::spec_encode(q));
        },
        CertificateRequestExtensionPayloadView::CertificateAuthorities(q) => {
            CertificateAuthoritiesPayload::lemma_roundtrip(q, e);
            assert(CertificateAuthoritiesPayload::spec_encode(q) + e =~= CertificateAuthoritiesPayload::spec_encode(q));
        },
        CertificateRequestExtensionPayloadView::OidFilters(q) => {
            OidFiltersPayload::lemma_roundtrip(q, e);
            assert(OidFiltersPayload::spec_encode(q) + e =~= OidFiltersPayload::spec_encode(q));
        },
        CertificateRequestExtensionPayloadView::SignatureAlgorithmsCert(q) => {
            SignatureAlgorithmsCertPayload::lemma_roundtrip(q, e);
            assert(SignatureAlgorithmsCertPayload::spec_encode(q) + e =~= SignatureAlgorithmsCertPayload::spec_encode(q));
        },
    }
}

impl CertificateRequestExtensionPayload {
    /// Appends the encoding of the payload.
    pub fn encode_payload(&self, buf: &mut BytesMut)
        requires
            bytes_mut_view(*old(buf)).len() + spec_encode_request_payload(self@).len() <= isize::MAX,
        ensures
            bytes_mut_view(*final(buf)) == bytes_mut_view(*old(buf)) + spec_encode_request_payload(self@),
    {
        reveal(spec_encode_request_payload);
        match self {
            CertificateRequestExtensionPayload::SignatureAlgorithms(p) => p.encode(buf),
            CertificateRequestExtensionPayload::CertificateAuthorities(p) => p.encode(buf),
            CertificateRequestExtensionPayload::OidFilters(p) => p.encode(buf),
            CertificateRequestExtensionPayload::SignatureAlgorithmsCert(p) => p.encode(buf),
        }
    }

    /// Reads the payload of an extension of the given type from the start of `buf`.
    pub fn decode_payload(extension_type: CertificateRequestExtensionType, buf: &mut BytesMut) -> (res: TlsResult<Self>)
        ensures
            decoded_as(spec_decode_request_payload(extension_type, bytes_mut_view(*old(buf))), res, bytes_mut_view(*final(buf))),
            is_suffix(bytes_mut_view(*final(buf)), bytes_mut_view(*old(buf))),
    {
        reveal(spec_decode_request_payload);
        match extension_type {
            CertificateRequestExtensionType::SignatureAlgorithms => Ok(
                CertificateRequestExtensionPayload::SignatureAlgorithms(SignatureAlgorithmsPayload::decode(buf)?),
            ),
            CertificateRequestExtensionType::CertificateAuthorities => Ok(
                CertificateRequestExtensionPayload::CertificateAuthorities(CertificateAuthoritiesPayload::decode(buf)?),
            ),
            CertificateRequestExtensionType::OidFilters => Ok(
                CertificateRequestExtensionPayload::OidFilters(OidFiltersPayload::decode(buf)?),
            ),
            CertificateRequestExtensionType::SignatureAlgorithmsCert => Ok(
                CertificateRequestExtensionPayload::SignatureAlgorithmsCert(SignatureAlgorithmsCertPayload::decode(buf)?),
            ),
        }
    }
}

} // verus!
