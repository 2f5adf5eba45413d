//! Certificate compression algorithms, and the `compress_certificate` extension.
use vstd::prelude::*;

use bytes::BytesMut;

use crate::error::{TlsError, TlsErrorView, TlsResult};
use crate::message::serialize::{
    Serialize, SpecResult, all_wf, decode_counted, encode_counted, lemma_counted_roundtrip,
    lemma_decode_n_suffix, spec_decode_counted, spec_encode_counted, spec_read_length, views,
};
use crate::buffer::{bm_get_u8, bm_len, bm_put_u8, bytes_mut_view};

verus! {

broadcast use crate::seqs::group_codec;

/// The certificate compression algorithms that a peer accepts.
#[derive(Debug, PartialEq, Eq)]
pub struct CompressCertificatePayload {
    pub algorithms: Vec<CompressionAlgorithm>,
}

pub struct CompressCertificatePayloadView {
    pub algorithms: Seq<CompressionAlgorithm>,
}

impl View for CompressCertificatePayload {
    type V = CompressCertificatePayloadView;

    open spec fn view(&self) -> CompressCertificatePayloadView {
        CompressCertificatePayloadView { algorithms: views(self.algorithms@) }
    }
}

impl Serialize for CompressCertificatePayload {
    open spec fn spec_encode(v: CompressCertificatePayloadView) -> Seq<u8> {
        spec_encode_counted::<CompressionAlgorithm>(v.algorithms, 1, 1)
    }

    open spec fn spec_decode(s: Seq<u8>) -> SpecResult<CompressCertificatePayloadView> {
        match spec_decode_counted::<CompressionAlgorithm>(s, 1, 1) {
            Ok((algorithms, rest)) => Ok((CompressCertificatePayloadView { algorithms }, rest)),
            Err(e) => Err(e),
        }
    }

    open spec fn spec_wf(v: CompressCertificatePayloadView) -> bool {
        all_wf::<CompressionAlgorithm>(v.algorithms) && v.algorithms.len() * 1 < 0x100
    }

    open spec fn spec_self_delimiting() -> bool {
        true
    }

    open spec fn spec_consumes() -> bool {
        true
    }

    proof fn lemma_decode_suffix(s: Seq<u8>) {
        lemma_decode_n_suffix::<CompressionAlgorithm>(s.skip(1), (spec_read_length(s, 1) / 1) as nat);
    }

    proof fn lemma_roundtrip(v: CompressCertificatePayloadView, rest: Seq<u8>) {
        lemma_counted_roundtrip::<CompressionAlgorithm>(v.algorithms, rest, 1, 1);
    }

    fn encode(&self, buf: &mut BytesMut) {
        encode_counted(&self.algorithms, buf, 1, 1);
    }

    fn decode(buf: &mut BytesMut) -> (res: TlsResult<Self>) {
        let algorithms = decode_counted::<CompressionAlgorithm>(buf, 1, 1)?;
        Ok(Self { algorithms })
    }
}

/// A certificate compression algorithm as it appears on the wire.
#[derive(Debug, Clone, Copy, PartialEq, Eq, Structural)]
pub enum CompressionAlgorithm {
    Zlib,
    Brotli,
    Unknown(u8),
}

impl CompressionAlgorithm {
    /// The code that stands for the value on the wire.
    pub open spec fn spec_code(self) -> u8 {
        match self {
            CompressionAlgorithm::Zlib => 0x01,
            CompressionAlgorithm::Brotli => 0x02,
            CompressionAlgorithm::Unknown(v) => v,
        }
    }

    /// The value that a code stands for.
    pub open spec fn spec_from_code(v: u8) -> CompressionAlgorithm {
        match v {
            0x01 => CompressionAlgorithm::Zlib,
            0x02 => CompressionAlgorithm::Brotli,
            _ => CompressionAlgorithm::Unknown(v),
        }
    }

    /// The wire codes of the named values, as the protocol's registry fixes
    /// them: each value is written as its number, and a code is read as that
    /// value exactly when it is that number.
    pub proof fn lemma_wire_codes(c: u8)
        ensures
            CompressionAlgorithm::Zlib.spec_code() == 0x01,
            CompressionAlgorithm::Brotli.spec_code() == 0x02,
            (CompressionAlgorithm::spec_from_code(c) == CompressionAlgorithm::Zlib) <==> c == 0x01,
            (CompressionAlgorithm::spec_from_code(c) == CompressionAlgorithm::Brotli) <==> c == 0x02,
    {
    }

    /// The values that are read back as written: those whose code is not
    /// taken by another variant.
    pub open spec fn spec_canonical(self) -> bool {
        CompressionAlgorithm::spec_from_code(self.spec_code()) == self
    }

    /// Every code is read as a value whose code it is; a value that is not
    /// `Unknown` with a code of another variant is read back as itself.
    pub proof fn lemma_code_roundtrip(self, v: u8)
        ensures
            CompressionAlgorithm::spec_from_code(v).spec_code() == v,
            CompressionAlgorithm::spec_from_code(v).spec_canonical(),
            self.spec_canonical() <==> match self {
                CompressionAlgorithm::Unknown(u) => CompressionAlgorithm::spec_from_code(u) is Unknown,
                _ => true,
            },
    {
    }
}

impl View for CompressionAlgorithm {
    type V = CompressionAlgorithm;

    open spec fn view(&self) -> CompressionAlgorithm {
        *self
    }
}

impl CompressionAlgorithm {
    /// The code that stands for the value on the wire.
    pub fn code(self) -> (res: u8)
        ensures
            res == self.spec_code(),
    {
        match self {
            CompressionAlgorithm::Zlib => 0x01,
            CompressionAlgorithm::Brotli => 0x02,
            CompressionAlgorithm::Unknown(v) => v,
        }
    }

    /// The value that a code stands for; this never fails.
    pub fn try_from(value: u8) -> (res: Result<Self, TlsError>)
        ensures
            res == Ok::<_, TlsError>(CompressionAlgorithm::spec_from_code(value)),
    {
        match value {
            0x01 => Ok(CompressionAlgorithm::Zlib),
            0x02 => Ok(CompressionAlgorithm::Brotli),
            _ => Ok(CompressionAlgorithm::Unknown(value)),
        }
    }
}

impl Serialize for CompressionAlgorithm {
    open spec fn spec_encode(v: CompressionAlgorithm) -> Seq<u8> {
        seq![v.spec_code()]
    }

    open spec fn spec_decode(s: Seq<u8>) -> SpecResult<CompressionAlgorithm> {
        if s.len() < 1 {
            Err(TlsErrorView::Incomplete((1 - s.len()) as usize))
        } else {
            Ok((CompressionAlgorithm::spec_from_code(s[0]), s.skip(1)))
        }
    }

    open spec fn spec_wf(v: CompressionAlgorithm) -> bool {
        v.spec_canonical()
    }

    open spec fn spec_self_delimiting() -> bool {
        true
    }

    open spec fn spec_consumes() -> bool {
        true
    }

    proof fn lemma_decode_suffix(s: Seq<u8>) {
    }

    proof fn lemma_roundtrip(v: CompressionAlgorithm, rest: Seq<u8>) {
        v.lemma_code_roundtrip(0);
        let s = Self::spec_encode(v) + rest;
        assert(s.skip(1) =~= rest);
    }

    fn encode(&self, buf: &mut BytesMut) {
        bm_put_u8(buf, self.code());
        assert(bytes_mut_view(*buf) =~= bytes_mut_view(*old(buf)) + Self::spec_encode(self@));
    }

    fn decode(buf: &mut BytesMut) -> (res: TlsResult<Self>) {
        let remaining = bm_len(buf);
        if remaining < 1 {
            return Err(TlsError::Incomplete(1 - remaining));
        }
        CompressionAlgorithm::try_from(bm_get_u8(buf))
    }
}

impl CompressionAlgorithm {
    /// The algorithm as one that this library implements, if it is one.
    pub fn to_supported(&self) -> (res: Option<SupportedCompressionAlgorithm>)
        ensures
            res == self.to_supported_spec(),
    {
        match self {
            CompressionAlgorithm::Zlib => Some(SupportedCompressionAlgorithm::Zlib),
            CompressionAlgorithm::Brotli => Some(SupportedCompressionAlgorithm::Brotli),
            _ => None,
        }
    }

    /// What `to_supported` returns.
    pub open spec fn to_supported_spec(self) -> Option<SupportedCompressionAlgorithm> {
        match self {
            CompressionAlgorithm::Zlib => Some(SupportedCompressionAlgorithm::Zlib),
            CompressionAlgorithm::Brotli => Some(SupportedCompressionAlgorithm::Brotli),
            _ => None,
        }
    }
}

/// The certificate compression algorithms that this library implements.
#[derive(Debug, Clone, Copy, PartialEq, Eq, Structural)]
pub enum SupportedCompressionAlgorithm {
    Zlib,
    Brotli,
}

impl SupportedCompressionAlgorithm {
    /// The algorithm's code point.
    pub fn to_unsupported(&self) -> (res: CompressionAlgorithm)
        ensures
            res == self.to_unsupported_spec(),
    {
        match self {
            SupportedCompressionAlgorithm::Zlib => CompressionAlgorithm::Zlib,
            SupportedCompressionAlgorithm::Brotli => CompressionAlgorithm::Brotli,
        }
    }

    /// What `to_unsupported` returns.
    pub open spec fn to_unsupported_spec(self) -> CompressionAlgorithm {
        match self {
            SupportedCompressionAlgorithm::Zlib => CompressionAlgorithm::Zlib,
            SupportedCompressionAlgorithm::Brotli => CompressionAlgorithm::Brotli,
        }
    }

    /// A supported algorithm is found again from its code point, and a code
    /// point has a supported algorithm exactly when it is one's code point.
    pub proof fn lemma_supported_roundtrip(self, a: CompressionAlgorithm)
        ensures
            self.to_unsupported_spec().to_supported_spec() == Some(self),
            a.to_supported_spec() matches Some(x) ==> x.to_unsupported_spec() == a,
    {
    }

    /// The supported algorithm that `algorithm` is, if it is one.
    pub fn compare(&self, algorithm: &CompressionAlgorithm) -> (res: Option<SupportedCompressionAlgorithm>)
        ensures
            res == algorithm.to_supported_spec(),
    {
        algorithm.to_supported()
    }
}

} // verus!
