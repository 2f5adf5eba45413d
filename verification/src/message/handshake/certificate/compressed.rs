//! The `CompressedCertificate` handshake message.
use vstd::prelude::*;

use bytes::{Bytes, BytesMut};

use crate::buffer::{
    b_as_slice, be24, bm_get_u8, bm_len, bm_put_slice, bm_put_u8, bytes_mut_view, bytes_view,
    get_u24, put_u24, read_be24, lemma_be24_roundtrip,
};
use crate::error::{TlsError, TlsErrorView, TlsResult};
use crate::message::handshake::extensions::compress_algo::CompressionAlgorithm;
use crate::message::serialize::{Serialize, SpecResult, take_array, take_bytes};

verus! {

broadcast use crate::seqs::group_codec;

/// A compressed certificate message: the algorithm, the length of the
/// uncompressed message as three bytes, and the compressed bytes after a
/// 24-bit byte count.
#[derive(Debug, Clone, PartialEq, Eq)]
pub struct CompressedCertificatePayload {
    pub algorithm: CompressionAlgorithm,
    pub uncompressed_length: [u8; 3],
    pub compressed_data: Bytes,  // 3 bytes len + data
}

pub struct CompressedCertificatePayloadView {
    pub algorithm: CompressionAlgorithm,
    pub uncompressed_length: Seq<u8>,
    pub compressed_data: Seq<u8>,
}

impl View for CompressedCertificatePayload {
    type V = CompressedCertificatePayloadView;

    open spec fn view(&self) -> CompressedCertificatePayloadView {
        CompressedCertificatePayloadView {
            algorithm: self.algorithm,
            uncompressed_length: self.uncompressed_length@,
            compressed_data: bytes_view(self.compressed_data),
        }
    }
}

impl Serialize for CompressedCertificatePayload {
    open spec fn spec_encode(v: CompressedCertificatePayloadView) -> Seq<u8> {
        seq![v.algorithm.spec_code()] + v.uncompressed_length + be24(v.compressed_data.len())
            + v.compressed_data
    }

    open spec fn spec_decode(s: Seq<u8>) -> SpecResult<CompressedCertificatePayloadView> {
        if s.len() < 7 {
            Err(TlsErrorView::Incomplete((7 - s.len()) as usize))
        } else {
            let n = read_be24(s, 4) as int;
            let t = s.skip(7);
            if t.len() < n {
                Err(TlsErrorView::Incomplete((n - t.len()) as usize))
            } else {
                Ok((
                    CompressedCertificatePayloadView {
                        algorithm: CompressionAlgorithm::spec_from_code(s[0]),
                        uncompressed_length: s.subrange(1, 4),
                        compressed_data: t.take(n),
                    },
                    t.skip(n),
                ))
            }
        }
    }

    open spec fn spec_wf(v: CompressedCertificatePayloadView) -> bool {
        &&& v.algorithm.spec_canonical()
        &&& v.uncompressed_length.len() == 3
        &&& v.compressed_data.len() < 0x100_0000
    }

    open spec fn spec_self_delimiting() -> bool {
        true
    }

    open spec fn spec_consumes() -> bool {
        true
    }

    proof fn lemma_decode_suffix(s: Seq<u8>) {
    }

    proof fn lemma_roundtrip(v: CompressedCertificatePayloadView, rest: Seq<u8>) {
        v.algorithm.lemma_code_roundtrip(0);
        lemma_be24_roundtrip(v.compressed_data.len());
        let b = v.compressed_data;
        let s = Self::spec_encode(v) + rest;
        assert(s[0] == v.algorithm.spec_code());
        assert(s.subrange(1, 4) =~= v.uncompressed_length);
        assert(s.skip(4) =~= be24(b.len()) + (b + rest));
        assert(read_be24(s, 4) == read_be24(s.skip(4), 0));
        assert(s.skip(7) =~= b + rest);
        assert((b + rest).take(b.len() as int) =~= b);
        assert((b + rest).skip(b.len() as int) =~= rest);
    }

    fn encode(&self, buf: &mut BytesMut) {
        bm_put_u8(buf, self.algorithm.code());
        bm_put_slice(buf, &self.uncompressed_length);
        let data = b_as_slice(&self.compressed_data);
        put_u24(buf, data.len());
        bm_put_slice(buf, data);
        assert(bytes_mut_view(*buf) =~= bytes_mut_view(*old(buf)) + Self::spec_encode(self@));
    }

    fn decode(buf: &mut BytesMut) -> (res: TlsResult<Self>) {
        let ghost s = bytes_mut_view(*buf);
        let remaining = bm_len(buf);
        if remaining < 7 {
            return Err(TlsError::Incomplete(7 - remaining));
        }
        let algorithm = CompressionAlgorithm::try_from(bm_get_u8(buf))?;
        let uncompressed_length: [u8; 3] = take_array(buf);
        proof {
            assert(s.subrange(1, 4) =~= s.skip(1).take(3));
            assert(read_be24(s, 4) == read_be24(s.skip(4), 0));
        }
        let certificate_length = get_u24(buf);
        let compressed_data = take_bytes(buf, certificate_length)?;
        Ok(Self { algorithm, uncompressed_length, compressed_data })
    }
}

} // verus!
