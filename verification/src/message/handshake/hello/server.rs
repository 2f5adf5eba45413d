//! The `ServerHello` handshake message, which also serves as the hello
//! retry request when its random value is the special one.
use vstd::prelude::*;

use bytes::{Bytes, BytesMut};

use crate::buffer::{
    b_as_slice, be16, bm_freeze, bm_get_u16, bm_get_u8, bm_len, bm_put_slice, bm_put_u16, bm_put_u8,
    bm_split_to, bytes_mut_view, bytes_view, read_be16,
};
use crate::error::{TlsError, TlsErrorView, TlsResult};
use crate::message::alert::AlertDescription;
use crate::message::handshake::extensions::extension::{Extension, ExtensionView};
use crate::message::handshake::hello::cipher_suite::CipherSuite;
use crate::message::handshake::hello::compression_method::CompressionMethod;
use crate::message::serialize::{
    Serialize, SpecResult, all_wf, decode_list16, encode_list16, lemma_list16_roundtrip,
    spec_decode_list16, spec_encode_list, spec_prefixed16, take_array, views,
};
use crate::message::version::Version;
use crate::seqs::bytes_eq;

verus! {

broadcast use crate::seqs::group_codec;

/// A server hello: the legacy version, 32 random bytes, the echoed session
/// id (8-bit count), the chosen cipher suite and compression method, and
/// the extensions (16-bit count); `is_hrr` says whether the random value
/// marks a hello retry request (it is not written).
#[derive(Debug, PartialEq, Eq)]
pub struct ServerHelloPayload {
    pub legacy_version: Version,
    pub random: [u8; 32],
    pub legacy_session_id_echo: Bytes,  // length = u8
    pub cipher_suite: CipherSuite,
    pub legacy_compression_method: CompressionMethod,
    pub extensions: Vec<Extension>,  // length = u16
    pub is_hrr: bool,
}

pub struct ServerHelloPayloadView {
    pub legacy_version: Version,
    pub random: Seq<u8>,
    pub legacy_session_id_echo: Seq<u8>,
    pub cipher_suite: CipherSuite,
    pub legacy_compression_method: CompressionMethod,
    pub extensions: Seq<ExtensionView>,
    pub is_hrr: bool,
}

impl View for ServerHelloPayload {
    type V = ServerHelloPayloadView;

    open spec fn view(&self) -> ServerHelloPayloadView {
        ServerHelloPayloadView {
            legacy_version: self.legacy_version,
            random: self.random@,
            legacy_session_id_echo: bytes_view(self.legacy_session_id_echo),
            cipher_suite: self.cipher_suite,
            legacy_compression_method: self.legacy_compression_method,
            extensions: views(self.extensions@),
            is_hrr: self.is_hrr,
        }
    }
}

/// The random value that marks a hello retry request (RFC 8446, 4.1.3).
pub const HRR_RANDOM: [u8; 32] = [
    0xCF, 0x21, 0xAD, 0x74, 0xE5, 0x9A, 0x61, 0x11,
    0xBE, 0x1D, 0x8C, 0x02, 0x1E, 0x65, 0xB8, 0x91,
    0xC2, 0xA2, 0x11, 0x16, 0x7A, 0xBB, 0x8C, 0x5E,
    0x07, 0x9E, 0x09, 0xE2, 0xC8, 0xA8, 0x33, 0x9C,
];

/// Whether a server's random value is the one that marks a hello retry request.
fn is_hello_retry_request(hello_random: &[u8; 32]) -> (res: bool)
    ensures
        res == (hello_random@ == HRR_RANDOM@),
{
    let hrr: &[u8] = &HRR_RANDOM;
    let random: &[u8] = hello_random;
    bytes_eq(random, hrr)
}

impl Serialize for ServerHelloPayload {
    open spec fn spec_encode(v: ServerHelloPayloadView) -> Seq<u8> {
        be16(v.legacy_version.spec_code()) + v.random + seq![v.legacy_session_id_echo.len() as u8]
            + v.legacy_session_id_echo + be16(v.cipher_suite.spec_code()) + seq![
            v.legacy_compression_method.spec_code(),
        ] + spec_prefixed16(spec_encode_list::<Extension>(v.extensions))
    }

    open spec fn spec_decode(s: Seq<u8>) -> SpecResult<ServerHelloPayloadView> {
        if s.len() < 35 {
            Err(TlsErrorView::Incomplete((35 - s.len()) as usize))
        } else {
            let random = s.subrange(2, 34);
            let n = s[34] as int;
            let t = s.skip(35);
            if n > 32 {
                Err(TlsErrorView::Alert(AlertDescription::HandshakeFailure))
            } else if t.len() < n + 2 {
                Err(TlsErrorView::Incomplete((n + 2 - t.len()) as usize))
            } else {
                let u = t.skip(n + 2);
                if u.len() < 1 {
                    Err(TlsErrorView::Incomplete((1 - u.len()) as usize))
                } else {
                    match CompressionMethod::spec_from_code(u[0]) {
                        Err(e) => Err(e@),
                        Ok(legacy_compression_method) => match spec_decode_list16::<Extension>(u.skip(1)) {
                            Err(e) => Err(e),
                            Ok((extensions, rest)) => Ok((
                                ServerHelloPayloadView {
                                    legacy_version: Version::spec_from_code(read_be16(s, 0)),
                                    random,
                                    legacy_session_id_echo: t.take(n),
                                    cipher_suite: CipherSuite::spec_from_code(read_be16(t, n)),
                                    legacy_compression_method,
                                    extensions,
                                    is_hrr: random == HRR_RANDOM@,
                                },
                                rest,
                            )),
                        },
                    }
                }
            }
        }
    }

    open spec fn spec_wf(v: ServerHelloPayloadView) -> bool {
        &&& v.legacy_version.spec_canonical()
        &&& v.random.len() == 32
        &&& v.is_hrr == (v.random == HRR_RANDOM@)
        &&& v.legacy_session_id_echo.len() <= 32
        &&& v.cipher_suite.spec_canonical()
        &&& all_wf::<Extension>(v.extensions)
        &&& spec_encode_list::<Extension>(v.extensions).len() <= 0xFFFF
    }

    open spec fn spec_self_delimiting() -> bool {
        true
    }

    open spec fn spec_consumes() -> bool {
        true
    }

    proof fn lemma_decode_suffix(s: Seq<u8>) {
    }

    #[verifier::spinoff_prover]
    #[verifier::rlimit(60)]
    proof fn lemma_roundtrip(v: ServerHelloPayloadView, rest: Seq<u8>) {
        v.legacy_version.lemma_code_roundtrip(0);
        v.cipher_suite.lemma_code_roundtrip(0);
        v.legacy_compression_method.lemma_code_roundtrip(0);
        let sid = v.legacy_session_id_echo;
        let exts = spec_prefixed16(spec_encode_list::<Extension>(v.extensions));
        lemma_list16_roundtrip::<Extension>(v.extensions, rest);
        let s = Self::spec_encode(v) + rest;
        let tail = be16(v.cipher_suite.spec_code()) + (seq![v.legacy_compression_method.spec_code()] + (exts + rest));
        assert(s =~= be16(v.legacy_version.spec_code()) + (v.random + (seq![sid.len() as u8] + (sid + tail))));
        assert(read_be16(s, 0) == v.legacy_version.spec_code());
        assert(s.subrange(2, 34) =~= v.random);
        assert(s[34] == sid.len() as u8);
        let t = s.skip(35);
        assert(t =~= sid + tail);
        assert(t.take(sid.len() as int) =~= sid);
        assert(read_be16(t, sid.len() as int) == v.cipher_suite.spec_code());
        let u = t.skip(sid.len() as int + 2);
        assert(u =~= seq![v.legacy_compression_method.spec_code()] + (exts + rest));
        assert(u[0] == v.legacy_compression_method.spec_code());
        assert(u.skip(1) =~= exts + rest);
    }

    fn encode(&self, buf: &mut BytesMut) {
        bm_put_u16(buf, self.legacy_version.code());
        bm_put_slice(buf, &self.random);
        let sid = b_as_slice(&self.legacy_session_id_echo);
        bm_put_u8(buf, sid.len() as u8);
        bm_put_slice(buf, sid);
        bm_put_u16(buf, self.cipher_suite.code());
        bm_put_u8(buf, self.legacy_compression_method.code());
        encode_list16(&self.extensions, buf);
        assert(bytes_mut_view(*buf) =~= bytes_mut_view(*old(buf)) + Self::spec_encode(self@));
    }

    fn decode(buf: &mut BytesMut) -> (res: TlsResult<Self>) {
        let ghost s = bytes_mut_view(*buf);
        let remaining = bm_len(buf);
        if remaining < 35 {
            return Err(TlsError::Incomplete(35 - remaining));
        }
        let legacy_version = Version::try_from(bm_get_u16(buf))?;
        let random: [u8; 32] = take_array(buf);
        proof {
            assert(s.subrange(2, 34) =~= s.skip(2).take(32));
        }
        let is_hrr = is_hello_retry_request(&random);
        let legacy_session_id_echo_length = bm_get_u8(buf) as usize;
        let ghost t = bytes_mut_view(*buf);
        if legacy_session_id_echo_length > 32 {
            return Err(TlsError::Alert(AlertDescription::HandshakeFailure));
        }
        let remaining = bm_len(buf);
        if remaining < legacy_session_id_echo_length + 2 {
            return Err(TlsError::Incomplete(legacy_session_id_echo_length + 2 - remaining));
        }
        let legacy_session_id_echo = bm_freeze(bm_split_to(buf, legacy_session_id_echo_length));
        assert(read_be16(bytes_mut_view(*buf), 0) == read_be16(t, legacy_session_id_echo_length as int));
        let cipher_suite = CipherSuite::try_from(bm_get_u16(buf))?;
        let remaining = bm_len(buf);
        if remaining < 1 {
            return Err(TlsError::Incomplete(1 - remaining));
        }
        let legacy_compression_method = CompressionMethod::try_from(bm_get_u8(buf))?;
        let extensions = decode_list16::<Extension>(buf)?;
        Ok(Self {
            legacy_version,
            random,
            legacy_session_id_echo,
            cipher_suite,
            legacy_compression_method,
            extensions,
            is_hrr,
        })
    }
}

} // verus!
