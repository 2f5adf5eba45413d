//! The `ClientHello` handshake message.
use vstd::prelude::*;

use bytes::{Bytes, BytesMut};

use crate::buffer::{
    b_as_slice, be16, bm_get_u16, bm_get_u8, bm_len, bm_put_slice, bm_put_u16, bm_put_u8,
    bytes_mut_view, bytes_view, read_be16,
};
use crate::error::{TlsError, TlsErrorView, TlsResult};
use crate::message::alert::AlertDescription;
use crate::message::handshake::extensions::extension::{Extension, ExtensionView};
use crate::message::handshake::hello::cipher_suite::CipherSuite;
use crate::message::handshake::hello::compression_method::CompressionMethod;
use crate::message::serialize::{
    Serialize, SpecResult, all_wf, decode_counted, decode_list16, encode_counted, encode_list16,
    lemma_counted_roundtrip, lemma_decode_n_suffix, lemma_list16_roundtrip, spec_decode_counted,
    spec_decode_list16, spec_encode_counted, spec_encode_list, spec_prefixed16, spec_read_length,
    take_array, take_bytes, views,
};
use crate::message::version::Version;

verus! {

broadcast use crate::seqs::group_codec;

/// A client hello: the legacy version, 32 random bytes, the legacy session
/// id (8-bit count), the cipher suites (16-bit count of bytes), the legacy
/// compression methods (8-bit count) and the extensions (16-bit count).
#[derive(Debug, PartialEq, Eq)]
pub struct ClientHelloPayload {
    pub legacy_version: Version,
    pub random: [u8; 32],
    pub legacy_session_id: Bytes,  // length = u8
    pub cipher_suites: Vec<CipherSuite>,  // length = u16
    pub legacy_compression_methods: Vec<CompressionMethod>,  // length = u8
    pub extensions: Vec<Extension>,  // length = u16
}

pub struct ClientHelloPayloadView {
    pub legacy_version: Version,
    pub random: Seq<u8>,
    pub legacy_session_id: Seq<u8>,
    pub cipher_suites: Seq<CipherSuite>,
    pub legacy_compression_methods: Seq<CompressionMethod>,
    pub extensions: Seq<ExtensionView>,
}

impl View for ClientHelloPayload {
    type V = ClientHelloPayloadView;

    open spec fn view(&self) -> ClientHelloPayloadView {
        ClientHelloPayloadView {
            legacy_version: self.legacy_version,
            random: self.random@,
            legacy_session_id: bytes_view(self.legacy_session_id),
            cipher_suites: views(self.cipher_suites@),
            legacy_compression_methods: views(self.legacy_compression_methods@),
            extensions: views(self.extensions@),
        }
    }
}

/// The lists that follow the session id: cipher suites, compression methods
/// and extensions, read one after another.
#[verifier::opaque]
pub open spec fn spec_decode_hello_lists(d: Seq<u8>) -> SpecResult<(Seq<CipherSuite>, Seq<CompressionMethod>, Seq<ExtensionView>)> {
    match spec_decode_counted::<CipherSuite>(d, 2, 2) {
        Err(e) => Err(e),
        Ok((cipher_suites, e)) => match spec_decode_counted::<CompressionMethod>(e, 1, 1) {
            Err(x) => Err(x),
            Ok((methods, f)) => match spec_decode_list16::<Extension>(f) {
                Err(x) => Err(x),
                Ok((extensions, rest)) => Ok(((cipher_suites, methods, extensions), rest)),
            },
        },
    }
}

/// The encoding of the lists that follow the session id.
#[verifier::opaque]
pub open spec fn spec_encode_hello_lists(v: ClientHelloPayloadView) -> Seq<u8> {
    spec_encode_counted::<CipherSuite>(v.cipher_suites, 2, 2) + spec_encode_counted::<CompressionMethod>(
        v.legacy_compression_methods,
        1,
        1,
    ) + spec_prefixed16(spec_encode_list::<Extension>(v.extensions))
}

/// Reading the lists reads a prefix of the input.
pub proof fn lemma_hello_lists_suffix(d: Seq<u8>)
    ensures
        spec_decode_hello_lists(d) matches Ok((v, rest)) ==> crate::seqs::is_suffix(rest, d),
{
    reveal(spec_decode_hello_lists);
    lemma_decode_n_suffix::<CipherSuite>(d.skip(2), (spec_read_length(d, 2) / 2) as nat);
    if let Ok((cs, e)) = spec_decode_counted::<CipherSuite>(d, 2, 2) {
        lemma_decode_n_suffix::<CompressionMethod>(e.skip(1), (spec_read_length(e, 1) / 1) as nat);
    }
}

/// The lists that are read back as written.
pub open spec fn hello_lists_wf(v: ClientHelloPayloadView) -> bool {
    &&& all_wf::<CipherSuite>(v.cipher_suites)
    &&& v.cipher_suites.len() * 2 < 0x1_0000
    &&& all_wf::<CompressionMethod>(v.legacy_compression_methods)
    &&& v.legacy_compression_methods.len() * 1 < 0x100
    &&& all_wf::<Extension>(v.extensions)
    &&& spec_encode_list::<Extension>(v.extensions).len() <= 0xFFFF
}

/// Reading the encoding of the lists gives them back.
pub proof fn lemma_hello_lists_roundtrip(v: ClientHelloPayloadView, rest: Seq<u8>)
    requires
        hello_lists_wf(v),
    ensures
        spec_decode_hello_lists(spec_encode_hello_lists(v) + rest) == Ok::<_, TlsErrorView>((
            (v.cipher_suites, v.legacy_compression_methods, v.extensions),
            rest,
        )),
{
    reveal(spec_decode_hello_lists);
    reveal(spec_encode_hello_lists);
    let l3 = spec_prefixed16(spec_encode_list::<Extension>(v.extensions));
    let l2 = spec_encode_counted::<CompressionMethod>(v.legacy_compression_methods, 1, 1);
    let l1 = spec_encode_counted::<CipherSuite>(v.cipher_suites, 2, 2);
    lemma_list16_roundtrip::<Extension>(v.extensions, rest);
    lemma_counted_roundtrip::<CompressionMethod>(v.legacy_compression_methods, l3 + rest, 1, 1);
    lemma_counted_roundtrip::<CipherSuite>(v.cipher_suites, l2 + (l3 + rest), 2, 2);
    assert(l1 + (l2 + (l3 + rest)) =~= spec_encode_hello_lists(v) + rest);
    assert(l2 + (l3 + rest) =~= (l2 + l3) + rest);
}

/// Reads the lists that follow the session id.
fn decode_hello_lists(buf: &mut BytesMut) -> (res: TlsResult<(Vec<CipherSuite>, Vec<CompressionMethod>, Vec<Extension>)>)
    ensures
        match spec_decode_hello_lists(bytes_mut_view(*old(buf))) {
            Ok(((cs, ms, es), rest)) => res matches Ok((xs, ys, zs)) && views(xs@) == cs && views(ys@) == ms
                && views(zs@) == es && bytes_mut_view(*final(buf)) == rest,
            Err(e) => res matches Err(x) && x@ == e,
        },
        crate::seqs::is_suffix(bytes_mut_view(*final(buf)), bytes_mut_view(*old(buf))),
{
    proof {
        reveal(spec_decode_hello_lists);
    }
    let cipher_suites = decode_counted::<CipherSuite>(buf, 2, 2)?;
    let legacy_compression_methods = decode_counted::<CompressionMethod>(buf, 1, 1)?;
    let extensions = decode_list16::<Extension>(buf)?;
    Ok((cipher_suites, legacy_compression_methods, extensions))
}

/// Appends the encoding of the lists that follow the session id.
fn encode_hello_lists(p: &ClientHelloPayload, buf: &mut BytesMut)
    requires
        bytes_mut_view(*old(buf)).len() + spec_encode_hello_lists(p@).len() <= isize::MAX,
    ensures
        bytes_mut_view(*final(buf)) == bytes_mut_view(*old(buf)) + spec_encode_hello_lists(p@),
{
    proof {
        reveal(spec_encode_hello_lists);
    }
    encode_counted(&p.cipher_suites, buf, 2, 2);
    encode_counted(&p.legacy_compression_methods, buf, 1, 1);
    encode_list16(&p.extensions, buf);
    assert(bytes_mut_view(*buf) =~= bytes_mut_view(*old(buf)) + spec_encode_hello_lists(p@));
}

impl Serialize for ClientHelloPayload {
    open spec fn spec_encode(v: ClientHelloPayloadView) -> Seq<u8> {
        be16(v.legacy_version.spec_code()) + v.random + seq![v.legacy_session_id.len() as u8]
            + v.legacy_session_id + spec_encode_hello_lists(v)
    }

    open spec fn spec_decode(s: Seq<u8>) -> SpecResult<ClientHelloPayloadView> {
        if s.len() < 2 {
            Err(TlsErrorView::Incomplete((2 - s.len()) as usize))
        } else {
            let a = s.skip(2);
            if a.len() < 32 {
                Err(TlsErrorView::Incomplete((32 - a.len()) as usize))
            } else {
                let b = a.skip(32);
                if b.len() < 1 {
                    Err(TlsErrorView::Incomplete((1 - b.len()) as usize))
                } else {
                    let n = b[0] as int;
                    let c = b.skip(1);
                    if n > 32 {
                        Err(TlsErrorView::Alert(AlertDescription::HandshakeFailure))
                    } else if c.len() < n {
                        Err(TlsErrorView::Incomplete((n - c.len()) as usize))
                    } else {
                        match spec_decode_hello_lists(c.skip(n)) {
                            Err(e) => Err(e),
                            Ok(((cipher_suites, legacy_compression_methods, extensions), rest)) => Ok((
                                ClientHelloPayloadView {
                                    legacy_version: Version::spec_from_code(read_be16(s, 0)),
                                    random: a.take(32),
                                    legacy_session_id: c.take(n),
                                    cipher_suites,
                                    legacy_compression_methods,
                                    extensions,
                                },
                                rest,
                            )),
                        }
                    }
                }
            }
        }
    }

    open spec fn spec_wf(v: ClientHelloPayloadView) -> bool {
        &&& v.legacy_version.spec_canonical()
        &&& v.random.len() == 32
        &&& v.legacy_session_id.len() <= 32
        &&& hello_lists_wf(v)
    }

    open spec fn spec_self_delimiting() -> bool {
        true
    }

    open spec fn spec_consumes() -> bool {
        true
    }

    proof fn lemma_decode_suffix(s: Seq<u8>) {
        if s.len() >= 35 {
            let c = s.skip(35);
            let n = s[34] as int;
            if n <= 32 && c.len() >= n {
                lemma_hello_lists_suffix(c.skip(n));
            }
        }
    }

    #[verifier::spinoff_prover]
    #[verifier::rlimit(60)]
    proof fn lemma_roundtrip(v: ClientHelloPayloadView, rest: Seq<u8>) {
        v.legacy_version.lemma_code_roundtrip(0);
        let sid = v.legacy_session_id;
        lemma_hello_lists_roundtrip(v, rest);
        let s = Self::spec_encode(v) + rest;
        assert(read_be16(s, 0) == v.legacy_version.spec_code());
        let a = s.skip(2);
        assert(a =~= v.random + (seq![sid.len() as u8] + (sid + (spec_encode_hello_lists(v) + rest))));
        assert(a.take(32) =~= v.random);
        let b = a.skip(32);
        assert(b =~= seq![sid.len() as u8] + (sid + (spec_encode_hello_lists(v) + rest)));
        assert(b[0] == sid.len() as u8);
        let c = b.skip(1);
        assert(c =~= sid + (spec_encode_hello_lists(v) + rest));
        assert(c.take(sid.len() as int) =~= sid);
        assert(c.skip(sid.len() as int) =~= spec_encode_hello_lists(v) + rest);
    }

    fn encode(&self, buf: &mut BytesMut) {
        bm_put_u16(buf, self.legacy_version.code());
        bm_put_slice(buf, &self.random);
        let sid = b_as_slice(&self.legacy_session_id);
        bm_put_u8(buf, sid.len() as u8);
        bm_put_slice(buf, sid);
        encode_hello_lists(self, buf);
        assert(bytes_mut_view(*buf) =~= bytes_mut_view(*old(buf)) + Self::spec_encode(self@));
    }

    fn decode(buf: &mut BytesMut) -> (res: TlsResult<Self>) {
        let ghost s = bytes_mut_view(*buf);
        let remaining = bm_len(buf);
        if remaining < 2 {
            return Err(TlsError::Incomplete(2 - remaining));
        }
        let legacy_version = Version::try_from(bm_get_u16(buf))?;
        let remaining = bm_len(buf);
        if remaining < 32 {
            return Err(TlsError::Incomplete(32 - remaining));
        }
        let random: [u8; 32] = take_array(buf);
        let remaining = bm_len(buf);
        if remaining < 1 {
            return Err(TlsError::Incomplete(1 - remaining));
        }
        let legacy_session_id_length = bm_get_u8(buf) as usize;
        if legacy_session_id_length > 32 {
            return Err(TlsError::Alert(AlertDescription::HandshakeFailure));
        }
        let legacy_session_id = take_bytes(buf, legacy_session_id_length)?;
        let (cipher_suites, legacy_compression_methods, extensions) = decode_hello_lists(buf)?;
        Ok(Self {
            legacy_version,
            random,
            legacy_session_id,
            cipher_suites,
            legacy_compression_methods,
            extensions,
        })
    }
}

} // verus!
