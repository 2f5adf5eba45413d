//! Handshake messages: a type, a 24-bit length and the payload; and the
//! payloads that have no other home (tickets, finished, key updates).
use vstd::prelude::*;

use bytes::{Bytes, BytesMut};

use crate::buffer::{
    b_as_slice, be16, be24, be32, bm_as_slice, bm_freeze, bm_get_u16, bm_get_u32, bm_get_u8, bm_len,
    bm_new, bm_put_slice, bm_put_u16, bm_put_u32, bm_put_u8, bm_split_to, bytes_mut_view, bytes_view,
    get_u24, lemma_be24_roundtrip, lemma_be32_roundtrip, put_u24, read_be16, read_be24, read_be32,
};
use crate::error::{TlsError, TlsErrorView, TlsResult};
use crate::message::alert::AlertDescription;
use crate::message::handshake::certificate::certificate::{CertificatePayload, CertificatePayloadView};
use crate::message::handshake::certificate::compressed::{
    CompressedCertificatePayload, CompressedCertificatePayloadView,
};
use crate::message::handshake::certificate::request::{CertificateRequestPayload, CertificateRequestPayloadView};
use crate::message::handshake::certificate::verify::{CertificateVerifyPayload, CertificateVerifyPayloadView};
use crate::message::handshake::encrypted_extensions::{
    EncryptedExtensionsPayload, EncryptedExtensionsPayloadView,
};
use crate::message::handshake::extensions::extension::{Extension, ExtensionView};
use crate::message::handshake::hello::cipher_suite::SupportedCipherSuite;
use crate::message::handshake::hello::client::{ClientHelloPayload, ClientHelloPayloadView};
use crate::message::handshake::hello::server::{ServerHelloPayload, ServerHelloPayloadView};
use crate::message::serialize::{
    Serialize, SpecResult, all_wf, decode_list16, encode_list16, lemma_list16_roundtrip,
    spec_decode_list16, spec_encode_list, spec_prefixed16, views,
};
use crate::seqs::is_suffix;

verus! {

broadcast use crate::seqs::group_codec;

/// A handshake message: its type, its payload after a 24-bit byte count,
/// and, for a message that was read, the bytes that `handshake_raw` names.
#[derive(Debug, PartialEq, Eq)]
pub struct HandshakeMessage {
    pub handshake_type: HandshakeType,
    pub payload: HandshakePayload,  // length = 3 bytes
    pub raw: Option<BytesMut>,
}

pub struct HandshakeMessageView {
    pub handshake_type: HandshakeType,
    pub payload: HandshakePayloadView,
    pub raw: Option<Seq<u8>>,
}

impl View for HandshakeMessage {
    type V = HandshakeMessageView;

    open spec fn view(&self) -> HandshakeMessageView {
        HandshakeMessageView {
            handshake_type: self.handshake_type,
            payload: self.payload@,
            raw: match self.raw {
                Some(b) => Some(bytes_mut_view(b)),
                None => None,
            },
        }
    }
}

/// The encoding of a handshake message (`raw` is not written).
pub open spec fn spec_encode_handshake(v: HandshakeMessageView) -> Seq<u8> {
    seq![v.handshake_type.spec_code()] + be24(spec_encode_handshake_payload(v.payload).len())
        + spec_encode_handshake_payload(v.payload)
}

/// The bytes that a message read from `s`, with a payload of `n` bytes,
/// keeps as `raw`: of the bytes after its four header bytes, the first
/// `s.len() - n`, that is four more than follow the payload in `s` (so the
/// payload's first four bytes when nothing follows it). For a payload of
/// fewer than four bytes that count would run past the end of the buffer;
/// there the whole message is kept.
pub open spec fn handshake_raw(s: Seq<u8>, n: int) -> Seq<u8> {
    if n >= 4 {
        s.skip(4).take(s.len() - n)
    } else {
        s.take(4 + n)
    }
}

/// What decoding a handshake message finds, given the negotiated cipher
/// suite, if there is one; `raw` holds the bytes that `handshake_raw` names.
pub open spec fn spec_decode_handshake(s: Seq<u8>, cipher_suite: Option<SupportedCipherSuite>) -> SpecResult<
    HandshakeMessageView,
> {
    if s.len() < 5 {
        Err(TlsErrorView::Incomplete((5 - s.len()) as usize))
    } else {
        match HandshakeType::spec_from_code(s[0]) {
            Err(e) => Err(e@),
            Ok(handshake_type) => {
                let n = read_be24(s, 1) as int;
                let t = s.skip(4);
                if t.len() < n {
                    Err(TlsErrorView::Incomplete((n - t.len()) as usize))
                } else {
                    match spec_decode_handshake_payload(handshake_type, t.take(n), cipher_suite) {
                        Ok((payload, _)) => Ok((
                            HandshakeMessageView { handshake_type, payload, raw: Some(handshake_raw(s, n)) },
                            t.skip(n),
                        )),
                        Err(e) => Err(e),
                    }
                }
            },
        }
    }
}

/// The messages that are read back as written, with `raw` then holding
/// the bytes that `handshake_raw` names: the payload is of the message's type and is read back as
/// written (a finished message's by the given suite), its encoding fits the
/// 24-bit count, and at least five bytes are there to read.
pub open spec fn handshake_wf(v: HandshakeMessageView, cipher_suite: Option<SupportedCipherSuite>, rest: Seq<u8>) -> bool {
    &&& handshake_payload_fits(v.handshake_type, v.payload, cipher_suite)
    &&& spec_encode_handshake_payload(v.payload).len() < 0x100_0000
    &&& spec_encode_handshake_payload(v.payload).len() + rest.len() >= 1
}

/// Decoding the encoding of a message that is read back as written gives it
/// back, with `raw` holding the bytes that `handshake_raw` names, and the
/// bytes after it.
pub proof fn lemma_handshake_roundtrip(v: HandshakeMessageView, cipher_suite: Option<SupportedCipherSuite>, rest: Seq<u8>)
    requires
        handshake_wf(v, cipher_suite, rest),
    ensures
        spec_decode_handshake(spec_encode_handshake(v) + rest, cipher_suite) == Ok::<_, TlsErrorView>((
            HandshakeMessageView {
                raw: Some(
                    handshake_raw(spec_encode_handshake(v) + rest, spec_encode_handshake_payload(v.payload).len() as int),
                ),
                ..v
            },
            rest,
        )),
{
    let p = spec_encode_handshake_payload(v.payload);
    let s = spec_encode_handshake(v) + rest;
    v.handshake_type.lemma_code_roundtrip(0);
    lemma_be24_roundtrip(p.len());
    lemma_handshake_payload_roundtrip(v.handshake_type, v.payload, cipher_suite);
    assert(s =~= seq![v.handshake_type.spec_code()] + (be24(p.len()) + (p + rest)));
    assert(s[0] == v.handshake_type.spec_code());
    assert(s.skip(1) =~= be24(p.len()) + (p + rest));
    assert(read_be24(s, 1) == read_be24(s.skip(1), 0));
    assert(s.skip(4) =~= p + rest);
    assert((p + rest).take(p.len() as int) =~= p);
    assert((p + rest).skip(p.len() as int) =~= rest);
}

impl HandshakeMessage {
    /// Appends the encoding of the message: its type, the payload's length
    /// in three bytes, and the payload.
    pub fn encode(&self, buf: &mut BytesMut)
        requires
            bytes_mut_view(*old(buf)).len() + spec_encode_handshake(self@).len() <= isize::MAX,
        ensures
            bytes_mut_view(*final(buf)) == bytes_mut_view(*old(buf)) + spec_encode_handshake(self@),
    {
        bm_put_u8(buf, self.handshake_type.code());
        let mut inner = bm_new();
        self.payload.encode_payload(&mut inner);
        put_u24(buf, bm_len(&inner));
        bm_put_slice(buf, bm_as_slice(&inner));
        assert(bytes_mut_view(*buf) =~= bytes_mut_view(*old(buf)) + spec_encode_handshake(self@));
    }

    /// Reads a handshake message from the start of `buf`; a finished message
    /// is read by the negotiated suite's hash length.
    pub fn decode(buf: &mut BytesMut, cipher_suite: Option<&SupportedCipherSuite>) -> (res: TlsResult<Self>)
        ensures
            crate::message::serialize::decoded_as(
                spec_decode_handshake(bytes_mut_view(*old(buf)), opt_suite(cipher_suite)),
                res,
                bytes_mut_view(*final(buf)),
            ),
            is_suffix(bytes_mut_view(*final(buf)), bytes_mut_view(*old(buf))),
    {
        let ghost s = bytes_mut_view(*buf);
        let remaining = bm_len(buf);
        if remaining < 5 {
            return Err(TlsError::Incomplete(5 - remaining));
        }
        let start_len = remaining;
        let mut whole = buf.clone();
        let handshake_type = HandshakeType::try_from(bm_get_u8(buf))?;
        proof {
            assert(read_be24(s, 1) == read_be24(s.skip(1), 0));
        }
        let len = get_u24(buf);
        let remaining = bm_len(buf);
        if remaining < len {
            return Err(TlsError::Incomplete(len - remaining));
        }
        let raw = if len >= 4 {
            let mut body = buf.clone();
            Some(bm_split_to(&mut body, start_len - len))
        } else {
            Some(bm_split_to(&mut whole, 4 + len))
        };
        let mut payload_buf = bm_split_to(buf, len);
        let payload = HandshakePayload::decode_payload(handshake_type, &mut payload_buf, cipher_suite)?;
        Ok(Self { handshake_type, payload, raw })
    }
}

/// The suite that an optional reference points to.
pub open spec fn opt_suite(cipher_suite: Option<&SupportedCipherSuite>) -> Option<SupportedCipherSuite> {
    match cipher_suite {
        Some(c) => Some(*c),
        None => None,
    }
}

/// The type of a handshake message.
#[derive(Debug, Clone, Copy, PartialEq, Eq, Structural)]
pub enum HandshakeType {
    ClientHello,
    EndOfEarlyData,
    ServerHello,
    NewSessionTicket,
    EncryptedExtensions,
    CertificateRequest,
    Certificate,
    CompressedCertificate,
    CertificateVerify,
    Finished,
    KeyUpdate,
}

impl HandshakeType {
    /// The code that stands for the value on the wire.
    pub open spec fn spec_code(self) -> u8 {
        match self {
            HandshakeType::ClientHello => 0x01,
            HandshakeType::EndOfEarlyData => 0x05,
            HandshakeType::ServerHello => 0x02,
            HandshakeType::NewSessionTicket => 0x04,
            HandshakeType::EncryptedExtensions => 0x08,
            HandshakeType::CertificateRequest => 0x0D,
            HandshakeType::Certificate => 0x0B,
            HandshakeType::CompressedCertificate => 0x19,
            HandshakeType::CertificateVerify => 0x0F,
            HandshakeType::Finished => 0x14,
            HandshakeType::KeyUpdate => 0x18,
        }
    }

    /// The value that a code stands for, or the error for a code that stands for none.
    pub open spec fn spec_from_code(v: u8) -> Result<HandshakeType, TlsError> {
        match v {
            0x01 => Ok(HandshakeType::ClientHello),
            0x05 => Ok(HandshakeType::EndOfEarlyData),
            0x02 => Ok(HandshakeType::ServerHello),
            0x04 => Ok(HandshakeType::NewSessionTicket),
            0x08 => Ok(HandshakeType::EncryptedExtensions),
            0x0D => Ok(HandshakeType::CertificateRequest),
            0x0B => Ok(HandshakeType::Certificate),
            0x19 => Ok(HandshakeType::CompressedCertificate),
            0x0F => Ok(HandshakeType::CertificateVerify),
            0x14 => Ok(HandshakeType::Finished),
            0x18 => Ok(HandshakeType::KeyUpdate),
            _ => Err(TlsError::Unknown("handshake type")),
        }
    }

    /// The wire codes of the named values, as the protocol's registry fixes
    /// them: each value is written as its number, and a code is read as that
    /// value exactly when it is that number.
    pub proof fn lemma_wire_codes(c: u8)
        ensures
            HandshakeType::ClientHello.spec_code() == 0x01,
            HandshakeType::EndOfEarlyData.spec_code() == 0x05,
            HandshakeType::ServerHello.spec_code() == 0x02,
            HandshakeType::NewSessionTicket.spec_code() == 0x04,
            HandshakeType::EncryptedExtensions.spec_code() == 0x08,
            HandshakeType::CertificateRequest.spec_code() == 0x0D,
            HandshakeType::Certificate.spec_code() == 0x0B,
            HandshakeType::CompressedCertificate.spec_code() == 0x19,
            HandshakeType::CertificateVerify.spec_code() == 0x0F,
            HandshakeType::Finished.spec_code() == 0x14,
            HandshakeType::KeyUpdate.spec_code() == 0x18,
            (HandshakeType::spec_from_code(c) == Ok::<_, TlsError>(HandshakeType::ClientHello)) <==> c == 0x01,
            (HandshakeType::spec_from_code(c) == Ok::<_, TlsError>(HandshakeType::EndOfEarlyData)) <==> c == 0x05,
            (HandshakeType::spec_from_code(c) == Ok::<_, TlsError>(HandshakeType::ServerHello)) <==> c == 0x02,
            (HandshakeType::spec_from_code(c) == Ok::<_, TlsError>(HandshakeType::NewSessionTicket)) <==> c == 0x04,
            (HandshakeType::spec_from_code(c) == Ok::<_, TlsError>(HandshakeType::EncryptedExtensions)) <==> c == 0x08,
            (HandshakeType::spec_from_code(c) == Ok::<_, TlsError>(HandshakeType::CertificateRequest)) <==> c == 0x0D,
            (HandshakeType::spec_from_code(c) == Ok::<_, TlsError>(HandshakeType::Certificate)) <==> c == 0x0B,
            (HandshakeType::spec_from_code(c) == Ok::<_, TlsError>(HandshakeType::CompressedCertificate)) <==> c == 0x19,
            (HandshakeType::spec_from_code(c) == Ok::<_, TlsError>(HandshakeType::CertificateVerify)) <==> c == 0x0F,
            (HandshakeType::spec_from_code(c) == Ok::<_, TlsError>(HandshakeType::Finished)) <==> c == 0x14,
            (HandshakeType::spec_from_code(c) == Ok::<_, TlsError>(HandshakeType::KeyUpdate)) <==> c == 0x18,
    {
    }

    /// A value written as its code is read back as itself, and a code that
    /// is read as a value is that value's code.
    pub proof fn lemma_code_roundtrip(self, v: u8)
        ensures
            HandshakeType::spec_from_code(self.spec_code()) == Ok::<_, TlsError>(self),
            HandshakeType::spec_from_code(v) matches Ok(x) ==> x.spec_code() == v,
    {
    }

    /// The code that stands for the value on the wire.
    pub fn code(self) -> (res: u8)
        ensures
            res == self.spec_code(),
    {
        match self {
            HandshakeType::ClientHello => 0x01,
            HandshakeType::EndOfEarlyData => 0x05,
            HandshakeType::ServerHello => 0x02,
            HandshakeType::NewSessionTicket => 0x04,
            HandshakeType::EncryptedExtensions => 0x08,
            HandshakeType::CertificateRequest => 0x0D,
            HandshakeType::Certificate => 0x0B,
            HandshakeType::CompressedCertificate => 0x19,
            HandshakeType::CertificateVerify => 0x0F,
            HandshakeType::Finished => 0x14,
            HandshakeType::KeyUpdate => 0x18,
        }
    }

    /// The value that a code stands for, or the error for a code that stands for none.
    pub fn try_from(value: u8) -> (res: Result<Self, TlsError>)
        ensures
            res == HandshakeType::spec_from_code(value),
    {
        match value {
            0x01 => Ok(HandshakeType::ClientHello),
            0x05 => Ok(HandshakeType::EndOfEarlyData),
            0x02 => Ok(HandshakeType::ServerHello),
            0x04 => Ok(HandshakeType::NewSessionTicket),
            0x08 => Ok(HandshakeType::EncryptedExtensions),
            0x0D => Ok(HandshakeType::CertificateRequest),
            0x0B => Ok(HandshakeType::Certificate),
            0x19 => Ok(HandshakeType::CompressedCertificate),
            0x0F => Ok(HandshakeType::CertificateVerify),
            0x14 => Ok(HandshakeType::Finished),
            0x18 => Ok(HandshakeType::KeyUpdate),
            _ => Err(TlsError::Unknown("handshake type")),
        }
    }
}

/// The payload of a handshake message.
#[derive(Debug, PartialEq, Eq)]
pub enum HandshakePayload {
    ClientHello(ClientHelloPayload),
    ServerHello(ServerHelloPayload),
    EncryptedExtensions(EncryptedExtensionsPayload),
    CertificateRequest(CertificateRequestPayload),
    Certificate(CertificatePayload),
    CompressedCertificate(CompressedCertificatePayload),
    CertificateVerify(CertificateVerifyPayload),
    Finished(FinishedPayload),
    KeyUpdate(KeyUpdatePayload),
    NewSessionTicket(NewSessionTicketPayload),
    EndOfEarlyData,
}

pub enum HandshakePayloadView {
    ClientHello(ClientHelloPayloadView),
    ServerHello(ServerHelloPayloadView),
    EncryptedExtensions(EncryptedExtensionsPayloadView),
    CertificateRequest(CertificateRequestPayloadView),
    Certificate(CertificatePayloadView),
    CompressedCertificate(CompressedCertificatePayloadView),
    CertificateVerify(CertificateVerifyPayloadView),
    Finished(FinishedPayloadView),
    KeyUpdate(KeyUpdateRequest),
    NewSessionTicket(NewSessionTicketPayloadView),
    EndOfEarlyData,
}

impl View for HandshakePayload {
    type V = HandshakePayloadView;

    open spec fn view(&self) -> HandshakePayloadView {
        match self {
            HandshakePayload::ClientHello(p) => HandshakePayloadView::ClientHello(p@),
            HandshakePayload::ServerHello(p) => HandshakePayloadView::ServerHello(p@),
            HandshakePayload::EncryptedExtensions(p) => HandshakePayloadView::EncryptedExtensions(p@),
            HandshakePayload::CertificateRequest(p) => HandshakePayloadView::CertificateRequest(p@),
            HandshakePayload::Certificate(p) => HandshakePayloadView::Certificate(p@),
            HandshakePayload::CompressedCertificate(p) => HandshakePayloadView::CompressedCertificate(p@),
            HandshakePayload::CertificateVerify(p) => HandshakePayloadView::CertificateVerify(p@),
            HandshakePayload::Finished(p) => HandshakePayloadView::Finished(p@),
            HandshakePayload::KeyUpdate(p) => HandshakePayloadView::KeyUpdate(p@),
            HandshakePayload::NewSessionTicket(p) => HandshakePayloadView::NewSessionTicket(p@),
            HandshakePayload::EndOfEarlyData => HandshakePayloadView::EndOfEarlyData,
        }
    }
}

/// The encoding of a handshake payload.
#[verifier::opaque]
pub open spec fn spec_encode_handshake_payload(p: HandshakePayloadView) -> Seq<u8> {
    match p {
        HandshakePayloadView::ClientHello(q) => ClientHelloPayload::spec_encode(q),
        HandshakePayloadView::ServerHello(q) => ServerHelloPayload::spec_encode(q),
        HandshakePayloadView::EncryptedExtensions(q) => EncryptedExtensionsPayload::spec_encode(q),
        HandshakePayloadView::CertificateRequest(q) => CertificateRequestPayload::spec_encode(q),
        HandshakePayloadView::Certificate(q) => CertificatePayload::spec_encode(q),
        HandshakePayloadView::CompressedCertificate(q) => CompressedCertificatePayload::spec_encode(q),
        HandshakePayloadView::CertificateVerify(q) => CertificateVerifyPayload::spec_encode(q),
        HandshakePayloadView::Finished(q) => q.verify_data,
        HandshakePayloadView::KeyUpdate(q) => KeyUpdatePayload::spec_encode(q),
        HandshakePayloadView::NewSessionTicket(q) => NewSessionTicketPayload::spec_encode(q),
        HandshakePayloadView::EndOfEarlyData => Seq::empty(),
    }
}

/// Wraps the outcome of a payload's decoder in the payload variant.
pub open spec fn wrap_handshake<V>(r: SpecResult<V>, f: spec_fn(V) -> HandshakePayloadView) -> SpecResult<HandshakePayloadView> {
    match r {
        Ok((q, rest)) => Ok((f(q), rest)),
        Err(e) => Err(e),
    }
}

/// What decoding the payload of a handshake message of the given type finds.
#[verifier::opaque]
pub open spec fn spec_decode_handshake_payload(
    ty: HandshakeType,
    s: Seq<u8>,
    cipher_suite: Option<SupportedCipherSuite>,
) -> SpecResult<HandshakePayloadView> {
    match ty {
        HandshakeType::ClientHello => wrap_handshake(ClientHelloPayload::spec_decode(s), |q| HandshakePayloadView::ClientHello(q)),
        HandshakeType::ServerHello => wrap_handshake(ServerHelloPayload::spec_decode(s), |q| HandshakePayloadView::ServerHello(q)),
        HandshakeType::NewSessionTicket => wrap_handshake(NewSessionTicketPayload::spec_decode(s), |q| HandshakePayloadView::NewSessionTicket(q)),
        HandshakeType::EncryptedExtensions => wrap_handshake(EncryptedExtensionsPayload::spec_decode(s), |q| HandshakePayloadView::EncryptedExtensions(q)),
        HandshakeType::CertificateRequest => wrap_handshake(CertificateRequestPayload::spec_decode(s), |q| HandshakePayloadView::CertificateRequest(q)),
        HandshakeType::Certificate => wrap_handshake(CertificatePayload::spec_decode(s), |q| HandshakePayloadView::Certificate(q)),
        HandshakeType::CompressedCertificate => wrap_handshake(CompressedCertificatePayload::spec_decode(s), |q| HandshakePayloadView::CompressedCertificate(q)),
        HandshakeType::CertificateVerify => wrap_handshake(CertificateVerifyPayload::spec_decode(s), |q| HandshakePayloadView::CertificateVerify(q)),
        HandshakeType::Finished => wrap_handshake(spec_decode_finished(s, cipher_suite), |q| HandshakePayloadView::Finished(q)),
        HandshakeType::KeyUpdate => wrap_handshake(KeyUpdatePayload::spec_decode(s), |q| HandshakePayloadView::KeyUpdate(q)),
        HandshakeType::EndOfEarlyData => Ok((HandshakePayloadView::EndOfEarlyData, s)),
    }
}

/// The payload is of the given type and is read back as written.
pub open spec fn handshake_payload_fits(
    ty: HandshakeType,
    p: HandshakePayloadView,
    cipher_suite: Option<SupportedCipherSuite>,
) -> bool {
    match p {
        HandshakePayloadView::ClientHello(q) => ty == HandshakeType::ClientHello && ClientHelloPayload::spec_wf(q),
        HandshakePayloadView::ServerHello(q) => ty == HandshakeType::ServerHello && ServerHelloPayload::spec_wf(q),
        HandshakePayloadView::EncryptedExtensions(q) => ty == HandshakeType::EncryptedExtensions && EncryptedExtensionsPayload::spec_wf(q),
        HandshakePayloadView::CertificateRequest(q) => ty == HandshakeType::CertificateRequest && CertificateRequestPayload::spec_wf(q),
        HandshakePayloadView::Certificate(q) => ty == HandshakeType::Certificate && CertificatePayload::spec_wf(q),
        HandshakePayloadView::CompressedCertificate(q) => ty == HandshakeType::CompressedCertificate && CompressedCertificatePayload::spec_wf(q),
        HandshakePayloadView::CertificateVerify(q) => ty == HandshakeType::CertificateVerify && CertificateVerifyPayload::spec_wf(q),
        HandshakePayloadView::Finished(q) => ty == HandshakeType::Finished && finished_wf(q, cipher_suite),
        HandshakePayloadView::KeyUpdate(q) => ty == HandshakeType::KeyUpdate && KeyUpdatePayload::spec_wf(q),
        HandshakePayloadView::NewSessionTicket(q) => ty == HandshakeType::NewSessionTicket && NewSessionTicketPayload::spec_wf(q),
        HandshakePayloadView::EndOfEarlyData => ty == HandshakeType::EndOfEarlyData,
    }
}

/// Decoding the encoding of a payload that fits its type gives it back.
#[verifier::spinoff_prover]
#[verifier::rlimit(100)]
pub proof fn lemma_handshake_payload_roundtrip(
    ty: HandshakeType,
    p: HandshakePayloadView,
    cipher_suite: Option<SupportedCipherSuite>,
)
    requires
        handshake_payload_fits(ty, p, cipher_suite),
    ensures
        spec_decode_handshake_payload(ty, spec_encode_handshake_payload(p), cipher_suite) matches Ok((q, _)) && q == p,
{
    let e = Seq::<u8>::empty();
    match p {
        HandshakePayloadView::ClientHello(q) => {
            ClientHelloPayload::lemma_roundtrip(q, e);
            assert(ClientHelloPayload::spec_encode(q) + e =~= ClientHelloPayload::spec_encode(q));
            assert(spec_decode_handshake_payload(ty, spec_encode_handshake_payload(p), cipher_suite)
                == Ok::<_, TlsErrorView>((p, e))) by {
                reveal(spec_encode_handshake_payload);
                reveal(spec_decode_handshake_payload);
            }
        },
        HandshakePayloadView::ServerHello(q) => {
            ServerHelloPayload::lemma_roundtrip(q, e);
            assert(ServerHelloPayload::spec_encode(q) + e =~= ServerHelloPayload::spec_encode(q));
            assert(spec_decode_handshake_payload(ty, spec_encode_handshake_payload(p), cipher_suite)
                == Ok::<_, TlsErrorView>((p, e))) by {
                reveal(spec_encode_handshake_payload);
                reveal(spec_decode_handshake_payload);
            }
        },
        HandshakePayloadView::EncryptedExtensions(q) => {
            EncryptedExtensionsPayload::lemma_roundtrip(q, e);
            assert(EncryptedExtensionsPayload::spec_encode(q) + e =~= EncryptedExtensionsPayload::spec_encode(q));
            assert(spec_decode_handshake_payload(ty, spec_encode_handshake_payload(p), cipher_suite)
                == Ok::<_, TlsErrorView>((p, e))) by {
                reveal(spec_encode_handshake_payload);
                reveal(spec_decode_handshake_payload);
            }
        },
        HandshakePayloadView::CertificateRequest(q) => {
            CertificateRequestPayload::lemma_roundtrip(q, e);
            assert(CertificateRequestPayload::spec_encode(q) + e =~= CertificateRequestPayload::spec_encode(q));
            assert(spec_decode_handshake_payload(ty, spec_encode_handshake_payload(p), cipher_suite)
                == Ok::<_, TlsErrorView>((p, e))) by {
                reveal(spec_encode_handshake_payload);
                reveal(spec_decode_handshake_payload);
            }
        },
        HandshakePayloadView::Certificate(q) => {
            CertificatePayload::lemma_roundtrip(q, e);
            assert(CertificatePayload::spec_encode(q) + e =~= CertificatePayload::spec_encode(q));
            assert(spec_decode_handshake_payload(ty, spec_encode_handshake_payload(p), cipher_suite)
                == Ok::<_, TlsErrorView>((p, e))) by {
                reveal(spec_encode_handshake_payload);
                reveal(spec_decode_handshake_payload);
            }
        },
        HandshakePayloadView::CompressedCertificate(q) => {
            CompressedCertificatePayload::lemma_roundtrip(q, e);
            assert(CompressedCertificatePayload::spec_encode(q) + e =~= CompressedCertificatePayload::spec_encode(q));
            assert(spec_decode_handshake_payload(ty, spec_encode_handshake_payload(p), cipher_suite)
                == Ok::<_, TlsErrorView>((p, e))) by {
                reveal(spec_encode_handshake_payload);
                reveal(spec_decode_handshake_payload);
            }
        },
        HandshakePayloadView::CertificateVerify(q) => {
            CertificateVerifyPayload::lemma_roundtrip(q, e);
            assert(CertificateVerifyPayload::spec_encode(q) + e =~= CertificateVerifyPayload::spec_encode(q));
            assert(spec_decode_handshake_payload(ty, spec_encode_handshake_payload(p), cipher_suite)
                == Ok::<_, TlsErrorView>((p, e))) by {
                reveal(spec_encode_handshake_payload);
                reveal(spec_decode_handshake_payload);
            }
        },
        HandshakePayloadView::Finished(q) => {
            assert(q.verify_data.take(q.verify_data.len() as int) =~= q.verify_data);
            assert(q.verify_data.skip(q.verify_data.len() as int) =~= e);
            assert(spec_decode_handshake_payload(ty, spec_encode_handshake_payload(p), cipher_suite)
                == Ok::<_, TlsErrorView>((p, e))) by {
                reveal(spec_encode_handshake_payload);
                reveal(spec_decode_handshake_payload);
            }
        },
        HandshakePayloadView::KeyUpdate(q) => {
            KeyUpdatePayload::lemma_roundtrip(q, e);
            assert(KeyUpdatePayload::spec_encode(q) + e =~= KeyUpdatePayload::spec_encode(q));
            assert(spec_decode_handshake_payload(ty, spec_encode_handshake_payload(p), cipher_suite)
                == Ok::<_, TlsErrorView>((p, e))) by {
                reveal(spec_encode_handshake_payload);
                reveal(spec_decode_handshake_payload);
            }
        },
        HandshakePayloadView::NewSessionTicket(q) => {
            NewSessionTicketPayload::lemma_roundtrip(q, e);
            assert(NewSessionTicketPayload::spec_encode(q) + e =~= NewSessionTicketPayload::spec_encode(q));
            assert(spec_decode_handshake_payload(ty, spec_encode_handshake_payload(p), cipher_suite)
                == Ok::<_, TlsErrorView>((p, e))) by {
                reveal(spec_encode_handshake_payload);
                reveal(spec_decode_handshake_payload);
            }
        },
        HandshakePayloadView::EndOfEarlyData => {
            assert(spec_decode_handshake_payload(ty, spec_encode_handshake_payload(p), cipher_suite)
                == Ok::<_, TlsErrorView>((p, e))) by {
                reveal(spec_encode_handshake_payload);
                reveal(spec_decode_handshake_payload);
            }
        },
    }
}

impl HandshakePayload {
    /// Appends the encoding of the payload.
    pub fn encode_payload(&self, buf: &mut BytesMut)
        requires
            bytes_mut_view(*old(buf)).len() + spec_encode_handshake_payload(self@).len() <= isize::MAX,
        ensures
            bytes_mut_view(*final(buf)) == bytes_mut_view(*old(buf)) + spec_encode_handshake_payload(self@),
    {
        reveal(spec_encode_handshake_payload);
        match self {
            HandshakePayload::ClientHello(p) => p.encode(buf),
            HandshakePayload::ServerHello(p) => p.encode(buf),
            HandshakePayload::EncryptedExtensions(p) => p.encode(buf),
            HandshakePayload::CertificateRequest(p) => p.encode(buf),
            HandshakePayload::Certificate(p) => p.encode(buf),
            HandshakePayload::CompressedCertificate(p) => p.encode(buf),
            HandshakePayload::CertificateVerify(p) => p.encode(buf),
            HandshakePayload::Finished(p) => p.encode(buf),
            HandshakePayload::KeyUpdate(p) => p.encode(buf),
            HandshakePayload::NewSessionTicket(p) => p.encode(buf),
            HandshakePayload::EndOfEarlyData => {
                assert(bytes_mut_view(*buf) =~= bytes_mut_view(*old(buf)) + Seq::<u8>::empty());
            },
        }
    }

    /// Reads the payload of a handshake message of the given type from the
    /// start of `buf`.
    pub fn decode_payload(
        handshake_type: HandshakeType,
        buf: &mut BytesMut,
        cipher_suite: Option<&SupportedCipherSuite>,
    ) -> (res: TlsResult<Self>)
        ensures
            crate::message::serialize::decoded_as(
                spec_decode_handshake_payload(handshake_type, bytes_mut_view(*old(buf)), opt_suite(cipher_suite)),
                res,
                bytes_mut_view(*final(buf)),
            ),
            is_suffix(bytes_mut_view(*final(buf)), bytes_mut_view(*old(buf))),
    {
        reveal(spec_decode_handshake_payload);
        match handshake_type {
            HandshakeType::ClientHello => Ok(HandshakePayload::ClientHello(ClientHelloPayload::decode(buf)?)),
            HandshakeType::ServerHello => Ok(HandshakePayload::ServerHello(ServerHelloPayload::decode(buf)?)),
            HandshakeType::NewSessionTicket => Ok(HandshakePayload::NewSessionTicket(NewSessionTicketPayload::decode(buf)?)),
            HandshakeType::EncryptedExtensions => Ok(HandshakePayload::EncryptedExtensions(EncryptedExtensionsPayload::decode(buf)?)),
            HandshakeType::CertificateRequest => Ok(HandshakePayload::CertificateRequest(CertificateRequestPayload::decode(buf)?)),
            HandshakeType::Certificate => Ok(HandshakePayload::Certificate(CertificatePayload::decode(buf)?)),
            HandshakeType::CompressedCertificate => Ok(HandshakePayload::CompressedCertificate(CompressedCertificatePayload::decode(buf)?)),
            HandshakeType::CertificateVerify => Ok(HandshakePayload::CertificateVerify(CertificateVerifyPayload::decode(buf)?)),
            HandshakeType::Finished => Ok(HandshakePayload::Finished(FinishedPayload::decode(buf, cipher_suite)?)),
            HandshakeType::KeyUpdate => Ok(HandshakePayload::KeyUpdate(KeyUpdatePayload::decode(buf)?)),
            HandshakeType::EndOfEarlyData => Ok(HandshakePayload::EndOfEarlyData),
        }
    }
}

/// A new session ticket: its lifetime and age offset, the nonce (8-bit
/// count), the ticket (16-bit count) and the extensions (16-bit count).
///
/// Decoding needs at least the nine bytes up to the nonce's count. On fewer,
/// it reports `4 - len` bytes missing for a buffer of at most four bytes; for
/// five to eight bytes, where that count would be negative, it reports the
/// `9 - len` bytes that the fixed fields still need.
#[derive(Debug, PartialEq, Eq)]
pub struct NewSessionTicketPayload {
    pub ticket_lifetime: u32,
    pub ticket_age_add: u32,
    pub ticket_nonce: Vec<u8>,  // 1 byte len
    pub ticket: Vec<u8>,  // 2 bytes len
    pub extensions: Vec<Extension>,  // 2 bytes len
}

pub struct NewSessionTicketPayloadView {
    pub ticket_lifetime: u32,
    pub ticket_age_add: u32,
    pub ticket_nonce: Seq<u8>,
    pub ticket: Seq<u8>,
    pub extensions: Seq<ExtensionView>,
}

impl View for NewSessionTicketPayload {
    type V = NewSessionTicketPayloadView;

    open spec fn view(&self) -> NewSessionTicketPayloadView {
        NewSessionTicketPayloadView {
            ticket_lifetime: self.ticket_lifetime,
            ticket_age_add: self.ticket_age_add,
            ticket_nonce: self.ticket_nonce@,
            ticket: self.ticket@,
            extensions: views(self.extensions@),
        }
    }
}

impl Serialize for NewSessionTicketPayload {
    open spec fn spec_encode(v: NewSessionTicketPayloadView) -> Seq<u8> {
        be32(v.ticket_lifetime) + be32(v.ticket_age_add) + seq![v.ticket_nonce.len() as u8] + v.ticket_nonce
            + be16(v.ticket.len() as u16) + v.ticket + spec_prefixed16(spec_encode_list::<Extension>(v.extensions))
    }

    open spec fn spec_decode(s: Seq<u8>) -> SpecResult<NewSessionTicketPayloadView> {
        if s.len() <= 4 {
            Err(TlsErrorView::Incomplete((4 - s.len()) as usize))
        } else if s.len() < 9 {
            Err(TlsErrorView::Incomplete((9 - s.len()) as usize))
        } else {
            let n = s[8] as int;
            let t = s.skip(9);
            if t.len() < n {
                Err(TlsErrorView::Incomplete((n - t.len()) as usize))
            } else {
                let u = t.skip(n);
                if u.len() < 2 {
                    Err(TlsErrorView::Incomplete((2 - u.len()) as usize))
                } else {
                    let m = read_be16(u, 0) as int;
                    let w = u.skip(2);
                    if w.len() < m {
                        Err(TlsErrorView::Incomplete((m - w.len()) as usize))
                    } else {
                        match spec_decode_list16::<Extension>(w.skip(m)) {
                            Err(e) => Err(e),
                            Ok((extensions, rest)) => Ok((
                                NewSessionTicketPayloadView {
                                    ticket_lifetime: read_be32(s, 0),
                                    ticket_age_add: read_be32(s, 4),
                                    ticket_nonce: t.take(n),
                                    ticket: w.take(m),
                                    extensions,
                                },
                                rest,
                            )),
                        }
                    }
                }
            }
        }
    }

    open spec fn spec_wf(v: NewSessionTicketPayloadView) -> bool {
        &&& v.ticket_nonce.len() <= 0xFF
        &&& v.ticket.len() <= 0xFFFF
        &&& all_wf::<Extension>(v.extensions)
        &&& spec_encode_list::<Extension>(v.extensions).len() <= 0xFFFF
    }

    open spec fn spec_self_delimiting() -> bool {
        true
    }

    open spec fn spec_consumes() -> bool {
        true
    }

    proof fn lemma_decode_suffix(s: Seq<u8>) {
    }

    #[verifier::spinoff_prover]
    #[verifier::rlimit(60)]
    proof fn lemma_roundtrip(v: NewSessionTicketPayloadView, rest: Seq<u8>) {
        lemma_be32_roundtrip(v.ticket_lifetime);
        lemma_be32_roundtrip(v.ticket_age_add);
        let nonce = v.ticket_nonce;
        let ticket = v.ticket;
        let exts = spec_prefixed16(spec_encode_list::<Extension>(v.extensions));
        lemma_list16_roundtrip::<Extension>(v.extensions, rest);
        let s = Self::spec_encode(v) + rest;
        let tail = seq![nonce.len() as u8] + (nonce + (be16(ticket.len() as u16) + (ticket + (exts + rest))));
        assert(s =~= be32(v.ticket_lifetime) + (be32(v.ticket_age_add) + tail));
        assert(s.len() >= 9);
        assert(read_be32(s, 0) == read_be32(be32(v.ticket_lifetime), 0));
        assert(s.skip(4) =~= be32(v.ticket_age_add) + tail);
        assert(read_be32(s, 4) == read_be32(s.skip(4), 0));
        assert(read_be32(s.skip(4), 0) == read_be32(be32(v.ticket_age_add), 0));
        assert(s[8] == nonce.len() as u8);
        let t = s.skip(9);
        assert(t =~= nonce + (be16(ticket.len() as u16) + (ticket + (exts + rest))));
        assert(t.take(nonce.len() as int) =~= nonce);
        let u = t.skip(nonce.len() as int);
        assert(u =~= be16(ticket.len() as u16) + (ticket + (exts + rest)));
        let w = u.skip(2);
        assert(w =~= ticket + (exts + rest));
        assert(w.take(ticket.len() as int) =~= ticket);
        assert(w.skip(ticket.len() as int) =~= exts + rest);
    }

    fn encode(&self, buf: &mut BytesMut) {
        bm_put_u32(buf, self.ticket_lifetime);
        bm_put_u32(buf, self.ticket_age_add);
        bm_put_u8(buf, self.ticket_nonce.len() as u8);
        bm_put_slice(buf, self.ticket_nonce.as_slice());
        bm_put_u16(buf, self.ticket.len() as u16);
        bm_put_slice(buf, self.ticket.as_slice());
        encode_list16(&self.extensions, buf);
        assert(bytes_mut_view(*buf) =~= bytes_mut_view(*old(buf)) + Self::spec_encode(self@));
    }

    fn decode(buf: &mut BytesMut) -> (res: TlsResult<Self>) {
        let ghost s = bytes_mut_view(*buf);
        let remaining = bm_len(buf);
        if remaining <= 4 {
            return Err(TlsError::Incomplete(4 - remaining));
        }
        if remaining < 9 {
            return Err(TlsError::Incomplete(9 - remaining));
        }
        let ticket_lifetime = bm_get_u32(buf);
        proof {
            assert(read_be32(s, 4) == read_be32(s.skip(4), 0));
        }
        let ticket_age_add = bm_get_u32(buf);
        let nonce_len = bm_get_u8(buf) as usize;
        let remaining = bm_len(buf);
        if remaining < nonce_len {
            return Err(TlsError::Incomplete(nonce_len - remaining));
        }
        let nonce_bytes = bm_split_to(buf, nonce_len);
        let ticket_nonce = vstd::slice::slice_to_vec(bm_as_slice(&nonce_bytes));
        let remaining = bm_len(buf);
        if remaining < 2 {
            return Err(TlsError::Incomplete(2 - remaining));
        }
        let ticket_len = bm_get_u16(buf) as usize;
        let remaining = bm_len(buf);
        if remaining < ticket_len {
            return Err(TlsError::Incomplete(ticket_len - remaining));
        }
        let ticket_bytes = bm_split_to(buf, ticket_len);
        let ticket = vstd::slice::slice_to_vec(bm_as_slice(&ticket_bytes));
        let extensions = decode_list16::<Extension>(buf)?;
        Ok(NewSessionTicketPayload { ticket_lifetime, ticket_age_add, ticket_nonce, ticket, extensions })
    }
}

/// A finished message: verify data as long as the negotiated suite's hash.
#[derive(Debug, PartialEq, Eq)]
pub struct FinishedPayload {
    pub verify_data: Bytes,
}

pub struct FinishedPayloadView {
    pub verify_data: Seq<u8>,
}

impl View for FinishedPayload {
    type V = FinishedPayloadView;

    open spec fn view(&self) -> FinishedPayloadView {
        FinishedPayloadView { verify_data: bytes_view(self.verify_data) }
    }
}

/// What decoding a finished message finds: without a negotiated suite, an
/// error; else verify data as long as the suite's hash.
pub open spec fn spec_decode_finished(s: Seq<u8>, cipher_suite: Option<SupportedCipherSuite>) -> SpecResult<FinishedPayloadView> {
    match cipher_suite {
        None => Err(TlsErrorView::Crypto("cipher suite not set"@)),
        Some(cs) => {
            let n = cs.hash_len_spec() as int;
            if s.len() < n {
                Err(TlsErrorView::Incomplete((n - s.len()) as usize))
            } else {
                Ok((FinishedPayloadView { verify_data: s.take(n) }, s.skip(n)))
            }
        },
    }
}

/// The finished messages that are read back as written: a suite is set and
/// the verify data is as long as its hash.
pub open spec fn finished_wf(v: FinishedPayloadView, cipher_suite: Option<SupportedCipherSuite>) -> bool {
    cipher_suite matches Some(cs) && v.verify_data.len() == cs.hash_len_spec()
}

impl FinishedPayload {
    /// Appends the verify data.
    pub fn encode(&self, buf: &mut BytesMut)
        requires
            bytes_mut_view(*old(buf)).len() + bytes_view(self.verify_data).len() <= isize::MAX,
        ensures
            bytes_mut_view(*final(buf)) == bytes_mut_view(*old(buf)) + bytes_view(self.verify_data),
    {
        bm_put_slice(buf, b_as_slice(&self.verify_data));
    }

    /// Reads verify data as long as the negotiated suite's hash. On an error
    /// (no suite, or too few bytes) the buffer is left as it was.
    pub fn decode(buf: &mut BytesMut, cipher_suite: Option<&SupportedCipherSuite>) -> (res: TlsResult<Self>)
        ensures
            crate::message::serialize::decoded_as(
                spec_decode_finished(bytes_mut_view(*old(buf)), opt_suite(cipher_suite)),
                res,
                bytes_mut_view(*final(buf)),
            ),
            is_suffix(bytes_mut_view(*final(buf)), bytes_mut_view(*old(buf))),
            res is Err ==> bytes_mut_view(*final(buf)) == bytes_mut_view(*old(buf)),
    {
        let hash_len: usize = match cipher_suite {
            Some(cs) => cs.hash_len(),
            None => {
                let message = String::from_str("cipher suite not set");
                proof {
                    reveal_strlit("cipher suite not set");
                }
                return Err(TlsError::Crypto(message));
            },
        };
        let remaining = bm_len(buf);
        if remaining < hash_len {
            return Err(TlsError::Incomplete(hash_len - remaining));
        }
        let verify_data = bm_freeze(bm_split_to(buf, hash_len));
        Ok(FinishedPayload { verify_data })
    }
}

/// A key update: whether the peer is asked to update its keys too.
#[derive(Debug, PartialEq, Eq)]
pub struct KeyUpdatePayload {
    pub request_update: KeyUpdateRequest,
}

impl View for KeyUpdatePayload {
    type V = KeyUpdateRequest;

    open spec fn view(&self) -> KeyUpdateRequest {
        self.request_update
    }
}

impl Serialize for KeyUpdatePayload {
    open spec fn spec_encode(v: KeyUpdateRequest) -> Seq<u8> {
        seq![v.spec_code()]
    }

    open spec fn spec_decode(s: Seq<u8>) -> SpecResult<KeyUpdateRequest> {
        if s.len() < 1 {
            Err(TlsErrorView::Incomplete((1 - s.len()) as usize))
        } else {
            match KeyUpdateRequest::spec_from_code(s[0]) {
                Ok(v) => Ok((v, s.skip(1))),
                Err(e) => Err(e@),
            }
        }
    }

    open spec fn spec_wf(v: KeyUpdateRequest) -> bool {
        true
    }

    open spec fn spec_self_delimiting() -> bool {
        true
    }

    open spec fn spec_consumes() -> bool {
        true
    }

    proof fn lemma_decode_suffix(s: Seq<u8>) {
    }

    proof fn lemma_roundtrip(v: KeyUpdateRequest, rest: Seq<u8>) {
        v.lemma_code_roundtrip(0);
        let s = Self::spec_encode(v) + rest;
        assert(s.skip(1) =~= rest);
    }

    fn encode(&self, buf: &mut BytesMut) {
        bm_put_u8(buf, self.request_update.code());
        assert(bytes_mut_view(*buf) =~= bytes_mut_view(*old(buf)) + Self::spec_encode(self@));
    }

    fn decode(buf: &mut BytesMut) -> (res: TlsResult<Self>) {
        let remaining = bm_len(buf);
        if remaining < 1 {
            return Err(TlsError::Incomplete(1 - remaining));
        }
        let request_update = KeyUpdateRequest::try_from(bm_get_u8(buf))?;
        Ok(Self { request_update })
    }
}

/// Whether the peer is asked to update its keys as well.
#[derive(Debug, Clone, Copy, PartialEq, Eq, Structural)]
pub enum KeyUpdateRequest {
    UpdateNotRequested,
    UpdateRequested,
}

impl KeyUpdateRequest {
    /// The code that stands for the value on the wire.
    pub open spec fn spec_code(self) -> u8 {
        match self {
            KeyUpdateRequest::UpdateNotRequested => 0x00,
            KeyUpdateRequest::UpdateRequested => 0x01,
        }
    }

    /// The value that a code stands for; any other code is answered with
    /// the alert `MissingExtension`.
    pub open spec fn spec_from_code(v: u8) -> Result<KeyUpdateRequest, TlsError> {
        match v {
            0x00 => Ok(KeyUpdateRequest::UpdateNotRequested),
            0x01 => Ok(KeyUpdateRequest::UpdateRequested),
            _ => Err(TlsError::Alert(AlertDescription::MissingExtension)),
        }
    }

    /// The wire codes of the named values, as the protocol's registry fixes
    /// them: each value is written as its number, and a code is read as that
    /// value exactly when it is that number.
    pub proof fn lemma_wire_codes(c: u8)
        ensures
            KeyUpdateRequest::UpdateNotRequested.spec_code() == 0x00,
            KeyUpdateRequest::UpdateRequested.spec_code() == 0x01,
            (KeyUpdateRequest::spec_from_code(c) == Ok::<_, TlsError>(KeyUpdateRequest::UpdateNotRequested)) <==> c == 0x00,
            (KeyUpdateRequest::spec_from_code(c) == Ok::<_, TlsError>(KeyUpdateRequest::UpdateRequested)) <==> c == 0x01,
    {
    }

    /// A value written as its code is read back as itself, and a code that
    /// is read as a value is that value's code.
    pub proof fn lemma_code_roundtrip(self, v: u8)
        ensures
            KeyUpdateRequest::spec_from_code(self.spec_code()) == Ok::<_, TlsError>(self),
            KeyUpdateRequest::spec_from_code(v) matches Ok(x) ==> x.spec_code() == v,
    {
    }

    /// The code that stands for the value on the wire.
    pub fn code(self) -> (res: u8)
        ensures
            res == self.spec_code(),
    {
        match self {
            KeyUpdateRequest::UpdateNotRequested => 0x00,
            KeyUpdateRequest::UpdateRequested => 0x01,
        }
    }

    /// The value that a code stands for; any other code is answered with
    /// the alert `MissingExtension`.
    pub fn try_from(value: u8) -> (res: Result<Self, TlsError>)
        ensures
            res == KeyUpdateRequest::spec_from_code(value),
    {
        match value {
            0x00 => Ok(KeyUpdateRequest::UpdateNotRequested),
            0x01 => Ok(KeyUpdateRequest::UpdateRequested),
            _ => Err(TlsError::Alert(AlertDescription::MissingExtension)),
        }
    }
}

/// How a handshake message's first byte names its type, for every input
/// and every message: a message read has the type that its first byte names
/// in the registry (`0x01` client hello, `0x02` server hello, ...), and a
/// message is written with its type's number first.
pub proof fn lemma_handshake_type_byte(s: Seq<u8>, cipher_suite: Option<SupportedCipherSuite>, v: HandshakeMessageView)
    ensures
        spec_decode_handshake(s, cipher_suite) matches Ok((r, _)) ==> {
            &&& (r.handshake_type == HandshakeType::ClientHello <==> s[0] == 0x01)
            &&& (r.handshake_type == HandshakeType::EndOfEarlyData <==> s[0] == 0x05)
            &&& (r.handshake_type == HandshakeType::ServerHello <==> s[0] == 0x02)
            &&& (r.handshake_type == HandshakeType::NewSessionTicket <==> s[0] == 0x04)
            &&& (r.handshake_type == HandshakeType::EncryptedExtensions <==> s[0] == 0x08)
            &&& (r.handshake_type == HandshakeType::CertificateRequest <==> s[0] == 0x0D)
            &&& (r.handshake_type == HandshakeType::Certificate <==> s[0] == 0x0B)
            &&& (r.handshake_type == HandshakeType::CompressedCertificate <==> s[0] == 0x19)
            &&& (r.handshake_type == HandshakeType::CertificateVerify <==> s[0] == 0x0F)
            &&& (r.handshake_type == HandshakeType::Finished <==> s[0] == 0x14)
            &&& (r.handshake_type == HandshakeType::KeyUpdate <==> s[0] == 0x18)
        },
        v.handshake_type == HandshakeType::ClientHello ==> spec_encode_handshake(v)[0] == 0x01,
        v.handshake_type == HandshakeType::EndOfEarlyData ==> spec_encode_handshake(v)[0] == 0x05,
        v.handshake_type == HandshakeType::ServerHello ==> spec_encode_handshake(v)[0] == 0x02,
        v.handshake_type == HandshakeType::NewSessionTicket ==> spec_encode_handshake(v)[0] == 0x04,
        v.handshake_type == HandshakeType::EncryptedExtensions ==> spec_encode_handshake(v)[0] == 0x08,
        v.handshake_type == HandshakeType::CertificateRequest ==> spec_encode_handshake(v)[0] == 0x0D,
        v.handshake_type == HandshakeType::Certificate ==> spec_encode_handshake(v)[0] == 0x0B,
        v.handshake_type == HandshakeType::CompressedCertificate ==> spec_encode_handshake(v)[0] == 0x19,
        v.handshake_type == HandshakeType::CertificateVerify ==> spec_encode_handshake(v)[0] == 0x0F,
        v.handshake_type == HandshakeType::Finished ==> spec_encode_handshake(v)[0] == 0x14,
        v.handshake_type == HandshakeType::KeyUpdate ==> spec_encode_handshake(v)[0] == 0x18,
{
}

} // verus!
