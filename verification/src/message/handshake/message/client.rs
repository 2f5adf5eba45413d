//! Handshake messages that a client sends.
use vstd::prelude::*;

use bytes::BytesMut;

use crate::error::{TlsError, TlsResult};
use crate::message::handshake::certificate::certificate::{CertificatePayload, CertificatePayloadView};
use crate::message::handshake::certificate::verify::{CertificateVerifyPayload, CertificateVerifyPayloadView};
use crate::message::handshake::hello::client::{ClientHelloPayload, ClientHelloPayloadView};
use crate::message::serialize::{Serialize, SpecResult, decoded_as};
use crate::seqs::is_suffix;
use crate::buffer::bytes_mut_view;

verus! {

broadcast use crate::seqs::group_codec;

/// The type of a handshake message that a client sends.
#[derive(Debug, Clone, Copy, PartialEq, Eq, Structural)]
pub enum ClientHandshakeType {
    ClientHello,
    EndOfEarlyData,
    Certificate,
    CertificateVerify,
}

impl ClientHandshakeType {
    /// The code that stands for the value on the wire.
    pub open spec fn spec_code(self) -> u8 {
        match self {
            ClientHandshakeType::ClientHello => 0x01,
            ClientHandshakeType::EndOfEarlyData => 0x05,
            ClientHandshakeType::Certificate => 0x0B,
            ClientHandshakeType::CertificateVerify => 0x0F,
        }
    }

    /// The value that a code stands for, or the error for a code that stands for none.
    pub open spec fn spec_from_code(v: u8) -> Result<ClientHandshakeType, TlsError> {
        match v {
            0x01 => Ok(ClientHandshakeType::ClientHello),
            0x05 => Ok(ClientHandshakeType::EndOfEarlyData),
            0x0B => Ok(ClientHandshakeType::Certificate),
            0x0F => Ok(ClientHandshakeType::CertificateVerify),
            _ => Err(TlsError::Unknown("handshake type")),
        }
    }

    /// The wire codes of the named values, as the protocol's registry fixes
    /// them: each value is written as its number, and a code is read as that
    /// value exactly when it is that number.
    pub proof fn lemma_wire_codes(c: u8)
        ensures
            ClientHandshakeType::ClientHello.spec_code() == 0x01,
            ClientHandshakeType::EndOfEarlyData.spec_code() == 0x05,
            ClientHandshakeType::Certificate.spec_code() == 0x0B,
            ClientHandshakeType::CertificateVerify.spec_code() == 0x0F,
            (ClientHandshakeType::spec_from_code(c) == Ok::<_, TlsError>(ClientHandshakeType::ClientHello)) <==> c == 0x01,
            (ClientHandshakeType::spec_from_code(c) == Ok::<_, TlsError>(ClientHandshakeType::EndOfEarlyData)) <==> c == 0x05,
            (ClientHandshakeType::spec_from_code(c) == Ok::<_, TlsError>(ClientHandshakeType::Certificate)) <==> c == 0x0B,
            (ClientHandshakeType::spec_from_code(c) == Ok::<_, TlsError>(ClientHandshakeType::CertificateVerify)) <==> c == 0x0F,
    {
    }

    /// A value written as its code is read back as itself, and a code that
    /// is read as a value is that value's code.
    pub proof fn lemma_code_roundtrip(self, v: u8)
        ensures
            ClientHandshakeType::spec_from_code(self.spec_code()) == Ok::<_, TlsError>(self),
            ClientHandshakeType::spec_from_code(v) matches Ok(x) ==> x.spec_code() == v,
    {
    }
}

impl View for ClientHandshakeType {
    type V = ClientHandshakeType;

    open spec fn view(&self) -> ClientHandshakeType {
        *self
    }
}

impl ClientHandshakeType {
    /// The code that stands for the value on the wire.
    pub fn code(self) -> (res: u8)
        ensures
            res == self.spec_code(),
    {
        match self {
            ClientHandshakeType::ClientHello => 0x01,
            ClientHandshakeType::EndOfEarlyData => 0x05,
            ClientHandshakeType::Certificate => 0x0B,
            ClientHandshakeType::CertificateVerify => 0x0F,
        }
    }

    /// The value that a code stands for, or the error for a code that stands for none.
    pub fn try_from(value: u8) -> (res: Result<Self, TlsError>)
        ensures
            res == ClientHandshakeType::spec_from_code(value),
    {
        match value {
            0x01 => Ok(ClientHandshakeType::ClientHello),
            0x05 => Ok(ClientHandshakeType::EndOfEarlyData),
            0x0B => Ok(ClientHandshakeType::Certificate),
            0x0F => Ok(ClientHandshakeType::CertificateVerify),
            _ => Err(TlsError::Unknown("handshake type")),
        }
    }
}

/// The payload of a handshake message that a client sends.
#[derive(Debug, PartialEq, Eq)]
pub enum ClientHandshakePayload {
    ClientHello(ClientHelloPayload),
    EndOfEarlyData,
    Certificate(CertificatePayload),
    CertificateVerify(CertificateVerifyPayload),
}

pub enum ClientHandshakePayloadView {
    ClientHello(ClientHelloPayloadView),
    EndOfEarlyData,
    Certificate(CertificatePayloadView),
    CertificateVerify(CertificateVerifyPayloadView),
}

impl View for ClientHandshakePayload {
    type V = ClientHandshakePayloadView;

    open spec fn view(&self) -> ClientHandshakePayloadView {
        match self {
            ClientHandshakePayload::ClientHello(p) => ClientHandshakePayloadView::ClientHello(p@),
            ClientHandshakePayload::EndOfEarlyData => ClientHandshakePayloadView::EndOfEarlyData,
            ClientHandshakePayload::Certificate(p) => ClientHandshakePayloadView::Certificate(p@),
            ClientHandshakePayload::CertificateVerify(p) => ClientHandshakePayloadView::CertificateVerify(p@),
        }
    }
}

/// The encoding of the payload.
#[verifier::opaque]
pub open spec fn spec_encode_client_handshake_payload(p: ClientHandshakePayloadView) -> Seq<u8> {
    match p {
        ClientHandshakePayloadView::ClientHello(q) => ClientHelloPayload::spec_encode(q),
        ClientHandshakePayloadView::EndOfEarlyData => Seq::empty(),
        ClientHandshakePayloadView::Certificate(q) => CertificatePayload::spec_encode(q),
        ClientHandshakePayloadView::CertificateVerify(q) => CertificateVerifyPayload::spec_encode(q),
    }
}

/// What decoding the payload of a message of the given type finds.
#[verifier::opaque]
pub open spec fn spec_decode_client_handshake_payload(ty: ClientHandshakeType, s: Seq<u8>) -> SpecResult<ClientHandshakePayloadView> {
    match ty {
        ClientHandshakeType::ClientHello => match ClientHelloPayload::spec_decode(s) {
            Ok((q, rest)) => Ok((ClientHandshakePayloadView::ClientHello(q), rest)),
            Err(x) => Err(x),
        },
        ClientHandshakeType::EndOfEarlyData => Ok((ClientHandshakePayloadView::EndOfEarlyData, s)),
        ClientHandshakeType::Certificate => match CertificatePayload::spec_decode(s) {
            Ok((q, rest)) => Ok((ClientHandshakePayloadView::Certificate(q), rest)),
            Err(x) => Err(x),
        },
        ClientHandshakeType::CertificateVerify => match CertificateVerifyPayload::spec_decode(s) {
            Ok((q, rest)) => Ok((ClientHandshakePayloadView::CertificateVerify(q), rest)),
            Err(x) => Err(x),
        },
    }
}

/// The payload is of the given type and is read back as written.
pub open spec fn client_handshake_payload_fits(ty: ClientHandshakeType, p: ClientHandshakePayloadView) -> bool {
    match p {
        ClientHandshakePayloadView::ClientHello(q) => ty == ClientHandshakeType::ClientHello && ClientHelloPayload::spec_wf(q),
        ClientHandshakePayloadView::EndOfEarlyData => ty == ClientHandshakeType::EndOfEarlyData,
        ClientHandshakePayloadView::Certificate(q) => ty == ClientHandshakeType::Certificate && CertificatePayload::spec_wf(q),
        ClientHandshakePayloadView::CertificateVerify(q) => ty == ClientHandshakeType::CertificateVerify && CertificateVerifyPayload::spec_wf(q),
    }
}

/// Decoding the encoding of a payload that fits its type gives it back.
#[verifier::spinoff_prover]
#[verifier::rlimit(60)]
pub proof fn lemma_client_handshake_payload_roundtrip(ty: ClientHandshakeType, p: ClientHandshakePayloadView)
    requires
        client_handshake_payload_fits(ty, p),
    ensures
        spec_decode_client_handshake_payload(ty, spec_encode_client_handshake_payload(p)) matches Ok((q, _)) && q == p,
{
    reveal(spec_encode_client_handshake_payload);
    reveal(spec_decode_client_handshake_payload);
    let e = Seq::<u8>::empty();
    match p {
        ClientHandshakePayloadView::ClientHello(q) => {
            ClientHelloPayload::lemma_roundtrip(q, e);
            assert(ClientHelloPayload::spec_encode(q) + e =~= ClientHelloPayload::spec_encode(q));
        },
        ClientHandshakePayloadView::Certificate(q) => {
            CertificatePayload::lemma_roundtrip(q, e);
            assert(CertificatePayload::spec_encode(q) + e =~= CertificatePayload::spec_encode(q));
        },
        ClientHandshakePayloadView::CertificateVerify(q) => {
            CertificateVerifyPayload::lemma_roundtrip(q, e);
            assert(CertificateVerifyPayload::spec_encode(q) + e =~= CertificateVerifyPayload::spec_encode(q));
        },
        _ => {},
    }
}

impl ClientHandshakePayload {
    /// Appends the encoding of the payload.
    pub fn encode_payload(&self, buf: &mut BytesMut)
        requires
            bytes_mut_view(*old(buf)).len() + spec_encode_client_handshake_payload(self@).len() <= isize::MAX,
        ensures
            bytes_mut_view(*final(buf)) == bytes_mut_view(*old(buf)) + spec_encode_client_handshake_payload(self@),
    {
        reveal(spec_encode_client_handshake_payload);
        match self {
            ClientHandshakePayload::ClientHello(p) => p.encode(buf),
            ClientHandshakePayload::EndOfEarlyData => {
                assert(bytes_mut_view(*buf) =~= bytes_mut_view(*old(buf)) + Seq::<u8>::empty());
            },
            ClientHandshakePayload::Certificate(p) => p.encode(buf),
            ClientHandshakePayload::CertificateVerify(p) => p.encode(buf),
        }
    }

    /// Reads the payload of a message of the given type from the start of `buf`.
    pub fn decode_payload(handshake_type: ClientHandshakeType, buf: &mut BytesMut) -> (res: TlsResult<Self>)
        ensures
            decoded_as(spec_decode_client_handshake_payload(handshake_type, bytes_mut_view(*old(buf))), res, bytes_mut_view(*final(buf))),
            is_suffix(bytes_mut_view(*final(buf)), bytes_mut_view(*old(buf))),
    {
        reveal(spec_decode_client_handshake_payload);
        match handshake_type {
            ClientHandshakeType::ClientHello => Ok(ClientHandshakePayload::ClientHello(ClientHelloPayload::decode(buf)?)),
            ClientHandshakeType::EndOfEarlyData => Ok(ClientHandshakePayload::EndOfEarlyData),
            ClientHandshakeType::Certificate => Ok(ClientHandshakePayload::Certificate(CertificatePayload::decode(buf)?)),
            ClientHandshakeType::CertificateVerify => Ok(ClientHandshakePayload::CertificateVerify(CertificateVerifyPayload::decode(buf)?)),
        }
    }
}

} // verus!
