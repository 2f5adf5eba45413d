//! Handshake messages that a server sends.
use vstd::prelude::*;

use bytes::BytesMut;

use crate::error::{TlsError, TlsErrorView, TlsResult};
use crate::message::handshake::certificate::certificate::{CertificatePayload, CertificatePayloadView};
use crate::message::handshake::certificate::verify::{CertificateVerifyPayload, CertificateVerifyPayloadView};
use crate::message::handshake::encrypted_extensions::{EncryptedExtensionsPayload, EncryptedExtensionsPayloadView};
use crate::message::handshake::hello::server::{ServerHelloPayload, ServerHelloPayloadView};
use crate::message::serialize::{Serialize, SpecResult, decoded_as};
use crate::seqs::is_suffix;
use crate::buffer::bytes_mut_view;

verus! {

broadcast use crate::seqs::group_codec;

/// The type of a handshake message that a server sends. `HelloRetryRequest`
/// has the code `0x0E` that its place in the list gives it, and no code is
/// read as it.
#[derive(Debug, Clone, Copy, PartialEq, Eq, Structural)]
pub enum ServerHandshakeType {
    ServerHello,
    NewSessionTicket,
    EncryptedExtensions,
    Certificate,
    CertificateVerify,
    CertificateRequest,
    HelloRetryRequest,
}

impl ServerHandshakeType {
    /// The code that stands for the value on the wire.
    pub open spec fn spec_code(self) -> u8 {
        match self {
            ServerHandshakeType::ServerHello => 0x02,
            ServerHandshakeType::NewSessionTicket => 0x04,
            ServerHandshakeType::EncryptedExtensions => 0x08,
            ServerHandshakeType::Certificate => 0x0B,
            ServerHandshakeType::CertificateVerify => 0x0F,
            ServerHandshakeType::CertificateRequest => 0x0D,
            ServerHandshakeType::HelloRetryRequest => 0x0E,
        }
    }

    /// The value that a code stands for, or the error for a code that stands for none.
    pub open spec fn spec_from_code(v: u8) -> Result<ServerHandshakeType, TlsError> {
        match v {
            0x02 => Ok(ServerHandshakeType::ServerHello),
            0x04 => Ok(ServerHandshakeType::NewSessionTicket),
            0x08 => Ok(ServerHandshakeType::EncryptedExtensions),
            0x0B => Ok(ServerHandshakeType::Certificate),
            0x0F => Ok(ServerHandshakeType::CertificateVerify),
            0x0D => Ok(ServerHandshakeType::CertificateRequest),
            _ => Err(TlsError::Unknown("handshake type")),
        }
    }

    /// The wire codes of the named values, as the protocol's registry fixes
    /// them: each value is written as its number, and a code is read as that
    /// value exactly when it is that number.
    pub proof fn lemma_wire_codes(c: u8)
        ensures
            ServerHandshakeType::ServerHello.spec_code() == 0x02,
            ServerHandshakeType::NewSessionTicket.spec_code() == 0x04,
            ServerHandshakeType::EncryptedExtensions.spec_code() == 0x08,
            ServerHandshakeType::Certificate.spec_code() == 0x0B,
            ServerHandshakeType::CertificateVerify.spec_code() == 0x0F,
            ServerHandshakeType::CertificateRequest.spec_code() == 0x0D,
            ServerHandshakeType::HelloRetryRequest.spec_code() == 0x0E,
            (ServerHandshakeType::spec_from_code(c) == Ok::<_, TlsError>(ServerHandshakeType::ServerHello)) <==> c == 0x02,
            (ServerHandshakeType::spec_from_code(c) == Ok::<_, TlsError>(ServerHandshakeType::NewSessionTicket)) <==> c == 0x04,
            (ServerHandshakeType::spec_from_code(c) == Ok::<_, TlsError>(ServerHandshakeType::EncryptedExtensions)) <==> c == 0x08,
            (ServerHandshakeType::spec_from_code(c) == Ok::<_, TlsError>(ServerHandshakeType::Certificate)) <==> c == 0x0B,
            (ServerHandshakeType::spec_from_code(c) == Ok::<_, TlsError>(ServerHandshakeType::CertificateVerify)) <==> c == 0x0F,
            (ServerHandshakeType::spec_from_code(c) == Ok::<_, TlsError>(ServerHandshakeType::CertificateRequest)) <==> c == 0x0D,
    {
    }

    /// A value other than `HelloRetryRequest` written as its code is read
    /// back as itself, and a code that is read as a value is that value's code.
    pub proof fn lemma_code_roundtrip(self, v: u8)
        ensures
            self != ServerHandshakeType::HelloRetryRequest ==> ServerHandshakeType::spec_from_code(self.spec_code())
                == Ok::<_, TlsError>(self),
            ServerHandshakeType::spec_from_code(v) matches Ok(x) ==> x.spec_code() == v,
    {
    }

    /// The value that a code stands for, or the error for a code that stands for none.
    pub fn try_from(value: u8) -> (res: Result<Self, TlsError>)
        ensures
            res == ServerHandshakeType::spec_from_code(value),
    {
        match value {
            0x02 => Ok(ServerHandshakeType::ServerHello),
            0x04 => Ok(ServerHandshakeType::NewSessionTicket),
            0x08 => Ok(ServerHandshakeType::EncryptedExtensions),
            0x0B => Ok(ServerHandshakeType::Certificate),
            0x0F => Ok(ServerHandshakeType::CertificateVerify),
            0x0D => Ok(ServerHandshakeType::CertificateRequest),
            _ => Err(TlsError::Unknown("handshake type")),
        }
    }
}

impl View for ServerHandshakeType {
    type V = ServerHandshakeType;

    open spec fn view(&self) -> ServerHandshakeType {
        *self
    }
}

/// The payload of a handshake message that a server sends.
#[derive(Debug, PartialEq, Eq)]
pub enum ServerHandshakePayload {
    ServerHello(ServerHelloPayload),
    EncryptedExtensions(EncryptedExtensionsPayload),
    Certificate(CertificatePayload),
    CertificateVerify(CertificateVerifyPayload),
}

pub enum ServerHandshakePayloadView {
    ServerHello(ServerHelloPayloadView),
    EncryptedExtensions(EncryptedExtensionsPayloadView),
    Certificate(CertificatePayloadView),
    CertificateVerify(CertificateVerifyPayloadView),
}

impl View for ServerHandshakePayload {
    type V = ServerHandshakePayloadView;

    open spec fn view(&self) -> ServerHandshakePayloadView {
        match self {
            ServerHandshakePayload::ServerHello(p) => ServerHandshakePayloadView::ServerHello(p@),
            ServerHandshakePayload::EncryptedExtensions(p) => ServerHandshakePayloadView::EncryptedExtensions(p@),
            ServerHandshakePayload::Certificate(p) => ServerHandshakePayloadView::Certificate(p@),
            ServerHandshakePayload::CertificateVerify(p) => ServerHandshakePayloadView::CertificateVerify(p@),
        }
    }
}

/// The encoding of the payload.
#[verifier::opaque]
pub open spec fn spec_encode_server_handshake_payload(p: ServerHandshakePayloadView) -> Seq<u8> {
    match p {
        ServerHandshakePayloadView::ServerHello(q) => ServerHelloPayload::spec_encode(q),
        ServerHandshakePayloadView::EncryptedExtensions(q) => EncryptedExtensionsPayload::spec_encode(q),
        ServerHandshakePayloadView::Certificate(q) => CertificatePayload::spec_encode(q),
        ServerHandshakePayloadView::CertificateVerify(q) => CertificateVerifyPayload::spec_encode(q),
    }
}

/// What decoding the payload of a message of the given type finds.
#[verifier::opaque]
pub open spec fn spec_decode_server_handshake_payload(ty: ServerHandshakeType, s: Seq<u8>) -> SpecResult<ServerHandshakePayloadView> {
    match ty {
        ServerHandshakeType::ServerHello => match ServerHelloPayload::spec_decode(s) {
            Ok((q, rest)) => Ok((ServerHandshakePayloadView::ServerHello(q), rest)),
            Err(x) => Err(x),
        },
        ServerHandshakeType::EncryptedExtensions => match EncryptedExtensionsPayload::spec_decode(s) {
            Ok((q, rest)) => Ok((ServerHandshakePayloadView::EncryptedExtensions(q), rest)),
            Err(x) => Err(x),
        },
        ServerHandshakeType::Certificate => match CertificatePayload::spec_decode(s) {
            Ok((q, rest)) => Ok((ServerHandshakePayloadView::Certificate(q), rest)),
            Err(x) => Err(x),
        },
        ServerHandshakeType::CertificateVerify => match CertificateVerifyPayload::spec_decode(s) {
            Ok((q, rest)) => Ok((ServerHandshakePayloadView::CertificateVerify(q), rest)),
            Err(x) => Err(x),
        },
        _ => Err(TlsErrorView::Unknown("handshake type"@)),
    }
}

/// The payload is of the given type and is read back as written.
pub open spec fn server_handshake_payload_fits(ty: ServerHandshakeType, p: ServerHandshakePayloadView) -> bool {
    match p {
        ServerHandshakePayloadView::ServerHello(q) => ty == ServerHandshakeType::ServerHello && ServerHelloPayload::spec_wf(q),
        ServerHandshakePayloadView::EncryptedExtensions(q) => ty == ServerHandshakeType::EncryptedExtensions && EncryptedExtensionsPayload::spec_wf(q),
        ServerHandshakePayloadView::Certificate(q) => ty == ServerHandshakeType::Certificate && CertificatePayload::spec_wf(q),
        ServerHandshakePayloadView::CertificateVerify(q) => ty == ServerHandshakeType::CertificateVerify && CertificateVerifyPayload::spec_wf(q),
    }
}

/// Decoding the encoding of a payload that fits its type gives it back.
#[verifier::spinoff_prover]
#[verifier::rlimit(60)]
pub proof fn lemma_server_handshake_payload_roundtrip(ty: ServerHandshakeType, p: ServerHandshakePayloadView)
    requires
        server_handshake_payload_fits(ty, p),
    ensures
        spec_decode_server_handshake_payload(ty, spec_encode_server_handshake_payload(p)) matches Ok((q, _)) && q == p,
{
    reveal(spec_encode_server_handshake_payload);
    reveal(spec_decode_server_handshake_payload);
    let e = Seq::<u8>::empty();
    match p {
        ServerHandshakePayloadView::ServerHello(q) => {
            ServerHelloPayload::lemma_roundtrip(q, e);
            assert(ServerHelloPayload::spec_encode(q) + e =~= ServerHelloPayload::spec_encode(q));
        },
        ServerHandshakePayloadView::EncryptedExtensions(q) => {
            EncryptedExtensionsPayload::lemma_roundtrip(q, e);
            assert(EncryptedExtensionsPayload::spec_encode(q) + e =~= EncryptedExtensionsPayload::spec_encode(q));
        },
        ServerHandshakePayloadView::Certificate(q) => {
            CertificatePayload::lemma_roundtrip(q, e);
            assert(CertificatePayload::spec_encode(q) + e =~= CertificatePayload::spec_encode(q));
        },
        ServerHandshakePayloadView::CertificateVerify(q) => {
            CertificateVerifyPayload::lemma_roundtrip(q, e);
            assert(CertificateVerifyPayload::spec_encode(q) + e =~= CertificateVerifyPayload::spec_encode(q));
        },
    }
}

impl ServerHandshakePayload {
    /// Appends the encoding of the payload.
    pub fn encode_payload(&self, buf: &mut BytesMut)
        requires
            bytes_mut_view(*old(buf)).len() + spec_encode_server_handshake_payload(self@).len() <= isize::MAX,
        ensures
            bytes_mut_view(*final(buf)) == bytes_mut_view(*old(buf)) + spec_encode_server_handshake_payload(self@),
    {
        reveal(spec_encode_server_handshake_payload);
        match self {
            ServerHandshakePayload::ServerHello(p) => p.encode(buf),
            ServerHandshakePayload::EncryptedExtensions(p) => p.encode(buf),
            ServerHandshakePayload::Certificate(p) => p.encode(buf),
            ServerHandshakePayload::CertificateVerify(p) => p.encode(buf),
        }
    }

    /// Reads the payload of a message of the given type from the start of `buf`.
    pub fn decode_payload(handshake_type: ServerHandshakeType, buf: &mut BytesMut) -> (res: TlsResult<Self>)
        ensures
            decoded_as(spec_decode_server_handshake_payload(handshake_type, bytes_mut_view(*old(buf))), res, bytes_mut_view(*final(buf))),
            is_suffix(bytes_mut_view(*final(buf)), bytes_mut_view(*old(buf))),
    {
        reveal(spec_decode_server_handshake_payload);
        match handshake_type {
            ServerHandshakeType::ServerHello => Ok(ServerHandshakePayload::ServerHello(ServerHelloPayload::decode(buf)?)),
            ServerHandshakeType::EncryptedExtensions => Ok(ServerHandshakePayload::EncryptedExtensions(EncryptedExtensionsPayload::decode(buf)?)),
            ServerHandshakeType::Certificate => Ok(ServerHandshakePayload::Certificate(CertificatePayload::decode(buf)?)),
            ServerHandshakeType::CertificateVerify => Ok(ServerHandshakePayload::CertificateVerify(CertificateVerifyPayload::decode(buf)?)),
            _ => Err(TlsError::Unknown("handshake type")),
        }
    }
}

} // verus!
