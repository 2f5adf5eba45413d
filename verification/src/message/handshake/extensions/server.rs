//! Server extensions as typed by the server's side: each type maps to the
//! payload a server sends for it.
use vstd::prelude::*;

use bytes::BytesMut;

use crate::buffer::{be16, bm_get_u16, bm_len, bm_put_u16, bytes_mut_view, read_be16};
use crate::error::{TlsError, TlsErrorView, TlsResult};
use crate::message::handshake::extensions::alpn::{AlpnPayload, AlpnPayloadView};
use crate::message::handshake::extensions::key_share::{KeyShareEntry, KeyShareEntryView, NamedGroup};
use crate::message::serialize::{Serialize, SpecResult, decoded_as};
use crate::message::version::Version;
use crate::seqs::is_suffix;

verus! {

broadcast use crate::seqs::group_codec;

/// The type of a server's extension.
#[derive(Debug, Clone, Copy, PartialEq, Eq, Structural)]
pub enum ServerExtensionType {
    KeyShare,
    SupportedVersions,
    RenegotiationInfo,
    ALPN,
}

impl ServerExtensionType {
    /// The code that stands for the value on the wire.
    pub open spec fn spec_code(self) -> u16 {
        match self {
            ServerExtensionType::KeyShare => 0x0033,
            ServerExtensionType::SupportedVersions => 0x002B,
            ServerExtensionType::RenegotiationInfo => 0xFF01,
            ServerExtensionType::ALPN => 0x0010,
        }
    }

    /// The value that a code stands for, or the error for a code that stands for none.
    pub open spec fn spec_from_code(v: u16) -> Result<ServerExtensionType, TlsError> {
        match v {
            0x0033 => Ok(ServerExtensionType::KeyShare),
            0x002B => Ok(ServerExtensionType::SupportedVersions),
            0xFF01 => Ok(ServerExtensionType::RenegotiationInfo),
            0x0010 => Ok(ServerExtensionType::ALPN),
            _ => Err(TlsError::Unknown("extension type")),
        }
    }

    /// The wire codes of the named values, as the protocol's registry fixes
    /// them: each value is written as its number, and a code is read as that
    /// value exactly when it is that number.
    pub proof fn lemma_wire_codes(c: u16)
        ensures
            ServerExtensionType::KeyShare.spec_code() == 0x0033,
            ServerExtensionType::SupportedVersions.spec_code() == 0x002B,
            ServerExtensionType::RenegotiationInfo.spec_code() == 0xFF01,
            ServerExtensionType::ALPN.spec_code() == 0x0010,
            (ServerExtensionType::spec_from_code(c) == Ok::<_, TlsError>(ServerExtensionType::KeyShare)) <==> c == 0x0033,
            (ServerExtensionType::spec_from_code(c) == Ok::<_, TlsError>(ServerExtensionType::SupportedVersions)) <==> c == 0x002B,
            (ServerExtensionType::spec_from_code(c) == Ok::<_, TlsError>(ServerExtensionType::RenegotiationInfo)) <==> c == 0xFF01,
            (ServerExtensionType::spec_from_code(c) == Ok::<_, TlsError>(ServerExtensionType::ALPN)) <==> c == 0x0010,
    {
    }

    /// A value written as its code is read back as itself, and a code that
    /// is read as a value is that value's code.
    pub proof fn lemma_code_roundtrip(self, v: u16)
        ensures
            ServerExtensionType::spec_from_code(self.spec_code()) == Ok::<_, TlsError>(self),
            ServerExtensionType::spec_from_code(v) matches Ok(x) ==> x.spec_code() == v,
    {
    }
}

impl View for ServerExtensionType {
    type V = ServerExtensionType;

    open spec fn view(&self) -> ServerExtensionType {
        *self
    }
}

impl ServerExtensionType {
    /// The code that stands for the value on the wire.
    pub fn code(self) -> (res: u16)
        ensures
            res == self.spec_code(),
    {
        match self {
            ServerExtensionType::KeyShare => 0x0033,
            ServerExtensionType::SupportedVersions => 0x002B,
            ServerExtensionType::RenegotiationInfo => 0xFF01,
            ServerExtensionType::ALPN => 0x0010,
        }
    }

    /// The value that a code stands for, or the error for a code that stands for none.
    pub fn try_from(value: u16) -> (res: Result<Self, TlsError>)
        ensures
            res == ServerExtensionType::spec_from_code(value),
    {
        match value {
            0x0033 => Ok(ServerExtensionType::KeyShare),
            0x002B => Ok(ServerExtensionType::SupportedVersions),
            0xFF01 => Ok(ServerExtensionType::RenegotiationInfo),
            0x0010 => Ok(ServerExtensionType::ALPN),
            _ => Err(TlsError::Unknown("extension type")),
        }
    }
}

/// The payload of a server's extension.
#[derive(Debug, PartialEq, Eq)]
pub enum ServerExtensionPayload {
    KeyShareServer(KeyShareServer),
    SupportedVersionsServer(SupportedVersionsServer),
    KeyShareHelloRetryRequest(KeyShareHelloRetryRequest),
    RenegotiationInfo,
    ALPN(AlpnPayload),
}

pub enum ServerExtensionPayloadView {
    KeyShareServer(KeyShareServerView),
    SupportedVersionsServer(SupportedVersionsServerView),
    KeyShareHelloRetryRequest(KeyShareHelloRetryRequestView),
    RenegotiationInfo,
    ALPN(AlpnPayloadView),
}

impl View for ServerExtensionPayload {
    type V = ServerExtensionPayloadView;

    open spec fn view(&self) -> ServerExtensionPayloadView {
        match self {
            ServerExtensionPayload::KeyShareServer(p) => ServerExtensionPayloadView::KeyShareServer(p@),
            ServerExtensionPayload::SupportedVersionsServer(p) => ServerExtensionPayloadView::SupportedVersionsServer(p@),
            ServerExtensionPayload::KeyShareHelloRetryRequest(p) => ServerExtensionPayloadView::KeyShareHelloRetryRequest(p@),
            ServerExtensionPayload::RenegotiationInfo => ServerExtensionPayloadView::RenegotiationInfo,
            ServerExtensionPayload::ALPN(p) => ServerExtensionPayloadView::ALPN(p@),
        }
    }
}

/// The encoding of a server's extension payload.
#[verifier::opaque]
pub open spec fn spec_encode_server_payload(p: ServerExtensionPayloadView) -> Seq<u8> {
    match p {
        ServerExtensionPayloadView::KeyShareServer(q) => KeyShareServer::spec_encode(q),
        ServerExtensionPayloadView::SupportedVersionsServer(q) => SupportedVersionsServer::spec_encode(q),
        ServerExtensionPayloadView::KeyShareHelloRetryRequest(q) => KeyShareHelloRetryRequest::spec_encode(q),
        ServerExtensionPayloadView::RenegotiationInfo => Seq::empty(),
        ServerExtensionPayloadView::ALPN(q) => AlpnPayload::spec_encode(q),
    }
}

/// What decoding the payload of a server's extension of the given type
/// finds; a key share is read as the server's share.
#[verifier::opaque]
pub open spec fn spec_decode_server_payload(ty: ServerExtensionType, s: Seq<u8>) -> SpecResult<ServerExtensionPayloadView> {
    match ty {
        ServerExtensionType::KeyShare => match KeyShareServer::spec_decode(s) {
            Ok((q, rest)) => Ok((ServerExtensionPayloadView::KeyShareServer(q), rest)),
            Err(x) => Err(x),
        },
        ServerExtensionType::SupportedVersions => match SupportedVersionsServer::spec_decode(s) {
            Ok((q, rest)) => Ok((ServerExtensionPayloadView::SupportedVersionsServer(q), rest)),
            Err(x) => Err(x),
        },
        ServerExtensionType::RenegotiationInfo => Ok((ServerExtensionPayloadView::RenegotiationInfo, s)),
        ServerExtensionType::ALPN => match AlpnPayload::spec_decode(s) {
            Ok((q, rest)) => Ok((ServerExtensionPayloadView::ALPN(q), rest)),
            Err(x) => Err(x),
        },
    }
}

/// The payload is the one that its type's decoder gives, and is read back
/// as written (a hello retry request's key share is never what is read).
pub open spec fn server_payload_fits(ty: ServerExtensionType, p: ServerExtensionPayloadView) -> bool {
    match p {
        ServerExtensionPayloadView::KeyShareServer(q) => ty == ServerExtensionType::KeyShare && KeyShareServer::spec_wf(q),
        ServerExtensionPayloadView::SupportedVersionsServer(q) => ty == ServerExtensionType::SupportedVersions && SupportedVersionsServer::spec_wf(q),
        ServerExtensionPayloadView::KeyShareHelloRetryRequest(q) => false,
        ServerExtensionPayloadView::RenegotiationInfo => ty == ServerExtensionType::RenegotiationInfo,
        ServerExtensionPayloadView::ALPN(q) => ty == ServerExtensionType::ALPN && AlpnPayload::spec_wf(q),
    }
}

/// Decoding the encoding of a payload that fits its type gives it back.
pub proof fn lemma_server_payload_roundtrip(ty: ServerExtensionType, p: ServerExtensionPayloadView)
    requires
        server_payload_fits(ty, p),
    ensures
        spec_decode_server_payload(ty, spec_encode_server_payload(p)) matches Ok((q, _)) && q == p,
{
    reveal(spec_encode_server_payload);
    reveal(spec_decode_server_payload);
    let e = Seq::<u8>::empty();
    match p {
        ServerExtensionPayloadView::KeyShareServer(q) => {
            KeyShareServer::lemma_roundtrip(q, e);
            assert(KeyShareServer::spec_encode(q) + e =~= KeyShareServer::spec_encode(q));
        },
        ServerExtensionPayloadView::SupportedVersionsServer(q) => {
            SupportedVersionsServer::lemma_roundtrip(q, e);
            assert(SupportedVersionsServer::spec_encode(q) + e =~= SupportedVersionsServer::spec_encode(q));
        },
        ServerExtensionPayloadView::ALPN(q) => {
            AlpnPayload::lemma_roundtrip(q, e);
            assert(AlpnPayload::spec_encode(q) + e =~= AlpnPayload::spec_encode(q));
        },
        _ => {},
    }
}

impl ServerExtensionPayload {
    /// Appends the encoding of the payload.
    pub fn encode_payload(&self, buf: &mut BytesMut)
        requires
            bytes_mut_view(*old(buf)).len() + spec_encode_server_payload(self@).len() <= isize::MAX,
        ensures
            bytes_mut_view(*final(buf)) == bytes_mut_view(*old(buf)) + spec_encode_server_payload(self@),
    {
        reveal(spec_encode_server_payload);
        match self {
            ServerExtensionPayload::KeyShareServer(p) => p.encode(buf),
            ServerExtensionPayload::SupportedVersionsServer(p) => p.encode(buf),
            ServerExtensionPayload::KeyShareHelloRetryRequest(p) => p.encode(buf),
            ServerExtensionPayload::RenegotiationInfo => {
                assert(bytes_mut_view(*buf) =~= bytes_mut_view(*old(buf)) + Seq::<u8>::empty());
            },
            ServerExtensionPayload::ALPN(p) => p.encode(buf),
        }
    }

    /// Reads the payload of a server's extension of the given type from the start of `buf`.
    pub fn decode_payload(extension_type: ServerExtensionType, buf: &mut BytesMut) -> (res: TlsResult<Self>)
        ensures
            decoded_as(spec_decode_server_payload(extension_type, bytes_mut_view(*old(buf))), res, bytes_mut_view(*final(buf))),
            is_suffix(bytes_mut_view(*final(buf)), bytes_mut_view(*old(buf))),
    {
        reveal(spec_decode_server_payload);
        match extension_type {
            ServerExtensionType::KeyShare => Ok(ServerExtensionPayload::KeyShareServer(KeyShareServer::decode(buf)?)),
            ServerExtensionType::SupportedVersions => Ok(ServerExtensionPayload::SupportedVersionsServer(SupportedVersionsServer::decode(buf)?)),
            ServerExtensionType::RenegotiationInfo => Ok(ServerExtensionPayload::RenegotiationInfo),
            ServerExtensionType::ALPN => Ok(ServerExtensionPayload::ALPN(AlpnPayload::decode(buf)?)),
        }
    }
}

/// The key share that a server picks.
#[derive(Debug, PartialEq, Eq)]
pub struct KeyShareServer {
    pub server_share: KeyShareEntry,
}

pub struct KeyShareServerView {
    pub server_share: KeyShareEntryView,
}

impl View for KeyShareServer {
    type V = KeyShareServerView;

    open spec fn view(&self) -> KeyShareServerView {
        KeyShareServerView { server_share: self.server_share@ }
    }
}

impl Serialize for KeyShareServer {
    open spec fn spec_encode(v: KeyShareServerView) -> Seq<u8> {
        KeyShareEntry::spec_encode(v.server_share)
    }

    open spec fn spec_decode(s: Seq<u8>) -> SpecResult<KeyShareServerView> {
        match KeyShareEntry::spec_decode(s) {
            Ok((server_share, rest)) => Ok((KeyShareServerView { server_share }, rest)),
            Err(e) => Err(e),
        }
    }

    open spec fn spec_wf(v: KeyShareServerView) -> bool {
        KeyShareEntry::spec_wf(v.server_share)
    }

    open spec fn spec_self_delimiting() -> bool {
        true
    }

    open spec fn spec_consumes() -> bool {
        true
    }

    proof fn lemma_decode_suffix(s: Seq<u8>) {
        KeyShareEntry::lemma_decode_suffix(s);
    }

    proof fn lemma_roundtrip(v: KeyShareServerView, rest: Seq<u8>) {
        KeyShareEntry::lemma_roundtrip(v.server_share, rest);
    }

    fn encode(&self, buf: &mut BytesMut) {
        self.server_share.encode(buf);
    }

    fn decode(buf: &mut BytesMut) -> (res: TlsResult<Self>) {
        let server_share = KeyShareEntry::decode(buf)?;
        Ok(Self { server_share })
    }
}

/// The group that a server asks a client to retry with.
#[derive(Debug, PartialEq, Eq)]
pub struct KeyShareHelloRetryRequest {
    pub selected_group: NamedGroup,
}

pub struct KeyShareHelloRetryRequestView {
    pub selected_group: NamedGroup,
}

impl View for KeyShareHelloRetryRequest {
    type V = KeyShareHelloRetryRequestView;

    open spec fn view(&self) -> KeyShareHelloRetryRequestView {
        KeyShareHelloRetryRequestView { selected_group: self.selected_group }
    }
}

impl Serialize for KeyShareHelloRetryRequest {
    open spec fn spec_encode(v: KeyShareHelloRetryRequestView) -> Seq<u8> {
        be16(v.selected_group.spec_code())
    }

    open spec fn spec_decode(s: Seq<u8>) -> SpecResult<KeyShareHelloRetryRequestView> {
        if s.len() < 2 {
            Err(TlsErrorView::Incomplete((2 - s.len()) as usize))
        } else {
            Ok((KeyShareHelloRetryRequestView { selected_group: NamedGroup::spec_from_code(read_be16(s, 0)) }, s.skip(2)))
        }
    }

    open spec fn spec_wf(v: KeyShareHelloRetryRequestView) -> bool {
        v.selected_group.spec_canonical()
    }

    open spec fn spec_self_delimiting() -> bool {
        true
    }

    open spec fn spec_consumes() -> bool {
        true
    }

    proof fn lemma_decode_suffix(s: Seq<u8>) {
    }

    proof fn lemma_roundtrip(v: KeyShareHelloRetryRequestView, rest: Seq<u8>) {
        v.selected_group.lemma_code_roundtrip(0);
        let s = Self::spec_encode(v) + rest;
        assert(s.skip(2) =~= rest);
    }

    fn encode(&self, buf: &mut BytesMut) {
        bm_put_u16(buf, self.selected_group.code());
    }

    fn decode(buf: &mut BytesMut) -> (res: TlsResult<Self>) {
        let remaining = bm_len(buf);
        if remaining < 2 {
            return Err(TlsError::Incomplete(2 - remaining));
        }
        let selected_group = NamedGroup::try_from(bm_get_u16(buf))?;
        Ok(Self { selected_group })
    }
}

/// The version that a server selects.
#[derive(Debug, PartialEq, Eq)]
pub struct SupportedVersionsServer {
    pub selected_version: Version,
}

pub struct SupportedVersionsServerView {
    pub selected_version: Version,
}

impl View for SupportedVersionsServer {
    type V = SupportedVersionsServerView;

    open spec fn view(&self) -> SupportedVersionsServerView {
        SupportedVersionsServerView { selected_version: self.selected_version }
    }
}

impl Serialize for SupportedVersionsServer {
    open spec fn spec_encode(v: SupportedVersionsServerView) -> Seq<u8> {
        be16(v.selected_version.spec_code())
    }

    open spec fn spec_decode(s: Seq<u8>) -> SpecResult<SupportedVersionsServerView> {
        if s.len() < 2 {
            Err(TlsErrorView::Incomplete((2 - s.len()) as usize))
        } else {
            Ok((SupportedVersionsServerView { selected_version: Version::spec_from_code(read_be16(s, 0)) }, s.skip(2)))
        }
    }

    open spec fn spec_wf(v: SupportedVersionsServerView) -> bool {
        v.selected_version.spec_canonical()
    }

    open spec fn spec_self_delimiting() -> bool {
        true
    }

    open spec fn spec_consumes() -> bool {
        true
    }

    proof fn lemma_decode_suffix(s: Seq<u8>) {
    }

    proof fn lemma_roundtrip(v: SupportedVersionsServerView, rest: Seq<u8>) {
        v.selected_version.lemma_code_roundtrip(0);
        let s = Self::spec_encode(v) + rest;
        assert(s.skip(2) =~= rest);
    }

    fn encode(&self, buf: &mut BytesMut) {
        bm_put_u16(buf, self.selected_version.code());
    }

    fn decode(buf: &mut BytesMut) -> (res: TlsResult<Self>) {
        let remaining = bm_len(buf);
        if remaining < 2 {
            return Err(TlsError::Incomplete(2 - remaining));
        }
        let selected_version = Version::try_from(bm_get_u16(buf))?;
        Ok(Self { selected_version })
    }
}

} // verus!
