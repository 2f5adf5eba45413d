//! Client extensions as typed by the client's side: each type maps to the
//! payload a client sends for it.
use vstd::prelude::*;

use bytes::BytesMut;

use crate::buffer::bytes_mut_view;
use crate::error::{TlsError, TlsResult};
use crate::message::handshake::extensions::alpn::{AlpnPayload, AlpnPayloadView};
use crate::message::handshake::extensions::app_settings::{ApplicationSettingsPayload, ApplicationSettingsPayloadView};
use crate::message::handshake::extensions::compress_algo::{CompressCertificatePayload, CompressCertificatePayloadView};
use crate::message::handshake::extensions::ecpf::{EcPointFormatsPayload, EcPointFormatsPayloadView};
use crate::message::handshake::extensions::ech::{EncryptedClientHelloPayload, EncryptedClientHelloPayloadView};
use crate::message::handshake::extensions::key_share::{KeyShareEntry, KeyShareEntryView};
use crate::message::handshake::extensions::pskke::{PskKeyExchangeModesPayload, PskKeyExchangeModesPayloadView};
use crate::message::handshake::extensions::sig_scheme::{SignatureAlgorithmsPayload, SignatureAlgorithmsPayloadView};
use crate::message::handshake::extensions::sni::{ServerNamePayload, ServerNamePayloadView};
use crate::message::handshake::extensions::sup_groups::{SupportedGroupsPayload, SupportedGroupsPayloadView};
use crate::message::handshake::grease::is_grease_u16_spec;
use crate::message::serialize::{
    Serialize, SpecResult, all_wf, decode_counted, decode_list16, decoded_as, encode_counted,
    encode_list16, lemma_counted_roundtrip, lemma_decode_n_suffix, lemma_list16_roundtrip,
    spec_decode_counted, spec_decode_list16, spec_encode_counted, spec_encode_list, spec_prefixed16,
    spec_read_length, views,
};
use crate::message::version::Version;
use crate::messages::handshake::is_grease_u16;
use crate::seqs::is_suffix;

verus! {

broadcast use crate::seqs::group_codec;

/// The type of a client's extension. `Grease` stands for every GREASE code;
/// it is written as `0x0011`, the code that its place in the list gives it.
#[derive(Debug, Clone, Copy, PartialEq, Eq, Structural)]
pub enum ClientExtensionType {
    ServerName,
    SupportedGroups,
    SignatureAlgorithms,
    PSKKeyExchangeModes,
    StatusRequest,
    SignedCertificateTimestamp,
    CompressCertificate,
    ApplicationSettings,
    EncryptedClientHello,
    EcPointFormats,
    ExtendedMainSecret,
    SessionTicket,
    KeyShare,
    SupportedVersions,
    ALPN,
    Grease,
}

impl ClientExtensionType {
    /// The code that stands for the value on the wire.
    pub open spec fn spec_code(self) -> u16 {
        match self {
            ClientExtensionType::ServerName => 0x0000,
            ClientExtensionType::SupportedGroups => 0x000A,
            ClientExtensionType::SignatureAlgorithms => 0x000D,
            ClientExtensionType::PSKKeyExchangeModes => 0x002D,
            ClientExtensionType::StatusRequest => 0x0005,
            ClientExtensionType::SignedCertificateTimestamp => 0x0012,
            ClientExtensionType::CompressCertificate => 0x001B,
            ClientExtensionType::ApplicationSettings => 0x44CD,
            ClientExtensionType::EncryptedClientHello => 0xFE0D,
            ClientExtensionType::EcPointFormats => 0x000B,
            ClientExtensionType::ExtendedMainSecret => 0x0017,
            ClientExtensionType::SessionTicket => 0x0023,
            ClientExtensionType::KeyShare => 0x0033,
            ClientExtensionType::SupportedVersions => 0x002B,
            ClientExtensionType::ALPN => 0x0010,
            ClientExtensionType::Grease => 0x0011,
        }
    }

    /// The value that a code stands for: a GREASE code is `Grease`, and any
    /// other code that names none is an error.
    pub open spec fn spec_from_code(v: u16) -> Result<ClientExtensionType, TlsError> {
        match v {
            0x0000 => Ok(ClientExtensionType::ServerName),
            0x000A => Ok(ClientExtensionType::SupportedGroups),
            0x000D => Ok(ClientExtensionType::SignatureAlgorithms),
            0x002D => Ok(ClientExtensionType::PSKKeyExchangeModes),
            0x0005 => Ok(ClientExtensionType::StatusRequest),
            0x0012 => Ok(ClientExtensionType::SignedCertificateTimestamp),
            0x001B => Ok(ClientExtensionType::CompressCertificate),
            0x44CD => Ok(ClientExtensionType::ApplicationSettings),
            0xFE0D => Ok(ClientExtensionType::EncryptedClientHello),
            0x000B => Ok(ClientExtensionType::EcPointFormats),
            0x0017 => Ok(ClientExtensionType::ExtendedMainSecret),
            0x0023 => Ok(ClientExtensionType::SessionTicket),
            0x0033 => Ok(ClientExtensionType::KeyShare),
            0x002B => Ok(ClientExtensionType::SupportedVersions),
            0x0010 => Ok(ClientExtensionType::ALPN),
            _ => if is_grease_u16_spec(v) {
                Ok(ClientExtensionType::Grease)
            } else {
                Err(TlsError::Unknown("extension"))
            },
        }
    }

    /// The wire codes of the named values, as the protocol's registry fixes
    /// them: each value is written as its number, and a code is read as that
    /// value exactly when it is that number.
    pub proof fn lemma_wire_codes(c: u16)
        ensures
            ClientExtensionType::ServerName.spec_code() == 0x0000,
            ClientExtensionType::SupportedGroups.spec_code() == 0x000A,
            ClientExtensionType::SignatureAlgorithms.spec_code() == 0x000D,
            ClientExtensionType::PSKKeyExchangeModes.spec_code() == 0x002D,
            ClientExtensionType::StatusRequest.spec_code() == 0x0005,
            ClientExtensionType::SignedCertificateTimestamp.spec_code() == 0x0012,
            ClientExtensionType::CompressCertificate.spec_code() == 0x001B,
            ClientExtensionType::ApplicationSettings.spec_code() == 0x44CD,
            ClientExtensionType::EncryptedClientHello.spec_code() == 0xFE0D,
            ClientExtensionType::EcPointFormats.spec_code() == 0x000B,
            ClientExtensionType::ExtendedMainSecret.spec_code() == 0x0017,
            ClientExtensionType::SessionTicket.spec_code() == 0x0023,
            ClientExtensionType::KeyShare.spec_code() == 0x0033,
            ClientExtensionType::SupportedVersions.spec_code() == 0x002B,
            ClientExtensionType::ALPN.spec_code() == 0x0010,
            ClientExtensionType::Grease.spec_code() == 0x0011,
            (ClientExtensionType::spec_from_code(c) == Ok::<_, TlsError>(ClientExtensionType::ServerName)) <==> c == 0x0000,
            (ClientExtensionType::spec_from_code(c) == Ok::<_, TlsError>(ClientExtensionType::SupportedGroups)) <==> c == 0x000A,
            (ClientExtensionType::spec_from_code(c) == Ok::<_, TlsError>(ClientExtensionType::SignatureAlgorithms)) <==> c == 0x000D,
            (ClientExtensionType::spec_from_code(c) == Ok::<_, TlsError>(ClientExtensionType::PSKKeyExchangeModes)) <==> c == 0x002D,
            (ClientExtensionType::spec_from_code(c) == Ok::<_, TlsError>(ClientExtensionType::StatusRequest)) <==> c == 0x0005,
            (ClientExtensionType::spec_from_code(c) == Ok::<_, TlsError>(ClientExtensionType::SignedCertificateTimestamp)) <==> c == 0x0012,
            (ClientExtensionType::spec_from_code(c) == Ok::<_, TlsError>(ClientExtensionType::CompressCertificate)) <==> c == 0x001B,
            (ClientExtensionType::spec_from_code(c) == Ok::<_, TlsError>(ClientExtensionType::ApplicationSettings)) <==> c == 0x44CD,
            (ClientExtensionType::spec_from_code(c) == Ok::<_, TlsError>(ClientExtensionType::EncryptedClientHello)) <==> c == 0xFE0D,
            (ClientExtensionType::spec_from_code(c) == Ok::<_, TlsError>(ClientExtensionType::EcPointFormats)) <==> c == 0x000B,
            (ClientExtensionType::spec_from_code(c) == Ok::<_, TlsError>(ClientExtensionType::ExtendedMainSecret)) <==> c == 0x0017,
            (ClientExtensionType::spec_from_code(c) == Ok::<_, TlsError>(ClientExtensionType::SessionTicket)) <==> c == 0x0023,
            (ClientExtensionType::spec_from_code(c) == Ok::<_, TlsError>(ClientExtensionType::KeyShare)) <==> c == 0x0033,
            (ClientExtensionType::spec_from_code(c) == Ok::<_, TlsError>(ClientExtensionType::SupportedVersions)) <==> c == 0x002B,
            (ClientExtensionType::spec_from_code(c) == Ok::<_, TlsError>(ClientExtensionType::ALPN)) <==> c == 0x0010,
    {
    }

    /// A value other than `Grease` written as its code is read back as
    /// itself; a code read as a value is that value's code, or a GREASE code.
    pub proof fn lemma_code_roundtrip(self, v: u16)
        ensures
            self != ClientExtensionType::Grease ==> ClientExtensionType::spec_from_code(self.spec_code())
                == Ok::<_, TlsError>(self),
            ClientExtensionType::spec_from_code(v) matches Ok(x) ==> (if x == ClientExtensionType::Grease {
                is_grease_u16_spec(v)
            } else {
                x.spec_code() == v
            }),
    {
    }

    /// The code that stands for the value on the wire.
    pub fn code(self) -> (res: u16)
        ensures
            res == self.spec_code(),
    {
        match self {
            ClientExtensionType::ServerName => 0x0000,
            ClientExtensionType::SupportedGroups => 0x000A,
            ClientExtensionType::SignatureAlgorithms => 0x000D,
            ClientExtensionType::PSKKeyExchangeModes => 0x002D,
            ClientExtensionType::StatusRequest => 0x0005,
            ClientExtensionType::SignedCertificateTimestamp => 0x0012,
            ClientExtensionType::CompressCertificate => 0x001B,
            ClientExtensionType::ApplicationSettings => 0x44CD,
            ClientExtensionType::EncryptedClientHello => 0xFE0D,
            ClientExtensionType::EcPointFormats => 0x000B,
            ClientExtensionType::ExtendedMainSecret => 0x0017,
            ClientExtensionType::SessionTicket => 0x0023,
            ClientExtensionType::KeyShare => 0x0033,
            ClientExtensionType::SupportedVersions => 0x002B,
            ClientExtensionType::ALPN => 0x0010,
            ClientExtensionType::Grease => 0x0011,
        }
    }

    /// The value that a code stands for: a GREASE code is `Grease`, and any
    /// other code that names none is an error.
    pub fn try_from(value: u16) -> (res: Result<Self, TlsError>)
        ensures
            res == ClientExtensionType::spec_from_code(value),
    {
        match value {
            0x0000 => Ok(ClientExtensionType::ServerName),
            0x000A => Ok(ClientExtensionType::SupportedGroups),
            0x000D => Ok(ClientExtensionType::SignatureAlgorithms),
            0x002D => Ok(ClientExtensionType::PSKKeyExchangeModes),
            0x0005 => Ok(ClientExtensionType::StatusRequest),
            0x0012 => Ok(ClientExtensionType::SignedCertificateTimestamp),
            0x001B => Ok(ClientExtensionType::CompressCertificate),
            0x44CD => Ok(ClientExtensionType::ApplicationSettings),
            0xFE0D => Ok(ClientExtensionType::EncryptedClientHello),
            0x000B => Ok(ClientExtensionType::EcPointFormats),
            0x0017 => Ok(ClientExtensionType::ExtendedMainSecret),
            0x0023 => Ok(ClientExtensionType::SessionTicket),
            0x0033 => Ok(ClientExtensionType::KeyShare),
            0x002B => Ok(ClientExtensionType::SupportedVersions),
            0x0010 => Ok(ClientExtensionType::ALPN),
            _ => if is_grease_u16(value) {
                Ok(ClientExtensionType::Grease)
            } else {
                Err(TlsError::Unknown("extension"))
            },
        }
    }
}

/// The payload of a client's extension; the variants without data have no
/// bytes on the wire.
#[derive(Debug, PartialEq, Eq)]
pub enum ClientExtensionPayload {
    ServerName(ServerNamePayload),
    SupportedGroups(SupportedGroupsPayload),
    SignatureAlgorithms(SignatureAlgorithmsPayload),
    PSKKeyExchangeModes(PskKeyExchangeModesPayload),
    StatusRequest,
    SignedCertificateTimestamp,
    CompressCertificate(CompressCertificatePayload),
    ApplicationSettings(ApplicationSettingsPayload),
    EncryptedClientHello(EncryptedClientHelloPayload),
    EcPointFormats(EcPointFormatsPayload),
    ExtendedMainSecret,
    SessionTicket,
    KeyShareClient(KeyShareClient),
    SupportedVersionsClient(SupportedVersionsClient),
    ALPN(AlpnPayload),
    Grease,
}

pub enum ClientExtensionPayloadView {
    ServerName(ServerNamePayloadView),
    SupportedGroups(SupportedGroupsPayloadView),
    SignatureAlgorithms(SignatureAlgorithmsPayloadView),
    PSKKeyExchangeModes(PskKeyExchangeModesPayloadView),
    StatusRequest,
    SignedCertificateTimestamp,
    CompressCertificate(CompressCertificatePayloadView),
    ApplicationSettings(ApplicationSettingsPayloadView),
    EncryptedClientHello(EncryptedClientHelloPayloadView),
    EcPointFormats(EcPointFormatsPayloadView),
    ExtendedMainSecret,
    SessionTicket,
    KeyShareClient(KeyShareClientView),
    SupportedVersionsClient(SupportedVersionsClientView),
    ALPN(AlpnPayloadView),
    Grease,
}

impl View for ClientExtensionPayload {
    type V = ClientExtensionPayloadView;

    open spec fn view(&self) -> ClientExtensionPayloadView {
        match self {
            ClientExtensionPayload::ServerName(p) => ClientExtensionPayloadView::ServerName(p@),
            ClientExtensionPayload::SupportedGroups(p) => ClientExtensionPayloadView::SupportedGroups(p@),
            ClientExtensionPayload::SignatureAlgorithms(p) => ClientExtensionPayloadView::SignatureAlgorithms(p@),
            ClientExtensionPayload::PSKKeyExchangeModes(p) => ClientExtensionPayloadView::PSKKeyExchangeModes(p@),
            ClientExtensionPayload::StatusRequest => ClientExtensionPayloadView::StatusRequest,
            ClientExtensionPayload::SignedCertificateTimestamp => ClientExtensionPayloadView::SignedCertificateTimestamp,
            ClientExtensionPayload::CompressCertificate(p) => ClientExtensionPayloadView::CompressCertificate(p@),
            ClientExtensionPayload::ApplicationSettings(p) => ClientExtensionPayloadView::ApplicationSettings(p@),
            ClientExtensionPayload::EncryptedClientHello(p) => ClientExtensionPayloadView::EncryptedClientHello(p@),
            ClientExtensionPayload::EcPointFormats(p) => ClientExtensionPayloadView::EcPointFormats(p@),
            ClientExtensionPayload::ExtendedMainSecret => ClientExtensionPayloadView::ExtendedMainSecret,
            ClientExtensionPayload::SessionTicket => ClientExtensionPayloadView::SessionTicket,
            ClientExtensionPayload::KeyShareClient(p) => ClientExtensionPayloadView::KeyShareClient(p@),
            ClientExtensionPayload::SupportedVersionsClient(p) => ClientExtensionPayloadView::SupportedVersionsClient(p@),
            ClientExtensionPayload::ALPN(p) => ClientExtensionPayloadView::ALPN(p@),
            ClientExtensionPayload::Grease => ClientExtensionPayloadView::Grease,
        }
    }
}

/// The encoding of a client's extension payload.
#[verifier::opaque]
pub open spec fn spec_encode_client_payload(p: ClientExtensionPayloadView) -> Seq<u8> {
    match p {
        ClientExtensionPayloadView::ServerName(q) => ServerNamePayload::spec_encode(q),
        ClientExtensionPayloadView::SupportedGroups(q) => SupportedGroupsPayload::spec_encode(q),
        ClientExtensionPayloadView::SignatureAlgorithms(q) => SignatureAlgorithmsPayload::spec_encode(q),
        ClientExtensionPayloadView::PSKKeyExchangeModes(q) => PskKeyExchangeModesPayload::spec_encode(q),
        ClientExtensionPayloadView::StatusRequest => Seq::empty(),
        ClientExtensionPayloadView::SignedCertificateTimestamp => Seq::empty(),
        ClientExtensionPayloadView::CompressCertificate(q) => CompressCertificatePayload::spec_encode(q),
        ClientExtensionPayloadView::ApplicationSettings(q) => ApplicationSettingsPayload::spec_encode(q),
        ClientExtensionPayloadView::EncryptedClientHello(q) => EncryptedClientHelloPayload::spec_encode(q),
        ClientExtensionPayloadView::EcPointFormats(q) => EcPointFormatsPayload::spec_encode(q),
        ClientExtensionPayloadView::ExtendedMainSecret => Seq::empty(),
        ClientExtensionPayloadView::SessionTicket => Seq::empty(),
        ClientExtensionPayloadView::KeyShareClient(q) => KeyShareClient::spec_encode(q),
        ClientExtensionPayloadView::SupportedVersionsClient(q) => SupportedVersionsClient::spec_encode(q),
        ClientExtensionPayloadView::ALPN(q) => AlpnPayload::spec_encode(q),
        ClientExtensionPayloadView::Grease => Seq::empty(),
    }
}

/// What decoding the payload of a client's extension of the given type finds.
#[verifier::opaque]
pub open spec fn spec_decode_client_payload(ty: ClientExtensionType, s: Seq<u8>) -> SpecResult<ClientExtensionPayloadView> {
    match ty {
        ClientExtensionType::ServerName => match ServerNamePayload::spec_decode(s) {
            Ok((q, rest)) => Ok((ClientExtensionPayloadView::ServerName(q), rest)),
            Err(x) => Err(x),
        },
        ClientExtensionType::SupportedGroups => match SupportedGroupsPayload::spec_decode(s) {
            Ok((q, rest)) => Ok((ClientExtensionPayloadView::SupportedGroups(q), rest)),
            Err(x) => Err(x),
        },
        ClientExtensionType::SignatureAlgorithms => match SignatureAlgorithmsPayload::spec_decode(s) {
            Ok((q, rest)) => Ok((ClientExtensionPayloadView::SignatureAlgorithms(q), rest)),
            Err(x) => Err(x),
        },
        ClientExtensionType::PSKKeyExchangeModes => match PskKeyExchangeModesPayload::spec_decode(s) {
            Ok((q, rest)) => Ok((ClientExtensionPayloadView::PSKKeyExchangeModes(q), rest)),
            Err(x) => Err(x),
        },
        ClientExtensionType::StatusRequest => Ok((ClientExtensionPayloadView::StatusRequest, s)),
        ClientExtensionType::SignedCertificateTimestamp => Ok((ClientExtensionPayloadView::SignedCertificateTimestamp, s)),
        ClientExtensionType::CompressCertificate => match CompressCertificatePayload::spec_decode(s) {
            Ok((q, rest)) => Ok((ClientExtensionPayloadView::CompressCertificate(q), rest)),
            Err(x) => Err(x),
        },
        ClientExtensionType::ApplicationSettings => match ApplicationSettingsPayload::spec_decode(s) {
            Ok((q, rest)) => Ok((ClientExtensionPayloadView::ApplicationSettings(q), rest)),
            Err(x) => Err(x),
        },
        ClientExtensionType::EncryptedClientHello => match EncryptedClientHelloPayload::spec_decode(s) {
            Ok((q, rest)) => Ok((ClientExtensionPayloadView::EncryptedClientHello(q), rest)),
            Err(x) => Err(x),
        },
        ClientExtensionType::EcPointFormats => match EcPointFormatsPayload::spec_decode(s) {
            Ok((q, rest)) => Ok((ClientExtensionPayloadView::EcPointFormats(q), rest)),
            Err(x) => Err(x),
        },
        ClientExtensionType::ExtendedMainSecret => Ok((ClientExtensionPayloadView::ExtendedMainSecret, s)),
        ClientExtensionType::SessionTicket => Ok((ClientExtensionPayloadView::SessionTicket, s)),
        ClientExtensionType::KeyShare => match KeyShareClient::spec_decode(s) {
            Ok((q, rest)) => Ok((ClientExtensionPayloadView::KeyShareClient(q), rest)),
            Err(x) => Err(x),
        },
        ClientExtensionType::SupportedVersions => match SupportedVersionsClient::spec_decode(s) {
            Ok((q, rest)) => Ok((ClientExtensionPayloadView::SupportedVersionsClient(q), rest)),
            Err(x) => Err(x),
        },
        ClientExtensionType::ALPN => match AlpnPayload::spec_decode(s) {
            Ok((q, rest)) => Ok((ClientExtensionPayloadView::ALPN(q), rest)),
            Err(x) => Err(x),
        },
        ClientExtensionType::Grease => Ok((ClientExtensionPayloadView::Grease, s)),
    }
}

/// The payload is the one that its type's decoder gives, and is read back as written.
pub open spec fn client_payload_fits(ty: ClientExtensionType, p: ClientExtensionPayloadView) -> bool {
    match p {
        ClientExtensionPayloadView::ServerName(q) => ty == ClientExtensionType::ServerName && ServerNamePayload::spec_wf(q),
        ClientExtensionPayloadView::SupportedGroups(q) => ty == ClientExtensionType::SupportedGroups && SupportedGroupsPayload::spec_wf(q),
        ClientExtensionPayloadView::SignatureAlgorithms(q) => ty == ClientExtensionType::SignatureAlgorithms && SignatureAlgorithmsPayload::spec_wf(q),
        ClientExtensionPayloadView::PSKKeyExchangeModes(q) => ty == ClientExtensionType::PSKKeyExchangeModes && PskKeyExchangeModesPayload::spec_wf(q),
        ClientExtensionPayloadView::StatusRequest => ty == ClientExtensionType::StatusRequest,
        ClientExtensionPayloadView::SignedCertificateTimestamp => ty == ClientExtensionType::SignedCertificateTimestamp,
        ClientExtensionPayloadView::CompressCertificate(q) => ty == ClientExtensionType::CompressCertificate && CompressCertificatePayload::spec_wf(q),
        ClientExtensionPayloadView::ApplicationSettings(q) => ty == ClientExtensionType::ApplicationSettings && ApplicationSettingsPayload::spec_wf(q),
        ClientExtensionPayloadView::EncryptedClientHello(q) => ty == ClientExtensionType::EncryptedClientHello && EncryptedClientHelloPayload::spec_wf(q),
        ClientExtensionPayloadView::EcPointFormats(q) => ty == ClientExtensionType::EcPointFormats && EcPointFormatsPayload::spec_wf(q),
        ClientExtensionPayloadView::ExtendedMainSecret => ty == ClientExtensionType::ExtendedMainSecret,
        ClientExtensionPayloadView::SessionTicket => ty == ClientExtensionType::SessionTicket,
        ClientExtensionPayloadView::KeyShareClient(q) => ty == ClientExtensionType::KeyShare && KeyShareClient::spec_wf(q),
        ClientExtensionPayloadView::SupportedVersionsClient(q) => ty == ClientExtensionType::SupportedVersions && SupportedVersionsClient::spec_wf(q),
        ClientExtensionPayloadView::ALPN(q) => ty == ClientExtensionType::ALPN && AlpnPayload::spec_wf(q),
        ClientExtensionPayloadView::Grease => ty == ClientExtensionType::Grease,
    }
}

/// Decoding the encoding of a payload that fits its type gives it back.
#[verifier::spinoff_prover]
#[verifier::rlimit(60)]
pub proof fn lemma_client_payload_roundtrip(ty: ClientExtensionType, p: ClientExtensionPayloadView)
    requires
        client_payload_fits(ty, p),
    ensures
        spec_decode_client_payload(ty, spec_encode_client_payload(p)) matches Ok((q, _)) && q == p,
{
    reveal(spec_encode_client_payload);
    reveal(spec_decode_client_payload);
    let e = Seq::<u8>::empty();
    match p {
        ClientExtensionPayloadView::ServerName(q) => {
            ServerNamePayload::lemma_roundtrip(q, e);
            assert(ServerNamePayload::spec_encode(q) + e =~= ServerNamePayload::spec_encode(q));
        },
        ClientExtensionPayloadView::SupportedGroups(q) => {
            SupportedGroupsPayload::lemma_roundtrip(q, e);
            assert(SupportedGroupsPayload::spec_encode(q) + e =~= SupportedGroupsPayload::spec_encode(q));
        },
        ClientExtensionPayloadView::SignatureAlgorithms(q) => {
            SignatureAlgorithmsPayload::lemma_roundtrip(q, e);
            assert(SignatureAlgorithmsPayload::spec_encode(q) + e =~= SignatureAlgorithmsPayload::spec_encode(q));
        },
        ClientExtensionPayloadView::PSKKeyExchangeModes(q) => {
            PskKeyExchangeModesPayload::lemma_roundtrip(q, e);
            assert(PskKeyExchangeModesPayload::spec_encode(q) + e =~= PskKeyExchangeModesPayload::spec_encode(q));
        },
        ClientExtensionPayloadView::CompressCertificate(q) => {
            CompressCertificatePayload::lemma_roundtrip(q, e);
            assert(CompressCertificatePayload::spec_encode(q) + e =~= CompressCertificatePayload::spec_encode(q));
        },
        ClientExtensionPayloadView::ApplicationSettings(q) => {
            ApplicationSettingsPayload::lemma_roundtrip(q, e);
            assert(ApplicationSettingsPayload::spec_encode(q) + e =~= ApplicationSettingsPayload::spec_encode(q));
        },
        ClientExtensionPayloadView::EncryptedClientHello(q) => {
            EncryptedClientHelloPayload::lemma_roundtrip(q, e);
            assert(EncryptedClientHelloPayload::spec_encode(q) + e =~= EncryptedClientHelloPayload::spec_encode(q));
        },
        ClientExtensionPayloadView::EcPointFormats(q) => {
            EcPointFormatsPayload::lemma_roundtrip(q, e);
            assert(EcPointFormatsPayload::spec_encode(q) + e =~= EcPointFormatsPayload::spec_encode(q));
        },
        ClientExtensionPayloadView::KeyShareClient(q) => {
            KeyShareClient::lemma_roundtrip(q, e);
            assert(KeyShareClient::spec_encode(q) + e =~= KeyShareClient::spec_encode(q));
        },
        ClientExtensionPayloadView::SupportedVersionsClient(q) => {
            SupportedVersionsClient::lemma_roundtrip(q, e);
            assert(SupportedVersionsClient::spec_encode(q) + e =~= SupportedVersionsClient::spec_encode(q));
        },
        ClientExtensionPayloadView::ALPN(q) => {
            AlpnPayload::lemma_roundtrip(q, e);
            assert(AlpnPayload::spec_encode(q) + e =~= AlpnPayload::spec_encode(q));
        },
        _ => {},
    }
}

impl ClientExtensionPayload {
    /// Appends the encoding of the payload.
    pub fn encode_payload(&self, buf: &mut BytesMut)
        requires
            bytes_mut_view(*old(buf)).len() + spec_encode_client_payload(self@).len() <= isize::MAX,
        ensures
            bytes_mut_view(*final(buf)) == bytes_mut_view(*old(buf)) + spec_encode_client_payload(self@),
    {
        reveal(spec_encode_client_payload);
        match self {
            ClientExtensionPayload::ServerName(p) => p.encode(buf),
            ClientExtensionPayload::SupportedGroups(p) => p.encode(buf),
            ClientExtensionPayload::SignatureAlgorithms(p) => p.encode(buf),
            ClientExtensionPayload::PSKKeyExchangeModes(p) => p.encode(buf),
            ClientExtensionPayload::CompressCertificate(p) => p.encode(buf),
            ClientExtensionPayload::ApplicationSettings(p) => p.encode(buf),
            ClientExtensionPayload::EncryptedClientHello(p) => p.encode(buf),
            ClientExtensionPayload::EcPointFormats(p) => p.encode(buf),
            ClientExtensionPayload::KeyShareClient(p) => p.encode(buf),
            ClientExtensionPayload::SupportedVersionsClient(p) => p.encode(buf),
            ClientExtensionPayload::ALPN(p) => p.encode(buf),
            _ => {
                assert(bytes_mut_view(*buf) =~= bytes_mut_view(*old(buf)) + Seq::<u8>::empty());
            },
        }
    }

    /// Reads the payload of a client's extension of the given type from the start of `buf`.
    pub fn decode_payload(extension_type: ClientExtensionType, buf: &mut BytesMut) -> (res: TlsResult<Self>)
        ensures
            decoded_as(spec_decode_client_payload(extension_type, bytes_mut_view(*old(buf))), res, bytes_mut_view(*final(buf))),
            is_suffix(bytes_mut_view(*final(buf)), bytes_mut_view(*old(buf))),
    {
        reveal(spec_decode_client_payload);
        match extension_type {
            ClientExtensionType::ServerName => Ok(ClientExtensionPayload::ServerName(ServerNamePayload::decode(buf)?)),
            ClientExtensionType::SupportedGroups => Ok(ClientExtensionPayload::SupportedGroups(SupportedGroupsPayload::decode(buf)?)),
            ClientExtensionType::SignatureAlgorithms => Ok(ClientExtensionPayload::SignatureAlgorithms(SignatureAlgorithmsPayload::decode(buf)?)),
            ClientExtensionType::PSKKeyExchangeModes => Ok(ClientExtensionPayload::PSKKeyExchangeModes(PskKeyExchangeModesPayload::decode(buf)?)),
            ClientExtensionType::StatusRequest => Ok(ClientExtensionPayload::StatusRequest),
            ClientExtensionType::SignedCertificateTimestamp => Ok(ClientExtensionPayload::SignedCertificateTimestamp),
            ClientExtensionType::CompressCertificate => Ok(ClientExtensionPayload::CompressCertificate(CompressCertificatePayload::decode(buf)?)),
            ClientExtensionType::ApplicationSettings => Ok(ClientExtensionPayload::ApplicationSettings(ApplicationSettingsPayload::decode(buf)?)),
            ClientExtensionType::EncryptedClientHello => Ok(ClientExtensionPayload::EncryptedClientHello(EncryptedClientHelloPayload::decode(buf)?)),
            ClientExtensionType::EcPointFormats => Ok(ClientExtensionPayload::EcPointFormats(EcPointFormatsPayload::decode(buf)?)),
            ClientExtensionType::ExtendedMainSecret => Ok(ClientExtensionPayload::ExtendedMainSecret),
            ClientExtensionType::SessionTicket => Ok(ClientExtensionPayload::SessionTicket),
            ClientExtensionType::KeyShare => Ok(ClientExtensionPayload::KeyShareClient(KeyShareClient::decode(buf)?)),
            ClientExtensionType::SupportedVersions => Ok(ClientExtensionPayload::SupportedVersionsClient(SupportedVersionsClient::decode(buf)?)),
            ClientExtensionType::ALPN => Ok(ClientExtensionPayload::ALPN(AlpnPayload::decode(buf)?)),
            ClientExtensionType::Grease => Ok(ClientExtensionPayload::Grease),
        }
    }
}

/// The key shares that a client offers, after a 16-bit byte count.
#[derive(Debug, PartialEq, Eq)]
pub struct KeyShareClient {
    pub client_shares: Vec<KeyShareEntry>,  // length = u16
}

pub struct KeyShareClientView {
    pub client_shares: Seq<KeyShareEntryView>,
}

impl View for KeyShareClient {
    type V = KeyShareClientView;

    open spec fn view(&self) -> KeyShareClientView {
        KeyShareClientView { client_shares: views(self.client_shares@) }
    }
}

impl Serialize for KeyShareClient {
    open spec fn spec_encode(v: KeyShareClientView) -> Seq<u8> {
        spec_prefixed16(spec_encode_list::<KeyShareEntry>(v.client_shares))
    }

    open spec fn spec_decode(s: Seq<u8>) -> SpecResult<KeyShareClientView> {
        match spec_decode_list16::<KeyShareEntry>(s) {
            Ok((client_shares, rest)) => Ok((KeyShareClientView { client_shares }, rest)),
            Err(e) => Err(e),
        }
    }

    open spec fn spec_wf(v: KeyShareClientView) -> bool {
        &&& all_wf::<KeyShareEntry>(v.client_shares)
        &&& spec_encode_list::<KeyShareEntry>(v.client_shares).len() <= 0xFFFF
    }

    open spec fn spec_self_delimiting() -> bool {
        true
    }

    open spec fn spec_consumes() -> bool {
        true
    }

    proof fn lemma_decode_suffix(s: Seq<u8>) {
    }

    proof fn lemma_roundtrip(v: KeyShareClientView, rest: Seq<u8>) {
        lemma_list16_roundtrip::<KeyShareEntry>(v.client_shares, rest);
    }

    fn encode(&self, buf: &mut BytesMut) {
        encode_list16(&self.client_shares, buf);
    }

    fn decode(buf: &mut BytesMut) -> (res: TlsResult<Self>) {
        let client_shares = decode_list16::<KeyShareEntry>(buf)?;
        Ok(Self { client_shares })
    }
}

/// The versions that a client supports: an 8-bit byte count, then two bytes each.
#[derive(Debug, PartialEq, Eq)]
pub struct SupportedVersionsClient {
    pub versions: Vec<Version>,  // length = u8
}

pub struct SupportedVersionsClientView {
    pub versions: Seq<Version>,
}

impl View for SupportedVersionsClient {
    type V = SupportedVersionsClientView;

    open spec fn view(&self) -> SupportedVersionsClientView {
        SupportedVersionsClientView { versions: views(self.versions@) }
    }
}

impl Serialize for SupportedVersionsClient {
    open spec fn spec_encode(v: SupportedVersionsClientView) -> Seq<u8> {
        spec_encode_counted::<Version>(v.versions, 1, 2)
    }

    open spec fn spec_decode(s: Seq<u8>) -> SpecResult<SupportedVersionsClientView> {
        match spec_decode_counted::<Version>(s, 1, 2) {
            Ok((versions, rest)) => Ok((SupportedVersionsClientView { versions }, rest)),
            Err(e) => Err(e),
        }
    }

    open spec fn spec_wf(v: SupportedVersionsClientView) -> bool {
        all_wf::<Version>(v.versions) && v.versions.len() * 2 < 0x100
    }

    open spec fn spec_self_delimiting() -> bool {
        true
    }

    open spec fn spec_consumes() -> bool {
        true
    }

    proof fn lemma_decode_suffix(s: Seq<u8>) {
        lemma_decode_n_suffix::<Version>(s.skip(1), (spec_read_length(s, 1) / 2) as nat);
    }

    proof fn lemma_roundtrip(v: SupportedVersionsClientView, rest: Seq<u8>) {
        lemma_counted_roundtrip::<Version>(v.versions, rest, 1, 2);
    }

    fn encode(&self, buf: &mut BytesMut) {
        encode_counted(&self.versions, buf, 1, 2);
    }

    fn decode(buf: &mut BytesMut) -> (res: TlsResult<Self>) {
        let versions = decode_counted::<Version>(buf, 1, 2)?;
        Ok(Self { versions })
    }
}

} // verus!
