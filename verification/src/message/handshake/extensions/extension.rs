//! Extensions of hello and ticket messages: a type, then the payload after a
//! 16-bit byte count.
use vstd::prelude::*;

use bytes::{Bytes, BytesMut};

use crate::buffer::{
    b_as_slice, b_new, be16, bm_as_slice, bm_get_u16, bm_len, bm_new, bm_put_slice, bm_put_u16,
    bm_split_to, bytes_mut_view, bytes_view, read_be16,
};
use crate::error::{TlsError, TlsErrorView, TlsResult};
use crate::message::handshake::extensions::alpn::{AlpnPayload, AlpnPayloadView};
use crate::message::handshake::extensions::app_settings::{ApplicationSettingsPayload, ApplicationSettingsPayloadView};
use crate::message::handshake::extensions::compress_algo::{CompressCertificatePayload, CompressCertificatePayloadView};
use crate::message::handshake::extensions::ecpf::{EcPointFormatsPayload, EcPointFormatsPayloadView};
use crate::message::handshake::extensions::ech::{EncryptedClientHelloPayload, EncryptedClientHelloPayloadView};
use crate::message::handshake::extensions::key_share::{KeySharePayload, KeySharePayloadView};
use crate::message::handshake::extensions::pskke::{PskKeyExchangeModesPayload, PskKeyExchangeModesPayloadView};
use crate::message::handshake::extensions::renegotiation_info::{RenegotiationInfoPayload, RenegotiationInfoPayloadView};
use crate::message::handshake::extensions::sct::{SignedCertificateTimestampPayload, SignedCertificateTimestampPayloadView};
use crate::message::handshake::extensions::session_ticket::{SessionTicketPayload, SessionTicketPayloadView};
use crate::message::handshake::extensions::sig_scheme::{SignatureAlgorithmsPayload, SignatureAlgorithmsPayloadView};
use crate::message::handshake::extensions::sni::{ServerNamePayload, ServerNamePayloadView};
use crate::message::handshake::extensions::status_request::{StatusRequestPayload, StatusRequestPayloadView};
use crate::message::handshake::extensions::sup_groups::{SupportedGroupsPayload, SupportedGroupsPayloadView};
use crate::message::handshake::extensions::sup_versions::{SupportedVersionsPayload, SupportedVersionsPayloadView};
use crate::message::handshake::grease::{GreasePayloadU16, is_grease_u16_spec};
use crate::message::serialize::{Serialize, SpecResult, decoded_as, take_bytes};
use crate::seqs::is_suffix;

verus! {

broadcast use crate::seqs::group_codec;

/// An extension: its type and its payload.
#[derive(Debug, PartialEq, Eq)]
pub struct Extension {
    pub extension_type: ExtensionType,
    pub payload: ExtensionPayload,  // length = u16
}

pub struct ExtensionView {
    pub extension_type: ExtensionType,
    pub payload: ExtensionPayloadView,
}

impl View for Extension {
    type V = ExtensionView;

    open spec fn view(&self) -> ExtensionView {
        ExtensionView { extension_type: self.extension_type, payload: self.payload@ }
    }
}

/// The extensions that decoding gives back as they were encoded: the payload
/// is one that the type's decoder gives back, and fits a 16-bit count.
pub open spec fn extension_wf(v: ExtensionView) -> bool {
    &&& v.extension_type.spec_canonical()
    &&& payload_fits_type(v.extension_type, v.payload)
    &&& spec_encode_ext_payload(v.payload).len() <= 0xFFFF
}

impl Serialize for Extension {
    open spec fn spec_encode(v: ExtensionView) -> Seq<u8> {
        be16(v.extension_type.spec_code()) + be16(spec_encode_ext_payload(v.payload).len() as u16)
            + spec_encode_ext_payload(v.payload)
    }

    open spec fn spec_decode(s: Seq<u8>) -> SpecResult<ExtensionView> {
        if s.len() < 2 {
            Err(TlsErrorView::Incomplete((2 - s.len()) as usize))
        } else if s.len() < 4 {
            Err(TlsErrorView::Incomplete((4 - s.len()) as usize))
        } else {
            let extension_type = ExtensionType::spec_from_code(read_be16(s, 0));
            let n = read_be16(s, 2) as int;
            let t = s.skip(4);
            if t.len() < n {
                Err(TlsErrorView::Incomplete((n - t.len()) as usize))
            } else {
                match spec_decode_ext_payload(extension_type, t.take(n)) {
                    Ok((payload, _)) => Ok((ExtensionView { extension_type, payload }, t.skip(n))),
                    Err(e) => Err(e),
                }
            }
        }
    }

    open spec fn spec_wf(v: ExtensionView) -> bool {
        extension_wf(v)
    }

    open spec fn spec_self_delimiting() -> bool {
        true
    }

    open spec fn spec_consumes() -> bool {
        true
    }

    proof fn lemma_decode_suffix(s: Seq<u8>) {
    }

    proof fn lemma_roundtrip(v: ExtensionView, rest: Seq<u8>) {
        v.extension_type.lemma_code_roundtrip(0);
        let p = spec_encode_ext_payload(v.payload);
        let s = Self::spec_encode(v) + rest;
        assert(s.skip(4) =~= p + rest);
        assert((p + rest).take(p.len() as int) =~= p);
        assert((p + rest).skip(p.len() as int) =~= rest);
        lemma_ext_payload_roundtrip(v.extension_type, v.payload);
    }

    fn encode(&self, buf: &mut BytesMut) {
        bm_put_u16(buf, self.extension_type.code());
        let mut inner = bm_new();
        self.payload.encode_payload(&mut inner);
        let len = bm_len(&inner);
        bm_put_u16(buf, len as u16);
        bm_put_slice(buf, bm_as_slice(&inner));
        assert(bytes_mut_view(*buf) =~= bytes_mut_view(*old(buf)) + Self::spec_encode(self@));
    }

    fn decode(buf: &mut BytesMut) -> (res: TlsResult<Self>) {
        let remaining = bm_len(buf);
        if remaining < 2 {
            return Err(TlsError::Incomplete(2 - remaining));
        }
        let extension_type = ExtensionType::try_from(bm_get_u16(buf))?;
        let remaining = bm_len(buf);
        if remaining < 2 {
            return Err(TlsError::Incomplete(2 - remaining));
        }
        let length = bm_get_u16(buf) as usize;
        let remaining = bm_len(buf);
        if remaining < length {
            return Err(TlsError::Incomplete(length - remaining));
        }
        let mut data_buf = bm_split_to(buf, length);
        let payload = ExtensionPayload::decode_payload(extension_type, &mut data_buf)?;
        Ok(Self { extension_type, payload })
    }
}

/// The type of an extension as it appears on the wire.
#[derive(Debug, Clone, Copy, PartialEq, Eq, Structural)]
pub enum ExtensionType {
    ServerName,
    SupportedGroups,
    SignatureAlgorithms,
    PSKKeyExchangeModes,
    StatusRequest,
    SignedCertificateTimestamp,
    CompressCertificate,
    ApplicationSettings,
    EncryptedClientHello,
    EcPointFormats,
    ExtendedMainSecret,
    SessionTicket,
    KeyShare,
    SupportedVersions,
    ALPN,
    RenegotiationInfo,
    Grease(GreasePayloadU16),
    Unknown(u16),
}

impl ExtensionType {
    /// The code that stands for the value on the wire.
    pub open spec fn spec_code(self) -> u16 {
        match self {
            ExtensionType::ServerName => 0x0000,
            ExtensionType::SupportedGroups => 0x000A,
            ExtensionType::SignatureAlgorithms => 0x000D,
            ExtensionType::PSKKeyExchangeModes => 0x002D,
            ExtensionType::StatusRequest => 0x0005,
            ExtensionType::SignedCertificateTimestamp => 0x0012,
            ExtensionType::CompressCertificate => 0x001B,
            ExtensionType::ApplicationSettings => 0x44CD,
            ExtensionType::EncryptedClientHello => 0xFE0D,
            ExtensionType::EcPointFormats => 0x000B,
            ExtensionType::ExtendedMainSecret => 0x0017,
            ExtensionType::SessionTicket => 0x0023,
            ExtensionType::KeyShare => 0x0033,
            ExtensionType::SupportedVersions => 0x002B,
            ExtensionType::ALPN => 0x0010,
            ExtensionType::RenegotiationInfo => 0xFF01,
            ExtensionType::Grease(g) => g.grease,
            ExtensionType::Unknown(e) => e,
        }
    }

    /// The value that a code stands for.
    pub open spec fn spec_from_code(v: u16) -> ExtensionType {
        match v {
            0x0000 => ExtensionType::ServerName,
            0x000A => ExtensionType::SupportedGroups,
            0x000D => ExtensionType::SignatureAlgorithms,
            0x002D => ExtensionType::PSKKeyExchangeModes,
            0x0005 => ExtensionType::StatusRequest,
            0x0012 => ExtensionType::SignedCertificateTimestamp,
            0x001B => ExtensionType::CompressCertificate,
            0x44CD => ExtensionType::ApplicationSettings,
            0xFE0D => ExtensionType::EncryptedClientHello,
            0x000B => ExtensionType::EcPointFormats,
            0x0017 => ExtensionType::ExtendedMainSecret,
            0x0023 => ExtensionType::SessionTicket,
            0x0033 => ExtensionType::KeyShare,
            0x002B => ExtensionType::SupportedVersions,
            0x0010 => ExtensionType::ALPN,
            0xFF01 => ExtensionType::RenegotiationInfo,
            _ => if is_grease_u16_spec(v) {
                ExtensionType::Grease(GreasePayloadU16 { grease: v })
            } else {
                ExtensionType::Unknown(v)
            },
        }
    }

    /// The wire codes of the named values, as the protocol's registry fixes
    /// them: each value is written as its number, and a code is read as that
    /// value exactly when it is that number.
    pub proof fn lemma_wire_codes(c: u16)
        ensures
            ExtensionType::ServerName.spec_code() == 0x0000,
            ExtensionType::SupportedGroups.spec_code() == 0x000A,
            ExtensionType::SignatureAlgorithms.spec_code() == 0x000D,
            ExtensionType::PSKKeyExchangeModes.spec_code() == 0x002D,
            ExtensionType::StatusRequest.spec_code() == 0x0005,
            ExtensionType::SignedCertificateTimestamp.spec_code() == 0x0012,
            ExtensionType::CompressCertificate.spec_code() == 0x001B,
            ExtensionType::ApplicationSettings.spec_code() == 0x44CD,
            ExtensionType::EncryptedClientHello.spec_code() == 0xFE0D,
            ExtensionType::EcPointFormats.spec_code() == 0x000B,
            ExtensionType::ExtendedMainSecret.spec_code() == 0x0017,
            ExtensionType::SessionTicket.spec_code() == 0x0023,
            ExtensionType::KeyShare.spec_code() == 0x0033,
            ExtensionType::SupportedVersions.spec_code() == 0x002B,
            ExtensionType::ALPN.spec_code() == 0x0010,
            ExtensionType::RenegotiationInfo.spec_code() == 0xFF01,
            (ExtensionType::spec_from_code(c) == ExtensionType::ServerName) <==> c == 0x0000,
            (ExtensionType::spec_from_code(c) == ExtensionType::SupportedGroups) <==> c == 0x000A,
            (ExtensionType::spec_from_code(c) == ExtensionType::SignatureAlgorithms) <==> c == 0x000D,
            (ExtensionType::spec_from_code(c) == ExtensionType::PSKKeyExchangeModes) <==> c == 0x002D,
            (ExtensionType::spec_from_code(c) == ExtensionType::StatusRequest) <==> c == 0x0005,
            (ExtensionType::spec_from_code(c) == ExtensionType::SignedCertificateTimestamp) <==> c == 0x0012,
            (ExtensionType::spec_from_code(c) == ExtensionType::CompressCertificate) <==> c == 0x001B,
            (ExtensionType::spec_from_code(c) == ExtensionType::ApplicationSettings) <==> c == 0x44CD,
            (ExtensionType::spec_from_code(c) == ExtensionType::EncryptedClientHello) <==> c == 0xFE0D,
            (ExtensionType::spec_from_code(c) == ExtensionType::EcPointFormats) <==> c == 0x000B,
            (ExtensionType::spec_from_code(c) == ExtensionType::ExtendedMainSecret) <==> c == 0x0017,
            (ExtensionType::spec_from_code(c) == ExtensionType::SessionTicket) <==> c == 0x0023,
            (ExtensionType::spec_from_code(c) == ExtensionType::KeyShare) <==> c == 0x0033,
            (ExtensionType::spec_from_code(c) == ExtensionType::SupportedVersions) <==> c == 0x002B,
            (ExtensionType::spec_from_code(c) == ExtensionType::ALPN) <==> c == 0x0010,
            (ExtensionType::spec_from_code(c) == ExtensionType::RenegotiationInfo) <==> c == 0xFF01,
    {
    }

    /// The values that are read back as written: those whose code is not
    /// taken by another variant.
    pub open spec fn spec_canonical(self) -> bool {
        ExtensionType::spec_from_code(self.spec_code()) == self
    }

    /// Every code is read as a value whose code it is; a value that is not
    /// `Unknown` with a code of another variant is read back as itself.
    pub proof fn lemma_code_roundtrip(self, v: u16)
        ensures
            ExtensionType::spec_from_code(v).spec_code() == v,
            ExtensionType::spec_from_code(v).spec_canonical(),
            self.spec_canonical() <==> match self {
                ExtensionType::Grease(g) => is_grease_u16_spec(g.grease),
                ExtensionType::Unknown(u) => ExtensionType::spec_from_code(u) is Unknown,
                _ => true,
            },
    {
    }

    /// The code that stands for the value on the wire.
    pub fn code(self) -> (res: u16)
        ensures
            res == self.spec_code(),
    {
        match self {
            ExtensionType::ServerName => 0x0000,
            ExtensionType::SupportedGroups => 0x000A,
            ExtensionType::SignatureAlgorithms => 0x000D,
            ExtensionType::PSKKeyExchangeModes => 0x002D,
            ExtensionType::StatusRequest => 0x0005,
            ExtensionType::SignedCertificateTimestamp => 0x0012,
            ExtensionType::CompressCertificate => 0x001B,
            ExtensionType::ApplicationSettings => 0x44CD,
            ExtensionType::EncryptedClientHello => 0xFE0D,
            ExtensionType::EcPointFormats => 0x000B,
            ExtensionType::ExtendedMainSecret => 0x0017,
            ExtensionType::SessionTicket => 0x0023,
            ExtensionType::KeyShare => 0x0033,
            ExtensionType::SupportedVersions => 0x002B,
            ExtensionType::ALPN => 0x0010,
            ExtensionType::RenegotiationInfo => 0xFF01,
            ExtensionType::Grease(g) => g.grease,
            ExtensionType::Unknown(e) => e,
        }
    }

    /// The value that a code stands for; reading a code never fails.
    pub fn try_from(value: u16) -> (res: TlsResult<Self>)
        ensures
            res == Ok::<_, TlsError>(ExtensionType::spec_from_code(value)),
    {
        match value {
            0x0000 => Ok(ExtensionType::ServerName),
            0x000A => Ok(ExtensionType::SupportedGroups),
            0x000D => Ok(ExtensionType::SignatureAlgorithms),
            0x002D => Ok(ExtensionType::PSKKeyExchangeModes),
            0x0005 => Ok(ExtensionType::StatusRequest),
            0x0012 => Ok(ExtensionType::SignedCertificateTimestamp),
            0x001B => Ok(ExtensionType::CompressCertificate),
            0x44CD => Ok(ExtensionType::ApplicationSettings),
            0xFE0D => Ok(ExtensionType::EncryptedClientHello),
            0x000B => Ok(ExtensionType::EcPointFormats),
            0x0017 => Ok(ExtensionType::ExtendedMainSecret),
            0x0023 => Ok(ExtensionType::SessionTicket),
            0x0033 => Ok(ExtensionType::KeyShare),
            0x002B => Ok(ExtensionType::SupportedVersions),
            0x0010 => Ok(ExtensionType::ALPN),
            0xFF01 => Ok(ExtensionType::RenegotiationInfo),
            _ => match GreasePayloadU16::is_grease(value) {
                Ok(g) => Ok(ExtensionType::Grease(g)),
                Err(_) => Ok(ExtensionType::Unknown(value)),
            },
        }
    }
}

/// The payload of an extension.
#[derive(Debug, PartialEq, Eq)]
pub enum ExtensionPayload {
    ServerName(ServerNamePayload),
    SupportedGroups(SupportedGroupsPayload),
    SignatureAlgorithms(SignatureAlgorithmsPayload),
    PSKKeyExchangeModes(PskKeyExchangeModesPayload),
    CompressCertificate(CompressCertificatePayload),
    ApplicationSettings(ApplicationSettingsPayload),
    EncryptedClientHello(EncryptedClientHelloPayload),
    EcPointFormats(EcPointFormatsPayload),
    KeyShare(KeySharePayload),
    SupportedVersions(SupportedVersionsPayload),
    ALPN(AlpnPayload),
    StatusRequest(StatusRequestPayload),
    SignedCertificateTimestamp(SignedCertificateTimestampPayload),
    RenegotiationInfo(RenegotiationInfoPayload),
    SessionTicket(SessionTicketPayload),
    ExtendedMainSecret,
    Grease(GreasePayloadU16),
    Unknown(UnknownExtension),
}

pub enum ExtensionPayloadView {
    ServerName(ServerNamePayloadView),
    SupportedGroups(SupportedGroupsPayloadView),
    SignatureAlgorithms(SignatureAlgorithmsPayloadView),
    PSKKeyExchangeModes(PskKeyExchangeModesPayloadView),
    CompressCertificate(CompressCertificatePayloadView),
    ApplicationSettings(ApplicationSettingsPayloadView),
    EncryptedClientHello(EncryptedClientHelloPayloadView),
    EcPointFormats(EcPointFormatsPayloadView),
    KeyShare(KeySharePayloadView),
    SupportedVersions(SupportedVersionsPayloadView),
    ALPN(AlpnPayloadView),
    StatusRequest(StatusRequestPayloadView),
    SignedCertificateTimestamp(SignedCertificateTimestampPayloadView),
    RenegotiationInfo(RenegotiationInfoPayloadView),
    SessionTicket(SessionTicketPayloadView),
    ExtendedMainSecret,
    Grease(GreasePayloadU16),
    Unknown(Seq<u8>),
}

impl View for ExtensionPayload {
    type V = ExtensionPayloadView;

    open spec fn view(&self) -> ExtensionPayloadView {
        match self {
            ExtensionPayload::ServerName(p) => ExtensionPayloadView::ServerName(p@),
            ExtensionPayload::SupportedGroups(p) => ExtensionPayloadView::SupportedGroups(p@),
            ExtensionPayload::SignatureAlgorithms(p) => ExtensionPayloadView::SignatureAlgorithms(p@),
            ExtensionPayload::PSKKeyExchangeModes(p) => ExtensionPayloadView::PSKKeyExchangeModes(p@),
            ExtensionPayload::CompressCertificate(p) => ExtensionPayloadView::CompressCertificate(p@),
            ExtensionPayload::ApplicationSettings(p) => ExtensionPayloadView::ApplicationSettings(p@),
            ExtensionPayload::EncryptedClientHello(p) => ExtensionPayloadView::EncryptedClientHello(p@),
            ExtensionPayload::EcPointFormats(p) => ExtensionPayloadView::EcPointFormats(p@),
            ExtensionPayload::KeyShare(p) => ExtensionPayloadView::KeyShare(p@),
            ExtensionPayload::SupportedVersions(p) => ExtensionPayloadView::SupportedVersions(p@),
            ExtensionPayload::ALPN(p) => ExtensionPayloadView::ALPN(p@),
            ExtensionPayload::StatusRequest(p) => ExtensionPayloadView::StatusRequest(p@),
            ExtensionPayload::SignedCertificateTimestamp(p) => ExtensionPayloadView::SignedCertificateTimestamp(p@),
            ExtensionPayload::RenegotiationInfo(p) => ExtensionPayloadView::RenegotiationInfo(p@),
            ExtensionPayload::SessionTicket(p) => ExtensionPayloadView::SessionTicket(p@),
            ExtensionPayload::ExtendedMainSecret => ExtensionPayloadView::ExtendedMainSecret,
            ExtensionPayload::Grease(g) => ExtensionPayloadView::Grease(*g),
            ExtensionPayload::Unknown(p) => ExtensionPayloadView::Unknown(p@),
        }
    }
}

/// The encoding of a payload.
#[verifier::opaque]
pub open spec fn spec_encode_ext_payload(p: ExtensionPayloadView) -> Seq<u8> {
    match p {
        ExtensionPayloadView::ServerName(q) => ServerNamePayload::spec_encode(q),
        ExtensionPayloadView::SupportedGroups(q) => SupportedGroupsPayload::spec_encode(q),
        ExtensionPayloadView::SignatureAlgorithms(q) => SignatureAlgorithmsPayload::spec_encode(q),
        ExtensionPayloadView::PSKKeyExchangeModes(q) => PskKeyExchangeModesPayload::spec_encode(q),
        ExtensionPayloadView::CompressCertificate(q) => CompressCertificatePayload::spec_encode(q),
        ExtensionPayloadView::ApplicationSettings(q) => ApplicationSettingsPayload::spec_encode(q),
        ExtensionPayloadView::EncryptedClientHello(q) => EncryptedClientHelloPayload::spec_encode(q),
        ExtensionPayloadView::EcPointFormats(q) => EcPointFormatsPayload::spec_encode(q),
        ExtensionPayloadView::KeyShare(q) => KeySharePayload::spec_encode(q),
        ExtensionPayloadView::SupportedVersions(q) => SupportedVersionsPayload::spec_encode(q),
        ExtensionPayloadView::ALPN(q) => AlpnPayload::spec_encode(q),
        ExtensionPayloadView::StatusRequest(q) => StatusRequestPayload::spec_encode(q),
        ExtensionPayloadView::SignedCertificateTimestamp(q) => SignedCertificateTimestampPayload::spec_encode(q),
        ExtensionPayloadView::RenegotiationInfo(q) => RenegotiationInfoPayload::spec_encode(q),
        ExtensionPayloadView::SessionTicket(q) => SessionTicketPayload::spec_encode(q),
        ExtensionPayloadView::ExtendedMainSecret => Seq::empty(),
        ExtensionPayloadView::Grease(g) => be16(g.grease),
        ExtensionPayloadView::Unknown(q) => UnknownExtension::spec_encode(q),
    }
}

/// Wraps the outcome of a payload's decoder in the payload variant.
pub open spec fn wrap_payload<V>(r: SpecResult<V>, f: spec_fn(V) -> ExtensionPayloadView) -> SpecResult<ExtensionPayloadView> {
    match r {
        Ok((q, rest)) => Ok((f(q), rest)),
        Err(e) => Err(e),
    }
}

/// What decoding the payload of an extension of the given type finds.
#[verifier::opaque]
pub open spec fn spec_decode_ext_payload(ty: ExtensionType, s: Seq<u8>) -> SpecResult<ExtensionPayloadView> {
    match ty {
        ExtensionType::ServerName => wrap_payload(ServerNamePayload::spec_decode(s), |q| ExtensionPayloadView::ServerName(q)),
        ExtensionType::SupportedGroups => wrap_payload(SupportedGroupsPayload::spec_decode(s), |q| ExtensionPayloadView::SupportedGroups(q)),
        ExtensionType::SignatureAlgorithms => wrap_payload(SignatureAlgorithmsPayload::spec_decode(s), |q| ExtensionPayloadView::SignatureAlgorithms(q)),
        ExtensionType::PSKKeyExchangeModes => wrap_payload(PskKeyExchangeModesPayload::spec_decode(s), |q| ExtensionPayloadView::PSKKeyExchangeModes(q)),
        ExtensionType::StatusRequest => wrap_payload(StatusRequestPayload::spec_decode(s), |q| ExtensionPayloadView::StatusRequest(q)),
        ExtensionType::SignedCertificateTimestamp => wrap_payload(SignedCertificateTimestampPayload::spec_decode(s), |q| ExtensionPayloadView::SignedCertificateTimestamp(q)),
        ExtensionType::CompressCertificate => wrap_payload(CompressCertificatePayload::spec_decode(s), |q| ExtensionPayloadView::CompressCertificate(q)),
        ExtensionType::ApplicationSettings => wrap_payload(ApplicationSettingsPayload::spec_decode(s), |q| ExtensionPayloadView::ApplicationSettings(q)),
        ExtensionType::EncryptedClientHello => wrap_payload(EncryptedClientHelloPayload::spec_decode(s), |q| ExtensionPayloadView::EncryptedClientHello(q)),
        ExtensionType::EcPointFormats => wrap_payload(EcPointFormatsPayload::spec_decode(s), |q| ExtensionPayloadView::EcPointFormats(q)),
        ExtensionType::SessionTicket => wrap_payload(SessionTicketPayload::spec_decode(s), |q| ExtensionPayloadView::SessionTicket(q)),
        ExtensionType::KeyShare => wrap_payload(KeySharePayload::spec_decode(s), |q| ExtensionPayloadView::KeyShare(q)),
        ExtensionType::SupportedVersions => wrap_payload(SupportedVersionsPayload::spec_decode(s), |q| ExtensionPayloadView::SupportedVersions(q)),
        ExtensionType::ALPN => wrap_payload(AlpnPayload::spec_decode(s), |q| ExtensionPayloadView::ALPN(q)),
        ExtensionType::RenegotiationInfo => wrap_payload(RenegotiationInfoPayload::spec_decode(s), |q| ExtensionPayloadView::RenegotiationInfo(q)),
        ExtensionType::ExtendedMainSecret => Ok((ExtensionPayloadView::ExtendedMainSecret, s)),
        ExtensionType::Grease(g) => Ok((ExtensionPayloadView::Grease(g), s)),
        ExtensionType::Unknown(_) => wrap_payload(UnknownExtension::spec_decode(s), |q| ExtensionPayloadView::Unknown(q)),
    }
}

/// The payload is one that the type's decoder gives back from its encoding.
pub open spec fn payload_fits_type(ty: ExtensionType, p: ExtensionPayloadView) -> bool {
    match p {
        ExtensionPayloadView::ServerName(q) => ty == ExtensionType::ServerName && ServerNamePayload::spec_wf(q),
        ExtensionPayloadView::SupportedGroups(q) => ty == ExtensionType::SupportedGroups && SupportedGroupsPayload::spec_wf(q),
        ExtensionPayloadView::SignatureAlgorithms(q) => ty == ExtensionType::SignatureAlgorithms && SignatureAlgorithmsPayload::spec_wf(q),
        ExtensionPayloadView::PSKKeyExchangeModes(q) => ty == ExtensionType::PSKKeyExchangeModes && PskKeyExchangeModesPayload::spec_wf(q),
        ExtensionPayloadView::CompressCertificate(q) => ty == ExtensionType::CompressCertificate && CompressCertificatePayload::spec_wf(q),
        ExtensionPayloadView::ApplicationSettings(q) => ty == ExtensionType::ApplicationSettings && ApplicationSettingsPayload::spec_wf(q),
        ExtensionPayloadView::EncryptedClientHello(q) => ty == ExtensionType::EncryptedClientHello && EncryptedClientHelloPayload::spec_wf(q),
        ExtensionPayloadView::EcPointFormats(q) => ty == ExtensionType::EcPointFormats && EcPointFormatsPayload::spec_wf(q),
        ExtensionPayloadView::KeyShare(q) => ty == ExtensionType::KeyShare && KeySharePayload::spec_wf(q),
        ExtensionPayloadView::SupportedVersions(q) => ty == ExtensionType::SupportedVersions && SupportedVersionsPayload::spec_wf(q),
        ExtensionPayloadView::ALPN(q) => ty == ExtensionType::ALPN && AlpnPayload::spec_wf(q),
        ExtensionPayloadView::StatusRequest(q) => ty == ExtensionType::StatusRequest && StatusRequestPayload::spec_wf(q),
        ExtensionPayloadView::SignedCertificateTimestamp(q) => ty == ExtensionType::SignedCertificateTimestamp && SignedCertificateTimestampPayload::spec_wf(q),
        ExtensionPayloadView::RenegotiationInfo(q) => ty == ExtensionType::RenegotiationInfo && RenegotiationInfoPayload::spec_wf(q),
        ExtensionPayloadView::SessionTicket(q) => ty == ExtensionType::SessionTicket && SessionTicketPayload::spec_wf(q),
        ExtensionPayloadView::ExtendedMainSecret => ty == ExtensionType::ExtendedMainSecret,
        ExtensionPayloadView::Grease(g) => ty == ExtensionType::Grease(g),
        ExtensionPayloadView::Unknown(q) => ty is Unknown && UnknownExtension::spec_wf(q),
    }
}

/// Decoding the encoding of a payload that fits its type gives it back.
#[verifier::spinoff_prover]
#[verifier::rlimit(50)]
pub proof fn lemma_ext_payload_roundtrip(ty: ExtensionType, p: ExtensionPayloadView)
    requires
        payload_fits_type(ty, p),
    ensures
        spec_decode_ext_payload(ty, spec_encode_ext_payload(p)) matches Ok((q, _)) && q == p,
{
    reveal(spec_encode_ext_payload);
    reveal(spec_decode_ext_payload);
    let e = Seq::<u8>::empty();
    match p {
        ExtensionPayloadView::ServerName(q) => {
            ServerNamePayload::lemma_roundtrip(q, e);
            assert(ServerNamePayload::spec_encode(q) + e =~= ServerNamePayload::spec_encode(q));
        },
        ExtensionPayloadView::SupportedGroups(q) => {
            SupportedGroupsPayload::lemma_roundtrip(q, e);
            assert(SupportedGroupsPayload::spec_encode(q) + e =~= SupportedGroupsPayload::spec_encode(q));
        },
        ExtensionPayloadView::SignatureAlgorithms(q) => {
            SignatureAlgorithmsPayload::lemma_roundtrip(q, e);
            assert(SignatureAlgorithmsPayload::spec_encode(q) + e =~= SignatureAlgorithmsPayload::spec_encode(q));
        },
        ExtensionPayloadView::PSKKeyExchangeModes(q) => {
            PskKeyExchangeModesPayload::lemma_roundtrip(q, e);
            assert(PskKeyExchangeModesPayload::spec_encode(q) + e =~= PskKeyExchangeModesPayload::spec_encode(q));
        },
        ExtensionPayloadView::CompressCertificate(q) => {
            CompressCertificatePayload::lemma_roundtrip(q, e);
            assert(CompressCertificatePayload::spec_encode(q) + e =~= CompressCertificatePayload::spec_encode(q));
        },
        ExtensionPayloadView::ApplicationSettings(q) => {
            ApplicationSettingsPayload::lemma_roundtrip(q, e);
            assert(ApplicationSettingsPayload::spec_encode(q) + e =~= ApplicationSettingsPayload::spec_encode(q));
        },
        ExtensionPayloadView::EncryptedClientHello(q) => {
            EncryptedClientHelloPayload::lemma_roundtrip(q, e);
            assert(EncryptedClientHelloPayload::spec_encode(q) + e =~= EncryptedClientHelloPayload::spec_encode(q));
        },
        ExtensionPayloadView::EcPointFormats(q) => {
            EcPointFormatsPayload::lemma_roundtrip(q, e);
            assert(EcPointFormatsPayload::spec_encode(q) + e =~= EcPointFormatsPayload::spec_encode(q));
        },
        ExtensionPayloadView::KeyShare(q) => {
            KeySharePayload::lemma_roundtrip(q, e);
            assert(KeySharePayload::spec_encode(q) + e =~= KeySharePayload::spec_encode(q));
        },
        ExtensionPayloadView::SupportedVersions(q) => {
            SupportedVersionsPayload::lemma_roundtrip(q, e);
            assert(SupportedVersionsPayload::spec_encode(q) + e =~= SupportedVersionsPayload::spec_encode(q));
        },
        ExtensionPayloadView::ALPN(q) => {
            AlpnPayload::lemma_roundtrip(q, e);
            assert(AlpnPayload::spec_encode(q) + e =~= AlpnPayload::spec_encode(q));
        },
        ExtensionPayloadView::StatusRequest(q) => {
            StatusRequestPayload::lemma_roundtrip(q, e);
            assert(StatusRequestPayload::spec_encode(q) + e =~= StatusRequestPayload::spec_encode(q));
        },
        ExtensionPayloadView::SignedCertificateTimestamp(q) => {
            SignedCertificateTimestampPayload::lemma_roundtrip(q, e);
            assert(SignedCertificateTimestampPayload::spec_encode(q) + e =~= SignedCertificateTimestampPayload::spec_encode(q));
        },
        ExtensionPayloadView::RenegotiationInfo(q) => {
            RenegotiationInfoPayload::lemma_roundtrip(q, e);
            assert(RenegotiationInfoPayload::spec_encode(q) + e =~= RenegotiationInfoPayload::spec_encode(q));
        },
        ExtensionPayloadView::SessionTicket(q) => {
            SessionTicketPayload::lemma_roundtrip(q, e);
            assert(SessionTicketPayload::spec_encode(q) + e =~= SessionTicketPayload::spec_encode(q));
        },
        ExtensionPayloadView::Unknown(q) => {
            UnknownExtension::lemma_roundtrip(q, e);
            assert(UnknownExtension::spec_encode(q) + e =~= UnknownExtension::spec_encode(q));
        },
        _ => {},
    }
}

impl ExtensionPayload {
    /// Appends the encoding of the payload.
    pub fn encode_payload(&self, buf: &mut BytesMut)
        requires
            bytes_mut_view(*old(buf)).len() + spec_encode_ext_payload(self@).len() <= isize::MAX,
        ensures
            bytes_mut_view(*final(buf)) == bytes_mut_view(*old(buf)) + spec_encode_ext_payload(self@),
    {
        reveal(spec_encode_ext_payload);
        match self {
            ExtensionPayload::ServerName(p) => p.encode(buf),
            ExtensionPayload::SupportedGroups(p) => p.encode(buf),
            ExtensionPayload::SignatureAlgorithms(p) => p.encode(buf),
            ExtensionPayload::PSKKeyExchangeModes(p) => p.encode(buf),
            ExtensionPayload::CompressCertificate(p) => p.encode(buf),
            ExtensionPayload::ApplicationSettings(p) => p.encode(buf),
            ExtensionPayload::EncryptedClientHello(p) => p.encode(buf),
            ExtensionPayload::EcPointFormats(p) => p.encode(buf),
            ExtensionPayload::KeyShare(p) => p.encode(buf),
            ExtensionPayload::SupportedVersions(p) => p.encode(buf),
            ExtensionPayload::ALPN(p) => p.encode(buf),
            ExtensionPayload::StatusRequest(p) => p.encode(buf),
            ExtensionPayload::SignedCertificateTimestamp(p) => p.encode(buf),
            ExtensionPayload::RenegotiationInfo(p) => p.encode(buf),
            ExtensionPayload::SessionTicket(p) => p.encode(buf),
            ExtensionPayload::ExtendedMainSecret => {
                assert(bytes_mut_view(*buf) =~= bytes_mut_view(*old(buf)) + Seq::<u8>::empty());
            },
            ExtensionPayload::Grease(p) => p.encode(buf),
            ExtensionPayload::Unknown(p) => p.encode(buf),
        }
    }

    /// Reads the payload of an extension of the given type from the start of `buf`.
    pub fn decode_payload(extension_type: ExtensionType, buf: &mut BytesMut) -> (res: TlsResult<Self>)
        ensures
            decoded_as(spec_decode_ext_payload(extension_type, bytes_mut_view(*old(buf))), res, bytes_mut_view(*final(buf))),
            is_suffix(bytes_mut_view(*final(buf)), bytes_mut_view(*old(buf))),
    {
        reveal(spec_decode_ext_payload);
        match extension_type {
            ExtensionType::ServerName => Ok(ExtensionPayload::ServerName(ServerNamePayload::decode(buf)?)),
            ExtensionType::SupportedGroups => Ok(ExtensionPayload::SupportedGroups(SupportedGroupsPayload::decode(buf)?)),
            ExtensionType::SignatureAlgorithms => Ok(ExtensionPayload::SignatureAlgorithms(SignatureAlgorithmsPayload::decode(buf)?)),
            ExtensionType::PSKKeyExchangeModes => Ok(ExtensionPayload::PSKKeyExchangeModes(PskKeyExchangeModesPayload::decode(buf)?)),
            ExtensionType::StatusRequest => Ok(ExtensionPayload::StatusRequest(StatusRequestPayload::decode(buf)?)),
            ExtensionType::SignedCertificateTimestamp => Ok(ExtensionPayload::SignedCertificateTimestamp(SignedCertificateTimestampPayload::decode(buf)?)),
            ExtensionType::CompressCertificate => Ok(ExtensionPayload::CompressCertificate(CompressCertificatePayload::decode(buf)?)),
            ExtensionType::ApplicationSettings => Ok(ExtensionPayload::ApplicationSettings(ApplicationSettingsPayload::decode(buf)?)),
            ExtensionType::EncryptedClientHello => Ok(ExtensionPayload::EncryptedClientHello(EncryptedClientHelloPayload::decode(buf)?)),
            ExtensionType::EcPointFormats => Ok(ExtensionPayload::EcPointFormats(EcPointFormatsPayload::decode(buf)?)),
            ExtensionType::SessionTicket => Ok(ExtensionPayload::SessionTicket(SessionTicketPayload::decode(buf)?)),
            ExtensionType::KeyShare => Ok(ExtensionPayload::KeyShare(KeySharePayload::decode(buf)?)),
            ExtensionType::SupportedVersions => Ok(ExtensionPayload::SupportedVersions(SupportedVersionsPayload::decode(buf)?)),
            ExtensionType::ALPN => Ok(ExtensionPayload::ALPN(AlpnPayload::decode(buf)?)),
            ExtensionType::RenegotiationInfo => Ok(ExtensionPayload::RenegotiationInfo(RenegotiationInfoPayload::decode(buf)?)),
            ExtensionType::ExtendedMainSecret => Ok(ExtensionPayload::ExtendedMainSecret),
            ExtensionType::Grease(g) => Ok(ExtensionPayload::Grease(g)),
            ExtensionType::Unknown(_) => Ok(ExtensionPayload::Unknown(UnknownExtension::decode(buf)?)),
        }
    }
}

/// The payload of an extension of a type that this library does not know.
/// It is written as it is, and read as bytes after a 16-bit byte count.
#[derive(Debug, PartialEq, Eq, Clone)]
pub struct UnknownExtension {
    pub payload: Bytes,
}

impl View for UnknownExtension {
    type V = Seq<u8>;

    open spec fn view(&self) -> Seq<u8> {
        bytes_view(self.payload)
    }
}

impl Serialize for UnknownExtension {
    open spec fn spec_encode(v: Seq<u8>) -> Seq<u8> {
        v
    }

    open spec fn spec_decode(s: Seq<u8>) -> SpecResult<Seq<u8>> {
        if s.len() == 0 {
            Ok((Seq::empty(), s))
        } else if s.len() < 2 {
            Err(TlsErrorView::Incomplete((2 - s.len()) as usize))
        } else {
            let n = read_be16(s, 0) as int;
            let t = s.skip(2);
            if t.len() < n {
                Err(TlsErrorView::Incomplete((n - t.len()) as usize))
            } else {
                Ok((t.take(n), t.skip(n)))
            }
        }
    }

    /// Only the empty payload is read back as written: a payload is written
    /// without the count that reading expects.
    open spec fn spec_wf(v: Seq<u8>) -> bool {
        v.len() == 0
    }

    open spec fn spec_self_delimiting() -> bool {
        false
    }

    open spec fn spec_consumes() -> bool {
        false
    }

    proof fn lemma_decode_suffix(s: Seq<u8>) {
    }

    proof fn lemma_roundtrip(v: Seq<u8>, rest: Seq<u8>) {
        assert(v + rest =~= Seq::<u8>::empty());
    }

    fn encode(&self, buf: &mut BytesMut) {
        bm_put_slice(buf, b_as_slice(&self.payload));
    }

    fn decode(buf: &mut BytesMut) -> (res: TlsResult<Self>) {
        let remaining = bm_len(buf);
        if remaining == 0 {
            return Ok(Self { payload: b_new() });
        }
        if remaining < 2 {
            return Err(TlsError::Incomplete(2 - remaining));
        }
        let len = bm_get_u16(buf) as usize;
        let payload = take_bytes(buf, len)?;
        Ok(Self { payload })
    }
}

/// How an extension's first two bytes name its type, for every input and
/// every extension: an extension read has the type that those bytes name in
/// the registry (`00 0A` supported groups, `00 0D` signature algorithms,
/// ...), and an extension is written with its type's number first.
pub proof fn lemma_extension_type_bytes(s: Seq<u8>, v: ExtensionView)
    ensures
        Extension::spec_decode(s) matches Ok((r, _)) ==> {
            &&& (r.extension_type == ExtensionType::ServerName <==> s[0] == 0x00 && s[1] == 0x00)
            &&& (r.extension_type == ExtensionType::SupportedGroups <==> s[0] == 0x00 && s[1] == 0x0A)
            &&& (r.extension_type == ExtensionType::SignatureAlgorithms <==> s[0] == 0x00 && s[1] == 0x0D)
            &&& (r.extension_type == ExtensionType::PSKKeyExchangeModes <==> s[0] == 0x00 && s[1] == 0x2D)
            &&& (r.extension_type == ExtensionType::StatusRequest <==> s[0] == 0x00 && s[1] == 0x05)
            &&& (r.extension_type == ExtensionType::SignedCertificateTimestamp <==> s[0] == 0x00 && s[1] == 0x12)
            &&& (r.extension_type == ExtensionType::CompressCertificate <==> s[0] == 0x00 && s[1] == 0x1B)
            &&& (r.extension_type == ExtensionType::ApplicationSettings <==> s[0] == 0x44 && s[1] == 0xCD)
            &&& (r.extension_type == ExtensionType::EncryptedClientHello <==> s[0] == 0xFE && s[1] == 0x0D)
            &&& (r.extension_type == ExtensionType::EcPointFormats <==> s[0] == 0x00 && s[1] == 0x0B)
            &&& (r.extension_type == ExtensionType::ExtendedMainSecret <==> s[0] == 0x00 && s[1] == 0x17)
            &&& (r.extension_type == ExtensionType::SessionTicket <==> s[0] == 0x00 && s[1] == 0x23)
            &&& (r.extension_type == ExtensionType::KeyShare <==> s[0] == 0x00 && s[1] == 0x33)
            &&& (r.extension_type == ExtensionType::SupportedVersions <==> s[0] == 0x00 && s[1] == 0x2B)
            &&& (r.extension_type == ExtensionType::ALPN <==> s[0] == 0x00 && s[1] == 0x10)
            &&& (r.extension_type == ExtensionType::RenegotiationInfo <==> s[0] == 0xFF && s[1] == 0x01)
        },
        v.extension_type == ExtensionType::ServerName ==> Extension::spec_encode(v)[0] == 0x00 && Extension::spec_encode(v)[1] == 0x00,
        v.extension_type == ExtensionType::SupportedGroups ==> Extension::spec_encode(v)[0] == 0x00 && Extension::spec_encode(v)[1] == 0x0A,
        v.extension_type == ExtensionType::SignatureAlgorithms ==> Extension::spec_encode(v)[0] == 0x00 && Extension::spec_encode(v)[1] == 0x0D,
        v.extension_type == ExtensionType::PSKKeyExchangeModes ==> Extension::spec_encode(v)[0] == 0x00 && Extension::spec_encode(v)[1] == 0x2D,
        v.extension_type == ExtensionType::StatusRequest ==> Extension::spec_encode(v)[0] == 0x00 && Extension::spec_encode(v)[1] == 0x05,
        v.extension_type == ExtensionType::SignedCertificateTimestamp ==> Extension::spec_encode(v)[0] == 0x00 && Extension::spec_encode(v)[1] == 0x12,
        v.extension_type == ExtensionType::CompressCertificate ==> Extension::spec_encode(v)[0] == 0x00 && Extension::spec_encode(v)[1] == 0x1B,
        v.extension_type == ExtensionType::ApplicationSettings ==> Extension::spec_encode(v)[0] == 0x44 && Extension::spec_encode(v)[1] == 0xCD,
        v.extension_type == ExtensionType::EncryptedClientHello ==> Extension::spec_encode(v)[0] == 0xFE && Extension::spec_encode(v)[1] == 0x0D,
        v.extension_type == ExtensionType::EcPointFormats ==> Extension::spec_encode(v)[0] == 0x00 && Extension::spec_encode(v)[1] == 0x0B,
        v.extension_type == ExtensionType::ExtendedMainSecret ==> Extension::spec_encode(v)[0] == 0x00 && Extension::spec_encode(v)[1] == 0x17,
        v.extension_type == ExtensionType::SessionTicket ==> Extension::spec_encode(v)[0] == 0x00 && Extension::spec_encode(v)[1] == 0x23,
        v.extension_type == ExtensionType::KeyShare ==> Extension::spec_encode(v)[0] == 0x00 && Extension::spec_encode(v)[1] == 0x33,
        v.extension_type == ExtensionType::SupportedVersions ==> Extension::spec_encode(v)[0] == 0x00 && Extension::spec_encode(v)[1] == 0x2B,
        v.extension_type == ExtensionType::ALPN ==> Extension::spec_encode(v)[0] == 0x00 && Extension::spec_encode(v)[1] == 0x10,
        v.extension_type == ExtensionType::RenegotiationInfo ==> Extension::spec_encode(v)[0] == 0xFF && Extension::spec_encode(v)[1] == 0x01,
{
}

} // verus!
