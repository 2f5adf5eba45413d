//! Alert messages: a level and a description, one byte each.
use vstd::prelude::*;

use bytes::BytesMut;

use crate::buffer::{bm_get_u8, bm_len, bm_put_u8, bytes_mut_view};
use crate::error::{TlsError, TlsErrorView, TlsResult};
use crate::message::serialize::{Serialize, SpecResult};

verus! {

broadcast use crate::seqs::group_codec;

/// An alert: how serious it is, and what went wrong.
#[derive(Debug, Clone, Copy, PartialEq, Eq, Structural)]
pub struct AlertPayload {
    pub level: AlertLevel,
    pub description: AlertDescription,
}

impl View for AlertPayload {
    type V = AlertPayload;

    open spec fn view(&self) -> AlertPayload {
        *self
    }
}

impl Serialize for AlertPayload {
    open spec fn spec_encode(v: AlertPayload) -> Seq<u8> {
        seq![v.level.spec_code(), v.description.spec_code()]
    }

    open spec fn spec_decode(s: Seq<u8>) -> SpecResult<AlertPayload> {
        if s.len() < 2 {
            Err(TlsErrorView::Incomplete((2 - s.len()) as usize))
        } else {
            match AlertLevel::spec_from_code(s[0]) {
                Err(e) => Err(e@),
                Ok(level) => match AlertDescription::spec_from_code(s[1]) {
                    Err(e) => Err(e@),
                    Ok(description) => Ok((AlertPayload { level, description }, s.skip(2))),
                },
            }
        }
    }

    open spec fn spec_wf(v: AlertPayload) -> bool {
        true
    }

    open spec fn spec_self_delimiting() -> bool {
        true
    }

    open spec fn spec_consumes() -> bool {
        true
    }

    proof fn lemma_decode_suffix(s: Seq<u8>) {
    }

    proof fn lemma_roundtrip(v: AlertPayload, rest: Seq<u8>) {
        let s = Self::spec_encode(v) + rest;
        v.level.lemma_code_roundtrip(0);
        v.description.lemma_code_roundtrip(0);
        assert(s.skip(2) =~= rest);
    }

    fn encode(&self, buf: &mut BytesMut) {
        bm_put_u8(buf, self.level.code());
        bm_put_u8(buf, self.description.code());
        assert(bytes_mut_view(*buf) =~= bytes_mut_view(*old(buf)) + Self::spec_encode(self@));
    }

    fn decode(buf: &mut BytesMut) -> (res: TlsResult<Self>) {
        let remaining = bm_len(buf);
        if remaining < 2 {
            return Err(TlsError::Incomplete(2 - remaining));
        }
        let level = AlertLevel::try_from(bm_get_u8(buf))?;
        let description = AlertDescription::try_from(bm_get_u8(buf))?;
        Ok(AlertPayload { level, description })
    }
}

/// How serious an alert is.
#[derive(Debug, Clone, Copy, PartialEq, Eq, Structural)]
pub enum AlertLevel {
    Warning,
    Fatal,
}

impl AlertLevel {
    /// The code that stands for the value on the wire.
    pub open spec fn spec_code(self) -> u8 {
        match self {
            AlertLevel::Warning => 0x01,
            AlertLevel::Fatal => 0x02,
        }
    }

    /// The value that a code stands for, or the error for a code that stands for none.
    pub open spec fn spec_from_code(v: u8) -> Result<AlertLevel, TlsError> {
        match v {
            0x01 => Ok(AlertLevel::Warning),
            0x02 => Ok(AlertLevel::Fatal),
            _ => Err(TlsError::Unknown("alert level")),
        }
    }

    /// The wire codes of the named values, as the protocol's registry fixes
    /// them: each value is written as its number, and a code is read as that
    /// value exactly when it is that number.
    pub proof fn lemma_wire_codes(c: u8)
        ensures
            AlertLevel::Warning.spec_code() == 0x01,
            AlertLevel::Fatal.spec_code() == 0x02,
            (AlertLevel::spec_from_code(c) == Ok::<_, TlsError>(AlertLevel::Warning)) <==> c == 0x01,
            (AlertLevel::spec_from_code(c) == Ok::<_, TlsError>(AlertLevel::Fatal)) <==> c == 0x02,
    {
    }

    /// A value written as its code is read back as itself, and a code that
    /// is read as a value is that value's code.
    pub proof fn lemma_code_roundtrip(self, v: u8)
        ensures
            AlertLevel::spec_from_code(self.spec_code()) == Ok::<_, TlsError>(self),
            AlertLevel::spec_from_code(v) matches Ok(x) ==> x.spec_code() == v,
    {
    }
}

impl View for AlertLevel {
    type V = AlertLevel;

    open spec fn view(&self) -> AlertLevel {
        *self
    }
}

impl AlertLevel {
    /// The code that stands for the value on the wire.
    pub fn code(self) -> (res: u8)
        ensures
            res == self.spec_code(),
    {
        let value = self;
        match value {
            AlertLevel::Warning => 0x01,
            AlertLevel::Fatal => 0x02,
        }
    }
}

impl AlertLevel {
    /// The value that a code stands for.
    pub fn try_from(value: u8) -> (res: Result<Self, TlsError>)
        ensures
            res == AlertLevel::spec_from_code(value),
    {
        match value {
            0x01 => Ok(AlertLevel::Warning),
            0x02 => Ok(AlertLevel::Fatal),
            _ => Err(TlsError::Unknown("alert level")),
        }
    }
}

/// What an alert reports.
#[derive(Debug, Clone, Copy, PartialEq, Eq, Structural)]
pub enum AlertDescription {
    CloseNotify,
    UnexpectedMessage,
    BadRecordMac,
    RecordOverflow,
    HandshakeFailure,
    BadCertificate,
    UnsupportedCertificate,
    CertificateRevoked,
    CertificateExpired,
    CertificateUnknown,
    IllegalParameter,
    UnknownCa,
    AccessDenied,
    DecodeError,
    DecryptError,
    ProtocolVersion,
    InsufficientSecurity,
    InternalError,
    InappropriateFallback,
    UserCanceled,
    MissingExtension,
    UnsupportedExtension,
    UnrecognizedName,
    BadCertificateStatusResponse,
    UnknownPskIdentity,
    CertificateRequired,
    NoApplicationProtocol,
}

impl AlertDescription {
    /// The code that stands for the value on the wire.
    pub open spec fn spec_code(self) -> u8 {
        match self {
            AlertDescription::CloseNotify => 0x00,
            AlertDescription::UnexpectedMessage => 0x0A,
            AlertDescription::BadRecordMac => 0x14,
            AlertDescription::RecordOverflow => 0x16,
            AlertDescription::HandshakeFailure => 0x28,
            AlertDescription::BadCertificate => 0x2A,
            AlertDescription::UnsupportedCertificate => 0x2B,
            AlertDescription::CertificateRevoked => 0x2C,
            AlertDescription::CertificateExpired => 0x2D,
            AlertDescription::CertificateUnknown => 0x2E,
            AlertDescription::IllegalParameter => 0x2F,
            AlertDescription::UnknownCa => 0x30,
            AlertDescription::AccessDenied => 0x31,
            AlertDescription::DecodeError => 0x32,
            AlertDescription::DecryptError => 0x33,
            AlertDescription::ProtocolVersion => 0x46,
            AlertDescription::InsufficientSecurity => 0x47,
            AlertDescription::InternalError => 0x50,
            AlertDescription::InappropriateFallback => 0x56,
            AlertDescription::UserCanceled => 0x5A,
            AlertDescription::MissingExtension => 0x6D,
            AlertDescription::UnsupportedExtension => 0x6E,
            AlertDescription::UnrecognizedName => 0x70,
            AlertDescription::BadCertificateStatusResponse => 0x71,
            AlertDescription::UnknownPskIdentity => 0x73,
            AlertDescription::CertificateRequired => 0x74,
            AlertDescription::NoApplicationProtocol => 0x78,
        }
    }

    /// The value that a code stands for, or the error for a code that stands for none.
    pub open spec fn spec_from_code(v: u8) -> Result<AlertDescription, TlsError> {
        match v {
            0x00 => Ok(AlertDescription::CloseNotify),
            0x0A => Ok(AlertDescription::UnexpectedMessage),
            0x14 => Ok(AlertDescription::BadRecordMac),
            0x16 => Ok(AlertDescription::RecordOverflow),
            0x28 => Ok(AlertDescription::HandshakeFailure),
            0x2A => Ok(AlertDescription::BadCertificate),
            0x2B => Ok(AlertDescription::UnsupportedCertificate),
            0x2C => Ok(AlertDescription::CertificateRevoked),
            0x2D => Ok(AlertDescription::CertificateExpired),
            0x2E => Ok(AlertDescription::CertificateUnknown),
            0x2F => Ok(AlertDescription::IllegalParameter),
            0x30 => Ok(AlertDescription::UnknownCa),
            0x31 => Ok(AlertDescription::AccessDenied),
            0x32 => Ok(AlertDescription::DecodeError),
            0x33 => Ok(AlertDescription::DecryptError),
            0x46 => Ok(AlertDescription::ProtocolVersion),
            0x47 => Ok(AlertDescription::InsufficientSecurity),
            0x50 => Ok(AlertDescription::InternalError),
            0x56 => Ok(AlertDescription::InappropriateFallback),
            0x5A => Ok(AlertDescription::UserCanceled),
            0x6D => Ok(AlertDescription::MissingExtension),
            0x6E => Ok(AlertDescription::UnsupportedExtension),
            0x70 => Ok(AlertDescription::UnrecognizedName),
            0x71 => Ok(AlertDescription::BadCertificateStatusResponse),
            0x73 => Ok(AlertDescription::UnknownPskIdentity),
            0x74 => Ok(AlertDescription::CertificateRequired),
            0x78 => Ok(AlertDescription::NoApplicationProtocol),
            _ => Err(TlsError::Unknown("alert description")),
        }
    }

    /// The wire codes of the named values, as the protocol's registry fixes
    /// them: each value is written as its number, and a code is read as that
    /// value exactly when it is that number.
    pub proof fn lemma_wire_codes(c: u8)
        ensures
            AlertDescription::CloseNotify.spec_code() == 0x00,
            AlertDescription::UnexpectedMessage.spec_code() == 0x0A,
            AlertDescription::BadRecordMac.spec_code() == 0x14,
            AlertDescription::RecordOverflow.spec_code() == 0x16,
            AlertDescription::HandshakeFailure.spec_code() == 0x28,
            AlertDescription::BadCertificate.spec_code() == 0x2A,
            AlertDescription::UnsupportedCertificate.spec_code() == 0x2B,
            AlertDescription::CertificateRevoked.spec_code() == 0x2C,
            AlertDescription::CertificateExpired.spec_code() == 0x2D,
            AlertDescription::CertificateUnknown.spec_code() == 0x2E,
            AlertDescription::IllegalParameter.spec_code() == 0x2F,
            AlertDescription::UnknownCa.spec_code() == 0x30,
            AlertDescription::AccessDenied.spec_code() == 0x31,
            AlertDescription::DecodeError.spec_code() == 0x32,
            AlertDescription::DecryptError.spec_code() == 0x33,
            AlertDescription::ProtocolVersion.spec_code() == 0x46,
            AlertDescription::InsufficientSecurity.spec_code() == 0x47,
            AlertDescription::InternalError.spec_code() == 0x50,
            AlertDescription::InappropriateFallback.spec_code() == 0x56,
            AlertDescription::UserCanceled.spec_code() == 0x5A,
            AlertDescription::MissingExtension.spec_code() == 0x6D,
            AlertDescription::UnsupportedExtension.spec_code() == 0x6E,
            AlertDescription::UnrecognizedName.spec_code() == 0x70,
            AlertDescription::BadCertificateStatusResponse.spec_code() == 0x71,
            AlertDescription::UnknownPskIdentity.spec_code() == 0x73,
            AlertDescription::CertificateRequired.spec_code() == 0x74,
            AlertDescription::NoApplicationProtocol.spec_code() == 0x78,
            (AlertDescription::spec_from_code(c) == Ok::<_, TlsError>(AlertDescription::CloseNotify)) <==> c == 0x00,
            (AlertDescription::spec_from_code(c) == Ok::<_, TlsError>(AlertDescription::UnexpectedMessage)) <==> c == 0x0A,
            (AlertDescription::spec_from_code(c) == Ok::<_, TlsError>(AlertDescription::BadRecordMac)) <==> c == 0x14,
            (AlertDescription::spec_from_code(c) == Ok::<_, TlsError>(AlertDescription::RecordOverflow)) <==> c == 0x16,
            (AlertDescription::spec_from_code(c) == Ok::<_, TlsError>(AlertDescription::HandshakeFailure)) <==> c == 0x28,
            (AlertDescription::spec_from_code(c) == Ok::<_, TlsError>(AlertDescription::BadCertificate)) <==> c == 0x2A,
            (AlertDescription::spec_from_code(c) == Ok::<_, TlsError>(AlertDescription::UnsupportedCertificate)) <==> c == 0x2B,
            (AlertDescription::spec_from_code(c) == Ok::<_, TlsError>(AlertDescription::CertificateRevoked)) <==> c == 0x2C,
            (AlertDescription::spec_from_code(c) == Ok::<_, TlsError>(AlertDescription::CertificateExpired)) <==> c == 0x2D,
            (AlertDescription::spec_from_code(c) == Ok::<_, TlsError>(AlertDescription::CertificateUnknown)) <==> c == 0x2E,
            (AlertDescription::spec_from_code(c) == Ok::<_, TlsError>(AlertDescription::IllegalParameter)) <==> c == 0x2F,
            (AlertDescription::spec_from_code(c) == Ok::<_, TlsError>(AlertDescription::UnknownCa)) <==> c == 0x30,
            (AlertDescription::spec_from_code(c) == Ok::<_, TlsError>(AlertDescription::AccessDenied)) <==> c == 0x31,
            (AlertDescription::spec_from_code(c) == Ok::<_, TlsError>(AlertDescription::DecodeError)) <==> c == 0x32,
            (AlertDescription::spec_from_code(c) == Ok::<_, TlsError>(AlertDescription::DecryptError)) <==> c == 0x33,
            (AlertDescription::spec_from_code(c) == Ok::<_, TlsError>(AlertDescription::ProtocolVersion)) <==> c == 0x46,
            (AlertDescription::spec_from_code(c) == Ok::<_, TlsError>(AlertDescription::InsufficientSecurity)) <==> c == 0x47,
            (AlertDescription::spec_from_code(c) == Ok::<_, TlsError>(AlertDescription::InternalError)) <==> c == 0x50,
            (AlertDescription::spec_from_code(c) == Ok::<_, TlsError>(AlertDescription::InappropriateFallback)) <==> c == 0x56,
            (AlertDescription::spec_from_code(c) == Ok::<_, TlsError>(AlertDescription::UserCanceled)) <==> c == 0x5A,
            (AlertDescription::spec_from_code(c) == Ok::<_, TlsError>(AlertDescription::MissingExtension)) <==> c == 0x6D,
            (AlertDescription::spec_from_code(c) == Ok::<_, TlsError>(AlertDescription::UnsupportedExtension)) <==> c == 0x6E,
            (AlertDescription::spec_from_code(c) == Ok::<_, TlsError>(AlertDescription::UnrecognizedName)) <==> c == 0x70,
            (AlertDescription::spec_from_code(c) == Ok::<_, TlsError>(AlertDescription::BadCertificateStatusResponse)) <==> c == 0x71,
            (AlertDescription::spec_from_code(c) == Ok::<_, TlsError>(AlertDescription::UnknownPskIdentity)) <==> c == 0x73,
            (AlertDescription::spec_from_code(c) == Ok::<_, TlsError>(AlertDescription::CertificateRequired)) <==> c == 0x74,
            (AlertDescription::spec_from_code(c) == Ok::<_, TlsError>(AlertDescription::NoApplicationProtocol)) <==> c == 0x78,
    {
    }

    /// A value written as its code is read back as itself, and a code that
    /// is read as a value is that value's code.
    pub proof fn lemma_code_roundtrip(self, v: u8)
        ensures
            AlertDescription::spec_from_code(self.spec_code()) == Ok::<_, TlsError>(self),
            AlertDescription::spec_from_code(v) matches Ok(x) ==> x.spec_code() == v,
    {
    }
}

impl View for AlertDescription {
    type V = AlertDescription;

    open spec fn view(&self) -> AlertDescription {
        *self
    }
}

impl AlertDescription {
    /// The code that stands for the value on the wire.
    pub fn code(self) -> (res: u8)
        ensures
            res == self.spec_code(),
    {
        let value = self;
        match value {
            AlertDescription::CloseNotify => 0x00,
            AlertDescription::UnexpectedMessage => 0x0A,
            AlertDescription::BadRecordMac => 0x14,
            AlertDescription::RecordOverflow => 0x16,
            AlertDescription::HandshakeFailure => 0x28,
            AlertDescription::BadCertificate => 0x2A,
            AlertDescription::UnsupportedCertificate => 0x2B,
            AlertDescription::CertificateRevoked => 0x2C,
            AlertDescription::CertificateExpired => 0x2D,
            AlertDescription::CertificateUnknown => 0x2E,
            AlertDescription::IllegalParameter => 0x2F,
            AlertDescription::UnknownCa => 0x30,
            AlertDescription::AccessDenied => 0x31,
            AlertDescription::DecodeError => 0x32,
            AlertDescription::DecryptError => 0x33,
            AlertDescription::ProtocolVersion => 0x46,
            AlertDescription::InsufficientSecurity => 0x47,
            AlertDescription::InternalError => 0x50,
            AlertDescription::InappropriateFallback => 0x56,
            AlertDescription::UserCanceled => 0x5A,
            AlertDescription::MissingExtension => 0x6D,
            AlertDescription::UnsupportedExtension => 0x6E,
            AlertDescription::UnrecognizedName => 0x70,
            AlertDescription::BadCertificateStatusResponse => 0x71,
            AlertDescription::UnknownPskIdentity => 0x73,
            AlertDescription::CertificateRequired => 0x74,
            AlertDescription::NoApplicationProtocol => 0x78,
        }
    }
}

impl AlertDescription {
    /// The value that a code stands for.
    pub fn try_from(value: u8) -> (res: Result<Self, TlsError>)
        ensures
            res == AlertDescription::spec_from_code(value),
    {
        match value {
            0x00 => Ok(AlertDescription::CloseNotify),
            0x0A => Ok(AlertDescription::UnexpectedMessage),
            0x14 => Ok(AlertDescription::BadRecordMac),
            0x16 => Ok(AlertDescription::RecordOverflow),
            0x28 => Ok(AlertDescription::HandshakeFailure),
            0x2A => Ok(AlertDescription::BadCertificate),
            0x2B => Ok(AlertDescription::UnsupportedCertificate),
            0x2C => Ok(AlertDescription::CertificateRevoked),
            0x2D => Ok(AlertDescription::CertificateExpired),
            0x2E => Ok(AlertDescription::CertificateUnknown),
            0x2F => Ok(AlertDescription::IllegalParameter),
            0x30 => Ok(AlertDescription::UnknownCa),
            0x31 => Ok(AlertDescription::AccessDenied),
            0x32 => Ok(AlertDescription::DecodeError),
            0x33 => Ok(AlertDescription::DecryptError),
            0x46 => Ok(AlertDescription::ProtocolVersion),
            0x47 => Ok(AlertDescription::InsufficientSecurity),
            0x50 => Ok(AlertDescription::InternalError),
            0x56 => Ok(AlertDescription::InappropriateFallback),
            0x5A => Ok(AlertDescription::UserCanceled),
            0x6D => Ok(AlertDescription::MissingExtension),
            0x6E => Ok(AlertDescription::UnsupportedExtension),
            0x70 => Ok(AlertDescription::UnrecognizedName),
            0x71 => Ok(AlertDescription::BadCertificateStatusResponse),
            0x73 => Ok(AlertDescription::UnknownPskIdentity),
            0x74 => Ok(AlertDescription::CertificateRequired),
            0x78 => Ok(AlertDescription::NoApplicationProtocol),
            _ => Err(TlsError::Unknown("alert description")),
        }
    }
}

/// How an alert's two bytes name its level and description, for every
/// input and every alert: an alert read has the level that the first byte
/// names (`1` warning, `2` fatal) and the description that the second names
/// in the registry (`0x2A` bad certificate, `0x2B` unsupported certificate,
/// ...), and an alert is written as those two numbers.
pub proof fn lemma_alert_bytes(s: Seq<u8>, v: AlertPayload)
    ensures
        AlertPayload::spec_decode(s) matches Ok((r, _)) ==> {
            &&& (r.level == AlertLevel::Warning <==> s[0] == 0x01)
            &&& (r.level == AlertLevel::Fatal <==> s[0] == 0x02)
            &&& (r.description == AlertDescription::CloseNotify <==> s[1] == 0x00)
            &&& (r.description == AlertDescription::UnexpectedMessage <==> s[1] == 0x0A)
            &&& (r.description == AlertDescription::BadRecordMac <==> s[1] == 0x14)
            &&& (r.description == AlertDescription::RecordOverflow <==> s[1] == 0x16)
            &&& (r.description == AlertDescription::HandshakeFailure <==> s[1] == 0x28)
            &&& (r.description == AlertDescription::BadCertificate <==> s[1] == 0x2A)
            &&& (r.description == AlertDescription::UnsupportedCertificate <==> s[1] == 0x2B)
            &&& (r.description == AlertDescription::CertificateRevoked <==> s[1] == 0x2C)
            &&& (r.description == AlertDescription::CertificateExpired <==> s[1] == 0x2D)
            &&& (r.description == AlertDescription::CertificateUnknown <==> s[1] == 0x2E)
            &&& (r.description == AlertDescription::IllegalParameter <==> s[1] == 0x2F)
            &&& (r.description == AlertDescription::UnknownCa <==> s[1] == 0x30)
            &&& (r.description == AlertDescription::AccessDenied <==> s[1] == 0x31)
            &&& (r.description == AlertDescription::DecodeError <==> s[1] == 0x32)
            &&& (r.description == AlertDescription::DecryptError <==> s[1] == 0x33)
            &&& (r.description == AlertDescription::ProtocolVersion <==> s[1] == 0x46)
            &&& (r.description == AlertDescription::InsufficientSecurity <==> s[1] == 0x47)
            &&& (r.description == AlertDescription::InternalError <==> s[1] == 0x50)
            &&& (r.description == AlertDescription::InappropriateFallback <==> s[1] == 0x56)
            &&& (r.description == AlertDescription::UserCanceled <==> s[1] == 0x5A)
            &&& (r.description == AlertDescription::MissingExtension <==> s[1] == 0x6D)
            &&& (r.description == AlertDescription::UnsupportedExtension <==> s[1] == 0x6E)
            &&& (r.description == AlertDescription::UnrecognizedName <==> s[1] == 0x70)
            &&& (r.description == AlertDescription::BadCertificateStatusResponse <==> s[1] == 0x71)
            &&& (r.description == AlertDescription::UnknownPskIdentity <==> s[1] == 0x73)
            &&& (r.description == AlertDescription::CertificateRequired <==> s[1] == 0x74)
            &&& (r.description == AlertDescription::NoApplicationProtocol <==> s[1] == 0x78)
        },
        v.level == AlertLevel::Warning ==> AlertPayload::spec_encode(v)[0] == 0x01,
        v.level == AlertLevel::Fatal ==> AlertPayload::spec_encode(v)[0] == 0x02,
        v.description == AlertDescription::CloseNotify ==> AlertPayload::spec_encode(v)[1] == 0x00,
        v.description == AlertDescription::UnexpectedMessage ==> AlertPayload::spec_encode(v)[1] == 0x0A,
        v.description == AlertDescription::BadRecordMac ==> AlertPayload::spec_encode(v)[1] == 0x14,
        v.description == AlertDescription::RecordOverflow ==> AlertPayload::spec_encode(v)[1] == 0x16,
        v.description == AlertDescription::HandshakeFailure ==> AlertPayload::spec_encode(v)[1] == 0x28,
        v.description == AlertDescription::BadCertificate ==> AlertPayload::spec_encode(v)[1] == 0x2A,
        v.description == AlertDescription::UnsupportedCertificate ==> AlertPayload::spec_encode(v)[1] == 0x2B,
        v.description == AlertDescription::CertificateRevoked ==> AlertPayload::spec_encode(v)[1] == 0x2C,
        v.description == AlertDescription::CertificateExpired ==> AlertPayload::spec_encode(v)[1] == 0x2D,
        v.description == AlertDescription::CertificateUnknown ==> AlertPayload::spec_encode(v)[1] == 0x2E,
        v.description == AlertDescription::IllegalParameter ==> AlertPayload::spec_encode(v)[1] == 0x2F,
        v.description == AlertDescription::UnknownCa ==> AlertPayload::spec_encode(v)[1] == 0x30,
        v.description == AlertDescription::AccessDenied ==> AlertPayload::spec_encode(v)[1] == 0x31,
        v.description == AlertDescription::DecodeError ==> AlertPayload::spec_encode(v)[1] == 0x32,
        v.description == AlertDescription::DecryptError ==> AlertPayload::spec_encode(v)[1] == 0x33,
        v.description == AlertDescription::ProtocolVersion ==> AlertPayload::spec_encode(v)[1] == 0x46,
        v.description == AlertDescription::InsufficientSecurity ==> AlertPayload::spec_encode(v)[1] == 0x47,
        v.description == AlertDescription::InternalError ==> AlertPayload::spec_encode(v)[1] == 0x50,
        v.description == AlertDescription::InappropriateFallback ==> AlertPayload::spec_encode(v)[1] == 0x56,
        v.description == AlertDescription::UserCanceled ==> AlertPayload::spec_encode(v)[1] == 0x5A,
        v.description == AlertDescription::MissingExtension ==> AlertPayload::spec_encode(v)[1] == 0x6D,
        v.description == AlertDescription::UnsupportedExtension ==> AlertPayload::spec_encode(v)[1] == 0x6E,
        v.description == AlertDescription::UnrecognizedName ==> AlertPayload::spec_encode(v)[1] == 0x70,
        v.description == AlertDescription::BadCertificateStatusResponse ==> AlertPayload::spec_encode(v)[1] == 0x71,
        v.description == AlertDescription::UnknownPskIdentity ==> AlertPayload::spec_encode(v)[1] == 0x73,
        v.description == AlertDescription::CertificateRequired ==> AlertPayload::spec_encode(v)[1] == 0x74,
        v.description == AlertDescription::NoApplicationProtocol ==> AlertPayload::spec_encode(v)[1] == 0x78,
{
}

} // verus!
