use bytes::{Bytes, BytesMut};
use tlsec::error::TlsError;
use tlsec::message::handshake::extensions::alpn::{AlpnPayload, AlpnProtocol, AlpnProtocols};
use tlsec::message::handshake::extensions::app_settings::ApplicationSettingsPayload;
use tlsec::message::handshake::extensions::authorities::CertificateAuthoritiesPayload;
use tlsec::message::handshake::extensions::ech::EncryptedClientHelloPayload;
use tlsec::message::handshake::extensions::extension::{
    Extension, ExtensionPayload, ExtensionType, UnknownExtension,
};
use tlsec::message::handshake::extensions::oid_filter::{OidFilter, OidFiltersPayload};
use tlsec::message::handshake::extensions::renegotiation_info::RenegotiationInfoPayload;
use tlsec::message::handshake::extensions::sct::{
    CertificateEntryExtensionPayload, CertificateEntryExtensionType, DigitallySigned,
    SctHashAlgorithm, SctSignatureAlgorithm, SctVersion, SignedCertificateTimestampPayload,
};
use tlsec::message::handshake::extensions::session_ticket::SessionTicketPayload;
use tlsec::message::handshake::extensions::sni::{NameType, ServerNamePayload};
use tlsec::message::handshake::extensions::status_request::{StatusRequestPayload, StatusType};
use tlsec::message::handshake::extensions::sup_versions::SupportedVersionsPayload;
use tlsec::message::handshake::grease::GreasePayloadU16;
use tlsec::message::serialize::Serialize;
use tlsec::message::version::Version;

#[test]
fn server_name_roundtrip() {
    let p = ServerNamePayload { name_type: NameType::HostName, name: "example.com".to_string() };
    let mut buf = BytesMut::new();
    p.encode(&mut buf);
    let mut expected = vec![0x00, 0x00, 0x0B];
    expected.extend_from_slice(b"example.com");
    assert_eq!(&buf[..], &expected[..]);
    assert_eq!(ServerNamePayload::decode(&mut buf).unwrap(), p);
}

#[test]
fn server_name_errors() {
    let mut bad_utf8 = BytesMut::from(&[0x00u8, 0x00, 0x01, 0xFF][..]);
    match ServerNamePayload::decode(&mut bad_utf8) {
        Err(TlsError::Io(message)) => assert!(message.starts_with("wrong sni: ")),
        other => panic!("unexpected {:?}", other),
    }
    let mut bad_type = BytesMut::from(&[0x01u8, 0x00, 0x00][..]);
    assert_eq!(ServerNamePayload::decode(&mut bad_type), Err(TlsError::Unknown("name type")));
    let mut short = BytesMut::from(&[0x00u8, 0x00, 0x05, b'a'][..]);
    assert_eq!(ServerNamePayload::decode(&mut short), Err(TlsError::Incomplete(4)));
}

#[test]
fn alpn_roundtrip() {
    let p = AlpnPayload {
        protocols: vec![AlpnProtocol { name: AlpnProtocols::H2 }, AlpnProtocol { name: AlpnProtocols::Http11 }],
    };
    let mut buf = BytesMut::new();
    p.encode(&mut buf);
    let mut expected = vec![0x00, 0x0C, 0x02, b'h', b'2', 0x08];
    expected.extend_from_slice(b"http/1.1");
    assert_eq!(&buf[..], &expected[..]);
    assert_eq!(AlpnPayload::decode(&mut buf).unwrap(), p);
}

#[test]
fn alpn_protocol_names() {
    assert_eq!(AlpnProtocols::H3.as_ref(), b"h3");
    assert_eq!(AlpnProtocols::Http11.as_ref(), b"http/1.1");
    assert_eq!(AlpnProtocols::try_from(BytesMut::from(&b"h2"[..])), Ok(AlpnProtocols::H2));
    assert_eq!(AlpnProtocols::try_from(BytesMut::from(&b"spdy/3"[..])), Err(TlsError::Unknown("ALPN protocol")));
}

#[test]
fn application_settings_roundtrip() {
    let p = ApplicationSettingsPayload { protocol: AlpnProtocols::H2, settings: Bytes::from_static(&[1, 2, 3]) };
    let mut buf = BytesMut::new();
    p.encode(&mut buf);
    assert_eq!(&buf[..], &[0x02, b'h', b'2', 0x00, 0x03, 1, 2, 3]);
    assert_eq!(ApplicationSettingsPayload::decode(&mut buf).unwrap(), p);
    let mut short = BytesMut::from(&[0x02u8, b'h'][..]);
    assert_eq!(ApplicationSettingsPayload::decode(&mut short), Err(TlsError::Incomplete(3)));
}

#[test]
fn status_request_roundtrip_and_errors() {
    let p = StatusRequestPayload {
        status_type: StatusType::Ocsp,
        responder_id_list: Bytes::from_static(&[1]),
        request_extensions: Bytes::new(),
    };
    let mut buf = BytesMut::new();
    p.encode(&mut buf);
    assert_eq!(&buf[..], &[0x01, 0x00, 0x01, 0x01, 0x00, 0x00]);
    assert_eq!(StatusRequestPayload::decode(&mut buf).unwrap(), p);
    let mut short = BytesMut::from(&[0x01u8, 0x00][..]);
    assert_eq!(StatusRequestPayload::decode(&mut short), Err(TlsError::Incomplete(1)));
    let mut empty = BytesMut::new();
    assert_eq!(StatusRequestPayload::decode(&mut empty), Err(TlsError::Incomplete(1)));
    let mut one = BytesMut::from(&[0x01u8][..]);
    assert_eq!(StatusRequestPayload::decode(&mut one), Err(TlsError::Incomplete(0)));
    let mut bad = BytesMut::from(&[0x02u8, 0x00, 0x00][..]);
    assert_eq!(StatusRequestPayload::decode(&mut bad), Err(TlsError::Unknown("status type")));
}

#[test]
fn renegotiation_info_and_session_ticket() {
    let mut empty = BytesMut::new();
    assert_eq!(RenegotiationInfoPayload::decode(&mut empty).unwrap().renegotiated_connection.len(), 0);
    let r = RenegotiationInfoPayload { renegotiated_connection: Bytes::from_static(&[4, 5]) };
    let mut buf = BytesMut::new();
    r.encode(&mut buf);
    assert_eq!(&buf[..], &[0x02, 4, 5]);
    assert_eq!(RenegotiationInfoPayload::decode(&mut buf).unwrap(), r);

    let t = SessionTicketPayload { ticket: Bytes::from_static(&[9]) };
    let mut buf = BytesMut::new();
    t.encode(&mut buf);
    assert_eq!(&buf[..], &[0x00, 0x01, 9]);
    assert_eq!(SessionTicketPayload::decode(&mut buf).unwrap(), t);
    let mut one = BytesMut::from(&[0x00u8][..]);
    assert_eq!(SessionTicketPayload::decode(&mut one), Err(TlsError::Incomplete(1)));
}

#[test]
fn encrypted_client_hello_takes_everything() {
    let mut buf = BytesMut::from(&[1u8, 2, 3][..]);
    let p = EncryptedClientHelloPayload::decode(&mut buf).unwrap();
    assert_eq!(&p.data[..], &[1, 2, 3]);
    assert!(buf.is_empty());
}

#[test]
fn oid_filters_and_authorities() {
    let f = OidFiltersPayload {
        filters: vec![OidFilter { oid: Bytes::from_static(&[0x55]), value: Bytes::new() }],
    };
    let mut buf = BytesMut::new();
    f.encode(&mut buf);
    assert_eq!(&buf[..], &[0x00, 0x05, 0x00, 0x01, 0x55, 0x00, 0x00]);
    assert_eq!(OidFiltersPayload::decode(&mut buf).unwrap(), f);

    let a = CertificateAuthoritiesPayload { authorities: vec![Bytes::from_static(&[1, 2]), Bytes::new()] };
    let mut buf = BytesMut::new();
    a.encode(&mut buf);
    assert_eq!(&buf[..], &[0x00, 0x06, 0x00, 0x02, 1, 2, 0x00, 0x00]);
    assert_eq!(CertificateAuthoritiesPayload::decode(&mut buf).unwrap(), a);
    let mut bad = BytesMut::from(&[0x00u8, 0x01, 0x00][..]);
    assert_eq!(CertificateAuthoritiesPayload::decode(&mut bad), Err(TlsError::Incomplete(1)));
}

#[test]
fn extension_type_codes() {
    assert_eq!(ExtensionType::try_from(0x0000), Ok(ExtensionType::ServerName));
    assert_eq!(ExtensionType::try_from(0x002B), Ok(ExtensionType::SupportedVersions));
    assert_eq!(ExtensionType::try_from(0xFF01), Ok(ExtensionType::RenegotiationInfo));
    assert_eq!(ExtensionType::try_from(0x3A3A), Ok(ExtensionType::Grease(GreasePayloadU16 { grease: 0x3A3A })));
    assert_eq!(ExtensionType::try_from(0x1234), Ok(ExtensionType::Unknown(0x1234)));
    assert_eq!(ExtensionType::ApplicationSettings.code(), 0x44CD);
    assert_eq!(ExtensionType::EncryptedClientHello.code(), 0xFE0D);
}

#[test]
fn extension_roundtrip() {
    let e = Extension {
        extension_type: ExtensionType::SupportedVersions,
        payload: ExtensionPayload::SupportedVersions(SupportedVersionsPayload { versions: vec![Version::Tls13] }),
    };
    let mut buf = BytesMut::new();
    e.encode(&mut buf);
    assert_eq!(&buf[..], &[0x00, 0x2B, 0x00, 0x03, 0x02, 0x03, 0x04]);
    assert_eq!(Extension::decode(&mut buf).unwrap(), e);

    let g = Extension {
        extension_type: ExtensionType::Grease(GreasePayloadU16 { grease: 0x2A2A }),
        payload: ExtensionPayload::Grease(GreasePayloadU16 { grease: 0x2A2A }),
    };
    let mut buf = BytesMut::new();
    g.encode(&mut buf);
    assert_eq!(&buf[..], &[0x2A, 0x2A, 0x00, 0x02, 0x2A, 0x2A]);
    assert_eq!(Extension::decode(&mut buf).unwrap(), g);

    let u = Extension {
        extension_type: ExtensionType::Unknown(0x7777),
        payload: ExtensionPayload::Unknown(UnknownExtension { payload: Bytes::new() }),
    };
    let mut buf = BytesMut::new();
    u.encode(&mut buf);
    assert_eq!(Extension::decode(&mut buf).unwrap(), u);
}

#[test]
fn extension_short_header() {
    let mut one = BytesMut::from(&[0x00u8][..]);
    assert_eq!(Extension::decode(&mut one), Err(TlsError::Incomplete(1)));
    let mut three = BytesMut::from(&[0x00u8, 0x2B, 0x00][..]);
    assert_eq!(Extension::decode(&mut three), Err(TlsError::Incomplete(1)));
    let mut body = BytesMut::from(&[0x00u8, 0x2B, 0x00, 0x04, 0x02][..]);
    assert_eq!(Extension::decode(&mut body), Err(TlsError::Incomplete(3)));
}

#[test]
fn signed_certificate_timestamp_roundtrip() {
    let sct = SignedCertificateTimestampPayload {
        version: SctVersion::V1,
        log_id: [7u8; 32],
        timestamp: 0x0102030405060708,
        extensions: vec![],
        signature: DigitallySigned {
            hash_algorithm: SctHashAlgorithm::Sha256,
            signature_algorithm: SctSignatureAlgorithm::Ecdsa,
            signature: Bytes::from_static(&[0xEE]),
        },
    };
    let mut buf = BytesMut::new();
    sct.encode(&mut buf);
    assert_eq!(buf.len(), 1 + 32 + 8 + 2 + 5);
    assert_eq!(&buf[33..41], &[1, 2, 3, 4, 5, 6, 7, 8]);
    assert_eq!(&buf[43..], &[0x04, 0x03, 0x00, 0x01, 0xEE]);
    assert_eq!(SignedCertificateTimestampPayload::decode(&mut buf).unwrap(), sct);
}

#[test]
fn signed_certificate_timestamp_errors() {
    let mut short = BytesMut::from(&[0u8; 10][..]);
    assert_eq!(SignedCertificateTimestampPayload::decode(&mut short), Err(TlsError::Incomplete(33)));
    let mut bad = BytesMut::from(&[1u8; 43][..]);
    assert_eq!(SignedCertificateTimestampPayload::decode(&mut bad), Err(TlsError::Unknown("SCT version")));
    assert_eq!(SctHashAlgorithm::try_from(0x09), Ok(SctHashAlgorithm::Unknown(0x09)));
    assert_eq!(SctSignatureAlgorithm::try_from(0x01), Ok(SctSignatureAlgorithm::Rsa));
    assert_eq!(CertificateEntryExtensionType::try_from(0x0012), Ok(CertificateEntryExtensionType::SignedCertificateTimestamp));
    let mut sr = BytesMut::from(&[0x01u8, 0x00, 0x00, 0x00, 0x00][..]);
    assert!(matches!(
        CertificateEntryExtensionPayload::decode_payload(CertificateEntryExtensionType::StatusRequest, &mut sr),
        Ok(CertificateEntryExtensionPayload::StatusRequest(_))
    ));
}
