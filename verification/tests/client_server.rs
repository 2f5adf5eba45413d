use bytes::{Bytes, BytesMut};
use tlsec::error::TlsError;
use tlsec::message::handshake::certificate::verify::CertificateVerifyPayload;
use tlsec::message::handshake::extensions::alpn::{AlpnPayload, AlpnProtocol, AlpnProtocols};
use tlsec::message::handshake::extensions::client::{
    ClientExtensionPayload, ClientExtensionType, KeyShareClient, SupportedVersionsClient,
};
use tlsec::message::handshake::extensions::extension::{Extension, ExtensionPayload, ExtensionType};
use tlsec::message::handshake::extensions::key_share::{KeyShareEntry, NamedGroup};
use tlsec::message::handshake::extensions::server::{
    KeyShareHelloRetryRequest, KeyShareServer, ServerExtensionPayload, ServerExtensionType,
    SupportedVersionsServer,
};
use tlsec::message::handshake::extensions::sig_scheme::SignatureScheme;
use tlsec::message::handshake::message::client::{ClientHandshakePayload, ClientHandshakeType};
use tlsec::message::handshake::message::server::{ServerHandshakePayload, ServerHandshakeType};
use tlsec::message::serialize::Serialize;
use tlsec::message::version::Version;
use tlsec::messages::handshake::certificate::CertificateEntry;
use tlsec::messages::handshake::extensions::client::GreasePayload;

#[test]
fn client_extension_types() {
    assert_eq!(ClientExtensionType::try_from(0x0033), Ok(ClientExtensionType::KeyShare));
    assert_eq!(ClientExtensionType::try_from(0x4A4A), Ok(ClientExtensionType::Grease));
    assert_eq!(ClientExtensionType::try_from(0xFF01), Err(TlsError::Unknown("extension")));
    assert_eq!(ClientExtensionType::Grease.code(), 0x0011);
    assert_eq!(ClientExtensionType::ALPN.code(), 0x0010);
}

#[test]
fn client_extension_payloads() {
    let mut buf = BytesMut::from(&[0x02u8, 0x03, 0x04, 0x03, 0x03][..]);
    let p = ClientExtensionPayload::decode_payload(ClientExtensionType::SupportedVersions, &mut buf).unwrap();
    assert_eq!(
        p,
        ClientExtensionPayload::SupportedVersionsClient(SupportedVersionsClient { versions: vec![Version::Tls13] })
    );
    assert_eq!(&buf[..], &[0x03, 0x03]);
    let mut empty = BytesMut::new();
    assert_eq!(
        ClientExtensionPayload::decode_payload(ClientExtensionType::Grease, &mut empty).unwrap(),
        ClientExtensionPayload::Grease
    );
    let mut out = BytesMut::new();
    p.encode_payload(&mut out);
    assert_eq!(&out[..], &[0x02, 0x03, 0x04]);
}

#[test]
fn key_shares_of_both_sides() {
    let entry = KeyShareEntry { group: NamedGroup::X25519, key_exchange: Bytes::from_static(&[1, 2]) };
    let client = KeyShareClient { client_shares: vec![entry] };
    let mut buf = BytesMut::new();
    client.encode(&mut buf);
    assert_eq!(&buf[..], &[0x00, 0x06, 0x00, 0x1D, 0x00, 0x02, 1, 2]);
    assert_eq!(KeyShareClient::decode(&mut buf).unwrap(), client);

    let server = KeyShareServer {
        server_share: KeyShareEntry { group: NamedGroup::Secp256r1, key_exchange: Bytes::from_static(&[9]) },
    };
    let mut buf = BytesMut::new();
    server.encode(&mut buf);
    assert_eq!(&buf[..], &[0x00, 0x17, 0x00, 0x01, 9]);
    assert_eq!(KeyShareServer::decode(&mut buf).unwrap(), server);

    let retry = KeyShareHelloRetryRequest { selected_group: NamedGroup::Secp384r1 };
    let mut buf = BytesMut::new();
    retry.encode(&mut buf);
    assert_eq!(&buf[..], &[0x00, 0x18]);
    assert_eq!(KeyShareHelloRetryRequest::decode(&mut buf).unwrap(), retry);
    let mut short = BytesMut::from(&[0x00u8][..]);
    assert_eq!(KeyShareHelloRetryRequest::decode(&mut short), Err(TlsError::Incomplete(1)));
}

#[test]
fn server_extensions() {
    assert_eq!(ServerExtensionType::try_from(0x002B), Ok(ServerExtensionType::SupportedVersions));
    assert_eq!(ServerExtensionType::try_from(0x0000), Err(TlsError::Unknown("extension type")));
    let mut buf = BytesMut::from(&[0x03u8, 0x04][..]);
    let p = ServerExtensionPayload::decode_payload(ServerExtensionType::SupportedVersions, &mut buf).unwrap();
    assert_eq!(
        p,
        ServerExtensionPayload::SupportedVersionsServer(SupportedVersionsServer { selected_version: Version::Tls13 })
    );
    let alpn = ServerExtensionPayload::ALPN(AlpnPayload { protocols: vec![AlpnProtocol { name: AlpnProtocols::H3 }] });
    let mut out = BytesMut::new();
    alpn.encode_payload(&mut out);
    assert_eq!(&out[..], &[0x00, 0x03, 0x02, b'h', b'3']);
    assert_eq!(ServerExtensionPayload::decode_payload(ServerExtensionType::ALPN, &mut out).unwrap(), alpn);
}

#[test]
fn handshake_types_of_both_sides() {
    assert_eq!(ClientHandshakeType::try_from(0x0F), Ok(ClientHandshakeType::CertificateVerify));
    assert_eq!(ClientHandshakeType::try_from(0x02), Err(TlsError::Unknown("handshake type")));
    assert_eq!(ServerHandshakeType::try_from(0x0D), Ok(ServerHandshakeType::CertificateRequest));
    assert_eq!(ServerHandshakeType::try_from(0x0E), Err(TlsError::Unknown("handshake type")));

    let mut buf = BytesMut::from(&[0x08u8, 0x07, 0x00, 0x01, 0xAA][..]);
    let p = ClientHandshakePayload::decode_payload(ClientHandshakeType::CertificateVerify, &mut buf).unwrap();
    assert_eq!(
        p,
        ClientHandshakePayload::CertificateVerify(CertificateVerifyPayload {
            algorithm: SignatureScheme::Ed25519,
            signature: Bytes::from_static(&[0xAA]),
        })
    );
    let mut out = BytesMut::new();
    p.encode_payload(&mut out);
    assert_eq!(&out[..], &[0x08, 0x07, 0x00, 0x01, 0xAA]);

    let mut any = BytesMut::from(&[0u8; 4][..]);
    assert_eq!(
        ServerHandshakePayload::decode_payload(ServerHandshakeType::NewSessionTicket, &mut any),
        Err(TlsError::Unknown("handshake type"))
    );
}

#[test]
fn certificate_entry_with_hello_extensions() {
    let entry = CertificateEntry {
        certificate_data: BytesMut::from(&[7u8, 7][..]),
        extensions: vec![Extension {
            extension_type: ExtensionType::ExtendedMainSecret,
            payload: ExtensionPayload::ExtendedMainSecret,
        }],
    };
    let mut buf = BytesMut::new();
    entry.encode(&mut buf);
    assert_eq!(&buf[..], &[0x00, 0x00, 0x02, 7, 7, 0x00, 0x04, 0x00, 0x17, 0x00, 0x00]);
    let decoded = CertificateEntry::decode(&mut buf).unwrap();
    assert_eq!(&decoded.certificate_data[..], &[7, 7]);
    assert_eq!(decoded.extensions, entry.extensions);
}

#[test]
fn grease_payload_keeps_all_bytes() {
    let mut buf = BytesMut::from(&[1u8, 2, 3][..]);
    let g = GreasePayload::decode(&mut buf).unwrap();
    assert_eq!(&g.data[..], &[1, 2, 3]);
    let mut out = BytesMut::new();
    g.encode(&mut out);
    assert_eq!(&out[..], &[1, 2, 3]);
}
