use bytes::{Bytes, BytesMut};
use tlsec::error::TlsError;
use tlsec::message::handshake::certificate::certificate::{
    CertificateEntryExtension, CertificateEntryExtensionPayload, CertificateEntryExtensionType,
    CertificateEntryPayload, CertificatePayload,
};
use tlsec::message::handshake::certificate::compressed::CompressedCertificatePayload;
use tlsec::message::handshake::certificate::request::CertificateRequestPayload;
use tlsec::message::handshake::certificate::verify::CertificateVerifyPayload;
use tlsec::message::handshake::extensions::compress_algo::CompressionAlgorithm;
use tlsec::message::handshake::extensions::sig_scheme::SignatureScheme;
use tlsec::message::handshake::extensions::status_request::{StatusRequestPayload, StatusType};
use tlsec::message::serialize::Serialize;

#[test]
fn cert_parse() {
    let mut buf: BytesMut = BytesMut::new();

    let zero: Bytes = Bytes::new();

    let sr_payload: StatusRequestPayload = StatusRequestPayload {
        status_type: StatusType::Ocsp,
        responder_id_list: zero.clone(),
        request_extensions: zero.clone(),
    };

    let ext_payload: CertificateEntryExtensionPayload = CertificateEntryExtensionPayload::StatusRequest(sr_payload);

    let ext: CertificateEntryExtension = CertificateEntryExtension {
        extension_type: CertificateEntryExtensionType::StatusRequest,
        payload: ext_payload,
    };

    let cert_list: CertificateEntryPayload = CertificateEntryPayload {
        certificate_data: zero.clone(),
        extensions: vec![ext],
    };

    let cert: CertificatePayload = CertificatePayload {
        certificate_request_context: zero,
        certificate_list: vec![cert_list],
    };

    cert.encode(&mut buf);

    let decoded: CertificatePayload = CertificatePayload::decode(&mut buf).unwrap();

    assert_eq!(cert, decoded);
}

#[test]
fn cert_verify_parse() {
    let mut buf: BytesMut = BytesMut::new();

    let sig: Bytes = Bytes::new();

    let cert_verify: CertificateVerifyPayload = CertificateVerifyPayload {
        algorithm: SignatureScheme::Ed25519,
        signature: sig,
    };

    cert_verify.encode(&mut buf);

    let decoded: CertificateVerifyPayload = CertificateVerifyPayload::decode(&mut buf).unwrap();

    assert_eq!(cert_verify, decoded);
}

#[test]
fn certificate_bytes_on_the_wire() {
    let cert = CertificatePayload {
        certificate_request_context: Bytes::from_static(&[0xAA]),
        certificate_list: vec![CertificateEntryPayload {
            certificate_data: Bytes::from_static(&[1, 2, 3]),
            extensions: vec![],
        }],
    };
    let mut buf = BytesMut::new();
    cert.encode(&mut buf);
    assert_eq!(&buf[..], &[0x01, 0xAA, 0x00, 0x00, 0x08, 0x00, 0x00, 0x03, 1, 2, 3, 0x00, 0x00]);
    let decoded = CertificatePayload::decode(&mut buf).unwrap();
    assert_eq!(decoded, cert);
    assert!(buf.is_empty());
}

#[test]
fn certificate_short_input() {
    let mut buf = BytesMut::from(&[0x02u8, 0xAA][..]);
    assert_eq!(CertificatePayload::decode(&mut buf), Err(TlsError::Incomplete(1)));
    let mut buf = BytesMut::from(&[0x00u8, 0x00][..]);
    assert_eq!(CertificatePayload::decode(&mut buf), Err(TlsError::Incomplete(2)));
}

#[test]
fn certificate_entry_unknown_extension() {
    let mut buf = BytesMut::from(&[0x00u8, 0x00, 0x00, 0x00, 0x02, 0x00, 0x07][..]);
    assert_eq!(
        CertificateEntryPayload::decode(&mut buf),
        Err(TlsError::Unknown("certificate extension"))
    );
}

#[test]
fn certificate_verify_bytes() {
    let cv = CertificateVerifyPayload {
        algorithm: SignatureScheme::EcdsaSecp256r1Sha256,
        signature: Bytes::from_static(&[9, 8]),
    };
    let mut buf = BytesMut::new();
    cv.encode(&mut buf);
    assert_eq!(&buf[..], &[0x04, 0x03, 0x00, 0x02, 9, 8]);
    let mut short = BytesMut::from(&[0x04u8, 0x03, 0x00, 0x05, 1][..]);
    assert_eq!(CertificateVerifyPayload::decode(&mut short), Err(TlsError::Incomplete(4)));
}

#[test]
fn compressed_certificate_roundtrip() {
    let c = CompressedCertificatePayload {
        algorithm: CompressionAlgorithm::Brotli,
        uncompressed_length: [0, 1, 0],
        compressed_data: Bytes::from_static(&[5, 6, 7]),
    };
    let mut buf = BytesMut::new();
    c.encode(&mut buf);
    assert_eq!(&buf[..], &[0x02, 0, 1, 0, 0, 0, 3, 5, 6, 7]);
    assert_eq!(CompressedCertificatePayload::decode(&mut buf).unwrap(), c);
}

#[test]
fn certificate_request_without_extensions() {
    let r = CertificateRequestPayload {
        certificate_request_context: Bytes::from_static(&[1, 2]),
        extensions: vec![],
    };
    let mut buf = BytesMut::new();
    r.encode(&mut buf);
    assert_eq!(&buf[..], &[0x02, 1, 2, 0x00, 0x00]);
    assert_eq!(CertificateRequestPayload::decode(&mut buf).unwrap(), r);
    let mut bad = BytesMut::from(&[0x00u8, 0x00, 0x02, 0x00, 0x01][..]);
    assert_eq!(
        CertificateRequestPayload::decode(&mut bad),
        Err(TlsError::Unknown("certificate request extension"))
    );
}
