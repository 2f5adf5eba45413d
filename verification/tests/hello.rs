use ring::hkdf::KeyType;
use bytes::{Bytes, BytesMut};
use tlsec::error::TlsError;
use tlsec::message::alert::AlertDescription;
use tlsec::message::handshake::extensions::extension::{Extension, ExtensionPayload, ExtensionType};
use tlsec::message::handshake::extensions::sni::{NameType, ServerNamePayload};
use tlsec::message::handshake::hello::cipher_suite::{AnyCipher, CipherSuite, SupportedCipherSuite};
use tlsec::message::handshake::hello::client::ClientHelloPayload;
use tlsec::message::handshake::hello::compression_method::CompressionMethod;
use tlsec::message::handshake::hello::server::{ServerHelloPayload, HRR_RANDOM};
use tlsec::message::serialize::Serialize;
use tlsec::message::version::Version;

fn client_hello() -> ClientHelloPayload {
    ClientHelloPayload {
        legacy_version: Version::Tls12,
        random: [3u8; 32],
        legacy_session_id: Bytes::from_static(&[1, 2, 3, 4]),
        cipher_suites: vec![CipherSuite::TlsAes128GcmSha256, CipherSuite::TlsChacha20Poly1305Sha256],
        legacy_compression_methods: vec![CompressionMethod::Null],
        extensions: vec![Extension {
            extension_type: ExtensionType::ServerName,
            payload: ExtensionPayload::ServerName(ServerNamePayload {
                name_type: NameType::HostName,
                name: "a.b".to_string(),
            }),
        }],
    }
}

#[test]
fn client_hello_roundtrip() {
    let hello = client_hello();
    let mut buf = BytesMut::new();
    hello.encode(&mut buf);
    assert_eq!(&buf[..2], &[0x03, 0x03]);
    assert_eq!(buf[34], 4);
    assert_eq!(&buf[39..45], &[0x00, 0x04, 0x13, 0x01, 0x13, 0x03]);
    assert_eq!(&buf[45..47], &[0x01, 0x00]);
    assert_eq!(ClientHelloPayload::decode(&mut buf).unwrap(), hello);
    assert!(buf.is_empty());
}

#[test]
fn client_hello_long_session_id() {
    let mut buf = BytesMut::new();
    buf.extend_from_slice(&[0x03, 0x03]);
    buf.extend_from_slice(&[0u8; 32]);
    buf.extend_from_slice(&[33]);
    assert_eq!(ClientHelloPayload::decode(&mut buf), Err(TlsError::Alert(AlertDescription::HandshakeFailure)));
}

#[test]
fn client_hello_truncated() {
    let mut buf = BytesMut::from(&[0x03u8, 0x03, 0x00][..]);
    assert_eq!(ClientHelloPayload::decode(&mut buf), Err(TlsError::Incomplete(31)));
}

fn server_hello(random: [u8; 32]) -> ServerHelloPayload {
    ServerHelloPayload {
        legacy_version: Version::Tls12,
        random,
        legacy_session_id_echo: Bytes::new(),
        cipher_suite: CipherSuite::TlsAes256GcmSha384,
        legacy_compression_method: CompressionMethod::Null,
        extensions: vec![],
        is_hrr: random == HRR_RANDOM,
    }
}

#[test]
fn server_hello_roundtrip_and_retry_request() {
    for random in [[5u8; 32], HRR_RANDOM] {
        let hello = server_hello(random);
        let mut buf = BytesMut::new();
        hello.encode(&mut buf);
        assert_eq!(&buf[35..], &[0x13, 0x02, 0x00, 0x00, 0x00]);
        let decoded = ServerHelloPayload::decode(&mut buf).unwrap();
        assert_eq!(decoded, hello);
    }
    let mut buf = BytesMut::new();
    server_hello(HRR_RANDOM).encode(&mut buf);
    assert!(ServerHelloPayload::decode(&mut buf).unwrap().is_hrr);
}

#[test]
fn server_hello_errors() {
    let mut short = BytesMut::from(&[0u8; 20][..]);
    assert_eq!(ServerHelloPayload::decode(&mut short), Err(TlsError::Incomplete(15)));
    let mut bad_compression = BytesMut::new();
    bad_compression.extend_from_slice(&[0x03, 0x03]);
    bad_compression.extend_from_slice(&[0u8; 32]);
    bad_compression.extend_from_slice(&[0x00, 0x13, 0x01, 0x07, 0x00, 0x00]);
    assert_eq!(
        ServerHelloPayload::decode(&mut bad_compression),
        Err(TlsError::Unknown("compression method"))
    );
}

#[test]
fn cipher_suite_parameters() {
    assert_eq!(SupportedCipherSuite::Aes128.true_key_len(), 16);
    assert_eq!(SupportedCipherSuite::Aes256.hash_len(), 48);
    assert_eq!(SupportedCipherSuite::ChaCha20.hkdf_based_key_len(), 32);
    assert_eq!(SupportedCipherSuite::ChaCha20.iv_len(), 12);
    assert_eq!(CipherSuite::TlsAes128GcmSha256.to_supported(), Some(SupportedCipherSuite::Aes128));
    assert_eq!(CipherSuite::TlsAes128CcmSha256.to_supported(), None);
    assert_eq!(SupportedCipherSuite::Aes256.to_unsupported(), CipherSuite::TlsAes256GcmSha384);
    assert_eq!(CipherSuite::try_from(0x1303), Ok(CipherSuite::TlsChacha20Poly1305Sha256));
    assert_eq!(CipherSuite::try_from(0x4444), Ok(CipherSuite::Unknown(0x4444)));
}

#[test]
fn create_cipher_checks_lengths() {
    let c = SupportedCipherSuite::Aes128.create_cipher(vec![1u8; 16], vec![2u8; 12]).unwrap();
    assert!(matches!(c, AnyCipher::Aes128Gcm(_)));
    assert_eq!(
        SupportedCipherSuite::ChaCha20.create_cipher(vec![1u8; 16], vec![2u8; 12]).err(),
        Some(TlsError::Crypto("invalid key length".to_string()))
    );
    assert_eq!(
        SupportedCipherSuite::Aes256.create_cipher(vec![1u8; 32], vec![2u8; 8]).err(),
        Some(TlsError::Crypto("invalid iv length".to_string()))
    );
}

#[test]
fn suite_algorithms_match_hash_length() {
    for suite in [SupportedCipherSuite::ChaCha20, SupportedCipherSuite::Aes128, SupportedCipherSuite::Aes256] {
        assert_eq!(suite.hash_algorithm().output_len(), suite.hash_len());
        assert_eq!(suite.hkdf_algorithm().len(), suite.hash_len());
    }
    assert_eq!(SupportedCipherSuite::Aes256.hash_algorithm().output_len(), 48);
}

#[test]
fn suite_algorithms_are_the_suite_hash() {
    assert!(*SupportedCipherSuite::ChaCha20.hash_algorithm() == ring::digest::SHA256);
    assert!(*SupportedCipherSuite::Aes128.hash_algorithm() == ring::digest::SHA256);
    assert!(*SupportedCipherSuite::Aes256.hash_algorithm() == ring::digest::SHA384);
    assert_eq!(SupportedCipherSuite::ChaCha20.hkdf_algorithm(), ring::hkdf::HKDF_SHA256);
    assert_eq!(SupportedCipherSuite::Aes128.hkdf_algorithm(), ring::hkdf::HKDF_SHA256);
    assert_eq!(SupportedCipherSuite::Aes256.hkdf_algorithm(), ring::hkdf::HKDF_SHA384);
    assert_eq!(format!("{:?}", SupportedCipherSuite::Aes256.hash_algorithm()), "SHA384");
}
