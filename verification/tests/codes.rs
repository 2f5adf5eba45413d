use tlsec::buffer::{buffer_bytes, buffer_from_slice, buffer_len, buffer_new, bytes_from_slice};
use bytes::BytesMut;
use tlsec::error::TlsError;
use tlsec::message::alert::{AlertDescription, AlertLevel, AlertPayload};
use tlsec::message::handshake::extensions::compress_algo::{CompressionAlgorithm, SupportedCompressionAlgorithm};
use tlsec::message::handshake::extensions::ecpf::{EcPointFormat, SupportedEcPointFormat};
use tlsec::message::handshake::extensions::key_share::{NamedGroup, SupportedNamedGroup};
use tlsec::message::handshake::extensions::pskke::{PskKeyExchangeMode, PskKeyExchangeModesPayload};
use tlsec::message::handshake::extensions::sig_scheme::{SignatureScheme, SupportedScheme};
use tlsec::message::handshake::grease::GreasePayloadU16;
use tlsec::message::handshake::hello::compression_method::CompressionMethod;
use tlsec::message::serialize::Serialize;
use tlsec::message::version::{SupportedVersion, Version};

#[test]
fn alert_codes() {
    assert_eq!(AlertDescription::try_from(0x70), Ok(AlertDescription::UnrecognizedName));
    assert_eq!(AlertDescription::try_from(0x31), Ok(AlertDescription::AccessDenied));
    assert_eq!(AlertDescription::try_from(0x03), Err(TlsError::Unknown("alert description")));
    assert_eq!(AlertLevel::try_from(0x03), Err(TlsError::Unknown("alert level")));
    assert_eq!(AlertDescription::MissingExtension.code(), 0x6D);
    let mut buf = BytesMut::from(&[0x01u8, 0x00][..]);
    assert_eq!(
        AlertPayload::decode(&mut buf),
        Ok(AlertPayload { level: AlertLevel::Warning, description: AlertDescription::CloseNotify })
    );
}

#[test]
fn versions() {
    assert_eq!(Version::try_from(0x0304), Ok(Version::Tls13));
    assert_eq!(Version::try_from(0x7F1C), Ok(Version::Unknown(0x7F1C)));
    assert_eq!(Version::Tls13.to_supported(), Some(SupportedVersion::Tls13));
    assert_eq!(Version::Tls12.to_supported(), None);
    assert_eq!(SupportedVersion::Tls13.to_unsupported(), Version::Tls13);
}

#[test]
fn groups_and_schemes() {
    assert_eq!(NamedGroup::try_from(0x11EC), Ok(NamedGroup::X25519MLKEM768));
    assert_eq!(NamedGroup::try_from(0xDADA), Ok(NamedGroup::Grease(GreasePayloadU16 { grease: 0xDADA })));
    assert_eq!(NamedGroup::X25519.to_supported(), Some(SupportedNamedGroup::X25519));
    assert_eq!(NamedGroup::X25519MLKEM768.to_supported(), None);
    assert_eq!(SupportedNamedGroup::Secp384R1.to_unsupported(), NamedGroup::Secp384r1);
    assert_eq!(SignatureScheme::try_from(0x0808), Ok(SignatureScheme::Ed448));
    assert_eq!(SignatureScheme::Ed25519.to_supported(), Some(SupportedScheme::Ed25519));
    assert_eq!(SignatureScheme::RsaPssSha256.to_supported(), None);
    assert_eq!(SupportedScheme::EcdsaSecp384r1Sha384.to_unsupported(), SignatureScheme::EcdsaSecp384r1Sha384);
}

#[test]
fn point_formats_and_compression() {
    assert_eq!(SupportedEcPointFormat::Uncompressed.compare(&EcPointFormat::Uncompressed), Some(SupportedEcPointFormat::Uncompressed));
    assert_eq!(SupportedEcPointFormat::Uncompressed.compare(&EcPointFormat::AnsiX962CompressedPrime), None);
    assert_eq!(EcPointFormat::try_from(0x03), Err(TlsError::Unknown("EC point format")));
    assert_eq!(SupportedCompressionAlgorithm::Zlib.compare(&CompressionAlgorithm::Brotli), Some(SupportedCompressionAlgorithm::Brotli));
    assert_eq!(SupportedCompressionAlgorithm::Zlib.compare(&CompressionAlgorithm::Unknown(9)), None);
    assert_eq!(CompressionMethod::try_from(0x40), Ok(CompressionMethod::LZS));
    assert_eq!(CompressionMethod::try_from(0x02), Err(TlsError::Unknown("compression method")));
}

#[test]
fn psk_modes() {
    let p = PskKeyExchangeModesPayload { modes: vec![PskKeyExchangeMode::PskDheKe] };
    let mut buf = BytesMut::new();
    p.encode(&mut buf);
    assert_eq!(&buf[..], &[0x01, 0x01]);
    assert_eq!(PskKeyExchangeModesPayload::decode(&mut buf).unwrap(), p);
    let mut bad = BytesMut::from(&[0x01u8, 0x07][..]);
    assert_eq!(PskKeyExchangeModesPayload::decode(&mut bad), Err(TlsError::Unknown("PSK exchange mode")));
}

#[test]
fn groups_map_to_their_ring_curves() {
    assert!(*SupportedNamedGroup::X25519.to_curve() == ring::agreement::X25519);
    assert!(*SupportedNamedGroup::Secp256R1.to_curve() == ring::agreement::ECDH_P256);
    assert!(*SupportedNamedGroup::Secp384R1.to_curve() == ring::agreement::ECDH_P384);
    assert!(*SupportedNamedGroup::Secp384R1.to_curve() != ring::agreement::X25519);
}

#[test]
fn public_buffers_hold_what_is_written() {
    let mut b = buffer_new();
    assert_eq!(buffer_len(&b), 0);
    AlertPayload { level: AlertLevel::Fatal, description: AlertDescription::DecodeError }.encode(&mut b);
    assert_eq!(buffer_len(&b), 2);
    assert_eq!(buffer_bytes(&b), &[0x02, 0x32]);
    let mut c = buffer_from_slice(&[0x02, 0x32]);
    assert_eq!(
        AlertPayload::decode(&mut c),
        Ok(AlertPayload { level: AlertLevel::Fatal, description: AlertDescription::DecodeError })
    );
    assert_eq!(buffer_len(&c), 0);
    assert_eq!(&bytes_from_slice(&[1, 2, 3])[..], &[1, 2, 3]);
}

#[test]
fn schemes_map_to_their_webpki_algorithms() {
    assert!(std::ptr::eq(SupportedScheme::Ed25519.to_webpki(), &webpki::ED25519));
    assert!(std::ptr::eq(SupportedScheme::EcdsaSecp256r1Sha256.to_webpki(), &webpki::ECDSA_P256_SHA256));
    assert!(std::ptr::eq(SupportedScheme::EcdsaSecp384r1Sha384.to_webpki(), &webpki::ECDSA_P384_SHA384));
    assert!(!std::ptr::eq(SupportedScheme::EcdsaSecp256r1Sha256.to_webpki(), &webpki::ECDSA_P384_SHA384));
}
