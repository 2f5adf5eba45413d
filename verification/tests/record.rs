use bytes::{Bytes, BytesMut};
use tlsec::error::TlsError;
use tlsec::message::alert::{AlertDescription, AlertLevel, AlertPayload};
use tlsec::message::handshake::hello::cipher_suite::SupportedCipherSuite;
use tlsec::message::handshake::messages::{
    FinishedPayload, HandshakeMessage, HandshakePayload, HandshakeType, KeyUpdatePayload,
    KeyUpdateRequest, NewSessionTicketPayload,
};
use tlsec::message::record::{Record, RecordPayload, RecordType};
use tlsec::message::serialize::Serialize;
use tlsec::message::version::Version;

#[test]
fn record_parse() {
    let mut buf: BytesMut = BytesMut::new();

    let app_data: Bytes = Bytes::new();

    let rec: Record = Record {
        record_type: RecordType::ApplicationData,
        legacy_version: Version::Tls12,
        payload: RecordPayload::ApplicationData(app_data),
    };

    rec.encode(&mut buf);

    let decoded: Record = Record::decode(&mut buf, Some(&SupportedCipherSuite::ChaCha20)).unwrap();

    assert_eq!(rec, decoded);
}

#[test]
fn alert_record_bytes() {
    let rec = Record {
        record_type: RecordType::Alert,
        legacy_version: Version::Tls12,
        payload: RecordPayload::Alert(AlertPayload {
            level: AlertLevel::Fatal,
            description: AlertDescription::HandshakeFailure,
        }),
    };
    let mut buf = BytesMut::new();
    rec.encode(&mut buf);
    assert_eq!(&buf[..], &[0x15, 0x03, 0x03, 0x00, 0x02, 0x02, 0x28]);
    assert_eq!(Record::decode(&mut buf, None).unwrap(), rec);
}

#[test]
fn record_errors() {
    let mut short = BytesMut::from(&[0x16u8, 0x03][..]);
    assert_eq!(Record::decode(&mut short, None), Err(TlsError::Incomplete(3)));
    let mut empty = BytesMut::new();
    assert_eq!(Record::decode(&mut empty, None), Err(TlsError::Incomplete(1)));
    let mut one = BytesMut::from(&[0x16u8][..]);
    assert_eq!(Record::decode(&mut one, None), Err(TlsError::Incomplete(0)));
    let mut unknown = BytesMut::from(&[0x99u8, 0x03, 0x03, 0x00, 0x00][..]);
    assert_eq!(Record::decode(&mut unknown, None), Err(TlsError::Unknown("record type")));
    let mut truncated = BytesMut::from(&[0x17u8, 0x03, 0x03, 0x00, 0x04, 1][..]);
    assert_eq!(Record::decode(&mut truncated, None), Err(TlsError::Incomplete(3)));
}

#[test]
fn handshake_record_keeps_raw_bytes() {
    let mut buf = BytesMut::from(&[0x16u8, 0x03, 0x03, 0x00, 0x05, 0x18, 0x00, 0x00, 0x01, 0x01][..]);
    let rec = Record::decode(&mut buf, None).unwrap();
    match rec.payload {
        RecordPayload::Handshake(msgs) => {
            assert_eq!(msgs.len(), 1);
            assert_eq!(msgs[0].handshake_type, HandshakeType::KeyUpdate);
            assert_eq!(
                msgs[0].payload,
                HandshakePayload::KeyUpdate(KeyUpdatePayload { request_update: KeyUpdateRequest::UpdateRequested })
            );
            assert_eq!(msgs[0].raw.as_ref().map(|b| b.to_vec()), Some(vec![0x18, 0x00, 0x00, 0x01, 0x01]));
        }
        _ => panic!("expected handshake messages"),
    }
}

#[test]
fn handshake_message_encoding() {
    let msg = HandshakeMessage {
        handshake_type: HandshakeType::KeyUpdate,
        payload: HandshakePayload::KeyUpdate(KeyUpdatePayload { request_update: KeyUpdateRequest::UpdateNotRequested }),
        raw: None,
    };
    let mut buf = BytesMut::new();
    msg.encode(&mut buf);
    assert_eq!(&buf[..], &[0x18, 0x00, 0x00, 0x01, 0x00]);
    let decoded = HandshakeMessage::decode(&mut buf, None).unwrap();
    assert_eq!(decoded.payload, msg.payload);
    assert_eq!(decoded.raw.map(|b| b.to_vec()), Some(vec![0x18, 0x00, 0x00, 0x01, 0x00]));
}

#[test]
fn finished_needs_cipher_suite() {
    let mut buf = BytesMut::from(&[0x14u8, 0x00, 0x00, 0x20][..]);
    buf.extend_from_slice(&[7u8; 32]);
    let mut copy = buf.clone();
    assert_eq!(
        HandshakeMessage::decode(&mut buf, None),
        Err(TlsError::Crypto("cipher suite not set".to_string()))
    );
    let m = HandshakeMessage::decode(&mut copy, Some(&SupportedCipherSuite::Aes128)).unwrap();
    assert_eq!(m.payload, HandshakePayload::Finished(FinishedPayload { verify_data: Bytes::from(vec![7u8; 32]) }));
    let mut short = BytesMut::from(&[1u8; 10][..]);
    assert_eq!(FinishedPayload::decode(&mut short, Some(&SupportedCipherSuite::Aes256)), Err(TlsError::Incomplete(38)));
    assert_eq!(short.len(), 10);
    let mut kept = BytesMut::from(&[5u8; 40][..]);
    assert_eq!(FinishedPayload::decode(&mut kept, None), Err(TlsError::Crypto("cipher suite not set".to_string())));
    assert_eq!(&kept[..], &[5u8; 40][..]);
}

#[test]
fn unknown_handshake_type_and_key_update() {
    let mut buf = BytesMut::from(&[0x03u8, 0x00, 0x00, 0x00, 0x00][..]);
    assert_eq!(HandshakeMessage::decode(&mut buf, None), Err(TlsError::Unknown("handshake type")));
    let mut bad = BytesMut::from(&[0x02u8][..]);
    assert_eq!(KeyUpdatePayload::decode(&mut bad), Err(TlsError::Alert(AlertDescription::MissingExtension)));
    let mut empty = BytesMut::new();
    assert_eq!(KeyUpdatePayload::decode(&mut empty), Err(TlsError::Incomplete(1)));
}

#[test]
fn new_session_ticket_roundtrip() {
    let t = NewSessionTicketPayload {
        ticket_lifetime: 7200,
        ticket_age_add: 0x01020304,
        ticket_nonce: vec![0],
        ticket: vec![0xAB, 0xCD],
        extensions: vec![],
    };
    let mut buf = BytesMut::new();
    t.encode(&mut buf);
    assert_eq!(
        &buf[..],
        &[0x00, 0x00, 0x1C, 0x20, 0x01, 0x02, 0x03, 0x04, 0x01, 0x00, 0x00, 0x02, 0xAB, 0xCD, 0x00, 0x00]
    );
    assert_eq!(NewSessionTicketPayload::decode(&mut buf).unwrap(), t);
    let mut short = BytesMut::from(&[0u8; 4][..]);
    assert_eq!(NewSessionTicketPayload::decode(&mut short), Err(TlsError::Incomplete(0)));
    let mut one = BytesMut::from(&[0u8; 1][..]);
    assert_eq!(NewSessionTicketPayload::decode(&mut one), Err(TlsError::Incomplete(3)));
    let mut six = BytesMut::from(&[0u8; 6][..]);
    assert_eq!(NewSessionTicketPayload::decode(&mut six), Err(TlsError::Incomplete(3)));
}

#[test]
fn handshake_raw_counts_from_the_payload() {
    let verify: Vec<u8> = (0u8..32).collect();
    let mut alone = BytesMut::from(&[0x14u8, 0x00, 0x00, 0x20][..]);
    alone.extend_from_slice(&verify);
    let m = HandshakeMessage::decode(&mut alone, Some(&SupportedCipherSuite::Aes128)).unwrap();
    assert_eq!(m.raw.map(|b| b.to_vec()), Some(vec![0, 1, 2, 3]));
    assert_eq!(alone.len(), 0);

    let mut followed = BytesMut::from(&[0x14u8, 0x00, 0x00, 0x20][..]);
    followed.extend_from_slice(&verify);
    followed.extend_from_slice(&[0xAA, 0xBB, 0xCC]);
    let m = HandshakeMessage::decode(&mut followed, Some(&SupportedCipherSuite::Aes128)).unwrap();
    assert_eq!(m.raw.map(|b| b.to_vec()), Some(vec![0, 1, 2, 3, 4, 5, 6]));
    assert_eq!(&followed[..], &[0xAA, 0xBB, 0xCC]);
}
