use ring::rand::SystemRandom;
use tlsec::message::handshake::grease::{
    GreasePayloadU16, GreasePayloadU8, GREASE_U16_VALUES, GREASE_U8_VALUES,
};
use tlsec::message::alert::AlertDescription;
use tlsec::error::TlsError;
use tlsec::messages::handshake::{grease_u16, grease_u8, is_grease_u16, is_grease_u8};

#[test]
fn test_grease_u8() {
    for _ in 0..100 {
        let val = GreasePayloadU8::new().unwrap().grease;
        assert!(GreasePayloadU8::is_grease(val).is_ok());
        assert!(GREASE_U8_VALUES.contains(&val));
    }
}

#[test]
fn test_grease_u16() {
    for _ in 0..100 {
        let val = GreasePayloadU16::new().unwrap().grease;
        assert!(GreasePayloadU16::is_grease(val).is_ok());
        assert!(GREASE_U16_VALUES.contains(&val));
    }
}

#[test]
fn grease_u8_draws_from_first_half() {
    let rng = SystemRandom::new();
    for _ in 0..100 {
        let v = grease_u8(&rng).unwrap();
        assert!(GREASE_U8_VALUES[..8].contains(&v));
        assert!(is_grease_u8(v));
    }
}

#[test]
fn grease_u16_draws_from_table() {
    let rng = SystemRandom::new();
    for _ in 0..100 {
        let v = grease_u16(&rng).unwrap();
        assert!(GREASE_U16_VALUES.contains(&v));
        assert!(is_grease_u16(v));
    }
}

#[test]
fn grease_recognition() {
    assert!(is_grease_u8(0x0A));
    assert!(is_grease_u8(0xFA));
    assert!(!is_grease_u8(0x0B));
    assert!(is_grease_u16(0x1A1A));
    assert!(!is_grease_u16(0x1A2A));
    assert!(!is_grease_u16(0x1B1B));
    for v in GREASE_U16_VALUES {
        assert!(is_grease_u16(v));
    }
}

#[test]
fn grease_payload_rejects_other_values() {
    assert_eq!(GreasePayloadU16::is_grease(0x0A0A), Ok(GreasePayloadU16 { grease: 0x0A0A }));
    assert_eq!(
        GreasePayloadU16::is_grease(0x0A0B),
        Err(TlsError::Alert(AlertDescription::IllegalParameter))
    );
    assert_eq!(GreasePayloadU8::is_grease(0x3A), Ok(GreasePayloadU8 { grease: 0x3A }));
    assert_eq!(
        GreasePayloadU8::is_grease(0x3B),
        Err(TlsError::Alert(AlertDescription::IllegalParameter))
    );
}

#[test]
fn grease_index_picks_table_entry() {
    assert_eq!(GreasePayloadU16::from_index(17).grease, 0x1A1A);
    assert_eq!(GreasePayloadU8::from_index(9).grease, 0x1A);
}
