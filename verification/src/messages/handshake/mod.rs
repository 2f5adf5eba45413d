//! GREASE helpers on plain integers: drawing a value with a given generator
//! and recognising one.
use vstd::prelude::*;

use ring::rand::SystemRandom;

use crate::crypto::fill_random;
use crate::error::{TlsErrorView, TlsResult};
pub use crate::message::handshake::grease::{
    GREASE_U16_VALUES, GREASE_U8_VALUES, GreasePayloadU16, GreasePayloadU8, is_grease_u16_spec,
    is_grease_u8_spec, lemma_grease_tables, rng_failed_text,
};
use crate::message::handshake::grease::rng_failure;

pub mod certificate;
pub mod extensions;

verus! {

/// A one-byte GREASE value drawn with `rng` from the first half of the table.
pub fn grease_u8(rng: &SystemRandom) -> (res: TlsResult<u8>)
    ensures
        res matches Ok(v) ==> is_grease_u8_spec(v) && exists|i: int| 0 <= i < 8 && GREASE_U8_VALUES@[i] == v,
        res matches Err(e) ==> e@ == TlsErrorView::Crypto(rng_failed_text()),
{
    let mut idx: [u8; 1] = [0u8; 1];
    if let Err(text) = fill_random(rng, &mut idx) {
        return Err(rng_failure(text));
    }
    let g = GreasePayloadU8::from_index(idx[0]);
    proof {
        lemma_grease_tables(0);
    }
    Ok(g.grease)
}

/// A two-byte GREASE value drawn with `rng` from the table.
pub fn grease_u16(rng: &SystemRandom) -> (res: TlsResult<u16>)
    ensures
        res matches Ok(v) ==> is_grease_u16_spec(v) && exists|i: int| 0 <= i < 16 && GREASE_U16_VALUES@[i] == v,
        res matches Err(e) ==> e@ == TlsErrorView::Crypto(rng_failed_text()),
{
    let mut idx: [u8; 1] = [0u8; 1];
    if let Err(text) = fill_random(rng, &mut idx) {
        return Err(rng_failure(text));
    }
    let g = GreasePayloadU16::from_index(idx[0]);
    proof {
        lemma_grease_tables(0);
    }
    Ok(g.grease)
}

/// Whether a byte is a GREASE value: its low nibble is `0xA`.
pub fn is_grease_u8(value: u8) -> (res: bool)
    ensures
        res == is_grease_u8_spec(value),
{
    assert((value & 0x0F) == value % 16) by (bit_vector);
    (value & 0x0F) == 0x0A
}

/// Whether a two-byte value is a GREASE value: both bytes are equal and
/// their low nibble is `0xA`.
pub fn is_grease_u16(value: u16) -> (res: bool)
    ensures
        res == is_grease_u16_spec(value),
{
    let b1: u8 = (value >> 8) as u8;
    let b2: u8 = (value & 0xFF) as u8;
    assert(b1 == value / 256 && b2 == value % 256 && (b1 & 0x0F) == b1 % 16) by (bit_vector)
        requires
            b1 == (value >> 8) as u8,
            b2 == (value & 0xFF) as u8,
    ;
    b1 == b2 && (b1 & 0x0F) == 0x0A
}

} // verus!
