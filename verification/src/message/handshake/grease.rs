//! GREASE values (RFC 8701): reserved codes that a peer sends to keep the
//! other side tolerant of values it does not know.
use vstd::prelude::*;

use bytes::BytesMut;

use crate::buffer::{bm_put_u16, bm_put_u8, bytes_mut_view, be16};
use crate::crypto::{fill_random, system_random};
use crate::text::string_as_str;
use crate::error::{TlsError, TlsErrorView, TlsResult};
use crate::message::alert::AlertDescription;

verus! {

/// The one-byte GREASE values.
pub const GREASE_U8_VALUES: [u8; 16] = [
    0x0A, 0x1A, 0x2A, 0x3A, 0x4A, 0x5A, 0x6A, 0x7A,
    0x8A, 0x9A, 0xAA, 0xBA, 0xCA, 0xDA, 0xEA, 0xFA,
];

/// The two-byte GREASE values.
pub const GREASE_U16_VALUES: [u16; 16] = [
    0x0A0A, 0x1A1A, 0x2A2A, 0x3A3A, 0x4A4A, 0x5A5A, 0x6A6A, 0x7A7A,
    0x8A8A, 0x9A9A, 0xAAAA, 0xBABA, 0xCACA, 0xDADA, 0xEAEA, 0xFAFA,
];

/// A one-byte GREASE value: its low nibble is `0xA`.
pub open spec fn is_grease_u8_spec(v: u8) -> bool {
    v % 16 == 10
}

/// A two-byte GREASE value: both bytes equal, with low nibble `0xA`.
pub open spec fn is_grease_u16_spec(v: u16) -> bool {
    v / 256 == v % 256 && v % 16 == 10
}

/// Both tables hold GREASE values only, and each holds all of them.
pub proof fn lemma_grease_tables(v: u16)
    ensures
        forall|i: int| 0 <= i < 16 ==> is_grease_u8_spec(#[trigger] GREASE_U8_VALUES@[i]),
        forall|i: int| 0 <= i < 16 ==> is_grease_u16_spec(#[trigger] GREASE_U16_VALUES@[i]),
        is_grease_u16_spec(v) ==> exists|i: int| 0 <= i < 16 && GREASE_U16_VALUES@[i] == v,
        v < 256 && is_grease_u8_spec(v as u8) ==> exists|i: int| 0 <= i < 16 && GREASE_U8_VALUES@[i] == v as u8,
{
    if is_grease_u16_spec(v) {
        let i = (v % 256) / 16;
        assert(GREASE_U16_VALUES@[i as int] == v);
    }
    if v < 256 && is_grease_u8_spec(v as u8) {
        let i = v / 16;
        assert(GREASE_U8_VALUES@[i as int] == v as u8);
    }
}

/// The text of the error that drawing a GREASE value gives when the
/// generator fails: a fixed prefix, then the generator's own error text.
pub open spec fn rng_failed_text() -> Seq<char> {
    "RNG failed: "@ + "ring::error::Unspecified"@
}

/// The error for a generator that failed with the given text.
pub(crate) fn rng_failure(text: String) -> (e: TlsError)
    ensures
        e@ == TlsErrorView::Crypto("RNG failed: "@ + text@),
{
    let mut message = String::from_str("RNG failed: ");
    message.append(string_as_str(&text));
    TlsError::Crypto(message)
}

/// A one-byte GREASE value.
#[derive(Debug, Clone, Copy, PartialEq, Eq, Structural)]
pub struct GreasePayloadU8 {
    pub grease: u8,
}

impl GreasePayloadU8 {
    /// A GREASE value picked at random from the first half of the table.
    pub fn new() -> (res: TlsResult<Self>)
        ensures
            res matches Ok(g) ==> is_grease_u8_spec(g.grease) && exists|i: int|
                0 <= i < 8 && GREASE_U8_VALUES@[i] == g.grease,
            res matches Err(e) ==> e@ == TlsErrorView::Crypto(rng_failed_text()),
    {
        let rng = system_random();
        let mut idx: [u8; 1] = [0u8; 1];
        if let Err(text) = fill_random(&rng, &mut idx) {
            return Err(rng_failure(text));
        }
        let g = Self::from_index(idx[0]);
        proof {
            lemma_grease_tables(0);
        }
        Ok(g)
    }

    /// The value that a random byte picks from the first half of the table.
    pub fn from_index(idx: u8) -> (res: Self)
        ensures
            res.grease == GREASE_U8_VALUES@[(idx % 8) as int],
    {
        Self { grease: GREASE_U8_VALUES[(idx as usize) % 8] }
    }

    /// The value as a GREASE payload if it is one, else the alert
    /// `IllegalParameter`.
    pub fn is_grease(value: u8) -> (res: TlsResult<Self>)
        ensures
            is_grease_u8_spec(value) ==> res == Ok::<_, TlsError>(Self { grease: value }),
            !is_grease_u8_spec(value) ==> res == Err::<Self, _>(TlsError::Alert(AlertDescription::IllegalParameter)),
    {
        assert((value & 0x0F) == value % 16) by (bit_vector);
        if (value & 0x0F) == 0x0A {
            return Ok(Self { grease: value });
        }
        Err(TlsError::Alert(AlertDescription::IllegalParameter))
    }

    /// Appends the value.
    pub fn encode(&self, buf: &mut BytesMut)
        requires
            bytes_mut_view(*old(buf)).len() + 1 <= isize::MAX,
        ensures
            bytes_mut_view(*final(buf)) == bytes_mut_view(*old(buf)).push(self.grease),
    {
        bm_put_u8(buf, self.grease);
    }
}

/// A two-byte GREASE value.
#[derive(Debug, Clone, Copy, PartialEq, Eq, Structural)]
pub struct GreasePayloadU16 {
    pub grease: u16,
}

impl GreasePayloadU16 {
    /// A GREASE value picked at random from the table.
    pub fn new() -> (res: TlsResult<Self>)
        ensures
            res matches Ok(g) ==> is_grease_u16_spec(g.grease) && exists|i: int|
                0 <= i < 16 && GREASE_U16_VALUES@[i] == g.grease,
            res matches Err(e) ==> e@ == TlsErrorView::Crypto(rng_failed_text()),
    {
        let rng = system_random();
        let mut idx: [u8; 1] = [0u8; 1];
        if let Err(text) = fill_random(&rng, &mut idx) {
            return Err(rng_failure(text));
        }
        let g = Self::from_index(idx[0]);
        proof {
            lemma_grease_tables(0);
        }
        Ok(g)
    }

    /// The value that a random byte picks from the table.
    pub fn from_index(idx: u8) -> (res: Self)
        ensures
            res.grease == GREASE_U16_VALUES@[(idx % 16) as int],
    {
        Self { grease: GREASE_U16_VALUES[(idx as usize) % 16] }
    }

    /// The value as a GREASE payload if it is one, else the alert
    /// `IllegalParameter`.
    pub fn is_grease(value: u16) -> (res: TlsResult<Self>)
        ensures
            is_grease_u16_spec(value) ==> res == Ok::<_, TlsError>(Self { grease: value }),
            !is_grease_u16_spec(value) ==> res == Err::<Self, _>(TlsError::Alert(AlertDescription::IllegalParameter)),
    {
        let b1: u8 = (value >> 8) as u8;
        let b2: u8 = (value & 0xFF) as u8;
        assert(b1 == value / 256 && b2 == value % 256 && (b1 & 0x0F) == b1 % 16) by (bit_vector)
            requires
                b1 == (value >> 8) as u8,
                b2 == (value & 0xFF) as u8,
        ;
        if b1 == b2 && (b1 & 0x0F) == 0x0A {
            return Ok(Self { grease: value });
        }
        Err(TlsError::Alert(AlertDescription::IllegalParameter))
    }

    /// Appends the value in big-endian order.
    pub fn encode(&self, buf: &mut BytesMut)
        requires
            bytes_mut_view(*old(buf)).len() + 2 <= isize::MAX,
        ensures
            bytes_mut_view(*final(buf)) == bytes_mut_view(*old(buf)) + be16(self.grease),
    {
        bm_put_u16(buf, self.grease);
    }
}

} // verus!
