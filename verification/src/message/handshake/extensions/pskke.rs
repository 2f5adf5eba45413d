//! The `psk_key_exchange_modes` extension.
use vstd::prelude::*;

use bytes::BytesMut;

use crate::error::{TlsError, TlsErrorView, TlsResult};
use crate::message::serialize::{
    Serialize, SpecResult, all_wf, decode_counted, encode_counted, lemma_counted_roundtrip,
    lemma_decode_n_suffix, spec_decode_counted, spec_encode_counted, spec_read_length, views,
};
use crate::buffer::{bm_get_u8, bm_len, bm_put_u8, bytes_mut_view};

verus! {

broadcast use crate::seqs::group_codec;

/// The PSK key exchange modes that a client accepts.
#[derive(Debug, PartialEq, Eq)]
pub struct PskKeyExchangeModesPayload {
    pub modes: Vec<PskKeyExchangeMode>,
}

pub struct PskKeyExchangeModesPayloadView {
    pub modes: Seq<PskKeyExchangeMode>,
}

impl View for PskKeyExchangeModesPayload {
    type V = PskKeyExchangeModesPayloadView;

    open spec fn view(&self) -> PskKeyExchangeModesPayloadView {
        PskKeyExchangeModesPayloadView { modes: views(self.modes@) }
    }
}

impl Serialize for PskKeyExchangeModesPayload {
    open spec fn spec_encode(v: PskKeyExchangeModesPayloadView) -> Seq<u8> {
        spec_encode_counted::<PskKeyExchangeMode>(v.modes, 1, 1)
    }

    open spec fn spec_decode(s: Seq<u8>) -> SpecResult<PskKeyExchangeModesPayloadView> {
        match spec_decode_counted::<PskKeyExchangeMode>(s, 1, 1) {
            Ok((modes, rest)) => Ok((PskKeyExchangeModesPayloadView { modes }, rest)),
            Err(e) => Err(e),
        }
    }

    open spec fn spec_wf(v: PskKeyExchangeModesPayloadView) -> bool {
        all_wf::<PskKeyExchangeMode>(v.modes) && v.modes.len() * 1 < 0x100
    }

    open spec fn spec_self_delimiting() -> bool {
        true
    }

    open spec fn spec_consumes() -> bool {
        true
    }

    proof fn lemma_decode_suffix(s: Seq<u8>) {
        lemma_decode_n_suffix::<PskKeyExchangeMode>(s.skip(1), (spec_read_length(s, 1) / 1) as nat);
    }

    proof fn lemma_roundtrip(v: PskKeyExchangeModesPayloadView, rest: Seq<u8>) {
        lemma_counted_roundtrip::<PskKeyExchangeMode>(v.modes, rest, 1, 1);
    }

    fn encode(&self, buf: &mut BytesMut) {
        encode_counted(&self.modes, buf, 1, 1);
    }

    fn decode(buf: &mut BytesMut) -> (res: TlsResult<Self>) {
        let modes = decode_counted::<PskKeyExchangeMode>(buf, 1, 1)?;
        Ok(Self { modes })
    }
}

/// A PSK key exchange mode.
#[derive(Debug, Clone, Copy, PartialEq, Eq, Structural)]
pub enum PskKeyExchangeMode {
    PskKe,
    PskDheKe,
}

impl PskKeyExchangeMode {
    /// The code that stands for the value on the wire.
    pub open spec fn spec_code(self) -> u8 {
        match self {
            PskKeyExchangeMode::PskKe => 0x00,
            PskKeyExchangeMode::PskDheKe => 0x01,
        }
    }

    /// The value that a code stands for, or the error for a code that stands for none.
    pub open spec fn spec_from_code(v: u8) -> Result<PskKeyExchangeMode, TlsError> {
        match v {
            0x00 => Ok(PskKeyExchangeMode::PskKe),
            0x01 => Ok(PskKeyExchangeMode::PskDheKe),
            _ => Err(TlsError::Unknown("PSK exchange mode")),
        }
    }

    /// The wire codes of the named values, as the protocol's registry fixes
    /// them: each value is written as its number, and a code is read as that
    /// value exactly when it is that number.
    pub proof fn lemma_wire_codes(c: u8)
        ensures
            PskKeyExchangeMode::PskKe.spec_code() == 0x00,
            PskKeyExchangeMode::PskDheKe.spec_code() == 0x01,
            (PskKeyExchangeMode::spec_from_code(c) == Ok::<_, TlsError>(PskKeyExchangeMode::PskKe)) <==> c == 0x00,
            (PskKeyExchangeMode::spec_from_code(c) == Ok::<_, TlsError>(PskKeyExchangeMode::PskDheKe)) <==> c == 0x01,
    {
    }

    /// A value written as its code is read back as itself, and a code that
    /// is read as a value is that value's code.
    pub proof fn lemma_code_roundtrip(self, v: u8)
        ensures
            PskKeyExchangeMode::spec_from_code(self.spec_code()) == Ok::<_, TlsError>(self),
            PskKeyExchangeMode::spec_from_code(v) matches Ok(x) ==> x.spec_code() == v,
    {
    }
}

impl View for PskKeyExchangeMode {
    type V = PskKeyExchangeMode;

    open spec fn view(&self) -> PskKeyExchangeMode {
        *self
    }
}

impl PskKeyExchangeMode {
    /// The code that stands for the value on the wire.
    pub fn code(self) -> (res: u8)
        ensures
            res == self.spec_code(),
    {
        match self {
            PskKeyExchangeMode::PskKe => 0x00,
            PskKeyExchangeMode::PskDheKe => 0x01,
        }
    }

    /// The value that a code stands for, or the error for a code that stands for none.
    pub fn try_from(value: u8) -> (res: Result<Self, TlsError>)
        ensures
            res == PskKeyExchangeMode::spec_from_code(value),
    {
        match value {
            0x00 => Ok(PskKeyExchangeMode::PskKe),
            0x01 => Ok(PskKeyExchangeMode::PskDheKe),
            _ => Err(TlsError::Unknown("PSK exchange mode")),
        }
    }
}

impl Serialize for PskKeyExchangeMode {
    open spec fn spec_encode(v: PskKeyExchangeMode) -> Seq<u8> {
        seq![v.spec_code()]
    }

    open spec fn spec_decode(s: Seq<u8>) -> SpecResult<PskKeyExchangeMode> {
        if s.len() < 1 {
            Err(TlsErrorView::Incomplete((1 - s.len()) as usize))
        } else {
            match PskKeyExchangeMode::spec_from_code(s[0]) {
                Ok(v) => Ok((v, s.skip(1))),
                Err(e) => Err(e@),
            }
        }
    }

    open spec fn spec_wf(v: PskKeyExchangeMode) -> bool {
        true
    }

    open spec fn spec_self_delimiting() -> bool {
        true
    }

    open spec fn spec_consumes() -> bool {
        true
    }

    proof fn lemma_decode_suffix(s: Seq<u8>) {
    }

    proof fn lemma_roundtrip(v: PskKeyExchangeMode, rest: Seq<u8>) {
        v.lemma_code_roundtrip(0);
        let s = Self::spec_encode(v) + rest;
        assert(s.skip(1) =~= rest);
    }

    fn encode(&self, buf: &mut BytesMut) {
        bm_put_u8(buf, self.code());
        assert(bytes_mut_view(*buf) =~= bytes_mut_view(*old(buf)) + Self::spec_encode(self@));
    }

    fn decode(buf: &mut BytesMut) -> (res: TlsResult<Self>) {
        let remaining = bm_len(buf);
        if remaining < 1 {
            return Err(TlsError::Incomplete(1 - remaining));
        }
        PskKeyExchangeMode::try_from(bm_get_u8(buf))
    }
}
} // verus!
