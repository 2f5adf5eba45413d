//! The `ec_point_formats` extension.
use vstd::prelude::*;

use bytes::BytesMut;

use crate::error::{TlsError, TlsErrorView, TlsResult};
use crate::message::serialize::{
    Serialize, SpecResult, all_wf, decode_counted, encode_counted, lemma_counted_roundtrip,
    lemma_decode_n_suffix, spec_decode_counted, spec_encode_counted, spec_read_length, views,
};
use crate::buffer::{bm_get_u8, bm_len, bm_put_u8, bytes_mut_view};

verus! {

broadcast use crate::seqs::group_codec;

/// The EC point formats that a peer accepts.
#[derive(Debug, PartialEq, Eq)]
pub struct EcPointFormatsPayload {
    pub formats: Vec<EcPointFormat>,
}

pub struct EcPointFormatsPayloadView {
    pub formats: Seq<EcPointFormat>,
}

impl View for EcPointFormatsPayload {
    type V = EcPointFormatsPayloadView;

    open spec fn view(&self) -> EcPointFormatsPayloadView {
        EcPointFormatsPayloadView { formats: views(self.formats@) }
    }
}

impl Serialize for EcPointFormatsPayload {
    open spec fn spec_encode(v: EcPointFormatsPayloadView) -> Seq<u8> {
        spec_encode_counted::<EcPointFormat>(v.formats, 1, 1)
    }

    open spec fn spec_decode(s: Seq<u8>) -> SpecResult<EcPointFormatsPayloadView> {
        match spec_decode_counted::<EcPointFormat>(s, 1, 1) {
            Ok((formats, rest)) => Ok((EcPointFormatsPayloadView { formats }, rest)),
            Err(e) => Err(e),
        }
    }

    open spec fn spec_wf(v: EcPointFormatsPayloadView) -> bool {
        all_wf::<EcPointFormat>(v.formats) && v.formats.len() * 1 < 0x100
    }

    open spec fn spec_self_delimiting() -> bool {
        true
    }

    open spec fn spec_consumes() -> bool {
        true
    }

    proof fn lemma_decode_suffix(s: Seq<u8>) {
        lemma_decode_n_suffix::<EcPointFormat>(s.skip(1), (spec_read_length(s, 1) / 1) as nat);
    }

    proof fn lemma_roundtrip(v: EcPointFormatsPayloadView, rest: Seq<u8>) {
        lemma_counted_roundtrip::<EcPointFormat>(v.formats, rest, 1, 1);
    }

    fn encode(&self, buf: &mut BytesMut) {
        encode_counted(&self.formats, buf, 1, 1);
    }

    fn decode(buf: &mut BytesMut) -> (res: TlsResult<Self>) {
        let formats = decode_counted::<EcPointFormat>(buf, 1, 1)?;
        Ok(Self { formats })
    }
}

/// An EC point format.
#[derive(Debug, Clone, Copy, PartialEq, Eq, Structural)]
pub enum EcPointFormat {
    Uncompressed,
    AnsiX962CompressedPrime,
    AnsiX962CompressedChar2,
}

impl EcPointFormat {
    /// The code that stands for the value on the wire.
    pub open spec fn spec_code(self) -> u8 {
        match self {
            EcPointFormat::Uncompressed => 0x00,
            EcPointFormat::AnsiX962CompressedPrime => 0x01,
            EcPointFormat::AnsiX962CompressedChar2 => 0x02,
        }
    }

    /// The value that a code stands for, or the error for a code that stands for none.
    pub open spec fn spec_from_code(v: u8) -> Result<EcPointFormat, TlsError> {
        match v {
            0x00 => Ok(EcPointFormat::Uncompressed),
            0x01 => Ok(EcPointFormat::AnsiX962CompressedPrime),
            0x02 => Ok(EcPointFormat::AnsiX962CompressedChar2),
            _ => Err(TlsError::Unknown("EC point format")),
        }
    }

    /// The wire codes of the named values, as the protocol's registry fixes
    /// them: each value is written as its number, and a code is read as that
    /// value exactly when it is that number.
    pub proof fn lemma_wire_codes(c: u8)
        ensures
            EcPointFormat::Uncompressed.spec_code() == 0x00,
            EcPointFormat::AnsiX962CompressedPrime.spec_code() == 0x01,
            EcPointFormat::AnsiX962CompressedChar2.spec_code() == 0x02,
            (EcPointFormat::spec_from_code(c) == Ok::<_, TlsError>(EcPointFormat::Uncompressed)) <==> c == 0x00,
            (EcPointFormat::spec_from_code(c) == Ok::<_, TlsError>(EcPointFormat::AnsiX962CompressedPrime)) <==> c == 0x01,
            (EcPointFormat::spec_from_code(c) == Ok::<_, TlsError>(EcPointFormat::AnsiX962CompressedChar2)) <==> c == 0x02,
    {
    }

    /// A value written as its code is read back as itself, and a code that
    /// is read as a value is that value's code.
    pub proof fn lemma_code_roundtrip(self, v: u8)
        ensures
            EcPointFormat::spec_from_code(self.spec_code()) == Ok::<_, TlsError>(self),
            EcPointFormat::spec_from_code(v) matches Ok(x) ==> x.spec_code() == v,
    {
    }
}

impl View for EcPointFormat {
    type V = EcPointFormat;

    open spec fn view(&self) -> EcPointFormat {
        *self
    }
}

impl EcPointFormat {
    /// The code that stands for the value on the wire.
    pub fn code(self) -> (res: u8)
        ensures
            res == self.spec_code(),
    {
        match self {
            EcPointFormat::Uncompressed => 0x00,
            EcPointFormat::AnsiX962CompressedPrime => 0x01,
            EcPointFormat::AnsiX962CompressedChar2 => 0x02,
        }
    }

    /// The value that a code stands for, or the error for a code that stands for none.
    pub fn try_from(value: u8) -> (res: Result<Self, TlsError>)
        ensures
            res == EcPointFormat::spec_from_code(value),
    {
        match value {
            0x00 => Ok(EcPointFormat::Uncompressed),
            0x01 => Ok(EcPointFormat::AnsiX962CompressedPrime),
            0x02 => Ok(EcPointFormat::AnsiX962CompressedChar2),
            _ => Err(TlsError::Unknown("EC point format")),
        }
    }
}

impl Serialize for EcPointFormat {
    open spec fn spec_encode(v: EcPointFormat) -> Seq<u8> {
        seq![v.spec_code()]
    }

    open spec fn spec_decode(s: Seq<u8>) -> SpecResult<EcPointFormat> {
        if s.len() < 1 {
            Err(TlsErrorView::Incomplete((1 - s.len()) as usize))
        } else {
            match EcPointFormat::spec_from_code(s[0]) {
                Ok(v) => Ok((v, s.skip(1))),
                Err(e) => Err(e@),
            }
        }
    }

    open spec fn spec_wf(v: EcPointFormat) -> bool {
        true
    }

    open spec fn spec_self_delimiting() -> bool {
        true
    }

    open spec fn spec_consumes() -> bool {
        true
    }

    proof fn lemma_decode_suffix(s: Seq<u8>) {
    }

    proof fn lemma_roundtrip(v: EcPointFormat, rest: Seq<u8>) {
        v.lemma_code_roundtrip(0);
        let s = Self::spec_encode(v) + rest;
        assert(s.skip(1) =~= rest);
    }

    fn encode(&self, buf: &mut BytesMut) {
        bm_put_u8(buf, self.code());
        assert(bytes_mut_view(*buf) =~= bytes_mut_view(*old(buf)) + Self::spec_encode(self@));
    }

    fn decode(buf: &mut BytesMut) -> (res: TlsResult<Self>) {
        let remaining = bm_len(buf);
        if remaining < 1 {
            return Err(TlsError::Incomplete(1 - remaining));
        }
        EcPointFormat::try_from(bm_get_u8(buf))
    }
}

impl EcPointFormat {
    /// The format as one that this library accepts, if it is one.
    pub fn to_supported(&self) -> (res: Option<SupportedEcPointFormat>)
        ensures
            res == self.to_supported_spec(),
    {
        match self {
            EcPointFormat::Uncompressed => Some(SupportedEcPointFormat::Uncompressed),
            _ => None,
        }
    }

    /// What `to_supported` returns.
    pub open spec fn to_supported_spec(self) -> Option<SupportedEcPointFormat> {
        match self {
            EcPointFormat::Uncompressed => Some(SupportedEcPointFormat::Uncompressed),
            _ => None,
        }
    }
}

/// The EC point formats that this library accepts.
#[derive(Debug, Clone, Copy, PartialEq, Eq, Structural)]
pub enum SupportedEcPointFormat {
    Uncompressed,
}

impl SupportedEcPointFormat {
    /// The supported format that `format` is, if it is one.
    pub fn compare(&self, format: &EcPointFormat) -> (res: Option<SupportedEcPointFormat>)
        ensures
            res == format.to_supported_spec(),
    {
        match format {
            EcPointFormat::Uncompressed => Some(SupportedEcPointFormat::Uncompressed),
            _ => None,
        }
    }
}

} // verus!
