//! Legacy compression methods.
use vstd::prelude::*;

use crate::error::{TlsError, TlsErrorView, TlsResult};

use bytes::BytesMut;

use crate::buffer::{bm_get_u8, bm_len, bm_put_u8, bytes_mut_view};
use crate::message::serialize::{Serialize, SpecResult};

verus! {

broadcast use crate::seqs::group_codec;

/// A legacy compression method.
#[derive(Debug, Clone, Copy, PartialEq, Eq, Structural)]
pub enum CompressionMethod {
    Null,
    DEFLATE,
    LZS,
}

impl CompressionMethod {
    /// The code that stands for the value on the wire.
    pub open spec fn spec_code(self) -> u8 {
        match self {
            CompressionMethod::Null => 0x00,
            CompressionMethod::DEFLATE => 0x01,
            CompressionMethod::LZS => 0x40,
        }
    }

    /// The value that a code stands for, or the error for a code that stands for none.
    pub open spec fn spec_from_code(v: u8) -> Result<CompressionMethod, TlsError> {
        match v {
            0x00 => Ok(CompressionMethod::Null),
            0x01 => Ok(CompressionMethod::DEFLATE),
            0x40 => Ok(CompressionMethod::LZS),
            _ => Err(TlsError::Unknown("compression method")),
        }
    }

    /// The wire codes of the named values, as the protocol's registry fixes
    /// them: each value is written as its number, and a code is read as that
    /// value exactly when it is that number.
    pub proof fn lemma_wire_codes(c: u8)
        ensures
            CompressionMethod::Null.spec_code() == 0x00,
            CompressionMethod::DEFLATE.spec_code() == 0x01,
            CompressionMethod::LZS.spec_code() == 0x40,
            (CompressionMethod::spec_from_code(c) == Ok::<_, TlsError>(CompressionMethod::Null)) <==> c == 0x00,
            (CompressionMethod::spec_from_code(c) == Ok::<_, TlsError>(CompressionMethod::DEFLATE)) <==> c == 0x01,
            (CompressionMethod::spec_from_code(c) == Ok::<_, TlsError>(CompressionMethod::LZS)) <==> c == 0x40,
    {
    }

    /// A value written as its code is read back as itself, and a code that
    /// is read as a value is that value's code.
    pub proof fn lemma_code_roundtrip(self, v: u8)
        ensures
            CompressionMethod::spec_from_code(self.spec_code()) == Ok::<_, TlsError>(self),
            CompressionMethod::spec_from_code(v) matches Ok(x) ==> x.spec_code() == v,
    {
    }
}

impl View for CompressionMethod {
    type V = CompressionMethod;

    open spec fn view(&self) -> CompressionMethod {
        *self
    }
}

impl CompressionMethod {
    /// The code that stands for the value on the wire.
    pub fn code(self) -> (res: u8)
        ensures
            res == self.spec_code(),
    {
        let value = self;
        match value {
            CompressionMethod::Null => 0x00,
            CompressionMethod::DEFLATE => 0x01,
            CompressionMethod::LZS => 0x40,
        }
    }
}

impl CompressionMethod {
    /// The value that a code stands for.
    pub fn try_from(value: u8) -> (res: Result<Self, TlsError>)
        ensures
            res == CompressionMethod::spec_from_code(value),
    {
        match value {
            0x00 => Ok(CompressionMethod::Null),
            0x01 => Ok(CompressionMethod::DEFLATE),
            0x40 => Ok(CompressionMethod::LZS),
            _ => Err(TlsError::Unknown("compression method")),
        }
    }
}

impl CompressionMethod {
    /// The method as one that this library accepts, if it is one.
    pub fn to_supported(&self) -> (res: Option<SupportedCompressionMethod>)
        ensures
            res == (if *self == CompressionMethod::Null { Some(SupportedCompressionMethod::Null) } else { None::<SupportedCompressionMethod> }),
    {
        match self {
            CompressionMethod::Null => Some(SupportedCompressionMethod::Null),
            _ => None,
        }
    }
}

/// The compression methods that this library accepts: none.
#[derive(Debug, Clone, Copy, PartialEq, Eq, Structural)]
pub enum SupportedCompressionMethod {
    Null,
}

impl Serialize for CompressionMethod {
    open spec fn spec_encode(v: CompressionMethod) -> Seq<u8> {
        seq![v.spec_code()]
    }

    open spec fn spec_decode(s: Seq<u8>) -> SpecResult<CompressionMethod> {
        if s.len() < 1 {
            Err(TlsErrorView::Incomplete((1 - s.len()) as usize))
        } else {
            match CompressionMethod::spec_from_code(s[0]) {
                Ok(v) => Ok((v, s.skip(1))),
                Err(e) => Err(e@),
            }
        }
    }

    open spec fn spec_wf(v: CompressionMethod) -> bool {
        true
    }

    open spec fn spec_self_delimiting() -> bool {
        true
    }

    open spec fn spec_consumes() -> bool {
        true
    }

    proof fn lemma_decode_suffix(s: Seq<u8>) {
    }

    proof fn lemma_roundtrip(v: CompressionMethod, rest: Seq<u8>) {
        v.lemma_code_roundtrip(0);
        let s = Self::spec_encode(v) + rest;
        assert(s.skip(1) =~= rest);
    }

    fn encode(&self, buf: &mut BytesMut) {
        bm_put_u8(buf, self.code());
        assert(bytes_mut_view(*buf) =~= bytes_mut_view(*old(buf)) + Self::spec_encode(self@));
    }

    fn decode(buf: &mut BytesMut) -> (res: TlsResult<Self>) {
        let remaining = bm_len(buf);
        if remaining < 1 {
            return Err(TlsError::Incomplete(1 - remaining));
        }
        CompressionMethod::try_from(bm_get_u8(buf))
    }
}

} // verus!
