//! Protocol versions.
use vstd::prelude::*;

use crate::error::{TlsError, TlsErrorView, TlsResult};

use bytes::BytesMut;

use crate::buffer::{be16, bm_get_u16, bm_len, bm_put_u16, bytes_mut_view, read_be16};
use crate::message::serialize::{Serialize, SpecResult};

verus! {

broadcast use crate::seqs::group_codec;

/// A protocol version as it appears on the wire.
#[derive(Debug, Clone, Copy, PartialEq, Eq, Structural)]
pub enum Version {
    Tls10,
    Tls11,
    Tls12,
    Tls13,
    Unknown(u16),
}

impl Version {
    /// The code that stands for the value on the wire.
    pub open spec fn spec_code(self) -> u16 {
        match self {
            Version::Tls10 => 0x0301,
            Version::Tls11 => 0x0302,
            Version::Tls12 => 0x0303,
            Version::Tls13 => 0x0304,
            Version::Unknown(v) => v,
        }
    }

    /// The value that a code stands for.
    pub open spec fn spec_from_code(v: u16) -> Version {
        match v {
            0x0301 => Version::Tls10,
            0x0302 => Version::Tls11,
            0x0303 => Version::Tls12,
            0x0304 => Version::Tls13,
            _ => Version::Unknown(v),
        }
    }

    /// The wire codes of the named values, as the protocol's registry fixes
    /// them: each value is written as its number, and a code is read as that
    /// value exactly when it is that number.
    pub proof fn lemma_wire_codes(c: u16)
        ensures
            Version::Tls10.spec_code() == 0x0301,
            Version::Tls11.spec_code() == 0x0302,
            Version::Tls12.spec_code() == 0x0303,
            Version::Tls13.spec_code() == 0x0304,
            (Version::spec_from_code(c) == Version::Tls10) <==> c == 0x0301,
            (Version::spec_from_code(c) == Version::Tls11) <==> c == 0x0302,
            (Version::spec_from_code(c) == Version::Tls12) <==> c == 0x0303,
            (Version::spec_from_code(c) == Version::Tls13) <==> c == 0x0304,
    {
    }

    /// The values that are read back as written: those whose code is not
    /// taken by another variant.
    pub open spec fn spec_canonical(self) -> bool {
        Version::spec_from_code(self.spec_code()) == self
    }

    /// Every code is read as a value whose code it is; a value that is not
    /// `Unknown` with a code of another variant is read back as itself.
    pub proof fn lemma_code_roundtrip(self, v: u16)
        ensures
            Version::spec_from_code(v).spec_code() == v,
            Version::spec_from_code(v).spec_canonical(),
            self.spec_canonical() <==> match self {
                Version::Unknown(u) => Version::spec_from_code(u) is Unknown,
                _ => true,
            },
    {
    }
}

impl View for Version {
    type V = Version;

    open spec fn view(&self) -> Version {
        *self
    }
}

impl Version {
    /// The code that stands for the value on the wire.
    pub fn code(self) -> (res: u16)
        ensures
            res == self.spec_code(),
    {
        let value = self;
        match value {
            Version::Tls10 => 0x0301,
            Version::Tls11 => 0x0302,
            Version::Tls12 => 0x0303,
            Version::Tls13 => 0x0304,
            Version::Unknown(v) => v,
        }
    }
}

impl Version {
    /// The value that a code stands for.
    pub fn try_from(value: u16) -> (res: Result<Self, TlsError>)
        ensures
            res == Ok::<_, TlsError>(Version::spec_from_code(value)),
    {
        match value {
            0x0301 => Ok(Version::Tls10),
            0x0302 => Ok(Version::Tls11),
            0x0303 => Ok(Version::Tls12),
            0x0304 => Ok(Version::Tls13),
            _ => Ok(Version::Unknown(value)),
        }
    }
}

impl Version {
    /// The version as one that this library speaks, if it is one.
    pub fn to_supported(&self) -> (res: Option<SupportedVersion>)
        ensures
            res == (if *self == Version::Tls13 { Some(SupportedVersion::Tls13) } else { None::<SupportedVersion> }),
    {
        match self {
            Version::Tls13 => Some(SupportedVersion::Tls13),
            _ => None,
        }
    }
}

/// The versions that this library speaks.
#[derive(Debug, Clone, Copy, PartialEq, Eq, Structural)]
pub enum SupportedVersion {
    Tls13,
}

impl SupportedVersion {
    /// The version on the wire that a supported version stands for.
    pub fn to_unsupported(&self) -> (res: Version)
        ensures
            res == Version::Tls13,
            res.to_supported_spec() == Some(*self),
    {
        match self {
            SupportedVersion::Tls13 => Version::Tls13,
        }
    }
}

impl Version {
    /// What `to_supported` returns.
    pub open spec fn to_supported_spec(self) -> Option<SupportedVersion> {
        if self == Version::Tls13 { Some(SupportedVersion::Tls13) } else { None }
    }
}

impl Serialize for Version {
    open spec fn spec_encode(v: Version) -> Seq<u8> {
        be16(v.spec_code())
    }

    open spec fn spec_decode(s: Seq<u8>) -> SpecResult<Version> {
        if s.len() < 2 {
            Err(TlsErrorView::Incomplete((2 - s.len()) as usize))
        } else {
            Ok((Version::spec_from_code(read_be16(s, 0)), s.skip(2)))
        }
    }

    open spec fn spec_wf(v: Version) -> bool {
        v.spec_canonical()
    }

    open spec fn spec_self_delimiting() -> bool {
        true
    }

    open spec fn spec_consumes() -> bool {
        true
    }

    proof fn lemma_decode_suffix(s: Seq<u8>) {
    }

    proof fn lemma_roundtrip(v: Version, rest: Seq<u8>) {
        v.lemma_code_roundtrip(0);
        let s = Self::spec_encode(v) + rest;
        assert(s.skip(2) =~= rest);
    }

    fn encode(&self, buf: &mut BytesMut) {
        bm_put_u16(buf, self.code());
        assert(bytes_mut_view(*buf) =~= bytes_mut_view(*old(buf)) + Self::spec_encode(self@));
    }

    fn decode(buf: &mut BytesMut) -> (res: TlsResult<Self>) {
        let remaining = bm_len(buf);
        if remaining < 2 {
            return Err(TlsError::Incomplete(2 - remaining));
        }
        Version::try_from(bm_get_u16(buf))
    }
}

} // verus!
