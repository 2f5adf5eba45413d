//! Key shares: a named group and the public value offered for it.
use vstd::prelude::*;

use bytes::{Bytes, BytesMut};
use ring::agreement;

use crate::buffer::{
    b_as_slice, be16, bm_get_u16, bm_len, bm_put_slice, bm_put_u16, bytes_mut_view, bytes_view,
    read_be16,
};
use crate::crypto::{agreement_curve_id, agreement_ecdh_p256, agreement_ecdh_p384, agreement_x25519};
use crate::error::{TlsError, TlsErrorView, TlsResult};
use crate::message::handshake::grease::{GreasePayloadU16, is_grease_u16_spec};
use crate::message::serialize::{
    Serialize, SpecResult, all_wf, decode_list16, encode_list16, lemma_list16_roundtrip,
    spec_decode_list16, spec_encode_list, spec_prefixed16, take_bytes, views,
};

verus! {

broadcast use crate::seqs::group_codec;

/// The key shares of a `key_share` extension.
#[derive(Debug, PartialEq, Eq)]
pub struct KeySharePayload {
    pub key_shares: Vec<KeyShareEntry>,  // length = u16
}

pub struct KeySharePayloadView {
    pub key_shares: Seq<KeyShareEntryView>,
}

impl View for KeySharePayload {
    type V = KeySharePayloadView;

    open spec fn view(&self) -> KeySharePayloadView {
        KeySharePayloadView { key_shares: views(self.key_shares@) }
    }
}

impl Serialize for KeySharePayload {
    open spec fn spec_encode(v: KeySharePayloadView) -> Seq<u8> {
        spec_prefixed16(spec_encode_list::<KeyShareEntry>(v.key_shares))
    }

    open spec fn spec_decode(s: Seq<u8>) -> SpecResult<KeySharePayloadView> {
        match spec_decode_list16::<KeyShareEntry>(s) {
            Ok((key_shares, rest)) => Ok((KeySharePayloadView { key_shares }, rest)),
            Err(e) => Err(e),
        }
    }

    open spec fn spec_wf(v: KeySharePayloadView) -> bool {
        &&& all_wf::<KeyShareEntry>(v.key_shares)
        &&& spec_encode_list::<KeyShareEntry>(v.key_shares).len() <= 0xFFFF
    }

    open spec fn spec_self_delimiting() -> bool {
        true
    }

    open spec fn spec_consumes() -> bool {
        true
    }

    proof fn lemma_decode_suffix(s: Seq<u8>) {
    }

    proof fn lemma_roundtrip(v: KeySharePayloadView, rest: Seq<u8>) {
        lemma_list16_roundtrip::<KeyShareEntry>(v.key_shares, rest);
    }

    fn encode(&self, buf: &mut BytesMut) {
        encode_list16(&self.key_shares, buf);
    }

    fn decode(buf: &mut BytesMut) -> (res: TlsResult<Self>) {
        let key_shares = decode_list16::<KeyShareEntry>(buf)?;
        Ok(Self { key_shares })
    }
}

/// One key share: a group and the public value for it.
#[derive(Debug, PartialEq, Eq)]
pub struct KeyShareEntry {
    pub group: NamedGroup,
    pub key_exchange: Bytes,  // length = u16
}

pub struct KeyShareEntryView {
    pub group: NamedGroup,
    pub key_exchange: Seq<u8>,
}

impl View for KeyShareEntry {
    type V = KeyShareEntryView;

    open spec fn view(&self) -> KeyShareEntryView {
        KeyShareEntryView { group: self.group, key_exchange: bytes_view(self.key_exchange) }
    }
}

impl Serialize for KeyShareEntry {
    open spec fn spec_encode(v: KeyShareEntryView) -> Seq<u8> {
        be16(v.group.spec_code()) + spec_prefixed16(v.key_exchange)
    }

    open spec fn spec_decode(s: Seq<u8>) -> SpecResult<KeyShareEntryView> {
        if s.len() < 4 {
            Err(TlsErrorView::Incomplete((4 - s.len()) as usize))
        } else {
            let group = NamedGroup::spec_from_code(read_be16(s, 0));
            let n = read_be16(s, 2) as int;
            let t = s.skip(4);
            if t.len() < n {
                Err(TlsErrorView::Incomplete((n - t.len()) as usize))
            } else {
                Ok((KeyShareEntryView { group, key_exchange: t.take(n) }, t.skip(n)))
            }
        }
    }

    open spec fn spec_wf(v: KeyShareEntryView) -> bool {
        v.group.spec_canonical() && v.key_exchange.len() <= 0xFFFF
    }

    open spec fn spec_self_delimiting() -> bool {
        true
    }

    open spec fn spec_consumes() -> bool {
        true
    }

    proof fn lemma_decode_suffix(s: Seq<u8>) {
    }

    proof fn lemma_roundtrip(v: KeyShareEntryView, rest: Seq<u8>) {
        v.group.lemma_code_roundtrip(0);
        let s = Self::spec_encode(v) + rest;
        assert(s.skip(4) =~= v.key_exchange + rest);
    }

    fn encode(&self, buf: &mut BytesMut) {
        bm_put_u16(buf, self.group.code());
        let key = b_as_slice(&self.key_exchange);
        bm_put_u16(buf, key.len() as u16);
        bm_put_slice(buf, key);
        assert(bytes_mut_view(*buf) =~= bytes_mut_view(*old(buf)) + Self::spec_encode(self@));
    }

    fn decode(buf: &mut BytesMut) -> (res: TlsResult<Self>) {
        let remaining = bm_len(buf);
        if remaining < 4 {
            return Err(TlsError::Incomplete(4 - remaining));
        }
        let group = NamedGroup::try_from(bm_get_u16(buf))?;
        let key_len = bm_get_u16(buf) as usize;
        let key_exchange = take_bytes(buf, key_len)?;
        Ok(Self { group, key_exchange })
    }
}

/// A named group as it appears on the wire.
#[derive(Debug, Clone, Copy, PartialEq, Eq, Structural)]
pub enum NamedGroup {
    X25519,
    Secp256r1,
    Secp384r1,
    X25519MLKEM768,
    Grease(GreasePayloadU16),
    Unknown(u16),
}

impl NamedGroup {
    /// The code that stands for the value on the wire.
    pub open spec fn spec_code(self) -> u16 {
        match self {
            NamedGroup::X25519 => 0x1D,
            NamedGroup::Secp256r1 => 0x17,
            NamedGroup::Secp384r1 => 0x18,
            NamedGroup::X25519MLKEM768 => 0x11EC,
            NamedGroup::Grease(g) => g.grease,
            NamedGroup::Unknown(v) => v,
        }
    }

    /// The value that a code stands for.
    pub open spec fn spec_from_code(v: u16) -> NamedGroup {
        match v {
            0x1D => NamedGroup::X25519,
            0x17 => NamedGroup::Secp256r1,
            0x18 => NamedGroup::Secp384r1,
            0x11EC => NamedGroup::X25519MLKEM768,
            _ => if is_grease_u16_spec(v) {
                NamedGroup::Grease(GreasePayloadU16 { grease: v })
            } else {
                NamedGroup::Unknown(v)
            },
        }
    }

    /// The wire codes of the named values, as the protocol's registry fixes
    /// them: each value is written as its number, and a code is read as that
    /// value exactly when it is that number.
    pub proof fn lemma_wire_codes(c: u16)
        ensures
            NamedGroup::X25519.spec_code() == 0x1D,
            NamedGroup::Secp256r1.spec_code() == 0x17,
            NamedGroup::Secp384r1.spec_code() == 0x18,
            NamedGroup::X25519MLKEM768.spec_code() == 0x11EC,
            (NamedGroup::spec_from_code(c) == NamedGroup::X25519) <==> c == 0x1D,
            (NamedGroup::spec_from_code(c) == NamedGroup::Secp256r1) <==> c == 0x17,
            (NamedGroup::spec_from_code(c) == NamedGroup::Secp384r1) <==> c == 0x18,
            (NamedGroup::spec_from_code(c) == NamedGroup::X25519MLKEM768) <==> c == 0x11EC,
    {
    }

    /// The values that are read back as written: those whose code is not
    /// taken by another variant.
    pub open spec fn spec_canonical(self) -> bool {
        NamedGroup::spec_from_code(self.spec_code()) == self
    }

    /// Every code is read as a value whose code it is; a value that is not
    /// `Unknown` with a code of another variant is read back as itself.
    pub proof fn lemma_code_roundtrip(self, v: u16)
        ensures
            NamedGroup::spec_from_code(v).spec_code() == v,
            NamedGroup::spec_from_code(v).spec_canonical(),
            self.spec_canonical() <==> match self {
                NamedGroup::Grease(g) => is_grease_u16_spec(g.grease),
                NamedGroup::Unknown(u) => NamedGroup::spec_from_code(u) is Unknown,
                _ => true,
            },
    {
    }
}

impl View for NamedGroup {
    type V = NamedGroup;

    open spec fn view(&self) -> NamedGroup {
        *self
    }
}

impl NamedGroup {
    /// The code that stands for the value on the wire.
    pub fn code(self) -> (res: u16)
        ensures
            res == self.spec_code(),
    {
        let value = self;
        match value {
            NamedGroup::X25519 => 0x1D,
            NamedGroup::Secp256r1 => 0x17,
            NamedGroup::Secp384r1 => 0x18,
            NamedGroup::X25519MLKEM768 => 0x11EC,
            NamedGroup::Grease(g) => g.grease,
            NamedGroup::Unknown(v) => v,
        }
    }
}

impl NamedGroup {
    /// The value that a code stands for.
    pub fn try_from(value: u16) -> (res: Result<Self, TlsError>)
        ensures
            res == Ok::<_, TlsError>(NamedGroup::spec_from_code(value)),
    {
        match value {
            0x1Du16 => Ok(NamedGroup::X25519),
            0x17u16 => Ok(NamedGroup::Secp256r1),
            0x18u16 => Ok(NamedGroup::Secp384r1),
            0x11EC => Ok(NamedGroup::X25519MLKEM768),
            _ => match GreasePayloadU16::is_grease(value) {
                Ok(g) => Ok(NamedGroup::Grease(g)),
                Err(_) => Ok(NamedGroup::Unknown(value)),
            },
        }
    }
}

impl Serialize for NamedGroup {
    open spec fn spec_encode(v: NamedGroup) -> Seq<u8> {
        be16(v.spec_code())
    }

    open spec fn spec_decode(s: Seq<u8>) -> SpecResult<NamedGroup> {
        if s.len() < 2 {
            Err(TlsErrorView::Incomplete((2 - s.len()) as usize))
        } else {
            Ok((NamedGroup::spec_from_code(read_be16(s, 0)), s.skip(2)))
        }
    }

    open spec fn spec_wf(v: NamedGroup) -> bool {
        v.spec_canonical()
    }

    open spec fn spec_self_delimiting() -> bool {
        true
    }

    open spec fn spec_consumes() -> bool {
        true
    }

    proof fn lemma_decode_suffix(s: Seq<u8>) {
    }

    proof fn lemma_roundtrip(v: NamedGroup, rest: Seq<u8>) {
        v.lemma_code_roundtrip(0);
        let s = Self::spec_encode(v) + rest;
        assert(s.skip(2) =~= rest);
    }

    fn encode(&self, buf: &mut BytesMut) {
        bm_put_u16(buf, self.code());
        assert(bytes_mut_view(*buf) =~= bytes_mut_view(*old(buf)) + Self::spec_encode(self@));
    }

    fn decode(buf: &mut BytesMut) -> (res: TlsResult<Self>) {
        let remaining = bm_len(buf);
        if remaining < 2 {
            return Err(TlsError::Incomplete(2 - remaining));
        }
        NamedGroup::try_from(bm_get_u16(buf))
    }
}

impl NamedGroup {
    /// The group as one that this library implements, if it is one.
    pub fn to_supported(&self) -> (res: Option<SupportedNamedGroup>)
        ensures
            res == self.to_supported_spec(),
    {
        match self {
            NamedGroup::X25519 => Some(SupportedNamedGroup::X25519),
            NamedGroup::Secp256r1 => Some(SupportedNamedGroup::Secp256R1),
            NamedGroup::Secp384r1 => Some(SupportedNamedGroup::Secp384R1),
            _ => None,
        }
    }

    /// What `to_supported` returns.
    pub open spec fn to_supported_spec(self) -> Option<SupportedNamedGroup> {
        match self {
            NamedGroup::X25519 => Some(SupportedNamedGroup::X25519),
            NamedGroup::Secp256r1 => Some(SupportedNamedGroup::Secp256R1),
            NamedGroup::Secp384r1 => Some(SupportedNamedGroup::Secp384R1),
            _ => None,
        }
    }
}

/// The groups that this library implements.
#[derive(Debug, Clone, Copy, PartialEq, Eq, Structural)]
pub enum SupportedNamedGroup {
    X25519,
    Secp256R1,
    Secp384R1,
}

impl SupportedNamedGroup {
    /// The group's code point.
    pub fn to_unsupported(&self) -> (res: NamedGroup)
        ensures
            res == self.to_unsupported_spec(),
    {
        match self {
            SupportedNamedGroup::X25519 => NamedGroup::X25519,
            SupportedNamedGroup::Secp256R1 => NamedGroup::Secp256r1,
            SupportedNamedGroup::Secp384R1 => NamedGroup::Secp384r1,
        }
    }

    /// What `to_unsupported` returns.
    pub open spec fn to_unsupported_spec(self) -> NamedGroup {
        match self {
            SupportedNamedGroup::X25519 => NamedGroup::X25519,
            SupportedNamedGroup::Secp256R1 => NamedGroup::Secp256r1,
            SupportedNamedGroup::Secp384R1 => NamedGroup::Secp384r1,
        }
    }

    /// A supported group is found again from its code point, and a code point
    /// has a supported group exactly when it is one's code point.
    pub proof fn lemma_supported_roundtrip(self, g: NamedGroup)
        ensures
            self.to_unsupported_spec().to_supported_spec() == Some(self),
            g.to_supported_spec() matches Some(s) ==> s.to_unsupported_spec() == g,
    {
    }

    /// The name of the `ring` curve that the group stands for.
    pub open spec fn curve_id_spec(self) -> Seq<char> {
        match self {
            SupportedNamedGroup::X25519 => "Curve25519"@,
            SupportedNamedGroup::Secp256R1 => "P256"@,
            SupportedNamedGroup::Secp384R1 => "P384"@,
        }
    }

    /// The key agreement algorithm of `ring` for the group: `X25519`,
    /// `ECDH_P256` or `ECDH_P384`.
    pub fn to_curve(self) -> (res: &'static agreement::Algorithm)
        ensures
            agreement_curve_id(*res) == self.curve_id_spec(),
    {
        match self {
            SupportedNamedGroup::X25519 => agreement_x25519(),
            SupportedNamedGroup::Secp256R1 => agreement_ecdh_p256(),
            SupportedNamedGroup::Secp384R1 => agreement_ecdh_p384(),
        }
    }
}

} // verus!
