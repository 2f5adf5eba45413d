//! The `application_layer_protocol_negotiation` extension.
use vstd::prelude::*;

use bytes::BytesMut;

use crate::buffer::{
    bm_as_slice, bm_get_u8, bm_len, bm_put_slice, bm_put_u8, bm_split_to, bytes_mut_view,
};
use crate::error::{TlsError, TlsErrorView, TlsResult};
use crate::message::serialize::{
    Serialize, SpecResult, all_wf, decode_list16, encode_list16, lemma_list16_roundtrip,
    spec_decode_list16, spec_encode_list, spec_prefixed16, views,
};
use crate::seqs::bytes_eq;

verus! {

broadcast use crate::seqs::group_codec;

/// The protocols that a peer offers, in order of preference.
#[derive(Debug, PartialEq, Eq)]
pub struct AlpnPayload {
    pub protocols: Vec<AlpnProtocol>,  // length = u16
}

pub struct AlpnPayloadView {
    pub protocols: Seq<AlpnProtocol>,
}

impl View for AlpnPayload {
    type V = AlpnPayloadView;

    open spec fn view(&self) -> AlpnPayloadView {
        AlpnPayloadView { protocols: views(self.protocols@) }
    }
}

impl Serialize for AlpnPayload {
    open spec fn spec_encode(v: AlpnPayloadView) -> Seq<u8> {
        spec_prefixed16(spec_encode_list::<AlpnProtocol>(v.protocols))
    }

    open spec fn spec_decode(s: Seq<u8>) -> SpecResult<AlpnPayloadView> {
        match spec_decode_list16::<AlpnProtocol>(s) {
            Ok((protocols, rest)) => Ok((AlpnPayloadView { protocols }, rest)),
            Err(e) => Err(e),
        }
    }

    open spec fn spec_wf(v: AlpnPayloadView) -> bool {
        spec_encode_list::<AlpnProtocol>(v.protocols).len() <= 0xFFFF
    }

    open spec fn spec_self_delimiting() -> bool {
        true
    }

    open spec fn spec_consumes() -> bool {
        true
    }

    proof fn lemma_decode_suffix(s: Seq<u8>) {
    }

    proof fn lemma_roundtrip(v: AlpnPayloadView, rest: Seq<u8>) {
        assert(all_wf::<AlpnProtocol>(v.protocols));
        lemma_list16_roundtrip::<AlpnProtocol>(v.protocols, rest);
    }

    fn encode(&self, buf: &mut BytesMut) {
        encode_list16(&self.protocols, buf);
    }

    fn decode(buf: &mut BytesMut) -> (res: TlsResult<Self>) {
        let protocols = decode_list16::<AlpnProtocol>(buf)?;
        Ok(Self { protocols })
    }
}

/// One protocol name, sent after an 8-bit byte count.
#[derive(Debug, Clone, Copy, PartialEq, Eq, Structural)]
pub struct AlpnProtocol {
    pub name: AlpnProtocols,  // length = u8
}

impl View for AlpnProtocol {
    type V = AlpnProtocol;

    open spec fn view(&self) -> AlpnProtocol {
        *self
    }
}

impl Serialize for AlpnProtocol {
    open spec fn spec_encode(v: AlpnProtocol) -> Seq<u8> {
        seq![v.name.spec_bytes().len() as u8] + v.name.spec_bytes()
    }

    open spec fn spec_decode(s: Seq<u8>) -> SpecResult<AlpnProtocol> {
        if s.len() < 1 {
            Err(TlsErrorView::Incomplete((1 - s.len()) as usize))
        } else {
            let n = s[0] as int;
            let t = s.skip(1);
            if t.len() < n {
                Err(TlsErrorView::Incomplete((n - t.len()) as usize))
            } else {
                match AlpnProtocols::spec_from_bytes(t.take(n)) {
                    Ok(name) => Ok((AlpnProtocol { name }, t.skip(n))),
                    Err(e) => Err(e@),
                }
            }
        }
    }

    open spec fn spec_wf(v: AlpnProtocol) -> bool {
        true
    }

    open spec fn spec_self_delimiting() -> bool {
        true
    }

    open spec fn spec_consumes() -> bool {
        true
    }

    proof fn lemma_decode_suffix(s: Seq<u8>) {
    }

    proof fn lemma_roundtrip(v: AlpnProtocol, rest: Seq<u8>) {
        v.name.lemma_bytes_roundtrip(Seq::empty());
        let b = v.name.spec_bytes();
        let s = Self::spec_encode(v) + rest;
        assert(s.skip(1) =~= b + rest);
        assert((b + rest).take(b.len() as int) =~= b);
        assert((b + rest).skip(b.len() as int) =~= rest);
    }

    fn encode(&self, buf: &mut BytesMut) {
        let proto_bytes = self.name.as_ref();
        bm_put_u8(buf, proto_bytes.len() as u8);
        bm_put_slice(buf, proto_bytes);
        assert(bytes_mut_view(*buf) =~= bytes_mut_view(*old(buf)) + Self::spec_encode(self@));
    }

    fn decode(buf: &mut BytesMut) -> (res: TlsResult<Self>) {
        let remaining = bm_len(buf);
        if remaining < 1 {
            return Err(TlsError::Incomplete(1 - remaining));
        }
        let len = bm_get_u8(buf) as usize;
        let remaining = bm_len(buf);
        if remaining < len {
            return Err(TlsError::Incomplete(len - remaining));
        }
        let name = AlpnProtocols::try_from(bm_split_to(buf, len))?;
        Ok(Self { name })
    }
}

/// The protocol names that this library knows.
#[derive(Debug, Clone, Copy, PartialEq, Eq, Structural)]
pub enum AlpnProtocols {
    Http11,
    H2,
    H3,
}

/// `http/1.1`
pub const HTTP11_NAME: [u8; 8] = [0x68, 0x74, 0x74, 0x70, 0x2F, 0x31, 0x2E, 0x31];

/// `h2`
pub const H2_NAME: [u8; 2] = [0x68, 0x32];

/// `h3`
pub const H3_NAME: [u8; 2] = [0x68, 0x33];

impl AlpnProtocols {
    /// The protocol's name in ASCII.
    pub open spec fn spec_bytes(self) -> Seq<u8> {
        match self {
            AlpnProtocols::Http11 => seq![0x68u8, 0x74, 0x74, 0x70, 0x2F, 0x31, 0x2E, 0x31],
            AlpnProtocols::H2 => seq![0x68u8, 0x32],
            AlpnProtocols::H3 => seq![0x68u8, 0x33],
        }
    }

    /// The protocol whose name the bytes are, or the error for bytes that name none.
    pub open spec fn spec_from_bytes(b: Seq<u8>) -> Result<AlpnProtocols, TlsError> {
        if b == AlpnProtocols::Http11.spec_bytes() {
            Ok(AlpnProtocols::Http11)
        } else if b == AlpnProtocols::H2.spec_bytes() {
            Ok(AlpnProtocols::H2)
        } else if b == AlpnProtocols::H3.spec_bytes() {
            Ok(AlpnProtocols::H3)
        } else {
            Err(TlsError::Unknown("ALPN protocol"))
        }
    }

    /// A protocol is found again from its name, and bytes that name a
    /// protocol are that protocol's name.
    pub proof fn lemma_bytes_roundtrip(self, b: Seq<u8>)
        ensures
            AlpnProtocols::spec_from_bytes(self.spec_bytes()) == Ok::<_, TlsError>(self),
            AlpnProtocols::spec_from_bytes(b) matches Ok(p) ==> p.spec_bytes() == b,
    {
        assert(AlpnProtocols::H2.spec_bytes() != AlpnProtocols::Http11.spec_bytes());
        assert(AlpnProtocols::H3.spec_bytes()[1] != AlpnProtocols::H2.spec_bytes()[1]);
        assert(AlpnProtocols::H3.spec_bytes() != AlpnProtocols::Http11.spec_bytes());
    }

    /// The protocol whose name the bytes are.
    pub fn try_from(value: BytesMut) -> (res: TlsResult<Self>)
        ensures
            res == AlpnProtocols::spec_from_bytes(bytes_mut_view(value)),
    {
        let b = bm_as_slice(&value);
        if bytes_eq(b, AlpnProtocols::Http11.as_ref()) {
            Ok(AlpnProtocols::Http11)
        } else if bytes_eq(b, AlpnProtocols::H2.as_ref()) {
            Ok(AlpnProtocols::H2)
        } else if bytes_eq(b, AlpnProtocols::H3.as_ref()) {
            Ok(AlpnProtocols::H3)
        } else {
            Err(TlsError::Unknown("ALPN protocol"))
        }
    }

    /// The protocol's name in ASCII.
    pub fn as_ref(&self) -> (res: &'static [u8])
        ensures
            res@ == self.spec_bytes(),
    {
        match self {
            AlpnProtocols::Http11 => {
                let r: &'static [u8] = &HTTP11_NAME;
                assert(r@ =~= self.spec_bytes());
                r
            },
            AlpnProtocols::H2 => {
                let r: &'static [u8] = &H2_NAME;
                assert(r@ =~= self.spec_bytes());
                r
            },
            AlpnProtocols::H3 => {
                let r: &'static [u8] = &H3_NAME;
                assert(r@ =~= self.spec_bytes());
                r
            },
        }
    }
}

} // verus!
