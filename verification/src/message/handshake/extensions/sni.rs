//! The `server_name` extension: the host name that a client asks for.
use vstd::prelude::*;

use bytes::BytesMut;

use crate::buffer::{
    be16, bm_as_slice, bm_get_u16, bm_get_u8, bm_len, bm_put_slice, bm_put_u16, bm_put_u8,
    bm_split_to, bytes_mut_view, read_be16,
};
use crate::error::{TlsError, TlsErrorView, TlsResult};
use crate::message::serialize::{Serialize, SpecResult};
use crate::text::{string_as_bytes, string_as_str, utf8_error_text, utf8_to_string};
use vstd::utf8::{decode_utf8, encode_utf8, valid_utf8};

verus! {

broadcast use {
    crate::seqs::group_codec,
    vstd::utf8::encode_utf8_decode_utf8,
    vstd::utf8::encode_utf8_valid_utf8,
};

/// A server name: its kind and the name itself, sent as UTF-8 after a
/// 16-bit byte count.
#[derive(Debug, PartialEq, Eq)]
pub struct ServerNamePayload {
    pub name_type: NameType,
    pub name: String,  // length = u16
}

pub struct ServerNamePayloadView {
    pub name_type: NameType,
    pub name: Seq<char>,
}

impl View for ServerNamePayload {
    type V = ServerNamePayloadView;

    open spec fn view(&self) -> ServerNamePayloadView {
        ServerNamePayloadView { name_type: self.name_type, name: self.name@ }
    }
}

/// The text of the error for a name whose bytes are not UTF-8.
pub open spec fn sni_error_text(bytes: Seq<u8>) -> Seq<char> {
    "wrong sni: "@ + utf8_error_text(bytes)
}

impl Serialize for ServerNamePayload {
    open spec fn spec_encode(v: ServerNamePayloadView) -> Seq<u8> {
        seq![v.name_type.spec_code()] + be16(encode_utf8(v.name).len() as u16) + encode_utf8(v.name)
    }

    open spec fn spec_decode(s: Seq<u8>) -> SpecResult<ServerNamePayloadView> {
        if s.len() < 3 {
            Err(TlsErrorView::Incomplete((3 - s.len()) as usize))
        } else {
            match NameType::spec_from_code(s[0]) {
                Err(e) => Err(e@),
                Ok(name_type) => {
                    let n = read_be16(s, 1) as int;
                    let t = s.skip(3);
                    if t.len() < n {
                        Err(TlsErrorView::Incomplete((n - t.len()) as usize))
                    } else if valid_utf8(t.take(n)) {
                        Ok((ServerNamePayloadView { name_type, name: decode_utf8(t.take(n)) }, t.skip(n)))
                    } else {
                        Err(TlsErrorView::Io(sni_error_text(t.take(n))))
                    }
                },
            }
        }
    }

    open spec fn spec_wf(v: ServerNamePayloadView) -> bool {
        encode_utf8(v.name).len() <= 0xFFFF
    }

    open spec fn spec_self_delimiting() -> bool {
        true
    }

    open spec fn spec_consumes() -> bool {
        true
    }

    proof fn lemma_decode_suffix(s: Seq<u8>) {
    }

    proof fn lemma_roundtrip(v: ServerNamePayloadView, rest: Seq<u8>) {
        v.name_type.lemma_code_roundtrip(0);
        let bytes = encode_utf8(v.name);
        let s = Self::spec_encode(v) + rest;
        assert(s.skip(3) =~= bytes + rest);
        assert((bytes + rest).take(bytes.len() as int) =~= bytes);
        assert((bytes + rest).skip(bytes.len() as int) =~= rest);
    }

    fn encode(&self, buf: &mut BytesMut) {
        bm_put_u8(buf, self.name_type.code());
        let bytes = string_as_bytes(&self.name);
        bm_put_u16(buf, bytes.len() as u16);
        bm_put_slice(buf, bytes);
        assert(bytes_mut_view(*buf) =~= bytes_mut_view(*old(buf)) + Self::spec_encode(self@));
    }

    fn decode(buf: &mut BytesMut) -> (res: TlsResult<Self>) {
        let remaining = bm_len(buf);
        if remaining < 3 {
            return Err(TlsError::Incomplete(3 - remaining));
        }
        let name_type = NameType::try_from(bm_get_u8(buf))?;
        let name_length = bm_get_u16(buf) as usize;
        let remaining = bm_len(buf);
        if remaining < name_length {
            return Err(TlsError::Incomplete(name_length - remaining));
        }
        let bytes = bm_split_to(buf, name_length);
        let raw = vstd::slice::slice_to_vec(bm_as_slice(&bytes));
        match utf8_to_string(raw) {
            Ok(name) => Ok(Self { name_type, name }),
            Err(text) => {
                let mut message = String::from_str("wrong sni: ");
                message.append(string_as_str(&text));
                proof {
                    assert(message@ =~= sni_error_text(bytes_mut_view(bytes)));
                }
                Err(TlsError::Io(message))
            },
        }
    }
}

/// The kind of a server name.
#[derive(Debug, Clone, Copy, PartialEq, Eq, Structural)]
pub enum NameType {
    HostName,
}

impl NameType {
    /// The code that stands for the value on the wire.
    pub open spec fn spec_code(self) -> u8 {
        match self {
            NameType::HostName => 0x00,
        }
    }

    /// The value that a code stands for, or the error for a code that stands for none.
    pub open spec fn spec_from_code(v: u8) -> Result<NameType, TlsError> {
        match v {
            0x00 => Ok(NameType::HostName),
            _ => Err(TlsError::Unknown("name type")),
        }
    }

    /// The wire codes of the named values, as the protocol's registry fixes
    /// them: each value is written as its number, and a code is read as that
    /// value exactly when it is that number.
    pub proof fn lemma_wire_codes(c: u8)
        ensures
            NameType::HostName.spec_code() == 0x00,
            (NameType::spec_from_code(c) == Ok::<_, TlsError>(NameType::HostName)) <==> c == 0x00,
    {
    }

    /// A value written as its code is read back as itself, and a code that
    /// is read as a value is that value's code.
    pub proof fn lemma_code_roundtrip(self, v: u8)
        ensures
            NameType::spec_from_code(self.spec_code()) == Ok::<_, TlsError>(self),
            NameType::spec_from_code(v) matches Ok(x) ==> x.spec_code() == v,
    {
    }

    /// The code that stands for the value on the wire.
    pub fn code(self) -> (res: u8)
        ensures
            res == self.spec_code(),
    {
        match self {
            NameType::HostName => 0x00,
        }
    }

    /// The value that a code stands for, or the error for a code that stands for none.
    pub fn try_from(value: u8) -> (res: Result<Self, TlsError>)
        ensures
            res == NameType::spec_from_code(value),
    {
        match value {
            0x00 => Ok(NameType::HostName),
            _ => Err(TlsError::Unknown("name type")),
        }
    }
}

} // verus!
