//! The `status_request` extension: a request for certificate status (OCSP).
use vstd::prelude::*;

use bytes::{Bytes, BytesMut};

use crate::buffer::{
    b_as_slice, be16, bm_get_u16, bm_get_u8, bm_len, bm_put_slice, bm_put_u16, bm_put_u8,
    bm_split_to, bm_freeze, bytes_mut_view, bytes_view, read_be16,
};
use crate::error::{TlsError, TlsErrorView, TlsResult};
use crate::message::serialize::{Serialize, SpecResult, take_bytes};

verus! {

broadcast use crate::seqs::group_codec;

/// A certificate status request: its type, the responders it trusts and the
/// extensions of the request, each list as opaque bytes.
///
/// Decoding needs the three bytes of the type and the first count. On fewer,
/// an empty buffer or one of a single byte reports `1 - len` bytes missing;
/// two bytes, where that count would be negative, report the one byte that
/// is still needed.
#[derive(Debug, Clone, PartialEq, Eq)]
pub struct StatusRequestPayload {
    pub status_type: StatusType,
    pub responder_id_list: Bytes,  // length = u16
    pub request_extensions: Bytes,  // length = u16
}

pub struct StatusRequestPayloadView {
    pub status_type: StatusType,
    pub responder_id_list: Seq<u8>,
    pub request_extensions: Seq<u8>,
}

impl View for StatusRequestPayload {
    type V = StatusRequestPayloadView;

    open spec fn view(&self) -> StatusRequestPayloadView {
        StatusRequestPayloadView {
            status_type: self.status_type,
            responder_id_list: bytes_view(self.responder_id_list),
            request_extensions: bytes_view(self.request_extensions),
        }
    }
}

impl Serialize for StatusRequestPayload {
    open spec fn spec_encode(v: StatusRequestPayloadView) -> Seq<u8> {
        seq![v.status_type.spec_code()] + be16(v.responder_id_list.len() as u16) + v.responder_id_list
            + be16(v.request_extensions.len() as u16) + v.request_extensions
    }

    open spec fn spec_decode(s: Seq<u8>) -> SpecResult<StatusRequestPayloadView> {
        if s.len() <= 1 {
            Err(TlsErrorView::Incomplete((1 - s.len()) as usize))
        } else if s.len() < 3 {
            Err(TlsErrorView::Incomplete((3 - s.len()) as usize))
        } else {
            match StatusType::spec_from_code(s[0]) {
                Err(e) => Err(e@),
                Ok(status_type) => {
                    let n = read_be16(s, 1) as int;
                    let t = s.skip(3);
                    if t.len() < n + 2 {
                        Err(TlsErrorView::Incomplete((n + 2 - t.len()) as usize))
                    } else {
                        let m = read_be16(t, n) as int;
                        let u = t.skip(n + 2);
                        if u.len() < m {
                            Err(TlsErrorView::Incomplete((m - u.len()) as usize))
                        } else {
                            Ok((
                                StatusRequestPayloadView {
                                    status_type,
                                    responder_id_list: t.take(n),
                                    request_extensions: u.take(m),
                                },
                                u.skip(m),
                            ))
                        }
                    }
                },
            }
        }
    }

    open spec fn spec_wf(v: StatusRequestPayloadView) -> bool {
        v.responder_id_list.len() <= 0xFFFF && v.request_extensions.len() <= 0xFFFF
    }

    open spec fn spec_self_delimiting() -> bool {
        true
    }

    open spec fn spec_consumes() -> bool {
        true
    }

    proof fn lemma_decode_suffix(s: Seq<u8>) {
    }

    proof fn lemma_roundtrip(v: StatusRequestPayloadView, rest: Seq<u8>) {
        v.status_type.lemma_code_roundtrip(0);
        let a = v.responder_id_list;
        let b = v.request_extensions;
        let s = Self::spec_encode(v) + rest;
        let t = s.skip(3);
        assert(t =~= a + be16(b.len() as u16) + b + rest);
        assert(t.take(a.len() as int) =~= a);
        assert(t.skip(a.len() as int + 2) =~= b + rest);
        assert((b + rest).take(b.len() as int) =~= b);
        assert((b + rest).skip(b.len() as int) =~= rest);
    }

    fn encode(&self, buf: &mut BytesMut) {
        bm_put_u8(buf, self.status_type.code());
        let responders = b_as_slice(&self.responder_id_list);
        bm_put_u16(buf, responders.len() as u16);
        bm_put_slice(buf, responders);
        let extensions = b_as_slice(&self.request_extensions);
        bm_put_u16(buf, extensions.len() as u16);
        bm_put_slice(buf, extensions);
        assert(bytes_mut_view(*buf) =~= bytes_mut_view(*old(buf)) + Self::spec_encode(self@));
    }

    fn decode(buf: &mut BytesMut) -> (res: TlsResult<Self>) {
        let remaining = bm_len(buf);
        if remaining <= 1 {
            return Err(TlsError::Incomplete(1 - remaining));
        }
        if remaining < 3 {
            return Err(TlsError::Incomplete(3 - remaining));
        }
        let status_type = StatusType::try_from(bm_get_u8(buf))?;
        let responder_len = bm_get_u16(buf) as usize;
        let ghost t = bytes_mut_view(*buf);
        let remaining = bm_len(buf);
        if remaining < responder_len + 2 {
            return Err(TlsError::Incomplete(responder_len + 2 - remaining));
        }
        let responder_id_list = bm_freeze(bm_split_to(buf, responder_len));
        assert(read_be16(bytes_mut_view(*buf), 0) == read_be16(t, responder_len as int));
        let ext_len = bm_get_u16(buf) as usize;
        let request_extensions = take_bytes(buf, ext_len)?;
        Ok(Self { status_type, responder_id_list, request_extensions })
    }
}

/// The kind of certificate status asked for.
#[derive(Debug, Clone, Copy, PartialEq, Eq, Structural)]
pub enum StatusType {
    Ocsp,
}

impl StatusType {
    /// The code that stands for the value on the wire.
    pub open spec fn spec_code(self) -> u8 {
        match self {
            StatusType::Ocsp => 0x01,
        }
    }

    /// The value that a code stands for, or the error for a code that stands for none.
    pub open spec fn spec_from_code(v: u8) -> Result<StatusType, TlsError> {
        match v {
            0x01 => Ok(StatusType::Ocsp),
            _ => Err(TlsError::Unknown("status type")),
        }
    }

    /// The wire codes of the named values, as the protocol's registry fixes
    /// them: each value is written as its number, and a code is read as that
    /// value exactly when it is that number.
    pub proof fn lemma_wire_codes(c: u8)
        ensures
            StatusType::Ocsp.spec_code() == 0x01,
            (StatusType::spec_from_code(c) == Ok::<_, TlsError>(StatusType::Ocsp)) <==> c == 0x01,
    {
    }

    /// A value written as its code is read back as itself, and a code that
    /// is read as a value is that value's code.
    pub proof fn lemma_code_roundtrip(self, v: u8)
        ensures
            StatusType::spec_from_code(self.spec_code()) == Ok::<_, TlsError>(self),
            StatusType::spec_from_code(v) matches Ok(x) ==> x.spec_code() == v,
    {
    }

    /// The code that stands for the value on the wire.
    pub fn code(self) -> (res: u8)
        ensures
            res == self.spec_code(),
    {
        match self {
            StatusType::Ocsp => 0x01,
        }
    }

    /// The value that a code stands for, or the error for a code that stands for none.
    pub fn try_from(value: u8) -> (res: Result<Self, TlsError>)
        ensures
            res == StatusType::spec_from_code(value),
    {
        match value {
            0x01 => Ok(StatusType::Ocsp),
            _ => Err(TlsError::Unknown("status type")),
        }
    }
}

} // verus!
