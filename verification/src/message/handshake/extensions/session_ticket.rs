//! The `session_ticket` extension.
use vstd::prelude::*;

use bytes::{Bytes, BytesMut};

use crate::buffer::{
    b_as_slice, b_new, be16, bm_get_u16, bm_len, bm_put_slice, bm_put_u16, bytes_mut_view,
    bytes_view, read_be16,
};
use crate::error::{TlsError, TlsErrorView, TlsResult};
use crate::message::serialize::{Serialize, SpecResult, take_bytes};

verus! {

broadcast use crate::seqs::group_codec;

/// A session ticket after a 16-bit byte count; an extension without data
/// stands for an empty ticket.
#[derive(Debug, Clone, PartialEq, Eq)]
pub struct SessionTicketPayload {
    pub ticket: Bytes,
}

pub struct SessionTicketPayloadView {
    pub ticket: Seq<u8>,
}

impl View for SessionTicketPayload {
    type V = SessionTicketPayloadView;

    open spec fn view(&self) -> SessionTicketPayloadView {
        SessionTicketPayloadView { ticket: bytes_view(self.ticket) }
    }
}

impl Serialize for SessionTicketPayload {
    open spec fn spec_encode(v: SessionTicketPayloadView) -> Seq<u8> {
        be16(v.ticket.len() as u16) + v.ticket
    }

    open spec fn spec_decode(s: Seq<u8>) -> SpecResult<SessionTicketPayloadView> {
        if s.len() == 0 {
            Ok((SessionTicketPayloadView { ticket: Seq::empty() }, s))
        } else if s.len() < 2 {
            Err(TlsErrorView::Incomplete((2 - s.len()) as usize))
        } else {
            let n = read_be16(s, 0) as int;
            let t = s.skip(2);
            if t.len() < n {
                Err(TlsErrorView::Incomplete((n - t.len()) as usize))
            } else {
                Ok((SessionTicketPayloadView { ticket: t.take(n) }, t.skip(n)))
            }
        }
    }

    open spec fn spec_wf(v: SessionTicketPayloadView) -> bool {
        v.ticket.len() <= 0xFFFF
    }

    open spec fn spec_self_delimiting() -> bool {
        true
    }

    open spec fn spec_consumes() -> bool {
        false
    }

    proof fn lemma_decode_suffix(s: Seq<u8>) {
    }

    proof fn lemma_roundtrip(v: SessionTicketPayloadView, rest: Seq<u8>) {
        let b = v.ticket;
        let s = Self::spec_encode(v) + rest;
        assert(s.skip(2) =~= b + rest);
        assert((b + rest).take(b.len() as int) =~= b);
        assert((b + rest).skip(b.len() as int) =~= rest);
    }

    fn encode(&self, buf: &mut BytesMut) {
        let data = b_as_slice(&self.ticket);
        bm_put_u16(buf, data.len() as u16);
        bm_put_slice(buf, data);
        assert(bytes_mut_view(*buf) =~= bytes_mut_view(*old(buf)) + Self::spec_encode(self@));
    }

    fn decode(buf: &mut BytesMut) -> (res: TlsResult<Self>) {
        let remaining = bm_len(buf);
        if remaining == 0 {
            return Ok(Self { ticket: b_new() });
        }
        if remaining < 2 {
            return Err(TlsError::Incomplete(2 - remaining));
        }
        let len = bm_get_u16(buf) as usize;
        let ticket = take_bytes(buf, len)?;
        Ok(SessionTicketPayload { ticket })
    }
}

} // verus!
