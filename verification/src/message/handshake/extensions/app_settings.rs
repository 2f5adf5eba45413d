//! The `application_settings` extension: settings for one protocol.
use vstd::prelude::*;

use bytes::{Bytes, BytesMut};

use crate::buffer::{
    b_as_slice, be16, bm_get_u16, bm_get_u8, bm_len, bm_put_slice, bm_put_u16, bm_put_u8,
    bm_split_to, bytes_mut_view, bytes_view, read_be16,
};
use crate::error::{TlsError, TlsErrorView, TlsResult};
use crate::message::handshake::extensions::alpn::AlpnProtocols;
use crate::message::serialize::{Serialize, SpecResult, take_bytes};

verus! {

broadcast use crate::seqs::group_codec;

/// The settings that a peer sends for an application protocol.
#[derive(Debug, PartialEq, Eq)]
pub struct ApplicationSettingsPayload {
    pub protocol: AlpnProtocols,  // length = u8
    pub settings: Bytes,  // length = u16
}

pub struct ApplicationSettingsPayloadView {
    pub protocol: AlpnProtocols,
    pub settings: Seq<u8>,
}

impl View for ApplicationSettingsPayload {
    type V = ApplicationSettingsPayloadView;

    open spec fn view(&self) -> ApplicationSettingsPayloadView {
        ApplicationSettingsPayloadView { protocol: self.protocol, settings: bytes_view(self.settings) }
    }
}

impl Serialize for ApplicationSettingsPayload {
    open spec fn spec_encode(v: ApplicationSettingsPayloadView) -> Seq<u8> {
        seq![v.protocol.spec_bytes().len() as u8] + v.protocol.spec_bytes() + be16(v.settings.len() as u16)
            + v.settings
    }

    open spec fn spec_decode(s: Seq<u8>) -> SpecResult<ApplicationSettingsPayloadView> {
        if s.len() < 1 {
            Err(TlsErrorView::Incomplete((1 - s.len()) as usize))
        } else {
            let n = s[0] as int;
            let t = s.skip(1);
            if t.len() < n + 2 {
                Err(TlsErrorView::Incomplete((n + 2 - t.len()) as usize))
            } else {
                match AlpnProtocols::spec_from_bytes(t.take(n)) {
                    Err(e) => Err(e@),
                    Ok(protocol) => {
                        let m = read_be16(t, n) as int;
                        let u = t.skip(n + 2);
                        if u.len() < m {
                            Err(TlsErrorView::Incomplete((m - u.len()) as usize))
                        } else {
                            Ok((ApplicationSettingsPayloadView { protocol, settings: u.take(m) }, u.skip(m)))
                        }
                    },
                }
            }
        }
    }

    open spec fn spec_wf(v: ApplicationSettingsPayloadView) -> bool {
        v.settings.len() <= 0xFFFF
    }

    open spec fn spec_self_delimiting() -> bool {
        true
    }

    open spec fn spec_consumes() -> bool {
        true
    }

    proof fn lemma_decode_suffix(s: Seq<u8>) {
    }

    proof fn lemma_roundtrip(v: ApplicationSettingsPayloadView, rest: Seq<u8>) {
        v.protocol.lemma_bytes_roundtrip(Seq::empty());
        let b = v.protocol.spec_bytes();
        let n = b.len() as int;
        let s = Self::spec_encode(v) + rest;
        let t = s.skip(1);
        assert(t =~= b + be16(v.settings.len() as u16) + v.settings + rest);
        assert(t.take(n) =~= b);
        assert(t.skip(n + 2) =~= v.settings + rest);
        assert((v.settings + rest).take(v.settings.len() as int) =~= v.settings);
        assert((v.settings + rest).skip(v.settings.len() as int) =~= rest);
    }

    fn encode(&self, buf: &mut BytesMut) {
        let proto_bytes = self.protocol.as_ref();
        bm_put_u8(buf, proto_bytes.len() as u8);
        bm_put_slice(buf, proto_bytes);
        let settings = b_as_slice(&self.settings);
        bm_put_u16(buf, settings.len() as u16);
        bm_put_slice(buf, settings);
        assert(bytes_mut_view(*buf) =~= bytes_mut_view(*old(buf)) + Self::spec_encode(self@));
    }

    fn decode(buf: &mut BytesMut) -> (res: TlsResult<Self>) {
        let remaining = bm_len(buf);
        if remaining < 1 {
            return Err(TlsError::Incomplete(1 - remaining));
        }
        let proto_len = bm_get_u8(buf) as usize;
        let ghost t = bytes_mut_view(*buf);
        let remaining = bm_len(buf);
        if remaining < proto_len + 2 {
            return Err(TlsError::Incomplete(proto_len + 2 - remaining));
        }
        let protocol_bytes = bm_split_to(buf, proto_len);
        let protocol = AlpnProtocols::try_from(protocol_bytes)?;
        assert(read_be16(bytes_mut_view(*buf), 0) == read_be16(t, proto_len as int));
        let settings_len = bm_get_u16(buf) as usize;
        let settings = take_bytes(buf, settings_len)?;
        Ok(Self { protocol, settings })
    }
}

} // verus!
