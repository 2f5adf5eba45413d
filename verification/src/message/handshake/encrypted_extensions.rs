//! The `EncryptedExtensions` handshake message.
use vstd::prelude::*;

use bytes::BytesMut;

use crate::error::TlsResult;
use crate::message::handshake::extensions::extension::{Extension, ExtensionView};
use crate::message::serialize::{
    Serialize, SpecResult, all_wf, decode_list16, encode_list16, lemma_list16_roundtrip,
    spec_decode_list16, spec_encode_list, spec_prefixed16, views,
};

verus! {

broadcast use crate::seqs::group_codec;

/// The extensions that a server sends under encryption, after a 16-bit byte count.
#[derive(Debug, PartialEq, Eq)]
pub struct EncryptedExtensionsPayload {
    pub extensions: Vec<Extension>,  // length = u16
}

pub struct EncryptedExtensionsPayloadView {
    pub extensions: Seq<ExtensionView>,
}

impl View for EncryptedExtensionsPayload {
    type V = EncryptedExtensionsPayloadView;

    open spec fn view(&self) -> EncryptedExtensionsPayloadView {
        EncryptedExtensionsPayloadView { extensions: views(self.extensions@) }
    }
}

impl Serialize for EncryptedExtensionsPayload {
    open spec fn spec_encode(v: EncryptedExtensionsPayloadView) -> Seq<u8> {
        spec_prefixed16(spec_encode_list::<Extension>(v.extensions))
    }

    open spec fn spec_decode(s: Seq<u8>) -> SpecResult<EncryptedExtensionsPayloadView> {
        match spec_decode_list16::<Extension>(s) {
            Ok((extensions, rest)) => Ok((EncryptedExtensionsPayloadView { extensions }, rest)),
            Err(e) => Err(e),
        }
    }

    open spec fn spec_wf(v: EncryptedExtensionsPayloadView) -> bool {
        &&& all_wf::<Extension>(v.extensions)
        &&& spec_encode_list::<Extension>(v.extensions).len() <= 0xFFFF
    }

    open spec fn spec_self_delimiting() -> bool {
        true
    }

    open spec fn spec_consumes() -> bool {
        true
    }

    proof fn lemma_decode_suffix(s: Seq<u8>) {
    }

    proof fn lemma_roundtrip(v: EncryptedExtensionsPayloadView, rest: Seq<u8>) {
        lemma_list16_roundtrip::<Extension>(v.extensions, rest);
    }

    fn encode(&self, buf: &mut BytesMut) {
        encode_list16(&self.extensions, buf);
    }

    fn decode(buf: &mut BytesMut) -> (res: TlsResult<Self>) {
        let extensions = decode_list16::<Extension>(buf)?;
        Ok(Self { extensions })
    }
}

} // verus!
