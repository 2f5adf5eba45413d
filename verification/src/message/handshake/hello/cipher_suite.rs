//! Cipher suites, and what each supported one is made of.
use vstd::prelude::*;

use ring::digest;
use ring::hkdf;

use crate::crypto::{
    digest_id, digest_output_len, digest_sha256, digest_sha384, hkdf_digest_id, hkdf_len, hkdf_sha256, hkdf_sha384,
};
use crate::error::{TlsError, TlsErrorView, TlsResult};
use crate::message::handshake::grease::{GreasePayloadU16, is_grease_u16_spec};

use bytes::BytesMut;

use crate::buffer::{be16, bm_get_u16, bm_len, bm_put_u16, bytes_mut_view, read_be16};
use crate::message::serialize::{Serialize, SpecResult};

verus! {

broadcast use crate::seqs::group_codec;

/// A cipher suite as it appears on the wire.
#[derive(Debug, Clone, Copy, PartialEq, Eq, Structural)]
pub enum CipherSuite {
    TlsAes128GcmSha256,
    TlsAes256GcmSha384,
    TlsChacha20Poly1305Sha256,
    TlsAes128CcmSha256,
    TlsAes128Ccm8Sha256,
    Grease(GreasePayloadU16),
    Unknown(u16),
}

impl CipherSuite {
    /// The code that stands for the value on the wire.
    pub open spec fn spec_code(self) -> u16 {
        match self {
            CipherSuite::TlsAes128GcmSha256 => 0x1301,
            CipherSuite::TlsAes256GcmSha384 => 0x1302,
            CipherSuite::TlsChacha20Poly1305Sha256 => 0x1303,
            CipherSuite::TlsAes128CcmSha256 => 0x1304,
            CipherSuite::TlsAes128Ccm8Sha256 => 0x1305,
            CipherSuite::Grease(g) => g.grease,
            CipherSuite::Unknown(v) => v,
        }
    }

    /// The value that a code stands for.
    pub open spec fn spec_from_code(v: u16) -> CipherSuite {
        match v {
            0x1301 => CipherSuite::TlsAes128GcmSha256,
            0x1302 => CipherSuite::TlsAes256GcmSha384,
            0x1303 => CipherSuite::TlsChacha20Poly1305Sha256,
            0x1304 => CipherSuite::TlsAes128CcmSha256,
            0x1305 => CipherSuite::TlsAes128Ccm8Sha256,
            _ => if is_grease_u16_spec(v) {
                CipherSuite::Grease(GreasePayloadU16 { grease: v })
            } else {
                CipherSuite::Unknown(v)
            },
        }
    }

    /// The wire codes of the named values, as the protocol's registry fixes
    /// them: each value is written as its number, and a code is read as that
    /// value exactly when it is that number.
    pub proof fn lemma_wire_codes(c: u16)
        ensures
            CipherSuite::TlsAes128GcmSha256.spec_code() == 0x1301,
            CipherSuite::TlsAes256GcmSha384.spec_code() == 0x1302,
            CipherSuite::TlsChacha20Poly1305Sha256.spec_code() == 0x1303,
            CipherSuite::TlsAes128CcmSha256.spec_code() == 0x1304,
            CipherSuite::TlsAes128Ccm8Sha256.spec_code() == 0x1305,
            (CipherSuite::spec_from_code(c) == CipherSuite::TlsAes128GcmSha256) <==> c == 0x1301,
            (CipherSuite::spec_from_code(c) == CipherSuite::TlsAes256GcmSha384) <==> c == 0x1302,
            (CipherSuite::spec_from_code(c) == CipherSuite::TlsChacha20Poly1305Sha256) <==> c == 0x1303,
            (CipherSuite::spec_from_code(c) == CipherSuite::TlsAes128CcmSha256) <==> c == 0x1304,
            (CipherSuite::spec_from_code(c) == CipherSuite::TlsAes128Ccm8Sha256) <==> c == 0x1305,
    {
    }

    /// The values that are read back as written: those whose code is not
    /// taken by another variant.
    pub open spec fn spec_canonical(self) -> bool {
        CipherSuite::spec_from_code(self.spec_code()) == self
    }

    /// Every code is read as a value whose code it is; a value that is not
    /// `Unknown` with a code of another variant is read back as itself.
    pub proof fn lemma_code_roundtrip(self, v: u16)
        ensures
            CipherSuite::spec_from_code(v).spec_code() == v,
            CipherSuite::spec_from_code(v).spec_canonical(),
            self.spec_canonical() <==> match self {
                CipherSuite::Grease(g) => is_grease_u16_spec(g.grease),
                CipherSuite::Unknown(u) => CipherSuite::spec_from_code(u) is Unknown,
                _ => true,
            },
    {
    }
}

impl View for CipherSuite {
    type V = CipherSuite;

    open spec fn view(&self) -> CipherSuite {
        *self
    }
}

impl CipherSuite {
    /// The code that stands for the value on the wire.
    pub fn code(self) -> (res: u16)
        ensures
            res == self.spec_code(),
    {
        let value = self;
        match value {
            CipherSuite::TlsAes128GcmSha256 => 0x1301,
            CipherSuite::TlsAes256GcmSha384 => 0x1302,
            CipherSuite::TlsChacha20Poly1305Sha256 => 0x1303,
            CipherSuite::TlsAes128CcmSha256 => 0x1304,
            CipherSuite::TlsAes128Ccm8Sha256 => 0x1305,
            CipherSuite::Grease(g) => g.grease,
            CipherSuite::Unknown(v) => v,
        }
    }
}

impl CipherSuite {
    /// The value that a code stands for.
    pub fn try_from(value: u16) -> (res: Result<Self, TlsError>)
        ensures
            res == Ok::<_, TlsError>(CipherSuite::spec_from_code(value)),
    {
        match value {
            0x1301 => Ok(CipherSuite::TlsAes128GcmSha256),
            0x1302 => Ok(CipherSuite::TlsAes256GcmSha384),
            0x1303 => Ok(CipherSuite::TlsChacha20Poly1305Sha256),
            0x1304 => Ok(CipherSuite::TlsAes128CcmSha256),
            0x1305 => Ok(CipherSuite::TlsAes128Ccm8Sha256),
            _ => match GreasePayloadU16::is_grease(value) {
                Ok(g) => Ok(CipherSuite::Grease(g)),
                Err(_) => Ok(CipherSuite::Unknown(value)),
            },
        }
    }
}

impl CipherSuite {
    /// The suite as one that this library implements, if it is one.
    pub fn to_supported(&self) -> (res: Option<SupportedCipherSuite>)
        ensures
            res == self.to_supported_spec(),
    {
        match self {
            CipherSuite::TlsChacha20Poly1305Sha256 => Some(SupportedCipherSuite::ChaCha20),
            CipherSuite::TlsAes128GcmSha256 => Some(SupportedCipherSuite::Aes128),
            CipherSuite::TlsAes256GcmSha384 => Some(SupportedCipherSuite::Aes256),
            _ => None,
        }
    }

    /// What `to_supported` returns.
    pub open spec fn to_supported_spec(self) -> Option<SupportedCipherSuite> {
        match self {
            CipherSuite::TlsChacha20Poly1305Sha256 => Some(SupportedCipherSuite::ChaCha20),
            CipherSuite::TlsAes128GcmSha256 => Some(SupportedCipherSuite::Aes128),
            CipherSuite::TlsAes256GcmSha384 => Some(SupportedCipherSuite::Aes256),
            _ => None,
        }
    }
}

/// The cipher suites that this library implements.
#[derive(Debug, Clone, Copy, PartialEq, Eq, Structural)]
pub enum SupportedCipherSuite {
    ChaCha20,
    Aes128,
    Aes256,
}

/// A ChaCha20-Poly1305 cipher: its key and base IV.
#[derive(Debug, Clone, Copy, PartialEq, Eq)]
pub struct ChaCha20 {
    pub key: [u8; 32],
    pub iv: [u8; 12],
}

impl ChaCha20 {
    pub fn new(key: [u8; 32], iv: [u8; 12]) -> (res: Self)
        ensures
            res.key == key,
            res.iv == iv,
    {
        ChaCha20 { key, iv }
    }
}

/// An AES-128-GCM cipher: its key and base IV.
#[derive(Debug, Clone, Copy, PartialEq, Eq)]
pub struct Aes128 {
    pub key: [u8; 16],
    pub iv: [u8; 12],
}

impl Aes128 {
    pub fn new(key: [u8; 16], iv: [u8; 12]) -> (res: Self)
        ensures
            res.key == key,
            res.iv == iv,
    {
        Aes128 { key, iv }
    }
}

/// An AES-256-GCM cipher: its key and base IV.
#[derive(Debug, Clone, Copy, PartialEq, Eq)]
pub struct Aes256 {
    pub key: [u8; 32],
    pub iv: [u8; 12],
}

impl Aes256 {
    pub fn new(key: [u8; 32], iv: [u8; 12]) -> (res: Self)
        ensures
            res.key == key,
            res.iv == iv,
    {
        Aes256 { key, iv }
    }
}

/// A record cipher of one of the supported suites.
#[derive(Debug, Clone, Copy, PartialEq, Eq)]
pub enum AnyCipher {
    ChaCha20Poly1305(ChaCha20),
    Aes128Gcm(Aes128),
    Aes256Gcm(Aes256),
}

/// The bytes of `v` as an array of `N` bytes, if `v` has `N` bytes.
fn to_array<const N: usize>(v: &Vec<u8>) -> (res: Option<[u8; N]>)
    ensures
        res is Some <==> v@.len() == N,
        res matches Some(a) ==> a@ == v@,
{
    if v.len() != N {
        return None;
    }
    let mut a: [u8; N] = [0u8; N];
    let mut i: usize = 0;
    while i < N
        invariant
            v@.len() == N,
            0 <= i <= N,
            a@.len() == N,
            forall|j: int| 0 <= j < i ==> a@[j] == v@[j],
        decreases N - i,
    {
        a[i] = v[i];
        i = i + 1;
    }
    assert(a@ =~= v@);
    Some(a)
}

impl SupportedCipherSuite {
    /// The suite's code point.
    pub fn to_unsupported(&self) -> (res: CipherSuite)
        ensures
            res == self.to_unsupported_spec(),
    {
        match self {
            SupportedCipherSuite::Aes128 => CipherSuite::TlsAes128GcmSha256,
            SupportedCipherSuite::Aes256 => CipherSuite::TlsAes256GcmSha384,
            SupportedCipherSuite::ChaCha20 => CipherSuite::TlsChacha20Poly1305Sha256,
        }
    }

    /// What `to_unsupported` returns.
    pub open spec fn to_unsupported_spec(self) -> CipherSuite {
        match self {
            SupportedCipherSuite::Aes128 => CipherSuite::TlsAes128GcmSha256,
            SupportedCipherSuite::Aes256 => CipherSuite::TlsAes256GcmSha384,
            SupportedCipherSuite::ChaCha20 => CipherSuite::TlsChacha20Poly1305Sha256,
        }
    }

    /// A supported suite is found again from its code point, and a code
    /// point has a supported suite exactly when it is one's code point.
    pub proof fn lemma_supported_roundtrip(self, c: CipherSuite)
        ensures
            self.to_unsupported_spec().to_supported_spec() == Some(self),
            c.to_supported_spec() matches Some(s) ==> s.to_unsupported_spec() == c,
    {
    }

    /// The length of the secrets that the key schedule derives: the hash length.
    pub fn hkdf_based_key_len(&self) -> (res: usize)
        ensures
            res == self.hash_len_spec(),
    {
        match self {
            SupportedCipherSuite::ChaCha20 => 32,
            SupportedCipherSuite::Aes128 => 32,
            SupportedCipherSuite::Aes256 => 48,
        }
    }

    /// The length of the record cipher's key.
    pub fn true_key_len(&self) -> (res: usize)
        ensures
            res == self.true_key_len_spec(),
    {
        match self {
            SupportedCipherSuite::ChaCha20 => 32,
            SupportedCipherSuite::Aes128 => 16,
            SupportedCipherSuite::Aes256 => 32,
        }
    }

    /// What `true_key_len` returns.
    pub open spec fn true_key_len_spec(self) -> usize {
        match self {
            SupportedCipherSuite::ChaCha20 => 32,
            SupportedCipherSuite::Aes128 => 16,
            SupportedCipherSuite::Aes256 => 32,
        }
    }

    /// The length of the record cipher's IV.
    pub fn iv_len(&self) -> (res: usize)
        ensures
            res == 12,
    {
        12
    }

    /// The name of the suite's hash function: SHA-256 for ChaCha20-Poly1305
    /// and AES-128-GCM, SHA-384 for AES-256-GCM.
    pub open spec fn hash_id_spec(self) -> Seq<char> {
        match self {
            SupportedCipherSuite::ChaCha20 => "SHA256"@,
            SupportedCipherSuite::Aes128 => "SHA256"@,
            SupportedCipherSuite::Aes256 => "SHA384"@,
        }
    }

    /// The suite's hash function, as a `ring` digest algorithm: `ring`'s
    /// SHA-256 or SHA-384, whose output is as long as the suite's hash.
    pub fn hash_algorithm(&self) -> (res: &'static digest::Algorithm)
        ensures
            digest_id(*res) == self.hash_id_spec(),
            digest_output_len(*res) == self.hash_len_spec(),
    {
        match self {
            SupportedCipherSuite::ChaCha20 => digest_sha256(),
            SupportedCipherSuite::Aes128 => digest_sha256(),
            SupportedCipherSuite::Aes256 => digest_sha384(),
        }
    }

    /// The length of the suite's hash.
    pub fn hash_len(&self) -> (res: usize)
        ensures
            res == self.hash_len_spec(),
    {
        match self {
            SupportedCipherSuite::ChaCha20 => 32,
            SupportedCipherSuite::Aes128 => 32,
            SupportedCipherSuite::Aes256 => 48,
        }
    }

    /// What `hash_len` returns.
    pub open spec fn hash_len_spec(self) -> usize {
        match self {
            SupportedCipherSuite::ChaCha20 => 32,
            SupportedCipherSuite::Aes128 => 32,
            SupportedCipherSuite::Aes256 => 48,
        }
    }

    /// The suite's HKDF, as a `ring` HKDF algorithm: HKDF over the suite's
    /// hash function, whose key length is the suite's hash length.
    pub fn hkdf_algorithm(&self) -> (res: hkdf::Algorithm)
        ensures
            hkdf_digest_id(res) == self.hash_id_spec(),
            hkdf_len(res) == self.hash_len_spec(),
    {
        match self {
            SupportedCipherSuite::ChaCha20 => hkdf_sha256(),
            SupportedCipherSuite::Aes128 => hkdf_sha256(),
            SupportedCipherSuite::Aes256 => hkdf_sha384(),
        }
    }

    /// The suite's record cipher with the given key and IV, or an error when
    /// the key or the IV has the wrong length (the key is checked first).
    pub fn create_cipher(&self, key: Vec<u8>, iv: Vec<u8>) -> (res: TlsResult<AnyCipher>)
        ensures
            key@.len() != self.true_key_len_spec() ==> (res matches Err(e) && e@ == TlsErrorView::Crypto("invalid key length"@)),
            key@.len() == self.true_key_len_spec() && iv@.len() != 12 ==> (res matches Err(e) && e@ == TlsErrorView::Crypto("invalid iv length"@)),
            key@.len() == self.true_key_len_spec() && iv@.len() == 12 ==> (res matches Ok(c) && match (self, c) {
                (SupportedCipherSuite::ChaCha20, AnyCipher::ChaCha20Poly1305(k)) => k.key@ == key@ && k.iv@ == iv@,
                (SupportedCipherSuite::Aes128, AnyCipher::Aes128Gcm(k)) => k.key@ == key@ && k.iv@ == iv@,
                (SupportedCipherSuite::Aes256, AnyCipher::Aes256Gcm(k)) => k.key@ == key@ && k.iv@ == iv@,
                _ => false,
            }),
    {
        match self {
            SupportedCipherSuite::ChaCha20 => {
                let key_arr: [u8; 32] = match to_array(&key) {
                    Some(a) => a,
                    None => return Err(TlsError::Crypto("invalid key length".to_owned())),
                };
                let iv_arr: [u8; 12] = match to_array(&iv) {
                    Some(a) => a,
                    None => return Err(TlsError::Crypto("invalid iv length".to_owned())),
                };
                Ok(AnyCipher::ChaCha20Poly1305(ChaCha20::new(key_arr, iv_arr)))
            },
            SupportedCipherSuite::Aes128 => {
                let key_arr: [u8; 16] = match to_array(&key) {
                    Some(a) => a,
                    None => return Err(TlsError::Crypto("invalid key length".to_owned())),
                };
                let iv_arr: [u8; 12] = match to_array(&iv) {
                    Some(a) => a,
                    None => return Err(TlsError::Crypto("invalid iv length".to_owned())),
                };
                Ok(AnyCipher::Aes128Gcm(Aes128::new(key_arr, iv_arr)))
            },
            SupportedCipherSuite::Aes256 => {
                let key_arr: [u8; 32] = match to_array(&key) {
                    Some(a) => a,
                    None => return Err(TlsError::Crypto("invalid key length".to_owned())),
                };
                let iv_arr: [u8; 12] = match to_array(&iv) {
                    Some(a) => a,
                    None => return Err(TlsError::Crypto("invalid iv length".to_owned())),
                };
                Ok(AnyCipher::Aes256Gcm(Aes256::new(key_arr, iv_arr)))
            },
        }
    }
}

impl Serialize for CipherSuite {
    open spec fn spec_encode(v: CipherSuite) -> Seq<u8> {
        be16(v.spec_code())
    }

    open spec fn spec_decode(s: Seq<u8>) -> SpecResult<CipherSuite> {
        if s.len() < 2 {
            Err(TlsErrorView::Incomplete((2 - s.len()) as usize))
        } else {
            Ok((CipherSuite::spec_from_code(read_be16(s, 0)), s.skip(2)))
        }
    }

    open spec fn spec_wf(v: CipherSuite) -> bool {
        v.spec_canonical()
    }

    open spec fn spec_self_delimiting() -> bool {
        true
    }

    open spec fn spec_consumes() -> bool {
        true
    }

    proof fn lemma_decode_suffix(s: Seq<u8>) {
    }

    proof fn lemma_roundtrip(v: CipherSuite, rest: Seq<u8>) {
        v.lemma_code_roundtrip(0);
        let s = Self::spec_encode(v) + rest;
        assert(s.skip(2) =~= rest);
    }

    fn encode(&self, buf: &mut BytesMut) {
        bm_put_u16(buf, self.code());
        assert(bytes_mut_view(*buf) =~= bytes_mut_view(*old(buf)) + Self::spec_encode(self@));
    }

    fn decode(buf: &mut BytesMut) -> (res: TlsResult<Self>) {
        let remaining = bm_len(buf);
        if remaining < 2 {
            return Err(TlsError::Incomplete(2 - remaining));
        }
        CipherSuite::try_from(bm_get_u16(buf))
    }
}

} // verus!
