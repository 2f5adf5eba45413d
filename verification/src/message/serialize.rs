//! The wire codec that every message part implements, and the helpers that
//! compose parts into lists and length-prefixed blocks.
use vstd::prelude::*;

use bytes::{Bytes, BytesMut};

use crate::buffer::{
    be16, bm_as_slice, bm_freeze, bm_get_u16, bm_get_u8, bm_len, bm_new, bm_put_slice, bm_put_u16,
    bm_put_u8, bm_split_to, bytes_mut_view, bytes_view, read_be16,
};
use crate::error::{TlsError, TlsErrorView, TlsResult};
use crate::seqs::is_suffix;

verus! {

/// What decoding finds at the start of some bytes: the value read and the
/// bytes that follow it, or the error that stops it.
pub type SpecResult<V> = Result<(V, Seq<u8>), TlsErrorView>;

broadcast use crate::seqs::group_codec;

/// An exec decoding result agrees with the spec: the same value (by view)
/// and the same remaining bytes, or the same error.
pub open spec fn decoded_as<T: View>(spec: SpecResult<T::V>, res: TlsResult<T>, after: Seq<u8>) -> bool {
    match spec {
        Ok((v, rest)) => res matches Ok(x) && x@ == v && after == rest,
        Err(e) => res matches Err(x) && x@ == e,
    }
}

/// A part of a TLS message that is written to and read from a byte buffer.
pub trait Serialize: Sized + View {
    /// The bytes that encode a value.
    spec fn spec_encode(v: Self::V) -> Seq<u8>;

    /// What decoding finds at the start of `s`.
    spec fn spec_decode(s: Seq<u8>) -> SpecResult<Self::V>;

    /// The values that decoding gives back as they were encoded.
    spec fn spec_wf(v: Self::V) -> bool;

    /// Decoding reads exactly the encoding, whatever follows it; false for a
    /// part that takes all of its input.
    spec fn spec_self_delimiting() -> bool;

    /// Every successful decoding reads at least one byte.
    spec fn spec_consumes() -> bool;

    /// Decoding reads a prefix of its input.
    proof fn lemma_decode_suffix(s: Seq<u8>)
        ensures
            Self::spec_decode(s) matches Ok((v, rest)) ==> is_suffix(rest, s) && (
            Self::spec_consumes() ==> rest.len() < s.len()),
    ;

    /// Decoding an encoding gives the value back, and the bytes after it.
    proof fn lemma_roundtrip(v: Self::V, rest: Seq<u8>)
        requires
            Self::spec_wf(v),
            Self::spec_self_delimiting() || rest.len() == 0,
        ensures
            Self::spec_decode(Self::spec_encode(v) + rest) == Ok::<_, TlsErrorView>((v, rest)),
    ;

    /// Appends the encoding of `self` to `buf`.
    fn encode(&self, buf: &mut BytesMut)
        requires
            bytes_mut_view(*old(buf)).len() + Self::spec_encode(self@).len() <= isize::MAX,
        ensures
            bytes_mut_view(*final(buf)) == bytes_mut_view(*old(buf)) + Self::spec_encode(self@),
    ;

    /// Reads a value from the start of `buf`, leaving what follows it.
    fn decode(buf: &mut BytesMut) -> (res: TlsResult<Self>)
        ensures
            decoded_as(Self::spec_decode(bytes_mut_view(*old(buf))), res, bytes_mut_view(*final(buf))),
            is_suffix(bytes_mut_view(*final(buf)), bytes_mut_view(*old(buf))),
    ;
}

/// The views of a sequence of values.
pub open spec fn views<T: View>(s: Seq<T>) -> Seq<T::V> {
    s.map_values(|x: T| x@)
}

/// The views of a vector after a push are the old views and the new one.
pub proof fn lemma_views_push<T: View>(s: Seq<T>, x: T)
    ensures
        views(s.push(x)) == views(s).push(x@),
{
    assert(views(s.push(x)) =~= views(s).push(x@));
}

/// Prepends decoded values to the outcome of decoding the rest.
pub open spec fn prepend<V>(done: Seq<V>, r: Result<Seq<V>, TlsErrorView>) -> Result<Seq<V>, TlsErrorView> {
    match r {
        Ok(vs) => Ok(done + vs),
        Err(e) => Err(e),
    }
}

/// Decoding values one after another until the bytes run out.
pub open spec fn spec_decode_list<T: Serialize>(s: Seq<u8>) -> Result<Seq<T::V>, TlsErrorView>
    decreases s.len(),
{
    if s.len() == 0 {
        Ok(Seq::empty())
    } else {
        match T::spec_decode(s) {
            Err(e) => Err(e),
            Ok((v, rest)) => if rest.len() < s.len() {
                prepend(seq![v], spec_decode_list::<T>(rest))
            } else {
                Ok(seq![v])
            },
        }
    }
}

/// Decoding `n` values one after another.
pub open spec fn spec_decode_n<T: Serialize>(s: Seq<u8>, n: nat) -> SpecResult<Seq<T::V>>
    decreases n,
{
    if n == 0 {
        Ok((Seq::empty(), s))
    } else {
        match T::spec_decode(s) {
            Err(e) => Err(e),
            Ok((v, rest)) => match spec_decode_n::<T>(rest, (n - 1) as nat) {
                Ok((vs, rest2)) => Ok((seq![v] + vs, rest2)),
                Err(e) => Err(e),
            },
        }
    }
}

/// The encodings of values, one after another.
pub open spec fn spec_encode_list<T: Serialize>(vs: Seq<T::V>) -> Seq<u8>
    decreases vs.len(),
{
    if vs.len() == 0 {
        Seq::empty()
    } else {
        T::spec_encode(vs[0]) + spec_encode_list::<T>(vs.drop_first())
    }
}

/// The encoding of a list is the encoding of its first part followed by
/// that of the rest.
pub proof fn lemma_encode_list_append<T: Serialize>(a: Seq<T::V>, b: Seq<T::V>)
    ensures
        spec_encode_list::<T>(a + b) == spec_encode_list::<T>(a) + spec_encode_list::<T>(b),
    decreases a.len(),
{
    if a.len() == 0 {
        assert(a + b =~= b);
        assert(spec_encode_list::<T>(a) + spec_encode_list::<T>(b) =~= spec_encode_list::<T>(b));
    } else {
        assert((a + b).drop_first() =~= a.drop_first() + b);
        lemma_encode_list_append::<T>(a.drop_first(), b);
        assert(spec_encode_list::<T>(a + b) =~= spec_encode_list::<T>(a) + spec_encode_list::<T>(b));
    }
}

/// Encoding a list that holds one more value appends that value's encoding.
pub proof fn lemma_encode_list_push<T: Serialize>(a: Seq<T::V>, v: T::V)
    ensures
        spec_encode_list::<T>(a.push(v)) == spec_encode_list::<T>(a) + T::spec_encode(v),
{
    lemma_encode_list_append::<T>(a, seq![v]);
    assert(a + seq![v] =~= a.push(v));
    assert(seq![v].drop_first() =~= Seq::<T::V>::empty());
    assert(spec_encode_list::<T>(Seq::<T::V>::empty()) == Seq::<u8>::empty());
    assert(seq![v][0] == v);
    assert(spec_encode_list::<T>(seq![v]) =~= T::spec_encode(v));
}

/// When every value's encoding has `k` bytes, a list of `n` values is
/// encoded in `n * k` bytes.
pub proof fn lemma_encode_list_len<T: Serialize>(vs: Seq<T::V>, k: nat)
    requires
        forall|v: T::V| #[trigger] T::spec_encode(v).len() == k,
    ensures
        spec_encode_list::<T>(vs).len() == vs.len() * k,
    decreases vs.len(),
{
    if vs.len() > 0 {
        lemma_encode_list_len::<T>(vs.drop_first(), k);
        assert(spec_encode_list::<T>(vs).len() == k + vs.drop_first().len() * k);
        assert(vs.len() * k == k + (vs.len() - 1) * k) by (nonlinear_arith);
    }
}

/// Every value of a list is one that decoding gives back.
pub open spec fn all_wf<T: Serialize>(vs: Seq<T::V>) -> bool {
    forall|i: int| 0 <= i < vs.len() ==> T::spec_wf(#[trigger] vs[i])
}

/// Decoding the encodings of values until the bytes run out gives the values back.
pub proof fn lemma_list_roundtrip<T: Serialize>(vs: Seq<T::V>)
    requires
        all_wf::<T>(vs),
        T::spec_self_delimiting(),
        T::spec_consumes(),
    ensures
        spec_decode_list::<T>(spec_encode_list::<T>(vs)) == Ok::<_, TlsErrorView>(vs),
    decreases vs.len(),
{
    if vs.len() == 0 {
        assert(vs =~= Seq::<T::V>::empty());
    } else {
        let tail = spec_encode_list::<T>(vs.drop_first());
        let s = spec_encode_list::<T>(vs);
        assert(s == T::spec_encode(vs[0]) + tail);
        assert(T::spec_wf(vs[0]));
        T::lemma_roundtrip(vs[0], tail);
        T::lemma_decode_suffix(s);
        assert(T::spec_decode(s) == Ok::<_, TlsErrorView>((vs[0], tail)));
        assert(tail.len() < s.len());
        assert(all_wf::<T>(vs.drop_first())) by {
            assert forall|i: int| 0 <= i < vs.drop_first().len() implies T::spec_wf(#[trigger] vs.drop_first()[i]) by {
                assert(vs.drop_first()[i] == vs[i + 1]);
            }
        }
        lemma_list_roundtrip::<T>(vs.drop_first());
        assert(seq![vs[0]] + vs.drop_first() =~= vs);
    }
}

/// Decoding `n` encodings gives the `n` values back, and the bytes after them.
pub proof fn lemma_n_roundtrip<T: Serialize>(vs: Seq<T::V>, rest: Seq<u8>)
    requires
        all_wf::<T>(vs),
        T::spec_self_delimiting(),
    ensures
        spec_decode_n::<T>(spec_encode_list::<T>(vs) + rest, vs.len()) == Ok::<_, TlsErrorView>((vs, rest)),
    decreases vs.len(),
{
    if vs.len() == 0 {
        assert(spec_encode_list::<T>(vs) + rest =~= rest);
        assert(vs =~= Seq::<T::V>::empty());
    } else {
        let tail = spec_encode_list::<T>(vs.drop_first());
        assert(spec_encode_list::<T>(vs) + rest =~= T::spec_encode(vs[0]) + (tail + rest));
        assert(T::spec_wf(vs[0]));
        T::lemma_roundtrip(vs[0], tail + rest);
        assert(all_wf::<T>(vs.drop_first())) by {
            assert forall|i: int| 0 <= i < vs.drop_first().len() implies T::spec_wf(#[trigger] vs.drop_first()[i]) by {
                assert(vs.drop_first()[i] == vs[i + 1]);
            }
        }
        lemma_n_roundtrip::<T>(vs.drop_first(), rest);
        assert(seq![vs[0]] + vs.drop_first() =~= vs);
    }
}

/// Decoding `n` values reads a prefix of the input.
pub proof fn lemma_decode_n_suffix<T: Serialize>(s: Seq<u8>, n: nat)
    ensures
        spec_decode_n::<T>(s, n) matches Ok((vs, rest)) ==> is_suffix(rest, s),
    decreases n,
{
    if n > 0 {
        T::lemma_decode_suffix(s);
        if let Ok((v, rest)) = T::spec_decode(s) {
            lemma_decode_n_suffix::<T>(rest, (n - 1) as nat);
        }
    }
}

/// Decodes values one after another until `buf` is empty.
pub fn decode_list<T: Serialize>(buf: &mut BytesMut) -> (res: TlsResult<Vec<T>>)
    requires
        T::spec_consumes(),
    ensures
        match spec_decode_list::<T>(bytes_mut_view(*old(buf))) {
            Ok(vs) => res matches Ok(xs) && views(xs@) == vs && bytes_mut_view(*final(buf)).len() == 0,
            Err(e) => res matches Err(x) && x@ == e,
        },
        is_suffix(bytes_mut_view(*final(buf)), bytes_mut_view(*old(buf))),
{
    let mut out: Vec<T> = Vec::new();
    assert(views(out@) =~= Seq::<T::V>::empty());
    assert(Seq::<T::V>::empty() + Seq::<T::V>::empty() =~= Seq::<T::V>::empty());
    while bm_len(buf) > 0
        invariant
            T::spec_consumes(),
            is_suffix(bytes_mut_view(*buf), bytes_mut_view(*old(buf))),
            spec_decode_list::<T>(bytes_mut_view(*old(buf))) == prepend(
                views(out@),
                spec_decode_list::<T>(bytes_mut_view(*buf)),
            ),
        decreases bytes_mut_view(*buf).len(),
    {
        let ghost before = bytes_mut_view(*buf);
        let ghost done = views(out@);
        proof {
            T::lemma_decode_suffix(before);
        }
        let x = T::decode(buf)?;
        proof {
            lemma_views_push(out@, x);
            let v = x@;
            let r = spec_decode_list::<T>(bytes_mut_view(*buf));
            assert(prepend(done, prepend(seq![v], r)) == prepend(done.push(v), r)) by {
                if let Ok(vs) = r {
                    assert(done + (seq![v] + vs) =~= done.push(v) + vs);
                }
            }
        }
        out.push(x);
    }
    proof {
        assert(views(out@) + Seq::<T::V>::empty() =~= views(out@));
    }
    Ok(out)
}

/// Decodes `n` values one after another.
pub fn decode_n<T: Serialize>(buf: &mut BytesMut, n: usize) -> (res: TlsResult<Vec<T>>)
    ensures
        match spec_decode_n::<T>(bytes_mut_view(*old(buf)), n as nat) {
            Ok((vs, rest)) => res matches Ok(xs) && views(xs@) == vs && bytes_mut_view(*final(buf)) == rest,
            Err(e) => res matches Err(x) && x@ == e,
        },
        is_suffix(bytes_mut_view(*final(buf)), bytes_mut_view(*old(buf))),
{
    let mut out: Vec<T> = Vec::new();
    let mut i: usize = 0;
    assert(views(out@) =~= Seq::<T::V>::empty());
    while i < n
        invariant
            0 <= i <= n,
            is_suffix(bytes_mut_view(*buf), bytes_mut_view(*old(buf))),
            spec_decode_n::<T>(bytes_mut_view(*old(buf)), n as nat) == match spec_decode_n::<T>(
                bytes_mut_view(*buf),
                (n - i) as nat,
            ) {
                Ok((vs, rest)) => Ok((views(out@) + vs, rest)),
                Err(e) => Err(e),
            },
        decreases n - i,
    {
        let ghost done = views(out@);
        let x = T::decode(buf)?;
        proof {
            lemma_views_push(out@, x);
            let v = x@;
            let r = spec_decode_n::<T>(bytes_mut_view(*buf), (n - i - 1) as nat);
            if let Ok((vs, rest)) = r {
                assert(done + (seq![v] + vs) =~= done.push(v) + vs);
            }
        }
        out.push(x);
        i = i + 1;
    }
    proof {
        assert(views(out@) + Seq::<T::V>::empty() =~= views(out@));
    }
    Ok(out)
}

/// Appends the encodings of the values, one after another.
pub fn encode_list<T: Serialize>(xs: &Vec<T>, buf: &mut BytesMut)
    requires
        bytes_mut_view(*old(buf)).len() + spec_encode_list::<T>(views(xs@)).len() <= isize::MAX,
    ensures
        bytes_mut_view(*final(buf)) == bytes_mut_view(*old(buf)) + spec_encode_list::<T>(views(xs@)),
{
    let ghost all = views(xs@);
    let mut i: usize = 0;
    assert(all.take(0) =~= Seq::<T::V>::empty());
    assert(bytes_mut_view(*buf) =~= bytes_mut_view(*old(buf)) + spec_encode_list::<T>(all.take(0)));
    while i < xs.len()
        invariant
            0 <= i <= xs@.len(),
            all == views(xs@),
            bytes_mut_view(*old(buf)).len() + spec_encode_list::<T>(all).len() <= isize::MAX,
            bytes_mut_view(*buf) == bytes_mut_view(*old(buf)) + spec_encode_list::<T>(all.take(i as int)),
        decreases xs@.len() - i,
    {
        proof {
            assert(all.take(i + 1) =~= all.take(i as int).push(all[i as int]));
            lemma_encode_list_push::<T>(all.take(i as int), all[i as int]);
            assert(all =~= all.take(i + 1) + all.skip(i + 1));
            lemma_encode_list_append::<T>(all.take(i + 1), all.skip(i + 1));
        }
        xs[i].encode(buf);
        i = i + 1;
    }
    assert(all.take(xs@.len() as int) =~= all);
}

/// A 16-bit length followed by the bytes it counts.
pub open spec fn spec_prefixed16(body: Seq<u8>) -> Seq<u8> {
    be16(body.len() as u16) + body
}

/// Reading a 16-bit length and then a list of values filling that many bytes.
pub open spec fn spec_decode_list16<T: Serialize>(s: Seq<u8>) -> SpecResult<Seq<T::V>> {
    if s.len() < 2 {
        Err(TlsErrorView::Incomplete((2 - s.len()) as usize))
    } else {
        let n = read_be16(s, 0) as int;
        let t = s.skip(2);
        if t.len() < n {
            Err(TlsErrorView::Incomplete((n - t.len()) as usize))
        } else {
            match spec_decode_list::<T>(t.take(n)) {
                Ok(vs) => Ok((vs, t.skip(n))),
                Err(e) => Err(e),
            }
        }
    }
}

/// Reads a 16-bit length and then values until those bytes are used up.
pub fn decode_list16<T: Serialize>(buf: &mut BytesMut) -> (res: TlsResult<Vec<T>>)
    requires
        T::spec_consumes(),
    ensures
        match spec_decode_list16::<T>(bytes_mut_view(*old(buf))) {
            Ok((vs, rest)) => res matches Ok(xs) && views(xs@) == vs && bytes_mut_view(*final(buf)) == rest,
            Err(e) => res matches Err(x) && x@ == e,
        },
        is_suffix(bytes_mut_view(*final(buf)), bytes_mut_view(*old(buf))),
{
    let remaining = bm_len(buf);
    if remaining < 2 {
        return Err(TlsError::Incomplete(2 - remaining));
    }
    let length = bm_get_u16(buf) as usize;
    let remaining = bm_len(buf);
    if remaining < length {
        return Err(TlsError::Incomplete(length - remaining));
    }
    let mut data = bm_split_to(buf, length);
    decode_list::<T>(&mut data)
}

/// Appends a 16-bit length and then the encodings of the values.
pub fn encode_list16<T: Serialize>(xs: &Vec<T>, buf: &mut BytesMut)
    requires
        bytes_mut_view(*old(buf)).len() + spec_prefixed16(spec_encode_list::<T>(views(xs@))).len() <= isize::MAX,
    ensures
        bytes_mut_view(*final(buf)) == bytes_mut_view(*old(buf)) + spec_prefixed16(spec_encode_list::<T>(views(xs@))),
{
    let mut inner = bm_new();
    encode_list(xs, &mut inner);
    let len = bm_len(&inner);
    bm_put_u16(buf, len as u16);
    bm_put_slice(buf, bm_as_slice(&inner));
    assert(bytes_mut_view(*buf) =~= bytes_mut_view(*old(buf)) + spec_prefixed16(spec_encode_list::<T>(views(xs@))));
}

/// Decoding a 16-bit prefixed list gives back a list whose encoding fits the prefix.
pub proof fn lemma_list16_roundtrip<T: Serialize>(vs: Seq<T::V>, rest: Seq<u8>)
    requires
        all_wf::<T>(vs),
        T::spec_self_delimiting(),
        T::spec_consumes(),
        spec_encode_list::<T>(vs).len() <= 0xFFFF,
    ensures
        spec_decode_list16::<T>(spec_prefixed16(spec_encode_list::<T>(vs)) + rest) == Ok::<_, TlsErrorView>((vs, rest)),
{
    let body = spec_encode_list::<T>(vs);
    let s = spec_prefixed16(body) + rest;
    lemma_list_roundtrip::<T>(vs);
    assert(s.skip(2) =~= body + rest);
    assert((body + rest).take(body.len() as int) =~= body);
    assert((body + rest).skip(body.len() as int) =~= rest);
}

/// A length field of one or two bytes holding `n`.
pub open spec fn spec_length_field(n: nat, width: nat) -> Seq<u8> {
    if width == 1 {
        seq![n as u8]
    } else {
        be16(n as u16)
    }
}

/// The value of a length field of one or two bytes at the start of `s`.
pub open spec fn spec_read_length(s: Seq<u8>, width: nat) -> int {
    if width == 1 {
        s[0] as int
    } else {
        read_be16(s, 0) as int
    }
}

/// Reading a length field and then as many values as that length divided by
/// `per`, from the bytes after it (a list whose length counts items of
/// `per` bytes each).
pub open spec fn spec_decode_counted<T: Serialize>(s: Seq<u8>, width: nat, per: nat) -> SpecResult<Seq<T::V>> {
    if s.len() < width {
        Err(TlsErrorView::Incomplete((width - s.len()) as usize))
    } else {
        let n = spec_read_length(s, width);
        let t = s.skip(width as int);
        if t.len() < n {
            Err(TlsErrorView::Incomplete((n - t.len()) as usize))
        } else {
            spec_decode_n::<T>(t, (n / (per as int)) as nat)
        }
    }
}

/// The encoding of a counted list: its length field, `per` times the
/// number of values, then the values.
pub open spec fn spec_encode_counted<T: Serialize>(vs: Seq<T::V>, width: nat, per: nat) -> Seq<u8> {
    spec_length_field(vs.len() * per, width) + spec_encode_list::<T>(vs)
}

/// Reads a length field, then as many values as that length divided by `per`.
pub fn decode_counted<T: Serialize>(buf: &mut BytesMut, width: usize, per: usize) -> (res: TlsResult<Vec<T>>)
    requires
        width == 1 || width == 2,
        per == 1 || per == 2,
    ensures
        match spec_decode_counted::<T>(bytes_mut_view(*old(buf)), width as nat, per as nat) {
            Ok((vs, rest)) => res matches Ok(xs) && views(xs@) == vs && bytes_mut_view(*final(buf)) == rest,
            Err(e) => res matches Err(x) && x@ == e,
        },
        is_suffix(bytes_mut_view(*final(buf)), bytes_mut_view(*old(buf))),
{
    let remaining = bm_len(buf);
    if remaining < width {
        return Err(TlsError::Incomplete(width - remaining));
    }
    let length: usize = if width == 1 {
        bm_get_u8(buf) as usize
    } else {
        bm_get_u16(buf) as usize
    };
    let remaining = bm_len(buf);
    if remaining < length {
        return Err(TlsError::Incomplete(length - remaining));
    }
    decode_n::<T>(buf, length / per)
}

/// Appends a length field holding `per` times the number of values, then
/// the values.
pub fn encode_counted<T: Serialize>(xs: &Vec<T>, buf: &mut BytesMut, width: usize, per: usize)
    requires
        width == 1 || width == 2,
        per == 1 || per == 2,
        forall|v: T::V| #[trigger] T::spec_encode(v).len() == per,
        bytes_mut_view(*old(buf)).len() + spec_encode_counted::<T>(views(xs@), width as nat, per as nat).len() <= isize::MAX,
    ensures
        bytes_mut_view(*final(buf)) == bytes_mut_view(*old(buf)) + spec_encode_counted::<T>(views(xs@), width as nat, per as nat),
{
    proof {
        lemma_encode_list_len::<T>(views(xs@), per as nat);
    }
    let count = xs.len() * per;
    if width == 1 {
        bm_put_u8(buf, count as u8);
    } else {
        bm_put_u16(buf, count as u16);
    }
    encode_list(xs, buf);
    assert(bytes_mut_view(*buf) =~= bytes_mut_view(*old(buf)) + spec_encode_counted::<T>(views(xs@), width as nat, per as nat));
}

/// Decoding a counted list gives back values whose count fits its field.
pub proof fn lemma_counted_roundtrip<T: Serialize>(vs: Seq<T::V>, rest: Seq<u8>, width: nat, per: nat)
    requires
        width == 1 || width == 2,
        per == 1 || per == 2,
        forall|v: T::V| #[trigger] T::spec_encode(v).len() == per,
        all_wf::<T>(vs),
        T::spec_self_delimiting(),
        vs.len() * per < (if width == 1 { 0x100nat } else { 0x1_0000nat }),
    ensures
        spec_decode_counted::<T>(spec_encode_counted::<T>(vs, width, per) + rest, width, per) == Ok::<_, TlsErrorView>((vs, rest)),
{
    let body = spec_encode_list::<T>(vs);
    let s = spec_encode_counted::<T>(vs, width, per) + rest;
    lemma_encode_list_len::<T>(vs, per);
    lemma_n_roundtrip::<T>(vs, rest);
    assert(s.skip(width as int) =~= body + rest);
    assert(spec_read_length(s, width) == vs.len() * per);
    assert((vs.len() * per) as int / (per as int) == vs.len()) by (nonlinear_arith)
        requires
            per == 1 || per == 2,
    ;
}

/// Reads the first `N` bytes into an array.
pub fn take_array<const N: usize>(buf: &mut BytesMut) -> (res: [u8; N])
    requires
        bytes_mut_view(*old(buf)).len() >= N,
    ensures
        res@ == bytes_mut_view(*old(buf)).take(N as int),
        bytes_mut_view(*final(buf)) == bytes_mut_view(*old(buf)).skip(N as int),
{
    let head = bm_split_to(buf, N);
    let src = bm_as_slice(&head);
    let mut a: [u8; N] = [0u8; N];
    let mut i: usize = 0;
    while i < N
        invariant
            src@.len() == N,
            0 <= i <= N,
            a@.len() == N,
            forall|j: int| 0 <= j < i ==> a@[j] == src@[j],
        decreases N - i,
    {
        a[i] = src[i];
        i = i + 1;
    }
    assert(a@ =~= src@);
    a
}

/// What reading `n` bytes finds: those bytes and the rest, or how many are missing.
pub open spec fn spec_take(s: Seq<u8>, n: int) -> SpecResult<Seq<u8>> {
    if s.len() < n {
        Err(TlsErrorView::Incomplete((n - s.len()) as usize))
    } else {
        Ok((s.take(n), s.skip(n)))
    }
}

/// Reads `n` bytes, or reports how many are missing.
pub fn take_bytes(buf: &mut BytesMut, n: usize) -> (res: TlsResult<Bytes>)
    ensures
        match spec_take(bytes_mut_view(*old(buf)), n as int) {
            Ok((v, rest)) => res matches Ok(b) && bytes_view(b) == v && bytes_mut_view(*final(buf)) == rest,
            Err(e) => res matches Err(x) && x@ == e && bytes_mut_view(*final(buf)) == bytes_mut_view(*old(buf)),
        },
        is_suffix(bytes_mut_view(*final(buf)), bytes_mut_view(*old(buf))),
{
    let remaining = bm_len(buf);
    if remaining < n {
        return Err(TlsError::Incomplete(n - remaining));
    }
    Ok(bm_freeze(bm_split_to(buf, n)))
}

} // verus!
