//! TLS records: a content type, the legacy version and the payload after a
//! 16-bit byte count.
use vstd::prelude::*;

use bytes::{Bytes, BytesMut};

use crate::buffer::{
    b_as_slice, be16, bm_as_slice, bm_freeze, bm_get_u16, bm_get_u8, bm_len, bm_new, bm_put_slice,
    bm_put_u16, bm_put_u8, bm_split_to, bytes_mut_view, bytes_view, read_be16,
};
use crate::error::{TlsError, TlsErrorView, TlsResult};
use crate::message::alert::AlertPayload;
use crate::message::handshake::hello::cipher_suite::SupportedCipherSuite;
use crate::message::handshake::messages::{
    HandshakeMessage, HandshakeMessageView, handshake_raw, handshake_wf, lemma_handshake_roundtrip, opt_suite,
    spec_decode_handshake, spec_encode_handshake, spec_encode_handshake_payload,
};
use crate::message::serialize::{Serialize, SpecResult, decoded_as, prepend};
use crate::message::version::Version;
use crate::seqs::is_suffix;

verus! {

broadcast use crate::seqs::group_codec;

/// A record.
#[derive(Debug, PartialEq, Eq)]
pub struct Record {
    pub record_type: RecordType,
    pub legacy_version: Version,
    pub payload: RecordPayload,  // length = u16
}

pub struct RecordView {
    pub record_type: RecordType,
    pub legacy_version: Version,
    pub payload: RecordPayloadView,
}

impl View for Record {
    type V = RecordView;

    open spec fn view(&self) -> RecordView {
        RecordView { record_type: self.record_type, legacy_version: self.legacy_version, payload: self.payload@ }
    }
}

/// The encoding of a record.
pub open spec fn spec_encode_record(v: RecordView) -> Seq<u8> {
    seq![v.record_type.spec_code()] + be16(v.legacy_version.spec_code()) + be16(
        spec_encode_record_payload(v.payload).len() as u16,
    ) + spec_encode_record_payload(v.payload)
}

/// What decoding a record finds, given the negotiated cipher suite, if any.
///
/// The five header bytes are needed first. On fewer, an empty buffer or one
/// of a single byte reports `1 - len` bytes missing; two to four bytes, where
/// that count would be negative, report the `5 - len` bytes that the header
/// still needs.
pub open spec fn spec_decode_record(s: Seq<u8>, cipher_suite: Option<SupportedCipherSuite>) -> SpecResult<RecordView> {
    if s.len() <= 1 {
        Err(TlsErrorView::Incomplete((1 - s.len()) as usize))
    } else if s.len() < 5 {
        Err(TlsErrorView::Incomplete((5 - s.len()) as usize))
    } else {
        match RecordType::spec_from_code(s[0]) {
            Err(e) => Err(e@),
            Ok(record_type) => {
                let n = read_be16(s, 3) as int;
                let t = s.skip(5);
                if t.len() < n {
                    Err(TlsErrorView::Incomplete((n - t.len()) as usize))
                } else {
                    match spec_decode_record_payload(record_type, t.take(n), cipher_suite) {
                        Ok((payload, _)) => Ok((
                            RecordView {
                                record_type,
                                legacy_version: Version::spec_from_code(read_be16(s, 1)),
                                payload,
                            },
                            t.skip(n),
                        )),
                        Err(e) => Err(e),
                    }
                }
            },
        }
    }
}

impl Record {
    /// Appends the encoding of the record.
    pub fn encode(&self, buf: &mut BytesMut)
        requires
            bytes_mut_view(*old(buf)).len() + spec_encode_record(self@).len() <= isize::MAX,
        ensures
            bytes_mut_view(*final(buf)) == bytes_mut_view(*old(buf)) + spec_encode_record(self@),
    {
        bm_put_u8(buf, self.record_type.code());
        bm_put_u16(buf, self.legacy_version.code());
        let mut inner = bm_new();
        self.payload.encode_payload(&mut inner);
        bm_put_u16(buf, bm_len(&inner) as u16);
        bm_put_slice(buf, bm_as_slice(&inner));
        assert(bytes_mut_view(*buf) =~= bytes_mut_view(*old(buf)) + spec_encode_record(self@));
    }

    /// Reads a record from the start of `buf`; finished messages in it are
    /// read by the negotiated suite's hash length. A buffer shorter than the
    /// header reports `1 - len` bytes missing when it holds at most one byte,
    /// else `5 - len` (see `spec_decode_record`).
    pub fn decode(buf: &mut BytesMut, cipher_suite: Option<&SupportedCipherSuite>) -> (res: TlsResult<Self>)
        ensures
            decoded_as(spec_decode_record(bytes_mut_view(*old(buf)), opt_suite(cipher_suite)), res, bytes_mut_view(*final(buf))),
            is_suffix(bytes_mut_view(*final(buf)), bytes_mut_view(*old(buf))),
    {
        let ghost s = bytes_mut_view(*buf);
        let remaining = bm_len(buf);
        if remaining <= 1 {
            return Err(TlsError::Incomplete(1 - remaining));
        }
        if remaining < 5 {
            return Err(TlsError::Incomplete(5 - remaining));
        }
        let record_type = RecordType::try_from(bm_get_u8(buf))?;
        proof {
            assert(read_be16(s, 1) == read_be16(s.skip(1), 0));
            assert(read_be16(s, 3) == read_be16(s.skip(3), 0));
        }
        let legacy_version = Version::try_from(bm_get_u16(buf))?;
        let length = bm_get_u16(buf) as usize;
        let remaining = bm_len(buf);
        if remaining < length {
            return Err(TlsError::Incomplete(length - remaining));
        }
        let mut payload_buf = bm_split_to(buf, length);
        let payload = RecordPayload::decode_payload(record_type, &mut payload_buf, cipher_suite)?;
        Ok(Self { record_type, legacy_version, payload })
    }
}

/// The content type of a record.
#[derive(Debug, Clone, Copy, PartialEq, Eq, Structural)]
pub enum RecordType {
    Alert,
    HandshakeMessage,
    ApplicationData,
}

impl RecordType {
    /// The code that stands for the value on the wire.
    pub open spec fn spec_code(self) -> u8 {
        match self {
            RecordType::Alert => 0x15,
            RecordType::HandshakeMessage => 0x16,
            RecordType::ApplicationData => 0x17,
        }
    }

    /// The value that a code stands for, or the error for a code that stands for none.
    pub open spec fn spec_from_code(v: u8) -> Result<RecordType, TlsError> {
        match v {
            0x15 => Ok(RecordType::Alert),
            0x16 => Ok(RecordType::HandshakeMessage),
            0x17 => Ok(RecordType::ApplicationData),
            _ => Err(TlsError::Unknown("record type")),
        }
    }

    /// The wire codes of the named values, as the protocol's registry fixes
    /// them: each value is written as its number, and a code is read as that
    /// value exactly when it is that number.
    pub proof fn lemma_wire_codes(c: u8)
        ensures
            RecordType::Alert.spec_code() == 0x15,
            RecordType::HandshakeMessage.spec_code() == 0x16,
            RecordType::ApplicationData.spec_code() == 0x17,
            (RecordType::spec_from_code(c) == Ok::<_, TlsError>(RecordType::Alert)) <==> c == 0x15,
            (RecordType::spec_from_code(c) == Ok::<_, TlsError>(RecordType::HandshakeMessage)) <==> c == 0x16,
            (RecordType::spec_from_code(c) == Ok::<_, TlsError>(RecordType::ApplicationData)) <==> c == 0x17,
    {
    }

    /// A value written as its code is read back as itself, and a code that
    /// is read as a value is that value's code.
    pub proof fn lemma_code_roundtrip(self, v: u8)
        ensures
            RecordType::spec_from_code(self.spec_code()) == Ok::<_, TlsError>(self),
            RecordType::spec_from_code(v) matches Ok(x) ==> x.spec_code() == v,
    {
    }

    /// The code that stands for the value on the wire.
    pub fn code(self) -> (res: u8)
        ensures
            res == self.spec_code(),
    {
        match self {
            RecordType::Alert => 0x15,
            RecordType::HandshakeMessage => 0x16,
            RecordType::ApplicationData => 0x17,
        }
    }

    /// The value that a code stands for, or the error for a code that stands for none.
    pub fn try_from(value: u8) -> (res: Result<Self, TlsError>)
        ensures
            res == RecordType::spec_from_code(value),
    {
        match value {
            0x15 => Ok(RecordType::Alert),
            0x16 => Ok(RecordType::HandshakeMessage),
            0x17 => Ok(RecordType::ApplicationData),
            _ => Err(TlsError::Unknown("record type")),
        }
    }
}

/// The payload of a record.
#[derive(Debug, PartialEq, Eq)]
pub enum RecordPayload {
    Handshake(Vec<HandshakeMessage>),
    Alert(AlertPayload),
    ApplicationData(Bytes),
}

pub enum RecordPayloadView {
    Handshake(Seq<HandshakeMessageView>),
    Alert(AlertPayload),
    ApplicationData(Seq<u8>),
}

/// The views of a sequence of handshake messages.
pub open spec fn message_views(s: Seq<HandshakeMessage>) -> Seq<HandshakeMessageView> {
    s.map_values(|m: HandshakeMessage| m@)
}

impl View for RecordPayload {
    type V = RecordPayloadView;

    open spec fn view(&self) -> RecordPayloadView {
        match self {
            RecordPayload::Handshake(ms) => RecordPayloadView::Handshake(message_views(ms@)),
            RecordPayload::Alert(a) => RecordPayloadView::Alert(*a),
            RecordPayload::ApplicationData(d) => RecordPayloadView::ApplicationData(bytes_view(*d)),
        }
    }
}

/// The encodings of handshake messages, one after another.
pub open spec fn spec_encode_handshakes(ms: Seq<HandshakeMessageView>) -> Seq<u8>
    decreases ms.len(),
{
    if ms.len() == 0 {
        Seq::empty()
    } else {
        spec_encode_handshakes(ms.drop_last()) + spec_encode_handshake(ms.last())
    }
}

/// Reading handshake messages one after another until the bytes run out.
pub open spec fn spec_decode_handshakes(s: Seq<u8>, cipher_suite: Option<SupportedCipherSuite>) -> Result<
    Seq<HandshakeMessageView>,
    TlsErrorView,
>
    decreases s.len(),
{
    if s.len() == 0 {
        Ok(Seq::empty())
    } else {
        match spec_decode_handshake(s, cipher_suite) {
            Err(e) => Err(e),
            Ok((m, rest)) => if rest.len() < s.len() {
                prepend(seq![m], spec_decode_handshakes(rest, cipher_suite))
            } else {
                Ok(seq![m])
            },
        }
    }
}

/// The encoding of a record's payload.
pub open spec fn spec_encode_record_payload(p: RecordPayloadView) -> Seq<u8> {
    match p {
        RecordPayloadView::Handshake(ms) => spec_encode_handshakes(ms),
        RecordPayloadView::Alert(a) => AlertPayload::spec_encode(a),
        RecordPayloadView::ApplicationData(d) => d,
    }
}

/// What decoding a record's payload of the given type finds: handshake
/// messages until the bytes run out, an alert, or all the bytes as
/// application data.
pub open spec fn spec_decode_record_payload(
    ty: RecordType,
    s: Seq<u8>,
    cipher_suite: Option<SupportedCipherSuite>,
) -> SpecResult<RecordPayloadView> {
    match ty {
        RecordType::HandshakeMessage => match spec_decode_handshakes(s, cipher_suite) {
            Ok(ms) => Ok((RecordPayloadView::Handshake(ms), Seq::empty())),
            Err(e) => Err(e),
        },
        RecordType::Alert => match AlertPayload::spec_decode(s) {
            Ok((a, rest)) => Ok((RecordPayloadView::Alert(a), rest)),
            Err(e) => Err(e),
        },
        RecordType::ApplicationData => Ok((RecordPayloadView::ApplicationData(s), Seq::empty())),
    }
}

/// Encoding one more message appends its encoding.
pub proof fn lemma_encode_handshakes_push(ms: Seq<HandshakeMessageView>, m: HandshakeMessageView)
    ensures
        spec_encode_handshakes(ms.push(m)) == spec_encode_handshakes(ms) + spec_encode_handshake(m),
{
    assert(ms.push(m).drop_last() =~= ms);
}

/// Encoding messages is encoding the first and then the rest.
pub proof fn lemma_encode_handshakes_first(ms: Seq<HandshakeMessageView>)
    requires
        ms.len() > 0,
    ensures
        spec_encode_handshakes(ms) == spec_encode_handshake(ms[0]) + spec_encode_handshakes(ms.drop_first()),
    decreases ms.len(),
{
    if ms.len() == 1 {
        assert(ms.drop_last() =~= Seq::<HandshakeMessageView>::empty());
        assert(ms.drop_first() =~= Seq::<HandshakeMessageView>::empty());
        assert(spec_encode_handshake(ms[0]) + Seq::<u8>::empty() =~= spec_encode_handshake(ms[0]));
        assert(Seq::<u8>::empty() + spec_encode_handshake(ms[0]) =~= spec_encode_handshake(ms[0]));
    } else {
        lemma_encode_handshakes_first(ms.drop_last());
        assert(ms.drop_last().drop_first() =~= ms.drop_first().drop_last());
        assert(ms.drop_first().last() == ms.last());
        assert(ms.drop_last()[0] == ms[0]);
    }
}

/// The messages as decoding gives them back: each with `raw` holding the
/// bytes that `handshake_raw` names in the encoding of it and the messages
/// after it.
pub open spec fn with_raw(ms: Seq<HandshakeMessageView>) -> Seq<HandshakeMessageView> {
    Seq::new(
        ms.len(),
        |i: int|
            HandshakeMessageView {
                raw: Some(
                    handshake_raw(
                        spec_encode_handshakes(ms.skip(i)),
                        spec_encode_handshake_payload(ms[i].payload).len() as int,
                    ),
                ),
                ..ms[i]
            },
    )
}

/// The messages that a record holds as they are read back: each is read back
/// as written and has a payload of at least one byte.
pub open spec fn handshakes_wf(ms: Seq<HandshakeMessageView>, cipher_suite: Option<SupportedCipherSuite>) -> bool {
    forall|i: int| 0 <= i < ms.len() ==> handshake_wf(#[trigger] ms[i], cipher_suite, Seq::empty())
}

/// Reading the encodings of messages gives them back, with `raw` set.
pub proof fn lemma_handshakes_roundtrip(ms: Seq<HandshakeMessageView>, cipher_suite: Option<SupportedCipherSuite>)
    requires
        handshakes_wf(ms, cipher_suite),
    ensures
        spec_decode_handshakes(spec_encode_handshakes(ms), cipher_suite) == Ok::<_, TlsErrorView>(with_raw(ms)),
    decreases ms.len(),
{
    if ms.len() == 0 {
        assert(with_raw(ms) =~= Seq::<HandshakeMessageView>::empty());
    } else {
        let m = ms[0];
        let tail = spec_encode_handshakes(ms.drop_first());
        lemma_encode_handshakes_first(ms);
        let s = spec_encode_handshakes(ms);
        assert(handshake_wf(m, cipher_suite, Seq::empty()));
        lemma_handshake_roundtrip(m, cipher_suite, tail);
        assert(handshakes_wf(ms.drop_first(), cipher_suite)) by {
            assert forall|i: int| 0 <= i < ms.drop_first().len() implies handshake_wf(
                #[trigger] ms.drop_first()[i],
                cipher_suite,
                Seq::empty(),
            ) by {
                assert(ms.drop_first()[i] == ms[i + 1]);
            }
        }
        lemma_handshakes_roundtrip(ms.drop_first(), cipher_suite);
        assert(ms.skip(0) =~= ms);
        assert forall|i: int| 0 <= i < ms.drop_first().len() implies #[trigger] ms.skip(i + 1) == ms.drop_first().skip(i) by {
            assert(ms.skip(i + 1) =~= ms.drop_first().skip(i));
        }
        assert(seq![with_raw(ms)[0]] + with_raw(ms.drop_first()) =~= with_raw(ms));
    }
}

/// The payload is of the given type and is read back as written, with the
/// messages' `raw` set.
pub open spec fn record_payload_wf(ty: RecordType, p: RecordPayloadView, cipher_suite: Option<SupportedCipherSuite>) -> bool {
    match p {
        RecordPayloadView::Handshake(ms) => ty == RecordType::HandshakeMessage && handshakes_wf(ms, cipher_suite),
        RecordPayloadView::Alert(a) => ty == RecordType::Alert,
        RecordPayloadView::ApplicationData(d) => ty == RecordType::ApplicationData,
    }
}

/// A payload as decoding gives it back.
pub open spec fn payload_as_read(p: RecordPayloadView) -> RecordPayloadView {
    match p {
        RecordPayloadView::Handshake(ms) => RecordPayloadView::Handshake(with_raw(ms)),
        _ => p,
    }
}

/// Decoding the encoding of a record whose payload is read back as written
/// gives it back (with the messages' `raw` set), and the bytes after it.
pub proof fn lemma_record_roundtrip(v: RecordView, cipher_suite: Option<SupportedCipherSuite>, rest: Seq<u8>)
    requires
        v.legacy_version.spec_canonical(),
        record_payload_wf(v.record_type, v.payload, cipher_suite),
        spec_encode_record_payload(v.payload).len() <= 0xFFFF,
    ensures
        spec_decode_record(spec_encode_record(v) + rest, cipher_suite) == Ok::<_, TlsErrorView>((
            RecordView { payload: payload_as_read(v.payload), ..v },
            rest,
        )),
{
    v.record_type.lemma_code_roundtrip(0);
    v.legacy_version.lemma_code_roundtrip(0);
    let p = spec_encode_record_payload(v.payload);
    let s = spec_encode_record(v) + rest;
    assert(s =~= seq![v.record_type.spec_code()] + (be16(v.legacy_version.spec_code()) + (be16(p.len() as u16) + (p
        + rest))));
    assert(s[0] == v.record_type.spec_code());
    assert(read_be16(s, 1) == v.legacy_version.spec_code());
    assert(read_be16(s, 3) == p.len());
    assert(s.skip(5) =~= p + rest);
    assert((p + rest).take(p.len() as int) =~= p);
    assert((p + rest).skip(p.len() as int) =~= rest);
    match v.payload {
        RecordPayloadView::Handshake(ms) => lemma_handshakes_roundtrip(ms, cipher_suite),
        RecordPayloadView::Alert(a) => {
            AlertPayload::lemma_roundtrip(a, Seq::empty());
            assert(AlertPayload::spec_encode(a) + Seq::<u8>::empty() =~= AlertPayload::spec_encode(a));
        },
        RecordPayloadView::ApplicationData(d) => {},
    }
}

/// Reads handshake messages until `buf` is empty.
fn decode_handshakes(buf: &mut BytesMut, cipher_suite: Option<&SupportedCipherSuite>) -> (res: TlsResult<Vec<HandshakeMessage>>)
    ensures
        match spec_decode_handshakes(bytes_mut_view(*old(buf)), opt_suite(cipher_suite)) {
            Ok(ms) => res matches Ok(xs) && message_views(xs@) == ms,
            Err(e) => res matches Err(x) && x@ == e,
        },
{
    let ghost cs = opt_suite(cipher_suite);
    let mut msgs: Vec<HandshakeMessage> = Vec::new();
    assert(message_views(msgs@) =~= Seq::<HandshakeMessageView>::empty());
    assert(Seq::<HandshakeMessageView>::empty() + Seq::<HandshakeMessageView>::empty()
        =~= Seq::<HandshakeMessageView>::empty());
    while bm_len(buf) > 0
        invariant
            cs == opt_suite(cipher_suite),
            spec_decode_handshakes(bytes_mut_view(*old(buf)), cs) == prepend(
                message_views(msgs@),
                spec_decode_handshakes(bytes_mut_view(*buf), cs),
            ),
        decreases bytes_mut_view(*buf).len(),
    {
        let ghost done = message_views(msgs@);
        let m = HandshakeMessage::decode(buf, cipher_suite)?;
        proof {
            assert(message_views(msgs@.push(m)) =~= done.push(m@));
            let v = m@;
            let r = spec_decode_handshakes(bytes_mut_view(*buf), cs);
            assert(prepend(done, prepend(seq![v], r)) == prepend(done.push(v), r)) by {
                if let Ok(vs) = r {
                    assert(done + (seq![v] + vs) =~= done.push(v) + vs);
                }
            }
        }
        msgs.push(m);
    }
    proof {
        assert(message_views(msgs@) + Seq::<HandshakeMessageView>::empty() =~= message_views(msgs@));
    }
    Ok(msgs)
}

impl RecordPayload {
    /// Appends the encoding of the payload.
    pub fn encode_payload(&self, buf: &mut BytesMut)
        requires
            bytes_mut_view(*old(buf)).len() + spec_encode_record_payload(self@).len() <= isize::MAX,
        ensures
            bytes_mut_view(*final(buf)) == bytes_mut_view(*old(buf)) + spec_encode_record_payload(self@),
    {
        match self {
            RecordPayload::Handshake(msgs) => {
                let ghost all = message_views(msgs@);
                let mut i: usize = 0;
                assert(all.take(0) =~= Seq::<HandshakeMessageView>::empty());
                assert(bytes_mut_view(*buf) =~= bytes_mut_view(*old(buf)) + spec_encode_handshakes(all.take(0)));
                while i < msgs.len()
                    invariant
                        0 <= i <= msgs@.len(),
                        all == message_views(msgs@),
                        bytes_mut_view(*old(buf)).len() + spec_encode_handshakes(all).len() <= isize::MAX,
                        bytes_mut_view(*buf) == bytes_mut_view(*old(buf)) + spec_encode_handshakes(all.take(i as int)),
                    decreases msgs@.len() - i,
                {
                    proof {
                        assert(all.take(i + 1) =~= all.take(i as int).push(all[i as int]));
                        lemma_encode_handshakes_push(all.take(i as int), all[i as int]);
                        lemma_encode_handshakes_prefix(all, i + 1);
                    }
                    msgs[i].encode(buf);
                    i = i + 1;
                }
                assert(all.take(msgs@.len() as int) =~= all);
            },
            RecordPayload::Alert(alert) => alert.encode(buf),
            RecordPayload::ApplicationData(data) => bm_put_slice(buf, b_as_slice(data)),
        }
    }

    /// Reads the payload of a record of the given type from `buf`.
    pub fn decode_payload(
        record_type: RecordType,
        buf: &mut BytesMut,
        cipher_suite: Option<&SupportedCipherSuite>,
    ) -> (res: TlsResult<Self>)
        ensures
            match spec_decode_record_payload(record_type, bytes_mut_view(*old(buf)), opt_suite(cipher_suite)) {
                Ok((v, _)) => res matches Ok(x) && x@ == v,
                Err(e) => res matches Err(x) && x@ == e,
            },
    {
        match record_type {
            RecordType::HandshakeMessage => {
                let msgs = decode_handshakes(buf, cipher_suite)?;
                Ok(RecordPayload::Handshake(msgs))
            },
            RecordType::Alert => Ok(RecordPayload::Alert(AlertPayload::decode(buf)?)),
            RecordType::ApplicationData => {
                let all = bm_len(buf);
                Ok(RecordPayload::ApplicationData(bm_freeze(bm_split_to(buf, all))))
            },
        }
    }
}

/// The encoding of the first messages of a list is no longer than that of all of them.
pub proof fn lemma_encode_handshakes_prefix(ms: Seq<HandshakeMessageView>, j: int)
    requires
        0 <= j <= ms.len(),
    ensures
        spec_encode_handshakes(ms.take(j)).len() <= spec_encode_handshakes(ms).len(),
    decreases ms.len() - j,
{
    if j == ms.len() {
        assert(ms.take(j) =~= ms);
    } else {
        lemma_encode_handshakes_prefix(ms, j + 1);
        assert(ms.take(j + 1) =~= ms.take(j).push(ms[j]));
        lemma_encode_handshakes_push(ms.take(j), ms[j]);
    }
}

/// How a record's header names its type and legacy version, for every
/// input and every record: the first byte is the type (`0x15` alert, `0x16`
/// handshake, `0x17` application data), the next two the version (`03 01`
/// TLS 1.0 up to `03 04` TLS 1.3); a record read has the type and version
/// that these bytes name, and a record is written with them.
pub proof fn lemma_record_header_bytes(s: Seq<u8>, cipher_suite: Option<SupportedCipherSuite>, v: RecordView)
    ensures
        spec_decode_record(s, cipher_suite) matches Ok((r, _)) ==> {
            &&& (r.record_type == RecordType::Alert <==> s[0] == 0x15)
            &&& (r.record_type == RecordType::HandshakeMessage <==> s[0] == 0x16)
            &&& (r.record_type == RecordType::ApplicationData <==> s[0] == 0x17)
            &&& (r.legacy_version == Version::Tls10 <==> s[1] == 0x03 && s[2] == 0x01)
            &&& (r.legacy_version == Version::Tls11 <==> s[1] == 0x03 && s[2] == 0x02)
            &&& (r.legacy_version == Version::Tls12 <==> s[1] == 0x03 && s[2] == 0x03)
            &&& (r.legacy_version == Version::Tls13 <==> s[1] == 0x03 && s[2] == 0x04)
        },
        v.record_type == RecordType::Alert ==> spec_encode_record(v)[0] == 0x15,
        v.record_type == RecordType::HandshakeMessage ==> spec_encode_record(v)[0] == 0x16,
        v.record_type == RecordType::ApplicationData ==> spec_encode_record(v)[0] == 0x17,
        v.legacy_version == Version::Tls10 ==> spec_encode_record(v)[1] == 0x03 && spec_encode_record(v)[2] == 0x01,
        v.legacy_version == Version::Tls11 ==> spec_encode_record(v)[1] == 0x03 && spec_encode_record(v)[2] == 0x02,
        v.legacy_version == Version::Tls12 ==> spec_encode_record(v)[1] == 0x03 && spec_encode_record(v)[2] == 0x03,
        v.legacy_version == Version::Tls13 ==> spec_encode_record(v)[1] == 0x03 && spec_encode_record(v)[2] == 0x04,
{
}

} // verus!
