# tlsec

Encoding and decoding of TLS 1.3 records and handshake messages, written in
Verus. Every message part implements the `Serialize` trait
(`src/message/serialize.rs`), whose contract ties the executable `encode` and
`decode` to two spec functions: the bytes a value is written as, and what
reading some bytes finds (a value and the bytes after it, or an error). Each
part also proves that decoding its encoding gives the value back, for the
values that its format can carry. A signature inside a certificate timestamp (`DigitallySigned`) is written
with the 16-bit byte count that its decoder reads, so it reads back as
written. One part has no such value: the extension
of a certificate entry is written without a byte count but read with one, so
its round-trip lemma asks for what no value meets; certificate entries read
their extensions without it. A decoded handshake message keeps in `raw` the
bytes that `handshake_raw` (`src/message/handshake/messages.rs`) names, and
the round-trip lemmas say so.

Layout:

- `src/buffer.rs`: the `bytes` buffers as Verus sees them (the content of a
  `BytesMut` or `Bytes` as a byte sequence), the methods the codec calls, and
  public verified functions (`buffer_new`, `buffer_from_slice`, `buffer_len`,
  `buffer_bytes`, `bytes_from_slice`) through which a verified caller learns
  what a buffer holds.
- `src/crypto.rs`: the `ring` and `webpki` items that suites, groups and
  schemes stand for (the `ring` ones named by their digest or curve id), and
  the random generator.
- `src/text.rs`: UTF-8 text fields.
- `src/message/`: alerts, versions, records, handshake messages and their
  extensions.
- `src/messages/`: GREASE helpers on plain integers, the payload of a GREASE
  extension, and a certificate entry that carries hello extensions.
- `tests/`: byte-level examples of every part.
