//! Encoding and decoding of TLS 1.3 records and handshake messages.
pub mod buffer;
pub mod crypto;
pub mod error;
pub mod message;
pub mod messages;
pub mod seqs;
pub mod text;
