//! The error type of the codec.
use vstd::prelude::*;

use crate::message::alert::AlertDescription;

verus! {

/// Why decoding (or a check made while decoding) failed.
#[derive(Debug, Clone, PartialEq, Eq)]
pub enum TlsError {
    /// The input ends early; the number says how many more bytes were needed.
    Incomplete(usize),
    /// A field holds a value that this library does not know; the text names the field.
    Unknown(&'static str),
    /// The peer must be answered with this alert.
    Alert(AlertDescription),
    /// A cryptographic precondition is not met.
    Crypto(String),
    /// The bytes could not be turned into the value that the protocol calls for.
    Io(String),
}

/// `TlsError` with its texts taken as character sequences.
pub enum TlsErrorView {
    Incomplete(usize),
    Unknown(Seq<char>),
    Alert(AlertDescription),
    Crypto(Seq<char>),
    Io(Seq<char>),
}

impl View for TlsError {
    type V = TlsErrorView;

    open spec fn view(&self) -> TlsErrorView {
        match self {
            TlsError::Incomplete(n) => TlsErrorView::Incomplete(*n),
            TlsError::Unknown(s) => TlsErrorView::Unknown(s@),
            TlsError::Alert(d) => TlsErrorView::Alert(*d),
            TlsError::Crypto(s) => TlsErrorView::Crypto(s@),
            TlsError::Io(s) => TlsErrorView::Io(s@),
        }
    }
}

pub type TlsResult<T> = Result<T, TlsError>;

} // verus!
