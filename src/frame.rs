use vstd::prelude::*;
use vstd::utf8::{decode_utf8, valid_utf8};

verus! {

/// The reason a `Close` frame may carry.
#[derive(Debug, Clone, PartialEq, Eq)]
pub struct CloseData {
    pub status_code: u16,
    pub reason: String,
}

/// One message unit of the underlying channel.
#[derive(Debug, Clone, PartialEq, Eq)]
pub enum Frame {
    Text(String),
    Binary(Vec<u8>),
    Close(Option<CloseData>),
    Ping(Vec<u8>),
    Pong(Vec<u8>),
}

/// std's error for bytes that are not UTF-8; it is handed to the caller as it is.
#[verifier::external_type_specification]
#[verifier::external_body]
pub struct ExFromUtf8Error(std::string::FromUtf8Error);

/// Relies on `String::from_utf8`: it succeeds exactly when the bytes are
/// valid UTF-8, and then holds the characters that they encode.
#[verifier::external_body]
pub(crate) fn text_from_utf8(bytes: Vec<u8>) -> (r: Result<String, std::string::FromUtf8Error>)
    ensures
        r is Ok <==> valid_utf8(bytes@),
        r matches Ok(s) ==> s@ == decode_utf8(bytes@),
{
    String::from_utf8(bytes)
}

impl Frame {
    /// The text of a `Text` frame, and `None` for any other kind of frame.
    ///
    /// A channel that refuses a frame hands it back; a frame offered as text
    /// comes back as text, and this recovers the string that was offered.
    pub fn into_text(self) -> (r: Option<String>)
        ensures
            (self is Text) <==> r is Some,
            r matches Some(s) ==> self == Frame::Text(s),
    {
        match self {
            Frame::Text(s) => Some(s),
            _ => None,
        }
    }
}

} // verus!
