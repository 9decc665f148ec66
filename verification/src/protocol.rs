//! The wire protocol of the device: the query frame that goes out, the reply
//! line that comes back, and how a reply is judged.

use crate::text::{contains, contains_text, from_utf8, trim, trimmed};
use vstd::prelude::*;
use vstd::string::*;
use vstd::utf8::*;

verus! {

/// The line feed that ends a reply.
pub const LINE_FEED: u8 = 10;

/// The carriage return that precedes the line feed of a query.
pub const CARRIAGE_RETURN: u8 = 13;

/// The kinds of transport failure that a port can report.
#[derive(Clone, Copy, Debug, PartialEq, Eq)]
pub enum IoErrorKind {
    NotFound,
    PermissionDenied,
    ConnectionRefused,
    ConnectionReset,
    ConnectionAborted,
    NotConnected,
    AddrInUse,
    AddrNotAvailable,
    BrokenPipe,
    AlreadyExists,
    WouldBlock,
    InvalidInput,
    InvalidData,
    TimedOut,
    WriteZero,
    Interrupted,
    Unsupported,
    UnexpectedEof,
    OutOfMemory,
    Other,
}

/// Why a probe did not produce a reply.
#[derive(Debug, PartialEq, Eq)]
pub enum ProbeError {
    /// The port could not be opened.
    Open { message: String },
    /// The port was opened, but the stream ended before a single byte came.
    NoDevice,
    /// No line feed came within the read timeout.
    Timeout,
    /// Any other failure of the transport.
    Io { kind: IoErrorKind, message: String },
    /// The reply is not UTF-8.
    Decode,
}

/// The mathematical value of a `ProbeError`.
pub enum ProbeErrorView {
    Open { message: Seq<char> },
    NoDevice,
    Timeout,
    Io { kind: IoErrorKind, message: Seq<char> },
    Decode,
}

impl View for ProbeError {
    type V = ProbeErrorView;

    open spec fn view(&self) -> ProbeErrorView {
        match self {
            ProbeError::Open { message } => ProbeErrorView::Open { message: message@ },
            ProbeError::NoDevice => ProbeErrorView::NoDevice,
            ProbeError::Timeout => ProbeErrorView::Timeout,
            ProbeError::Io { kind, message } => ProbeErrorView::Io {
                kind: *kind,
                message: message@,
            },
            ProbeError::Decode => ProbeErrorView::Decode,
        }
    }
}

/// The bytes of a query on the wire: its UTF-8 encoding, then a carriage
/// return and a line feed.
pub open spec fn framed(message: Seq<char>) -> Seq<u8> {
    encode_utf8(message) + seq![CARRIAGE_RETURN, LINE_FEED]
}

/// Frames a query for the wire.
pub fn frame_query(message: &str) -> (frame: Vec<u8>)
    ensures
        frame@ == framed(message@),
{
    let mut frame = message.as_bytes_vec();
    frame.push(CARRIAGE_RETURN);
    frame.push(LINE_FEED);
    frame
}

/// A received line without the line feed that ends it, if one does.
pub open spec fn payload(line: Seq<u8>) -> Seq<u8> {
    if line.len() > 0 && line.last() == LINE_FEED {
        line.drop_last()
    } else {
        line
    }
}

/// What a received line means: nothing at all is a silent device, bytes that
/// are not UTF-8 cannot be decoded, and anything else is the text of the
/// payload without the white space around it.
pub open spec fn reply_of(line: Seq<u8>) -> Result<Seq<char>, ProbeErrorView> {
    if line.len() == 0 {
        Err(ProbeErrorView::NoDevice)
    } else if !valid_utf8(payload(line)) {
        Err(ProbeErrorView::Decode)
    } else {
        Ok(trimmed(decode_utf8(payload(line))))
    }
}

/// The view of a reply or of the error in its place.
pub open spec fn reply_view(reply: Result<String, ProbeError>) -> Result<
    Seq<char>,
    ProbeErrorView,
> {
    match reply {
        Ok(text) => Ok(text@),
        Err(error) => Err(error@),
    }
}

/// Turns the bytes that were read up to the first line feed, or up to the end
/// of the stream, into the reply.
pub fn decode_reply(line: Vec<u8>) -> (reply: Result<String, ProbeError>)
    ensures
        reply_view(reply) == reply_of(line@),
{
    let mut line = line;
    let length = line.len();
    if length == 0 {
        return Err(ProbeError::NoDevice);
    }
    if line[length - 1] == LINE_FEED {
        line.pop();
    }
    match from_utf8(line) {
        Some(text) => Ok(trim(text.as_str()).to_owned()),
        None => Err(ProbeError::Decode),
    }
}

/// The word whose presence in a reply marks it as negative.
pub open spec fn error_marker() -> Seq<char> {
    "Error"@
}

/// The detection policy: a reply is positive when the word `Error` does not
/// occur in it. This is a known weakness: a device that reports a failure in
/// other words is taken for the target. The policy is kept as it is, so that
/// the detector finds what it has always found.
pub open spec fn is_positive(reply: Seq<char>) -> bool {
    !contains_text(reply, error_marker())
}

/// Applies the detection policy to a reply.
pub fn is_positive_reply(reply: &str) -> (positive: bool)
    ensures
        positive == is_positive(reply@),
{
    !contains(reply, "Error")
}

/// What an error says of itself.
pub open spec fn description(error: ProbeErrorView) -> Seq<char> {
    match error {
        ProbeErrorView::Open { message } => message,
        ProbeErrorView::NoDevice => "Connection closed or device sent no data."@,
        ProbeErrorView::Timeout => "Read operation timed out."@,
        ProbeErrorView::Io { kind, message } => message,
        ProbeErrorView::Decode => "Response data was not valid UTF-8."@,
    }
}

impl ProbeError {
    /// The description of the error.
    pub fn describe(&self) -> (text: String)
        ensures
            text@ == description(self@),
    {
        match self {
            ProbeError::Open { message } => message.clone(),
            ProbeError::NoDevice => "Connection closed or device sent no data.".to_owned(),
            ProbeError::Timeout => "Read operation timed out.".to_owned(),
            ProbeError::Io { kind, message } => message.clone(),
            ProbeError::Decode => "Response data was not valid UTF-8.".to_owned(),
        }
    }
}

} // verus!
