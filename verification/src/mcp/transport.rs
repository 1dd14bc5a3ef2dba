use crate::decimal::{decimal_bytes, decimal_digits, parse_unsigned, parse_usize};
use crate::text::{
    find_line_end, has_prefix, is_blank, line_end, line_is_blank, starts_with, trim, trim_bytes,
};
use vstd::prelude::*;
use vstd::slice::{slice_subrange, slice_to_vec};
use vstd::utf8::{decode_utf8, valid_utf8};

verus! {

/// Why a framed message could not be read.
#[derive(Clone, Copy, Debug, PartialEq, Eq, Structural)]
pub enum TransportError {
    /// The value after `Content-Length: ` is not an unsigned decimal number
    /// that fits in `usize`.
    InvalidLength,
    /// The stream ended inside the header block.
    UnexpectedEof,
    /// The stream ended before the announced number of payload bytes.
    Truncated,
    /// The payload is not UTF-8 text.
    InvalidUtf8,
    /// The stream itself could not be read. The decisions on lines and
    /// payloads never give this; it is for the caller that reads the stream.
    ReadFailed,
}

/// Where the reader stands inside a header block.
#[derive(Clone, Copy, Debug, PartialEq, Eq, Structural)]
pub enum ReaderState {
    /// Looking for the length header. `seen` tells whether any line that was
    /// not blank has been passed over.
    Seeking { seen: bool },
    /// The length header was read; waiting for the blank line that ends the
    /// header block.
    Headers { length: usize },
}

/// What to do after a line of the header block.
#[derive(Clone, Copy, Debug, PartialEq, Eq, Structural)]
pub enum ReaderStep {
    /// Read the next line in the given state.
    ReadLine(ReaderState),
    /// Read exactly this many payload bytes.
    ReadBody(usize),
    /// The stream ended cleanly: there is no message.
    End,
    Fail(TransportError),
}

/// The bytes of `Content-Length: `.
pub open spec fn length_prefix() -> Seq<u8> {
    seq![67u8, 111, 110, 116, 101, 110, 116, 45, 76, 101, 110, 103, 116, 104, 58, 32]
}

/// A line is complete when it ends in a line feed; a line that does not was
/// cut short by the end of the stream.
pub open spec fn is_complete(line: Seq<u8>) -> bool {
    line.len() > 0 && line[line.len() - 1] == 10
}

/// The decision taken on one line of the header block.
///
/// White space is ASCII white space throughout: a line is blank, and the
/// value of the length header is trimmed, by space, tab, line feed, vertical
/// tab, form feed and carriage return only. A line that holds any other byte,
/// a non-ASCII space included, is not blank.
pub open spec fn spec_on_line(state: ReaderState, line: Seq<u8>) -> ReaderStep {
    match state {
        ReaderState::Seeking { seen } => {
            if has_prefix(line, length_prefix()) {
                match parse_unsigned(trim(line.skip(length_prefix().len() as int))) {
                    Some(n) => if n > usize::MAX {
                        ReaderStep::Fail(TransportError::InvalidLength)
                    } else if is_complete(line) {
                        ReaderStep::ReadLine(ReaderState::Headers { length: n as usize })
                    } else {
                        ReaderStep::Fail(TransportError::UnexpectedEof)
                    },
                    None => ReaderStep::Fail(TransportError::InvalidLength),
                }
            } else if is_complete(line) {
                ReaderStep::ReadLine(ReaderState::Seeking { seen: seen || !is_blank(line) })
            } else if seen || !is_blank(line) {
                ReaderStep::Fail(TransportError::UnexpectedEof)
            } else {
                ReaderStep::End
            }
        },
        ReaderState::Headers { length } => {
            if !is_complete(line) {
                ReaderStep::Fail(TransportError::UnexpectedEof)
            } else if is_blank(line) {
                ReaderStep::ReadBody(length)
            } else {
                ReaderStep::ReadLine(state)
            }
        },
    }
}

/// The decision taken on the payload bytes that could be read.
pub open spec fn spec_on_body(length: usize, body: Seq<u8>) -> Result<Seq<char>, TransportError> {
    if body.len() != length {
        Err(TransportError::Truncated)
    } else if !valid_utf8(body) {
        Err(TransportError::InvalidUtf8)
    } else {
        Ok(decode_utf8(body))
    }
}

fn length_prefix_bytes() -> (r: Vec<u8>)
    ensures
        r@ == length_prefix(),
{
    let r: Vec<u8> = vec![67u8, 111, 110, 116, 101, 110, 116, 45, 76, 101, 110, 103, 116, 104, 58, 32];
    assert(r@ =~= length_prefix());
    r
}

/// Decodes UTF-8 text through `String::from_utf8`: `Some` exactly for valid
/// UTF-8, and then the text that the bytes encode.
#[verifier::external_body]
fn text_from_utf8(bytes: Vec<u8>) -> (r: Option<String>)
    ensures
        r.is_some() == valid_utf8(bytes@),
        r matches Some(s) ==> s@ == decode_utf8(bytes@),
{
    String::from_utf8(bytes).ok()
}

/// Decides what follows a line of the header block.
///
/// `line` is what reading up to and including the next line feed gave: a
/// line that lacks its line feed, or is empty, means the stream has ended.
pub fn on_line(state: ReaderState, line: &[u8]) -> (step: ReaderStep)
    ensures
        step == spec_on_line(state, line@),
{
    let n = line.len();
    let complete = n > 0 && line[n - 1] == 10;
    match state {
        ReaderState::Seeking { seen } => {
            let prefix = length_prefix_bytes();
            if starts_with(line, prefix.as_slice()) {
                let rest = slice_subrange(line, prefix.len(), n);
                assert(rest@ =~= line@.skip(length_prefix().len() as int));
                match parse_usize(trim_bytes(rest)) {
                    Some(length) => if complete {
                        ReaderStep::ReadLine(ReaderState::Headers { length })
                    } else {
                        ReaderStep::Fail(TransportError::UnexpectedEof)
                    },
                    None => ReaderStep::Fail(TransportError::InvalidLength),
                }
            } else {
                let seen_now = seen || !line_is_blank(line);
                if complete {
                    ReaderStep::ReadLine(ReaderState::Seeking { seen: seen_now })
                } else if seen_now {
                    ReaderStep::Fail(TransportError::UnexpectedEof)
                } else {
                    ReaderStep::End
                }
            }
        },
        ReaderState::Headers { length } => {
            if !complete {
                ReaderStep::Fail(TransportError::UnexpectedEof)
            } else if line_is_blank(line) {
                ReaderStep::ReadBody(length)
            } else {
                ReaderStep::ReadLine(state)
            }
        },
    }
}

/// Turns the payload bytes that could be read into the message text.
pub fn on_body(length: usize, body: Vec<u8>) -> (r: Result<String, TransportError>)
    ensures
        match spec_on_body(length, body@) {
            Ok(text) => r matches Ok(s) && s@ == text,
            Err(e) => r == Err::<String, TransportError>(e),
        },
{
    if body.len() != length {
        return Err(TransportError::Truncated);
    }
    match text_from_utf8(body) {
        Some(text) => Ok(text),
        None => Err(TransportError::InvalidUtf8),
    }
}

/// What reading one message from a buffer gave, and how many bytes it used.
#[derive(Debug, PartialEq, Eq)]
pub struct Frame {
    /// `Ok(None)` when the stream ended cleanly before any header.
    pub message: Result<Option<String>, TransportError>,
    pub consumed: usize,
}

/// The mathematical counterpart of [`Frame`].
pub struct SpecFrame {
    pub message: Result<Option<Seq<char>>, TransportError>,
    pub consumed: int,
}

impl View for Frame {
    type V = SpecFrame;

    open spec fn view(&self) -> SpecFrame {
        SpecFrame {
            message: match self.message {
                Ok(Some(text)) => Ok(Some(text@)),
                Ok(None) => Ok(None),
                Err(e) => Err(e),
            },
            consumed: self.consumed as int,
        }
    }
}

/// Reading the payload that starts at `pos`.
pub open spec fn spec_read_body(s: Seq<u8>, pos: int, length: usize) -> SpecFrame {
    let stop = if s.len() - pos < length {
        s.len() as int
    } else {
        pos + length
    };
    SpecFrame {
        message: match spec_on_body(length, s.subrange(pos, stop)) {
            Ok(text) => Ok(Some(text)),
            Err(e) => Err(e),
        },
        consumed: stop,
    }
}

/// Reading one message from `s`, starting at `pos` in the given state.
pub open spec fn spec_read_from(s: Seq<u8>, pos: int, state: ReaderState) -> SpecFrame
    decreases s.len() - pos,
{
    let end = line_end(s, pos);
    match spec_on_line(state, s.subrange(pos, end)) {
        ReaderStep::ReadLine(next) => if pos < end <= s.len() {
            spec_read_from(s, end, next)
        } else {
            SpecFrame { message: Err(TransportError::UnexpectedEof), consumed: end }
        },
        ReaderStep::ReadBody(length) => spec_read_body(s, end, length),
        ReaderStep::End => SpecFrame { message: Ok(None), consumed: end },
        ReaderStep::Fail(e) => SpecFrame { message: Err(e), consumed: end },
    }
}

/// Reading one message from the start of a stream that holds `s` and then
/// ends.
pub open spec fn spec_read_message(s: Seq<u8>) -> SpecFrame {
    spec_read_from(s, 0, ReaderState::Seeking { seen: false })
}

/// A payload with its length header in front.
pub open spec fn spec_frame_message(payload: Seq<u8>) -> Seq<u8> {
    length_prefix() + decimal_digits(payload.len()) + seq![13u8, 10, 13, 10] + payload
}

/// Reads one framed message from `input`, taken as a stream that ends where
/// the buffer ends.
///
/// Lines are skipped until one begins with `Content-Length: `; the lines
/// after it are skipped up to a blank one; then the announced number of bytes
/// is the payload. A stream with nothing but blank lines holds no message; one
/// that ends inside the header block or inside the payload is an error.
pub fn read_message(input: &[u8]) -> (frame: Frame)
    ensures
        frame@ == spec_read_message(input@),
        frame.consumed <= input.len(),
{
    let mut pos: usize = 0;
    let mut state = ReaderState::Seeking { seen: false };
    loop
        invariant
            pos <= input.len(),
            spec_read_message(input@) == spec_read_from(input@, pos as int, state),
        decreases input.len() - pos,
    {
        let end = find_line_end(input, pos);
        let line = slice_subrange(input, pos, end);
        match on_line(state, line) {
            ReaderStep::ReadLine(next) => {
                if end <= pos {
                    return Frame { message: Err(TransportError::UnexpectedEof), consumed: end };
                }
                pos = end;
                state = next;
            },
            ReaderStep::ReadBody(length) => {
                let stop = if input.len() - end < length {
                    input.len()
                } else {
                    end + length
                };
                let body = slice_to_vec(slice_subrange(input, end, stop));
                let message = match on_body(length, body) {
                    Ok(text) => Ok(Some(text)),
                    Err(e) => Err(e),
                };
                return Frame { message, consumed: stop };
            },
            ReaderStep::End => {
                return Frame { message: Ok(None), consumed: end };
            },
            ReaderStep::Fail(e) => {
                return Frame { message: Err(e), consumed: end };
            },
        }
    }
}

/// Puts the length header in front of a payload.
pub fn frame_message(payload: &[u8]) -> (out: Vec<u8>)
    ensures
        out@ == spec_frame_message(payload@),
{
    let mut out = length_prefix_bytes();
    let mut digits = decimal_bytes(payload.len());
    out.append(&mut digits);
    out.push(13);
    out.push(10);
    out.push(13);
    out.push(10);
    let mut body = slice_to_vec(payload);
    out.append(&mut body);
    assert(out@ =~= spec_frame_message(payload@));
    out
}

} // verus!
