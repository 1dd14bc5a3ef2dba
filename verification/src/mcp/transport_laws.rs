use crate::decimal::{decimal_digits, is_digit, is_digits, lemma_decimal_round_trip};
use crate::mcp::transport::{
    length_prefix, spec_frame_message, spec_on_line, spec_read_body,
    spec_read_from, spec_read_message, ReaderState, ReaderStep, SpecFrame, TransportError,
};
use crate::text::{has_prefix, is_blank, is_space, line_end, trim, trim_end, trim_start};
use vstd::prelude::*;
use vstd::utf8::{decode_utf8, valid_utf8};

verus! {

/// A line ends just after the first line feed.
pub proof fn lemma_line_end_at(s: Seq<u8>, pos: int, feed: int)
    requires
        0 <= pos <= feed < s.len(),
        forall|i: int| pos <= i < feed ==> s[i] != 10,
        s[feed] == 10,
    ensures
        line_end(s, pos) == feed + 1,
    decreases feed - pos,
{
    if pos < feed {
        lemma_line_end_at(s, pos + 1, feed);
    }
}

/// Digits followed by a line break trim to the digits.
pub proof fn lemma_trim_digits_line(digits: Seq<u8>)
    requires
        is_digits(digits),
    ensures
        trim(digits + seq![13u8, 10u8]) == digits,
{
    let line = digits + seq![13u8, 10u8];
    assert(is_digit(digits[0]));
    assert(line[0] == digits[0]);
    assert(trim_start(line) == line);
    let n = line.len() as int;
    assert(line[n - 1] == 10);
    let cut1 = line.take(n - 1);
    assert(cut1 =~= digits + seq![13u8]);
    assert(cut1[cut1.len() - 1] == 13);
    let cut2 = cut1.take(cut1.len() - 1);
    assert(cut2 =~= digits);
    assert(is_digit(digits[digits.len() - 1]));
    assert(trim_end(cut2) == cut2);
    assert(trim_end(cut1) == cut2);
    assert(trim_end(line) == trim_end(cut1));
}

/// The length line of a frame takes the reader into the header block: fed
/// any stream that begins with the line for `length` bytes, it goes on behind
/// that line, waiting for the blank line.
pub proof fn lemma_length_line_is_read(length: usize, tail: Seq<u8>)
    ensures
        spec_read_message(length_prefix() + decimal_digits(length as nat) + seq![13u8, 10] + tail)
            == spec_read_from(
            length_prefix() + decimal_digits(length as nat) + seq![13u8, 10] + tail,
            18 + decimal_digits(length as nat).len() as int,
            ReaderState::Headers { length },
        ),
{
    let prefix = length_prefix();
    let digits = decimal_digits(length as nat);
    let s = prefix + digits + seq![13u8, 10] + tail;
    let d = digits.len() as int;
    lemma_decimal_round_trip(length as nat);
    assert(prefix.len() == 16);
    assert forall|i: int| 0 <= i < 16 + d + 1 implies s[i] != 10 by {
        if i < 16 {
            assert(s[i] == prefix[i]);
        } else if i < 16 + d {
            assert(s[i] == digits[i - 16]);
            assert(is_digit(digits[i - 16]));
        } else {
            assert(s[i] == 13);
        }
    }
    assert(s[16 + d + 1] == 10);
    lemma_line_end_at(s, 0, 16 + d + 1);
    let first = s.subrange(0, 16 + d + 2);
    assert(first =~= prefix + digits + seq![13u8, 10u8]);
    assert(first.take(16) =~= prefix);
    assert(has_prefix(first, prefix));
    assert(first.skip(16) =~= digits + seq![13u8, 10u8]);
    lemma_trim_digits_line(digits);
    assert(spec_on_line(ReaderState::Seeking { seen: false }, first) == ReaderStep::ReadLine(
        ReaderState::Headers { length },
    ));
}

/// The header of a frame alone takes the reader to the payload: fed any
/// stream that begins with the header for `length` bytes, it goes on to read
/// the payload right behind it.
pub proof fn lemma_header_is_read(length: usize, tail: Seq<u8>)
    ensures
        spec_read_message(
            length_prefix() + decimal_digits(length as nat) + seq![13u8, 10, 13, 10] + tail,
        ) == spec_read_body(
            length_prefix() + decimal_digits(length as nat) + seq![13u8, 10, 13, 10] + tail,
            20 + decimal_digits(length as nat).len() as int,
            length,
        ),
{
    let prefix = length_prefix();
    let digits = decimal_digits(length as nat);
    let s = prefix + digits + seq![13u8, 10, 13, 10] + tail;
    let d = digits.len() as int;
    assert(prefix.len() == 16);
    assert(s =~= prefix + digits + seq![13u8, 10] + (seq![13u8, 10] + tail));
    lemma_length_line_is_read(length, seq![13u8, 10] + tail);
    assert(s[16 + d + 2] == 13);
    assert(s[16 + d + 3] == 10);
    lemma_line_end_at(s, 16 + d + 2, 16 + d + 3);
    let second = s.subrange(16 + d + 2, 16 + d + 4);
    assert(second =~= seq![13u8, 10u8]);
    assert(is_blank(second)) by {
        assert forall|i: int| 0 <= i < second.len() implies is_space(#[trigger] second[i]) by {}
    }
    assert(spec_on_line(ReaderState::Headers { length }, second) == ReaderStep::ReadBody(length));
    assert(spec_read_from(s, 16 + d + 2, ReaderState::Headers { length }) == spec_read_body(
        s,
        16 + d + 4,
        length,
    ));
}

/// Framing round trip: a reader fed a framed payload, whatever follows it in
/// the stream, yields exactly that payload as text and stops right behind it.
pub proof fn lemma_frame_round_trip(payload: Seq<u8>, rest: Seq<u8>)
    requires
        payload.len() <= usize::MAX,
        valid_utf8(payload),
    ensures
        spec_read_message(spec_frame_message(payload) + rest) == (SpecFrame {
            message: Ok(Some(decode_utf8(payload))),
            consumed: spec_frame_message(payload).len() as int,
        }),
{
    let length = payload.len() as usize;
    let head = length_prefix() + decimal_digits(length as nat) + seq![13u8, 10, 13, 10];
    let s = spec_frame_message(payload) + rest;
    assert(s =~= head + (payload + rest));
    lemma_header_is_read(length, payload + rest);
    let start = head.len() as int;
    assert(s.subrange(start, start + length) =~= payload);
}

/// A stream that ends before the announced number of payload bytes is an
/// error, not a message and not a clean end.
pub proof fn lemma_truncated_payload_fails(length: usize, body: Seq<u8>)
    requires
        body.len() < length,
    ensures
        spec_read_message(
            length_prefix() + decimal_digits(length as nat) + seq![13u8, 10, 13, 10] + body,
        ).message == Err::<Option<Seq<char>>, TransportError>(TransportError::Truncated),
{
    let head = length_prefix() + decimal_digits(length as nat) + seq![13u8, 10, 13, 10];
    let s = head + body;
    lemma_header_is_read(length, body);
    let start = head.len() as int;
    assert(s.subrange(start, s.len() as int) =~= body);
}

/// An empty stream holds no message.
pub proof fn lemma_empty_stream_has_no_message()
    ensures
        spec_read_message(Seq::<u8>::empty()) == (SpecFrame { message: Ok(None), consumed: 0 }),
{
    let s = Seq::<u8>::empty();
    assert(s.subrange(0, 0) =~= s);
    assert(!has_prefix(s, length_prefix()));
}

/// A stream without a line feed is one line, cut short.
pub proof fn lemma_line_end_without_feed(s: Seq<u8>, pos: int)
    requires
        0 <= pos <= s.len(),
        forall|i: int| pos <= i < s.len() ==> s[i] != 10,
    ensures
        line_end(s, pos) == s.len(),
    decreases s.len() - pos,
{
    if pos < s.len() {
        lemma_line_end_without_feed(s, pos + 1);
    }
}

/// A stream that ends anywhere inside a frame, be it in the header or in
/// the payload, is an error: it is neither a message nor a clean end.
pub proof fn lemma_truncated_frame_fails(payload: Seq<u8>, kept: int)
    requires
        payload.len() <= usize::MAX,
        0 < kept < spec_frame_message(payload).len(),
    ensures
        spec_read_message(spec_frame_message(payload).take(kept)).message is Err,
{
    let length = payload.len() as usize;
    let prefix = length_prefix();
    let digits = decimal_digits(length as nat);
    let d = digits.len() as int;
    let frame = spec_frame_message(payload);
    let s = frame.take(kept);
    lemma_decimal_round_trip(length as nat);
    assert(prefix.len() == 16);
    if kept >= 20 + d {
        let body = payload.take(kept - 20 - d);
        assert(s =~= prefix + digits + seq![13u8, 10, 13, 10] + body);
        lemma_truncated_payload_fails(length, body);
    } else if kept >= 18 + d {
        let tail = frame.subrange(18 + d, kept);
        assert(s =~= prefix + digits + seq![13u8, 10] + tail);
        lemma_length_line_is_read(length, tail);
        assert forall|i: int| 18 + d <= i < s.len() implies s[i] != 10 by {
            assert(s[i] == 13);
        }
        lemma_line_end_without_feed(s, 18 + d);
        let rest = s.subrange(18 + d, s.len() as int);
        assert(rest.len() > 0 ==> rest[rest.len() - 1] == 13);
    } else {
        assert forall|i: int| 0 <= i < s.len() implies s[i] != 10 by {
            if i < 16 {
                assert(s[i] == prefix[i]);
            } else if i < 16 + d {
                assert(s[i] == digits[i - 16]);
                assert(is_digit(digits[i - 16]));
            } else {
                assert(s[i] == 13);
            }
        }
        lemma_line_end_without_feed(s, 0);
        assert(s.subrange(0, s.len() as int) =~= s);
        assert(s[s.len() - 1] != 10);
        assert(s[0] == 67);
        assert(!is_space(s[0]));
        assert(!is_blank(s));
    }
}

} // verus!
