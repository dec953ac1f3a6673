//! Newline-delimited frames: one message of text per line on the channel.
//!
//! A frame is a text without a line feed, of at most [`MAX_FRAME_LEN`] bytes
//! when written in UTF-8. On the wire it is followed by exactly one line feed.
//! Nothing is escaped and no length is sent, so the first line feed ends the
//! frame.

use vstd::prelude::*;
use vstd::slice::*;
use vstd::string::*;
use vstd::utf8::*;

verus! {

/// The largest payload of a frame, in bytes: 16 MiB.
pub const MAX_FRAME_LEN: usize = 16777216;

/// The byte that ends a frame: a line feed.
pub const DELIMITER: u8 = 10;

/// The most bytes that need to be read for one frame: a payload of full size
/// and its delimiter.
pub const RECEIVE_LIMIT: usize = 16777217;

/// Why the bytes received hold no frame.
#[derive(Clone, Copy, Debug, PartialEq, Eq, Structural)]
pub enum FrameError {
    /// The peer closed the channel before it sent a delimiter.
    Unterminated,
    /// No delimiter came within the first [`RECEIVE_LIMIT`] bytes.
    Oversized,
    /// The bytes before the delimiter are not UTF-8.
    NotText,
}

/// A text that can be the payload of a frame.
pub open spec fn is_payload(text: Seq<char>) -> bool {
    &&& !text.contains('\n')
    &&& encode_utf8(text).len() <= MAX_FRAME_LEN
}

/// No byte of `bytes` is the delimiter.
pub open spec fn delimiter_free(bytes: Seq<u8>) -> bool {
    forall|i: int| 0 <= i < bytes.len() ==> #[trigger] bytes[i] != DELIMITER
}

/// The bytes that carry `payload` on the wire.
pub open spec fn wire_frame(payload: Seq<char>) -> Seq<u8> {
    encode_utf8(payload).push(DELIMITER)
}

/// The number of bytes that stand before the first delimiter; the length of
/// `bytes` where they hold none.
pub open spec fn line_len(bytes: Seq<u8>) -> nat
    decreases bytes.len(),
{
    if bytes.len() == 0 || bytes[0] == DELIMITER {
        0
    } else {
        1 + line_len(bytes.drop_first())
    }
}

/// What a receiver makes of `received`: the bytes read from the channel up to
/// and including the first delimiter, or up to where the peer closed, or the
/// first [`RECEIVE_LIMIT`] of them where neither came earlier.
pub open spec fn received_frame(received: Seq<u8>) -> Result<Seq<char>, FrameError> {
    let n = line_len(received);
    if n > MAX_FRAME_LEN {
        Err(FrameError::Oversized)
    } else if n == received.len() {
        Err(FrameError::Unterminated)
    } else if !valid_utf8(received.take(n as int)) {
        Err(FrameError::NotText)
    } else {
        Ok(decode_utf8(received.take(n as int)))
    }
}

/// `line_len` is the place of the first delimiter: no delimiter stands before
/// it, and one stands at it unless the bytes end there.
pub proof fn lemma_line_len(bytes: Seq<u8>)
    ensures
        line_len(bytes) <= bytes.len(),
        delimiter_free(bytes.take(line_len(bytes) as int)),
        line_len(bytes) < bytes.len() ==> bytes[line_len(bytes) as int] == DELIMITER,
    decreases bytes.len(),
{
    if bytes.len() == 0 || bytes[0] == DELIMITER {
    } else {
        let rest = bytes.drop_first();
        lemma_line_len(rest);
        let line = bytes.take(line_len(bytes) as int);
        assert forall|i: int| 0 <= i < line.len() implies #[trigger] line[i] != DELIMITER by {
            if i > 0 {
                assert(rest.take(line_len(rest) as int)[i - 1] == line[i]);
            }
        }
        if line_len(bytes) < bytes.len() {
            assert(rest[line_len(rest) as int] == bytes[line_len(bytes) as int]);
        }
    }
}

/// Where no delimiter stands among the first `n` bytes, the line is at least
/// `n` bytes long.
pub proof fn lemma_line_len_at_least(bytes: Seq<u8>, n: int)
    requires
        0 <= n <= bytes.len(),
        delimiter_free(bytes.take(n)),
    ensures
        line_len(bytes) >= n,
{
    lemma_line_len(bytes);
    if line_len(bytes) < n {
        assert(bytes.take(n)[line_len(bytes) as int] == DELIMITER);
    }
}

/// Where the first delimiter stands at `n`, the line is `n` bytes long.
pub proof fn lemma_line_len_at(bytes: Seq<u8>, n: int)
    requires
        0 <= n <= bytes.len(),
        delimiter_free(bytes.take(n)),
        n < bytes.len() ==> bytes[n] == DELIMITER,
    ensures
        line_len(bytes) == n,
{
    lemma_line_len(bytes);
    lemma_line_len_at_least(bytes, n);
    if line_len(bytes) > n {
        assert(bytes.take(line_len(bytes) as int)[n] == DELIMITER);
    }
}

/// The bytes before a byte that is no delimiter stay free of delimiters when
/// that byte is taken in.
proof fn lemma_delimiter_free_extend(bytes: Seq<u8>, n: int)
    requires
        0 <= n < bytes.len(),
        delimiter_free(bytes.take(n)),
        bytes[n] != DELIMITER,
    ensures
        delimiter_free(bytes.take(n + 1)),
{
    let before = bytes.take(n);
    let after = bytes.take(n + 1);
    assert forall|i: int| 0 <= i < after.len() implies #[trigger] after[i] != DELIMITER by {
        if i < n {
            assert(after[i] == before[i]);
        }
    }
}

/// A character other than the line feed has no delimiter among its bytes.
proof fn lemma_scalar_bytes(c: char)
    requires
        c != '\n',
    ensures
        delimiter_free(encode_scalar(c as u32)),
{
    let s = c as u32;
    char_is_scalar(c);
    if has_width_1_encoding(s) {
        if s == 10 {
            char_u32_cast(c, s);
            char_u32_cast('\n', s);
        }
        assert((s & 0x7F) as u8 != 10) by (bit_vector)
            requires
                s <= 0x7F,
                s != 10,
        ;
    } else {
        assert(forall|x: u8| #![auto] (0x80 | x) != 10) by (bit_vector);
        assert(forall|x: u8| #![auto] (0xC0 | x) != 10) by (bit_vector);
        assert(forall|x: u8| #![auto] (0xE0 | x) != 10) by (bit_vector);
        assert(forall|x: u8| #![auto] (0xF0 | x) != 10) by (bit_vector);
    }
}

/// A text without a line feed is written in UTF-8 without a delimiter.
proof fn lemma_text_without_line_feed(text: Seq<char>)
    requires
        !text.contains('\n'),
    ensures
        delimiter_free(encode_utf8(text)),
    decreases text.len(),
{
    if text.len() > 0 {
        let head = encode_scalar(text[0] as u32);
        let rest = text.drop_first();
        assert(text.contains(text[0]));
        lemma_scalar_bytes(text[0]);
        assert forall|c: char| rest.contains(c) implies text.contains(c) by {
            let j = choose|j: int| 0 <= j < rest.len() && rest[j] == c;
            assert(text[j + 1] == c);
        }
        lemma_text_without_line_feed(rest);
        let bytes = encode_utf8(text);
        assert forall|i: int| 0 <= i < bytes.len() implies #[trigger] bytes[i] != DELIMITER by {
            if i >= head.len() {
                assert(bytes[i] == encode_utf8(rest)[i - head.len()]);
            } else {
                assert(bytes[i] == head[i]);
            }
        }
    }
}

/// A text with a line feed is written in UTF-8 with a delimiter.
proof fn lemma_text_with_line_feed(text: Seq<char>)
    requires
        text.contains('\n'),
    ensures
        !delimiter_free(encode_utf8(text)),
    decreases text.len(),
{
    let j = choose|j: int| 0 <= j < text.len() && text[j] == '\n';
    let head = encode_scalar(text[0] as u32);
    let rest = text.drop_first();
    let bytes = encode_utf8(text);
    if j == 0 {
        assert((10u32 & 0x7F) as u8 == 10) by (bit_vector);
        assert(bytes[0] == head[0]);
        assert(bytes[0] == DELIMITER);
    } else {
        assert(rest[j - 1] == '\n');
        lemma_text_with_line_feed(rest);
        let tail = encode_utf8(rest);
        let i = choose|i: int| 0 <= i < tail.len() && tail[i] == DELIMITER;
        assert(bytes[head.len() + i] == tail[i]);
    }
}

/// A text holds a line feed exactly when its UTF-8 bytes hold a delimiter: no
/// byte of any other character is one.
pub proof fn lemma_text_bytes(text: Seq<char>)
    ensures
        delimiter_free(encode_utf8(text)) <==> !text.contains('\n'),
{
    if text.contains('\n') {
        lemma_text_with_line_feed(text);
    } else {
        lemma_text_without_line_feed(text);
    }
}

/// What is received of a frame is its payload: sending a payload and
/// receiving the bytes that were sent gives the payload back, unchanged.
pub proof fn lemma_frame_round_trip(payload: Seq<char>)
    requires
        is_payload(payload),
    ensures
        received_frame(wire_frame(payload)) == Ok::<Seq<char>, FrameError>(payload),
{
    let body = encode_utf8(payload);
    let wire = wire_frame(payload);
    lemma_text_bytes(payload);
    assert(wire.take(body.len() as int) =~= body);
    lemma_line_len_at(wire, body.len() as int);
    encode_utf8_valid_utf8(payload);
    encode_utf8_decode_utf8(payload);
}

/// Whatever is received as a frame is one: a text without a line feed, of no
/// more than [`MAX_FRAME_LEN`] bytes, whose bytes and delimiter are just what
/// was read up to the first delimiter. Nothing is cut off and nothing is put
/// in.
pub proof fn lemma_received_is_payload(received: Seq<u8>)
    ensures
        received_frame(received) matches Ok(payload) ==> is_payload(payload) && wire_frame(payload)
            == received.take(line_len(received) as int + 1),
{
    if received_frame(received) is Ok {
        let n = line_len(received) as int;
        let line = received.take(n);
        let payload = decode_utf8(line);
        lemma_line_len(received);
        decode_utf8_encode_utf8(line);
        lemma_text_bytes(payload);
        assert(wire_frame(payload) =~= received.take(n + 1));
    }
}

/// A text of more than [`MAX_FRAME_LEN`] bytes is never received as a frame:
/// neither the whole of what was sent for it nor any part of it that reaches
/// past the limit gives a payload.
pub proof fn lemma_oversized_rejected(payload: Seq<char>, read: int)
    requires
        !payload.contains('\n'),
        encode_utf8(payload).len() > MAX_FRAME_LEN,
        MAX_FRAME_LEN < read <= wire_frame(payload).len(),
    ensures
        received_frame(wire_frame(payload).take(read)) == Err::<Seq<char>, FrameError>(
            FrameError::Oversized,
        ),
{
    let received = wire_frame(payload).take(read);
    let head = received.take(MAX_FRAME_LEN + 1);
    lemma_text_bytes(payload);
    assert forall|i: int| 0 <= i < head.len() implies #[trigger] head[i] != DELIMITER by {
        assert(head[i] == encode_utf8(payload)[i]);
    }
    lemma_line_len_at_least(received, MAX_FRAME_LEN + 1);
}

/// `String::from_utf8` of the standard library. The bytes become a text
/// exactly when they are well-formed UTF-8, and the text is then the one that
/// these bytes encode.
#[verifier::external_body]
fn text_from_utf8(bytes: Vec<u8>) -> (text: Option<String>)
    ensures
        match text {
            Some(s) => valid_utf8(bytes@) && s@ == decode_utf8(bytes@),
            None => !valid_utf8(bytes@),
        },
{
    match String::from_utf8(bytes) {
        Ok(text) => Some(text),
        Err(_) => None,
    }
}

/// Whether `text` can be the payload of a frame: it holds no line feed and
/// takes no more than [`MAX_FRAME_LEN`] bytes.
pub fn is_frame_payload(text: &str) -> (valid: bool)
    ensures
        valid == is_payload(text@),
{
    let bytes = text.as_bytes();
    if bytes.len() > MAX_FRAME_LEN {
        return false;
    }
    proof {
        lemma_text_bytes(text@);
    }
    let mut i: usize = 0;
    while i < bytes.len()
        invariant
            i <= bytes.len(),
            bytes@ == encode_utf8(text@),
            delimiter_free(bytes@) <==> !text@.contains('\n'),
            delimiter_free(bytes@.take(i as int)),
        decreases bytes.len() - i,
    {
        if bytes[i] == DELIMITER {
            assert(bytes@[i as int] == DELIMITER);
            return false;
        }
        proof {
            lemma_delimiter_free_extend(bytes@, i as int);
        }
        i = i + 1;
    }
    assert(bytes@.take(i as int) =~= bytes@);
    true
}

/// The bytes to write for `payload`: its UTF-8 bytes and one delimiter.
///
/// Nothing is escaped: a text that is no frame payload is written as it is,
/// and its first line feed ends the frame for whoever reads it.
pub fn encode_frame(payload: &str) -> (wire: Vec<u8>)
    ensures
        wire@ == wire_frame(payload@),
{
    let mut wire = payload.as_bytes_vec();
    wire.push(DELIMITER);
    wire
}

/// Takes the payload out of what was received.
///
/// `received` is what the reader got from the channel: the bytes up to and
/// including the first delimiter, or everything up to where the peer closed,
/// or the first [`RECEIVE_LIMIT`] bytes where no delimiter came within them.
/// Bytes after the first delimiter are not looked at.
pub fn decode_frame(received: &[u8]) -> (frame: Result<String, FrameError>)
    ensures
        match frame {
            Ok(text) => received_frame(received@) == Ok::<Seq<char>, FrameError>(text@),
            Err(e) => received_frame(received@) == Err::<Seq<char>, FrameError>(e),
        },
{
    let mut n: usize = 0;
    while n < received.len() && n <= MAX_FRAME_LEN && received[n] != DELIMITER
        invariant
            n <= received.len(),
            n <= MAX_FRAME_LEN + 1,
            delimiter_free(received@.take(n as int)),
        decreases received.len() - n,
    {
        proof {
            lemma_delimiter_free_extend(received@, n as int);
        }
        n = n + 1;
    }
    if n > MAX_FRAME_LEN {
        proof {
            lemma_line_len_at_least(received@, n as int);
        }
        return Err(FrameError::Oversized);
    }
    proof {
        lemma_line_len_at(received@, n as int);
    }
    if n == received.len() {
        return Err(FrameError::Unterminated);
    }
    let body = slice_to_vec(slice_subrange(received, 0, n));
    assert(body@ =~= received@.take(n as int));
    match text_from_utf8(body) {
        Some(text) => Ok(text),
        None => Err(FrameError::NotText),
    }
}

} // verus!
