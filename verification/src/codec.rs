//! The frame codec: a body of bytes travels behind a header that gives its
//! length, `Content-Length: <decimal>`, and an empty line. Header lines end in
//! a carriage return and a line feed.
//!
//! The codec frames bytes and nothing more: what the body means is for the
//! caller to say.

use vstd::prelude::*;
use crate::decimal::{digits, format_decimal, lemma_digits_denote, number, parse_decimal};

verus! {

/// The bytes of `Content-Length: `, the name of the header that gives the
/// length, with the separator behind it.
pub open spec fn length_key() -> Seq<u8> {
    seq![67u8, 111u8, 110u8, 116u8, 101u8, 110u8, 116u8, 45u8, 76u8, 101u8, 110u8, 103u8, 116u8, 104u8, 58u8, 32u8]
}

/// The end of a line, and twice over the end of the header.
pub open spec fn header_terminator() -> Seq<u8> {
    seq![13u8, 10u8, 13u8, 10u8]
}

/// How many bytes the header line for a body of `length` bytes takes: the
/// name of the header and the numeral, without the line ends behind them.
pub open spec fn header_line_len(length: nat) -> int {
    (length_key().len() + digits(length).len()) as int
}

/// The frame that carries `body`.
pub open spec fn encoded(body: Seq<u8>) -> Seq<u8> {
    length_key() + digits(body.len()) + header_terminator() + body
}

/// Whether a line ends at `at`: a carriage return there, and a line feed
/// behind it.
pub open spec fn line_ends_at(buf: Seq<u8>, at: int) -> bool {
    0 <= at && at + 1 < buf.len() && buf[at] == 13 && buf[at + 1] == 10
}

/// Whether the header ends at `at`: a line ends there, and the line behind
/// it is empty.
pub open spec fn header_ends_at(buf: Seq<u8>, at: int) -> bool {
    line_ends_at(buf, at) && line_ends_at(buf, at + 2)
}

/// The first place at or behind `from` where the header ends.
pub open spec fn header_end(buf: Seq<u8>, from: int) -> Option<int>
    decreases buf.len() - from,
{
    if from < 0 || from + 4 > buf.len() {
        None
    } else if header_ends_at(buf, from) {
        Some(from)
    } else {
        header_end(buf, from + 1)
    }
}

/// The end of the line that begins at `from`: the first place before `limit`
/// where a line ends, or `limit`.
pub open spec fn line_end(buf: Seq<u8>, from: int, limit: int) -> int
    decreases limit - from,
{
    if from >= limit {
        limit
    } else if line_ends_at(buf, from) {
        from
    } else {
        line_end(buf, from + 1, limit)
    }
}

/// Whether the line begins with the name of the length header.
pub open spec fn is_length_line(line: Seq<u8>) -> bool {
    line.len() >= length_key().len() && line.subrange(0, length_key().len() as int)
        == length_key()
}

/// The length of the body as the header lines from `from` up to `limit` give
/// it. The first line that names the length decides, and decides `None` where
/// what it gives is not a number that a `usize` holds. Other lines are passed
/// over.
pub open spec fn declared_length(buf: Seq<u8>, from: int, limit: int) -> Option<usize>
    decreases limit + 2 - from,
    via declared_length_terminates
{
    if from < 0 || from >= limit {
        None
    } else {
        let end = line_end(buf, from, limit);
        let line = buf.subrange(from, end);
        if is_length_line(line) {
            number(line.skip(length_key().len() as int))
        } else if end >= limit {
            None
        } else {
            declared_length(buf, end + 2, limit)
        }
    }
}

#[via_fn]
proof fn declared_length_terminates(buf: Seq<u8>, from: int, limit: int) {
    if from <= limit {
        lemma_line_end_is_first(buf, from, limit);
    }
}

/// What the front of a buffer holds.
#[derive(Clone, Copy, Debug, PartialEq, Eq, Structural)]
pub enum Parsed {
    /// Not yet a whole frame: more bytes are needed.
    Incomplete,
    /// A whole frame, whose body lies from `start` up to `end`.
    Frame { start: usize, end: usize },
    /// A header that gives no usable length. It ends at `skip`.
    BadFrame { skip: usize },
}

/// What the front of `buf` holds.
pub open spec fn parsed(buf: Seq<u8>) -> Parsed {
    match header_end(buf, 0) {
        None => Parsed::Incomplete,
        Some(end) => match declared_length(buf, 0, end) {
            Some(length) => if end + 4 + length > usize::MAX {
                Parsed::BadFrame { skip: (end + 4) as usize }
            } else if end + 4 + length <= buf.len() {
                Parsed::Frame { start: (end + 4) as usize, end: (end + 4 + length) as usize }
            } else {
                Parsed::Incomplete
            },
            None => Parsed::BadFrame { skip: (end + 4) as usize },
        },
    }
}

/// Where a header is found, it lies within the buffer, and is the first.
pub proof fn lemma_header_end_is_first(buf: Seq<u8>, from: int)
    requires
        0 <= from,
    ensures
        header_end(buf, from) matches Some(end) ==> from <= end && end + 4 <= buf.len()
            && header_ends_at(buf, end) && forall|i: int|
            from <= i < end ==> !header_ends_at(buf, i),
        header_end(buf, from) is None ==> forall|i: int| from <= i ==> !header_ends_at(buf, i),
    decreases buf.len() - from,
{
    if from + 4 > buf.len() {
    } else if header_ends_at(buf, from) {
    } else {
        lemma_header_end_is_first(buf, from + 1);
    }
}

/// The end of a line lies between its beginning and the limit, and no line
/// ends before it.
pub proof fn lemma_line_end_is_first(buf: Seq<u8>, from: int, limit: int)
    requires
        from <= limit,
    ensures
        from <= line_end(buf, from, limit) <= limit,
        line_end(buf, from, limit) < limit ==> line_ends_at(buf, line_end(buf, from, limit)),
        forall|i: int| from <= i < line_end(buf, from, limit) ==> !line_ends_at(buf, i),
    decreases limit - from,
{
    if from >= limit {
    } else if line_ends_at(buf, from) {
    } else {
        lemma_line_end_is_first(buf, from + 1, limit);
    }
}

/// The bytes of the name of the length header.
fn length_key_bytes() -> (key: Vec<u8>)
    ensures
        key@ == length_key(),
{
    let key: Vec<u8> = vec![67u8, 111u8, 110u8, 116u8, 101u8, 110u8, 116u8, 45u8, 76u8, 101u8, 110u8, 103u8, 116u8, 104u8, 58u8, 32u8];
    assert(key@ =~= length_key());
    key
}

/// Frames `body`: the header with its length, the empty line, the body.
pub fn encode(body: &[u8]) -> (frame: Vec<u8>)
    ensures
        frame@ == encoded(body@),
{
    let mut frame = length_key_bytes();
    let mut numeral = format_decimal(body.len());
    frame.append(&mut numeral);
    frame.push(13u8);
    frame.push(10u8);
    frame.push(13u8);
    frame.push(10u8);
    frame.extend_from_slice(body);
    assert(frame@ =~= encoded(body@));
    frame
}

/// Finds the end of the header.
fn find_header_end(buf: &[u8]) -> (found: Option<usize>)
    ensures
        match found {
            Some(end) => header_end(buf@, 0) == Some(end as int),
            None => header_end(buf@, 0) is None,
        },
{
    let len: usize = buf.len();
    if len < 4 {
        return None;
    }
    let mut i: usize = 0;
    while i <= len - 4
        invariant
            len == buf@.len(),
            len >= 4,
            i <= len - 3,
            header_end(buf@, 0) == header_end(buf@, i as int),
        decreases len - i,
    {
        if buf[i] == 13u8 && buf[i + 1] == 10u8 && buf[i + 2] == 13u8 && buf[i + 3] == 10u8 {
            return Some(i);
        }
        i = i + 1;
    }
    None
}

/// Finds the end of the line that begins at `from`.
fn find_line_end(buf: &[u8], from: usize, limit: usize) -> (end: usize)
    requires
        from <= limit < buf@.len(),
    ensures
        end == line_end(buf@, from as int, limit as int),
        from <= end <= limit,
{
    let mut i: usize = from;
    while i < limit
        invariant
            from <= i <= limit < buf@.len(),
            line_end(buf@, from as int, limit as int) == line_end(buf@, i as int, limit as int),
        decreases limit - i,
    {
        if buf[i] == 13u8 && buf[i + 1] == 10u8 {
            return i;
        }
        i = i + 1;
    }
    i
}

/// Tests whether the line from `from` up to `end` names the length header.
fn names_length(buf: &[u8], from: usize, end: usize) -> (named: bool)
    requires
        from <= end <= buf@.len(),
    ensures
        named == is_length_line(buf@.subrange(from as int, end as int)),
{
    let key = length_key_bytes();
    let ghost line = buf@.subrange(from as int, end as int);
    if end - from < key.len() {
        return false;
    }
    let mut i: usize = 0;
    while i < key.len()
        invariant
            from <= end <= buf@.len(),
            key@ == length_key(),
            key@.len() == 16,
            end - from >= key@.len(),
            i <= key@.len(),
            line == buf@.subrange(from as int, end as int),
            forall|j: int| 0 <= j < i ==> line[j] == key@[j],
        decreases key@.len() - i,
    {
        if buf[from + i] != key[i] {
            assert(line.subrange(0, 16)[i as int] != length_key()[i as int]);
            return false;
        }
        i = i + 1;
    }
    assert(line.subrange(0, 16) =~= length_key());
    true
}

/// Reads the length of the body from the header lines before `limit`.
fn read_declared_length(buf: &[u8], limit: usize) -> (length: Option<usize>)
    requires
        limit < buf@.len(),
    ensures
        length == declared_length(buf@, 0, limit as int),
{
    let len: usize = buf.len();
    let mut from: usize = 0;
    while from < limit
        invariant
            from <= limit + 2,
            limit < buf@.len(),
            len == buf@.len(),
            declared_length(buf@, 0, limit as int) == declared_length(
                buf@,
                from as int,
                limit as int,
            ),
        decreases limit + 2 - from,
    {
        let end = find_line_end(buf, from, limit);
        if names_length(buf, from, end) {
            let ghost line = buf@.subrange(from as int, end as int);
            assert(line.skip(16) =~= buf@.subrange(from + 16, end as int));
            return parse_decimal(buf, from + 16, end);
        }
        if end >= limit {
            return None;
        }
        proof {
            lemma_line_end_is_first(buf@, from as int, limit as int);
        }
        from = end + 2;
    }
    None
}

/// Says what the front of `buf` holds: a whole frame and where its body
/// lies, a header to be skipped, or too little to tell.
pub fn parse_frame(buf: &[u8]) -> (out: Parsed)
    ensures
        out == parsed(buf@),
        out matches Parsed::Frame { start, end } ==> start <= end <= buf@.len(),
        out matches Parsed::BadFrame { skip } ==> 4 <= skip <= buf@.len(),
{
    let end = match find_header_end(buf) {
        Some(end) => end,
        None => { return Parsed::Incomplete; },
    };
    proof {
        lemma_header_end_is_first(buf@, 0);
    }
    let len: usize = buf.len();
    let start: usize = end + 4;
    match read_declared_length(buf, end) {
        Some(length) => {
            if length > usize::MAX - start {
                Parsed::BadFrame { skip: start }
            } else if length <= len - start {
                Parsed::Frame { start, end: start + length }
            } else {
                Parsed::Incomplete
            }
        },
        None => Parsed::BadFrame { skip: start },
    }
}

/// Where a decoder stands in the stream.
#[derive(Clone, Copy, Debug, PartialEq, Eq, Structural)]
pub enum DecodeState {
    /// The header of the next frame is not complete, or gives no length.
    ReadingHeader,
    /// The header has announced a body of `length` bytes, of which
    /// `consumed` have arrived.
    ReadingBody { length: usize, consumed: usize },
}

/// Where a decoder that holds `buf` stands.
pub open spec fn reading(buf: Seq<u8>) -> DecodeState {
    match header_end(buf, 0) {
        None => DecodeState::ReadingHeader,
        Some(end) => match declared_length(buf, 0, end) {
            Some(length) => if end + 4 + length > usize::MAX {
                DecodeState::ReadingHeader
            } else if end + 4 + length <= buf.len() {
                DecodeState::ReadingBody { length, consumed: length }
            } else {
                DecodeState::ReadingBody { length, consumed: (buf.len() - end - 4) as usize }
            },
            None => DecodeState::ReadingHeader,
        },
    }
}

/// What is left of `buf` once the headers without a usable length at its
/// front have been dropped.
pub open spec fn resynchronized(buf: Seq<u8>) -> Seq<u8>
    decreases buf.len(),
{
    match parsed(buf) {
        Parsed::BadFrame { skip } => if 0 < skip <= buf.len() {
            resynchronized(buf.skip(skip as int))
        } else {
            buf
        },
        _ => buf,
    }
}

/// How many headers without a usable length stand at the front of `buf`.
pub open spec fn bad_frames(buf: Seq<u8>) -> nat
    decreases buf.len(),
{
    match parsed(buf) {
        Parsed::BadFrame { skip } => if 0 < skip <= buf.len() {
            1 + bad_frames(buf.skip(skip as int))
        } else {
            0
        },
        _ => 0,
    }
}

/// A header without a usable length.
#[derive(Clone, Copy, Debug, PartialEq, Eq, Structural)]
pub struct BadFrame {
    /// How many bytes were dropped with it.
    pub discarded: usize,
}

/// What one attempt to take a body from the stream came to.
#[derive(Debug, PartialEq, Eq)]
pub struct Taken {
    /// The body of the first frame with a usable header, if it is complete.
    pub body: Option<Vec<u8>>,
    /// How many headers without a usable length were dropped before it.
    pub dropped: usize,
}

/// The decoder of one stream. It keeps what has arrived and has not yet
/// been handed out, so a frame may arrive in any number of pieces.
#[derive(Debug)]
pub struct DebugAdapterCodec {
    buffer: Vec<u8>,
}

impl View for DebugAdapterCodec {
    type V = Seq<u8>;

    /// The bytes that have arrived and have not yet been handed out.
    closed spec fn view(&self) -> Seq<u8> {
        self.buffer@
    }
}

impl DebugAdapterCodec {
    /// A decoder at the beginning of a stream.
    pub fn new() -> (codec: DebugAdapterCodec)
        ensures
            codec@ == Seq::<u8>::empty(),
    {
        DebugAdapterCodec { buffer: Vec::new() }
    }

    /// How many bytes are held.
    pub fn buffered(&self) -> (count: usize)
        ensures
            count == self@.len(),
    {
        self.buffer.len()
    }

    /// Takes in the bytes that have arrived.
    pub fn feed(&mut self, bytes: &[u8])
        ensures
            final(self)@ == old(self)@ + bytes@,
    {
        self.buffer.extend_from_slice(bytes);
        assert(self.buffer@ =~= old(self).buffer@ + bytes@);
    }

    /// Where the decoder stands.
    pub fn state(&self) -> (state: DecodeState)
        ensures
            state == reading(self@),
    {
        let buf = self.buffer.as_slice();
        let end = match find_header_end(buf) {
            Some(end) => end,
            None => { return DecodeState::ReadingHeader; },
        };
        proof {
            lemma_header_end_is_first(buf@, 0);
        }
        let len: usize = buf.len();
        let start: usize = end + 4;
        match read_declared_length(buf, end) {
            Some(length) => {
                if length > usize::MAX - start {
                    DecodeState::ReadingHeader
                } else if length <= len - start {
                    DecodeState::ReadingBody { length, consumed: length }
                } else {
                    DecodeState::ReadingBody { length, consumed: len - start }
                }
            },
            None => DecodeState::ReadingHeader,
        }
    }

    /// Drops the first `count` bytes.
    fn discard(&mut self, count: usize)
        requires
            count <= old(self)@.len(),
        ensures
            final(self)@ == old(self)@.skip(count as int),
    {
        let rest = self.buffer.split_off(count);
        self.buffer = rest;
    }

    /// Takes the next frame off the stream, if it is complete: its body is
    /// handed out, and the frame leaves the buffer. A header without a
    /// usable length is dropped and reported. Where too little has arrived,
    /// nothing changes.
    pub fn decode(&mut self) -> (out: Option<Result<Vec<u8>, BadFrame>>)
        ensures
            match parsed(old(self)@) {
                Parsed::Incomplete => out is None && final(self)@ == old(self)@,
                Parsed::Frame { start, end } => {
                    &&& out matches Some(Ok(body))
                    &&& body@ == old(self)@.subrange(start as int, end as int)
                    &&& final(self)@ == old(self)@.skip(end as int)
                },
                Parsed::BadFrame { skip } => {
                    &&& out == Some(Err::<Vec<u8>, BadFrame>(BadFrame { discarded: skip }))
                    &&& final(self)@ == old(self)@.skip(skip as int)
                },
            },
    {
        match parse_frame(self.buffer.as_slice()) {
            Parsed::Incomplete => None,
            Parsed::Frame { start, end } => {
                let rest = self.buffer.split_off(end);
                let body = self.buffer.split_off(start);
                self.buffer = rest;
                assert(body@ =~= old(self)@.subrange(start as int, end as int));
                Some(Ok(body))
            },
            Parsed::BadFrame { skip } => {
                self.discard(skip);
                Some(Err(BadFrame { discarded: skip }))
            },
        }
    }

    /// Takes the body of the next frame with a usable header off the stream,
    /// dropping every header without one that stands before it. Where that
    /// frame is not complete, its bytes stay for the next attempt.
    pub fn next_body(&mut self) -> (taken: Taken)
        ensures
            taken.dropped == bad_frames(old(self)@),
            match parsed(resynchronized(old(self)@)) {
                Parsed::Frame { start, end } => {
                    &&& taken.body matches Some(body)
                    &&& body@ == resynchronized(old(self)@).subrange(start as int, end as int)
                    &&& final(self)@ == resynchronized(old(self)@).skip(end as int)
                },
                _ => taken.body is None && final(self)@ == resynchronized(old(self)@),
            },
            !(parsed(resynchronized(old(self)@)) is BadFrame),
    {
        let mut dropped: usize = 0;
        let held: usize = self.buffer.len();
        loop
            invariant
                held == old(self)@.len(),
                resynchronized(self@) == resynchronized(old(self)@),
                dropped + bad_frames(self@) == bad_frames(old(self)@),
                dropped + self@.len() <= old(self)@.len(),
            decreases self@.len(),
        {
            proof {
                lemma_header_end_is_first(self@, 0);
            }
            match self.decode() {
                None => {
                    return Taken { body: None, dropped };
                },
                Some(Ok(body)) => {
                    return Taken { body: Some(body), dropped };
                },
                Some(Err(_)) => {
                    dropped = dropped + 1;
                },
            }
        }
    }
}

/// What the header of a frame tells: a buffer that begins with the header
/// for a body of `length` bytes has its header end behind the numeral, and
/// declares that length.
pub proof fn lemma_header_is_read_back(buf: Seq<u8>, length: usize)
    requires
        buf.len() >= header_line_len(length as nat) + 4,
        buf.subrange(0, header_line_len(length as nat) + 4) == length_key() + digits(
            length as nat,
        ) + header_terminator(),
    ensures
        header_end(buf, 0) == Some(header_line_len(length as nat)),
        declared_length(buf, 0, header_line_len(length as nat)) == Some(length),
{
    let numeral = digits(length as nat);
    let h = (16 + numeral.len()) as int;
    let head = length_key() + numeral + header_terminator();
    lemma_digits_denote(length as nat);
    assert(length_key().len() == 16);
    assert forall|i: int| 0 <= i < h + 4 implies buf[i] == head[i] by {
        assert(buf.subrange(0, h + 4)[i] == buf[i]);
    }
    assert forall|i: int| 0 <= i < h implies buf[i] != 13 by {
        assert(buf[i] == head[i]);
        if i < 16 {
            assert(head[i] == length_key()[i]);
        } else {
            assert(head[i] == numeral[i - 16]);
            assert(crate::decimal::is_digit(numeral[i - 16]));
        }
    }
    assert(buf[h] == head[h] && buf[h + 1] == head[h + 1] && buf[h + 2] == head[h + 2] && buf[h
        + 3] == head[h + 3]);
    assert(header_ends_at(buf, h));
    lemma_header_end_is_first(buf, 0);
    assert(header_end(buf, 0) == Some(h)) by {
        match header_end(buf, 0) {
            None => {
                assert(!header_ends_at(buf, h));
            },
            Some(found) => {
                if found < h {
                    assert(buf[found] != 13);
                } else if found > h {
                    assert(!header_ends_at(buf, h));
                }
            },
        }
    }
    lemma_line_end_is_first(buf, 0, h);
    let end = line_end(buf, 0, h);
    if end < h {
        assert(buf[end] != 13);
    }
    assert(end == h);
    let line = buf.subrange(0, h);
    assert(line.subrange(0, 16) =~= length_key());
    assert(line.skip(16) =~= numeral);
    assert(is_length_line(line));
}

/// Decoding undoes encoding: a buffer that begins with the frame of `body`
/// holds a whole frame whose body is `body`, and what stands behind the frame
/// is left for the next one.
pub proof fn lemma_decode_inverts_encode(body: Seq<u8>, rest: Seq<u8>)
    requires
        encoded(body).len() + rest.len() <= usize::MAX,
    ensures
        parsed(encoded(body) + rest) == (Parsed::Frame {
            start: (encoded(body).len() - body.len()) as usize,
            end: encoded(body).len() as usize,
        }),
        (encoded(body) + rest).subrange(
            encoded(body).len() - body.len(),
            encoded(body).len() as int,
        ) == body,
        (encoded(body) + rest).skip(encoded(body).len() as int) == rest,
        reading(encoded(body) + rest) == (DecodeState::ReadingBody {
            length: body.len() as usize,
            consumed: body.len() as usize,
        }),
{
    let buf = encoded(body) + rest;
    let length = body.len() as usize;
    let h = header_line_len(body.len());
    assert(buf.subrange(0, h + 4) =~= length_key() + digits(length as nat) + header_terminator());
    lemma_header_is_read_back(buf, length);
    assert(buf.subrange(encoded(body).len() - body.len(), encoded(body).len() as int) =~= body);
    assert(buf.skip(encoded(body).len() as int) =~= rest);
}

/// A frame may arrive in pieces: as long as a part of it is missing, the
/// decoder waits and keeps what it has, and once the header is in it knows
/// how much of the body has arrived.
pub proof fn lemma_partial_frame_is_incomplete(body: Seq<u8>, arrived: int)
    requires
        encoded(body).len() <= usize::MAX,
        0 <= arrived < encoded(body).len(),
    ensures
        parsed(encoded(body).subrange(0, arrived)) == Parsed::Incomplete,
        arrived >= encoded(body).len() - body.len() ==> reading(encoded(body).subrange(0, arrived))
            == (DecodeState::ReadingBody {
            length: body.len() as usize,
            consumed: (arrived - (encoded(body).len() - body.len())) as usize,
        }),
        arrived < encoded(body).len() - body.len() ==> reading(encoded(body).subrange(0, arrived))
            == DecodeState::ReadingHeader,
{
    let whole = encoded(body);
    let buf = whole.subrange(0, arrived);
    let length = body.len() as usize;
    let numeral = digits(body.len());
    let h = (length_key().len() + numeral.len()) as int;
    assert(length_key().len() == 16);
    if arrived >= h + 4 {
        assert(buf.subrange(0, h + 4) =~= length_key() + numeral + header_terminator());
        lemma_header_is_read_back(buf, length);
    } else {
        lemma_digits_denote(body.len());
        lemma_header_end_is_first(buf, 0);
        match header_end(buf, 0) {
            None => {},
            Some(found) => {
                assert(found + 4 <= arrived);
                assert(buf[found] == whole[found]);
                if found < 16 {
                    assert(whole[found] == length_key()[found]);
                } else {
                    assert(whole[found] == numeral[found - 16]);
                    assert(crate::decimal::is_digit(numeral[found - 16]));
                }
            },
        }
    }
}

} // verus!
