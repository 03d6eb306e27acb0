//! Frame reading: turning the bytes received so far into whole frames.
//!
//! A frame reader owns a buffer of received bytes. After each arrival it
//! tries its strategy on the buffer; a strategy either finds a whole frame,
//! and the bytes it used leave the front of the buffer, or reports that more
//! bytes are needed, and the buffer is kept for the next attempt.
use vstd::prelude::*;
use vstd::utf8::{
    valid_utf8, decode_utf8, valid_first_scalar, length_of_first_scalar, decode_first_scalar,
    pop_first_scalar,
};

verus! {

/// The ways reading a frame can fail.
#[derive(Debug, PartialEq, Eq)]
pub enum Error {
    /// The bytes so far hold no whole frame yet.
    Incomplete,
    /// A line is not valid UTF-8.
    BadEncoding,
    /// The stream ended before a whole frame arrived.
    EndOfStream,
    /// The transport failed; the text describes how.
    Io(String),
    /// The bytes cannot be the start of any JSON value.
    Malformed,
}

/// Carriage return.
pub const CR: u8 = 13;

/// Line feed.
pub const LF: u8 = 10;

/// The first position at or after `i` where a CR is directly followed by an
/// LF. A CR that is followed by anything else is part of the line.
pub open spec fn first_crlf_from(b: Seq<u8>, i: int) -> Option<int>
    decreases b.len() - i,
{
    if i < 0 || i + 1 >= b.len() {
        None
    } else if b[i] == CR && b[i + 1] == LF {
        Some(i)
    } else {
        first_crlf_from(b, i + 1)
    }
}

/// The text of valid UTF-8 bytes.
pub open spec fn text_of(b: Seq<u8>) -> Option<Seq<char>> {
    if valid_utf8(b) {
        Some(decode_utf8(b))
    } else {
        None
    }
}

/// What reading `n` lines from position `start` of `b` gives: the lines'
/// text and the position just after the last terminator.
pub open spec fn lines_outcome(b: Seq<u8>, start: int, n: nat) -> Result<
    (Seq<Seq<char>>, int),
    Error,
>
    decreases n,
{
    if n == 0 {
        Ok((Seq::empty(), start))
    } else {
        match first_crlf_from(b, start) {
            None => Err(Error::Incomplete),
            Some(e) => match text_of(b.subrange(start, e)) {
                None => Err(Error::BadEncoding),
                Some(line) => match lines_outcome(b, e + 2, (n - 1) as nat) {
                    Ok((rest, end)) => Ok((seq![line].add(rest), end)),
                    Err(x) => Err(x),
                },
            },
        }
    }
}

/// The text of each string, in order.
pub open spec fn views(v: Seq<String>) -> Seq<Seq<char>> {
    v.map_values(|s: String| s@)
}

/// Puts `acc` in front of the lines of a successful outcome.
pub open spec fn prepend(acc: Seq<Seq<char>>, r: Result<(Seq<Seq<char>>, int), Error>) -> Result<
    (Seq<Seq<char>>, int),
    Error,
> {
    match r {
        Ok((ls, e)) => Ok((acc + ls, e)),
        Err(x) => Err(x),
    }
}

/// A terminator found from `i` lies at or after `i`, inside the bytes.
pub proof fn lemma_first_crlf_bounds(b: Seq<u8>, i: int)
    ensures
        first_crlf_from(b, i) matches Some(e) ==> i <= e && e + 1 < b.len() && b[e] == CR && b[e
            + 1] == LF,
    decreases b.len() - i,
{
    if !(i < 0 || i + 1 >= b.len()) && !(b[i] == CR && b[i + 1] == LF) {
        lemma_first_crlf_bounds(b, i + 1);
    }
}

/// Lines read from `start` end inside the bytes, one text per line.
pub proof fn lemma_lines_bounds(b: Seq<u8>, start: int, n: nat)
    requires
        0 <= start <= b.len(),
    ensures
        lines_outcome(b, start, n) matches Ok((ls, e)) ==> start <= e <= b.len() && ls.len() == n,
    decreases n,
{
    if n > 0 {
        lemma_first_crlf_bounds(b, start);
        if let Some(e) = first_crlf_from(b, start) {
            lemma_lines_bounds(b, e + 2, (n - 1) as nat);
        }
    }
}

/// More bytes after a found terminator do not move it.
pub proof fn lemma_first_crlf_extend(b: Seq<u8>, more: Seq<u8>, i: int)
    requires
        first_crlf_from(b, i) is Some,
    ensures
        first_crlf_from(b + more, i) == first_crlf_from(b, i),
    decreases b.len() - i,
{
    let bm = b + more;
    if !(b[i] == CR && b[i + 1] == LF) {
        lemma_first_crlf_extend(b, more, i + 1);
    }
    assert(bm[i] == b[i] && bm[i + 1] == b[i + 1]);
}

/// Once the bytes from `start` settle the outcome of reading `n` lines,
/// bytes that arrive later leave it as it is.
pub proof fn lemma_lines_extend(b: Seq<u8>, more: Seq<u8>, start: int, n: nat)
    requires
        0 <= start <= b.len(),
        lines_outcome(b, start, n) != Err::<(Seq<Seq<char>>, int), Error>(Error::Incomplete),
    ensures
        lines_outcome(b + more, start, n) == lines_outcome(b, start, n),
    decreases n,
{
    if n > 0 {
        let e = first_crlf_from(b, start)->0;
        lemma_first_crlf_extend(b, more, start);
        lemma_first_crlf_bounds(b, start);
        assert((b + more).subrange(start, e) =~= b.subrange(start, e));
        if text_of(b.subrange(start, e)) is Some {
            lemma_lines_extend(b, more, e + 2, (n - 1) as nat);
        }
    }
}

/// On the first `j` bytes, a terminator is found where it lies whole inside
/// them, and none is found otherwise.
pub proof fn lemma_first_crlf_prefix(b: Seq<u8>, j: int, i: int)
    requires
        first_crlf_from(b, i) is Some,
        0 <= i,
        0 <= j <= b.len(),
    ensures
        first_crlf_from(b.subrange(0, j), i) == if first_crlf_from(b, i)->0 + 2 <= j {
            first_crlf_from(b, i)
        } else {
            None
        },
    decreases b.len() - i,
{
    let q = b.subrange(0, j);
    lemma_first_crlf_bounds(b, i);
    if i + 1 < q.len() {
        assert(q[i] == b[i] && q[i + 1] == b[i + 1]);
        if !(b[i] == CR && b[i + 1] == LF) {
            lemma_first_crlf_prefix(b, j, i + 1);
        }
    }
}

/// Bytes that stop short of the end of `n` lines read from `start` hold no
/// whole frame yet: reading them asks for more bytes.
pub proof fn lemma_lines_prefix_incomplete(b: Seq<u8>, j: int, start: int, n: nat)
    requires
        0 <= start <= j <= b.len(),
        lines_outcome(b, start, n) matches Ok((ls, k)) && j < k,
    ensures
        lines_outcome(b.subrange(0, j), start, n) == Err::<(Seq<Seq<char>>, int), Error>(
            Error::Incomplete,
        ),
    decreases n,
{
    let q = b.subrange(0, j);
    let e = first_crlf_from(b, start)->0;
    lemma_first_crlf_prefix(b, j, start);
    lemma_first_crlf_bounds(b, start);
    if e + 2 <= j {
        assert(q.subrange(start, e) =~= b.subrange(start, e));
        lemma_lines_prefix_incomplete(b, j, e + 2, (n - 1) as nat);
    }
}

/// What the frame reader with the line strategy returns when, after the
/// bytes `acc`, the stream brings `chunks` one after the other: it tries
/// the strategy after each arrival and stops at the first outcome that does
/// not ask for more bytes.
pub open spec fn lines_in_chunks(acc: Seq<u8>, chunks: Seq<Seq<u8>>, n: nat) -> Result<
    (Seq<Seq<char>>, int),
    Error,
>
    decreases chunks.len(),
{
    if chunks.len() == 0 || lines_outcome(acc, 0, n) != Err::<(Seq<Seq<char>>, int), Error>(
        Error::Incomplete,
    ) {
        lines_outcome(acc, 0, n)
    } else {
        lines_in_chunks(acc + chunks[0], chunks.drop_first(), n)
    }
}

/// Reading lines from a stream that arrives in chunks of any sizes gives
/// what reading the same bytes in one piece gives.
pub proof fn lemma_lines_chunking(chunks: Seq<Seq<u8>>, n: nat)
    ensures
        lines_in_chunks(Seq::empty(), chunks, n) == lines_outcome(chunks.flatten(), 0, n),
{
    lemma_lines_chunking_from(Seq::empty(), chunks, n);
    assert(Seq::<u8>::empty() + chunks.flatten() =~= chunks.flatten());
}

/// The same law after some bytes `acc` have already arrived.
pub proof fn lemma_lines_chunking_from(acc: Seq<u8>, chunks: Seq<Seq<u8>>, n: nat)
    ensures
        lines_in_chunks(acc, chunks, n) == lines_outcome(acc + chunks.flatten(), 0, n),
    decreases chunks.len(),
{
    if chunks.len() == 0 {
        assert(acc + chunks.flatten() =~= acc);
    } else if lines_outcome(acc, 0, n) != Err::<(Seq<Seq<char>>, int), Error>(Error::Incomplete) {
        lemma_lines_extend(acc, chunks.flatten(), 0, n);
    } else {
        lemma_lines_chunking_from(acc + chunks[0], chunks.drop_first(), n);
        assert(acc + chunks[0] + chunks.drop_first().flatten() =~= acc + chunks.flatten());
    }
}

/// Whether `t` is the start of the encoding of one character, cut short
/// before its last byte.
pub open spec fn partial_char(t: Seq<u8>) -> bool {
    1 <= t.len() <= 3 && exists|more: Seq<u8>|
        valid_first_scalar(#[trigger] (t + more)) && length_of_first_scalar(t + more) > t.len()
}

/// Whether `b` is UTF-8 text followed by one character cut short, as a
/// buffer is when a chunk ends inside a character.
pub open spec fn ends_in_partial_char(b: Seq<u8>) -> bool {
    exists|k: int|
        1 <= k <= 3 && k <= b.len() && valid_utf8(b.subrange(0, b.len() - k)) && #[trigger] partial_char(
            b.subrange(b.len() - k, b.len() as int),
        )
}

/// Relies on std::str::from_utf8: the bytes are accepted exactly when they
/// are UTF-8, and then give the text they encode. On rejection,
/// Utf8Error::error_len is None exactly when the input ended inside a
/// character after valid text; the error is then `Err(true)`.
#[verifier::external_body]
pub(crate) fn utf8_str(b: &[u8]) -> (r: Result<&str, bool>)
    ensures
        r is Ok <==> valid_utf8(b@),
        r is Ok ==> r->Ok_0@ == decode_utf8(b@),
        r is Err ==> (r->Err_0 <==> ends_in_partial_char(b@)),
{
    std::str::from_utf8(b).map_err(|e| e.error_len().is_none())
}

/// The first character of a sequence, read from a longer one that starts
/// with the same bytes.
proof fn lemma_same_first_scalar(a: Seq<u8>, s: Seq<u8>)
    requires
        valid_first_scalar(s),
        length_of_first_scalar(s) <= a.len(),
        forall|i: int| 0 <= i < length_of_first_scalar(s) ==> a[i] == s[i],
    ensures
        valid_first_scalar(a),
        length_of_first_scalar(a) == length_of_first_scalar(s),
        decode_first_scalar(a) == decode_first_scalar(s),
{
    let l = length_of_first_scalar(s);
    assert(a[0] == s[0]);
    if l >= 2 {
        assert(a[1] == s[1]);
    }
    if l >= 3 {
        assert(a[2] == s[2]);
    }
    if l >= 4 {
        assert(a[3] == s[3]);
    }
}

/// Bytes that valid UTF-8 text starts with are valid text, or valid text
/// followed by one character cut short.
pub proof fn lemma_utf8_prefix(b: Seq<u8>, more: Seq<u8>)
    requires
        valid_utf8(b + more),
        !valid_utf8(b),
    ensures
        ends_in_partial_char(b),
    decreases b.len(),
{
    let s = b + more;
    assert(valid_first_scalar(s));
    let l = length_of_first_scalar(s);
    if l > b.len() {
        assert(b.subrange(0, 0) =~= Seq::<u8>::empty());
        assert(b.subrange(b.len() - b.len(), b.len() as int) =~= b);
        assert(valid_first_scalar(b + more) && length_of_first_scalar(b + more) > b.len());
        assert(partial_char(b));
        assert(valid_utf8(b.subrange(0, b.len() - b.len())));
    } else {
        lemma_same_first_scalar(b, s);
        let rest = pop_first_scalar(b);
        assert(rest + more =~= pop_first_scalar(s));
        lemma_utf8_prefix(rest, more);
        let k = choose|k: int|
            1 <= k <= 3 && k <= rest.len() && valid_utf8(rest.subrange(0, rest.len() - k))
                && #[trigger] partial_char(rest.subrange(rest.len() - k, rest.len() as int));
        let p = b.subrange(0, b.len() - k);
        lemma_same_first_scalar(p, s);
        assert(pop_first_scalar(p) =~= rest.subrange(0, rest.len() - k));
        assert(b.subrange(b.len() - k, b.len() as int) =~= rest.subrange(
            rest.len() - k,
            rest.len() as int,
        ));
    }
}

/// The byte at `pos`, if the buffer reaches that far.
pub fn get_byte(buf: &[u8], pos: usize) -> (r: Option<u8>)
    ensures
        pos < buf@.len() ==> r == Some(buf@[pos as int]),
        pos >= buf@.len() ==> r is None,
{
    if pos < buf.len() {
        Some(buf[pos])
    } else {
        None
    }
}

/// The line strategy: reads a fixed number of CR-LF terminated lines.
pub struct LinesResponse {
    pub nb_lines: u8,
}

impl LinesResponse {
    /// A strategy that reads `nb_lines` lines.
    pub fn new(nb_lines: u8) -> (r: LinesResponse)
        ensures
            r.nb_lines == nb_lines,
    {
        LinesResponse { nb_lines }
    }

    /// Reads the line that starts at `start`: its text and the position
    /// after its terminator.
    pub fn read_line(buf: &[u8], start: usize) -> (r: Result<(String, usize), Error>)
        requires
            start <= buf@.len(),
        ensures
            match first_crlf_from(buf@, start as int) {
                None => r == Err::<(String, usize), Error>(Error::Incomplete),
                Some(e) => match text_of(buf@.subrange(start as int, e)) {
                    None => r == Err::<(String, usize), Error>(Error::BadEncoding),
                    Some(line) => r is Ok && r->Ok_0.0@ == line && r->Ok_0.1 == e + 2,
                },
            },
            r is Ok ==> r->Ok_0.1 <= buf@.len(),
    {
        let mut i: usize = start;
        loop
            invariant
                start <= i <= buf@.len(),
                first_crlf_from(buf@, start as int) == first_crlf_from(buf@, i as int),
            ensures
                i + 1 < buf@.len(),
                first_crlf_from(buf@, start as int) == Some(i as int),
            decreases buf@.len() - i,
        {
            if buf.len() - i < 2 {
                return Err(Error::Incomplete);
            }
            match (get_byte(buf, i), get_byte(buf, i + 1)) {
                (Some(c), Some(d)) => {
                    if c == CR && d == LF {
                        break;
                    }
                },
                _ => {},
            }
            i = i + 1;
        }
        let len = buf.len();
        assert(i + 2 <= len);
        let slice = vstd::slice::slice_subrange(buf, start, i);
        match utf8_str(slice) {
            Ok(line) => Ok((line.to_owned(), i + 2)),
            Err(_) => Err(Error::BadEncoding),
        }
    }
}

impl LinesResponse {
    /// Reads the strategy's lines from the front of `buf`: their text and
    /// how many bytes they took, terminators included.
    pub fn read(&self, buf: &[u8]) -> (r: Result<(Vec<String>, usize), Error>)
        ensures
            match lines_outcome(buf@, 0, self.nb_lines as nat) {
                Ok((ls, e)) => r is Ok && views(r->Ok_0.0@) == ls && r->Ok_0.1 == e,
                Err(x) => r == Err::<(Vec<String>, usize), Error>(x),
            },
    {
        let mut lines: Vec<String> = Vec::new();
        let mut pos: usize = 0;
        let mut k: u8 = 0;
        while k < self.nb_lines
            invariant
                pos <= buf@.len(),
                k <= self.nb_lines,
                lines_outcome(buf@, 0, self.nb_lines as nat) == prepend(
                    views(lines@),
                    lines_outcome(buf@, pos as int, (self.nb_lines - k) as nat),
                ),
            decreases self.nb_lines - k,
        {
            let ghost m = (self.nb_lines - k) as nat;
            match Self::read_line(buf, pos) {
                Ok((line, next)) => {
                    let ghost before = views(lines@);
                    lines.push(line);
                    assert(views(lines@) =~= before.push(line@));
                    proof {
                        let rest = lines_outcome(buf@, next as int, (m - 1) as nat);
                        if let Ok((ls, e)) = rest {
                            assert(before + (seq![line@] + ls) =~= before.push(line@) + ls);
                        }
                    }
                    pos = next;
                },
                Err(e) => {
                    return Err(e);
                },
            }
            k = k + 1;
        }
        assert(views(lines@) + Seq::<Seq<char>>::empty() =~= views(lines@));
        Ok((lines, pos))
    }

    /// One attempt of the frame reader with this strategy: on success the
    /// lines are returned and the bytes they took leave the front of
    /// `buffer`; on failure the buffer is unchanged.
    pub fn read_frame(&self, buffer: &mut Vec<u8>) -> (r: Result<Vec<String>, Error>)
        ensures
            match lines_outcome(old(buffer)@, 0, self.nb_lines as nat) {
                Ok((ls, e)) => r is Ok && views(r->Ok_0@) == ls && final(buffer)@ == old(
                    buffer,
                )@.subrange(e, old(buffer)@.len() as int),
                Err(x) => r == Err::<Vec<String>, Error>(x) && final(buffer)@ == old(buffer)@,
            },
    {
        proof {
            lemma_lines_bounds(buffer@, 0, self.nb_lines as nat);
        }
        match self.read(buffer.as_slice()) {
            Ok((lines, used)) => {
                let rest = buffer.split_off(used);
                *buffer = rest;
                Ok(lines)
            },
            Err(e) => Err(e),
        }
    }
}

/// Adds bytes that arrived to the buffer. A read of no bytes means that the
/// stream has ended.
pub fn accept_bytes(buffer: &mut Vec<u8>, chunk: &[u8]) -> (r: Result<(), Error>)
    ensures
        chunk@.len() == 0 ==> r == Err::<(), Error>(Error::EndOfStream) && final(buffer)@ == old(
            buffer,
        )@,
        chunk@.len() > 0 ==> r is Ok && final(buffer)@ == old(buffer)@ + chunk@,
{
    if chunk.len() == 0 {
        return Err(Error::EndOfStream);
    }
    let ghost start = buffer@;
    let mut i: usize = 0;
    while i < chunk.len()
        invariant
            i <= chunk@.len(),
            buffer@ == start + chunk@.subrange(0, i as int),
        decreases chunk@.len() - i,
    {
        buffer.push(chunk[i]);
        assert(start + chunk@.subrange(0, i + 1) =~= start + chunk@.subrange(0, i as int) + seq![
            chunk@[i as int],
        ]);
        i = i + 1;
    }
    assert(chunk@.subrange(0, chunk@.len() as int) =~= chunk@);
    Ok(())
}

} // verus!
