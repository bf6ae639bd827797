//! Lines of text in a buffer of bytes: where a line ends, what reading one
//! yields, and a source that hands them out one by one.

use vstd::prelude::*;
use vstd::utf8::decode_utf8;
use vstd::utf8::valid_utf8;
use crate::text::decode;

verus! {

/// The byte that ends a line.
pub const NEWLINE: u8 = 10u8;

/// The one way in which an exchange with the user fails: the stream could not
/// be written to, or gave no text.
#[derive(Debug, Clone, Copy, PartialEq, Eq, Structural)]
pub struct IoFailure {}

/// The number of bytes in the first line of `bytes`: up to and including the
/// first newline, or all of them where there is none.
pub open spec fn line_length(bytes: Seq<u8>) -> nat
    decreases bytes.len(),
{
    if bytes.len() == 0 {
        0
    } else if bytes.first() == NEWLINE {
        1
    } else {
        1 + line_length(bytes.drop_first())
    }
}

/// The first line of `bytes`, its newline included.
pub open spec fn first_line(bytes: Seq<u8>) -> Seq<u8> {
    bytes.take(line_length(bytes) as int)
}

/// What is left of `bytes` behind its first line.
pub open spec fn after_line(bytes: Seq<u8>) -> Seq<u8> {
    bytes.skip(line_length(bytes) as int)
}

/// A line without the newline at its end, where it has one.
pub open spec fn without_break(line: Seq<u8>) -> Seq<u8> {
    if line.len() > 0 && line.last() == NEWLINE {
        line.drop_last()
    } else {
        line
    }
}

/// What reading one line from `bytes` yields: the first line without its
/// newline and otherwise as it stands, or a failure where that line is not
/// UTF-8. At the end of the bytes the line is empty.
pub open spec fn line_read(bytes: Seq<u8>) -> Result<Seq<char>, IoFailure> {
    if valid_utf8(without_break(first_line(bytes))) {
        Ok(decode_utf8(without_break(first_line(bytes))))
    } else {
        Err(IoFailure {  })
    }
}

/// A line never runs past the end of the bytes, and holds at least one byte
/// where there are any.
pub proof fn line_length_bounds(bytes: Seq<u8>)
    ensures
        line_length(bytes) <= bytes.len(),
        bytes.len() > 0 ==> line_length(bytes) >= 1,
    decreases bytes.len(),
{
    if bytes.len() > 0 && bytes.first() != NEWLINE {
        line_length_bounds(bytes.drop_first());
    }
}

/// Behind `count` bytes that hold no newline, the first line goes on.
proof fn line_length_behind(bytes: Seq<u8>, count: int)
    requires
        0 <= count <= bytes.len(),
        forall|i: int| 0 <= i < count ==> bytes[i] != NEWLINE,
    ensures
        line_length(bytes) == count + line_length(bytes.skip(count)),
    decreases count,
{
    if count == 0 {
        assert(bytes.skip(0) =~= bytes);
    } else {
        let rest = bytes.drop_first();
        assert(forall|i: int| 0 <= i < count - 1 ==> rest[i] == bytes[i + 1]);
        line_length_behind(rest, count - 1);
        assert(rest.skip(count - 1) =~= bytes.skip(count));
    }
}

/// A buffer of bytes that is read line by line, from the front.
pub struct Source {
    bytes: Vec<u8>,
    at: usize,
}

impl Clone for Source {
    /// A source with the same bytes still to read.
    fn clone(&self) -> (copy: Source)
        ensures
            copy.unread() == self.unread(),
    {
        self.rest()
    }
}

impl Source {
    /// The bytes that no read has taken yet.
    pub closed spec fn unread(&self) -> Seq<u8> {
        if self.at <= self.bytes@.len() {
            self.bytes@.skip(self.at as int)
        } else {
            Seq::empty()
        }
    }

    /// A source with all of `bytes` still to read.
    pub fn new(bytes: Vec<u8>) -> (source: Source)
        ensures
            source.unread() == bytes@,
    {
        let source = Source { bytes, at: 0 };
        assert(source.bytes@.skip(0) =~= bytes@);
        source
    }

    /// Whether every byte has been read.
    pub fn is_empty(&self) -> (empty: bool)
        ensures
            empty == (self.unread().len() == 0),
    {
        self.at >= self.bytes.len()
    }

    /// A source of its own that holds the unread bytes.
    pub fn rest(&self) -> (copy: Source)
        ensures
            copy.unread() == self.unread(),
    {
        let mut bytes: Vec<u8> = Vec::new();
        let mut from: usize = self.at;
        while from < self.bytes.len()
            invariant
                self.at <= from,
                self.at <= self.bytes@.len() ==> from <= self.bytes@.len(),
                from <= self.bytes@.len() ==> bytes@ == self.bytes@.subrange(self.at as int, from as int),
                from > self.bytes@.len() ==> bytes@.len() == 0,
            decreases self.bytes@.len() - from,
        {
            bytes.push(self.bytes[from]);
            from = from + 1;
            assert(bytes@ =~= self.bytes@.subrange(self.at as int, from as int));
        }
        let copy = Source { bytes, at: 0 };
        assert(copy.unread() =~= self.unread());
        copy
    }

    /// Takes the first unread line, its newline included.
    pub fn next_line(&mut self) -> (line: Vec<u8>)
        ensures
            line@ == first_line(old(self).unread()),
            final(self).unread() == after_line(old(self).unread()),
    {
        let mut line: Vec<u8> = Vec::new();
        let ghost unread = self.unread();
        let ghost start: int = self.at as int;
        let mut ended: bool = false;
        while !ended && self.at < self.bytes.len()
            invariant
                self.bytes == old(self).bytes,
                old(self).at <= self.bytes@.len() ==> start <= self.at <= self.bytes@.len(),
                old(self).at > self.bytes@.len() ==> self.at == start && !ended,
                start == old(self).at,
                unread == old(self).unread(),
                line@ == unread.take(self.at - start),
                ended ==> self.at > start && self.bytes@[self.at - 1] == NEWLINE,
                forall|i: int| start <= i < self.at - (if ended { 1int } else { 0int }) ==> self.bytes@[i] != NEWLINE,
            decreases self.bytes@.len() - self.at + (if ended { 0int } else { 1int }),
        {
            let byte: u8 = self.bytes[self.at];
            line.push(byte);
            self.at = self.at + 1;
            ended = byte == NEWLINE;
            assert(line@ =~= unread.take(self.at - start));
        }
        proof {
            if start <= self.bytes@.len() {
                let count: int = self.at - start - (if ended { 1int } else { 0int });
                line_length_behind(unread, count);
                let rest = unread.skip(count);
                if ended {
                    assert(rest.first() == NEWLINE);
                } else {
                    assert(rest.len() == 0);
                }
                assert(line_length(unread) == self.at - start);
                assert(self.unread() =~= unread.skip(self.at - start));
            } else {
                assert(line@ =~= unread.take(0));
                assert(self.unread() =~= unread.skip(0));
            }
        }
        line
    }

    /// Reads one line: the first unread line without its newline, or a
    /// failure where its bytes are not UTF-8. The line is taken in either
    /// case.
    pub fn read_line(&mut self) -> (read: Result<String, IoFailure>)
        ensures
            read is Ok <==> line_read(old(self).unread()) is Ok,
            read is Ok ==> read->Ok_0@ == line_read(old(self).unread())->Ok_0,
            final(self).unread() == after_line(old(self).unread()),
    {
        let mut line = self.next_line();
        let length = line.len();
        if length > 0 && line[length - 1] == NEWLINE {
            line.pop();
        }
        assert(line@ =~= without_break(first_line(old(self).unread())));
        match decode(line) {
            Some(text) => Ok(text),
            None => Err(IoFailure {  }),
        }
    }
}

} // verus!
