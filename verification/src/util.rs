//! The padding rule and the byte cursor.

use crate::error::{eof_at, ParseError, ParseErrorKind};
use vstd::prelude::*;

verus! {

/// `n` divided by `block`, rounded toward zero.
pub open spec fn quotient_toward_zero(n: int, block: int) -> int {
    if n >= 0 {
        n / block
    } else {
        -((-n) / block)
    }
}

/// The room that `length` bytes take in blocks of `block` bytes when a
/// section never ends on a block boundary: the whole blocks in `length`, and
/// one more.
pub open spec fn block_span(length: int, block: int) -> int {
    (quotient_toward_zero(length, block) + 1) * block
}

/// The room of a section of the header: none for an absent section, else
/// its span in blocks of 512 bytes.
pub open spec fn padded_length(length: int) -> int {
    if length == 0 {
        0
    } else {
        block_span(length, 512)
    }
}

/// The largest length whose padded form still fits in an `i32`.
pub const MAX_PADDABLE_LENGTH: i32 = 0x7FFF_FDFF;

/// Pads a length of the header to blocks of 512 bytes. A length that is
/// already a multiple of 512 gains a whole block.
pub fn alter_length(length: i32) -> (padded: i32)
    requires
        length <= MAX_PADDABLE_LENGTH,
    ensures
        padded == padded_length(length as int),
        length == 0 ==> padded == 0,
        length > 0 ==> padded % 512 == 0,
        length > 0 && length % 512 == 0 ==> padded > length,
        length > 0 && length % 512 != 0 ==> length <= padded < length + 512,
        length > 0 ==> padded == length - length % 512 + 512,
{
    if length != 0 {
        (length / 512 + 1) * 512
    } else {
        length
    }
}

/// The span of `length` bytes in blocks of 512 or of 1024 bytes, in a type
/// wide enough for every `length`.
pub fn span_in_blocks(length: i32, block: i32) -> (span: i64)
    requires
        block == 512 || block == 1024,
    ensures
        span == block_span(length as int, block as int),
{
    if block == 512 {
        (length as i64 / 512 + 1) * 512
    } else {
        (length as i64 / 1024 + 1) * 1024
    }
}

/// The padded length of any section of the header, in a type wide enough
/// for every `length`.
pub fn padded_span(length: i32) -> (span: i64)
    ensures
        span == padded_length(length as int),
{
    if length <= MAX_PADDABLE_LENGTH {
        alter_length(length) as i64
    } else {
        0x8000_0000
    }
}

/// Copies the `n` bytes of `data` that start at `position`, or refuses if
/// fewer than `n` are left there.
pub fn read_n_bytes(data: &Vec<u8>, position: usize, n: usize) -> (r: Result<Vec<u8>, ParseError>)
    ensures
        match r {
            Ok(bytes) => {
                &&& position + n <= data@.len()
                &&& bytes@.len() == n
                &&& bytes@ == data@.subrange(position as int, position + n)
            },
            Err(e) => position + n > data@.len() && e == eof_at(position as int),
        },
{
    if position > data.len() || n > data.len() - position {
        return Err(ParseError { kind: ParseErrorKind::UnexpectedEof, position: position as u64 });
    }
    let mut buffer: Vec<u8> = Vec::with_capacity(n);
    let mut i: usize = 0;
    while i < n
        invariant
            i <= n,
            position + n <= data@.len() <= usize::MAX,
            buffer@ == data@.subrange(position as int, position + i),
        decreases n - i,
    {
        buffer.push(data[position + i]);
        i += 1;
    }
    Ok(buffer)
}

/// A reader that only knows how to take bytes and to move.
///
/// Its state is the buffer it reads, the offset it stands at, and the list
/// of the ranges it has read so far, oldest first, each as the offset of its
/// first byte and the offset after its last.
pub trait CursorHelper {
    spec fn bytes(&self) -> Seq<u8>;

    spec fn offset(&self) -> nat;

    spec fn intervals(&self) -> Seq<(u64, u64)>;

    /// Takes the next byte.
    fn pop(&mut self) -> (r: Result<u8, ParseError>)
        ensures
            final(self).bytes() == old(self).bytes(),
            read_moves(
                old(self).offset() as int,
                old(self).intervals(),
                1,
                old(self).bytes().len() as int,
                final(self).offset() as int,
                final(self).intervals(),
                r is Ok,
            ),
            r matches Ok(b) ==> b == old(self).bytes()[old(self).offset() as int],
            r matches Err(e) ==> e == eof_at(old(self).offset() as int);

    /// Takes the next `n` bytes.
    fn read_n(&mut self, n: usize) -> (r: Result<Vec<u8>, ParseError>)
        ensures
            final(self).bytes() == old(self).bytes(),
            read_moves(
                old(self).offset() as int,
                old(self).intervals(),
                n as int,
                old(self).bytes().len() as int,
                final(self).offset() as int,
                final(self).intervals(),
                r is Ok,
            ),
            r matches Ok(v) ==> v@.len() == n && v@ == old(self).bytes().subrange(
                old(self).offset() as int,
                old(self).offset() + n,
            ),
            r matches Err(e) ==> e == eof_at(old(self).offset() as int);

    /// Moves `n` bytes forward without reading them.
    fn seek(&mut self, n: u64) -> (r: Result<(), ParseError>)
        ensures
            final(self).bytes() == old(self).bytes(),
            final(self).intervals() == old(self).intervals(),
            seek_moves(
                old(self).offset() as int,
                old(self).offset() + n,
                old(self).bytes().len() as int,
                final(self).offset() as int,
                r is Ok,
            ),
            r matches Err(e) ==> e == eof_at(old(self).offset() as int);

    /// Moves to the offset `n`.
    fn seek_set(&mut self, n: u64) -> (r: Result<(), ParseError>)
        ensures
            final(self).bytes() == old(self).bytes(),
            final(self).intervals() == old(self).intervals(),
            seek_moves(
                old(self).offset() as int,
                n as int,
                old(self).bytes().len() as int,
                final(self).offset() as int,
                r is Ok,
            ),
            r matches Err(e) ==> e == eof_at(old(self).offset() as int);
}

/// What a read of `n` bytes at `before` does in a buffer of `len` bytes: it
/// succeeds exactly when the bytes are there, then stands after them and has
/// noted their range; a refused read changes nothing.
pub open spec fn read_moves(
    before: int,
    noted: Seq<(u64, u64)>,
    n: int,
    len: int,
    after: int,
    noted_after: Seq<(u64, u64)>,
    done: bool,
) -> bool {
    &&& done <==> before + n <= len
    &&& done ==> after == before + n && noted_after == noted.push(
        (before as u64, (before + n) as u64),
    )
    &&& !done ==> after == before && noted_after == noted
}

/// What a move from `before` to `target` does in a buffer of `len` bytes: it
/// succeeds exactly when `target` is no further than the end; a refused move
/// changes nothing.
pub open spec fn seek_moves(before: int, target: int, len: int, after: int, done: bool) -> bool {
    &&& done <==> target <= len
    &&& done ==> after == target
    &&& !done ==> after == before
}

/// A cursor over a borrowed buffer that notes every range it reads.
pub struct TrackingCursor<'a> {
    data: &'a Vec<u8>,
    position: usize,
    read_intervals: Vec<(u64, u64)>,
}

impl<'a> TrackingCursor<'a> {
    /// A cursor at the start of `data` that has read nothing yet.
    pub fn new(data: &'a Vec<u8>) -> (cursor: Self)
        ensures
            cursor.bytes() == data@,
            cursor.offset() == 0,
            cursor.intervals() == Seq::<(u64, u64)>::empty(),
    {
        TrackingCursor { data, position: 0, read_intervals: Vec::new() }
    }

    /// The offset the cursor stands at.
    pub fn position(&self) -> (p: u64)
        ensures
            p == self.offset(),
    {
        self.position as u64
    }

    /// Whether any byte is left to read.
    pub fn remaining(&self) -> (some: bool)
        ensures
            some == (self.offset() < self.bytes().len()),
    {
        self.position < self.data.len()
    }

    /// Gives up the cursor for the list of the ranges it has read.
    pub fn into_intervals(self) -> (noted: Vec<(u64, u64)>)
        ensures
            noted@ == self.intervals(),
    {
        self.read_intervals
    }
}

impl<'a> CursorHelper for TrackingCursor<'a> {
    closed spec fn bytes(&self) -> Seq<u8> {
        self.data@
    }

    closed spec fn offset(&self) -> nat {
        self.position as nat
    }

    closed spec fn intervals(&self) -> Seq<(u64, u64)> {
        self.read_intervals@
    }

    fn pop(&mut self) -> (r: Result<u8, ParseError>) {
        let start: usize = self.position;
        if start >= self.data.len() {
            return Err(ParseError { kind: ParseErrorKind::UnexpectedEof, position: start as u64 });
        }
        let byte: u8 = self.data[start];
        self.read_intervals.push((start as u64, (start + 1) as u64));
        self.position = start + 1;
        Ok(byte)
    }

    fn read_n(&mut self, n: usize) -> (r: Result<Vec<u8>, ParseError>) {
        let start: usize = self.position;
        let len: usize = self.data.len();
        let taken = read_n_bytes(self.data, start, n);
        if taken.is_ok() {
            assert(start + n <= len);
            self.read_intervals.push((start as u64, (start + n) as u64));
            self.position = start + n;
        }
        taken
    }

    fn seek(&mut self, n: u64) -> (r: Result<(), ParseError>) {
        let start: usize = self.position;
        if start > self.data.len() || n > (self.data.len() - start) as u64 {
            return Err(ParseError { kind: ParseErrorKind::UnexpectedEof, position: start as u64 });
        }
        self.position = start + n as usize;
        Ok(())
    }

    fn seek_set(&mut self, n: u64) -> (r: Result<(), ParseError>) {
        let start: usize = self.position;
        if n > self.data.len() as u64 {
            return Err(ParseError { kind: ParseErrorKind::UnexpectedEof, position: start as u64 });
        }
        self.position = n as usize;
        Ok(())
    }
}

} // verus!
