use crate::location::Position;
use crate::tokenizer::lexical::{
    byte_at, lemma_skip_while_bounds, lemma_skip_while_unique, skip_while,
};
use vstd::prelude::*;
use vstd::string::StringSliceAdditionalSpecFns;
use vstd::utf8::is_continuation_byte;

verus! {

/// The longest source the library accepts, an arithmetic limit: offsets,
/// spans (stored one past the offset, and growing by one at each level of
/// nesting) and positions computed from a source of at most a quarter of
/// `usize::MAX` bytes fit in `usize`.
pub open spec fn source_fits(n: int) -> bool {
    n <= usize::MAX / 4
}

/// Line and column (both from 1) reached after the first `n` bytes of `b`:
/// a line feed starts a new line, and every other character moves one
/// column on (UTF-8 continuation bytes are part of the character before).
pub open spec fn line_col(b: Seq<u8>, n: int) -> (int, int)
    decreases n,
{
    if n <= 0 {
        (1, 1)
    } else {
        let (line, col) = line_col(b, n - 1);
        if b[n - 1] == 10 {
            (line + 1, 1)
        } else if is_continuation_byte(b[n - 1]) {
            (line, col)
        } else {
            (line, col + 1)
        }
    }
}

pub proof fn lemma_line_col_bounds(b: Seq<u8>, n: int)
    requires
        n >= 0,
    ensures
        1 <= line_col(b, n).0 <= n + 1,
        1 <= line_col(b, n).1 <= n + 1,
    decreases n,
{
    if n > 0 {
        lemma_line_col_bounds(b, n - 1);
    }
}

/// The position of byte offset `offset` in the text `b` (offsets past the
/// end count as the end).
pub open spec fn position_of(b: Seq<u8>, offset: int) -> Position {
    let n = if offset <= b.len() { offset } else { b.len() as int };
    Position {
        line: line_col(b, n).0 as usize,
        column: line_col(b, n).1 as usize,
        offset: offset as usize,
    }
}

/// Computes the position of a byte offset in `input`.
pub fn position_in(input: &str, offset: usize) -> (p: Position)
    requires
        source_fits(input.spec_bytes().len() as int),
    ensures
        p == position_of(input.spec_bytes(), offset as int),
{
    let bytes = input.as_bytes();
    let n = if offset <= bytes.len() { offset } else { bytes.len() };
    let mut line: usize = 1;
    let mut col: usize = 1;
    let mut i: usize = 0;
    while i < n
        invariant
            bytes@ == input.spec_bytes(),
            source_fits(bytes@.len() as int),
            n <= bytes@.len(),
            0 <= i <= n,
            (line as int, col as int) == line_col(bytes@, i as int),
        decreases n - i,
    {
        proof {
            lemma_line_col_bounds(bytes@, i as int);
        }
        let c = bytes[i];
        if c == 10 {
            line = line + 1;
            col = 1;
        } else if !(0x80 <= c && c <= 0xbf) {
            col = col + 1;
        }
        i = i + 1;
    }
    Position::new(line, col, offset)
}

/// A read position over the bytes of a source text.
#[derive(Debug)]
pub struct Cursor<'a> {
    pub offset: usize,
    pub prev: u8,
    pub length: usize,
    pub input: &'a str,
}

impl<'a> Cursor<'a> {
    /// The bytes of the source text.
    pub open spec fn bytes(&self) -> Seq<u8> {
        self.input.spec_bytes()
    }

    /// The cursor is consistent with its source.
    pub open spec fn wf(&self) -> bool {
        &&& self.length == self.bytes().len()
        &&& source_fits(self.length as int)
    }

    pub fn new(input: &'a str) -> (c: Self)
        requires
            source_fits(input.spec_bytes().len() as int),
        ensures
            c.wf(),
            c.input == input,
            c.offset == 0,
            c.prev == 0,
    {
        Self { offset: 0, prev: 0, length: input.len(), input }
    }

    /// The line/column position of the read offset.
    pub fn position(&self) -> (p: Position)
        requires
            self.wf(),
        ensures
            p == position_of(self.bytes(), self.offset as int),
    {
        position_in(self.input, self.offset)
    }

    pub fn is_eof(&self) -> (r: bool)
        ensures
            r == (self.offset >= self.length),
    {
        self.offset >= self.length
    }

    pub fn offset(&self) -> (r: usize)
        ensures
            r == self.offset,
    {
        self.offset
    }

    pub fn prev(&self) -> (r: u8)
        ensures
            r == self.prev,
    {
        self.prev
    }

    /// The byte at the read offset (0 at the end).
    pub fn current(&self) -> (r: u8)
        requires
            self.wf(),
        ensures
            r == byte_at(self.bytes(), self.offset as int),
    {
        if self.offset >= self.length {
            0
        } else {
            self.input.as_bytes()[self.offset]
        }
    }

    /// The byte after the read offset (0 past the end).
    pub fn peek(&self) -> (r: u8)
        requires
            self.wf(),
            self.offset < usize::MAX,
        ensures
            r == byte_at(self.bytes(), self.offset + 1),
    {
        let offset = self.offset + 1;
        if offset >= self.length {
            0
        } else {
            self.input.as_bytes()[offset]
        }
    }

    /// The byte at absolute offset `at` (0 outside the text).
    fn byte_at_offset(&self, at: isize) -> (r: u8)
        requires
            self.wf(),
        ensures
            r == byte_at(self.bytes(), at as int),
    {
        if at < 0 {
            0
        } else {
            let at = at as usize;
            if at >= self.length {
                0
            } else {
                self.input.as_bytes()[at]
            }
        }
    }

    /// Moves the read offset by `offset` bytes; returns the byte at absolute
    /// offset `offset`.
    pub fn mov(&mut self, offset: isize) -> (r: u8)
        requires
            old(self).wf(),
            offset > isize::MIN,
            0 <= old(self).offset + offset <= usize::MAX,
        ensures
            final(self).wf(),
            final(self).input == old(self).input,
            final(self).offset == old(self).offset + offset,
            final(self).prev == byte_at(old(self).bytes(), old(self).offset as int),
            r == byte_at(old(self).bytes(), offset as int),
    {
        self.prev = self.current();
        let ch = self.byte_at_offset(offset);
        if offset < 0 {
            self.offset = self.offset - ((0 - offset) as usize);
        } else {
            self.offset = self.offset + (offset as usize);
        }
        ch
    }

    /// Like [`Cursor::mov`], but a forward move goes one byte further.
    pub fn shift(&mut self, offset: isize) -> (r: u8)
        requires
            old(self).wf(),
            offset > isize::MIN,
            0 <= old(self).offset + offset,
            old(self).offset + offset + 1 <= usize::MAX,
        ensures
            final(self).wf(),
            final(self).input == old(self).input,
            final(self).offset == old(self).offset + offset + if offset < 0 {
                0int
            } else {
                1int
            },
            final(self).prev == byte_at(old(self).bytes(), old(self).offset as int),
            r == byte_at(old(self).bytes(), offset as int),
    {
        self.prev = self.current();
        let ch = self.byte_at_offset(offset);
        if offset < 0 {
            self.offset = self.offset - ((0 - offset) as usize);
        } else {
            self.offset = self.offset + (offset as usize) + 1;
        }
        ch
    }

    /// The cursor one byte further on: the byte moved over becomes the
    /// previous byte.
    pub open spec fn bumped(self) -> Self {
        Cursor {
            offset: (self.offset + 1) as usize,
            prev: byte_at(self.bytes(), self.offset as int),
            length: self.length,
            input: self.input,
        }
    }

    /// The cursor reached from this one by `k` calls of [`Cursor::bump`].
    pub open spec fn bumped_times(self, k: nat) -> Self
        decreases k,
    {
        if k == 0 {
            self
        } else {
            self.bumped_times((k - 1) as nat).bumped()
        }
    }

    /// Moves one byte on; returns the byte moved over.
    pub fn bump(&mut self) -> (r: u8)
        requires
            old(self).wf(),
            old(self).offset < usize::MAX,
        ensures
            *final(self) == old(self).bumped(),
            final(self).wf(),
            final(self).input == old(self).input,
            final(self).offset == old(self).offset + 1,
            final(self).prev == byte_at(old(self).bytes(), old(self).offset as int),
            r == byte_at(old(self).bytes(), old(self).offset as int),
    {
        let ch = self.current();
        self.prev = ch;
        self.offset = self.offset + 1;
        ch
    }

    /// Moves on while `predicate` holds of the current byte and the end is
    /// not reached.
    pub fn eat_while(&mut self, predicate: impl Fn(u8) -> bool)
        requires
            old(self).wf(),
            forall|c: u8| call_requires(predicate, (c,)),
        ensures
            final(self).wf(),
            final(self).input == old(self).input,
            final(self).offset >= old(self).offset,
            old(self).offset <= old(self).length ==> final(self).offset
                <= old(self).length,
            forall|k: int|
                old(self).offset <= k < final(self).offset ==> 0 <= k < old(
                    self,
                ).length && call_ensures(predicate, (old(self).bytes()[k],), true),
            final(self).offset >= old(self).length || call_ensures(
                predicate,
                (old(self).bytes()[final(self).offset as int],),
                false,
            ),
            final(self).offset == old(self).offset ==> final(self).prev
                == old(self).prev,
            final(self).offset > old(self).offset ==> final(self).prev
                == old(self).bytes()[final(self).offset - 1],
    {
        let ghost start = self.offset;
        loop
            invariant
                self.wf(),
                self.input == old(self).input,
                self.length == old(self).length,
                start == old(self).offset,
                start <= self.offset,
                start <= self.length ==> self.offset <= self.length,
                forall|c: u8| call_requires(predicate, (c,)),
                forall|k: int|
                    start <= k < self.offset ==> 0 <= k < self.length && call_ensures(
                        predicate,
                        (self.bytes()[k],),
                        true,
                    ),
                self.offset == start ==> self.prev == old(self).prev,
                self.offset > start ==> self.prev == self.bytes()[self.offset - 1],
            ensures
                self.offset >= self.length || call_ensures(
                    predicate,
                    (self.bytes()[self.offset as int],),
                    false,
                ),
            decreases self.length - self.offset,
        {
            let c = self.current();
            let keep = predicate(c);
            if !keep || self.is_eof() {
                break;
            }
            self.bump();
        }
    }
}

/// From a fresh cursor over a source of `n` bytes, `k` calls of
/// [`Cursor::bump`] (for any `k` up to `n`) are each allowed, leave the
/// cursor well formed over the same source, at offset `k`, and at the end
/// exactly when `k` is `n`; the fresh cursor itself is at offset 0.
pub proof fn lemma_bumps_from_start<'a>(c: Cursor<'a>, k: nat)
    requires
        c.wf(),
        c.offset == 0,
        k <= c.length,
    ensures
        c.bumped_times(k).wf(),
        c.bumped_times(k).input == c.input,
        c.bumped_times(k).offset == k,
        (c.bumped_times(k).offset >= c.bumped_times(k).length) == (k == c.length),
        forall|j: nat| j < k ==> #[trigger] c.bumped_times(j).offset < usize::MAX,
    decreases k,
{
    if k > 0 {
        lemma_bumps_from_start(c, (k - 1) as nat);
    }
}

} // verus!
