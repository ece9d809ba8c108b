use vstd::prelude::*;

verus! {

/// A region of the source, stored shifted by one so that the all-zero value
/// can stand for "no location" (the dummy span).
#[derive(Clone, Copy, PartialEq, Eq, Hash, Debug, Structural)]
pub struct Span {
    pub start: usize,
    pub end: usize,
}

impl Default for Span {
    fn default() -> (s: Self)
        ensures
            s.start == 0 && s.end == 0,
    {
        Span { start: 0, end: 0 }
    }
}

impl Span {
    /// The span that stands for "no location".
    pub fn dummy() -> (s: Span)
        ensures
            s.start == 0 && s.end == 0,
    {
        Span { start: 0, end: 0 }
    }

    /// The span of the byte range `start..end`.
    pub fn new(start: usize, end: usize) -> (s: Span)
        requires
            start < usize::MAX,
            end < usize::MAX,
        ensures
            s.start == start + 1,
            s.end == end + 1,
            s == Span::spec_new(start, end),
    {
        Span { start: start + 1, end: end + 1 }
    }

    /// The span at the very top of a file.
    pub fn top() -> (s: Span)
        ensures
            s.start == 1 && s.end == 1,
    {
        Span { start: 1, end: 1 }
    }

    pub fn start(&self) -> (r: usize)
        ensures
            r == self.start,
    {
        self.start
    }

    pub fn end(&self) -> (r: usize)
        ensures
            r == self.end,
    {
        self.end
    }

    pub fn is_dummy(&self) -> (r: bool)
        ensures
            r == (self.start == 0 && self.end == 0),
    {
        self.start == 0 && self.end == 0
    }

    pub fn is_valid(&self) -> (r: bool)
        ensures
            r == (self.start <= self.end),
    {
        self.start <= self.end
    }

    /// The span that [`Span::new`] makes of the byte range `start..end`.
    pub open spec fn spec_new(start: usize, end: usize) -> Span {
        Span { start: (start + 1) as usize, end: (end + 1) as usize }
    }

    /// The byte range that a span stands for.
    pub open spec fn spec_range(self) -> (int, int) {
        (self.start - 1, self.end - 1)
    }

    pub open spec fn spec_merge(self, other: Span) -> Span {
        Span {
            start: if self.start <= other.start { self.start } else { other.start },
            end: if self.end >= other.end { self.end } else { other.end },
        }
    }

    /// The smallest span that covers both spans.
    pub fn merge(self, other: Self) -> (r: Self)
        ensures
            r == self.spec_merge(other),
    {
        Span {
            start: if self.start <= other.start { self.start } else { other.start },
            end: if self.end >= other.end { self.end } else { other.end },
        }
    }

    /// The byte range that the span stands for.
    pub fn range(&mut self) -> (r: std::ops::Range<usize>)
        requires
            old(self).start >= 1,
            old(self).end >= 1,
        ensures
            r.start == old(self).start - 1,
            r.end == old(self).end - 1,
            (r.start as int, r.end as int) == old(self).spec_range(),
            *final(self) == *old(self),
    {
        std::ops::Range { start: self.start - 1, end: self.end - 1 }
    }

    /// The same span with its start moved to byte `start`.
    pub fn with_start(&self, start: usize) -> (r: Self)
        requires
            start < usize::MAX,
        ensures
            r.start == start + 1,
            r.end == self.end,
    {
        Span { start: start + 1, end: self.end }
    }

    /// The same span with its end moved to byte `end`.
    pub fn with_end(&self, end: usize) -> (r: Self)
        requires
            end < usize::MAX,
        ensures
            r.start == self.start,
            r.end == end + 1,
    {
        Span { start: self.start, end: end + 1 }
    }
}

/// The range of a span made from a byte range is that byte range.
pub proof fn lemma_range_of_new(start: usize, end: usize)
    requires
        start < usize::MAX,
        end < usize::MAX,
    ensures
        Span::spec_new(start, end).spec_range() == (start as int, end as int),
{
}

/// Merging spans is commutative, associative and idempotent, and the merge
/// covers both spans.
pub proof fn lemma_merge(a: Span, b: Span, c: Span)
    ensures
        a.spec_merge(b) == b.spec_merge(a),
        a.spec_merge(b).spec_merge(c) == a.spec_merge(b.spec_merge(c)),
        a.spec_merge(a) == a,
        a.spec_merge(b).start <= a.start && a.spec_merge(b).start <= b.start,
        a.spec_merge(b).end >= a.end && a.spec_merge(b).end >= b.end,
        a.spec_merge(b).start == a.start || a.spec_merge(b).start == b.start,
        a.spec_merge(b).end == a.end || a.spec_merge(b).end == b.end,
{
}

} // verus!
