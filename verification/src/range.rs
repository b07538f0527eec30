//! Half-open spans of source text, measured in bytes.
use vstd::prelude::*;

verus! {

/// A span of text from `start` up to `end`. A span whose `end` lies before its
/// `start` is treated as empty wherever a length is asked for.
#[derive(Clone, Copy, Debug, PartialEq, Eq, Structural)]
pub struct TextRange {
    pub start: u32,
    pub end: u32,
}

impl TextRange {
    /// The span is well formed: it does not end before it starts.
    pub open spec fn wf(self) -> bool {
        self.start <= self.end
    }

    /// Number of bytes in the span.
    pub open spec fn spec_len(self) -> int {
        if self.start <= self.end {
            self.end - self.start
        } else {
            0
        }
    }

    /// The offset lies in the span, both ends included, so that a cursor just
    /// behind the last byte still counts.
    pub open spec fn covers(self, offset: u32) -> bool {
        self.start <= offset && offset <= self.end
    }

    /// This span lies inside `outer` (or equals it).
    pub open spec fn within(self, outer: TextRange) -> bool {
        outer.start <= self.start && self.end <= outer.end
    }

    /// This span lies inside `outer` and differs from it.
    pub open spec fn strictly_within(self, outer: TextRange) -> bool {
        self.within(outer) && self != outer
    }

    pub fn from_to(start: u32, end: u32) -> (r: TextRange)
        requires
            start <= end,
        ensures
            r.start == start,
            r.end == end,
            r.wf(),
    {
        TextRange { start, end }
    }

    pub fn start(&self) -> (r: u32)
        ensures
            r == self.start,
    {
        self.start
    }

    pub fn end(&self) -> (r: u32)
        ensures
            r == self.end,
    {
        self.end
    }

    pub fn len(&self) -> (r: u32)
        ensures
            r == self.spec_len(),
    {
        if self.start <= self.end {
            self.end - self.start
        } else {
            0
        }
    }

    pub fn contains_inclusive(&self, offset: u32) -> (r: bool)
        ensures
            r == self.covers(offset),
    {
        self.start <= offset && offset <= self.end
    }

    pub fn is_subrange(&self, outer: &TextRange) -> (r: bool)
        ensures
            r == self.within(*outer),
    {
        outer.start <= self.start && self.end <= outer.end
    }
}

} // verus!
