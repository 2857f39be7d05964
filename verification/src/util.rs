//! Positions, spans and compact lengths over the source text of a message.
//!
//! Offsets are measured in characters (Unicode scalar values) from the start
//! of the source buffer. A [`Span`] is the half-open range `start..end` that
//! a node occupies in that buffer.

use vstd::prelude::*;

verus! {

/// A source offset, counted in characters from the start of the message text.
///
/// The largest representable offset, `u32::MAX`, doubles as the sentinel
/// "dummy" position used when a degenerate node has no content to point at.
#[derive(Clone, Copy, Debug, PartialEq, Eq, Hash, Structural)]
pub struct Location {
    pub offset: u32,
}

impl View for Location {
    type V = int;

    open spec fn view(&self) -> int {
        self.offset as int
    }
}

impl Location {
    /// The position at a raw character offset.
    pub fn new(offset: u32) -> (r: Location)
        ensures
            r@ == offset,
    {
        Location { offset }
    }

    /// The sentinel position used where no real source location exists.
    pub fn dummy() -> (r: Location)
        ensures
            r@ == u32::MAX,
    {
        Location { offset: u32::MAX }
    }

    /// Whether this is the sentinel position.
    pub open spec fn spec_is_dummy(self) -> bool {
        self@ == u32::MAX
    }

    #[verifier::when_used_as_spec(spec_is_dummy)]
    pub fn is_dummy(self) -> (r: bool)
        ensures
            r == self.spec_is_dummy(),
    {
        self.offset == u32::MAX
    }

    /// The raw character offset.
    pub fn inner(&self) -> (r: u32)
        ensures
            r == self@,
    {
        self.offset
    }

    /// The position immediately past one character.
    pub fn advance_char(self, c: char) -> (r: Location)
        requires
            self@ + 1 <= u32::MAX,
        ensures
            r@ == self@ + 1,
    {
        let _ = c;
        Location { offset: self.offset + 1 }
    }

    /// The position immediately past the characters of `s`.
    pub fn advance_str(self, s: &str) -> (r: Location)
        requires
            self@ + s@.len() <= u32::MAX,
        ensures
            r@ == self@ + s@.len(),
    {
        let n = s.unicode_len();
        Location { offset: self.offset + n as u32 }
    }

    /// The position immediately past `len` characters.
    pub fn advance_len(self, len: LengthShort) -> (r: Location)
        requires
            self@ + len@ <= u32::MAX,
        ensures
            r@ == self@ + len@,
    {
        Location { offset: self.offset + len.inner() as u32 }
    }

    /// The earlier of two positions.
    pub fn min(self, other: Location) -> (r: Location)
        ensures
            r@ == if self@ <= other@ {
                self@
            } else {
                other@
            },
    {
        if self.offset <= other.offset {
            self
        } else {
            other
        }
    }

    /// The later of two positions.
    pub fn max(self, other: Location) -> (r: Location)
        ensures
            r@ == if self@ >= other@ {
                self@
            } else {
                other@
            },
    {
        if self.offset >= other.offset {
            self
        } else {
            other
        }
    }
}

/// A compact character count describing one structural piece of a number
/// literal.
#[derive(Clone, Copy, Debug, PartialEq, Eq, Hash, Structural)]
pub struct LengthShort {
    pub len: u16,
}

impl View for LengthShort {
    type V = int;

    open spec fn view(&self) -> int {
        self.len as int
    }
}

impl LengthShort {
    /// A length of `len` characters.
    pub fn new(len: u16) -> (r: LengthShort)
        ensures
            r@ == len,
    {
        LengthShort { len }
    }

    /// The raw character count.
    pub fn inner(&self) -> (r: u16)
        ensures
            r == self@,
    {
        self.len
    }
}

/// A half-open `start..end` range of source positions.
#[derive(Clone, Copy, Debug, PartialEq, Eq, Hash, Structural)]
pub struct Span {
    pub start: Location,
    pub end: Location,
}

impl Span {
    /// The span from `start` (inclusive) to `end` (exclusive).
    pub fn new(start: Location, end: Location) -> (r: Span)
        ensures
            r.start == start,
            r.end == end,
    {
        Span { start, end }
    }

    /// Whether the span runs forward: `start <= end`.
    pub open spec fn ordered(self) -> bool {
        self.start@ <= self.end@
    }
}

} // verus!
