//! Box-model geometry: a two-dimensional size/offset vector and a set of
//! four edge widths, with saturating arithmetic.  Layout never underflows:
//! subtracting more space than is available clamps at zero, accepting a
//! truncated render on very small terminals instead of aborting.

use vstd::prelude::*;

verus! {

/// `a + b`, clamped at `usize::MAX`.
pub open spec fn sat_add(a: usize, b: usize) -> usize {
    if a + b > usize::MAX {
        usize::MAX
    } else {
        (a + b) as usize
    }
}

/// `a - b`, clamped at zero.
pub open spec fn sat_sub(a: usize, b: usize) -> usize {
    if a < b {
        0
    } else {
        (a - b) as usize
    }
}

/// The larger of `a` and `b`.
pub open spec fn max_usize(a: usize, b: usize) -> usize {
    if a >= b {
        a
    } else {
        b
    }
}

/// A sequence length (for example the character count of a string),
/// clamped into `usize`.
pub open spec fn clamp_len(n: nat) -> usize {
    if n > usize::MAX {
        usize::MAX
    } else {
        n as usize
    }
}

/// Saturating addition on machine words.
pub fn sat_add_usize(a: usize, b: usize) -> (r: usize)
    ensures
        r == sat_add(a, b),
{
    if b <= usize::MAX - a {
        a + b
    } else {
        usize::MAX
    }
}

/// Saturating subtraction on machine words.
pub fn sat_sub_usize(a: usize, b: usize) -> (r: usize)
    ensures
        r == sat_sub(a, b),
{
    if a < b {
        0
    } else {
        a - b
    }
}

/// The larger of two machine words.
pub fn max_usize_exec(a: usize, b: usize) -> (r: usize)
    ensures
        r == max_usize(a, b),
{
    if a >= b {
        a
    } else {
        b
    }
}

/// A size or an offset in character cells.
#[derive(Clone, Copy, PartialEq, Eq, Structural, Debug)]
pub struct Vec2 {
    pub x: usize,
    pub y: usize,
}

impl Vec2 {
    pub fn new(x: usize, y: usize) -> (v: Vec2)
        ensures
            v == (Vec2 { x, y }),
    {
        Vec2 { x, y }
    }

    /// Componentwise saturating addition.
    pub open spec fn spec_add(self, other: Vec2) -> Vec2 {
        Vec2 { x: sat_add(self.x, other.x), y: sat_add(self.y, other.y) }
    }

    /// Componentwise saturating subtraction.
    pub open spec fn spec_sub(self, other: Vec2) -> Vec2 {
        Vec2 { x: sat_sub(self.x, other.x), y: sat_sub(self.y, other.y) }
    }

    /// Componentwise maximum.
    pub open spec fn spec_max(self, other: Vec2) -> Vec2 {
        Vec2 { x: max_usize(self.x, other.x), y: max_usize(self.y, other.y) }
    }

    pub fn saturating_add(self, other: Vec2) -> (r: Vec2)
        ensures
            r == self.spec_add(other),
    {
        Vec2 { x: sat_add_usize(self.x, other.x), y: sat_add_usize(self.y, other.y) }
    }

    pub fn saturating_sub(self, other: Vec2) -> (r: Vec2)
        ensures
            r == self.spec_sub(other),
    {
        Vec2 { x: sat_sub_usize(self.x, other.x), y: sat_sub_usize(self.y, other.y) }
    }

    pub fn component_max(self, other: Vec2) -> (r: Vec2)
        ensures
            r == self.spec_max(other),
    {
        Vec2 { x: max_usize_exec(self.x, other.x), y: max_usize_exec(self.y, other.y) }
    }
}

/// Four independent edge widths, used for borders and for padding.
#[derive(Clone, Copy, PartialEq, Eq, Structural, Debug)]
pub struct Margins {
    pub left: usize,
    pub right: usize,
    pub top: usize,
    pub bottom: usize,
}

impl Margins {
    pub fn new(left: usize, right: usize, top: usize, bottom: usize) -> (m: Margins)
        ensures
            m == (Margins { left, right, top, bottom }),
    {
        Margins { left, right, top, bottom }
    }

    /// Total width and height taken by the margins on both axes.
    pub open spec fn spec_combined(self) -> Vec2 {
        Vec2 { x: sat_add(self.left, self.right), y: sat_add(self.top, self.bottom) }
    }

    /// The offset of the top-left inner corner.
    pub open spec fn spec_top_left(self) -> Vec2 {
        Vec2 { x: self.left, y: self.top }
    }

    /// The widths taken on the right and bottom edges.
    pub open spec fn spec_bot_right(self) -> Vec2 {
        Vec2 { x: self.right, y: self.bottom }
    }

    pub fn combined(self) -> (v: Vec2)
        ensures
            v == self.spec_combined(),
    {
        Vec2 { x: sat_add_usize(self.left, self.right), y: sat_add_usize(self.top, self.bottom) }
    }

    pub fn top_left(self) -> (v: Vec2)
        ensures
            v == self.spec_top_left(),
    {
        Vec2 { x: self.left, y: self.top }
    }

    pub fn bot_right(self) -> (v: Vec2)
        ensures
            v == self.spec_bot_right(),
    {
        Vec2 { x: self.right, y: self.bottom }
    }
}

} // verus!
