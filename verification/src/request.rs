//! Size negotiation: a parent offers each child a per-axis constraint, and
//! the child answers with the smallest size it can render acceptably.

use vstd::prelude::*;
use crate::geom::{sat_sub, sat_sub_usize, Vec2};

verus! {

/// A constraint on one axis: exactly `n` cells, at most `n` cells, or any
/// amount of space.
#[derive(Clone, Copy, PartialEq, Eq, Structural, Debug)]
pub enum DimensionRequest {
    Fixed(usize),
    AtMost(usize),
    Unlimited,
}

impl DimensionRequest {
    /// The same constraint with `m` cells of margin taken away, clamped at
    /// zero.
    pub open spec fn spec_reduced(self, m: usize) -> DimensionRequest {
        match self {
            DimensionRequest::Fixed(n) => DimensionRequest::Fixed(sat_sub(n, m)),
            DimensionRequest::AtMost(n) => DimensionRequest::AtMost(sat_sub(n, m)),
            DimensionRequest::Unlimited => DimensionRequest::Unlimited,
        }
    }

    pub fn reduced(self, m: usize) -> (r: DimensionRequest)
        ensures
            r == self.spec_reduced(m),
    {
        match self {
            DimensionRequest::Fixed(n) => DimensionRequest::Fixed(sat_sub_usize(n, m)),
            DimensionRequest::AtMost(n) => DimensionRequest::AtMost(sat_sub_usize(n, m)),
            DimensionRequest::Unlimited => DimensionRequest::Unlimited,
        }
    }
}

/// A pair of per-axis constraints offered by a parent during size
/// negotiation.
#[derive(Clone, Copy, PartialEq, Eq, Structural, Debug)]
pub struct SizeRequest {
    pub w: DimensionRequest,
    pub h: DimensionRequest,
}

impl SizeRequest {
    /// The request with a margin taken away on each axis.
    pub open spec fn spec_reduced(self, margins: Vec2) -> SizeRequest {
        SizeRequest { w: self.w.spec_reduced(margins.x), h: self.h.spec_reduced(margins.y) }
    }

    pub fn reduced(self, margins: Vec2) -> (r: SizeRequest)
        ensures
            r == self.spec_reduced(margins),
    {
        SizeRequest { w: self.w.reduced(margins.x), h: self.h.reduced(margins.y) }
    }

    /// A request that puts no bound on either axis.
    pub fn unlimited() -> (r: SizeRequest)
        ensures
            r == (SizeRequest { w: DimensionRequest::Unlimited, h: DimensionRequest::Unlimited }),
    {
        SizeRequest { w: DimensionRequest::Unlimited, h: DimensionRequest::Unlimited }
    }
}

} // verus!
