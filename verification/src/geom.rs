use vstd::prelude::*;

verus! {

/// A plane point, stored as the raw IEEE 754 bit patterns of its two
/// coordinates.
///
/// Identity of points — and therefore vertex deduplication — is exact
/// bit-pattern equality of `(x, y)`, not geometric proximity. Two
/// coordinates that denote the same real number through different bit
/// patterns (for example the two zeroes) are distinct points here on
/// purpose.
#[derive(Clone, Copy, Debug, PartialEq, Eq, Structural)]
pub struct Point2 {
    pub x: u64,
    pub y: u64,
}

/// The three curve kinds a profile segment or a wire edge can have.
#[derive(Clone, Copy, Debug, PartialEq, Eq, Structural)]
pub enum CurveKind {
    Line,
    Quadratic,
    Cubic,
}

/// One segment of a profile: a line or a Bezier of degree two or three,
/// with all of its control points in plane coordinates.
///
/// Segments are chained: the effective start of every segment after the
/// first is the end of its predecessor; `start` is read only on the first
/// segment of a profile, where it names the trailing-edge anchor.
#[derive(Clone, Copy, Debug, PartialEq, Eq, Structural)]
pub enum CurveSegment {
    Line { start: Point2, end: Point2 },
    Quadratic { start: Point2, ctrl: Point2, end: Point2 },
    Cubic { start: Point2, ctrl1: Point2, ctrl2: Point2, end: Point2 },
}

impl CurveSegment {
    /// The declared start point of the segment.
    pub open spec fn start_spec(self) -> Point2 {
        match self {
            CurveSegment::Line { start, .. } => start,
            CurveSegment::Quadratic { start, .. } => start,
            CurveSegment::Cubic { start, .. } => start,
        }
    }

    /// The end point of the segment.
    pub open spec fn end_spec(self) -> Point2 {
        match self {
            CurveSegment::Line { end, .. } => end,
            CurveSegment::Quadratic { end, .. } => end,
            CurveSegment::Cubic { end, .. } => end,
        }
    }

    /// The curve kind of the segment.
    pub open spec fn kind_spec(self) -> CurveKind {
        match self {
            CurveSegment::Line { .. } => CurveKind::Line,
            CurveSegment::Quadratic { .. } => CurveKind::Quadratic,
            CurveSegment::Cubic { .. } => CurveKind::Cubic,
        }
    }

    /// Returns the curve kind of the segment.
    pub fn kind(&self) -> (k: CurveKind)
        ensures
            k == self.kind_spec(),
    {
        match self {
            CurveSegment::Line { .. } => CurveKind::Line,
            CurveSegment::Quadratic { .. } => CurveKind::Quadratic,
            CurveSegment::Cubic { .. } => CurveKind::Cubic,
        }
    }
}

/// An ordered, closed planar curve: the cross-section that the pipeline
/// turns into a solid. The first segment's start point is the
/// trailing-edge anchor.
#[derive(Debug)]
pub struct Profile {
    pub segments: Vec<CurveSegment>,
}

/// The effective start point of segment `i` of a chained profile: the
/// declared start for the first segment, the predecessor's end for every
/// later one.
pub open spec fn chain_start(segs: Seq<CurveSegment>, i: int) -> Point2 {
    if i == 0 {
        segs[0].start_spec()
    } else {
        segs[i - 1].end_spec()
    }
}

/// The profile returns to its anchor by itself: the last segment ends on
/// the bit pattern the first segment starts from, so no synthetic closing
/// edge is needed.
pub open spec fn naturally_closed(segs: Seq<CurveSegment>) -> bool {
    segs[0].start_spec() == segs[segs.len() - 1].end_spec()
}

} // verus!
