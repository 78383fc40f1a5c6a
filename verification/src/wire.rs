use vstd::prelude::*;

use crate::geom::{chain_start, naturally_closed, CurveKind, CurveSegment, Point2, Profile};
use crate::WingError;

verus! {

/// The curve carried by a wire edge: a straight line, or a Bezier with
/// its interior control points (the end points live on the vertices).
#[derive(Clone, Copy, Debug, PartialEq, Eq, Structural)]
pub enum EdgeCurve {
    Line,
    Quadratic { ctrl: Point2 },
    Cubic { ctrl1: Point2, ctrl2: Point2 },
}

impl EdgeCurve {
    /// The curve kind of the edge.
    pub open spec fn kind_spec(self) -> CurveKind {
        match self {
            EdgeCurve::Line => CurveKind::Line,
            EdgeCurve::Quadratic { .. } => CurveKind::Quadratic,
            EdgeCurve::Cubic { .. } => CurveKind::Cubic,
        }
    }

    /// Returns the curve kind of the edge.
    pub fn kind(&self) -> (k: CurveKind)
        ensures
            k == self.kind_spec(),
    {
        match self {
            EdgeCurve::Line => CurveKind::Line,
            EdgeCurve::Quadratic { .. } => CurveKind::Quadratic,
            EdgeCurve::Cubic { .. } => CurveKind::Cubic,
        }
    }
}

/// A directed edge of a wire: indices into the wire's vertex table, plus
/// the curve between the two end points.
#[derive(Clone, Copy, Debug, PartialEq, Eq, Structural)]
pub struct WireEdge {
    pub start: usize,
    pub end: usize,
    pub curve: EdgeCurve,
}

/// No two entries of a vertex table hold bit-identical coordinates.
pub open spec fn vertices_distinct(vs: Seq<Point2>) -> bool {
    forall|i: int, j: int| 0 <= i < j < vs.len() ==> vs[i] != vs[j]
}

/// A closed, directed chain of edges over a deduplicated vertex table.
#[derive(Debug)]
pub struct Wire {
    pub vertices: Vec<Point2>,
    pub edges: Vec<WireEdge>,
}

impl Wire {
    /// The vertex index the wire starts from.
    pub open spec fn first_vertex(self) -> int {
        self.edges@[0].start as int
    }

    /// The vertex index the wire ends on.
    pub open spec fn last_vertex(self) -> int {
        self.edges@[self.edges@.len() - 1].end as int
    }

    /// Well-formedness of a wire: at least one edge, every edge end point
    /// a valid vertex index, consecutive edges chained, the loop closed
    /// (`first_vertex == last_vertex`), and the vertex table free of
    /// bit-identical duplicates.
    pub open spec fn wf(self) -> bool {
        &&& self.edges@.len() >= 1
        &&& forall|i: int|
            0 <= i < self.edges@.len() ==> (#[trigger] self.edges@[i]).start < self.vertices@.len()
                && self.edges@[i].end < self.vertices@.len()
        &&& forall|i: int|
            0 <= i < self.edges@.len() - 1 ==> (#[trigger] self.edges@[i]).end == self.edges@[i
                + 1].start
        &&& self.first_vertex() == self.last_vertex()
        &&& vertices_distinct(self.vertices@)
    }

    /// The number of segments (edges) of the wire.
    pub fn segment_count(&self) -> (n: usize)
        ensures
            n == self.edges@.len(),
    {
        self.edges.len()
    }
}

/// Edge `i` of the wire realizes segment `i` of the profile: same curve
/// kind, the same interior control points, and end points that carry the
/// segment's effective start and end coordinates.
pub open spec fn edge_represents_segment(
    vs: Seq<Point2>,
    e: WireEdge,
    segs: Seq<CurveSegment>,
    i: int,
) -> bool {
    &&& match segs[i] {
        CurveSegment::Line { .. } => e.curve == EdgeCurve::Line,
        CurveSegment::Quadratic { ctrl, .. } => e.curve == (EdgeCurve::Quadratic { ctrl }),
        CurveSegment::Cubic { ctrl1, ctrl2, .. } => e.curve == (EdgeCurve::Cubic { ctrl1, ctrl2 }),
    }
    &&& vs[e.start as int] == chain_start(segs, i)
    &&& vs[e.end as int] == segs[i].end_spec()
}

/// The table with `p` looked up: unchanged when an entry with the same
/// bit pattern exists, extended by `p` otherwise.
pub open spec fn dedup_insert(vs: Seq<Point2>, p: Point2) -> Seq<Point2> {
    if vs.contains(p) {
        vs
    } else {
        vs.push(p)
    }
}

/// The vertex table after the first `i` segments of a profile: each
/// segment's end point interned in order, with the first segment's
/// declared start point — the anchor — interned right after its end
/// point.
pub open spec fn profile_vertex_table(segs: Seq<CurveSegment>, i: int) -> Seq<Point2>
    decreases i,
{
    if i <= 0 {
        Seq::empty()
    } else if i == 1 {
        dedup_insert(dedup_insert(Seq::empty(), segs[0].end_spec()), segs[0].start_spec())
    } else {
        dedup_insert(profile_vertex_table(segs, i - 1), segs[i - 1].end_spec())
    }
}

/// The wire realizes the profile: one edge per segment in order, plus —
/// exactly when the profile does not return to its anchor by itself — one
/// synthetic closing line edge from the last end point back to the
/// anchor. The vertex table is exactly the in-order deduplication of the
/// interned points: nothing is missing, and nothing else is in it.
pub open spec fn wire_represents_profile(w: Wire, segs: Seq<CurveSegment>) -> bool {
    let n = segs.len() as int;
    &&& if naturally_closed(segs) {
        w.edges@.len() == n
    } else {
        w.edges@.len() == n + 1
    }
    &&& forall|i: int|
        0 <= i < n ==> edge_represents_segment(w.vertices@, #[trigger] w.edges@[i], segs, i)
    &&& !naturally_closed(segs) ==> {
        let e = w.edges@[n];
        &&& e.curve == EdgeCurve::Line
        &&& w.vertices@[e.start as int] == segs[n - 1].end_spec()
        &&& w.vertices@[e.end as int] == segs[0].start_spec()
    }
    &&& w.vertices@ == profile_vertex_table(segs, n)
}

/// Looks `p` up in the vertex table and returns its index, appending it
/// first if no entry with the same bit pattern exists yet. The table
/// stays free of duplicates and existing entries keep their indices.
fn intern(vertices: &mut Vec<Point2>, p: Point2) -> (i: usize)
    requires
        vertices_distinct(old(vertices)@),
    ensures
        vertices_distinct(final(vertices)@),
        i < final(vertices)@.len(),
        final(vertices)@[i as int] == p,
        final(vertices)@ == dedup_insert(old(vertices)@, p),
{
    let n = vertices.len();
    let mut j: usize = 0;
    while j < n
        invariant
            j <= n,
            n == vertices@.len(),
            vertices@ == old(vertices)@,
            vertices_distinct(vertices@),
            forall|k: int| 0 <= k < j ==> vertices@[k] != p,
        decreases n - j,
    {
        if vertices[j] == p {
            return j;
        }
        j += 1;
    }
    assert(!vertices@.contains(p));
    vertices.push(p);
    n
}

/// Builds a closed wire from a profile, deduplicating vertices by exact
/// bit-pattern equality within this one call.
///
/// Fails with `ProfileError` exactly when the profile has fewer than two
/// segments — that is, fewer than three points, too few to bound an area.
/// On success the wire is well formed (closed, chained, deduplicated) and
/// realizes the profile segment by segment; a synthetic closing line edge
/// is appended exactly when the profile does not return to its anchor by
/// itself.
pub fn build_wire(profile: &Profile) -> (r: Result<Wire, WingError>)
    ensures
        r is Ok <==> profile.segments@.len() >= 2,
        r is Err ==> r == Err::<Wire, WingError>(WingError::ProfileError),
        r matches Ok(w) ==> w.wf() && wire_represents_profile(w, profile.segments@),
{
    let n = profile.segments.len();
    if n < 2 {
        return Err(WingError::ProfileError);
    }
    let ghost segs = profile.segments@;
    let mut vertices: Vec<Point2> = Vec::new();
    let mut edges: Vec<WireEdge> = Vec::new();
    let mut last: usize = 0;
    let mut i: usize = 0;
    while i < n
        invariant
            0 <= i <= n,
            n == segs.len(),
            segs == profile.segments@,
            edges@.len() == i,
            vertices_distinct(vertices@),
            vertices@ == profile_vertex_table(segs, i as int),
            forall|k: int|
                0 <= k < i ==> (#[trigger] edges@[k]).start < vertices@.len() && edges@[k].end
                    < vertices@.len(),
            forall|k: int|
                0 <= k < i ==> edge_represents_segment(vertices@, #[trigger] edges@[k], segs, k),
            forall|k: int| 0 <= k < i - 1 ==> (#[trigger] edges@[k]).end == edges@[k + 1].start,
            i > 0 ==> last == edges@[i - 1].end,
        decreases n - i,
    {
        let seg = profile.segments[i];
        let (endpt, curve): (Point2, EdgeCurve) = match seg {
            CurveSegment::Line { end, .. } => (end, EdgeCurve::Line),
            CurveSegment::Quadratic { ctrl, end, .. } => (end, EdgeCurve::Quadratic { ctrl }),
            CurveSegment::Cubic { ctrl1, ctrl2, end, .. } => (
                end,
                EdgeCurve::Cubic { ctrl1, ctrl2 },
            ),
        };
        let e = intern(&mut vertices, endpt);
        let s = if i == 0 {
            let startpt = match seg {
                CurveSegment::Line { start, .. } => start,
                CurveSegment::Quadratic { start, .. } => start,
                CurveSegment::Cubic { start, .. } => start,
            };
            intern(&mut vertices, startpt)
        } else {
            last
        };
        edges.push(WireEdge { start: s, end: e, curve });
        last = e;
        i += 1;
    }
    let first = edges[0].start;
    if last != first {
        edges.push(WireEdge { start: last, end: first, curve: EdgeCurve::Line });
        let w = Wire { vertices, edges };
        assert(!naturally_closed(segs));
        return Ok(w);
    }
    let w = Wire { vertices, edges };
    assert(naturally_closed(segs));
    Ok(w)
}

} // verus!
