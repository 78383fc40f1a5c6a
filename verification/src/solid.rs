use vstd::prelude::*;

use crate::geom::CurveKind;
use crate::wire::Wire;
use crate::WingError;

verus! {

/// Identity of one edge of the swept solid's boundary.
///
/// A swept solid has one copy of every profile edge on the bottom wire
/// and one on the top wire, plus one riser per chain position of the
/// profile loop, connecting a bottom vertex to its image on the top wire.
/// Chain positions number the loop's stops `0 .. n` for `n` edges, with
/// position `n` wrapping back to `0`.
#[derive(Clone, Copy, Debug, PartialEq, Eq, Structural)]
pub enum SolidEdgeId {
    /// Edge `idx` of the bottom wire.
    Bottom { idx: usize },
    /// Edge `idx` of the top wire.
    Top { idx: usize },
    /// The riser at chain position `pos` of the profile loop.
    Riser { pos: usize },
}

/// One traversal of a solid edge on a face boundary: the edge, and
/// whether the face walks it in its own direction or against it.
#[derive(Clone, Copy, Debug, PartialEq, Eq, Structural)]
pub struct DirectedEdge {
    pub id: SolidEdgeId,
    pub forward: bool,
}

/// The analytic surface a planned face carries: an exact plane, or a
/// ruled surface between two curved edges.
#[derive(Clone, Copy, Debug, PartialEq, Eq, Structural)]
pub enum SurfaceKind {
    Plane,
    Ruled,
}

/// One face of a planned shell: its boundary as an ordered, directed
/// edge loop, and its surface kind. The loop's winding, seen from
/// outside the solid, is counterclockwise; it fixes the face's outward
/// normal.
#[derive(Debug)]
pub struct FacePlan {
    pub boundary: Vec<DirectedEdge>,
    pub surface: SurfaceKind,
}

/// The planned boundary shell of a swept solid: `segment_count` lateral
/// faces, one per profile edge, followed by the bottom cap and the top
/// cap.
#[derive(Debug)]
pub struct ShellPlan {
    pub segment_count: usize,
    pub faces: Vec<FacePlan>,
}

/// The topology of a wire: the ordered curve kinds of its edges. Two
/// wires can be lofted exactly when their topologies are equal.
#[derive(Debug)]
pub struct WireTopology {
    pub kinds: Vec<CurveKind>,
}

impl Wire {
    /// Returns the topology of the wire: its edges' curve kinds, in
    /// order.
    pub fn topology(&self) -> (t: WireTopology)
        ensures
            t.kinds@.len() == self.edges@.len(),
            forall|i: int|
                0 <= i < self.edges@.len() ==> t.kinds@[i] == (#[trigger] self.edges@[i]).curve.kind_spec(),
    {
        let mut kinds: Vec<CurveKind> = Vec::new();
        let n = self.edges.len();
        let mut i: usize = 0;
        while i < n
            invariant
                i <= n,
                n == self.edges@.len(),
                kinds@.len() == i,
                forall|j: int|
                    0 <= j < i ==> kinds@[j] == (#[trigger] self.edges@[j]).curve.kind_spec(),
            decreases n - i,
        {
            kinds.push(self.edges[i].curve.kind());
            i += 1;
        }
        WireTopology { kinds }
    }
}

/// The chain position after `k` on a loop of `n` edges.
pub open spec fn next_pos(n: int, k: int) -> int {
    if k + 1 == n {
        0
    } else {
        k + 1
    }
}

/// The boundary loop of the lateral face spawned by profile edge `k` of
/// a loop of `n` edges: the bottom copy forward, the riser at the edge's
/// far end upward, the top copy backward, the riser at the edge's near
/// end downward.
pub open spec fn lateral_boundary(n: int, k: int) -> Seq<DirectedEdge> {
    seq![
        DirectedEdge { id: SolidEdgeId::Bottom { idx: k as usize }, forward: true },
        DirectedEdge { id: SolidEdgeId::Riser { pos: next_pos(n, k) as usize }, forward: true },
        DirectedEdge { id: SolidEdgeId::Top { idx: k as usize }, forward: false },
        DirectedEdge { id: SolidEdgeId::Riser { pos: k as usize }, forward: false },
    ]
}

/// The surface of a lateral face: a pair of line edges bounds an exact
/// plane, a pair of curved edges a ruled surface.
pub open spec fn lateral_surface(k: CurveKind) -> SurfaceKind {
    if k == CurveKind::Line {
        SurfaceKind::Plane
    } else {
        SurfaceKind::Ruled
    }
}

/// The boundary loop of the bottom cap: the bottom wire's edges, walked
/// in reversed order and against their direction. The reversal inverts
/// the cap relative to its natural construction, so its outward normal
/// points against the sweep — without it the shell would be inside out.
pub open spec fn bottom_cap_boundary(n: int) -> Seq<DirectedEdge> {
    Seq::new(
        n as nat,
        |j: int| DirectedEdge { id: SolidEdgeId::Bottom { idx: (n - 1 - j) as usize }, forward: false },
    )
}

/// The boundary loop of the top cap: the top wire's edges in their own
/// order and direction, so its outward normal points along the sweep.
pub open spec fn top_cap_boundary(n: int) -> Seq<DirectedEdge> {
    Seq::new(
        n as nat,
        |j: int| DirectedEdge { id: SolidEdgeId::Top { idx: j as usize }, forward: true },
    )
}

/// The shell that sweeping a profile of the given topology determines:
/// one lateral face per profile edge, then the inverted bottom cap, then
/// the top cap. Both solid construction strategies produce exactly this
/// shell.
pub open spec fn is_swept_shell_plan(p: ShellPlan, kinds: Seq<CurveKind>) -> bool {
    let n = kinds.len() as int;
    &&& p.segment_count == n
    &&& p.faces@.len() == n + 2
    &&& forall|k: int| 0 <= k < n ==> (#[trigger] p.faces@[k]).boundary@ == lateral_boundary(n, k)
    &&& forall|k: int| 0 <= k < n ==> (#[trigger] p.faces@[k]).surface == lateral_surface(kinds[k])
    &&& p.faces@[n].boundary@ == bottom_cap_boundary(n)
    &&& p.faces@[n].surface == SurfaceKind::Plane
    &&& p.faces@[n + 1].boundary@ == top_cap_boundary(n)
    &&& p.faces@[n + 1].surface == SurfaceKind::Plane
}

/// Two shell plans describe the same shell: the same number of profile
/// edges, and face by face the same boundary loop and surface kind.
pub open spec fn shell_plans_match(p1: ShellPlan, p2: ShellPlan) -> bool {
    &&& p1.segment_count == p2.segment_count
    &&& p1.faces@.len() == p2.faces@.len()
    &&& forall|i: int|
        0 <= i < p1.faces@.len() ==> (#[trigger] p1.faces@[i]).boundary@
            == p2.faces@[i].boundary@ && p1.faces@[i].surface == p2.faces@[i].surface
}

/// Builds the swept shell of one profile topology: lateral faces in
/// order, then the two caps.
fn build_swept_plan(t: &WireTopology) -> (p: ShellPlan)
    ensures
        is_swept_shell_plan(p, t.kinds@),
{
    let n = t.kinds.len();
    let mut faces: Vec<FacePlan> = Vec::new();
    let mut k: usize = 0;
    while k < n
        invariant
            k <= n,
            n == t.kinds@.len(),
            faces@.len() == k,
            forall|j: int|
                0 <= j < k ==> (#[trigger] faces@[j]).boundary@ == lateral_boundary(n as int, j)
                    && faces@[j].surface == lateral_surface(t.kinds@[j]),
        decreases n - k,
    {
        let next: usize = if k + 1 == n {
            0
        } else {
            k + 1
        };
        let mut boundary: Vec<DirectedEdge> = Vec::new();
        boundary.push(DirectedEdge { id: SolidEdgeId::Bottom { idx: k }, forward: true });
        boundary.push(DirectedEdge { id: SolidEdgeId::Riser { pos: next }, forward: true });
        boundary.push(DirectedEdge { id: SolidEdgeId::Top { idx: k }, forward: false });
        boundary.push(DirectedEdge { id: SolidEdgeId::Riser { pos: k }, forward: false });
        let surface = if t.kinds[k] == CurveKind::Line {
            SurfaceKind::Plane
        } else {
            SurfaceKind::Ruled
        };
        assert(boundary@ =~= lateral_boundary(n as int, k as int));
        faces.push(FacePlan { boundary, surface });
        k += 1;
    }
    let mut bcap: Vec<DirectedEdge> = Vec::new();
    let mut j: usize = 0;
    while j < n
        invariant
            j <= n,
            n == t.kinds@.len(),
            bcap@.len() == j,
            forall|l: int| 0 <= l < j ==> bcap@[l] == bottom_cap_boundary(n as int)[l],
        decreases n - j,
    {
        bcap.push(DirectedEdge { id: SolidEdgeId::Bottom { idx: n - 1 - j }, forward: false });
        j += 1;
    }
    assert(bcap@ =~= bottom_cap_boundary(n as int));
    let mut tcap: Vec<DirectedEdge> = Vec::new();
    let mut l: usize = 0;
    while l < n
        invariant
            l <= n,
            n == t.kinds@.len(),
            tcap@.len() == l,
            forall|m: int| 0 <= m < l ==> tcap@[m] == top_cap_boundary(n as int)[m],
        decreases n - l,
    {
        tcap.push(DirectedEdge { id: SolidEdgeId::Top { idx: l }, forward: true });
        l += 1;
    }
    assert(tcap@ =~= top_cap_boundary(n as int));
    faces.push(FacePlan { boundary: bcap, surface: SurfaceKind::Plane });
    faces.push(FacePlan { boundary: tcap, surface: SurfaceKind::Plane });
    ShellPlan { segment_count: n, faces }
}

/// The extrude strategy: sweeps every element of the root profile — its
/// vertices into risers, its edges into lateral faces, the face itself
/// into the two caps — through the spanwise translation composed with
/// the tip transform. Each element is paired with its own transformed
/// copy, so the pairing always matches and the strategy cannot fail.
pub fn extrude_shell(root: &WireTopology) -> (p: ShellPlan)
    ensures
        is_swept_shell_plan(p, root.kinds@),
{
    build_swept_plan(root)
}

/// The loft strategy: walks the `bottom` and `top` wires in lock-step
/// and spawns one lateral face per corresponding pair of edges, then
/// attaches the inverted bottom cap and the top cap.
///
/// Fails with `GeometryError` exactly when the two wires' topologies
/// differ — a different number of edges, or some pair of corresponding
/// edges of different curve kinds. Such a pairing is undefined and is
/// rejected rather than built around.
pub fn loft_shell(bottom: &WireTopology, top: &WireTopology) -> (r: Result<ShellPlan, WingError>)
    ensures
        r is Ok <==> bottom.kinds@ == top.kinds@,
        r is Err ==> r == Err::<ShellPlan, WingError>(WingError::GeometryError),
        r matches Ok(p) ==> is_swept_shell_plan(p, bottom.kinds@),
{
    let n = bottom.kinds.len();
    if n != top.kinds.len() {
        return Err(WingError::GeometryError);
    }
    let mut i: usize = 0;
    while i < n
        invariant
            i <= n,
            n == bottom.kinds@.len(),
            n == top.kinds@.len(),
            forall|j: int| 0 <= j < i ==> bottom.kinds@[j] == top.kinds@[j],
        decreases n - i,
    {
        if bottom.kinds[i] != top.kinds[i] {
            return Err(WingError::GeometryError);
        }
        i += 1;
    }
    assert(bottom.kinds@ =~= top.kinds@);
    Ok(build_swept_plan(bottom))
}

/// Both strategies determine the same shell: any two plans swept from
/// equal profile topologies match face by face. At the geometric level
/// the two shells bound the same ruled taper and sweep, so the solids
/// they close have equal volume.
pub proof fn lemma_strategies_agree(p1: ShellPlan, p2: ShellPlan, kinds: Seq<CurveKind>)
    requires
        is_swept_shell_plan(p1, kinds),
        is_swept_shell_plan(p2, kinds),
    ensures
        shell_plans_match(p1, p2),
{
    let n = kinds.len() as int;
    assert forall|i: int| 0 <= i < p1.faces@.len() implies (#[trigger] p1.faces@[i]).boundary@
        == p2.faces@[i].boundary@ && p1.faces@[i].surface == p2.faces@[i].surface by {
        if i < n {
            assert(p1.faces@[i].boundary@ == lateral_boundary(n, i));
            assert(p2.faces@[i].boundary@ == lateral_boundary(n, i));
        }
    }
}

/// The two caps wind against each other: the bottom cap walks the
/// profile loop in reversed order and against each edge's direction,
/// while the top cap walks its copy of the loop naturally. Over the two
/// parallel cap planes this makes the bottom cap's outward normal
/// antiparallel to the top cap's.
pub open spec fn caps_opposed(p: ShellPlan) -> bool {
    let n = p.segment_count as int;
    &&& p.faces@.len() >= 2
    &&& {
        let bcap = p.faces@[p.faces@.len() - 2].boundary@;
        let tcap = p.faces@[p.faces@.len() - 1].boundary@;
        &&& bcap.len() == n
        &&& tcap.len() == n
        &&& forall|j: int|
            0 <= j < n ==> (#[trigger] bcap[j]) == (DirectedEdge {
                id: SolidEdgeId::Bottom { idx: (n - 1 - j) as usize },
                forward: false,
            })
        &&& forall|j: int|
            0 <= j < n ==> (#[trigger] tcap[j]) == (DirectedEdge {
                id: SolidEdgeId::Top { idx: j as usize },
                forward: true,
            })
    }
}

/// Every swept shell carries its caps with opposed winding: the bottom
/// cap inverted, the top cap natural.
pub proof fn lemma_swept_caps_opposed(p: ShellPlan, kinds: Seq<CurveKind>)
    requires
        is_swept_shell_plan(p, kinds),
    ensures
        caps_opposed(p),
{
    let n = kinds.len() as int;
    assert(p.faces@[n].boundary@ == bottom_cap_boundary(n));
    assert(p.faces@[n + 1].boundary@ == top_cap_boundary(n));
}

} // verus!
