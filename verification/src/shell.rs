use vstd::prelude::*;

use crate::solid::{
    bottom_cap_boundary, is_swept_shell_plan, lateral_boundary, next_pos, top_cap_boundary,
    DirectedEdge, FacePlan, ShellPlan, SolidEdgeId,
};
use crate::geom::CurveKind;
use crate::WingError;

verus! {

/// One if directed-edge entry `d` walks edge `e` in direction `fwd`,
/// else zero.
pub open spec fn ind_use(d: DirectedEdge, e: SolidEdgeId, fwd: bool) -> nat {
    if d.id == e && d.forward == fwd {
        1nat
    } else {
        0nat
    }
}

/// How often the first `i` entries of boundary `b` walk edge `e` in
/// direction `fwd`.
pub open spec fn count_dir_upto(b: Seq<DirectedEdge>, e: SolidEdgeId, fwd: bool, i: int) -> nat
    decreases i,
{
    if i <= 0 {
        0
    } else {
        count_dir_upto(b, e, fwd, i - 1) + ind_use(b[i - 1], e, fwd)
    }
}

/// How often boundary `b` walks edge `e` in direction `fwd`.
pub open spec fn count_dir(b: Seq<DirectedEdge>, e: SolidEdgeId, fwd: bool) -> nat {
    count_dir_upto(b, e, fwd, b.len() as int)
}

/// How often the first `i` faces walk edge `e` in direction `fwd`.
pub open spec fn uses_upto(faces: Seq<FacePlan>, e: SolidEdgeId, fwd: bool, i: int) -> nat
    decreases i,
{
    if i <= 0 {
        0
    } else {
        uses_upto(faces, e, fwd, i - 1) + count_dir(faces[i - 1].boundary@, e, fwd)
    }
}

/// How often the whole shell walks edge `e` in direction `fwd`.
pub open spec fn shell_uses(p: ShellPlan, e: SolidEdgeId, fwd: bool) -> nat {
    uses_upto(p.faces@, e, fwd, p.faces@.len() as int)
}

/// Edge `e` is walked by exactly two face traversals, one along its
/// direction and one against it — opposite winding on the two adjacent
/// faces.
pub open spec fn edge_ok(p: ShellPlan, e: SolidEdgeId) -> bool {
    shell_uses(p, e, true) == 1 && shell_uses(p, e, false) == 1
}

/// The shell is closed and manifold: every edge that some face boundary
/// walks is walked exactly twice over the whole shell, once in each
/// direction.
pub open spec fn manifold(p: ShellPlan) -> bool {
    forall|i: int, j: int|
        0 <= i < p.faces@.len() && 0 <= j < p.faces@[i].boundary@.len() ==> edge_ok(
            p,
            (#[trigger] p.faces@[i].boundary@[j]).id,
        )
}

/// A count, saturated at two: all the manifold check needs to know of a
/// count is whether it is zero, one, or more.
pub open spec fn cap2(x: nat) -> nat {
    if x >= 2 {
        2
    } else {
        x
    }
}

/// Counts how often the shell walks edge `e` in direction `fwd`,
/// saturating at two.
fn count_uses_capped(p: &ShellPlan, e: SolidEdgeId, fwd: bool) -> (c: usize)
    ensures
        c == cap2(shell_uses(*p, e, fwd)),
{
    let nf = p.faces.len();
    let mut c: usize = 0;
    let mut i: usize = 0;
    while i < nf
        invariant
            i <= nf,
            nf == p.faces@.len(),
            c == cap2(uses_upto(p.faces@, e, fwd, i as int)),
        decreases nf - i,
    {
        let nb = p.faces[i].boundary.len();
        let mut j: usize = 0;
        while j < nb
            invariant
                j <= nb,
                i < nf,
                nf == p.faces@.len(),
                nb == p.faces@[i as int].boundary@.len(),
                c == cap2(
                    uses_upto(p.faces@, e, fwd, i as int) + count_dir_upto(
                        p.faces@[i as int].boundary@,
                        e,
                        fwd,
                        j as int,
                    ),
                ),
            decreases nb - j,
        {
            let d = p.faces[i].boundary[j];
            if d.id == e && d.forward == fwd {
                if c < 2 {
                    c += 1;
                }
            }
            j += 1;
        }
        assert(count_dir_upto(p.faces@[i as int].boundary@, e, fwd, nb as int) == count_dir(
            p.faces@[i as int].boundary@,
            e,
            fwd,
        ));
        i += 1;
    }
    c
}

/// Checks that the shell is closed and manifold: every edge some face
/// walks must be walked exactly twice over the whole shell, once in each
/// direction.
pub fn check_manifold(p: &ShellPlan) -> (r: bool)
    ensures
        r == manifold(*p),
{
    let nf = p.faces.len();
    let mut i: usize = 0;
    while i < nf
        invariant
            i <= nf,
            nf == p.faces@.len(),
            forall|a: int, b: int|
                0 <= a < i && 0 <= b < p.faces@[a].boundary@.len() ==> edge_ok(
                    *p,
                    (#[trigger] p.faces@[a].boundary@[b]).id,
                ),
        decreases nf - i,
    {
        let nb = p.faces[i].boundary.len();
        let mut j: usize = 0;
        while j < nb
            invariant
                j <= nb,
                i < nf,
                nf == p.faces@.len(),
                nb == p.faces@[i as int].boundary@.len(),
                forall|a: int, b: int|
                    0 <= a < i && 0 <= b < p.faces@[a].boundary@.len() ==> edge_ok(
                        *p,
                        (#[trigger] p.faces@[a].boundary@[b]).id,
                    ),
                forall|b: int|
                    0 <= b < j ==> edge_ok(*p, (#[trigger] p.faces@[i as int].boundary@[b]).id),
            decreases nb - j,
        {
            let e = p.faces[i].boundary[j].id;
            let cf = count_uses_capped(p, e, true);
            let cb = count_uses_capped(p, e, false);
            if cf != 1 || cb != 1 {
                assert(!edge_ok(*p, p.faces@[i as int].boundary@[j as int].id));
                assert(!manifold(*p)) by {
                    if manifold(*p) {
                        assert(edge_ok(*p, p.faces@[i as int].boundary@[j as int].id));
                    }
                }
                return false;
            }
            j += 1;
        }
        i += 1;
    }
    true
}

/// The plan of a solid: exactly one outer closed shell, no internal
/// voids.
#[derive(Debug)]
pub struct SolidPlan {
    pub shell: ShellPlan,
}

/// Wraps a planned shell into the plan of a solid.
///
/// Fails with `GeometryError` exactly when the shell is not closed and
/// manifold — a broken shell is diagnosed here, before tessellation,
/// never handed on silently.
pub fn assemble_solid(shell: ShellPlan) -> (r: Result<SolidPlan, WingError>)
    ensures
        r is Ok <==> manifold(shell),
        r is Err ==> r == Err::<SolidPlan, WingError>(WingError::GeometryError),
        r matches Ok(s) ==> s.shell == shell,
{
    if check_manifold(&shell) {
        Ok(SolidPlan { shell })
    } else {
        Err(WingError::GeometryError)
    }
}

/// The chain position before `k` on a loop of `n` edges.
pub open spec fn prev_pos(n: int, k: int) -> int {
    if k == 0 {
        n - 1
    } else {
        k - 1
    }
}

/// How often the first `i` entries of the bottom cap walk edge `e` in
/// direction `fwd`: once, backward, for a bottom edge whose reversed
/// position lies below `i`; never otherwise.
spec fn bcap_expected(n: int, e: SolidEdgeId, fwd: bool, i: int) -> nat {
    match e {
        SolidEdgeId::Bottom { idx } => if !fwd && (idx as int) < n && n - 1 - (idx as int) < i {
            1nat
        } else {
            0nat
        },
        _ => 0nat,
    }
}

/// How often the first `i` entries of the top cap walk edge `e` in
/// direction `fwd`: once, forward, for a top edge below `i`; never
/// otherwise.
spec fn tcap_expected(e: SolidEdgeId, fwd: bool, i: int) -> nat {
    match e {
        SolidEdgeId::Top { idx } => if fwd && (idx as int) < i {
            1nat
        } else {
            0nat
        },
        _ => 0nat,
    }
}

/// How often the first `i` lateral faces walk edge `e` in direction
/// `fwd`: each bottom edge once forward, each top edge once backward,
/// each riser once in each direction, all within the laterals built so
/// far.
spec fn lat_expected(n: int, e: SolidEdgeId, fwd: bool, i: int) -> nat {
    match e {
        SolidEdgeId::Bottom { idx } => if fwd && (idx as int) < i {
            1nat
        } else {
            0nat
        },
        SolidEdgeId::Top { idx } => if !fwd && (idx as int) < i {
            1nat
        } else {
            0nat
        },
        SolidEdgeId::Riser { pos } => if fwd {
            if (pos as int) < n && prev_pos(n, pos as int) < i {
                1nat
            } else {
                0nat
            }
        } else {
            if (pos as int) < i {
                1nat
            } else {
                0nat
            }
        },
    }
}

/// A boundary of four entries is walked as often as its four entries
/// say.
proof fn lemma_count_dir_4(b: Seq<DirectedEdge>, e: SolidEdgeId, fwd: bool)
    requires
        b.len() == 4,
    ensures
        count_dir(b, e, fwd) == ind_use(b[0], e, fwd) + ind_use(b[1], e, fwd) + ind_use(
            b[2],
            e,
            fwd,
        ) + ind_use(b[3], e, fwd),
{
    assert(count_dir_upto(b, e, fwd, 0) == 0);
    assert(count_dir_upto(b, e, fwd, 1) == ind_use(b[0], e, fwd));
    assert(count_dir_upto(b, e, fwd, 2) == count_dir_upto(b, e, fwd, 1) + ind_use(b[1], e, fwd));
    assert(count_dir_upto(b, e, fwd, 3) == count_dir_upto(b, e, fwd, 2) + ind_use(b[2], e, fwd));
    assert(count_dir_upto(b, e, fwd, 4) == count_dir_upto(b, e, fwd, 3) + ind_use(b[3], e, fwd));
}

/// Counting over the bottom cap boundary.
proof fn lemma_bcap_count(n: int, e: SolidEdgeId, fwd: bool, i: int)
    requires
        0 <= i <= n,
        n <= usize::MAX as int,
    ensures
        count_dir_upto(bottom_cap_boundary(n), e, fwd, i) == bcap_expected(n, e, fwd, i),
    decreases i,
{
    if i > 0 {
        lemma_bcap_count(n, e, fwd, i - 1);
        assert(bottom_cap_boundary(n)[i - 1] == (DirectedEdge {
            id: SolidEdgeId::Bottom { idx: (n - i) as usize },
            forward: false,
        }));
    }
}

/// Counting over the top cap boundary.
proof fn lemma_tcap_count(n: int, e: SolidEdgeId, fwd: bool, i: int)
    requires
        0 <= i <= n,
        n <= usize::MAX as int,
    ensures
        count_dir_upto(top_cap_boundary(n), e, fwd, i) == tcap_expected(e, fwd, i),
    decreases i,
{
    if i > 0 {
        lemma_tcap_count(n, e, fwd, i - 1);
        assert(top_cap_boundary(n)[i - 1] == (DirectedEdge {
            id: SolidEdgeId::Top { idx: (i - 1) as usize },
            forward: true,
        }));
    }
}

/// Counting over the first `i` lateral faces of a swept shell.
proof fn lemma_lat_uses(faces: Seq<FacePlan>, n: int, e: SolidEdgeId, fwd: bool, i: int)
    requires
        0 <= i <= n,
        n <= usize::MAX as int,
        n <= faces.len(),
        forall|k: int| 0 <= k < n ==> (#[trigger] faces[k]).boundary@ == lateral_boundary(n, k),
    ensures
        uses_upto(faces, e, fwd, i) == lat_expected(n, e, fwd, i),
    decreases i,
{
    if i > 0 {
        lemma_lat_uses(faces, n, e, fwd, i - 1);
        let b = lateral_boundary(n, i - 1);
        lemma_count_dir_4(b, e, fwd);
        assert(b[0] == (DirectedEdge {
            id: SolidEdgeId::Bottom { idx: (i - 1) as usize },
            forward: true,
        }));
        assert(b[1] == (DirectedEdge {
            id: SolidEdgeId::Riser { pos: next_pos(n, i - 1) as usize },
            forward: true,
        }));
        assert(b[2] == (DirectedEdge {
            id: SolidEdgeId::Top { idx: (i - 1) as usize },
            forward: false,
        }));
        assert(b[3] == (DirectedEdge {
            id: SolidEdgeId::Riser { pos: (i - 1) as usize },
            forward: false,
        }));
    }
}

/// Every edge of a swept shell is walked exactly once in each direction.
proof fn lemma_swept_edge_ok(p: ShellPlan, kinds: Seq<CurveKind>, e: SolidEdgeId)
    requires
        is_swept_shell_plan(p, kinds),
        match e {
            SolidEdgeId::Bottom { idx } => (idx as int) < kinds.len(),
            SolidEdgeId::Top { idx } => (idx as int) < kinds.len(),
            SolidEdgeId::Riser { pos } => (pos as int) < kinds.len(),
        },
    ensures
        edge_ok(p, e),
{
    let n = kinds.len() as int;
    assert(n <= usize::MAX as int);
    let faces = p.faces@;
    lemma_lat_uses(faces, n, e, true, n);
    lemma_lat_uses(faces, n, e, false, n);
    lemma_bcap_count(n, e, true, n);
    lemma_bcap_count(n, e, false, n);
    lemma_tcap_count(n, e, true, n);
    lemma_tcap_count(n, e, false, n);
    assert(uses_upto(faces, e, true, n + 2) == uses_upto(faces, e, true, n + 1) + count_dir(
        faces[n + 1].boundary@,
        e,
        true,
    ));
    assert(uses_upto(faces, e, true, n + 1) == uses_upto(faces, e, true, n) + count_dir(
        faces[n].boundary@,
        e,
        true,
    ));
    assert(uses_upto(faces, e, false, n + 2) == uses_upto(faces, e, false, n + 1) + count_dir(
        faces[n + 1].boundary@,
        e,
        false,
    ));
    assert(uses_upto(faces, e, false, n + 1) == uses_upto(faces, e, false, n) + count_dir(
        faces[n].boundary@,
        e,
        false,
    ));
    assert(shell_uses(p, e, true) == uses_upto(faces, e, true, n + 2));
    assert(shell_uses(p, e, false) == uses_upto(faces, e, false, n + 2));
}

/// The shell every swept plan describes is closed and manifold: each
/// bottom edge is shared by its lateral face and the bottom cap, each
/// top edge by its lateral face and the top cap, and each riser by the
/// two lateral faces around its chain position — always with opposite
/// winding.
pub proof fn lemma_swept_manifold(p: ShellPlan, kinds: Seq<CurveKind>)
    requires
        is_swept_shell_plan(p, kinds),
    ensures
        manifold(p),
{
    let n = kinds.len() as int;
    assert(n <= usize::MAX as int);
    assert forall|i: int, j: int|
        0 <= i < p.faces@.len() && 0 <= j < p.faces@[i].boundary@.len() implies edge_ok(
        p,
        (#[trigger] p.faces@[i].boundary@[j]).id,
    ) by {
        let e = p.faces@[i].boundary@[j].id;
        if i < n {
            let b = lateral_boundary(n, i);
            assert(p.faces@[i].boundary@ == b);
            assert(b[0].id == (SolidEdgeId::Bottom { idx: i as usize }));
            assert(b[1].id == (SolidEdgeId::Riser { pos: next_pos(n, i) as usize }));
            assert(b[2].id == (SolidEdgeId::Top { idx: i as usize }));
            assert(b[3].id == (SolidEdgeId::Riser { pos: i as usize }));
            assert(j == 0 || j == 1 || j == 2 || j == 3);
            assert(0 <= next_pos(n, i) < n);
            lemma_swept_edge_ok(p, kinds, e);
        } else if i == n {
            assert(p.faces@[i].boundary@ == bottom_cap_boundary(n));
            assert(e == (SolidEdgeId::Bottom { idx: (n - 1 - j) as usize }));
            lemma_swept_edge_ok(p, kinds, e);
        } else {
            assert(i == n + 1);
            assert(p.faces@[i].boundary@ == top_cap_boundary(n));
            assert(e == (SolidEdgeId::Top { idx: j as usize }));
            lemma_swept_edge_ok(p, kinds, e);
        }
    }
}

} // verus!
