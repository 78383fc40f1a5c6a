use wingmesh::geom::CurveKind;
use wingmesh::shell::{assemble_solid, check_manifold};
use wingmesh::solid::{
    extrude_shell, loft_shell, DirectedEdge, FacePlan, SolidEdgeId, SurfaceKind, WireTopology,
};
use wingmesh::WingError;

fn lines(n: usize) -> WireTopology {
    WireTopology { kinds: vec![CurveKind::Line; n] }
}

#[test]
fn loft_with_mismatched_segment_count_is_geometry_error() {
    // Three segments against four: mismatched homotopy.
    let bottom = lines(3);
    let top = lines(4);
    assert_eq!(loft_shell(&bottom, &top).unwrap_err(), WingError::GeometryError);
}

#[test]
fn loft_with_mismatched_segment_kind_is_geometry_error() {
    // A line paired against a cubic is undefined and must not be built
    // around.
    let bottom = WireTopology { kinds: vec![CurveKind::Line, CurveKind::Line] };
    let top = WireTopology { kinds: vec![CurveKind::Line, CurveKind::Cubic] };
    assert_eq!(loft_shell(&bottom, &top).unwrap_err(), WingError::GeometryError);
}

#[test]
fn loft_of_matching_topologies_builds_full_shell() {
    let plan = loft_shell(&lines(3), &lines(3)).unwrap();
    assert_eq!(plan.segment_count, 3);
    // Three lateral faces plus the two caps.
    assert_eq!(plan.faces.len(), 5);
    for k in 0..3 {
        assert_eq!(plan.faces[k].surface, SurfaceKind::Plane);
        assert_eq!(
            plan.faces[k].boundary,
            vec![
                DirectedEdge { id: SolidEdgeId::Bottom { idx: k }, forward: true },
                DirectedEdge { id: SolidEdgeId::Riser { pos: (k + 1) % 3 }, forward: true },
                DirectedEdge { id: SolidEdgeId::Top { idx: k }, forward: false },
                DirectedEdge { id: SolidEdgeId::Riser { pos: k }, forward: false },
            ]
        );
    }
}

#[test]
fn curved_segments_loft_to_ruled_faces() {
    let topo = WireTopology { kinds: vec![CurveKind::Quadratic, CurveKind::Line, CurveKind::Cubic] };
    let twin = WireTopology { kinds: topo.kinds.clone() };
    let plan = loft_shell(&topo, &twin).unwrap();
    assert_eq!(plan.faces[0].surface, SurfaceKind::Ruled);
    assert_eq!(plan.faces[1].surface, SurfaceKind::Plane);
    assert_eq!(plan.faces[2].surface, SurfaceKind::Ruled);
    assert_eq!(plan.faces[3].surface, SurfaceKind::Plane);
    assert_eq!(plan.faces[4].surface, SurfaceKind::Plane);
}

#[test]
fn extrude_and_loft_agree() {
    // The two strategies produce the same shell for matching parameters.
    let kinds = vec![CurveKind::Line, CurveKind::Quadratic, CurveKind::Line, CurveKind::Line];
    let a = extrude_shell(&WireTopology { kinds: kinds.clone() });
    let b = loft_shell(&WireTopology { kinds: kinds.clone() }, &WireTopology { kinds }).unwrap();
    assert_eq!(a.segment_count, b.segment_count);
    assert_eq!(a.faces.len(), b.faces.len());
    for (fa, fb) in a.faces.iter().zip(b.faces.iter()) {
        assert_eq!(fa.boundary, fb.boundary);
        assert_eq!(fa.surface, fb.surface);
    }
}

#[test]
fn caps_wind_against_each_other() {
    // The bottom cap walks the loop reversed and backward, the top cap
    // naturally: their outward normals are antiparallel.
    let plan = extrude_shell(&lines(3));
    let bcap = &plan.faces[3].boundary;
    let tcap = &plan.faces[4].boundary;
    assert_eq!(bcap.len(), 3);
    assert_eq!(tcap.len(), 3);
    for j in 0..3 {
        assert_eq!(bcap[j], DirectedEdge { id: SolidEdgeId::Bottom { idx: 2 - j }, forward: false });
        assert_eq!(tcap[j], DirectedEdge { id: SolidEdgeId::Top { idx: j }, forward: true });
    }
}

#[test]
fn swept_shell_is_manifold_and_assembles() {
    let plan = extrude_shell(&lines(5));
    assert!(check_manifold(&plan));
    let solid = assemble_solid(plan).unwrap();
    assert_eq!(solid.shell.faces.len(), 7);
}

#[test]
fn shell_with_dangling_face_is_rejected() {
    // An extra face walking one bottom edge a third time breaks the
    // two-uses-opposite-winding rule.
    let mut plan = extrude_shell(&lines(3));
    plan.faces.push(FacePlan {
        boundary: vec![DirectedEdge { id: SolidEdgeId::Bottom { idx: 0 }, forward: true }],
        surface: SurfaceKind::Plane,
    });
    assert!(!check_manifold(&plan));
    assert_eq!(assemble_solid(plan).unwrap_err(), WingError::GeometryError);
}

#[test]
fn unflipped_bottom_cap_is_not_manifold() {
    // Walking the bottom cap along each edge instead of against it
    // leaves the shell inside out: every bottom edge is walked forward
    // twice, so the shell must be rejected.
    let mut plan = extrude_shell(&lines(3));
    for de in plan.faces[3].boundary.iter_mut() {
        de.forward = true;
    }
    assert!(!check_manifold(&plan));
}

#[test]
fn open_shell_without_caps_is_rejected() {
    // Lateral faces alone leave every profile edge used only once.
    let mut plan = extrude_shell(&lines(3));
    plan.faces.truncate(3);
    assert!(!check_manifold(&plan));
    assert_eq!(assemble_solid(plan).unwrap_err(), WingError::GeometryError);
}
