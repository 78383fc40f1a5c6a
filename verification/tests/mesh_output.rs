use truck_meshalgo::filters::OptimizingFilter;
use truck_meshalgo::tessellation::{MeshableShape, MeshedShape};
use truck_modeling::{builder, Matrix4, Point3, Solid, Vector3, Wire};
use wingmesh::geom::{CurveSegment, Point2, Profile};
use wingmesh::pipeline::{plan_wing, Strategy};
use wingmesh::stl::{write_stl, Facet, Vec3f};
use wingmesh::transform::Config;
use wingmesh::wire::EdgeCurve;

fn pt(x: f64, y: f64) -> Point2 {
    Point2 { x: x.to_bits(), y: y.to_bits() }
}

// The diamond scenario, run through the real geometry kernel: plan with
// the library, execute the plan with the kernel, then serialize with the
// library's writer.
#[test]
fn diamond_wing_meshes_within_bounds() {
    let profile = Profile {
        segments: vec![
            CurveSegment::Line { start: pt(1.0, 0.0), end: pt(0.0, 0.1) },
            CurveSegment::Line { start: pt(0.0, 0.1), end: pt(0.0, -0.1) },
            CurveSegment::Line { start: pt(0.0, -0.1), end: pt(1.0, 0.0) },
        ],
    };
    let cfg = Config {
        root_chord: 1.0f64.to_bits(),
        tip_chord: 0.5f64.to_bits(),
        semi_wingspan: 2.0f64.to_bits(),
        sweep: 0.0f64.to_bits(),
        tolerance: 0.05f64.to_bits(),
    };
    let plan = plan_wing(&profile, &cfg, Strategy::Loft).unwrap();

    // Execute the plan: vertices, edges, the two wires, the lofted shell
    // with its caps, the solid.
    let vertices: Vec<truck_modeling::Vertex> = plan
        .wire
        .vertices
        .iter()
        .map(|p| builder::vertex(Point3::new(f64::from_bits(p.x), f64::from_bits(p.y), 0.0)))
        .collect();
    let edges: Vec<truck_modeling::Edge> = plan
        .wire
        .edges
        .iter()
        .map(|e| match e.curve {
            EdgeCurve::Line => builder::line(&vertices[e.start], &vertices[e.end]),
            EdgeCurve::Quadratic { ctrl } => builder::bezier(
                &vertices[e.start],
                &vertices[e.end],
                vec![Point3::new(f64::from_bits(ctrl.x), f64::from_bits(ctrl.y), 0.0)],
            ),
            EdgeCurve::Cubic { ctrl1, ctrl2 } => builder::bezier(
                &vertices[e.start],
                &vertices[e.end],
                vec![
                    Point3::new(f64::from_bits(ctrl1.x), f64::from_bits(ctrl1.y), 0.0),
                    Point3::new(f64::from_bits(ctrl2.x), f64::from_bits(ctrl2.y), 0.0),
                ],
            ),
        })
        .collect();
    let unit_wire: Wire = edges.into_iter().collect();
    let root = f64::from_bits(plan.maps.root_scale);
    let bottom = builder::scaled(
        &unit_wire,
        Point3::new(0.0, 0.0, 0.0),
        Vector3::new(root, root, root),
    );
    let scale = f64::from_bits(plan.maps.tip.scale_num) / f64::from_bits(plan.maps.tip.scale_den);
    let mat = Matrix4::from_translation(Vector3::new(
        f64::from_bits(plan.maps.tip.sweep),
        0.0,
        f64::from_bits(plan.maps.tip.span),
    )) * Matrix4::from_nonuniform_scale(scale, scale, 1.0);
    let top = builder::transformed(&bottom, mat);
    let mut shell = builder::try_wire_homotopy(&bottom, &top).unwrap();
    shell.push(builder::try_attach_plane(&[bottom]).unwrap().inverse());
    shell.push(builder::try_attach_plane(&[top]).unwrap());
    let solid = Solid::new(vec![shell]);

    let mut mesh = solid.triangulation(f64::from_bits(cfg.tolerance)).to_polygon();
    mesh.put_together_same_attrs(1.0e-7).remove_degenerate_faces().remove_unused_attrs();

    // The solid spans z in [0, 2]; the chord tapers from 1 at the root
    // to 0.5 at the tip.
    let eps = 1.0e-9;
    let mut max_x_root = f64::MIN;
    let mut max_x_tip = f64::MIN;
    for p in mesh.positions() {
        assert!(p.z >= -eps && p.z <= 2.0 + eps);
        if p.z < eps {
            max_x_root = max_x_root.max(p.x);
        }
        if p.z > 2.0 - eps {
            max_x_tip = max_x_tip.max(p.x);
        }
    }
    assert!((max_x_root - 1.0).abs() < 1.0e-6);
    assert!((max_x_tip - 0.5).abs() < 1.0e-6);

    // Every emitted triangle keeps an area above the degeneracy epsilon.
    let mut facets: Vec<Facet> = Vec::new();
    let mut six_volume = 0.0f64;
    for tri in mesh.tri_faces() {
        let a = mesh.positions()[tri[0].pos];
        let b = mesh.positions()[tri[1].pos];
        let c = mesh.positions()[tri[2].pos];
        let (ux, uy, uz) = (b.x - a.x, b.y - a.y, b.z - a.z);
        let (vx, vy, vz) = (c.x - a.x, c.y - a.y, c.z - a.z);
        let (nx, ny, nz) = (uy * vz - uz * vy, uz * vx - ux * vz, ux * vy - uy * vx);
        let len = (nx * nx + ny * ny + nz * nz).sqrt();
        assert!(len / 2.0 > 1.0e-12);
        six_volume += a.x * (b.y * c.z - b.z * c.y) + a.y * (b.z * c.x - b.x * c.z)
            + a.z * (b.x * c.y - b.y * c.x);
        let v3 = |x: f64, y: f64, z: f64| Vec3f {
            x: (x as f32).to_bits(),
            y: (y as f32).to_bits(),
            z: (z as f32).to_bits(),
        };
        facets.push(Facet {
            normal: v3(nx / len, ny / len, nz / len),
            a: v3(a.x, a.y, a.z),
            b: v3(b.x, b.y, b.z),
            c: v3(c.x, c.y, c.z),
        });
    }
    assert_eq!(mesh.quad_faces().len(), 0);
    assert_eq!(mesh.other_faces().len(), 0);
    assert!(facets.len() > 0);

    // The mesh is watertight and outward-oriented: its signed volume is
    // the analytic volume of the tapered wing, the diamond area 0.1
    // scaled quadratically from 1 to 0.5 over the span of 2.
    assert!((six_volume / 6.0 - 7.0 / 60.0).abs() < 1.0e-9);

    // The serialized artifact is exactly header + count + 50 bytes per
    // facet.
    let bytes = write_stl(&facets);
    assert_eq!(bytes.len(), 80 + 4 + facets.len() * 50);
    let count = u32::from_le_bytes([bytes[80], bytes[81], bytes[82], bytes[83]]);
    assert_eq!(count as usize, facets.len());
}
