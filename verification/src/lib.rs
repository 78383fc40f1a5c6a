use vstd::prelude::*;

pub mod bits;
pub mod geom;
pub mod pipeline;
pub mod shell;
pub mod solid;
pub mod stl;
pub mod transform;
pub mod wire;

verus! {

/// The failure kinds of the wing pipeline.
///
/// - `DomainError`: a numeric configuration value is out of its domain
///   (for example a root chord that is not strictly positive).
/// - `ProfileError`: the input profile is malformed or too short to bound
///   an area (fewer than three points).
/// - `GeometryError`: a topological failure — lofted wires whose segment
///   kinds disagree, or a shell that is not closed and manifold.
/// - `ToleranceError`: tessellation failed to converge within a bounded
///   subdivision depth for the requested chordal tolerance.
#[derive(Clone, Copy, Debug, PartialEq, Eq, Structural)]
pub enum WingError {
    DomainError,
    ProfileError,
    GeometryError,
    ToleranceError,
}

} // verus!
