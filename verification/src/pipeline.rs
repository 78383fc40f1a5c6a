use vstd::prelude::*;

use crate::geom::Profile;
use crate::shell::{assemble_solid, manifold, SolidPlan};
use crate::solid::{caps_opposed, extrude_shell, is_swept_shell_plan, loft_shell};
use crate::transform::{derive_maps, maps_of_config, Config, ProfileMaps};
use crate::wire::{build_wire, wire_represents_profile, Wire};
use crate::WingError;

verus! {

/// Which of the two interchangeable solid construction strategies a run
/// uses: rigid extrude-and-transform, or wire-to-wire lofting with
/// explicit end caps.
#[derive(Clone, Copy, Debug, PartialEq, Eq, Structural)]
pub enum Strategy {
    Extrude,
    Loft,
}

/// The ordered curve kinds of a wire's edges.
pub open spec fn wire_kinds(w: Wire) -> Seq<crate::geom::CurveKind> {
    Seq::new(w.edges@.len(), |i: int| w.edges@[i].curve.kind_spec())
}

/// Everything one run determines before the geometry kernel takes over:
/// the deduplicated root wire, the numeric maps, and the planned solid.
#[derive(Debug)]
pub struct WingPlan {
    pub wire: Wire,
    pub maps: ProfileMaps,
    pub solid: SolidPlan,
}

/// Plans one wing run: validates the configuration, builds the closed
/// root wire, sweeps it into a shell with the chosen strategy, and
/// assembles the shell into a solid plan.
///
/// Fails with `DomainError` exactly when the configuration is invalid —
/// before any wire or solid is constructed — and with `ProfileError`
/// exactly when the configuration is valid but the profile has fewer
/// than two segments. On every other input it succeeds: the planned
/// shell is closed and manifold, both caps opposed, whatever the
/// strategy.
pub fn plan_wing(profile: &Profile, cfg: &Config, strategy: Strategy) -> (r: Result<
    WingPlan,
    WingError,
>)
    ensures
        r is Ok <==> cfg.valid() && profile.segments@.len() >= 2,
        !cfg.valid() ==> r == Err::<WingPlan, WingError>(WingError::DomainError),
        cfg.valid() && profile.segments@.len() < 2 ==> r == Err::<WingPlan, WingError>(
            WingError::ProfileError,
        ),
        r matches Ok(p) ==> {
            &&& p.wire.wf()
            &&& wire_represents_profile(p.wire, profile.segments@)
            &&& p.maps == maps_of_config(*cfg)
            &&& is_swept_shell_plan(p.solid.shell, wire_kinds(p.wire))
            &&& manifold(p.solid.shell)
            &&& caps_opposed(p.solid.shell)
        },
{
    let maps = match derive_maps(cfg) {
        Ok(m) => m,
        Err(e) => {
            return Err(e);
        },
    };
    let wire = match build_wire(profile) {
        Ok(w) => w,
        Err(e) => {
            return Err(e);
        },
    };
    let root_topo = wire.topology();
    assert(root_topo.kinds@ =~= wire_kinds(wire));
    let shell = match strategy {
        Strategy::Extrude => extrude_shell(&root_topo),
        Strategy::Loft => {
            // The tip wire is the root wire under the tip transform; an
            // affine map carries every edge to an edge of the same curve
            // kind, so the two wires share their topology and the
            // lock-step pairing cannot fail.
            let tip_topo = wire.topology();
            assert(root_topo.kinds@ =~= tip_topo.kinds@);
            match loft_shell(&root_topo, &tip_topo) {
                Ok(s) => s,
                Err(e) => {
                    return Err(e);
                },
            }
        },
    };
    proof {
        crate::shell::lemma_swept_manifold(shell, wire_kinds(wire));
        crate::solid::lemma_swept_caps_opposed(shell, wire_kinds(wire));
    }
    let solid = match assemble_solid(shell) {
        Ok(s) => s,
        Err(e) => {
            return Err(e);
        },
    };
    Ok(WingPlan { wire, maps, solid })
}

} // verus!
