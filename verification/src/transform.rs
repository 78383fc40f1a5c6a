use vstd::prelude::*;

use crate::bits::{
    f64_bits_finite, f64_bits_nonnegative, f64_bits_positive, is_finite_bits, is_nonnegative_bits,
    is_positive_bits,
};
use crate::WingError;

verus! {

/// The numeric configuration of one run, every value as the raw bit
/// pattern of the double it was given as.
#[derive(Clone, Copy, Debug, PartialEq, Eq, Structural)]
pub struct Config {
    /// Chord length at the wing root; must be strictly positive.
    pub root_chord: u64,
    /// Chord length at the wing tip; must be nonnegative.
    pub tip_chord: u64,
    /// Spanwise extent of the half wing; must be strictly positive.
    pub semi_wingspan: u64,
    /// Chordwise offset of the tip profile; any real number.
    pub sweep: u64,
    /// Chordal deviation tolerance for tessellation; must be strictly
    /// positive.
    pub tolerance: u64,
}

impl Config {
    /// Every configuration value lies in its domain. In particular the
    /// root chord is strictly positive, so the taper ratio divides by a
    /// nonzero number.
    pub open spec fn valid(self) -> bool {
        &&& f64_bits_positive(self.root_chord)
        &&& f64_bits_nonnegative(self.tip_chord)
        &&& f64_bits_positive(self.semi_wingspan)
        &&& f64_bits_finite(self.sweep)
        &&& f64_bits_positive(self.tolerance)
    }
}

/// The affine map that carries the root profile to the tip profile: a
/// nonuniform planar scale by `tip_chord / root_chord` in x and y (and 1
/// in z), composed with a translation by `(sweep, 0, semi_wingspan)`.
///
/// The map is kept symbolically, as the bit patterns of its defining
/// parameters; the division and the matrix are evaluated only where the
/// geometry kernel applies the map.
#[derive(Clone, Copy, Debug, PartialEq, Eq, Structural)]
pub struct TipTransform {
    /// Numerator of the planar scale factor: the tip chord.
    pub scale_num: u64,
    /// Denominator of the planar scale factor: the root chord, strictly
    /// positive for every transform this module hands out.
    pub scale_den: u64,
    /// Translation along the chord axis.
    pub sweep: u64,
    /// Translation along the span axis.
    pub span: u64,
}

/// What the ProfileTransformer hands to the solid builder: the uniform
/// scale that carries the unit-chord profile to the root chord, and the
/// tip transform.
#[derive(Clone, Copy, Debug, PartialEq, Eq, Structural)]
pub struct ProfileMaps {
    /// Uniform scale factor about the origin for the root profile.
    pub root_scale: u64,
    /// The affine map from the root profile to the tip profile.
    pub tip: TipTransform,
}

/// The maps that a valid configuration determines.
pub open spec fn maps_of_config(cfg: Config) -> ProfileMaps {
    ProfileMaps {
        root_scale: cfg.root_chord,
        tip: TipTransform {
            scale_num: cfg.tip_chord,
            scale_den: cfg.root_chord,
            sweep: cfg.sweep,
            span: cfg.semi_wingspan,
        },
    }
}

/// Validates the configuration and derives the profile maps.
///
/// Fails with `DomainError` exactly when some configuration value is out
/// of its domain — in particular when the root chord is zero, so that no
/// division by zero and no geometry is ever attempted for such a run.
pub fn derive_maps(cfg: &Config) -> (r: Result<ProfileMaps, WingError>)
    ensures
        r is Ok <==> cfg.valid(),
        r is Err ==> r == Err::<ProfileMaps, WingError>(WingError::DomainError),
        r matches Ok(m) ==> m == maps_of_config(*cfg),
{
    if !is_positive_bits(cfg.root_chord) {
        return Err(WingError::DomainError);
    }
    if !is_nonnegative_bits(cfg.tip_chord) {
        return Err(WingError::DomainError);
    }
    if !is_positive_bits(cfg.semi_wingspan) {
        return Err(WingError::DomainError);
    }
    if !is_finite_bits(cfg.sweep) {
        return Err(WingError::DomainError);
    }
    if !is_positive_bits(cfg.tolerance) {
        return Err(WingError::DomainError);
    }
    Ok(
        ProfileMaps {
            root_scale: cfg.root_chord,
            tip: TipTransform {
                scale_num: cfg.tip_chord,
                scale_den: cfg.root_chord,
                sweep: cfg.sweep,
                span: cfg.semi_wingspan,
            },
        },
    )
}

} // verus!
