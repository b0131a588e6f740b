//! The pattern synthesizer: a pure mapping from generation parameters to an
//! ordered sequence of placed-element descriptors.
//!
//! Descriptors are polar: an element's position is its radius together with
//! its angle, both in fixed point. Converting to cartesian screen
//! coordinates (a cosine and a sine) is the renderer's job; everything the
//! pattern itself determines is pinned down here exactly.

use vstd::prelude::*;

use crate::fixed::{isqrt, sqrt_floor, SCALE, SCALE_SQUARED};
use crate::params::{
    FlowerMode, GenerationParameters, GrowthLaw, MAX_ANGULAR_INCREMENT, MAX_SEED_COUNT,
};

verus! {

/// A quarter of a revolution, in micro-turns: the tangent adjustment of a
/// petal's long axis against the radial direction.
pub const QUARTER_TURN: i64 = 250_000;

/// One synthesized element, in polar form.
///
/// The descriptor carries no resource handles; the regeneration controller
/// pairs it with the cached shape and style handles when it materializes
/// the element.
#[derive(Clone, Copy, Debug, PartialEq, Eq, Structural)]
pub struct PlacedElement {
    /// Angle from the pattern center, in micro-turns; not normalized, the
    /// index `i` contributes `i` times the angular increment.
    pub angle_microturns: i64,
    /// Distance from the pattern center, in micro-units.
    pub radius_microunits: u64,
    /// Orientation of the element itself, in micro-turns; zero for seeds,
    /// which are rotation-invariant.
    pub rotation_microturns: i64,
}

/// Angle of the element with index `i` (starting at 1): `i` steps of the
/// angular increment.
pub open spec fn angle_of(p: GenerationParameters, i: int) -> int {
    p.angular_increment * i
}

/// Radius growth of seed-mode index `i` before spacing is applied, in
/// micro-units: `sqrt(i)` or `i`, by the growth law.
pub open spec fn law_units_of(law: GrowthLaw, i: int) -> int {
    match law {
        GrowthLaw::SquareRoot => sqrt_floor(i * SCALE_SQUARED),
        GrowthLaw::Linear => i * SCALE,
    }
}

/// Radius of the element with index `i`, in micro-units. Petals sit on one
/// fixed ring of radius `radial_spacing` by design; seed radii grow with
/// the index by the growth law, scaled by `radial_spacing`.
pub open spec fn radius_of(p: GenerationParameters, i: int) -> int {
    match p.pattern_mode {
        FlowerMode::Seed => (law_units_of(p.radial_growth_law, i) * p.radial_spacing) / (
        SCALE as int),
        FlowerMode::Petal => p.radial_spacing as int,
    }
}

/// Orientation of the element with index `i`: seeds are rotation-invariant,
/// a petal's long axis is turned a quarter turn past its angle.
pub open spec fn rotation_of(p: GenerationParameters, i: int) -> int {
    match p.pattern_mode {
        FlowerMode::Seed => 0,
        FlowerMode::Petal => angle_of(p, i) + QUARTER_TURN,
    }
}

/// The element that index `i` synthesizes to, as a value.
pub open spec fn element_at(p: GenerationParameters, i: int) -> PlacedElement {
    PlacedElement {
        angle_microturns: angle_of(p, i) as i64,
        radius_microunits: radius_of(p, i) as u64,
        rotation_microturns: rotation_of(p, i) as i64,
    }
}

/// What `synthesize` returns: one element per index 1 up to and including
/// `element_count`, in index order, each pinned to `element_at`.
pub open spec fn synth_post(p: GenerationParameters, s: Seq<PlacedElement>) -> bool {
    &&& s.len() == p.element_count
    &&& forall|k: int| 0 <= k < s.len() ==> s[k] == element_at(p, k + 1)
}

/// Pure synthesis: parameters in, the ordered descriptor sequence out.
///
/// Total over the well-formed domain; a zero element count yields the empty
/// sequence. The caller clamps the count to the mode's maximum beforehand
/// (that bound is part of `wf`), the synthesizer itself never clamps.
pub fn synthesize(p: &GenerationParameters) -> (out: Vec<PlacedElement>)
    requires
        p.wf(),
    ensures
        synth_post(*p, out@),
{
    let mut out: Vec<PlacedElement> = Vec::new();
    let count = p.element_count;
    let mut i: u32 = 1;
    while i <= count
        invariant
            1 <= i <= count + 1,
            count == p.element_count,
            count <= MAX_SEED_COUNT,
            p.wf(),
            out@.len() == i - 1,
            forall|k: int| 0 <= k < out@.len() ==> out@[k] == element_at(*p, k + 1),
        decreases count + 1 - i,
    {
        assert(p.angular_increment * i <= MAX_ANGULAR_INCREMENT * MAX_SEED_COUNT
            && -MAX_ANGULAR_INCREMENT * MAX_SEED_COUNT <= p.angular_increment * i) by (
        nonlinear_arith)
            requires
                -MAX_ANGULAR_INCREMENT <= p.angular_increment <= MAX_ANGULAR_INCREMENT,
                1 <= i <= MAX_SEED_COUNT,
        ;
        let angle: i64 = p.angular_increment * (i as i64);
        let radius: u64 = match p.pattern_mode {
            FlowerMode::Seed => {
                let law: u64 = match p.radial_growth_law {
                    GrowthLaw::SquareRoot => isqrt((i as u64) * SCALE_SQUARED),
                    GrowthLaw::Linear => (i as u64) * SCALE,
                };
                assert(law * p.radial_spacing <= 6_000_000_000 * 100_000_000) by (nonlinear_arith)
                    requires
                        law <= 6_000_000_000,
                        p.radial_spacing <= 100_000_000,
                ;
                (law * p.radial_spacing) / SCALE
            },
            FlowerMode::Petal => p.radial_spacing,
        };
        let rotation: i64 = match p.pattern_mode {
            FlowerMode::Seed => 0,
            FlowerMode::Petal => angle + QUARTER_TURN,
        };
        out.push(PlacedElement {
            angle_microturns: angle,
            radius_microunits: radius,
            rotation_microturns: rotation,
        });
        assert(out@[i - 1] == element_at(*p, i as int));
        i = i + 1;
    }
    out
}

} // verus!
