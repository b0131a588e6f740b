//! The generation parameters: the authoritative description of one pattern
//! instance, together with the per-mode bounds and documented defaults.

use vstd::prelude::*;

verus! {

/// Largest magnitude the angular increment may take, in micro-turns
/// (one million turns). The synthesizer multiplies the increment by an
/// element index of at most `MAX_SEED_COUNT`, and this cap keeps that
/// product inside `i64`.
pub const MAX_ANGULAR_INCREMENT: i64 = 1_000_000_000_000;

/// Lowest value the angular increment may take; see `MAX_ANGULAR_INCREMENT`.
pub const MIN_ANGULAR_INCREMENT: i64 = -1_000_000_000_000;

/// Upper bound of the element-size slider, in micro-units (200 units).
pub const MAX_ELEMENT_SIZE: u64 = 200_000_000;

/// Upper bound of the animation step-size slider, in micro-turns per second
/// (0.1 turns per second).
pub const MAX_STEP_SIZE: u64 = 100_000;

/// Largest element count in seed mode.
pub const MAX_SEED_COUNT: u32 = 6000;

/// Largest element count in petal mode.
pub const MAX_PETAL_COUNT: u32 = 40;

/// Upper bound of the radial-spacing slider in seed mode, in micro-units
/// (30 units).
pub const MAX_SEED_SPACING: u64 = 30_000_000;

/// Upper bound of the radial-spacing slider in petal mode, in micro-units
/// (100 units).
pub const MAX_PETAL_SPACING: u64 = 100_000_000;

/// The reciprocal of the golden ratio, in micro-turns, rounded to the
/// nearest micro-turn. As an angular increment it gives the maximally even
/// spiral packing.
pub const INVERSE_GOLDEN_RATIO: i64 = 618_034;

/// An sRGB color; each channel ranges over `[0, 1]` in micro-units.
#[derive(Clone, Copy, Debug, PartialEq, Eq, Structural)]
pub struct Rgb {
    pub red: u32,
    pub green: u32,
    pub blue: u32,
}

impl Rgb {
    /// Every channel lies in `[0, 1]`, that is in `[0, SCALE]` micro-units.
    pub open spec fn wf(self) -> bool {
        self.red <= 1_000_000 && self.green <= 1_000_000 && self.blue <= 1_000_000
    }
}

/// How the radius of a seed-mode element grows with its index.
#[derive(Clone, Copy, Debug, PartialEq, Eq, Structural)]
pub enum GrowthLaw {
    /// The classic densely packed sunflower look: radius grows with the
    /// square root of the index.
    SquareRoot,
    /// Radius grows linearly with the index, spacing elements with
    /// increasing gaps.
    Linear,
}

/// Which synthesis rule and which default parameter set applies.
#[derive(Clone, Copy, Debug, PartialEq, Eq, Structural)]
pub enum FlowerMode {
    /// A densely packed disc field of rotation-invariant seeds.
    Seed,
    /// A sparse ring of oriented oblong petals at one fixed radius.
    Petal,
}

impl FlowerMode {
    /// Upper bound of the radial-spacing (density) slider for this mode,
    /// in micro-units.
    pub fn max_density(self) -> (m: u64)
        ensures
            m == self.spec_max_density(),
    {
        match self {
            FlowerMode::Seed => MAX_SEED_SPACING,
            FlowerMode::Petal => MAX_PETAL_SPACING,
        }
    }

    /// Largest element count this mode allows.
    pub fn max_amount(self) -> (m: u32)
        ensures
            m == self.spec_max_amount(),
    {
        match self {
            FlowerMode::Seed => MAX_SEED_COUNT,
            FlowerMode::Petal => MAX_PETAL_COUNT,
        }
    }

    pub open spec fn spec_max_density(self) -> u64 {
        match self {
            FlowerMode::Seed => MAX_SEED_SPACING,
            FlowerMode::Petal => MAX_PETAL_SPACING,
        }
    }

    pub open spec fn spec_max_amount(self) -> u32 {
        match self {
            FlowerMode::Seed => MAX_SEED_COUNT,
            FlowerMode::Petal => MAX_PETAL_COUNT,
        }
    }
}

/// The authoritative description of one pattern instance.
///
/// The two cached handles are opaque references to shared rendering
/// resources, owned by the current element generation; a handle is `None`
/// exactly while it stands invalidated and a regeneration must acquire a
/// fresh resource before materializing elements.
#[derive(Clone, Copy, Debug)]
pub struct GenerationParameters {
    /// Turns per index step, in micro-turns (not radians; the renderer
    /// multiplies by 2π).
    pub angular_increment: i64,
    /// Scales radius growth; micro-units, nonnegative by type.
    pub radial_spacing: u64,
    /// Visual scale of each element (disc radius / petal ellipse axes);
    /// micro-units.
    pub element_size: u64,
    /// How many elements to synthesize; bounded by the mode's maximum.
    pub element_count: u32,
    /// Radius rule for seed mode; meaningless in petal mode.
    pub radial_growth_law: GrowthLaw,
    /// Fill color of every element.
    pub color: Rgb,
    /// Selects the synthesis rule and the parameter bounds.
    pub pattern_mode: FlowerMode,
    /// Shared geometry resource of the current generation, `None` while
    /// invalidated by a size or mode change.
    pub cached_shape_handle: Option<u64>,
    /// Shared paint resource of the current generation, `None` while
    /// invalidated by a color change.
    pub cached_style_handle: Option<u64>,
}

impl GenerationParameters {
    /// The bounds the synthesizer and the controller rely on. They are the
    /// loosest slider bounds over both modes, not the current mode's: a mode
    /// switch leaves the old field values in place for the rest of the frame
    /// until the controller resets them to the new mode's defaults.
    pub open spec fn wf(self) -> bool {
        &&& -MAX_ANGULAR_INCREMENT <= self.angular_increment <= MAX_ANGULAR_INCREMENT
        &&& self.radial_spacing <= MAX_PETAL_SPACING
        &&& self.element_size <= MAX_ELEMENT_SIZE
        &&& self.element_count <= MAX_SEED_COUNT
        &&& self.color.wf()
    }

    /// The documented defaults of seed mode: no rotation per step, spacing
    /// and size of four units, fifty elements, orange fill, square-root
    /// growth, both handles invalidated.
    pub fn default_seed() -> (p: GenerationParameters)
        ensures
            p == Self::spec_default_seed(),
            p.wf(),
    {
        GenerationParameters {
            angular_increment: 0,
            radial_spacing: 4_000_000,
            element_size: 4_000_000,
            element_count: 50,
            radial_growth_law: GrowthLaw::SquareRoot,
            color: Rgb { red: 1_000_000, green: 650_000, blue: 0 },
            pattern_mode: FlowerMode::Seed,
            cached_shape_handle: None,
            cached_style_handle: None,
        }
    }

    /// The documented defaults of petal mode: one petal on a ring of fifty
    /// units, size four units, green fill, both handles invalidated.
    pub fn default_petal() -> (p: GenerationParameters)
        ensures
            p == Self::spec_default_petal(),
            p.wf(),
    {
        GenerationParameters {
            angular_increment: 0,
            radial_spacing: 50_000_000,
            element_size: 4_000_000,
            element_count: 1,
            radial_growth_law: GrowthLaw::Linear,
            color: Rgb { red: 39_216, green: 647_059, blue: 54_902 },
            pattern_mode: FlowerMode::Petal,
            cached_shape_handle: None,
            cached_style_handle: None,
        }
    }

    pub open spec fn spec_default_seed() -> GenerationParameters {
        GenerationParameters {
            angular_increment: 0,
            radial_spacing: 4_000_000,
            element_size: 4_000_000,
            element_count: 50,
            radial_growth_law: GrowthLaw::SquareRoot,
            color: Rgb { red: 1_000_000, green: 650_000, blue: 0 },
            pattern_mode: FlowerMode::Seed,
            cached_shape_handle: None,
            cached_style_handle: None,
        }
    }

    pub open spec fn spec_default_petal() -> GenerationParameters {
        GenerationParameters {
            angular_increment: 0,
            radial_spacing: 50_000_000,
            element_size: 4_000_000,
            element_count: 1,
            radial_growth_law: GrowthLaw::Linear,
            color: Rgb { red: 39_216, green: 647_059, blue: 54_902 },
            pattern_mode: FlowerMode::Petal,
            cached_shape_handle: None,
            cached_style_handle: None,
        }
    }

    /// The documented defaults of a mode.
    pub open spec fn spec_defaults_for(mode: FlowerMode) -> GenerationParameters {
        match mode {
            FlowerMode::Seed => Self::spec_default_seed(),
            FlowerMode::Petal => Self::spec_default_petal(),
        }
    }

    /// The documented defaults of `mode`.
    pub fn defaults_for(mode: FlowerMode) -> (p: GenerationParameters)
        ensures
            p == Self::spec_defaults_for(mode),
            p.wf(),
            p.pattern_mode == mode,
    {
        match mode {
            FlowerMode::Seed => Self::default_seed(),
            FlowerMode::Petal => Self::default_petal(),
        }
    }
}

/// The optional continuous drift of the angular increment.
#[derive(Clone, Copy, Debug)]
pub struct AnimationState {
    /// While set, every frame advances the angular increment and forces a
    /// regeneration.
    pub enabled: bool,
    /// Increment applied to the angular increment per second, in
    /// micro-turns; ranges over `[0, 0.1]` turns per second.
    pub step_size: u64,
}

impl AnimationState {
    pub open spec fn wf(self) -> bool {
        self.step_size <= MAX_STEP_SIZE
    }

    /// The default animation state: stopped, with a drift of one
    /// ten-thousandth of a turn per second.
    pub fn default_state() -> (a: AnimationState)
        ensures
            a == Self::spec_default_state(),
            a.wf(),
    {
        AnimationState { enabled: false, step_size: 100 }
    }

    pub open spec fn spec_default_state() -> AnimationState {
        AnimationState { enabled: false, step_size: 100 }
    }
}

} // verus!
