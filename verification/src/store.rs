//! The parameter store: the current generation parameters, the animation
//! state, and the previous frame's snapshot for change detection.
//!
//! The control panel mutates the store through the clamping setters; the
//! regeneration controller reads it and consumes the snapshot diff once per
//! frame. The snapshot tracks every numeric, enum and color field and
//! excludes the cached handles.

use vstd::prelude::*;

use crate::params::{
    AnimationState, FlowerMode, GenerationParameters, GrowthLaw, Rgb, MAX_ANGULAR_INCREMENT,
    MAX_ELEMENT_SIZE, MAX_STEP_SIZE, MIN_ANGULAR_INCREMENT,
};

verus! {

/// The tracked values of one frame: every field of `GenerationParameters`
/// that regeneration must react to, and nothing owned (no handles).
#[derive(Clone, Copy, Debug, PartialEq, Eq, Structural)]
pub struct Snapshot {
    pub angular_increment: i64,
    pub radial_spacing: u64,
    pub element_size: u64,
    pub element_count: u32,
    pub radial_growth_law: GrowthLaw,
    pub color: Rgb,
    pub pattern_mode: FlowerMode,
}

/// The tracked projection of a parameter set.
pub open spec fn snapshot_of(p: GenerationParameters) -> Snapshot {
    Snapshot {
        angular_increment: p.angular_increment,
        radial_spacing: p.radial_spacing,
        element_size: p.element_size,
        element_count: p.element_count,
        radial_growth_law: p.radial_growth_law,
        color: p.color,
        pattern_mode: p.pattern_mode,
    }
}

/// `v` forced into `[-MAX_ANGULAR_INCREMENT, MAX_ANGULAR_INCREMENT]`.
pub open spec fn clamp_increment(v: i64) -> i64 {
    if v < MIN_ANGULAR_INCREMENT {
        MIN_ANGULAR_INCREMENT
    } else if v > MAX_ANGULAR_INCREMENT {
        MAX_ANGULAR_INCREMENT
    } else {
        v
    }
}

/// `v` capped at `max`.
pub open spec fn clamp_at(v: u64, max: u64) -> u64 {
    if v > max {
        max
    } else {
        v
    }
}

/// Holds the parameters, the animation state and the change-detection
/// snapshot. A pure data holder: no operation here fails.
#[derive(Clone, Copy, Debug)]
pub struct ParameterStore {
    pub params: GenerationParameters,
    pub anim: AnimationState,
    pub snapshot: Snapshot,
}

impl ParameterStore {
    pub open spec fn wf(self) -> bool {
        self.params.wf() && self.anim.wf()
    }

    /// A fresh store for `mode`: the mode's documented defaults, animation
    /// stopped, and a snapshot already equal to the current values, so that
    /// nothing is reported changed before the panel first edits a field.
    pub fn new(mode: FlowerMode) -> (s: ParameterStore)
        ensures
            s.wf(),
            s.params == GenerationParameters::spec_defaults_for(mode),
            s.anim == AnimationState::spec_default_state(),
            s.snapshot == snapshot_of(s.params),
    {
        let params = GenerationParameters::defaults_for(mode);
        ParameterStore {
            params,
            anim: AnimationState::default_state(),
            snapshot: Snapshot {
                angular_increment: params.angular_increment,
                radial_spacing: params.radial_spacing,
                element_size: params.element_size,
                element_count: params.element_count,
                radial_growth_law: params.radial_growth_law,
                color: params.color,
                pattern_mode: params.pattern_mode,
            },
        }
    }

    /// The current parameter values.
    pub fn read(&self) -> (p: GenerationParameters)
        ensures
            p == self.params,
    {
        self.params
    }

    /// Compares the current values field-by-field against the stored
    /// snapshot, reports whether any tracked field differs, and atomically
    /// updates the snapshot to the current values. The controller calls
    /// this exactly once per regeneration-decision cycle.
    pub fn take_snapshot_diff(&mut self) -> (changed: bool)
        ensures
            changed == (snapshot_of(old(self).params) != old(self).snapshot),
            final(self).params == old(self).params,
            final(self).anim == old(self).anim,
            final(self).snapshot == snapshot_of(final(self).params),
    {
        let current = Snapshot {
            angular_increment: self.params.angular_increment,
            radial_spacing: self.params.radial_spacing,
            element_size: self.params.element_size,
            element_count: self.params.element_count,
            radial_growth_law: self.params.radial_growth_law,
            color: self.params.color,
            pattern_mode: self.params.pattern_mode,
        };
        let changed = current != self.snapshot;
        self.snapshot = current;
        changed
    }

    /// Sets the angular increment to `v`, forced into the representable
    /// range. No handle is invalidated: the increment changes neither the
    /// shape nor the style of an element.
    pub fn set_angular_increment(&mut self, v: i64)
        requires
            old(self).wf(),
        ensures
            final(self).wf(),
            final(self).params == (GenerationParameters {
                angular_increment: clamp_increment(v),
                ..old(self).params
            }),
            final(self).anim == old(self).anim,
            final(self).snapshot == old(self).snapshot,
    {
        let clamped: i64 = if v < MIN_ANGULAR_INCREMENT {
            MIN_ANGULAR_INCREMENT
        } else if v > MAX_ANGULAR_INCREMENT {
            MAX_ANGULAR_INCREMENT
        } else {
            v
        };
        self.params.angular_increment = clamped;
    }

    /// Applies the outcome of evaluating a user-typed arithmetic expression
    /// for the angular increment. Evaluation failure arrives as `None` and
    /// leaves the store untouched — the prior value stays, and no tracked
    /// field moves, so no regeneration is triggered by it.
    pub fn apply_expression_value(&mut self, v: Option<i64>)
        requires
            old(self).wf(),
        ensures
            final(self).wf(),
            v is None ==> *final(self) == *old(self),
            v matches Some(x) ==> final(self).params == (GenerationParameters {
                angular_increment: clamp_increment(x),
                ..old(self).params
            }),
            final(self).anim == old(self).anim,
            final(self).snapshot == old(self).snapshot,
    {
        match v {
            None => {},
            Some(x) => self.set_angular_increment(x),
        }
    }

    /// Sets the radial spacing, capped at the current mode's density bound.
    /// Spacing changes the placement only, so neither handle is touched.
    pub fn set_radial_spacing(&mut self, v: u64)
        requires
            old(self).wf(),
        ensures
            final(self).wf(),
            final(self).params == (GenerationParameters {
                radial_spacing: clamp_at(v, old(self).params.pattern_mode.spec_max_density()),
                ..old(self).params
            }),
            final(self).anim == old(self).anim,
            final(self).snapshot == old(self).snapshot,
    {
        let max = self.params.pattern_mode.max_density();
        self.params.radial_spacing = if v > max {
            max
        } else {
            v
        };
    }

    /// Sets the element size, capped at the slider bound. A size that
    /// actually differs invalidates the cached shape handle; the style
    /// handle is never touched.
    pub fn set_element_size(&mut self, v: u64)
        requires
            old(self).wf(),
        ensures
            final(self).wf(),
            final(self).params == (GenerationParameters {
                element_size: clamp_at(v, MAX_ELEMENT_SIZE),
                cached_shape_handle: if clamp_at(v, MAX_ELEMENT_SIZE)
                    == old(self).params.element_size {
                    old(self).params.cached_shape_handle
                } else {
                    None
                },
                ..old(self).params
            }),
            final(self).anim == old(self).anim,
            final(self).snapshot == old(self).snapshot,
    {
        let clamped: u64 = if v > MAX_ELEMENT_SIZE {
            MAX_ELEMENT_SIZE
        } else {
            v
        };
        if clamped != self.params.element_size {
            self.params.cached_shape_handle = None;
        }
        self.params.element_size = clamped;
    }

    /// Sets the element count, capped at the current mode's maximum.
    pub fn set_element_count(&mut self, v: u32)
        requires
            old(self).wf(),
        ensures
            final(self).wf(),
            final(self).params == (GenerationParameters {
                element_count: if v > old(self).params.pattern_mode.spec_max_amount() {
                    old(self).params.pattern_mode.spec_max_amount()
                } else {
                    v
                },
                ..old(self).params
            }),
            final(self).anim == old(self).anim,
            final(self).snapshot == old(self).snapshot,
    {
        let max = self.params.pattern_mode.max_amount();
        self.params.element_count = if v > max {
            max
        } else {
            v
        };
    }

    /// One step of the count-up button: adds one, capped at the current
    /// mode's maximum.
    pub fn increment_element_count(&mut self)
        requires
            old(self).wf(),
        ensures
            final(self).wf(),
            final(self).params == (GenerationParameters {
                element_count: if old(self).params.element_count + 1
                    > old(self).params.pattern_mode.spec_max_amount() {
                    old(self).params.pattern_mode.spec_max_amount()
                } else {
                    (old(self).params.element_count + 1) as u32
                },
                ..old(self).params
            }),
            final(self).anim == old(self).anim,
            final(self).snapshot == old(self).snapshot,
    {
        let max = self.params.pattern_mode.max_amount();
        if self.params.element_count < max {
            self.params.element_count = self.params.element_count + 1;
        } else {
            self.params.element_count = max;
        }
    }

    /// One step of the count-down button: subtracts one, but never below a
    /// single element.
    pub fn decrement_element_count(&mut self)
        requires
            old(self).wf(),
        ensures
            final(self).wf(),
            final(self).params == (GenerationParameters {
                element_count: if old(self).params.element_count <= 2 {
                    1
                } else {
                    (old(self).params.element_count - 1) as u32
                },
                ..old(self).params
            }),
            final(self).anim == old(self).anim,
            final(self).snapshot == old(self).snapshot,
    {
        if self.params.element_count <= 2 {
            self.params.element_count = 1;
        } else {
            self.params.element_count = self.params.element_count - 1;
        }
    }

    /// Selects the radial-growth law.
    pub fn set_growth_law(&mut self, law: GrowthLaw)
        requires
            old(self).wf(),
        ensures
            final(self).wf(),
            final(self).params == (GenerationParameters { radial_growth_law: law, ..old(self).params }),
            final(self).anim == old(self).anim,
            final(self).snapshot == old(self).snapshot,
    {
        self.params.radial_growth_law = law;
    }

    /// Sets the fill color, each channel capped at one. A color that
    /// actually differs invalidates the cached style handle; the shape
    /// handle is never touched.
    pub fn set_color(&mut self, c: Rgb)
        requires
            old(self).wf(),
        ensures
            final(self).wf(),
            final(self).params == (GenerationParameters {
                color: spec_clamp_color(c),
                cached_style_handle: if spec_clamp_color(c) == old(self).params.color {
                    old(self).params.cached_style_handle
                } else {
                    None
                },
                ..old(self).params
            }),
            final(self).anim == old(self).anim,
            final(self).snapshot == old(self).snapshot,
    {
        let clamped = Rgb {
            red: if c.red > 1_000_000 {
                1_000_000
            } else {
                c.red
            },
            green: if c.green > 1_000_000 {
                1_000_000
            } else {
                c.green
            },
            blue: if c.blue > 1_000_000 {
                1_000_000
            } else {
                c.blue
            },
        };
        if clamped != self.params.color {
            self.params.cached_style_handle = None;
        }
        self.params.color = clamped;
    }

    /// Selects the pattern mode. Nothing else moves here: the controller
    /// notices the switch against the snapshot on the next frame and resets
    /// every parameter to the new mode's defaults.
    pub fn set_pattern_mode(&mut self, mode: FlowerMode)
        requires
            old(self).wf(),
        ensures
            final(self).wf(),
            final(self).params == (GenerationParameters { pattern_mode: mode, ..old(self).params }),
            final(self).anim == old(self).anim,
            final(self).snapshot == old(self).snapshot,
    {
        self.params.pattern_mode = mode;
    }

    /// Starts or stops the animation.
    pub fn set_animate(&mut self, enabled: bool)
        requires
            old(self).wf(),
        ensures
            final(self).wf(),
            final(self).anim == (AnimationState { enabled, ..old(self).anim }),
            final(self).params == old(self).params,
            final(self).snapshot == old(self).snapshot,
    {
        self.anim.enabled = enabled;
    }

    /// Sets the animation step size, capped at the slider bound.
    pub fn set_step_size(&mut self, v: u64)
        requires
            old(self).wf(),
        ensures
            final(self).wf(),
            final(self).anim == (AnimationState {
                step_size: clamp_at(v, MAX_STEP_SIZE),
                ..old(self).anim
            }),
            final(self).params == old(self).params,
            final(self).snapshot == old(self).snapshot,
    {
        self.anim.step_size = if v > MAX_STEP_SIZE {
            MAX_STEP_SIZE
        } else {
            v
        };
    }
}

/// `c` with every channel capped at one.
pub open spec fn spec_clamp_color(c: Rgb) -> Rgb {
    Rgb {
        red: if c.red > 1_000_000 {
            1_000_000
        } else {
            c.red
        },
        green: if c.green > 1_000_000 {
            1_000_000
        } else {
            c.green
        },
        blue: if c.blue > 1_000_000 {
            1_000_000
        } else {
            c.blue
        },
    }
}

} // verus!
