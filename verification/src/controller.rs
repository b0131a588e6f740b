//! The regeneration controller: decides each frame whether the element set
//! must be rebuilt, manages the shared shape/style resource handles, and
//! materializes the synthesizer's output as a batch of rendering effects.
//!
//! The controller owns the pattern state outright. It allocates handle and
//! element *identities* (plain integers); the unverified renderer maps each
//! identity to its underlying resource and applies one `FrameOutput` per
//! frame, in order: destroy the retired elements, create the requested
//! resources, spawn the new elements.

use vstd::prelude::*;

use crate::params::{
    AnimationState, FlowerMode, GenerationParameters, Rgb, MAX_ANGULAR_INCREMENT, MAX_SEED_COUNT,
};
use crate::store::{snapshot_of, ParameterStore};
use crate::synth::{element_at, synthesize, PlacedElement};

verus! {

/// Longest frame the animation tick accepts, in micro-seconds. Far above
/// any real frame; keeps the drift product inside `u64`.
pub const MAX_FRAME_MICROS: u64 = 1_000_000_000_000;

/// Where the controller stands in its per-frame cycle. A full processing
/// step runs `Idle` to `PendingRegeneration` to `Regenerating` and back to
/// `Idle` within one frame; between frames the controller is always `Idle`.
#[derive(Clone, Copy, Debug, PartialEq, Eq, Structural)]
pub enum ControllerPhase {
    /// No regeneration owed.
    Idle,
    /// A regeneration was decided (or requested) and not yet performed.
    PendingRegeneration,
    /// The element set is being rebuilt; never observable between calls.
    Regenerating,
}

/// Geometry of the shared shape resource one generation uses.
#[derive(Clone, Copy, Debug, PartialEq, Eq, Structural)]
pub enum ShapeKind {
    /// A seed: a disc of the element-size radius.
    Disc { radius_microunits: u64 },
    /// A petal: an oblong ellipse scaled by the element size.
    Ellipse { half_width_microunits: u64, half_height_microunits: u64 },
}

/// A request to create one shared geometry resource under a fresh handle.
#[derive(Clone, Copy, Debug, PartialEq, Eq, Structural)]
pub struct ShapeResource {
    pub handle: u64,
    pub kind: ShapeKind,
}

/// A request to create one shared paint resource under a fresh handle.
#[derive(Clone, Copy, Debug, PartialEq, Eq, Structural)]
pub struct StyleResource {
    pub handle: u64,
    pub color: Rgb,
}

/// One materialized element: a fresh element identity, its placement, and
/// references (not ownership) to the generation's shared handles.
#[derive(Clone, Copy, Debug, PartialEq, Eq, Structural)]
pub struct SpawnedElement {
    pub element_id: u64,
    pub placed: PlacedElement,
    pub shape_handle: u64,
    pub style_handle: u64,
}

/// Everything one frame asks of the renderer, in application order:
/// destroy, then create resources, then spawn.
#[derive(Debug)]
pub struct FrameOutput {
    /// Whether this frame rebuilt the element set at all.
    pub regenerated: bool,
    /// The element identities of the retired generation, all destroyed
    /// before anything new appears.
    pub destroyed: Vec<u64>,
    /// The shape resource to create, if the cached handle stood invalidated.
    pub created_shape: Option<ShapeResource>,
    /// The style resource to create, if the cached handle stood invalidated.
    pub created_style: Option<StyleResource>,
    /// The new element set, in synthesis order.
    pub spawned: Vec<SpawnedElement>,
}

/// The geometry resource a parameter set calls for: seed mode draws discs
/// of the element size, petal mode an ellipse five by ten times the
/// element size.
pub open spec fn shape_kind_for(p: GenerationParameters) -> ShapeKind {
    match p.pattern_mode {
        FlowerMode::Seed => ShapeKind::Disc { radius_microunits: p.element_size },
        FlowerMode::Petal => ShapeKind::Ellipse {
            half_width_microunits: (5 * p.element_size) as u64,
            half_height_microunits: (10 * p.element_size) as u64,
        },
    }
}

/// The mode-switch step: when the mode set by the panel differs from the
/// snapshot's mode, every parameter resets to the new mode's documented
/// defaults (handles invalidated) and the animation stops.
pub open spec fn store_after_reset(s: ParameterStore) -> ParameterStore {
    if s.params.pattern_mode != s.snapshot.pattern_mode {
        ParameterStore {
            params: GenerationParameters::spec_defaults_for(s.params.pattern_mode),
            anim: AnimationState { enabled: false, ..s.anim },
            snapshot: s.snapshot,
        }
    } else {
        s
    }
}

/// Micro-turns the animation adds over `elapsed_micros` micro-seconds at
/// `step_size` micro-turns per second.
pub open spec fn tick_delta(step_size: u64, elapsed_micros: int) -> int {
    (step_size * elapsed_micros) / 1_000_000
}

/// The sum capped at the representable angular-increment maximum.
pub open spec fn capped_increment(v: int) -> i64 {
    if v > MAX_ANGULAR_INCREMENT {
        MAX_ANGULAR_INCREMENT
    } else {
        v as i64
    }
}

/// The animation step: while enabled, and only in seed mode, the angular
/// increment drifts by `step_size` times the elapsed time.
pub open spec fn store_after_tick(s: ParameterStore, elapsed_micros: int) -> ParameterStore {
    if s.anim.enabled && s.params.pattern_mode is Seed {
        ParameterStore {
            params: GenerationParameters {
                angular_increment: capped_increment(
                    s.params.angular_increment + tick_delta(s.anim.step_size, elapsed_micros),
                ),
                ..s.params
            },
            ..s
        }
    } else {
        s
    }
}

/// The store as the regeneration decision sees it: after the mode-switch
/// reset and the animation step, before the snapshot diff is consumed.
pub open spec fn mid_store(s: ParameterStore, elapsed_micros: int) -> ParameterStore {
    store_after_tick(store_after_reset(s), elapsed_micros)
}

/// Whether a frame regenerates: some tracked field differs from the
/// snapshot, or the animation is running (which forces a rebuild every
/// frame regardless of the diff).
pub open spec fn regen_needed(m: ParameterStore) -> bool {
    snapshot_of(m.params) != m.snapshot || m.anim.enabled
}

/// Orchestrates regeneration. Owns the parameter store, the identities of
/// the live element set, and the two identity counters.
pub struct RegenerationController {
    /// The parameters, animation state and change-detection snapshot; the
    /// panel writes here earlier in the frame, the controller reads later.
    pub store: ParameterStore,
    /// The element identities of the single live generation, in synthesis
    /// order. Fully retired before any successor is spawned.
    pub live: Vec<u64>,
    /// Next unused element identity; everything ever spawned lies below it.
    pub next_element_id: u64,
    /// Next unused resource-handle identity.
    pub next_handle_id: u64,
    /// Cycle position; `Idle` between frames.
    pub phase: ControllerPhase,
}

/// What the materialization step (`PendingRegeneration` through
/// `Regenerating` back to `Idle`) does, given the controller state `pre` in
/// which the regeneration was decided: retire the whole live set, acquire
/// whichever cached handle stands invalidated under a fresh identity (shape
/// first), and spawn one element per synthesized descriptor, referencing
/// the now guaranteed non-empty handles.
pub open spec fn regen_post(
    pre: RegenerationController,
    post: RegenerationController,
    out: FrameOutput,
) -> bool {
    let p = pre.store.params;
    let need_shape = p.cached_shape_handle is None;
    let need_style = p.cached_style_handle is None;
    let shape_handle = if need_shape {
        pre.next_handle_id as int
    } else {
        p.cached_shape_handle->0 as int
    };
    let style_handle = if need_style {
        pre.next_handle_id as int + if need_shape {
            1int
        } else {
            0int
        }
    } else {
        p.cached_style_handle->0 as int
    };
    &&& out.regenerated
    &&& out.destroyed@ == pre.live@
    &&& out.created_shape == (if need_shape {
        Some(ShapeResource { handle: shape_handle as u64, kind: shape_kind_for(p) })
    } else {
        None::<ShapeResource>
    })
    &&& out.created_style == (if need_style {
        Some(StyleResource { handle: style_handle as u64, color: p.color })
    } else {
        None::<StyleResource>
    })
    &&& out.spawned@.len() == p.element_count
    &&& (forall|k: int|
        0 <= k < out.spawned@.len() ==> out.spawned@[k] == (SpawnedElement {
            element_id: (pre.next_element_id + k) as u64,
            placed: element_at(p, k + 1),
            shape_handle: shape_handle as u64,
            style_handle: style_handle as u64,
        }))
    &&& post.store.params == (GenerationParameters {
        cached_shape_handle: Some(shape_handle as u64),
        cached_style_handle: Some(style_handle as u64),
        ..p
    })
    &&& post.store.anim == pre.store.anim
    &&& post.store.snapshot == pre.store.snapshot
    &&& post.live@.len() == p.element_count
    &&& (forall|k: int|
        0 <= k < post.live@.len() ==> post.live@[k] == (pre.next_element_id + k) as u64)
    &&& post.next_element_id == pre.next_element_id + p.element_count
    &&& post.next_handle_id == pre.next_handle_id + (if need_shape {
        1int
    } else {
        0int
    }) + (if need_style {
        1int
    } else {
        0int
    })
    &&& post.phase is Idle
}

/// What one whole frame does: the mode-switch reset, the animation step,
/// the snapshot diff, and — exactly when a tracked field changed or the
/// animation is running — the materialization step over the resulting
/// pending state. A frame that does not regenerate changes nothing but the
/// snapshot and produces an empty effect batch.
pub open spec fn frame_post(
    pre: RegenerationController,
    elapsed_micros: int,
    post: RegenerationController,
    out: FrameOutput,
) -> bool {
    let m = mid_store(pre.store, elapsed_micros);
    let regen = regen_needed(m);
    let pending = RegenerationController {
        store: ParameterStore { snapshot: snapshot_of(m.params), ..m },
        phase: ControllerPhase::PendingRegeneration,
        ..pre
    };
    &&& out.regenerated == regen
    &&& if regen {
        regen_post(pending, post, out)
    } else {
        &&& post == (RegenerationController {
            store: pending.store,
            phase: ControllerPhase::Idle,
            ..pre
        })
        &&& out.destroyed@.len() == 0
        &&& out.created_shape is None
        &&& out.created_style is None
        &&& out.spawned@.len() == 0
    }
}

impl RegenerationController {
    /// The store is well formed, every live identity lies below the element
    /// counter, and every cached handle below the handle counter — so fresh
    /// identities never collide with anything alive.
    pub open spec fn wf(self) -> bool {
        &&& self.store.wf()
        &&& forall|k: int| 0 <= k < self.live@.len() ==> self.live@[k] < self.next_element_id
        &&& self.store.params.cached_shape_handle matches Some(h) ==> h < self.next_handle_id
        &&& self.store.params.cached_style_handle matches Some(h) ==> h < self.next_handle_id
    }

    /// A fresh controller over `mode`'s defaults: nothing live, nothing
    /// allocated, idle. The first element set appears once a regeneration
    /// is requested or a parameter changes.
    pub fn new(mode: FlowerMode) -> (c: RegenerationController)
        ensures
            c.wf(),
            c.store.params == GenerationParameters::spec_defaults_for(mode),
            c.store.anim == AnimationState::spec_default_state(),
            c.store.snapshot == snapshot_of(c.store.params),
            c.live@.len() == 0,
            c.next_element_id == 0,
            c.next_handle_id == 0,
            c.phase is Idle,
    {
        RegenerationController {
            store: ParameterStore::new(mode),
            live: Vec::new(),
            next_element_id: 0,
            next_handle_id: 0,
            phase: ControllerPhase::Idle,
        }
    }

    /// Queues an unconditional regeneration, as the startup step does to
    /// materialize the initial pattern.
    pub fn request_regeneration(&mut self)
        requires
            old(self).wf(),
        ensures
            final(self).wf(),
            *final(self) == (RegenerationController {
                phase: ControllerPhase::PendingRegeneration,
                ..*old(self)
            }),
    {
        self.phase = ControllerPhase::PendingRegeneration;
    }

    /// The decision half of a frame: applies the mode-switch reset and the
    /// animation step, consumes the snapshot diff (updating the snapshot
    /// only after the result is taken), and moves to `PendingRegeneration`
    /// exactly when the frame must rebuild.
    pub fn prepare_frame(&mut self, elapsed_micros: u64) -> (regen: bool)
        requires
            old(self).wf(),
            elapsed_micros <= MAX_FRAME_MICROS,
        ensures
            final(self).wf(),
            regen == regen_needed(mid_store(old(self).store, elapsed_micros as int)),
            final(self).store == (ParameterStore {
                snapshot: snapshot_of(mid_store(old(self).store, elapsed_micros as int).params),
                ..mid_store(old(self).store, elapsed_micros as int)
            }),
            final(self).live == old(self).live,
            final(self).next_element_id == old(self).next_element_id,
            final(self).next_handle_id == old(self).next_handle_id,
            final(self).phase == (if regen {
                ControllerPhase::PendingRegeneration
            } else {
                ControllerPhase::Idle
            }),
    {
        if self.store.params.pattern_mode != self.store.snapshot.pattern_mode {
            let mode = self.store.params.pattern_mode;
            self.store.params = GenerationParameters::defaults_for(mode);
            self.store.anim.enabled = false;
        }
        if self.store.anim.enabled && self.store.params.pattern_mode == FlowerMode::Seed {
            let step = self.store.anim.step_size;
            assert(step * elapsed_micros <= 100_000 * 1_000_000_000_000) by (nonlinear_arith)
                requires
                    step <= 100_000,
                    elapsed_micros <= 1_000_000_000_000,
            ;
            let product: u64 = step * elapsed_micros;
            let delta: u64 = product / 1_000_000;
            let sum: i64 = self.store.params.angular_increment + (delta as i64);
            self.store.params.angular_increment = if sum > MAX_ANGULAR_INCREMENT {
                MAX_ANGULAR_INCREMENT
            } else {
                sum
            };
        }
        let changed = self.store.take_snapshot_diff();
        let regen = changed || self.store.anim.enabled;
        self.phase = if regen {
            ControllerPhase::PendingRegeneration
        } else {
            ControllerPhase::Idle
        };
        regen
    }

    /// The materialization half of a frame: retires the previous element
    /// set in full, acquires fresh resources for whichever cached handle is
    /// empty, synthesizes the new descriptors and spawns them — all within
    /// this one call, ending idle.
    pub fn regenerate(&mut self) -> (out: FrameOutput)
        requires
            old(self).wf(),
            old(self).phase is PendingRegeneration,
            old(self).next_element_id + MAX_SEED_COUNT <= u64::MAX,
            old(self).next_handle_id + 2 <= u64::MAX,
        ensures
            final(self).wf(),
            regen_post(*old(self), *final(self), out),
    {
        self.phase = ControllerPhase::Regenerating;
        let mut destroyed: Vec<u64> = Vec::new();
        core::mem::swap(&mut destroyed, &mut self.live);

        let shape_handle: u64;
        let created_shape: Option<ShapeResource>;
        if self.store.params.cached_shape_handle.is_none() {
            shape_handle = self.next_handle_id;
            self.next_handle_id = self.next_handle_id + 1;
            self.store.params.cached_shape_handle = Some(shape_handle);
            created_shape = Some(
                ShapeResource { handle: shape_handle, kind: shape_kind(&self.store.params) },
            );
        } else {
            shape_handle = self.store.params.cached_shape_handle.unwrap();
            created_shape = None;
        }

        let style_handle: u64;
        let created_style: Option<StyleResource>;
        if self.store.params.cached_style_handle.is_none() {
            style_handle = self.next_handle_id;
            self.next_handle_id = self.next_handle_id + 1;
            self.store.params.cached_style_handle = Some(style_handle);
            created_style = Some(
                StyleResource { handle: style_handle, color: self.store.params.color },
            );
        } else {
            style_handle = self.store.params.cached_style_handle.unwrap();
            created_style = None;
        }

        let elems = synthesize(&self.store.params);
        let ghost mid = *self;
        let ghost start_id = self.next_element_id;
        let mut spawned: Vec<SpawnedElement> = Vec::new();
        let mut new_live: Vec<u64> = Vec::new();
        let mut k: usize = 0;
        while k < elems.len()
            invariant
                k <= elems@.len(),
                elems@.len() <= MAX_SEED_COUNT,
                start_id + elems@.len() <= u64::MAX,
                self.store == mid.store,
                self.next_handle_id == mid.next_handle_id,
                self.live == mid.live,
                self.phase == mid.phase,
                self.next_element_id == start_id + k,
                spawned@.len() == k,
                new_live@.len() == k,
                forall|j: int|
                    0 <= j < k ==> spawned@[j] == (SpawnedElement {
                        element_id: (start_id + j) as u64,
                        placed: elems@[j],
                        shape_handle,
                        style_handle,
                    }),
                forall|j: int| 0 <= j < k ==> new_live@[j] == (start_id + j) as u64,
            decreases elems@.len() - k,
        {
            let id = self.next_element_id;
            self.next_element_id = self.next_element_id + 1;
            spawned.push(
                SpawnedElement {
                    element_id: id,
                    placed: elems[k],
                    shape_handle,
                    style_handle,
                },
            );
            new_live.push(id);
            k = k + 1;
        }
        self.live = new_live;
        self.phase = ControllerPhase::Idle;
        proof {
            assert forall|j: int| 0 <= j < elems@.len() implies #[trigger] element_at(
                self.store.params,
                j + 1,
            ) == element_at(old(self).store.params, j + 1) by {}
        }
        FrameOutput { regenerated: true, destroyed, created_shape, created_style, spawned }
    }

    /// One whole processing step, one per rendered frame: decide, then —
    /// when owed — rebuild. Starts and ends `Idle`.
    pub fn process_frame(&mut self, elapsed_micros: u64) -> (out: FrameOutput)
        requires
            old(self).wf(),
            elapsed_micros <= MAX_FRAME_MICROS,
            old(self).next_element_id + MAX_SEED_COUNT <= u64::MAX,
            old(self).next_handle_id + 2 <= u64::MAX,
        ensures
            final(self).wf(),
            frame_post(*old(self), elapsed_micros as int, *final(self), out),
            final(self).phase is Idle,
    {
        let regen = self.prepare_frame(elapsed_micros);
        if regen {
            self.regenerate()
        } else {
            FrameOutput {
                regenerated: false,
                destroyed: Vec::new(),
                created_shape: None,
                created_style: None,
                spawned: Vec::new(),
            }
        }
    }
}

/// Executable twin of `shape_kind_for`.
fn shape_kind(p: &GenerationParameters) -> (k: ShapeKind)
    requires
        p.wf(),
    ensures
        k == shape_kind_for(*p),
{
    match p.pattern_mode {
        FlowerMode::Seed => ShapeKind::Disc { radius_microunits: p.element_size },
        FlowerMode::Petal => ShapeKind::Ellipse {
            half_width_microunits: 5 * p.element_size,
            half_height_microunits: 10 * p.element_size,
        },
    }
}

} // verus!
