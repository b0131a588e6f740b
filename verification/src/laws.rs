//! The library's laws: properties that relate several operations or all
//! inputs at once, stated over the same spec functions the operations'
//! own contracts use, and proved here once and for all.

use vstd::prelude::*;

use crate::controller::{
    frame_post, mid_store, regen_needed, tick_delta, FrameOutput, RegenerationController,
};
use crate::params::{GenerationParameters, MAX_ANGULAR_INCREMENT, MAX_SEED_COUNT};
use crate::store::{snapshot_of, ParameterStore};
use crate::synth::{element_at, synth_post, PlacedElement, QUARTER_TURN};

verus! {

/// The synthesizer is deterministic: two outputs for the same parameters
/// are equal element for element — the contract pins every field, so
/// identical parameters can only yield bit-identical sequences.
pub proof fn lemma_synthesizer_deterministic(
    p: GenerationParameters,
    a: Seq<PlacedElement>,
    b: Seq<PlacedElement>,
)
    requires
        synth_post(p, a),
        synth_post(p, b),
    ensures
        a == b,
{
    assert(a =~= b);
}

/// With a positive angular increment the elements leave the synthesizer in
/// strictly increasing-angle order.
pub proof fn lemma_angles_increasing(p: GenerationParameters, s: Seq<PlacedElement>)
    requires
        p.wf(),
        synth_post(p, s),
        p.angular_increment > 0,
    ensures
        forall|i: int, j: int|
            0 <= i < j < s.len() ==> s[i].angle_microturns < s[j].angle_microturns,
{
    assert forall|i: int, j: int|
        0 <= i < j < s.len() implies s[i].angle_microturns < s[j].angle_microturns by {
        assert(s[i] == element_at(p, i + 1));
        assert(s[j] == element_at(p, j + 1));
        assert(0 < p.angular_increment * (i + 1) < p.angular_increment * (j + 1)
            <= MAX_ANGULAR_INCREMENT * MAX_SEED_COUNT) by (nonlinear_arith)
            requires
                0 < p.angular_increment <= MAX_ANGULAR_INCREMENT,
                0 <= i < j < MAX_SEED_COUNT,
        ;
    }
}

/// Petal-mode elements all share the one fixed ring radius — the radial
/// spacing, independent of the index — and each petal's orientation is its
/// angle turned by a quarter turn.
pub proof fn lemma_petal_fixed_ring(p: GenerationParameters, s: Seq<PlacedElement>)
    requires
        p.wf(),
        p.pattern_mode is Petal,
        synth_post(p, s),
    ensures
        forall|k: int| 0 <= k < s.len() ==> s[k].radius_microunits == p.radial_spacing,
        forall|k: int|
            0 <= k < s.len() ==> s[k].rotation_microturns == s[k].angle_microturns
                + QUARTER_TURN,
{
    assert forall|k: int|
        0 <= k < s.len() implies s[k].radius_microunits == p.radial_spacing && s[
        k
    ].rotation_microturns == s[k].angle_microturns + QUARTER_TURN by {
        assert(s[k] == element_at(p, k + 1));
        assert(-MAX_ANGULAR_INCREMENT * MAX_SEED_COUNT <= p.angular_increment * (k + 1)
            <= MAX_ANGULAR_INCREMENT * MAX_SEED_COUNT) by (nonlinear_arith)
            requires
                -MAX_ANGULAR_INCREMENT <= p.angular_increment <= MAX_ANGULAR_INCREMENT,
                0 <= k < MAX_SEED_COUNT,
        ;
    }
}

/// A frame allocates a resource exactly where the reuse table says so: a
/// shape (or style) resource is created precisely when the frame
/// regenerates and the corresponding cached handle stood invalidated as
/// the decision was taken.
pub proof fn lemma_handle_allocation(
    pre: RegenerationController,
    elapsed_micros: int,
    post: RegenerationController,
    out: FrameOutput,
)
    requires
        frame_post(pre, elapsed_micros, post, out),
    ensures
        out.created_shape is Some <==> (out.regenerated && mid_store(
            pre.store,
            elapsed_micros,
        ).params.cached_shape_handle is None),
        out.created_style is Some <==> (out.regenerated && mid_store(
            pre.store,
            elapsed_micros,
        ).params.cached_style_handle is None),
{
}

/// Editing fields that touch neither shape nor style — spacing, increment,
/// count, growth law — reuses both cached resources: while no mode switch
/// is pending, the animation is off and both handles are present, a frame
/// allocates nothing and both handles survive unchanged.
pub proof fn lemma_placement_change_reuses_handles(
    pre: RegenerationController,
    elapsed_micros: int,
    post: RegenerationController,
    out: FrameOutput,
)
    requires
        frame_post(pre, elapsed_micros, post, out),
        pre.store.params.pattern_mode == pre.store.snapshot.pattern_mode,
        !pre.store.anim.enabled,
        pre.store.params.cached_shape_handle is Some,
        pre.store.params.cached_style_handle is Some,
    ensures
        out.created_shape is None,
        out.created_style is None,
        post.next_handle_id == pre.next_handle_id,
        post.store.params.cached_shape_handle == pre.store.params.cached_shape_handle,
        post.store.params.cached_style_handle == pre.store.params.cached_style_handle,
{
}

/// A color edit costs exactly one style resource and no shape resource:
/// with the style handle invalidated, the shape handle present, no mode
/// switch pending, the animation off and some tracked field changed, the
/// frame regenerates, creates one fresh style and reuses the shape.
pub proof fn lemma_color_change_allocates_style_only(
    pre: RegenerationController,
    elapsed_micros: int,
    post: RegenerationController,
    out: FrameOutput,
)
    requires
        frame_post(pre, elapsed_micros, post, out),
        pre.store.params.pattern_mode == pre.store.snapshot.pattern_mode,
        !pre.store.anim.enabled,
        pre.store.params.cached_shape_handle is Some,
        pre.store.params.cached_style_handle is None,
        snapshot_of(pre.store.params) != pre.store.snapshot,
    ensures
        out.regenerated,
        out.created_shape is None,
        out.created_style is Some,
        post.next_handle_id == pre.next_handle_id + 1,
        post.store.params.cached_shape_handle == pre.store.params.cached_shape_handle,
{
}

/// A mode switch resets every tracked parameter to the new mode's
/// documented defaults, stops a running animation, and rebuilds from
/// scratch: both resources are acquired anew.
pub proof fn lemma_mode_switch_resets(
    pre: RegenerationController,
    elapsed_micros: int,
    post: RegenerationController,
    out: FrameOutput,
)
    requires
        frame_post(pre, elapsed_micros, post, out),
        pre.store.params.pattern_mode != pre.store.snapshot.pattern_mode,
    ensures
        !post.store.anim.enabled,
        out.regenerated,
        snapshot_of(post.store.params) == snapshot_of(
            GenerationParameters::spec_defaults_for(pre.store.params.pattern_mode),
        ),
        out.created_shape is Some,
        out.created_style is Some,
{
}

/// The animation tick is exact: while animation runs in seed mode with no
/// mode switch pending, the angular increment after the frame is the one
/// before plus step size times elapsed time (in fixed point), and the
/// frame regenerates even though no user edit occurred.
pub proof fn lemma_animation_tick(
    pre: RegenerationController,
    elapsed_micros: int,
    post: RegenerationController,
    out: FrameOutput,
)
    requires
        frame_post(pre, elapsed_micros, post, out),
        pre.store.params.pattern_mode == pre.store.snapshot.pattern_mode,
        pre.store.anim.enabled,
        pre.store.params.pattern_mode is Seed,
        0 <= elapsed_micros,
        pre.store.params.angular_increment + tick_delta(
            pre.store.anim.step_size,
            elapsed_micros,
        ) <= MAX_ANGULAR_INCREMENT,
    ensures
        out.regenerated,
        post.store.params.angular_increment == pre.store.params.angular_increment + tick_delta(
            pre.store.anim.step_size,
            elapsed_micros,
        ),
{
    assert(0 <= tick_delta(pre.store.anim.step_size, elapsed_micros)) by (nonlinear_arith)
        requires
            0 <= elapsed_micros,
    ;
}

/// A store whose tracked values already match its snapshot, with the
/// animation off, triggers nothing: the regeneration decision stays
/// negative however much time passes. Together with
/// `apply_expression_value` on a failed evaluation — which leaves the
/// store bit-identical — this is why an unparseable expression neither
/// moves the angular increment nor causes a regeneration.
pub proof fn lemma_unchanged_store_stays_idle(s: ParameterStore, elapsed_micros: int)
    requires
        snapshot_of(s.params) == s.snapshot,
        !s.anim.enabled,
    ensures
        !regen_needed(mid_store(s, elapsed_micros)),
{
    assert(s.params.pattern_mode == s.snapshot.pattern_mode);
}

/// Generations never overlap: every element destroyed by a frame is
/// distinct from every element it spawns — the old set is fully retired
/// before the new one exists, so no element is ever double-drawn.
pub proof fn lemma_no_element_overlap(
    pre: RegenerationController,
    elapsed_micros: int,
    post: RegenerationController,
    out: FrameOutput,
)
    requires
        pre.wf(),
        frame_post(pre, elapsed_micros, post, out),
        pre.next_element_id + MAX_SEED_COUNT <= u64::MAX,
    ensures
        forall|i: int, j: int|
            0 <= i < out.destroyed@.len() && 0 <= j < out.spawned@.len()
                ==> out.destroyed@[i] != out.spawned@[j].element_id,
{
    assert forall|i: int, j: int|
        0 <= i < out.destroyed@.len() && 0 <= j < out.spawned@.len() implies out.destroyed@[i]
        != out.spawned@[j].element_id by {
        assert(out.destroyed@[i] == pre.live@[i]);
        assert(pre.live@[i] < pre.next_element_id);
        assert(out.spawned@[j].element_id == (pre.next_element_id + j) as u64);
    }
}

} // verus!
