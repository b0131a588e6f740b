use flower_simulation::params::{
    FlowerMode, GenerationParameters, GrowthLaw, Rgb, INVERSE_GOLDEN_RATIO,
    MAX_ANGULAR_INCREMENT, MAX_PETAL_COUNT, MAX_PETAL_SPACING, MAX_SEED_COUNT, MAX_SEED_SPACING,
};
use flower_simulation::synth::{synthesize, PlacedElement, QUARTER_TURN};

fn seed_params(increment: i64, spacing: u64, count: u32, law: GrowthLaw) -> GenerationParameters {
    GenerationParameters {
        angular_increment: increment,
        radial_spacing: spacing,
        element_size: 4_000_000,
        element_count: count,
        radial_growth_law: law,
        color: Rgb { red: 1_000_000, green: 650_000, blue: 0 },
        pattern_mode: FlowerMode::Seed,
        cached_shape_handle: None,
        cached_style_handle: None,
    }
}

fn petal_params(increment: i64, spacing: u64, count: u32) -> GenerationParameters {
    GenerationParameters {
        angular_increment: increment,
        radial_spacing: spacing,
        element_size: 4_000_000,
        element_count: count,
        radial_growth_law: GrowthLaw::Linear,
        color: Rgb { red: 39_216, green: 647_059, blue: 54_902 },
        pattern_mode: FlowerMode::Petal,
        cached_shape_handle: None,
        cached_style_handle: None,
    }
}

#[test]
fn element_count_is_exact() {
    let out = synthesize(&seed_params(123_456, 2_000_000, 7, GrowthLaw::SquareRoot));
    assert_eq!(out.len(), 7);
    let out = synthesize(&petal_params(123_456, 2_000_000, 13));
    assert_eq!(out.len(), 13);
}

#[test]
fn zero_count_yields_empty_field() {
    let out = synthesize(&seed_params(250_000, 1_000_000, 0, GrowthLaw::SquareRoot));
    assert!(out.is_empty());
}

#[test]
fn synthesizer_is_deterministic() {
    let p = seed_params(INVERSE_GOLDEN_RATIO, 4_000_000, 500, GrowthLaw::SquareRoot);
    let a = synthesize(&p);
    let b = synthesize(&p);
    assert_eq!(a, b);
    let q = petal_params(INVERSE_GOLDEN_RATIO, 50_000_000, 24);
    assert_eq!(synthesize(&q), synthesize(&q));
}

#[test]
fn quarter_turn_seed_landmarks() {
    // A quarter turn per step, unit spacing, square-root growth, four
    // elements: angles 90, 180, 270 and 360 degrees, radii sqrt(1..=4).
    let out = synthesize(&seed_params(250_000, 1_000_000, 4, GrowthLaw::SquareRoot));
    let angles: Vec<i64> = out.iter().map(|e| e.angle_microturns).collect();
    assert_eq!(angles, vec![250_000, 500_000, 750_000, 1_000_000]);
    let radii: Vec<u64> = out.iter().map(|e| e.radius_microunits).collect();
    assert_eq!(radii, vec![1_000_000, 1_414_213, 1_732_050, 2_000_000]);
    // The fourth element lands at a whole turn (0 degrees) with radius 2.
    assert_eq!(out[3].angle_microturns % 1_000_000, 0);
    assert_eq!(out[3].radius_microunits, 2_000_000);
    // Seeds are rotation-invariant.
    assert!(out.iter().all(|e| e.rotation_microturns == 0));
}

#[test]
fn seed_radius_scales_with_spacing() {
    let out = synthesize(&seed_params(250_000, 2_500_000, 4, GrowthLaw::SquareRoot));
    let radii: Vec<u64> = out.iter().map(|e| e.radius_microunits).collect();
    // sqrt(i) in micro-units times 2.5, rounded down by the fixed-point
    // multiply.
    assert_eq!(radii, vec![2_500_000, 3_535_532, 4_330_125, 5_000_000]);
}

#[test]
fn linear_growth_spaces_elements_linearly() {
    let out = synthesize(&seed_params(100_000, 3_000_000, 5, GrowthLaw::Linear));
    let radii: Vec<u64> = out.iter().map(|e| e.radius_microunits).collect();
    assert_eq!(
        radii,
        vec![3_000_000, 6_000_000, 9_000_000, 12_000_000, 15_000_000]
    );
}

#[test]
fn angles_increase_with_positive_increment() {
    let out = synthesize(&seed_params(171_717, 1_000_000, 100, GrowthLaw::SquareRoot));
    for pair in out.windows(2) {
        assert!(pair[0].angle_microturns < pair[1].angle_microturns);
    }
}

#[test]
fn petals_share_one_fixed_radius() {
    let spacing = 50_000_000;
    let out = synthesize(&petal_params(125_000, spacing, 8));
    assert_eq!(out.len(), 8);
    for e in &out {
        assert_eq!(e.radius_microunits, spacing);
    }
}

#[test]
fn petal_rotation_is_angle_plus_quarter_turn() {
    let out = synthesize(&petal_params(125_000, 50_000_000, 8));
    for (k, e) in out.iter().enumerate() {
        let expected_angle = 125_000 * (k as i64 + 1);
        assert_eq!(e.angle_microturns, expected_angle);
        assert_eq!(e.rotation_microturns, expected_angle + QUARTER_TURN);
    }
    assert_eq!(QUARTER_TURN, 250_000);
}

#[test]
fn negative_increment_mirrors_angles() {
    let fwd = synthesize(&seed_params(125_000, 1_000_000, 6, GrowthLaw::SquareRoot));
    let bwd = synthesize(&seed_params(-125_000, 1_000_000, 6, GrowthLaw::SquareRoot));
    for (f, b) in fwd.iter().zip(bwd.iter()) {
        assert_eq!(f.angle_microturns, -b.angle_microturns);
        assert_eq!(f.radius_microunits, b.radius_microunits);
    }
}

#[test]
fn extreme_increment_and_count_stay_in_range() {
    let p = seed_params(
        MAX_ANGULAR_INCREMENT,
        MAX_SEED_SPACING,
        MAX_SEED_COUNT,
        GrowthLaw::Linear,
    );
    let out = synthesize(&p);
    assert_eq!(out.len(), MAX_SEED_COUNT as usize);
    assert_eq!(
        out.last().unwrap().angle_microturns,
        MAX_ANGULAR_INCREMENT * MAX_SEED_COUNT as i64
    );
    let q = petal_params(MAX_ANGULAR_INCREMENT, MAX_PETAL_SPACING, MAX_PETAL_COUNT);
    let out = synthesize(&q);
    assert_eq!(out.len(), MAX_PETAL_COUNT as usize);
}

#[test]
fn descriptor_equality_is_field_wise() {
    let a = PlacedElement {
        angle_microturns: 1,
        radius_microunits: 2,
        rotation_microturns: 3,
    };
    let b = PlacedElement {
        angle_microturns: 1,
        radius_microunits: 2,
        rotation_microturns: 3,
    };
    assert_eq!(a, b);
}
