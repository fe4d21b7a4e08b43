//! Amount-calculator tests.

use pi_curves::amount::{AnimationAmountCalc, EAmountMode, EStepMode};
use pi_curves::easing::EEasingMode;
use pi_curves::easing::function::easing_call;
use pi_curves::bezier::cubic_bezier;
use pi_curves::fixed::FX_ONE;

#[test]
fn identity_calculator_returns_its_input() {
    let calc = AnimationAmountCalc::default();
    assert_eq!(calc.mode(), EAmountMode::Identity);
    for i in 0..=8 {
        let x = i * 8192;
        assert_eq!(calc.calc(x), x);
    }
}

#[test]
fn four_steps_quantize_at_quarter_boundaries() {
    // Floor-style boundaries at multiples of 0.25: 0.24 and 0.01 land in
    // the same bucket, 0.26 in the next.
    let calc = AnimationAmountCalc::from_steps(4, EStepMode::Floor);
    let t024 = (0.24 * FX_ONE as f64) as i64;
    let t001 = (0.01 * FX_ONE as f64) as i64;
    let t026 = (0.26 * FX_ONE as f64) as i64;
    assert_eq!(calc.calc(t024), 0);
    assert_eq!(calc.calc(t001), 0);
    assert_eq!(calc.calc(t024), calc.calc(t001));
    assert_eq!(calc.calc(t026), FX_ONE / 4);
    assert_eq!(calc.calc(0), 0);
    assert_eq!(calc.calc(FX_ONE), FX_ONE);
}

#[test]
fn ceil_and_round_styles_shift_the_boundary() {
    let ceil = AnimationAmountCalc::from_steps(4, EStepMode::Ceil);
    let round = AnimationAmountCalc::from_steps(4, EStepMode::Round);
    let t001 = (0.01 * FX_ONE as f64) as i64;
    let t024 = (0.24 * FX_ONE as f64) as i64;
    // Ceil jumps at the very start; round jumps halfway into the bucket.
    assert_eq!(ceil.calc(t001), FX_ONE / 4);
    assert_eq!(round.calc(t001), 0);
    assert_eq!(round.calc(t024), FX_ONE / 4);
    assert_eq!(ceil.calc(0), 0);
    assert_eq!(round.calc(FX_ONE), FX_ONE);
}

#[test]
fn single_step_degenerates_to_identity() {
    let calc = AnimationAmountCalc::from_steps(1, EStepMode::Floor);
    assert_eq!(calc.mode(), EAmountMode::Identity);
    assert_eq!(calc.calc(12345), 12345);
}

#[test]
fn easing_calculator_delegates_to_the_named_function() {
    let calc = AnimationAmountCalc::from_easing(EEasingMode::QuadIn);
    assert_eq!(calc.mode(), EAmountMode::Easing(EEasingMode::QuadIn));
    for i in 0..=8 {
        let x = i * 8192;
        assert_eq!(calc.calc(x), easing_call(x, &EEasingMode::QuadIn));
    }
}

#[test]
fn bezier_calculator_delegates_to_the_solver() {
    let calc = AnimationAmountCalc::from_cubic_bezier(27525, 0, 38010, FX_ONE);
    assert_eq!(calc.mode(), EAmountMode::CubicBezier);
    for i in 0..=8 {
        let x = i * 8192;
        assert_eq!(calc.calc(x), cubic_bezier(27525, 0, 38010, FX_ONE, x));
    }
}

#[test]
fn every_calculator_pins_the_endpoints() {
    let calcs = vec![
        AnimationAmountCalc::default(),
        AnimationAmountCalc::from_steps(7, EStepMode::Round),
        AnimationAmountCalc::from_easing(EEasingMode::BounceInOut),
        AnimationAmountCalc::from_cubic_bezier(0, -65536, FX_ONE, 2 * FX_ONE),
    ];
    for calc in calcs {
        assert_eq!(calc.calc(0), 0);
        assert_eq!(calc.calc(FX_ONE), FX_ONE);
    }
}
