//! Easing-library tests.

use pi_curves::easing::EEasingMode;
use pi_curves::easing::function::{easing_call, get_easing_call, back_in, back_out, bounce_in,
    bounce_out, circle_in, circle_out, cubic_in, expo_in, expo_out, elastic_in, elastic_out,
    linear_in, quad_in, quart_in, quint_in, sine_in, sine_out};
use pi_curves::fixed::FX_ONE;

fn all_modes() -> Vec<EEasingMode> {
    vec![
        EEasingMode::Linear,
        EEasingMode::BackIn,
        EEasingMode::BackOut,
        EEasingMode::BackInOut,
        EEasingMode::CircleIn,
        EEasingMode::CircleOut,
        EEasingMode::CircleInOut,
        EEasingMode::CubicIn,
        EEasingMode::CubicOut,
        EEasingMode::CubicInOut,
        EEasingMode::SineIn,
        EEasingMode::SineOut,
        EEasingMode::SineInOut,
        EEasingMode::QuadIn,
        EEasingMode::QuadOut,
        EEasingMode::QuadInOut,
        EEasingMode::QuartIn,
        EEasingMode::QuartOut,
        EEasingMode::QuartInOut,
        EEasingMode::QuintIn,
        EEasingMode::QuintOut,
        EEasingMode::QuintInOut,
        EEasingMode::ExpoIn,
        EEasingMode::ExpoOut,
        EEasingMode::ExpoInOut,
        EEasingMode::ElasticIn,
        EEasingMode::ElasticOut,
        EEasingMode::ElasticInOut,
        EEasingMode::BounceIn,
        EEasingMode::BounceOut,
        EEasingMode::BounceInOut,
    ]
}

#[test]
fn every_family_hits_both_endpoints_exactly() {
    for mode in all_modes() {
        assert_eq!(easing_call(0, &mode), 0, "{:?} at 0", mode);
        assert_eq!(easing_call(FX_ONE, &mode), FX_ONE, "{:?} at 1", mode);
    }
}

#[test]
fn polynomial_families_match_their_formulas() {
    let half = FX_ONE / 2;
    assert_eq!(linear_in(half), half);
    assert_eq!(quad_in(half), FX_ONE / 4);
    assert_eq!(cubic_in(half), FX_ONE / 8);
    assert_eq!(quart_in(half), FX_ONE / 16);
    assert_eq!(quint_in(half), FX_ONE / 32);
    assert_eq!(easing_call(half, &EEasingMode::QuadInOut), half);
    assert_eq!(easing_call(half, &EEasingMode::QuintInOut), half);
}

#[test]
fn sine_family_values() {
    // sin(pi/4) by the Bhaskara approximation: 46260 (about 0.7059).
    assert_eq!(sine_out(FX_ONE / 2), 46260);
    assert_eq!(sine_in(FX_ONE / 2), FX_ONE - 46260);
    // Within 0.2% of the exact sine.
    assert!((sine_out(FX_ONE / 2) - 46341).abs() < 131);
}

#[test]
fn circle_family_values() {
    // 1 - sqrt(3)/2 at the midpoint.
    assert_eq!(circle_in(FX_ONE / 2), 8781);
    assert_eq!(circle_out(0), 0);
    assert_eq!(circle_in(0), 0);
}

#[test]
fn expo_family_values() {
    // 2^(10 * 0.5 - 10) = 2^-5 is exact in fixed point.
    assert_eq!(expo_in(FX_ONE / 2), FX_ONE / 32);
    assert_eq!(expo_out(FX_ONE / 2), FX_ONE - FX_ONE / 32);
    assert_eq!(expo_in(0), 0);
    assert_eq!(expo_out(FX_ONE), FX_ONE);
}

#[test]
fn back_family_overshoots_inside() {
    // back_in dips below zero in the first half...
    assert!(back_in(FX_ONE / 4) < 0);
    // ... and back_out exceeds one in the second half.
    assert!(back_out(3 * FX_ONE / 4) > FX_ONE);
    assert_eq!(back_in(0), 0);
    assert_eq!(back_out(FX_ONE), FX_ONE);
}

#[test]
fn elastic_family_oscillates() {
    assert_eq!(elastic_in(0), 0);
    assert_eq!(elastic_in(FX_ONE), FX_ONE);
    assert_eq!(elastic_out(0), 0);
    assert_eq!(elastic_out(FX_ONE), FX_ONE);
    // Somewhere in the middle the spring leaves [0, 1].
    let mut outside = false;
    for i in 1..64 {
        let r = elastic_out(i * 1024);
        if r > FX_ONE {
            outside = true;
        }
    }
    assert!(outside);
}

#[test]
fn bounce_family_values() {
    assert_eq!(bounce_out(0), 0);
    assert_eq!(bounce_out(FX_ONE), FX_ONE);
    assert_eq!(bounce_in(0), 0);
    assert_eq!(bounce_in(FX_ONE), FX_ONE);
    // First arch: 7.5625 * x^2 at x = 0.2.
    let x = 13107i64;
    let expected = {
        let n1 = 495616i64;
        let a = (n1 * x) >> 16;
        (a * x) >> 16
    };
    assert_eq!(bounce_out(x), expected);
}

#[test]
fn resolved_easing_call_matches_direct_dispatch() {
    for mode in all_modes() {
        let call = get_easing_call(&mode);
        for i in 0..8 {
            let x = i * 8192;
            assert_eq!(call.call(x), easing_call(x, &mode));
        }
    }
}
