//! Cubic-Bézier solver tests.

use pi_curves::bezier::cubic_bezier;
use pi_curves::fixed::FX_ONE;

#[test]
pub fn test_cubc_bezier() {}

// A direct rational approximation of the same easing curve, used to print a
// side-by-side comparison (as the solver's original smoke run did).
fn simple_cubic_bezier(t: f32, x1: f32, y1: f32, x2: f32, y2: f32) -> f32 {
    let _ = x1;
    let t2 = t * t;
    let t3 = t2 * t;
    (y1 * (1.0 - x2) * t3 + (y2 - 2.0 * y1 + 2.0) * t2 + y1 * t)
        / ((1.0 - x2) * t3 + (3.0 * x2 - 2.0) * t2 + (2.0 - 3.0 * x2) * t + 1.0)
}

#[test]
fn test() {
    let x1 = 0.42f32;
    let y1 = 0.0f32;
    let x2 = 1.0f32;
    let y2 = 1.0f32;

    let fx1 = (x1 * FX_ONE as f32) as i64;
    let fy1 = (y1 * FX_ONE as f32) as i64;
    let fx2 = (x2 * FX_ONE as f32) as i64;
    let fy2 = (y2 * FX_ONE as f32) as i64;

    for i in 0..100 {
        let t = i as f32 / 100.;
        let ft = (t * FX_ONE as f32) as i64;
        let result = cubic_bezier(fx1, fy1, fx2, fy2, ft) as f32 / FX_ONE as f32;
        let result2 = simple_cubic_bezier(t, x1, y1, x2, y2);
        println!("{:?}", (result, result2));
    }
}

#[test]
fn endpoints_exact_for_any_control_points() {
    let params: [(i64, i64, i64, i64); 4] = [
        (0, 0, FX_ONE, FX_ONE),
        (27525, 0, FX_ONE, FX_ONE),
        (16384, -32768, 49152, 98304),
        (FX_ONE, FX_ONE, 0, 0),
    ];
    for (x1, y1, x2, y2) in params {
        assert_eq!(cubic_bezier(x1, y1, x2, y2, 0), 0);
        assert_eq!(cubic_bezier(x1, y1, x2, y2, FX_ONE), FX_ONE);
    }
}

#[test]
fn identity_control_points_reproduce_linear() {
    // Exact at the anchors of the Newton iteration...
    assert_eq!(cubic_bezier(0, 0, FX_ONE, FX_ONE, 0), 0);
    assert_eq!(cubic_bezier(0, 0, FX_ONE, FX_ONE, 32768), 32768);
    assert_eq!(cubic_bezier(0, 0, FX_ONE, FX_ONE, FX_ONE), FX_ONE);
    // ... and within a few fixed-point quanta everywhere else: five Newton
    // steps leave a small truncation residue.
    for i in 0..=64 {
        let t = i * 1024;
        let r = cubic_bezier(0, 0, FX_ONE, FX_ONE, t);
        assert!((r - t).abs() <= 8, "t={} r={}", t, r);
    }
}

#[test]
fn ease_in_out_is_monotone_and_bounded() {
    // cubic-bezier(0.42, 0, 0.58, 1): the classic ease-in-out shape.
    let (x1, y1, x2, y2) = (27525i64, 0i64, 38010i64, 65536i64);
    let mut prev = 0i64;
    for i in 0..=32 {
        let t = i * 2048;
        let r = cubic_bezier(x1, y1, x2, y2, t);
        assert!(r >= prev - 4, "not monotone at t={}", t);
        assert!((-16..=FX_ONE + 16).contains(&r));
        prev = r;
    }
}
