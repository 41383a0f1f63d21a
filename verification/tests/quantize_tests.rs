use virtual_slider::normal::clamp_normal;
use virtual_slider::{param_normal_to_quantized, param_quantized_to_normal, param_snap_normal, UNIT};

const HALF: u64 = UNIT / 2;

#[test]
fn clamp_passes_in_range_values_through() {
    assert_eq!(clamp_normal(0), 0);
    assert_eq!(clamp_normal(12345), 12345);
    assert_eq!(clamp_normal(UNIT), UNIT);
}

#[test]
fn clamp_caps_values_above_the_range() {
    assert_eq!(clamp_normal(UNIT + 1), UNIT);
    assert_eq!(clamp_normal(u64::MAX), UNIT);
}

#[test]
fn clamp_is_idempotent() {
    for v in [0u64, 1, HALF, UNIT, UNIT + 1, u64::MAX] {
        assert_eq!(clamp_normal(clamp_normal(v)), clamp_normal(v));
    }
}

#[test]
fn quantized_to_normal_endpoints() {
    assert_eq!(param_quantized_to_normal(0, 10), 0);
    assert_eq!(param_quantized_to_normal(10, 10), UNIT);
    assert_eq!(param_quantized_to_normal(11, 10), UNIT);
}

#[test]
fn quantized_to_normal_zero_steps_yields_zero() {
    assert_eq!(param_quantized_to_normal(0, 0), 0);
    assert_eq!(param_quantized_to_normal(7, 0), 0);
    assert_eq!(param_quantized_to_normal(u32::MAX, 0), 0);
}

#[test]
fn quantized_to_normal_interior_grid_points() {
    // step 1 of 4 is a quarter of the range
    assert_eq!(param_quantized_to_normal(1, 4), (UNIT + 2) / 4);
    // step 2 of 4 is exactly half of the range
    assert_eq!(param_quantized_to_normal(2, 4), HALF);
    // step 1 of 2 is exactly half of the range
    assert_eq!(param_quantized_to_normal(1, 2), HALF);
}

#[test]
fn normal_to_quantized_endpoints_for_positive_step_counts() {
    for n in [1u32, 2, 3, 4, 100, u32::MAX] {
        assert_eq!(param_normal_to_quantized(0, n), 0);
        assert_eq!(param_normal_to_quantized(UNIT, n), n);
    }
}

#[test]
fn normal_to_quantized_zero_steps_yields_zero() {
    assert_eq!(param_normal_to_quantized(0, 0), 0);
    assert_eq!(param_normal_to_quantized(HALF, 0), 0);
    assert_eq!(param_normal_to_quantized(UNIT, 0), 0);
}

#[test]
fn normal_to_quantized_values_above_the_range_saturate() {
    assert_eq!(param_normal_to_quantized(UNIT + 1, 5), 5);
    assert_eq!(param_normal_to_quantized(u64::MAX, 5), 5);
}

#[test]
fn normal_to_quantized_rounds_to_the_nearest_step() {
    // with one step, exactly half of the range rounds up to step 1
    assert_eq!(param_normal_to_quantized(HALF, 1), 1);
    // just below half rounds down to step 0
    assert_eq!(param_normal_to_quantized(HALF - 1, 1), 0);
    // 0.61 of the range with four steps rounds to step 2
    let v061 = 2_619_930_214u64;
    assert_eq!(param_normal_to_quantized(v061, 4), 2);
}

#[test]
fn quantize_round_trip_recovers_every_step() {
    for n in [1u32, 2, 5, 7, 24, 1000, u32::MAX] {
        for q in [0u32, 1, 2, 3] {
            if q <= n {
                let normal = param_quantized_to_normal(q, n);
                assert_eq!(param_normal_to_quantized(normal, n), q);
            }
        }
        let normal = param_quantized_to_normal(n, n);
        assert_eq!(param_normal_to_quantized(normal, n), n);
    }
}

#[test]
fn snap_is_idempotent() {
    for n in [0u32, 1, 2, 4, 7, 24, u32::MAX] {
        for v in [0u64, 1, HALF - 3, HALF, UNIT - 1, UNIT, UNIT + 99, 2_619_930_214] {
            let once = param_snap_normal(v, n);
            assert_eq!(param_snap_normal(once, n), once);
        }
    }
}

#[test]
fn snap_with_zero_steps_yields_zero() {
    assert_eq!(param_snap_normal(HALF, 0), 0);
    assert_eq!(param_snap_normal(UNIT, 0), 0);
}

#[test]
fn snap_moves_a_value_onto_the_grid() {
    // 0.61 of the range with four steps snaps to half of the range
    assert_eq!(param_snap_normal(2_619_930_214, 4), HALF);
}
