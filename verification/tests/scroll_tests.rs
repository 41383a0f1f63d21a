use virtual_slider::input::MODIFIER_SHIFT;
use virtual_slider::{
    AutomationInfo, GestureState, Modifiers, Point, Vector, VirtualSliderConfig,
    VirtualSliderInner, WheelDeltaType, UNIT,
};

const HALF: u64 = UNIT / 2;

fn no_mods() -> Modifiers {
    Modifiers { bits: 0 }
}

fn shift() -> Modifiers {
    Modifiers { bits: MODIFIER_SHIFT }
}

fn plain_config(drag_scalar: u64) -> VirtualSliderConfig {
    let mut c = VirtualSliderConfig::default();
    c.drag_scalar = drag_scalar;
    c
}

fn scroller(initial: u64, config: VirtualSliderConfig) -> VirtualSliderInner {
    VirtualSliderInner::new(1, initial, 0, None, config, true, true)
}

#[test]
fn scroll_by_points_scales_with_the_drag_scalar() {
    let mut s = scroller(0, plain_config(1000));
    let u = s
        .handle_scroll_wheel(WheelDeltaType::Points(Vector { x: 0, y: 48 }), no_mods())
        .expect("a gesturing notification");
    assert_eq!(u.gesture_state, GestureState::Gesturing);
    assert_eq!(u.normal_value, 48_000);
}

#[test]
fn scroll_by_lines_multiplies_by_points_per_line() {
    let mut cfg = plain_config(1000);
    cfg.scroll_wheel_points_per_line = 24;
    let mut s = scroller(0, cfg);
    let u = s
        .handle_scroll_wheel(WheelDeltaType::Lines(Vector { x: 0, y: 2 }), no_mods())
        .expect("a gesturing notification");
    assert_eq!(u.normal_value, 2 * 24 * 1000);
}

#[test]
fn scroll_by_pages_is_always_ignored() {
    let mut s = scroller(0, plain_config(1000));
    for magnitude in [0i32, 1, -1, 500, i32::MAX, i32::MIN] {
        let delta = WheelDeltaType::Pages(Vector { x: magnitude, y: magnitude });
        assert!(s.handle_scroll_wheel(delta, no_mods()).is_none());
    }
    assert_eq!(s.normal_value(), 0);
}

#[test]
fn scroll_with_a_zero_axis_delta_reports_nothing() {
    let mut s = scroller(HALF, plain_config(1000));
    // vertical slider: a purely horizontal wheel delta has no effect
    let delta = WheelDeltaType::Points(Vector { x: 77, y: 0 });
    assert!(s.handle_scroll_wheel(delta, no_mods()).is_none());
    assert_eq!(s.normal_value(), HALF);
}

#[test]
fn scroll_can_be_disabled_by_configuration() {
    let mut cfg = plain_config(1000);
    cfg.use_scroll_wheel = false;
    let mut s = scroller(0, cfg);
    let delta = WheelDeltaType::Points(Vector { x: 0, y: 48 });
    assert!(s.handle_scroll_wheel(delta, no_mods()).is_none());
    assert_eq!(s.normal_value(), 0);
}

#[test]
fn scroll_applies_the_fine_adjustment_modifier() {
    let mut cfg = plain_config(1000);
    cfg.fine_adjustment_scalar = HALF;  // one half
    let mut s = scroller(0, cfg);
    let u = s
        .handle_scroll_wheel(WheelDeltaType::Points(Vector { x: 0, y: 100 }), shift())
        .expect("a gesturing notification");
    assert_eq!(u.normal_value, 50_000);
}

#[test]
fn scroll_downward_clamps_at_zero() {
    let mut s = scroller(0, plain_config(1000));
    let delta = WheelDeltaType::Points(Vector { x: 0, y: -10 });
    assert!(s.handle_scroll_wheel(delta, no_mods()).is_none());
    assert_eq!(s.normal_value(), 0);
}

#[test]
fn scroll_works_without_an_explicit_gesture() {
    let mut s = scroller(0, plain_config(1000));
    // no begin call: the wheel still adjusts the value
    let u = s
        .handle_scroll_wheel(WheelDeltaType::Points(Vector { x: 0, y: 10 }), no_mods())
        .expect("a gesturing notification");
    assert_eq!(u.normal_value, 10_000);
    // an explicit scroll gesture can be opened and closed around it
    let started = s.begin_scroll_wheel_gesture().expect("a start notification");
    assert_eq!(started.gesture_state, GestureState::GestureStarted);
    let done = s.finish_gesture().expect("a finish notification");
    assert_eq!(done.gesture_state, GestureState::GestureFinished);
}

#[test]
fn drag_is_a_no_op_during_a_scroll_gesture() {
    let mut s = scroller(0, plain_config(1000));
    s.begin_scroll_wheel_gesture().expect("a start notification");
    assert!(s.handle_drag(Point { x: 0, y: 50 }, Some(Point { x: 0, y: 50 }), no_mods()).is_none());
    assert_eq!(s.normal_value(), 0);
}

#[test]
fn automation_info_clamp_caps_each_field() {
    let mut info = AutomationInfo {
        current_normal: Some(UNIT + 123),
        range: Some((UNIT + 1, 7)),
    };
    info.clamp();
    assert_eq!(info.current_normal, Some(UNIT));
    assert_eq!(info.range, Some((UNIT, 7)));
}

#[test]
fn automation_info_clamp_leaves_absent_fields_alone() {
    let mut info = AutomationInfo::default();
    assert_eq!(info.current_normal, None);
    assert_eq!(info.range, None);
    info.clamp();
    assert_eq!(info.current_normal, None);
    assert_eq!(info.range, None);
}
