//! The gesture and value state machine behind a virtual slider.
//!
//! A [`VirtualSliderInner`] owns one parameter's committed normalized
//! value, its default, optional quantization, configuration and the
//! in-progress gesture, if any. Drag, scroll and reset commands go in;
//! an optional [`ParamUpdate`] notification comes out whenever observable
//! state actually changed.

use vstd::prelude::*;

use crate::config::VirtualSliderConfig;
use crate::input::{spec_point_axis, spec_vector_axis, Modifiers, Point, WheelDeltaType};
use crate::normal::{clamp_normal, clamp_unit, UNIT};
use crate::quantize::{
    lemma_quantized_to_normal_bounds, lemma_snap_normal_idempotent, param_normal_to_quantized,
    param_quantized_to_normal, param_snap_normal, spec_normal_to_quantized,
    spec_quantized_to_normal, spec_snap_normal,
};

verus! {

/// The phase of the gesture a notification belongs to.
#[derive(Debug, Clone, Copy, PartialEq, Eq, Structural)]
pub enum GestureState {
    /// The user has just started gesturing (dragging) this element.
    GestureStarted,
    /// The user is in the process of gesturing (dragging) this element.
    Gesturing,
    /// The user has just finished gesturing (dragging) this element.
    GestureFinished,
}

/// A value-change notification returned by every mutating operation that
/// changed observable state.
#[derive(Debug, Clone, Copy, PartialEq)]
pub struct ParamUpdate {
    /// The parameter ID.
    pub param_id: u32,
    /// The normalized value, scaled by [`UNIT`].
    pub normal_value: u64,
    /// The stepped value (if this parameter is stepped).
    pub stepped_value: Option<u32>,
    /// The current state of gesturing (dragging).
    pub gesture_state: GestureState,
}

/// The quantization state of a stepped parameter.
#[derive(Debug, Clone, Copy, PartialEq, Eq, Structural)]
pub struct SteppedParamState {
    /// The current step index, at most `num_steps`.
    pub value: u32,
    /// The number of steps in the parameter's grid.
    pub num_steps: u32,
}

/// The in-progress gesture, if any, with the state captured at its start.
#[derive(Debug, Clone, Copy, PartialEq, Eq, Structural)]
pub enum BeginGestureType {
    /// A pointer-drag gesture.
    Dragging {
        /// The pointer position captured when the gesture began, or at the
        /// last re-base in delta or fine-adjustment mode.
        pointer_start_pos: Point,
        /// The normalized value captured alongside `pointer_start_pos`.
        start_normal: u64,
    },
    /// A scroll-wheel gesture.
    ScrollWheel,
}

/// The mathematical state of a slider: what [`VirtualSliderInner`] holds,
/// as plain values.
pub struct SliderView {
    pub param_id: u32,
    pub config: VirtualSliderConfig,
    pub drag_vertically: bool,
    pub scroll_vertically: bool,
    pub normal_value: u64,
    pub default_normal: u64,
    pub continuous_gesture_normal: u64,
    pub stepped_state: Option<SteppedParamState>,
    pub current_gesture: Option<BeginGestureType>,
}

impl SliderView {
    /// The stepped value exposed to hosts, if the parameter is stepped.
    pub open spec fn stepped_value(self) -> Option<u32> {
        match self.stepped_state {
            Some(s) => Some(s.value),
            None => None,
        }
    }

    /// The step count, if the parameter is stepped.
    pub open spec fn num_quantized_steps(self) -> Option<u32> {
        match self.stepped_state {
            Some(s) => Some(s.num_steps),
            None => None,
        }
    }

    /// The notification this state produces for a given gesture phase.
    pub open spec fn notification(self, phase: GestureState) -> ParamUpdate {
        ParamUpdate {
            param_id: self.param_id,
            normal_value: self.normal_value,
            stepped_value: self.stepped_value(),
            gesture_state: phase,
        }
    }

    /// Well-formedness: every stored value is in range, the committed
    /// value of a stepped parameter is exactly the grid point of its step
    /// index, and the default lies on the grid.
    pub open spec fn inv(self) -> bool {
        &&& self.config.valid()
        &&& self.normal_value <= UNIT
        &&& self.default_normal <= UNIT
        &&& self.continuous_gesture_normal <= UNIT
        &&& (self.stepped_state matches Some(s) ==> {
            &&& s.value <= s.num_steps
            &&& self.normal_value == spec_quantized_to_normal(s.value as int, s.num_steps as int)
            &&& self.default_normal == spec_snap_normal(
                self.default_normal as int,
                s.num_steps as int,
            )
        })
        &&& (self.current_gesture matches Some(BeginGestureType::Dragging { start_normal, .. })
            ==> start_normal <= UNIT)
    }
}

/// Whether the fine-adjustment modifier is configured and currently held.
pub open spec fn spec_fine_adjustment_active(config: VirtualSliderConfig, modifiers: Modifiers) -> bool {
    match config.fine_adjustment_modifier {
        Some(m) => modifiers == m,
        None => false,
    }
}

/// Integer division rounding toward zero, matching machine division of a
/// possibly negative scaled delta by a positive divisor.
pub open spec fn spec_div_toward_zero(a: int, b: int) -> int {
    if a >= 0 {
        a / b
    } else {
        -((-a) / b)
    }
}

/// A pointer or scroll delta in points, scaled into fixed-point normalized
/// units, with the fine-adjustment factor applied when active.
pub open spec fn spec_scaled_delta(points: int, scalar: int, fine: bool, fine_scalar: int) -> int {
    let base = points * scalar;
    if fine {
        spec_div_toward_zero(base * fine_scalar, UNIT as int)
    } else {
        base
    }
}

/// Begin a drag gesture: a no-op if any gesture is active, otherwise the
/// start state is captured, the continuous position is reset to the
/// committed value, and a start notification is produced.
pub open spec fn spec_begin_drag_gesture(s: SliderView, pointer_start_pos: Point) -> (SliderView, Option<
    ParamUpdate,
>) {
    if s.current_gesture is Some {
        (s, None)
    } else {
        let s1 = SliderView {
            current_gesture: Some(
                BeginGestureType::Dragging { pointer_start_pos, start_normal: s.normal_value },
            ),
            continuous_gesture_normal: s.normal_value,
            ..s
        };
        (s1, Some(s1.notification(GestureState::GestureStarted)))
    }
}

/// Begin a scroll-wheel gesture: symmetric to the drag variant and
/// mutually exclusive with it.
pub open spec fn spec_begin_scroll_wheel_gesture(s: SliderView) -> (SliderView, Option<ParamUpdate>) {
    if s.current_gesture is Some {
        (s, None)
    } else {
        let s1 = SliderView {
            current_gesture: Some(BeginGestureType::ScrollWheel),
            continuous_gesture_normal: s.normal_value,
            ..s
        };
        (s1, Some(s1.notification(GestureState::GestureStarted)))
    }
}

/// Finish any active gesture: clears it and notifies unconditionally when
/// one was active; a no-op otherwise.
pub open spec fn spec_finish_gesture(s: SliderView) -> (SliderView, Option<ParamUpdate>) {
    if s.current_gesture is Some {
        let s1 = SliderView { current_gesture: None, ..s };
        (s1, Some(s1.notification(GestureState::GestureFinished)))
    } else {
        (s, None)
    }
}

/// Commit a candidate continuous position: clamp it, and if it moved the
/// continuous position, recompute the committed value (snapped through
/// quantization if stepped). A notification is produced only when the
/// committed value itself changed.
pub open spec fn spec_commit_gesture_normal(s: SliderView, candidate: int) -> (SliderView, Option<
    ParamUpdate,
>) {
    let c = clamp_unit(candidate) as u64;
    if c == s.continuous_gesture_normal {
        (s, None)
    } else {
        match s.stepped_state {
            Some(st) => {
                let v = spec_normal_to_quantized(c as int, st.num_steps as int) as u32;
                let s1 = SliderView {
                    continuous_gesture_normal: c,
                    stepped_state: Some(SteppedParamState { value: v, num_steps: st.num_steps }),
                    normal_value: spec_quantized_to_normal(v as int, st.num_steps as int) as u64,
                    ..s
                };
                if v != st.value {
                    (s1, Some(s1.notification(GestureState::Gesturing)))
                } else {
                    (s1, None)
                }
            },
            None => {
                let s1 = SliderView { continuous_gesture_normal: c, normal_value: c, ..s };
                if c != s.normal_value {
                    (s1, Some(s1.notification(GestureState::Gesturing)))
                } else {
                    (s1, None)
                }
            },
        }
    }
}

/// Handle a drag sample: a no-op unless a drag gesture is active.
/// Otherwise one of three mutually exclusive modes computes the candidate
/// continuous position, chosen in priority order: pointer-delta
/// (locked-cursor) mode, fine-adjustment absolute mode, and plain absolute
/// mode. The first two re-base the captured start position and value; the
/// last stays anchored to the original press point.
pub open spec fn spec_handle_drag(
    s: SliderView,
    pointer_pos: Point,
    pointer_delta: Option<Point>,
    modifiers: Modifiers,
) -> (SliderView, Option<ParamUpdate>) {
    match s.current_gesture {
        Some(BeginGestureType::Dragging { pointer_start_pos, start_normal }) => {
            let fine = spec_fine_adjustment_active(s.config, modifiers);
            let use_delta = !s.config.disable_pointer_locking && pointer_delta is Some;
            let drag = s.config.drag_scalar as int;
            let fine_scalar = s.config.fine_adjustment_scalar as int;
            let offset = spec_point_axis(pointer_pos, s.drag_vertically) - spec_point_axis(
                pointer_start_pos,
                s.drag_vertically,
            );
            let candidate = if use_delta {
                let d = spec_point_axis(pointer_delta->0, s.drag_vertically);
                s.continuous_gesture_normal + spec_scaled_delta(d, drag, fine, fine_scalar)
            } else if fine {
                s.continuous_gesture_normal + spec_scaled_delta(offset, drag, true, fine_scalar)
            } else {
                start_normal + spec_scaled_delta(offset, drag, false, fine_scalar)
            };
            let s1 = if use_delta || fine {
                SliderView {
                    current_gesture: Some(
                        BeginGestureType::Dragging {
                            pointer_start_pos: pointer_pos,
                            start_normal: s.continuous_gesture_normal,
                        },
                    ),
                    ..s
                }
            } else {
                s
            };
            spec_commit_gesture_normal(s1, candidate)
        },
        _ => (s, None),
    }
}

/// The drag-axis component of a wheel delta, in points: point deltas pass
/// through, line deltas are multiplied by the configured points per line,
/// and page deltas are ignored entirely.
pub open spec fn spec_wheel_axis_points(
    delta_type: WheelDeltaType,
    points_per_line: u16,
    vertical: bool,
) -> int {
    match delta_type {
        WheelDeltaType::Points(v) => spec_vector_axis(v, vertical),
        WheelDeltaType::Lines(v) => spec_vector_axis(v, vertical) * points_per_line,
        WheelDeltaType::Pages(_) => 0,
    }
}

/// Handle a scroll-wheel sample: a no-op when scroll input is disabled or
/// the drag-axis delta is zero (page deltas always are). Otherwise the
/// delta is scaled exactly as a drag delta would be — with the drag
/// scalar — and committed against the continuous position.
pub open spec fn spec_handle_scroll_wheel(
    s: SliderView,
    delta_type: WheelDeltaType,
    modifiers: Modifiers,
) -> (SliderView, Option<ParamUpdate>) {
    if !s.config.use_scroll_wheel {
        (s, None)
    } else {
        let d = spec_wheel_axis_points(
            delta_type,
            s.config.scroll_wheel_points_per_line,
            s.drag_vertically,
        );
        if d == 0 {
            (s, None)
        } else {
            let fine = spec_fine_adjustment_active(s.config, modifiers);
            let candidate = s.continuous_gesture_normal + spec_scaled_delta(
                d,
                s.config.drag_scalar as int,
                fine,
                s.config.fine_adjustment_scalar as int,
            );
            spec_commit_gesture_normal(s, candidate)
        }
    }
}

/// Reset to the default value: cancels any active gesture and commits the
/// (already snapped) default. Notifies when a gesture was cancelled or the
/// value actually changed.
pub open spec fn spec_reset_to_default(s: SliderView) -> (SliderView, Option<ParamUpdate>) {
    if s.current_gesture is Some || s.normal_value != s.default_normal {
        let s1 = SliderView {
            normal_value: s.default_normal,
            stepped_state: match s.stepped_state {
                Some(st) => Some(
                    SteppedParamState {
                        value: spec_normal_to_quantized(
                            s.default_normal as int,
                            st.num_steps as int,
                        ) as u32,
                        num_steps: st.num_steps,
                    },
                ),
                None => None,
            },
            current_gesture: None,
            ..s
        };
        (s1, Some(s1.notification(GestureState::GestureFinished)))
    } else {
        (s, None)
    }
}

/// Set the value from outside: always cancels any active gesture, snaps
/// the value if stepped, and resets the continuous position to match.
/// Notifies when the value changed or a gesture was cancelled.
pub open spec fn spec_set_normal_value(s: SliderView, new_normal: u64) -> (SliderView, Option<
    ParamUpdate,
>) {
    let snapped = match s.stepped_state {
        Some(st) => spec_snap_normal(new_normal as int, st.num_steps as int) as u64,
        None => clamp_unit(new_normal as int) as u64,
    };
    let changed = s.current_gesture is Some || s.normal_value != snapped;
    let s1 = SliderView {
        normal_value: snapped,
        continuous_gesture_normal: snapped,
        stepped_state: match s.stepped_state {
            Some(st) => Some(
                SteppedParamState {
                    value: spec_normal_to_quantized(new_normal as int, st.num_steps as int) as u32,
                    num_steps: st.num_steps,
                },
            ),
            None => None,
        },
        current_gesture: None,
        ..s
    };
    if changed {
        (s1, Some(s1.notification(GestureState::GestureFinished)))
    } else {
        (s1, None)
    }
}

/// Set the default value: snapped to the grid if stepped, clamped
/// otherwise. Touches neither the current value nor the gesture.
pub open spec fn spec_set_default_normal(s: SliderView, new_normal: u64) -> (SliderView, bool) {
    let snapped = match s.stepped_state {
        Some(st) => spec_snap_normal(new_normal as int, st.num_steps as int) as u64,
        None => clamp_unit(new_normal as int) as u64,
    };
    (SliderView { default_normal: snapped, ..s }, snapped != s.default_normal)
}

/// The state a freshly constructed slider holds: values snapped to the
/// grid when a step count is supplied, clamped otherwise, and no gesture.
pub open spec fn spec_new_slider(
    param_id: u32,
    normal_value: u64,
    default_normal: u64,
    num_quantized_steps: Option<u32>,
    config: VirtualSliderConfig,
    drag_vertically: bool,
    scroll_vertically: bool,
) -> SliderView {
    match num_quantized_steps {
        Some(n) => {
            let sv = spec_normal_to_quantized(normal_value as int, n as int) as u32;
            let nv = spec_quantized_to_normal(sv as int, n as int) as u64;
            SliderView {
                param_id,
                config,
                drag_vertically,
                scroll_vertically,
                normal_value: nv,
                default_normal: spec_snap_normal(default_normal as int, n as int) as u64,
                continuous_gesture_normal: nv,
                stepped_state: Some(SteppedParamState { value: sv, num_steps: n }),
                current_gesture: None,
            }
        },
        None => {
            let nv = clamp_unit(normal_value as int) as u64;
            SliderView {
                param_id,
                config,
                drag_vertically,
                scroll_vertically,
                normal_value: nv,
                default_normal: clamp_unit(default_normal as int) as u64,
                continuous_gesture_normal: nv,
                stepped_state: None,
                current_gesture: None,
            }
        },
    }
}

/// Resetting to the default twice in a row: whatever the first reset did,
/// the second one finds the value already at the default and no active
/// gesture, changes nothing and returns no notification.
pub proof fn lemma_reset_to_default_twice(s: SliderView)
    ensures
        spec_reset_to_default(spec_reset_to_default(s).0).0 == spec_reset_to_default(s).0,
        spec_reset_to_default(spec_reset_to_default(s).0).1 is None,
{
}

/// A reusable virtual slider state machine for elements like knobs and
/// sliders.
pub struct VirtualSliderInner {
    pub param_id: u32,
    pub config: VirtualSliderConfig,
    pub drag_vertically: bool,
    pub scroll_vertically: bool,
    normal_value: u64,
    default_normal: u64,
    continuous_gesture_normal: u64,
    stepped_state: Option<SteppedParamState>,
    current_gesture: Option<BeginGestureType>,
}

impl View for VirtualSliderInner {
    type V = SliderView;

    closed spec fn view(&self) -> SliderView {
        SliderView {
            param_id: self.param_id,
            config: self.config,
            drag_vertically: self.drag_vertically,
            scroll_vertically: self.scroll_vertically,
            normal_value: self.normal_value,
            default_normal: self.default_normal,
            continuous_gesture_normal: self.continuous_gesture_normal,
            stepped_state: self.stepped_state,
            current_gesture: self.current_gesture,
        }
    }
}

impl VirtualSliderInner {
    /// The slider's state is well-formed.
    pub open spec fn wf(&self) -> bool {
        self@.inv()
    }

    /// Constructs a slider. A supplied step count snaps the initial and
    /// default values to the grid; otherwise both are clamped.
    pub fn new(
        param_id: u32,
        normal_value: u64,
        default_normal: u64,
        num_quantized_steps: Option<u32>,
        config: VirtualSliderConfig,
        drag_vertically: bool,
        scroll_vertically: bool,
    ) -> (r: Self)
        requires
            config.valid(),
        ensures
            r.wf(),
            r@ == spec_new_slider(
                param_id,
                normal_value,
                default_normal,
                num_quantized_steps,
                config,
                drag_vertically,
                scroll_vertically,
            ),
    {
        let (nv, dv, stepped_state): (u64, u64, Option<SteppedParamState>) = match num_quantized_steps {
            Some(n) => {
                let sv = param_normal_to_quantized(normal_value, n);
                proof {
                    lemma_snap_normal_idempotent(default_normal as int, n as int);
                    lemma_quantized_to_normal_bounds(sv as int, n as int);
                }
                (
                    param_quantized_to_normal(sv, n),
                    param_snap_normal(default_normal, n),
                    Some(SteppedParamState { value: sv, num_steps: n }),
                )
            },
            None => (clamp_normal(normal_value), clamp_normal(default_normal), None),
        };
        VirtualSliderInner {
            param_id,
            config,
            drag_vertically,
            scroll_vertically,
            normal_value: nv,
            default_normal: dv,
            continuous_gesture_normal: nv,
            stepped_state,
            current_gesture: None,
        }
    }

    /// The stepped value, if this parameter is stepped.
    pub fn stepped_value(&self) -> (r: Option<u32>)
        ensures
            r == self@.stepped_value(),
    {
        match &self.stepped_state {
            Some(s) => Some(s.value),
            None => None,
        }
    }

    /// The step count, if this parameter is stepped.
    pub fn num_quantized_steps(&self) -> (r: Option<u32>)
        ensures
            r == self@.num_quantized_steps(),
    {
        match &self.stepped_state {
            Some(s) => Some(s.num_steps),
            None => None,
        }
    }

    /// The committed normalized value.
    pub fn normal_value(&self) -> (r: u64)
        ensures
            r == self@.normal_value,
    {
        self.normal_value
    }

    /// The default normalized value.
    pub fn default_normal(&self) -> (r: u64)
        ensures
            r == self@.default_normal,
    {
        self.default_normal
    }

    /// Builds the notification for the current state and a gesture phase.
    fn make_notification(&self, phase: GestureState) -> (r: ParamUpdate)
        ensures
            r == self@.notification(phase),
    {
        ParamUpdate {
            param_id: self.param_id,
            normal_value: self.normal_value,
            stepped_value: self.stepped_value(),
            gesture_state: phase,
        }
    }

    /// Opens a drag gesture. A no-op returning `None` while any gesture is
    /// already active: a second begin can neither orphan nor overwrite an
    /// in-progress gesture.
    pub fn begin_drag_gesture(&mut self, pointer_start_pos: Point) -> (r: Option<ParamUpdate>)
        requires
            old(self).wf(),
        ensures
            final(self).wf(),
            final(self)@ == spec_begin_drag_gesture(old(self)@, pointer_start_pos).0,
            r == spec_begin_drag_gesture(old(self)@, pointer_start_pos).1,
            old(self)@.current_gesture is Some ==> r is None && *final(self) == *old(self),
    {
        if self.current_gesture.is_some() {
            None
        } else {
            self.current_gesture = Some(
                BeginGestureType::Dragging { pointer_start_pos, start_normal: self.normal_value },
            );
            self.continuous_gesture_normal = self.normal_value;
            Some(self.make_notification(GestureState::GestureStarted))
        }
    }

    /// Opens a scroll-wheel gesture; mutually exclusive with dragging.
    pub fn begin_scroll_wheel_gesture(&mut self) -> (r: Option<ParamUpdate>)
        requires
            old(self).wf(),
        ensures
            final(self).wf(),
            final(self)@ == spec_begin_scroll_wheel_gesture(old(self)@).0,
            r == spec_begin_scroll_wheel_gesture(old(self)@).1,
            old(self)@.current_gesture is Some ==> r is None && *final(self) == *old(self),
    {
        if self.current_gesture.is_some() {
            None
        } else {
            self.current_gesture = Some(BeginGestureType::ScrollWheel);
            self.continuous_gesture_normal = self.normal_value;
            Some(self.make_notification(GestureState::GestureStarted))
        }
    }

    /// Clears any active gesture, notifying unconditionally if one was
    /// active.
    pub fn finish_gesture(&mut self) -> (r: Option<ParamUpdate>)
        requires
            old(self).wf(),
        ensures
            final(self).wf(),
            final(self)@ == spec_finish_gesture(old(self)@).0,
            r == spec_finish_gesture(old(self)@).1,
            final(self)@.current_gesture is None,
            old(self)@.current_gesture is None ==> r is None && *final(self) == *old(self),
    {
        if self.current_gesture.is_some() {
            self.current_gesture = None;
            Some(self.make_notification(GestureState::GestureFinished))
        } else {
            None
        }
    }

    /// Clamps and commits a candidate continuous position, following the
    /// double change check: the continuous position must move, and the
    /// committed (possibly snapped) value must change, for a notification
    /// to be produced.
    fn set_new_gesture_normal(&mut self, new_gesture_normal: i128) -> (r: Option<ParamUpdate>)
        requires
            old(self).wf(),
        ensures
            final(self).wf(),
            final(self)@ == spec_commit_gesture_normal(old(self)@, new_gesture_normal as int).0,
            r == spec_commit_gesture_normal(old(self)@, new_gesture_normal as int).1,
    {
        let c: u64 = if new_gesture_normal < 0 {
            0
        } else if new_gesture_normal > UNIT as i128 {
            UNIT
        } else {
            new_gesture_normal as u64
        };
        if c == self.continuous_gesture_normal {
            return None;
        }
        self.continuous_gesture_normal = c;
        let st_opt = self.stepped_state;
        match st_opt {
            Some(st) => {
                let new_val = param_normal_to_quantized(c, st.num_steps);
                let changed = st.value != new_val;
                self.stepped_state = Some(
                    SteppedParamState { value: new_val, num_steps: st.num_steps },
                );
                self.normal_value = param_quantized_to_normal(new_val, st.num_steps);
                if changed {
                    Some(self.make_notification(GestureState::Gesturing))
                } else {
                    None
                }
            },
            None => {
                let changed = self.normal_value != c;
                self.normal_value = c;
                if changed {
                    Some(self.make_notification(GestureState::Gesturing))
                } else {
                    None
                }
            },
        }
    }

    /// Handles a drag sample while a drag gesture is active; a no-op
    /// otherwise. See [`spec_handle_drag`] for the three input modes.
    pub fn handle_drag(
        &mut self,
        pointer_pos: Point,
        pointer_delta: Option<Point>,
        modifiers: Modifiers,
    ) -> (r: Option<ParamUpdate>)
        requires
            old(self).wf(),
        ensures
            final(self).wf(),
            final(self)@ == spec_handle_drag(old(self)@, pointer_pos, pointer_delta, modifiers).0,
            r == spec_handle_drag(old(self)@, pointer_pos, pointer_delta, modifiers).1,
            !(old(self)@.current_gesture matches Some(BeginGestureType::Dragging { .. }))
                ==> r is None && *final(self) == *old(self),
    {
        let (start_pos, start_normal) = match self.current_gesture {
            Some(BeginGestureType::Dragging { pointer_start_pos, start_normal }) => (
                pointer_start_pos,
                start_normal,
            ),
            _ => {
                return None;
            },
        };
        let fine = match self.config.fine_adjustment_modifier {
            Some(m) => modifiers == m,
            None => false,
        };
        let use_delta = !self.config.disable_pointer_locking && pointer_delta.is_some();
        let candidate: i128;
        let rebase: bool;
        if use_delta {
            let delta = pointer_delta.unwrap();
            let d: i64 = if self.drag_vertically {
                delta.y as i64
            } else {
                delta.x as i64
            };
            let sd = scaled_delta(d, self.config.drag_scalar, fine, self.config.fine_adjustment_scalar);
            candidate = (self.continuous_gesture_normal as i128) + sd;
            rebase = true;
        } else {
            let d: i64 = if self.drag_vertically {
                (pointer_pos.y as i64) - (start_pos.y as i64)
            } else {
                (pointer_pos.x as i64) - (start_pos.x as i64)
            };
            if fine {
                let sd = scaled_delta(d, self.config.drag_scalar, true, self.config.fine_adjustment_scalar);
                candidate = (self.continuous_gesture_normal as i128) + sd;
                rebase = true;
            } else {
                // Use absolute positions instead of deltas for a stable
                // rubber-band feel: stay anchored to the press point.
                let sd = scaled_delta(d, self.config.drag_scalar, false, self.config.fine_adjustment_scalar);
                candidate = (start_normal as i128) + sd;
                rebase = false;
            }
        }
        if rebase {
            self.current_gesture = Some(
                BeginGestureType::Dragging {
                    pointer_start_pos: pointer_pos,
                    start_normal: self.continuous_gesture_normal,
                },
            );
        }
        self.set_new_gesture_normal(candidate)
    }

    /// Handles a scroll-wheel sample. Page deltas and a zero drag-axis
    /// delta produce nothing; otherwise the delta is scaled like a drag
    /// delta and committed.
    pub fn handle_scroll_wheel(&mut self, delta_type: WheelDeltaType, modifiers: Modifiers) -> (r:
        Option<ParamUpdate>)
        requires
            old(self).wf(),
        ensures
            final(self).wf(),
            final(self)@ == spec_handle_scroll_wheel(old(self)@, delta_type, modifiers).0,
            r == spec_handle_scroll_wheel(old(self)@, delta_type, modifiers).1,
            delta_type is Pages ==> r is None && *final(self) == *old(self),
            !old(self)@.config.use_scroll_wheel ==> r is None && *final(self) == *old(self),
    {
        if !self.config.use_scroll_wheel {
            return None;
        }
        let d: i64 = match delta_type {
            WheelDeltaType::Points(v) => {
                if self.drag_vertically {
                    v.y as i64
                } else {
                    v.x as i64
                }
            },
            WheelDeltaType::Lines(v) => {
                let axis: i64 = if self.drag_vertically {
                    v.y as i64
                } else {
                    v.x as i64
                };
                let ppl = self.config.scroll_wheel_points_per_line as i64;
                proof {
                    assert(-0x1_0000_0000_0000 <= axis * ppl <= 0x1_0000_0000_0000)
                        by (nonlinear_arith)
                        requires
                            -0x8000_0000 <= axis <= 0x8000_0000,
                            0 <= ppl <= 0xFFFF,
                    ;
                }
                axis * ppl
            },
            WheelDeltaType::Pages(_) => 0,
        };
        if d == 0 {
            return None;
        }
        let fine = match self.config.fine_adjustment_modifier {
            Some(m) => modifiers == m,
            None => false,
        };
        let sd = scaled_delta(d, self.config.drag_scalar, fine, self.config.fine_adjustment_scalar);
        let candidate = (self.continuous_gesture_normal as i128) + sd;
        self.set_new_gesture_normal(candidate)
    }

    /// Resets the parameter to its default value, cancelling any active
    /// gesture. Notifies when a gesture was cancelled or the value
    /// changed; returns `None` when already at the default and idle.
    pub fn reset_to_default(&mut self) -> (r: Option<ParamUpdate>)
        requires
            old(self).wf(),
        ensures
            final(self).wf(),
            final(self)@ == spec_reset_to_default(old(self)@).0,
            r == spec_reset_to_default(old(self)@).1,
            final(self)@.current_gesture is None,
            final(self)@.normal_value == old(self)@.default_normal,
    {
        let changed = self.current_gesture.is_some() || self.normal_value != self.default_normal;
        if !changed {
            return None;
        }
        self.current_gesture = None;
        self.normal_value = self.default_normal;
        let st_opt = self.stepped_state;
        if let Some(st) = st_opt {
            let v = param_normal_to_quantized(self.default_normal, st.num_steps);
            self.stepped_state = Some(SteppedParamState { value: v, num_steps: st.num_steps });
        }
        Some(self.make_notification(GestureState::GestureFinished))
    }

    /// Sets the normalized value of the virtual slider.
    ///
    /// A programmatic set always wins over an in-flight user gesture: any
    /// active gesture is cancelled, and a `GestureFinished` notification
    /// is returned whenever the value changed or a gesture was cancelled,
    /// so hosts can detect the forced set even when the number is equal.
    pub fn set_normal_value(&mut self, new_normal: u64) -> (r: Option<ParamUpdate>)
        requires
            old(self).wf(),
        ensures
            final(self).wf(),
            final(self)@ == spec_set_normal_value(old(self)@, new_normal).0,
            r == spec_set_normal_value(old(self)@, new_normal).1,
            final(self)@.current_gesture is None,
            old(self)@.current_gesture is Some ==> (r matches Some(u) && u.gesture_state
                == GestureState::GestureFinished),
    {
        let st_opt = self.stepped_state;
        let snapped = match st_opt {
            Some(st) => {
                let v = param_normal_to_quantized(new_normal, st.num_steps);
                proof {
                    lemma_quantized_to_normal_bounds(v as int, st.num_steps as int);
                }
                self.stepped_state = Some(SteppedParamState { value: v, num_steps: st.num_steps });
                param_quantized_to_normal(v, st.num_steps)
            },
            None => clamp_normal(new_normal),
        };
        let state_changed = self.current_gesture.is_some() || self.normal_value != snapped;
        self.normal_value = snapped;
        self.continuous_gesture_normal = snapped;
        self.current_gesture = None;
        if state_changed {
            Some(self.make_notification(GestureState::GestureFinished))
        } else {
            None
        }
    }

    /// Sets the default normalized value, snapping it to the grid if the
    /// parameter is stepped. Returns whether the stored default changed;
    /// the current value and gesture are untouched.
    pub fn set_default_normal(&mut self, new_normal: u64) -> (changed: bool)
        requires
            old(self).wf(),
        ensures
            final(self).wf(),
            final(self)@ == spec_set_default_normal(old(self)@, new_normal).0,
            changed == spec_set_default_normal(old(self)@, new_normal).1,
    {
        let snapped = self.snap_normal(new_normal);
        proof {
            if let Some(st) = self@.stepped_state {
                lemma_snap_normal_idempotent(new_normal as int, st.num_steps as int);
            }
        }
        let changed = self.default_normal != snapped;
        self.default_normal = snapped;
        changed
    }

    /// Snaps a normalized value as this slider would: onto the grid if
    /// stepped, merely clamped otherwise.
    pub fn snap_normal(&self, normal: u64) -> (r: u64)
        ensures
            r == match self@.stepped_state {
                Some(st) => spec_snap_normal(normal as int, st.num_steps as int),
                None => clamp_unit(normal as int),
            },
            r <= UNIT,
    {
        match &self.stepped_state {
            Some(st) => param_snap_normal(normal, st.num_steps),
            None => clamp_normal(normal),
        }
    }
}

/// Scales a delta in points into fixed-point normalized units: the base
/// scalar always applies, the fine-adjustment scalar only when requested.
fn scaled_delta(points: i64, scalar: u64, fine: bool, fine_scalar: u64) -> (r: i128)
    requires
        -0x1_0000_0000_0000 <= points <= 0x1_0000_0000_0000,
        scalar <= UNIT,
        fine_scalar <= UNIT,
    ensures
        r == spec_scaled_delta(points as int, scalar as int, fine, fine_scalar as int),
        -0x1_0000_0000_0000_0000_0000 <= r <= 0x1_0000_0000_0000_0000_0000,
{
    proof {
        assert(-0x1_0000_0000_0000_0000_0000 <= (points as int) * (scalar as int)
            <= 0x1_0000_0000_0000_0000_0000) by (nonlinear_arith)
            requires
                -0x1_0000_0000_0000 <= points as int <= 0x1_0000_0000_0000,
                0 <= scalar as int <= 0x1_0000_0000,
        ;
    }
    let base: i128 = (points as i128) * (scalar as i128);
    if fine {
        if base >= 0 {
            proof {
                assert((base as int) * (fine_scalar as int) <= 0x1_0000_0000_0000_0000_0000_0000_0000)
                    by (nonlinear_arith)
                    requires
                        0 <= base as int <= 0x1_0000_0000_0000_0000_0000,
                        0 <= fine_scalar as int <= 0x1_0000_0000,
                ;
                vstd::arithmetic::mul::lemma_mul_nonnegative(base as int, fine_scalar as int);
                vstd::arithmetic::div_mod::lemma_div_nonincreasing(
                    (base as int) * (fine_scalar as int),
                    UNIT as int,
                );
                vstd::arithmetic::div_mod::lemma_div_pos_is_pos(
                    (base as int) * (fine_scalar as int),
                    UNIT as int,
                );
            }
            let m: u128 = (base as u128) * (fine_scalar as u128);
            (m / (UNIT as u128)) as i128
        } else {
            let neg: i128 = -base;
            proof {
                assert((neg as int) * (fine_scalar as int) <= 0x1_0000_0000_0000_0000_0000_0000_0000)
                    by (nonlinear_arith)
                    requires
                        0 <= neg as int <= 0x1_0000_0000_0000_0000_0000,
                        0 <= fine_scalar as int <= 0x1_0000_0000,
                ;
                vstd::arithmetic::mul::lemma_mul_unary_negation(base as int, fine_scalar as int);
                vstd::arithmetic::mul::lemma_mul_nonnegative(neg as int, fine_scalar as int);
                vstd::arithmetic::div_mod::lemma_div_nonincreasing(
                    (neg as int) * (fine_scalar as int),
                    UNIT as int,
                );
                vstd::arithmetic::div_mod::lemma_div_pos_is_pos(
                    (neg as int) * (fine_scalar as int),
                    UNIT as int,
                );
            }
            let m: u128 = (neg as u128) * (fine_scalar as u128);
            -((m / (UNIT as u128)) as i128)
        }
    } else {
        base
    }
}

} // verus!
