//! Input interpretation for virtual slider controls (knobs, sliders, dials).
//!
//! The crate translates pointer-drag and scroll-wheel input, together with
//! modifier-key state, into changes of a single normalized parameter value,
//! tracking an explicit gesture lifecycle (started / gesturing / finished).
//! Normalized values are held as fixed-point integers: `normal::UNIT`
//! represents the upper end of the parameter range.

pub mod automation;
pub mod config;
pub mod input;
pub mod normal;
pub mod quantize;
pub mod slider;

pub use automation::AutomationInfo;
pub use config::VirtualSliderConfig;
pub use input::{Modifiers, Point, Vector, WheelDeltaType};
pub use normal::UNIT;
pub use quantize::{param_normal_to_quantized, param_quantized_to_normal, param_snap_normal};
pub use slider::{GestureState, ParamUpdate, VirtualSliderInner};
