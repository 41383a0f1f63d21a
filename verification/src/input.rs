//! Plain-value models of the raw input the slider consumes: pointer
//! positions, scroll deltas and modifier-key state.
//!
//! Positions and deltas are whole points (logical pixels). Hosts that
//! receive fractional coordinates from a windowing layer round them before
//! handing them to the slider.

use vstd::prelude::*;

verus! {

/// A pointer position in points.
#[derive(Debug, Clone, Copy, PartialEq, Eq, Structural)]
pub struct Point {
    pub x: i32,
    pub y: i32,
}

/// A two-dimensional scroll amount.
#[derive(Debug, Clone, Copy, PartialEq, Eq, Structural)]
pub struct Vector {
    pub x: i32,
    pub y: i32,
}

/// A scroll-wheel delta, tagged with the unit the backend reports.
#[derive(Debug, Clone, Copy, PartialEq, Eq, Structural)]
pub enum WheelDeltaType {
    /// A delta in points.
    Points(Vector),
    /// A delta in lines; converted to points with a configured factor.
    Lines(Vector),
    /// A delta in pages; the slider ignores page scrolling.
    Pages(Vector),
}

/// The bit for the Alt key in [`Modifiers::bits`].
pub const MODIFIER_ALT: u32 = 0x1;

/// The bit for the Control key in [`Modifiers::bits`].
pub const MODIFIER_CONTROL: u32 = 0x8;

/// The bit for the Meta key in [`Modifiers::bits`].
pub const MODIFIER_META: u32 = 0x40;

/// The bit for the Shift key in [`Modifiers::bits`].
pub const MODIFIER_SHIFT: u32 = 0x200;

/// The set of modifier keys held during an input event, as a bitset.
///
/// The slider only ever compares two of these sets for equality, so the
/// bit assignment is free; the named constants above follow the layout
/// common to keyboard event libraries.
#[derive(Debug, Clone, Copy, PartialEq, Eq, Structural)]
pub struct Modifiers {
    pub bits: u32,
}

/// The component of a point along the chosen drag axis.
pub open spec fn spec_point_axis(p: Point, vertical: bool) -> int {
    if vertical {
        p.y as int
    } else {
        p.x as int
    }
}

/// The component of a scroll amount along the chosen drag axis.
pub open spec fn spec_vector_axis(v: Vector, vertical: bool) -> int {
    if vertical {
        v.y as int
    } else {
        v.x as int
    }
}

} // verus!
