//! Per-instance tuning for a virtual slider.

use vstd::prelude::*;

use crate::input::{Modifiers, MODIFIER_CONTROL, MODIFIER_SHIFT};
use crate::normal::UNIT;

verus! {

/// The default drag sensitivity: about a thousandth of the range per point.
pub const DEFAULT_DRAG_SCALAR: u64 = 4_294_967;

/// The default scroll-wheel sensitivity: about a hundredth of the range.
pub const DEFAULT_SCROLL_WHEEL_SCALAR: u64 = 42_949_673;

/// The default number of points per scrolled line.
pub const DEFAULT_SCROLL_WHEEL_POINTS_PER_LINE: u16 = 24;

/// The default fine-adjustment factor: a hundredth of normal sensitivity.
pub const DEFAULT_FINE_ADJUSTMENT_SCALAR: u64 = 42_949_673;

/// Immutable tuning for one slider instance.
///
/// Sensitivities are fixed-point fractions of the normalized range with
/// denominator [`UNIT`]: a scalar of `UNIT` moves the value across the
/// whole range for every point of pointer travel. A valid configuration
/// keeps both drag-related scalars at or below `UNIT` so that scaled
/// deltas stay within machine bounds.
#[derive(Debug, Clone, Copy, PartialEq)]
pub struct VirtualSliderConfig {
    /// The scalar (points to normalized units) to use when dragging.
    pub drag_scalar: u64,
    /// The scalar (points to normalized units) to use when scrolling.
    pub scroll_wheel_scalar: u64,
    /// How many points per line when the scroll wheel reports lines.
    pub scroll_wheel_points_per_line: u16,
    /// An additional scalar to apply while the fine-adjustment modifier is
    /// held down.
    pub fine_adjustment_scalar: u64,
    /// Whether the scroll wheel should adjust this parameter.
    pub use_scroll_wheel: bool,
    /// The modifier key set that triggers fine adjustment, if any.
    pub fine_adjustment_modifier: Option<Modifiers>,
    /// The modifier key set that opens text entry on selection, if any.
    pub open_text_entry_modifier: Option<Modifiers>,
    /// Whether middle-clicking the element opens text entry.
    pub open_text_entry_on_middle_click: bool,
    /// Whether to disable locking the pointer in place while dragging.
    pub disable_pointer_locking: bool,
}

impl VirtualSliderConfig {
    /// Both drag-related sensitivities stay at or below one unit per point.
    pub open spec fn valid(self) -> bool {
        &&& self.drag_scalar <= UNIT
        &&& self.fine_adjustment_scalar <= UNIT
    }
}

/// The configuration a slider starts from when the host supplies none.
pub open spec fn spec_default_config() -> VirtualSliderConfig {
    VirtualSliderConfig {
        drag_scalar: DEFAULT_DRAG_SCALAR,
        scroll_wheel_scalar: DEFAULT_SCROLL_WHEEL_SCALAR,
        scroll_wheel_points_per_line: DEFAULT_SCROLL_WHEEL_POINTS_PER_LINE,
        fine_adjustment_scalar: DEFAULT_FINE_ADJUSTMENT_SCALAR,
        use_scroll_wheel: true,
        fine_adjustment_modifier: Some(Modifiers { bits: MODIFIER_SHIFT }),
        open_text_entry_modifier: Some(Modifiers { bits: MODIFIER_CONTROL }),
        open_text_entry_on_middle_click: true,
        disable_pointer_locking: false,
    }
}

impl Default for VirtualSliderConfig {
    /// Moderate drag sensitivity, scroll wheel enabled, fine adjustment on
    /// Shift and text entry on Control or middle click.
    fn default() -> (r: Self)
        ensures
            r == spec_default_config(),
            r.valid(),
    {
        VirtualSliderConfig {
            drag_scalar: DEFAULT_DRAG_SCALAR,
            scroll_wheel_scalar: DEFAULT_SCROLL_WHEEL_SCALAR,
            scroll_wheel_points_per_line: DEFAULT_SCROLL_WHEEL_POINTS_PER_LINE,
            fine_adjustment_scalar: DEFAULT_FINE_ADJUSTMENT_SCALAR,
            use_scroll_wheel: true,
            fine_adjustment_modifier: Some(Modifiers { bits: MODIFIER_SHIFT }),
            open_text_entry_modifier: Some(Modifiers { bits: MODIFIER_CONTROL }),
            open_text_entry_on_middle_click: true,
            disable_pointer_locking: false,
        }
    }
}

} // verus!
