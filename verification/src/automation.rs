//! Advisory automation data a host can attach to a slider for rendering.
//!
//! The gesture logic never reads this; it only exists so a renderer can
//! draw an automated value and range on top of the control.

use vstd::prelude::*;

use crate::normal::{clamp_normal, clamp_unit, UNIT};

verus! {

/// An externally supplied automated value and range, both normalized.
///
/// The range is a pair `(start, end)`; the two ends are clamped
/// independently and may arrive in either order.
#[derive(Debug, Clone, Copy, PartialEq)]
pub struct AutomationInfo {
    pub current_normal: Option<u64>,
    pub range: Option<(u64, u64)>,
}

impl AutomationInfo {
    /// Every stored value lies in the representable range.
    pub open spec fn clamped(self) -> bool {
        &&& (self.current_normal matches Some(n) ==> n <= UNIT)
        &&& (self.range matches Some(r) ==> r.0 <= UNIT && r.1 <= UNIT)
    }

    /// Clamps the stored value and range ends into `[0, UNIT]`.
    pub fn clamp(&mut self)
        ensures
            final(self).current_normal == match old(self).current_normal {
                Some(n) => Some(clamp_unit(n as int) as u64),
                None => None::<u64>,
            },
            final(self).range == match old(self).range {
                Some(r) => Some((clamp_unit(r.0 as int) as u64, clamp_unit(r.1 as int) as u64)),
                None => None::<(u64, u64)>,
            },
            final(self).clamped(),
    {
        if let Some(n) = self.current_normal {
            self.current_normal = Some(clamp_normal(n));
        }
        if let Some(r) = self.range {
            self.range = Some((clamp_normal(r.0), clamp_normal(r.1)));
        }
    }
}

impl Default for AutomationInfo {
    /// No automated value and no automated range.
    fn default() -> (r: Self)
        ensures
            r.current_normal is None,
            r.range is None,
    {
        AutomationInfo { current_normal: None, range: None }
    }
}

} // verus!
