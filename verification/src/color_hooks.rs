use vstd::prelude::*;
use crate::error::ErrorCode;

verus! {

/// What the color control cluster needs from the device: read the current
/// chromaticity, and apply a new one.
///
/// `set_color` answers `Ok(true)` when the device took the new color, which
/// makes the cluster report a change, `Ok(false)` when it declined, and an
/// error when it failed. What a device does is stated by its own
/// specification functions, which its implementation is proved against.
pub trait ColorControlHooks: Sized {
    /// The chromaticity `(x, y)` the device shows.
    spec fn current_xy(&self) -> (u16, u16);

    /// The answer of the device to a request for color `(x, y)`.
    spec fn set_color_result(&self, x: u16, y: u16, execute_if_off: bool) -> Result<bool, ErrorCode>;

    /// The device after a request for color `(x, y)`.
    spec fn after_set_color(&self, x: u16, y: u16, execute_if_off: bool) -> Self;

    /// The chromaticity `(x, y)` the device shows.
    fn color(&self) -> (xy: (u16, u16))
        ensures
            xy == self.current_xy(),
    ;

    /// Asks the device to show color `(x, y)`; `execute_if_off` tells it to
    /// do so even while it is off.
    fn set_color(&mut self, x: u16, y: u16, execute_if_off: bool) -> (r: Result<bool, ErrorCode>)
        ensures
            r == old(self).set_color_result(x, y, execute_if_off),
            *final(self) == old(self).after_set_color(x, y, execute_if_off),
    ;
}

} // verus!
