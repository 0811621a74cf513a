//! The capability through which the rest of a program drives a pointer.

use vstd::prelude::*;
use crate::error::Error;

verus! {

/// High-level control of a mouse. A backend turns each call into whatever
/// its device needs.
pub trait Mouse {
    /// Presses or releases the left button.
    fn left(&mut self, down: bool) -> Result<(), Error>;

    /// Presses or releases the right button.
    fn right(&mut self, down: bool) -> Result<(), Error>;

    /// Moves the cursor by a relative delta, at once.
    fn move_delta(&mut self, x: i32, y: i32) -> Result<(), Error>;

    /// Moves the cursor by `(x, y)`, interpolated by the device over `delay`
    /// milliseconds.
    fn move_auto(&mut self, x: i32, y: i32, delay: u32) -> Result<(), Error>;

    /// Reboots the remote device.
    fn reboot(&mut self) -> Result<(), Error>;

    /// Shuts the remote device down.
    fn shutdown(&mut self) -> Result<(), Error>;
}

} // verus!
