//! Selection of the device that blurs the screenshot background. The
//! blurring itself works on raw pixel data and belongs to the front end;
//! the choice is a configuration value.

use vstd::prelude::*;

verus! {

/// The device used to blur the screenshot background.
#[derive(Clone, Copy, Debug, PartialEq, Eq, Structural)]
pub enum BlurMethod {
    /// Blur on the processor.
    CPU,
    /// Blur on the graphics device, falling back to the processor where no
    /// device is available.
    GPU,
}

} // verus!
