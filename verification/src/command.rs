//! The intents that the tray service may ask the GUI loop to carry out.

use vstd::prelude::*;

verus! {

/// An intent originating in the tray service's execution context, queued for
/// later application inside the GUI loop. Carries no payload.
#[derive(Debug, Clone, Copy, PartialEq, Eq, Structural)]
pub enum Command {
    /// Open the primary window if none is open.
    ShowWindow,
    /// Close the primary window if one is open.
    HideWindow,
    /// Terminate the process.
    Exit,
}

} // verus!
