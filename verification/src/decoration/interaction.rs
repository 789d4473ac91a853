//! Title-button hit targets of the decoration layer.

use vstd::prelude::*;
use crate::chrome::ControlRole;

verus! {

/// Title-button hit target.
#[derive(Debug, Clone, Copy, PartialEq, Eq, Structural)]
pub enum FrameControl {
    Minimize,
    Maximize,
    Close,
}

impl FrameControl {
    /// The control role a button shows.
    pub fn role(self) -> (r: ControlRole)
        ensures
            r == match self {
                FrameControl::Minimize => ControlRole::Minimize,
                FrameControl::Maximize => ControlRole::Maximize,
                FrameControl::Close => ControlRole::Close,
            },
    {
        match self {
            FrameControl::Minimize => ControlRole::Minimize,
            FrameControl::Maximize => ControlRole::Maximize,
            FrameControl::Close => ControlRole::Close,
        }
    }
}

} // verus!
