//! Remote media-key commands relayed over the control channel.

use vstd::prelude::*;

verus! {

/// The two player commands the control channel can carry.
pub enum PlayerControl {
    Previous,
    Next,
}

impl PlayerControl {
    /// The MPRIS player method name this command maps to.
    pub fn method_name(&self) -> (r: &'static str)
        ensures
            self is Previous ==> r@ == "Previous"@,
            self is Next ==> r@ == "Next"@,
    {
        match self {
            PlayerControl::Previous => "Previous",
            PlayerControl::Next => "Next",
        }
    }
}

} // verus!
