use vstd::prelude::*;

verus! {

/// A modal layer that is drawn above the active scene and toggled
/// independently of scene and mode.
#[derive(Debug, Copy, Clone, PartialEq, Eq, Hash, Structural)]
pub enum Overlay {
    /// The table of keys and what they do.
    UsageInfo,
}

impl Default for Overlay {
    fn default() -> (overlay: Overlay)
        ensures
            overlay == Overlay::UsageInfo,
    {
        Overlay::UsageInfo
    }
}

} // verus!
