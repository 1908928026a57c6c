//! The prompt of the session scene.

use vstd::prelude::*;

verus! {

/// The prompt of the session scene: entered or not.
#[derive(Debug)]
pub struct Prompt {
    pub is_active: bool,
}

impl Prompt {
    /// The prompt at the start: not entered.
    pub fn new() -> (prompt: Prompt)
        ensures
            !prompt.is_active,
    {
        Prompt { is_active: false }
    }

    /// Enters the prompt, or leaves it.
    pub fn toggle(&mut self)
        ensures
            final(self).is_active == !old(self).is_active,
    {
        self.is_active = !self.is_active;
    }
}

} // verus!
