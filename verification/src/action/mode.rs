use vstd::prelude::*;

verus! {

/// How keystrokes are interpreted.
///
/// In `Navigation` a keystroke is a command that is looked up in the key
/// bindings; in `TextInput` keystrokes are handed to the active text field.
/// Exactly one mode is active at a time.
#[derive(Debug, Copy, Clone, PartialEq, Eq, Hash, Structural)]
pub enum Mode {
    Navigation,
    TextInput,
}

impl Default for Mode {
    fn default() -> (mode: Mode)
        ensures
            mode == Mode::Navigation,
    {
        Mode::Navigation
    }
}

} // verus!
