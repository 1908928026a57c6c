use vstd::prelude::*;

verus! {

/// A selection within the content area of a scene. What a view means is up
/// to the component of the active scene.
#[derive(Debug, Copy, Clone, PartialEq, Eq, Hash, Structural)]
pub enum View {
    A,
    L,
    R,
    Prompt,
}

impl Default for View {
    fn default() -> (view: View)
        ensures
            view == View::A,
    {
        View::A
    }
}

} // verus!
