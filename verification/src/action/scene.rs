use vstd::prelude::*;

verus! {

/// The full-screen views of the application. Exactly one scene is active; it
/// decides which components draw themselves and react to view changes.
#[derive(Debug, Copy, Clone, PartialEq, Eq, Hash, Structural)]
pub enum Scene {
    /// Counters, frame rates and the trail of recent actions.
    Internals,
    /// Statistics of the loaded problem.
    Data,
    /// The running session: jobs, workspaces, prompt.
    Session,
    /// Information about the application and the email prompt.
    About,
    /// The landing screen.
    Home,
}

impl Default for Scene {
    fn default() -> (scene: Scene)
        ensures
            scene == Scene::Data,
    {
        Scene::Data
    }
}

} // verus!
