//! The scene of the loaded problem's statistics.

use crate::action::mode::Mode;
use crate::action::scene::Scene;
use crate::action::Action;
use crate::channel::mailbox;
use crate::components::{mode_after, next_mode, next_visibility, visibility_after, State};
use crate::router::Message;
use tokio::sync::mpsc::UnboundedSender;
use vstd::prelude::*;

verus! {

/// The data scene.
#[derive(Debug)]
pub struct Data {
    pub state: State,
    pub message_tx_to_self: UnboundedSender<Message>,
    pub mode: Mode,
}

impl Data {
    /// The data scene at the start: hidden, in navigation.
    pub fn new() -> (data: Data)
        ensures
            data.state == State::Hidden,
            data.mode == Mode::Navigation,
    {
        let (message_tx_to_self, _) = mailbox();
        Data { state: State::Hidden, message_tx_to_self, mode: Mode::default() }
    }

    /// Whether `self` is the data scene that `before` becomes by taking
    /// note of the action. A change of mode sets the mode; in navigation a
    /// change of scene shows the data scene or hides it. Nothing else
    /// changes.
    pub open spec fn follows(self, before: Data, action: Action) -> bool {
        &&& self.message_tx_to_self == before.message_tx_to_self
        &&& self.mode == mode_after(before.mode, action)
        &&& self.state == visibility_after(before.state, self.mode, Scene::Data, action)
    }

    /// Takes note of an action, as [`Data::follows`] says. No action is
    /// made in answer.
    pub fn update(&mut self, action: &Action) -> (answer: Option<Action>)
        ensures
            answer is None,
            final(self).follows(*old(self), *action),
    {
        self.mode = next_mode(self.mode, action);
        self.state = next_visibility(self.state, self.mode, Scene::Data, action);
        None
    }
}

} // verus!
