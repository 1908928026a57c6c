//! The scene of the running session.

pub mod jobs;
pub mod prompt;

use crate::action::mode::Mode;
use crate::action::scene::Scene;
use crate::action::Action;
use crate::channel::mailbox;
use crate::components::{mode_after, next_mode, next_visibility, visibility_after, State};
use crate::router::Message;
use jobs::Jobs;
use prompt::Prompt;
use tokio::sync::mpsc::UnboundedSender;
use vstd::prelude::*;

verus! {

/// The session scene.
#[derive(Debug)]
pub struct Session {
    pub state: State,
    pub message_tx_to_self: UnboundedSender<Message>,
    pub prompt: Prompt,
    pub jobs: Jobs,
    pub mode: Mode,
}

impl Session {
    /// Whether the scene is as at the start: hidden, in navigation, the
    /// prompt not entered, every job listed.
    pub open spec fn at_start(self) -> bool {
        &&& self.state == State::Hidden
        &&& self.mode == Mode::Navigation
        &&& !self.prompt.is_active
        &&& self.jobs.view == jobs::View::All
    }

    /// The session scene at the start, as [`Session::at_start`] says.
    pub fn new() -> (session: Session)
        ensures
            session.at_start(),
    {
        let (message_tx_to_self, _) = mailbox();
        Session {
            state: State::Hidden,
            message_tx_to_self,
            prompt: Prompt::new(),
            jobs: Jobs::new(),
            mode: Mode::default(),
        }
    }

    /// Whether the action is a change of view that reaches the scene: the
    /// mode is navigation and the scene is shown.
    pub open spec fn view_change(mode: Mode, state: State, action: Action) -> Option<
        crate::action::view::View,
    > {
        match (mode, state, action) {
            (Mode::Navigation, State::Visible, Action::ChangeView(k)) => Some(k),
            _ => None,
        }
    }

    /// Whether `self` is the session scene that `before` becomes by taking
    /// note of the action. A change of mode sets the mode. In navigation a
    /// change of scene shows the session scene or hides it, and a change of
    /// view, if the scene is shown, enters or leaves the prompt where it
    /// names the prompt, and chooses the view of the jobs where it names
    /// another. Nothing else changes.
    pub open spec fn follows(self, before: Session, action: Action) -> bool {
        &&& self.message_tx_to_self == before.message_tx_to_self
        &&& self.mode == mode_after(before.mode, action)
        &&& self.state == visibility_after(before.state, self.mode, Scene::Session, action)
        &&& match Session::view_change(self.mode, before.state, action) {
            Some(crate::action::view::View::Prompt) => self.prompt.is_active
                != before.prompt.is_active && self.jobs.view == before.jobs.view,
            Some(k) => self.prompt.is_active == before.prompt.is_active && self.jobs.view
                == jobs::View::of(k),
            None => self.prompt.is_active == before.prompt.is_active && self.jobs.view
                == before.jobs.view,
        }
    }

    /// Takes note of an action, as [`Session::follows`] says. No action is
    /// made in answer.
    pub fn update(&mut self, action: &Action) -> (answer: Option<Action>)
        ensures
            answer is None,
            final(self).follows(*old(self), *action),
    {
        self.mode = next_mode(self.mode, action);
        let shown = match self.state {
            State::Visible => true,
            State::Hidden => false,
        };
        self.state = next_visibility(self.state, self.mode, Scene::Session, action);
        match self.mode {
            Mode::Navigation => {
                if let Action::ChangeView(k) = action {
                    if shown {
                        match jobs::View::from(*k) {
                            jobs::View::Prompt => self.prompt.toggle(),
                            _ => self.jobs.set_view(*k),
                        }
                    }
                }
            },
            Mode::TextInput => {},
        }
        None
    }
}

} // verus!
