//! The landing scene, which has an email prompt of its own.

use crate::action::mode::Mode;
use crate::action::scene::Scene;
use crate::action::Action;
use crate::channel::mailbox;
use crate::components::about::email_prompt::{EmailPrompt, PromptStep};
use crate::components::about::{
    prompt_scene_answer, prompt_scene_prompt, prompt_scene_state, prompt_scene_step,
    update_prompt_scene,
};
use crate::components::{mode_after, State};
use crate::router::{Address, Message};
use crate::tui::Event;
use tokio::sync::mpsc::UnboundedSender;
use vstd::prelude::*;

verus! {

/// The home scene.
pub struct Home {
    pub state: State,
    pub message_tx_to_self: UnboundedSender<Message>,
    pub email_prompt: EmailPrompt,
    pub mode: Mode,
}

impl Home {
    /// Whether the scene is as at the start: shown, in navigation, with an
    /// empty prompt of its own that has told nothing.
    pub open spec fn at_start(self) -> bool {
        &&& self.state == State::Visible
        &&& self.mode == Mode::Navigation
        &&& self.email_prompt.is_reset()
        &&& self.email_prompt.owner == Address::Home
        &&& self.email_prompt.told@ == Seq::<Message>::empty()
    }

    /// The home scene at the start, as [`Home::at_start`] says, with a
    /// prompt that sends through `tx`.
    pub fn new(tx: UnboundedSender<Message>) -> (home: Home)
        ensures
            home.at_start(),
            home.email_prompt.message_tx_to_router == tx,
    {
        let (message_tx_to_self, _) = mailbox();
        Home {
            state: State::Visible,
            message_tx_to_self,
            email_prompt: EmailPrompt::owned_by(tx, Address::Home),
            mode: Mode::default(),
        }
    }

    /// Whether navigation is to be asked for again: text is typed, and the
    /// prompt has been left.
    pub fn should_restore_navigation_mode(&self) -> (restore: bool)
        ensures
            restore == (!self.email_prompt.is_active && self.mode == Mode::TextInput),
    {
        !self.email_prompt.is_active() && self.mode == Mode::TextInput
    }

    /// Whether `self` is the home scene that `before` becomes by taking
    /// note of the action: the mode is the one that the action leaves, and
    /// the scene is shown and its prompt entered as [`prompt_scene_step`]
    /// says. Nothing else changes.
    pub open spec fn follows(self, before: Home, action: Action) -> bool {
        let step = prompt_scene_step(
            mode_after(before.mode, action),
            before.state,
            before.email_prompt.is_active,
            Scene::Home,
            action,
        );
        &&& self.message_tx_to_self == before.message_tx_to_self
        &&& self.mode == mode_after(before.mode, action)
        &&& self.state == prompt_scene_state(step, before.state)
        &&& self.email_prompt == prompt_scene_prompt(step, before.email_prompt)
    }

    /// Takes note of an action, as [`Home::follows`] says, and answers as
    /// [`prompt_scene_step`] says for the home scene.
    pub fn update(&mut self, action: &Action) -> (answer: Option<Action>)
        ensures
            final(self).follows(*old(self), *action),
            answer == prompt_scene_answer(
                prompt_scene_step(
                    mode_after(old(self).mode, *action),
                    old(self).state,
                    old(self).email_prompt.is_active,
                    Scene::Home,
                    *action,
                ),
            ),
    {
        update_prompt_scene(
            &mut self.state,
            &mut self.mode,
            &mut self.email_prompt,
            Scene::Home,
            action,
        )
    }

    /// Whether `self` is the home scene that `before` becomes by seeing
    /// an event of the terminal driver, `step` being what its prompt did. A
    /// key, while the prompt is entered, is taken by the prompt as
    /// [`EmailPrompt::took`] says; any other event passes, and the prompt
    /// stays as it was. Mode, visibility and mailbox stay.
    pub open spec fn saw(self, before: Home, event: Event, step: Option<PromptStep>) -> bool {
        &&& self.state == before.state
        &&& self.mode == before.mode
        &&& self.message_tx_to_self == before.message_tx_to_self
        &&& if before.email_prompt.is_active && event is Key {
            step matches Some(s) && self.email_prompt.took(
                before.email_prompt,
                event->Key_0,
                s,
            )
        } else {
            step is None && self.email_prompt == before.email_prompt
        }
    }

    /// Hands a key to the prompt while the prompt is entered, as
    /// [`Home::saw`] says. Returns what the prompt did with the key.
    pub fn handle_events(&mut self, event: &Event) -> (step: Option<PromptStep>)
        ensures
            final(self).saw(*old(self), *event, step),
    {
        if self.email_prompt.is_active() {
            if let Event::Key(key) = event {
                return Some(self.email_prompt.handle_key_event(*key));
            }
        }
        None
    }
}

} // verus!
