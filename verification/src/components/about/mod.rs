//! The scene that tells about the application and asks for an email
//! address.

pub mod email_prompt;

use crate::action::mode::Mode;
use crate::action::scene::Scene;
use crate::action::Action;
use crate::channel::mailbox;
use crate::components::{mode_after, next_mode, State};
use crate::router::{Address, Message};
use crate::tui::Event;
use email_prompt::{EmailPrompt, PromptStep};
use tokio::sync::mpsc::UnboundedSender;
use vstd::prelude::*;

verus! {

/// The about scene.
pub struct About {
    pub state: State,
    pub message_tx_to_self: UnboundedSender<Message>,
    pub email_prompt: EmailPrompt,
    pub mode: Mode,
}

/// What a scene with an email prompt does with an action.
pub enum PromptSceneStep {
    /// The scene is shown or hidden as the change of scene says.
    Show(State),
    /// The prompt is entered, and the mode in which keys are text is asked
    /// for.
    EnterPrompt,
    /// Navigation is asked for again, as the prompt has been left.
    RestoreNavigation,
    /// Nothing.
    Nothing,
}

/// What a scene with an email prompt does with an action, given the mode
/// after the action, whether the scene is shown, and whether the prompt is
/// entered.
///
/// In navigation a change of scene shows or hides the scene, and the view
/// of the prompt enters the prompt if the scene is shown. While text is
/// typed, every action finds out whether the prompt has been left, and asks
/// for navigation again if so.
pub open spec fn prompt_scene_step(
    mode: Mode,
    state: State,
    prompt_active: bool,
    own: Scene,
    action: Action,
) -> PromptSceneStep {
    match mode {
        Mode::Navigation => match action {
            Action::ChangeScene(scene) => PromptSceneStep::Show(
                if scene == own {
                    State::Visible
                } else {
                    State::Hidden
                },
            ),
            Action::ChangeView(crate::action::view::View::Prompt) => if state == State::Visible {
                PromptSceneStep::EnterPrompt
            } else {
                PromptSceneStep::Nothing
            },
            _ => PromptSceneStep::Nothing,
        },
        Mode::TextInput => if !prompt_active {
            PromptSceneStep::RestoreNavigation
        } else {
            PromptSceneStep::Nothing
        },
    }
}

/// What a scene with an email prompt answers to an action.
pub open spec fn prompt_scene_answer(step: PromptSceneStep) -> Option<Action> {
    match step {
        PromptSceneStep::EnterPrompt => Some(Action::ChangeMode(Mode::TextInput)),
        PromptSceneStep::RestoreNavigation => Some(Action::ChangeMode(Mode::Navigation)),
        _ => None,
    }
}

/// Whether a scene with an email prompt is shown after a step.
pub open spec fn prompt_scene_state(step: PromptSceneStep, state: State) -> State {
    match step {
        PromptSceneStep::Show(shown) => shown,
        _ => state,
    }
}

/// The email prompt of a scene after a step: entered where the step enters
/// it, and else as it was.
pub open spec fn prompt_scene_prompt(step: PromptSceneStep, prompt: EmailPrompt) -> EmailPrompt {
    match step {
        PromptSceneStep::EnterPrompt => EmailPrompt { is_active: true, ..prompt },
        _ => prompt,
    }
}

/// Applies [`prompt_scene_step`] to the parts of a scene with an email
/// prompt.
pub fn update_prompt_scene(
    state: &mut State,
    mode: &mut Mode,
    email_prompt: &mut EmailPrompt,
    own: Scene,
    action: &Action,
) -> (answer: Option<Action>)
    ensures
        *final(mode) == mode_after(*old(mode), *action),
        ({
            let step = prompt_scene_step(
                *final(mode),
                *old(state),
                old(email_prompt).is_active,
                own,
                *action,
            );
            &&& answer == prompt_scene_answer(step)
            &&& *final(state) == prompt_scene_state(step, *old(state))
            &&& *final(email_prompt) == prompt_scene_prompt(step, *old(email_prompt))
        }),
{
    *mode = next_mode(*mode, action);
    match *mode {
        Mode::Navigation => match action {
            Action::ChangeScene(scene) => {
                if *scene == own {
                    *state = State::Visible;
                } else {
                    *state = State::Hidden;
                }
                None
            },
            Action::ChangeView(view) => {
                let shown = match *state {
                    State::Visible => true,
                    State::Hidden => false,
                };
                match view {
                    crate::action::view::View::Prompt => {
                        if shown {
                            email_prompt.activate()
                        } else {
                            None
                        }
                    },
                    _ => None,
                }
            },
            _ => None,
        },
        Mode::TextInput => {
            if !email_prompt.is_active() {
                Some(Action::ChangeMode(Mode::Navigation))
            } else {
                None
            }
        },
    }
}

impl About {
    /// Whether the scene is as at the start: hidden, in navigation, with
    /// an empty prompt of its own that has told nothing.
    pub open spec fn at_start(self) -> bool {
        &&& self.state == State::Hidden
        &&& self.mode == Mode::Navigation
        &&& self.email_prompt.is_reset()
        &&& self.email_prompt.owner == Address::About
        &&& self.email_prompt.told@ == Seq::<Message>::empty()
    }

    /// The about scene at the start, as [`About::at_start`] says, with a
    /// prompt that sends through `tx`.
    pub fn new(tx: UnboundedSender<Message>) -> (about: About)
        ensures
            about.at_start(),
            about.email_prompt.message_tx_to_router == tx,
    {
        let (message_tx_to_self, _) = mailbox();
        About {
            state: State::Hidden,
            message_tx_to_self,
            email_prompt: EmailPrompt::new(tx),
            mode: Mode::default(),
        }
    }

    /// Whether navigation is to be asked for again: text is typed, and the
    /// prompt has been left.
    pub fn should_restore_navigation_mode(&self) -> (restore: bool)
        ensures
            restore == (!self.email_prompt.is_active && self.mode == Mode::TextInput),
    {
        !self.email_prompt.is_active() && self.mode == Mode::TextInput
    }

    /// Whether `self` is the about scene that `before` becomes by taking
    /// note of the action: the mode is the one that the action leaves, and
    /// the scene is shown and its prompt entered as [`prompt_scene_step`]
    /// says. Nothing else changes.
    pub open spec fn follows(self, before: About, action: Action) -> bool {
        let step = prompt_scene_step(
            mode_after(before.mode, action),
            before.state,
            before.email_prompt.is_active,
            Scene::About,
            action,
        );
        &&& self.message_tx_to_self == before.message_tx_to_self
        &&& self.mode == mode_after(before.mode, action)
        &&& self.state == prompt_scene_state(step, before.state)
        &&& self.email_prompt == prompt_scene_prompt(step, before.email_prompt)
    }

    /// Takes note of an action, as [`About::follows`] says, and answers as
    /// [`prompt_scene_step`] says for the about scene.
    pub fn update(&mut self, action: &Action) -> (answer: Option<Action>)
        ensures
            final(self).follows(*old(self), *action),
            answer == prompt_scene_answer(
                prompt_scene_step(
                    mode_after(old(self).mode, *action),
                    old(self).state,
                    old(self).email_prompt.is_active,
                    Scene::About,
                    *action,
                ),
            ),
    {
        update_prompt_scene(
            &mut self.state,
            &mut self.mode,
            &mut self.email_prompt,
            Scene::About,
            action,
        )
    }

    /// Whether `self` is the about scene that `before` becomes by seeing
    /// an event of the terminal driver, `step` being what its prompt did. A
    /// key, while the prompt is entered, is taken by the prompt as
    /// [`EmailPrompt::took`] says; any other event passes, and the prompt
    /// stays as it was. Mode, visibility and mailbox stay.
    pub open spec fn saw(self, before: About, event: Event, step: Option<PromptStep>) -> bool {
        &&& self.state == before.state
        &&& self.mode == before.mode
        &&& self.message_tx_to_self == before.message_tx_to_self
        &&& if before.email_prompt.is_active && event is Key {
            step matches Some(s) && self.email_prompt.took(
                before.email_prompt,
                event->Key_0,
                s,
            )
        } else {
            step is None && self.email_prompt == before.email_prompt
        }
    }

    /// Hands a key to the prompt while the prompt is entered, as
    /// [`About::saw`] says. Returns what the prompt did with the key.
    pub fn handle_events(&mut self, event: &Event) -> (step: Option<PromptStep>)
        ensures
            final(self).saw(*old(self), *event, step),
    {
        if self.email_prompt.is_active() {
            if let Event::Key(key) = event {
                return Some(self.email_prompt.handle_key_event(*key));
            }
        }
        None
    }
}

} // verus!
