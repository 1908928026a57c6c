//! The overlay that lists the keys.

use crate::action::overlay::Overlay;
use crate::action::Action;
use crate::components::State;
use crate::config::keys::KeyEvent;
use crate::config::Config;
use crate::tui::Event;
use vstd::prelude::*;

verus! {

/// The usage overlay: hidden until it is toggled, and hidden again by any
/// key.
#[derive(Debug)]
pub struct UsageInfo {
    pub config: Config,
    pub state: State,
}

/// The other of the two states.
pub open spec fn toggled(state: State) -> State {
    match state {
        State::Visible => State::Hidden,
        State::Hidden => State::Visible,
    }
}

impl Default for UsageInfo {
    fn default() -> (info: UsageInfo)
        ensures
            info.state == State::Hidden,
    {
        UsageInfo { config: Config::default(), state: State::default() }
    }
}

impl UsageInfo {
    /// Takes the configuration over.
    pub fn register_config_handler(&mut self, config: Config)
        ensures
            final(self).config == config,
            final(self).state == old(self).state,
    {
        self.config = config;
    }

    /// Any key hides the overlay. No action is made in answer.
    pub fn handle_key_events(&mut self, _key: KeyEvent) -> (answer: Option<Action>)
        ensures
            answer is None,
            final(self).state == State::Hidden,
            final(self).config == old(self).config,
    {
        self.state = State::Hidden;
        None
    }

    /// Whether `self` is the overlay that `before` becomes by taking note
    /// of the action: a toggle of the usage overlay flips its visibility,
    /// and nothing else changes it.
    pub open spec fn follows(self, before: UsageInfo, action: Action) -> bool {
        &&& self.config == before.config
        &&& self.state == match action {
            Action::ToggleOverlay(Overlay::UsageInfo) => toggled(before.state),
            _ => before.state,
        }
    }

    /// Whether `self` is the overlay that `before` becomes by seeing an
    /// event of the terminal driver: a key hides it, and nothing else
    /// changes it.
    pub open spec fn saw(self, before: UsageInfo, event: Event) -> bool {
        &&& self.config == before.config
        &&& self.state == if event is Key {
            State::Hidden
        } else {
            before.state
        }
    }

    /// Takes note of an action, as [`UsageInfo::follows`] says. No action
    /// is made in answer.
    pub fn update(&mut self, action: &Action) -> (answer: Option<Action>)
        ensures
            answer is None,
            final(self).follows(*old(self), *action),
    {
        if let Action::ToggleOverlay(overlay) = action {
            match overlay {
                Overlay::UsageInfo => {
                    self.state = match self.state {
                        State::Visible => State::Hidden,
                        State::Hidden => State::Visible,
                    };
                },
            }
        }
        None
    }

    /// Whether the overlay is to be drawn.
    pub fn is_visible(&self) -> (visible: bool)
        ensures
            visible == (self.state == State::Visible),
    {
        match self.state {
            State::Visible => true,
            State::Hidden => false,
        }
    }
}

} // verus!
