//! Everything that can change the state of the application.

pub mod mode;
pub mod overlay;
pub mod scene;
pub mod view;

use crate::text::{
    begins, chars_of, is, number, parse_number, pieces, split, starts_with, string_of,
        strip_leading,
    strip_trailing, texts, trim, trimmed, without_leading, without_trailing, NumberError,
};
use mode::Mode;
use overlay::Overlay;
use scene::Scene;
use vstd::prelude::*;

verus! {

/// An event of the application: everything that can change its state.
///
/// Actions are made by the dispatch loop (from timer ticks, key strokes,
/// resizes and signals) or by a component in answer to another action, and
/// every component sees every action.
#[derive(Debug, Clone, PartialEq, Eq, Hash)]
pub enum Action {
    Tick,
    Render,
    Resize(u16, u16),
    Suspend,
    Resume,
    Quit,
    Refresh,
    Error(String),
    ChangeScene(Scene),
    ChangeView(view::View),
    ToggleOverlay(Overlay),
    ChangeMode(Mode),
    Help,
}

/// What an [`Action`] is, with the message of an error as a sequence of
/// characters.
pub enum ActionView {
    Tick,
    Render,
    Resize(u16, u16),
    Suspend,
    Resume,
    Quit,
    Refresh,
    Error(Seq<char>),
    ChangeScene(Scene),
    ChangeView(view::View),
    ToggleOverlay(Overlay),
    ChangeMode(Mode),
    Help,
}

impl View for Action {
    type V = ActionView;

    open spec fn view(&self) -> ActionView {
        match *self {
            Action::Tick => ActionView::Tick,
            Action::Render => ActionView::Render,
            Action::Resize(w, h) => ActionView::Resize(w, h),
            Action::Suspend => ActionView::Suspend,
            Action::Resume => ActionView::Resume,
            Action::Quit => ActionView::Quit,
            Action::Refresh => ActionView::Refresh,
            Action::Error(message) => ActionView::Error(message@),
            Action::ChangeScene(scene) => ActionView::ChangeScene(scene),
            Action::ChangeView(view) => ActionView::ChangeView(view),
            Action::ToggleOverlay(overlay) => ActionView::ToggleOverlay(overlay),
            Action::ChangeMode(mode) => ActionView::ChangeMode(mode),
            Action::Help => ActionView::Help,
        }
    }
}

impl Default for Action {
    fn default() -> (action: Action)
        ensures
            action == Action::Tick,
    {
        Action::Tick
    }
}

/// Why a text is not the name of an action.
#[derive(Debug, Copy, Clone, PartialEq, Eq, Hash, Structural)]
pub enum ActionParseError {
    /// The text is none of the names, and begins with neither `Error(` nor
    /// `Resize(`.
    UnknownVariant,
    /// What follows `Resize(` is not two parts with one comma between them.
    InvalidResize,
    /// A width or a height is not a number of 16 bits.
    InvalidNumber(NumberError),
}

/// The action that a text names by itself, without an argument of free form.
pub open spec fn named_action(s: Seq<char>) -> Option<ActionView> {
    if s == "Tick"@ {
        Some(ActionView::Tick)
    } else if s == "Render"@ {
        Some(ActionView::Render)
    } else if s == "Suspend"@ {
        Some(ActionView::Suspend)
    } else if s == "Resume"@ {
        Some(ActionView::Resume)
    } else if s == "Quit"@ {
        Some(ActionView::Quit)
    } else if s == "Refresh"@ {
        Some(ActionView::Refresh)
    } else if s == "ChangeScene(About)"@ {
        Some(ActionView::ChangeScene(Scene::About))
    } else if s == "ChangeScene(Internals)"@ {
        Some(ActionView::ChangeScene(Scene::Internals))
    } else if s == "ChangeScene(Session)"@ {
        Some(ActionView::ChangeScene(Scene::Session))
    } else if s == "ChangeScene(Home)"@ {
        Some(ActionView::ChangeScene(Scene::Home))
    } else if s == "ChangeScene(Data)"@ {
        Some(ActionView::ChangeScene(Scene::Data))
    } else if s == "ChangeView(A)"@ {
        Some(ActionView::ChangeView(view::View::A))
    } else if s == "ChangeView(R)"@ {
        Some(ActionView::ChangeView(view::View::R))
    } else if s == "ChangeView(L)"@ {
        Some(ActionView::ChangeView(view::View::L))
    } else if s == "ChangeView(Prompt)"@ {
        Some(ActionView::ChangeView(view::View::Prompt))
    } else if s == "ToggleOverlay(UsageInfo)"@ {
        Some(ActionView::ToggleOverlay(Overlay::UsageInfo))
    } else if s == "Help"@ {
        Some(ActionView::Help)
    } else {
        None
    }
}

/// What stands between an opening word such as `Error(` and the closing
/// brackets: the text without every leading copy of the word and without
/// every `)` at its end.
pub open spec fn argument(s: Seq<char>, word: Seq<char>) -> Seq<char> {
    without_trailing(without_leading(s, word), ')')
}

/// The resize that the argument of `Resize(..)` names: a width and a height
/// with one comma between them, each a number of 16 bits that white space may
/// surround.
pub open spec fn named_resize(arg: Seq<char>) -> Result<ActionView, ActionParseError> {
    let parts = pieces(arg, ","@);
    if parts.len() != 2 {
        Err(ActionParseError::InvalidResize)
    } else {
        match number(trimmed(parts[0]), 0xffff) {
            Err(e) => Err(ActionParseError::InvalidNumber(e)),
            Ok(width) => match number(trimmed(parts[1]), 0xffff) {
                Err(e) => Err(ActionParseError::InvalidNumber(e)),
                Ok(height) => Ok(ActionView::Resize(width as u16, height as u16)),
            },
        }
    }
}

/// The grammar of actions as the configuration writes them.
///
/// An action without argument is written by its name; a change of scene, of
/// view or of overlay by its name and the variant in brackets. `Error(` opens
/// an error whose message is the rest, and `Resize(` a resize.
pub open spec fn named(s: Seq<char>) -> Result<ActionView, ActionParseError> {
    match named_action(s) {
        Some(action) => Ok(action),
        None => if starts_with(s, "Error("@) {
            Ok(ActionView::Error(argument(s, "Error("@)))
        } else if starts_with(s, "Resize("@) {
            named_resize(argument(s, "Resize("@))
        } else {
            Err(ActionParseError::UnknownVariant)
        },
    }
}

impl Action {
    /// A copy of the action.
    pub fn duplicate(&self) -> (copy: Action)
        ensures
            copy == *self,
    {
        match self {
            Action::Tick => Action::Tick,
            Action::Render => Action::Render,
            Action::Resize(w, h) => Action::Resize(*w, *h),
            Action::Suspend => Action::Suspend,
            Action::Resume => Action::Resume,
            Action::Quit => Action::Quit,
            Action::Refresh => Action::Refresh,
            Action::Error(message) => Action::Error(message.clone()),
            Action::ChangeScene(scene) => Action::ChangeScene(*scene),
            Action::ChangeView(view) => Action::ChangeView(*view),
            Action::ToggleOverlay(overlay) => Action::ToggleOverlay(*overlay),
            Action::ChangeMode(mode) => Action::ChangeMode(*mode),
            Action::Help => Action::Help,
        }
    }

    /// Reads an action without argument of free form.
    fn parse_named(s: &Vec<char>) -> (r: Option<Action>)
        ensures
            match r {
                Some(action) => named_action(s@) == Some(action@),
                None => named_action(s@) is None,
            },
    {
        if is(s, "Tick") {
            Some(Action::Tick)
        } else if is(s, "Render") {
            Some(Action::Render)
        } else if is(s, "Suspend") {
            Some(Action::Suspend)
        } else if is(s, "Resume") {
            Some(Action::Resume)
        } else if is(s, "Quit") {
            Some(Action::Quit)
        } else if is(s, "Refresh") {
            Some(Action::Refresh)
        } else if is(s, "ChangeScene(About)") {
            Some(Action::ChangeScene(Scene::About))
        } else if is(s, "ChangeScene(Internals)") {
            Some(Action::ChangeScene(Scene::Internals))
        } else if is(s, "ChangeScene(Session)") {
            Some(Action::ChangeScene(Scene::Session))
        } else if is(s, "ChangeScene(Home)") {
            Some(Action::ChangeScene(Scene::Home))
        } else if is(s, "ChangeScene(Data)") {
            Some(Action::ChangeScene(Scene::Data))
        } else if is(s, "ChangeView(A)") {
            Some(Action::ChangeView(view::View::A))
        } else if is(s, "ChangeView(R)") {
            Some(Action::ChangeView(view::View::R))
        } else if is(s, "ChangeView(L)") {
            Some(Action::ChangeView(view::View::L))
        } else if is(s, "ChangeView(Prompt)") {
            Some(Action::ChangeView(view::View::Prompt))
        } else if is(s, "ToggleOverlay(UsageInfo)") {
            Some(Action::ToggleOverlay(Overlay::UsageInfo))
        } else if is(s, "Help") {
            Some(Action::Help)
        } else {
            None
        }
    }

    /// Reads the argument of `Resize(..)`.
    fn parse_resize(arg: &Vec<char>) -> (r: Result<Action, ActionParseError>)
        ensures
            match r {
                Ok(action) => named_resize(arg@) == Ok::<ActionView, ActionParseError>(action@),
                Err(e) => named_resize(arg@) == Err::<ActionView, ActionParseError>(e),
            },
    {
        let comma = chars_of(",");
        proof {
            reveal_strlit(",");
        }
        let parts = split(arg, &comma);
        assert(texts(parts@).len() == parts.len());
        if parts.len() != 2 {
            return Err(ActionParseError::InvalidResize);
        }
        assert(texts(parts@)[0] == parts@[0]@);
        assert(texts(parts@)[1] == parts@[1]@);
        let width = match parse_number(&trim(&parts[0]), 0xffff) {
            Ok(n) => n as u16,
            Err(e) => {
                return Err(ActionParseError::InvalidNumber(e));
            },
        };
        let height = match parse_number(&trim(&parts[1]), 0xffff) {
            Ok(n) => n as u16,
            Err(e) => {
                return Err(ActionParseError::InvalidNumber(e));
            },
        };
        Ok(Action::Resize(width, height))
    }

    /// Reads an action as the configuration writes it.
    pub fn parse(value: &str) -> (r: Result<Action, ActionParseError>)
        ensures
            match r {
                Ok(action) => named(value@) == Ok::<ActionView, ActionParseError>(action@),
                Err(e) => named(value@) == Err::<ActionView, ActionParseError>(e),
            },
    {
        let s = chars_of(value);
        match Action::parse_named(&s) {
            Some(action) => Ok(action),
            None => {
                if begins(&s, "Error(") {
                    let message = strip_trailing(&strip_leading(&s, "Error("), ')');
                    Ok(Action::Error(string_of(&message)))
                } else if begins(&s, "Resize(") {
                    let arg = strip_trailing(&strip_leading(&s, "Resize("), ')');
                    Action::parse_resize(&arg)
                } else {
                    Err(ActionParseError::UnknownVariant)
                }
            },
        }
    }
}

} // verus!
