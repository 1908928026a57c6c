//! The components of the user interface: what each of them remembers, and
//! how every action changes it. Drawing is not their business here.

pub mod about;
pub mod base;
pub mod data;
pub mod home;
pub mod internals;
pub mod session;
pub mod usage_info;

use crate::action::mode::Mode;
use crate::action::scene::Scene;
use crate::action::Action;
use crate::tui::Event;
use about::email_prompt::PromptStep;
use about::{prompt_scene_answer, prompt_scene_state, prompt_scene_step, About};
use base::{scene_after, Base};
use data::Data;
use home::Home;
use internals::Internals;
use session::Session;
use usage_info::UsageInfo;
use vstd::prelude::*;

verus! {

/// Whether a component draws itself.
#[derive(Debug, Copy, Clone, PartialEq, Eq, Hash, Structural)]
pub enum State {
    Hidden,
    Visible,
}

impl Default for State {
    fn default() -> (state: State)
        ensures
            state == State::Hidden,
    {
        State::Hidden
    }
}

/// The mode that a component is in once it has seen an action: a change of
/// mode sets it, and nothing else does.
pub open spec fn mode_after(mode: Mode, action: Action) -> Mode {
    match action {
        Action::ChangeMode(next) => next,
        _ => mode,
    }
}

/// Whether the component of a scene draws itself once it has seen an action
/// in the given mode. In navigation a change of scene shows the component
/// of the new scene and hides every other; while text is typed, changes of
/// scene pass unnoticed.
pub open spec fn visibility_after(state: State, mode: Mode, own: Scene, action: Action) -> State {
    match (mode, action) {
        (Mode::Navigation, Action::ChangeScene(scene)) => if scene == own {
            State::Visible
        } else {
            State::Hidden
        },
        _ => state,
    }
}

/// Computes [`mode_after`].
pub fn next_mode(mode: Mode, action: &Action) -> (next: Mode)
    ensures
        next == mode_after(mode, *action),
{
    match action {
        Action::ChangeMode(next) => *next,
        _ => mode,
    }
}

/// Computes [`visibility_after`].
pub fn next_visibility(state: State, mode: Mode, own: Scene, action: &Action) -> (next: State)
    ensures
        next == visibility_after(state, mode, own, *action),
{
    match mode {
        Mode::Navigation => match action {
            Action::ChangeScene(scene) => {
                if *scene == own {
                    State::Visible
                } else {
                    State::Hidden
                }
            },
            _ => state,
        },
        Mode::TextInput => state,
    }
}

/// A component of the user interface.
pub enum Component {
    Internals(Internals),
    About(About),
    Data(Data),
    Session(Session),
    Base(Base),
    UsageInfo(UsageInfo),
    Home(Home),
}

impl Component {
    /// The action that the component makes in answer to an action. Only the
    /// scenes with an email prompt answer.
    pub open spec fn answer_to(self, action: Action) -> Option<Action> {
        match self {
            Component::About(about) => prompt_scene_answer(
                prompt_scene_step(
                    mode_after(about.mode, action),
                    about.state,
                    about.email_prompt.is_active,
                    Scene::About,
                    action,
                ),
            ),
            Component::Home(home) => prompt_scene_answer(
                prompt_scene_step(
                    mode_after(home.mode, action),
                    home.state,
                    home.email_prompt.is_active,
                    Scene::Home,
                    action,
                ),
            ),
            _ => None,
        }
    }

    /// The scene that the component draws, if it is the component of a
    /// scene.
    pub open spec fn own_scene(self) -> Option<Scene> {
        match self {
            Component::Internals(_) => Some(Scene::Internals),
            Component::About(_) => Some(Scene::About),
            Component::Data(_) => Some(Scene::Data),
            Component::Session(_) => Some(Scene::Session),
            Component::Home(_) => Some(Scene::Home),
            _ => None,
        }
    }

    /// The mode that the component is in, if it keeps one.
    pub open spec fn mode(self) -> Option<Mode> {
        match self {
            Component::Internals(internals) => Some(internals.mode),
            Component::About(about) => Some(about.mode),
            Component::Data(data) => Some(data.mode),
            Component::Session(session) => Some(session.mode),
            Component::Base(base) => Some(base.mode),
            Component::Home(home) => Some(home.mode),
            Component::UsageInfo(_) => None,
        }
    }

    /// Whether the component draws itself. The base layer always does.
    pub open spec fn shown(self) -> State {
        match self {
            Component::Internals(internals) => internals.state,
            Component::About(about) => about.state,
            Component::Data(data) => data.state,
            Component::Session(session) => session.state,
            Component::Base(_) => State::Visible,
            Component::Home(home) => home.state,
            Component::UsageInfo(usage_info) => usage_info.state,
        }
    }

    /// Whether the component is as at the start of the application.
    pub open spec fn at_start(self) -> bool {
        match self {
            Component::Internals(internals) => internals.at_start(),
            Component::About(about) => about.at_start(),
            Component::Data(data) => data.state == State::Hidden && data.mode == Mode::Navigation,
            Component::Session(session) => session.at_start(),
            Component::Base(base) => base.scene == Scene::Data && base.mode == Mode::Navigation,
            Component::UsageInfo(usage_info) => usage_info.state == State::Hidden,
            Component::Home(home) => home.at_start(),
        }
    }

    /// Whether `self` is what `before` may be once it has seen the action:
    /// the same kind of component, changed as its own `follows` says.
    pub open spec fn follows(self, before: Component, action: Action) -> bool {
        match (before, self) {
            (Component::Internals(b), Component::Internals(a)) => a.follows(b, action),
            (Component::About(b), Component::About(a)) => a.follows(b, action),
            (Component::Data(b), Component::Data(a)) => a.follows(b, action),
            (Component::Session(b), Component::Session(a)) => a.follows(b, action),
            (Component::Base(b), Component::Base(a)) => a.follows(b, action),
            (Component::UsageInfo(b), Component::UsageInfo(a)) => a.follows(b, action),
            (Component::Home(b), Component::Home(a)) => a.follows(b, action),
            _ => false,
        }
    }

    /// Lets the component take note of an action, and returns the action
    /// that it makes in answer, if any.
    pub fn update(&mut self, action: &Action) -> (answer: Option<Action>)
        ensures
            final(self).follows(*old(self), *action),
            answer == old(self).answer_to(*action),
    {
        match self {
            Component::Internals(internals) => internals.update(action),
            Component::About(about) => about.update(action),
            Component::Data(data) => data.update(action),
            Component::Session(session) => session.update(action),
            Component::Base(base) => base.update(action),
            Component::UsageInfo(usage_info) => usage_info.update(action),
            Component::Home(home) => home.update(action),
        }
    }

    /// Whether `self` is what `before` may be once it has seen an event of
    /// the terminal driver, `step` being what its email prompt did with the
    /// event. The usage overlay and the scenes with an email prompt change
    /// as their own `saw` says; only such a scene has a step to report.
    /// Every other component is left as it was.
    pub open spec fn saw(self, before: Component, event: Event, step: Option<PromptStep>) -> bool {
        match (before, self) {
            (Component::UsageInfo(b), Component::UsageInfo(a)) => step is None && a.saw(b, event),
            (Component::About(b), Component::About(a)) => a.saw(b, event, step),
            (Component::Home(b), Component::Home(a)) => a.saw(b, event, step),
            _ => step is None && self == before,
        }
    }

    /// Lets the component see an event of the terminal driver, as
    /// [`Component::saw`] says, and returns what its email prompt did with
    /// the event, if it has one and the prompt took the event. No component
    /// makes an action of an event.
    pub fn handle_events(&mut self, event: &Event) -> (step: Option<PromptStep>)
        ensures
            final(self).saw(*old(self), *event, step),
    {
        match self {
            Component::About(about) => about.handle_events(event),
            Component::Home(home) => home.handle_events(event),
            Component::UsageInfo(usage_info) => {
                if let Event::Key(key) = event {
                    usage_info.handle_key_events(*key);
                }
                None
            },
            _ => None,
        }
    }
}

/// A request to suspend, followed by the action that takes it back, leaves
/// every component as it was: its mode, whether it is shown, its view and
/// its prompt. Only the internals scene, which counts every action and
/// keeps a trail of them, differs afterwards, and only in its counters,
/// histories and trail.
pub proof fn lemma_suspend_and_resume_leave_components(
    before: Component,
    suspended: Component,
    resumed: Component,
)
    requires
        suspended.follows(before, Action::Suspend),
        resumed.follows(suspended, Action::Resume),
    ensures
        match (before, resumed) {
            (Component::Internals(b), Component::Internals(a)) => a.mode == b.mode && a.state
                == b.state && a.state_display == b.state_display && a.stats_display
                == b.stats_display && a.message_tx_to_self == b.message_tx_to_self,
            _ => resumed == before,
        },
        before.answer_to(Action::Suspend) is None || before.answer_to(Action::Suspend)
            == Some(Action::ChangeMode(Mode::Navigation)),
{
}

/// A change of scene, seen by a component in navigation, shows the
/// component if the scene is its own and hides it if not, and sets the scene
/// of the base layer; seen while text is typed, it changes neither. It
/// never changes a mode, and the usage overlay takes no note of it.
pub proof fn lemma_scene_change_reaches_components(
    before: Component,
    after: Component,
    scene: Scene,
)
    requires
        after.follows(before, Action::ChangeScene(scene)),
    ensures
        after.mode() == before.mode(),
        after.own_scene() == before.own_scene(),
        before.own_scene() matches Some(own) ==> after.shown() == match before.mode() {
            Some(Mode::Navigation) => if scene == own {
                State::Visible
            } else {
                State::Hidden
            },
            _ => before.shown(),
        },
        before.own_scene() is None ==> after.shown() == before.shown(),
        (before, after) matches (Component::Base(b), Component::Base(a)) ==> a.scene == match b.mode {
            Mode::Navigation => scene,
            Mode::TextInput => b.scene,
        },
{
}

/// In navigation a change to a scene shows the component of that scene,
/// hides the component of every other scene, and is followed by the base
/// layer; while text is typed, the same action changes no component's
/// visibility, nor the scene that the base layer shows. This holds of the
/// scenes with an email prompt as of the others.
pub proof fn lemma_scene_change_is_gated_by_mode(
    state: State,
    own: Scene,
    shown: Scene,
    prompt_active: bool,
    scene: Scene,
)
    ensures
        visibility_after(state, Mode::Navigation, own, Action::ChangeScene(scene)) == (if scene
            == own {
            State::Visible
        } else {
            State::Hidden
        }),
        visibility_after(state, Mode::TextInput, own, Action::ChangeScene(scene)) == state,
        prompt_scene_state(
            prompt_scene_step(
                Mode::Navigation,
                state,
                prompt_active,
                own,
                Action::ChangeScene(scene),
            ),
            state,
        ) == visibility_after(state, Mode::Navigation, own, Action::ChangeScene(scene)),
        prompt_scene_state(
            prompt_scene_step(
                Mode::TextInput,
                state,
                prompt_active,
                own,
                Action::ChangeScene(scene),
            ),
            state,
        ) == state,
        scene_after(shown, Mode::Navigation, Action::ChangeScene(scene)) == scene,
        scene_after(shown, Mode::TextInput, Action::ChangeScene(scene)) == shown,
{
}

} // verus!
