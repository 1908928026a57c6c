//! The frame around every scene, with the bar of tabs.

use crate::action::mode::Mode;
use crate::action::scene::Scene;
use crate::action::Action;
use crate::components::{mode_after, next_mode};
use vstd::prelude::*;

verus! {

/// The base layer: it follows the scene and the mode, to mark the tab of the
/// active scene.
#[derive(Debug)]
pub struct Base {
    pub scene: Scene,
    pub mode: Mode,
}

/// The scene that the base layer shows as active once it has seen an action
/// in the given mode: a change of scene counts in navigation only.
pub open spec fn scene_after(scene: Scene, mode: Mode, action: Action) -> Scene {
    match (mode, action) {
        (Mode::Navigation, Action::ChangeScene(next)) => next,
        _ => scene,
    }
}

impl Base {
    /// The base layer at the start: the default scene, in navigation.
    pub fn new() -> (base: Base)
        ensures
            base.scene == Scene::Data,
            base.mode == Mode::Navigation,
    {
        Base { scene: Scene::default(), mode: Mode::default() }
    }

    /// Whether `self` is the base layer that `before` becomes by taking
    /// note of the action. A change of mode sets the mode; a change of scene
    /// sets the scene if the mode, after that, is navigation.
    pub open spec fn follows(self, before: Base, action: Action) -> bool {
        &&& self.mode == mode_after(before.mode, action)
        &&& self.scene == scene_after(before.scene, self.mode, action)
    }

    /// Takes note of an action, as [`Base::follows`] says. No action is
    /// made in answer.
    pub fn update(&mut self, action: &Action) -> (answer: Option<Action>)
        ensures
            answer is None,
            final(self).follows(*old(self), *action),
    {
        self.mode = next_mode(self.mode, action);
        match self.mode {
            Mode::Navigation => {
                if let Action::ChangeScene(scene) = action {
                    self.scene = *scene;
                }
            },
            Mode::TextInput => {},
        }
        None
    }

    /// The tab that is marked for a scene: home, session and internals
    /// have one each, in this order.
    pub open spec fn tab_of(scene: Scene) -> Option<usize> {
        match scene {
            Scene::Home => Some(0usize),
            Scene::Session => Some(1usize),
            Scene::Internals => Some(2usize),
            _ => None,
        }
    }

    /// The tab to mark, if the active scene has one.
    pub fn selected_tab(&self) -> (tab: Option<usize>)
        ensures
            tab == Base::tab_of(self.scene),
    {
        match self.scene {
            Scene::Home => Some(0),
            Scene::Session => Some(1),
            Scene::Internals => Some(2),
            _ => None,
        }
    }
}

} // verus!
