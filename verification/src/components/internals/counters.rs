//! How often each action was seen, and how fast the loop runs.

use crate::action::Action;
use vstd::prelude::*;

verus! {

/// The counters of the internals scene. The rates are in thousandths of a
/// frame per second.
#[derive(Debug, Copy, Clone, PartialEq, Eq, Hash, Structural)]
pub struct Counters {
    pub tick: u32,
    pub render: u32,
    pub render_fps: u32,
    pub render_frames: u32,
    pub app_fps: u32,
    pub app_frames: u32,
    pub resize: u32,
    pub suspend: u32,
    pub resume: u32,
    pub quit: u32,
    pub refresh: u32,
    pub error: u32,
    pub change_scene: u32,
    pub change_mode: u32,
    pub change_view: u32,
    pub toggle_overlay: u32,
    pub help: u32,
}

impl Default for Counters {
    fn default() -> (counters: Counters)
        ensures
            counters == Counters::zero(),
    {
        Counters {
            tick: 0,
            render: 0,
            render_fps: 0,
            render_frames: 0,
            app_fps: 0,
            app_frames: 0,
            resize: 0,
            suspend: 0,
            resume: 0,
            quit: 0,
            refresh: 0,
            error: 0,
            change_scene: 0,
            change_mode: 0,
            change_view: 0,
            toggle_overlay: 0,
            help: 0,
        }
    }
}

/// One more than `n`, or `n` where there is no greater number of 32 bits.
pub open spec fn one_more(n: u32) -> u32 {
    if n == u32::MAX {
        n
    } else {
        (n + 1) as u32
    }
}

impl Counters {
    /// Every counter at zero.
    pub open spec fn zero() -> Counters {
        Counters {
            tick: 0,
            render: 0,
            render_fps: 0,
            render_frames: 0,
            app_fps: 0,
            app_frames: 0,
            resize: 0,
            suspend: 0,
            resume: 0,
            quit: 0,
            refresh: 0,
            error: 0,
            change_scene: 0,
            change_mode: 0,
            change_view: 0,
            toggle_overlay: 0,
            help: 0,
        }
    }

    /// The counters after one more action: the counter of the action's kind
    /// is one greater, unless it has reached the greatest number already.
    pub open spec fn counted(self, action: Action) -> Counters {
        match action {
            Action::Tick => Counters { tick: one_more(self.tick), ..self },
            Action::Render => Counters { render: one_more(self.render), ..self },
            Action::Resize(_, _) => Counters { resize: one_more(self.resize), ..self },
            Action::Suspend => Counters { suspend: one_more(self.suspend), ..self },
            Action::Resume => Counters { resume: one_more(self.resume), ..self },
            Action::Quit => Counters { quit: one_more(self.quit), ..self },
            Action::Refresh => Counters { refresh: one_more(self.refresh), ..self },
            Action::Error(_) => Counters { error: one_more(self.error), ..self },
            Action::ChangeScene(_) => Counters {
                change_scene: one_more(self.change_scene),
                ..self
            },
            Action::ChangeMode(_) => Counters { change_mode: one_more(self.change_mode), ..self },
            Action::ChangeView(_) => Counters { change_view: one_more(self.change_view), ..self },
            Action::ToggleOverlay(_) => Counters {
                toggle_overlay: one_more(self.toggle_overlay),
                ..self
            },
            Action::Help => Counters { help: one_more(self.help), ..self },
        }
    }

    /// The values that one sample of the counters adds to the history, in
    /// the order of [`crate::components::internals::buffers::Buffers::histories`].
    pub open spec fn sample(self) -> Seq<u32> {
        seq![
            self.tick,
            self.render,
            self.app_fps,
            self.render_fps,
            self.resize,
            self.suspend,
            self.resume,
            self.quit,
            self.refresh,
            self.error,
            self.change_scene,
            self.change_mode,
            self.change_view,
            self.toggle_overlay,
            self.help,
        ]
    }

    /// Computes [`Counters::counted`].
    pub fn count(&mut self, action: &Action)
        ensures
            *final(self) == old(self).counted(*action),
    {
        match action {
            Action::Tick => {
                self.tick = self.tick.saturating_add(1);
            },
            Action::Render => {
                self.render = self.render.saturating_add(1);
            },
            Action::Resize(_, _) => {
                self.resize = self.resize.saturating_add(1);
            },
            Action::Suspend => {
                self.suspend = self.suspend.saturating_add(1);
            },
            Action::Resume => {
                self.resume = self.resume.saturating_add(1);
            },
            Action::Quit => {
                self.quit = self.quit.saturating_add(1);
            },
            Action::Refresh => {
                self.refresh = self.refresh.saturating_add(1);
            },
            Action::Error(_) => {
                self.error = self.error.saturating_add(1);
            },
            Action::ChangeScene(_) => {
                self.change_scene = self.change_scene.saturating_add(1);
            },
            Action::ChangeMode(_) => {
                self.change_mode = self.change_mode.saturating_add(1);
            },
            Action::ChangeView(_) => {
                self.change_view = self.change_view.saturating_add(1);
            },
            Action::ToggleOverlay(_) => {
                self.toggle_overlay = self.toggle_overlay.saturating_add(1);
            },
            Action::Help => {
                self.help = self.help.saturating_add(1);
            },
        }
    }
}

} // verus!
