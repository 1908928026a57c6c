//! The scene that shows how the application itself is doing.

pub mod buffers;
pub mod counters;
pub mod state_display;
pub mod stats_display;

use crate::action::mode::Mode;
use crate::action::scene::Scene;
use crate::action::Action;
use crate::channel::mailbox;
use crate::components::{mode_after, next_mode, next_visibility, visibility_after, State};
use crate::router::Message;
use buffers::{pushed, Buffers};
use counters::Counters;
use state_display::StateDisplay;
use stats_display::{trail_line, window_after, StatsDisplay};
use tokio::sync::mpsc::UnboundedSender;
use vstd::prelude::*;

verus! {

/// The internals scene.
pub struct Internals {
    pub state: State,
    pub message_tx_to_self: UnboundedSender<Message>,
    pub state_display: StateDisplay,
    pub stats_display: StatsDisplay,
    pub actions: Buffers,
    pub counters: Counters,
    pub mode: Mode,
}

impl Internals {
    /// Whether the scene is as at the start: shown, in navigation, every
    /// counter at zero, every history and the trail empty, and the state
    /// display with its receiver, nothing asked and nothing remembered.
    pub open spec fn at_start(self) -> bool {
        &&& self.state == State::Visible
        &&& self.mode == Mode::Navigation
        &&& self.counters == Counters::zero()
        &&& self.actions.histories() == Seq::new(15, |i: int| Seq::<u32>::empty())
        &&& self.actions.trail_seen() == Seq::<Seq<char>>::empty()
        &&& self.state_display.at_start()
    }

    /// The internals scene at the start, as [`Internals::at_start`] says,
    /// its state display sending through `tx`.
    pub fn new(tx: UnboundedSender<Message>) -> (internals: Internals)
        ensures
            internals.at_start(),
            internals.state_display.message_tx_to_router == tx,
    {
        let (message_tx_to_self, _) = mailbox();
        let internals = Internals {
            state: State::Visible,
            message_tx_to_self,
            state_display: StateDisplay::new(tx),
            stats_display: StatsDisplay::new(),
            actions: Buffers::default(),
            counters: Counters::default(),
            mode: Mode::default(),
        };
        assert(internals.actions.histories() =~= Seq::new(15, |i: int| Seq::<u32>::empty()));
        internals
    }

    /// A sender of the state display's mailbox, to register with the
    /// router.
    pub fn get_state_display_tx_handle(&self) -> (tx: UnboundedSender<Message>)
        ensures
            tx == self.state_display.message_tx_to_self,
    {
        self.state_display.get_tx_handle()
    }

    /// The counters once the frame of an action is counted: a tick counts a
    /// frame of the application loop, a render a rendered frame, each
    /// `elapsed` nanoseconds into its running second.
    pub open spec fn framed(counters: Counters, action: Action, elapsed: u128) -> Counters {
        match action {
            Action::Tick => {
                let after = window_after(counters.app_frames, counters.app_fps, elapsed);
                Counters { app_frames: after.0, app_fps: after.1, ..counters }
            },
            Action::Render => {
                let after = window_after(counters.render_frames, counters.render_fps, elapsed);
                Counters { render_frames: after.0, render_fps: after.1, ..counters }
            },
            _ => counters,
        }
    }

    /// Whether `self` is the internals scene that `before` may become by
    /// taking note of the action. A change of mode sets the mode; in
    /// navigation a change of scene shows the internals scene or hides it.
    /// The frame of a tick or of a render is counted, some time into its
    /// running second, then the action itself; a render adds a sample to
    /// the histories once more than one tick was counted; and the trail
    /// gets a line for the action, under some time stamp. The state display
    /// and the mailbox stay, and so does each running second but the one
    /// that a tick or a render counts a frame of.
    pub open spec fn follows(self, before: Internals, action: Action) -> bool {
        &&& self.message_tx_to_self == before.message_tx_to_self
        &&& self.state_display == before.state_display
        &&& self.stats_display.message_tx_to_self == before.stats_display.message_tx_to_self
        &&& action != Action::Tick ==> self.stats_display.app_start_time
            == before.stats_display.app_start_time
        &&& action != Action::Render ==> self.stats_display.render_start_time
            == before.stats_display.render_start_time
        &&& self.mode == mode_after(before.mode, action)
        &&& self.state == visibility_after(before.state, self.mode, Scene::Internals, action)
        &&& exists|elapsed: u128|
            self.counters == (#[trigger] Internals::framed(
                before.counters,
                action,
                elapsed,
            )).counted(action)
        &&& self.actions.histories() == if StatsDisplay::samples(before.counters, action) {
            Buffers::sampled(before.actions.histories(), self.counters.sample())
        } else {
            before.actions.histories()
        }
        &&& exists|stamp: Seq<char>|
            self.actions.trail_seen() == pushed(
                before.actions.trail_seen(),
                #[trigger] trail_line(stamp, action),
                32,
            )
    }

    /// Takes note of an action, as [`Internals::follows`] says. No action
    /// is made in answer.
    pub fn update(&mut self, action: &Action) -> (answer: Option<Action>)
        ensures
            answer is None,
            final(self).follows(*old(self), *action),
    {
        self.mode = next_mode(self.mode, action);
        match action {
            Action::Tick => {
                self.stats_display.app_tick(&mut self.counters);
                proof {
                    let elapsed = choose|elapsed: u128|
                        {
                            let after = #[trigger] window_after(
                                old(self).counters.app_frames,
                                old(self).counters.app_fps,
                                elapsed,
                            );
                            &&& (self.counters.app_frames, self.counters.app_fps) == (
                                after.0,
                                after.1,
                            )
                            &&& !after.2 ==> self.stats_display.app_start_time == old(
                                self,
                            ).stats_display.app_start_time
                        };
                    assert(self.counters == Internals::framed(
                        old(self).counters,
                        *action,
                        elapsed,
                    ));
                }
            },
            Action::Render => {
                self.stats_display.render_tick(&mut self.counters);
                proof {
                    let elapsed = choose|elapsed: u128|
                        {
                            let after = #[trigger] window_after(
                                old(self).counters.render_frames,
                                old(self).counters.render_fps,
                                elapsed,
                            );
                            &&& (self.counters.render_frames, self.counters.render_fps) == (
                                after.0,
                                after.1,
                            )
                            &&& !after.2 ==> self.stats_display.render_start_time == old(
                                self,
                            ).stats_display.render_start_time
                        };
                    assert(self.counters == Internals::framed(
                        old(self).counters,
                        *action,
                        elapsed,
                    ));
                }
            },
            _ => {
                assert(self.counters == Internals::framed(old(self).counters, *action, 0));
            },
        }
        self.state = next_visibility(self.state, self.mode, Scene::Internals, action);
        StatsDisplay::update(&mut self.actions, &mut self.counters, action);
        None
    }
}

} // verus!
