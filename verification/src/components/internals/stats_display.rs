//! The statistics of the dispatch loop: counters, rates and the trail.

use crate::action::mode::Mode;
use crate::action::overlay::Overlay;
use crate::action::scene::Scene;
use crate::action::Action;
use crate::channel::mailbox;
use crate::components::internals::buffers::{pushed, Buffers};
use crate::components::internals::counters::{one_more, Counters};
use crate::router::Message;
use crate::text::{chars_of, decimal, decimal_of, string_of};
use std::time::Instant;
use tokio::sync::mpsc::UnboundedSender;
use vstd::prelude::*;

verus! {

/// A point in time of the monotonic clock.
#[verifier::external_type_specification]
#[verifier::external_body]
pub struct ExInstant(Instant);

/// The text in quotes, with the escapes of the `Debug` form of a string.
pub uninterp spec fn quoted(text: Seq<char>) -> Seq<char>;

/// The time now.
///
/// Trusted: the body calls `Instant::now` of the standard library. Nothing
/// is claimed of the result.
#[verifier::external_body]
fn clock() -> (now: Instant) {
    Instant::now()
}

/// The nanoseconds from one point in time to a later one.
///
/// Trusted: the body calls `Instant::duration_since`, which is zero where
/// the second point is not later, and turns the result into nanoseconds
/// with `Duration::as_nanos`. Nothing is claimed of the number.
#[verifier::external_body]
fn nanos_between(earlier: &Instant, later: &Instant) -> (nanos: u128) {
    later.duration_since(*earlier).as_nanos()
}

/// The date and the time now, as text.
///
/// Trusted: the body calls `chrono::Utc::now` and writes the result in its
/// `Debug` form. The call needs a system clock that is not set before the
/// year 1970. Nothing is claimed of the text.
#[verifier::external_body]
fn time_stamp() -> (stamp: String) {
    format!("{:?}", chrono::Utc::now())
}

/// A text in its `Debug` form.
///
/// Trusted: the body writes the text with the `Debug` formatting of `str` of
/// the standard library, which puts it in double quotes and escapes what
/// cannot stand there. The result is a function of the text alone; the
/// contract names it and says no more.
#[verifier::external_body]
fn quote(text: &str) -> (r: String)
    ensures
        r@ == quoted(text@),
{
    format!("{:?}", text)
}

/// The statistics of the dispatch loop. It remembers when the running
/// second of each of the two rates began.
#[derive(Debug)]
pub struct StatsDisplay {
    pub app_start_time: Instant,
    pub render_start_time: Instant,
    pub message_tx_to_self: UnboundedSender<Message>,
}

/// The nanoseconds of a second.
pub const SECOND: u128 = 1_000_000_000;

/// The rate of `frames` frames in `nanos` nanoseconds, in thousandths of a
/// frame per second, rounded down; the greatest number of 32 bits where the
/// rate is greater.
pub open spec fn rate(frames: nat, nanos: nat) -> u32 {
    let milli = frames * 1_000_000_000_000 / nanos;
    if milli > u32::MAX {
        u32::MAX
    } else {
        milli as u32
    }
}

/// What one frame does to the count of frames and to the rate, `elapsed`
/// nanoseconds into the running second: the frame is counted, and once a
/// second is over, the rate becomes that of the frames counted, and the
/// count begins anew.
pub open spec fn window_after(frames: u32, fps: u32, elapsed: u128) -> (u32, u32, bool) {
    if elapsed >= SECOND {
        (0u32, rate(one_more(frames) as nat, elapsed as nat), true)
    } else {
        (one_more(frames), fps, false)
    }
}

/// Computes [`window_after`]. Returns whether a new second begins.
pub fn tick_window(frames: &mut u32, fps: &mut u32, elapsed: u128) -> (restarted: bool)
    ensures
        (*final(frames), *final(fps), restarted) == window_after(*old(frames), *old(fps), elapsed),
{
    *frames = frames.saturating_add(1);
    if elapsed >= SECOND {
        let scaled: u128 = (*frames as u128) * 1_000_000_000_000;
        let milli: u128 = scaled / elapsed;
        *fps = if milli > u32::MAX as u128 {
            u32::MAX
        } else {
            milli as u32
        };
        *frames = 0;
        true
    } else {
        false
    }
}

/// The name of a scene.
pub open spec fn scene_name(scene: Scene) -> Seq<char> {
    match scene {
        Scene::Internals => "Internals"@,
        Scene::Data => "Data"@,
        Scene::Session => "Session"@,
        Scene::About => "About"@,
        Scene::Home => "Home"@,
    }
}

/// The name of a view.
pub open spec fn view_name(view: crate::action::view::View) -> Seq<char> {
    match view {
        crate::action::view::View::A => "A"@,
        crate::action::view::View::L => "L"@,
        crate::action::view::View::R => "R"@,
        crate::action::view::View::Prompt => "Prompt"@,
    }
}

/// The name of a mode.
pub open spec fn mode_name(mode: Mode) -> Seq<char> {
    match mode {
        Mode::Navigation => "Navigation"@,
        Mode::TextInput => "TextInput"@,
    }
}

/// An action as the trail writes it: its name, and its arguments in
/// brackets, the message of an error in quotes.
pub open spec fn action_text(action: Action) -> Seq<char> {
    match action {
        Action::Tick => "Tick"@,
        Action::Render => "Render"@,
        Action::Resize(w, h) => "Resize("@ + decimal(w as nat) + ", "@ + decimal(h as nat) + ")"@,
        Action::Suspend => "Suspend"@,
        Action::Resume => "Resume"@,
        Action::Quit => "Quit"@,
        Action::Refresh => "Refresh"@,
        Action::Error(message) => "Error("@ + quoted(message@) + ")"@,
        Action::ChangeScene(scene) => "ChangeScene("@ + scene_name(scene) + ")"@,
        Action::ChangeView(view) => "ChangeView("@ + view_name(view) + ")"@,
        Action::ToggleOverlay(Overlay::UsageInfo) => "ToggleOverlay(UsageInfo)"@,
        Action::ChangeMode(mode) => "ChangeMode("@ + mode_name(mode) + ")"@,
        Action::Help => "Help"@,
    }
}

/// Appends a literal to a text.
fn push_literal(text: &mut Vec<char>, literal: &str)
    ensures
        final(text)@ == old(text)@ + literal@,
{
    let mut l = chars_of(literal);
    text.append(&mut l);
}

/// Computes [`action_text`].
pub fn describe(action: &Action) -> (text: Vec<char>)
    ensures
        text@ == action_text(*action),
{
    let mut text: Vec<char> = Vec::new();
    match action {
        Action::Tick => push_literal(&mut text, "Tick"),
        Action::Render => push_literal(&mut text, "Render"),
        Action::Resize(w, h) => {
            push_literal(&mut text, "Resize(");
            let mut width = decimal_of(*w as u32);
            text.append(&mut width);
            push_literal(&mut text, ", ");
            let mut height = decimal_of(*h as u32);
            text.append(&mut height);
            push_literal(&mut text, ")");
        },
        Action::Suspend => push_literal(&mut text, "Suspend"),
        Action::Resume => push_literal(&mut text, "Resume"),
        Action::Quit => push_literal(&mut text, "Quit"),
        Action::Refresh => push_literal(&mut text, "Refresh"),
        Action::Error(message) => {
            push_literal(&mut text, "Error(");
            let q = quote(message.as_str());
            let mut q = chars_of(q.as_str());
            text.append(&mut q);
            push_literal(&mut text, ")");
        },
        Action::ChangeScene(scene) => {
            push_literal(&mut text, "ChangeScene(");
            match scene {
                Scene::Internals => push_literal(&mut text, "Internals"),
                Scene::Data => push_literal(&mut text, "Data"),
                Scene::Session => push_literal(&mut text, "Session"),
                Scene::About => push_literal(&mut text, "About"),
                Scene::Home => push_literal(&mut text, "Home"),
            }
            push_literal(&mut text, ")");
        },
        Action::ChangeView(view) => {
            push_literal(&mut text, "ChangeView(");
            match view {
                crate::action::view::View::A => push_literal(&mut text, "A"),
                crate::action::view::View::L => push_literal(&mut text, "L"),
                crate::action::view::View::R => push_literal(&mut text, "R"),
                crate::action::view::View::Prompt => push_literal(&mut text, "Prompt"),
            }
            push_literal(&mut text, ")");
        },
        Action::ToggleOverlay(overlay) => match overlay {
            Overlay::UsageInfo => push_literal(&mut text, "ToggleOverlay(UsageInfo)"),
        },
        Action::ChangeMode(mode) => {
            push_literal(&mut text, "ChangeMode(");
            match mode {
                Mode::Navigation => push_literal(&mut text, "Navigation"),
                Mode::TextInput => push_literal(&mut text, "TextInput"),
            }
            push_literal(&mut text, ")");
        },
        Action::Help => push_literal(&mut text, "Help"),
    }
    text
}

/// The line that the trail gets for an action seen at the time of the
/// stamp: the stamp, a space, and the action.
pub open spec fn trail_line(stamp: Seq<char>, action: Action) -> Seq<char> {
    stamp + " "@ + action_text(action)
}

impl StatsDisplay {
    /// The statistics at the start: both running seconds begin now.
    pub fn new() -> (stats: StatsDisplay) {
        let (message_tx_to_self, _) = mailbox();
        StatsDisplay { app_start_time: clock(), render_start_time: clock(), message_tx_to_self }
    }

    /// Whether an action adds a sample to the histories: a render does,
    /// once more than one tick was counted.
    pub open spec fn samples(counters: Counters, action: Action) -> bool {
        action == Action::Render && counters.tick > 1
    }

    /// Counts an action that was seen at the time of the stamp, adds a
    /// sample of the counters to the histories if the action is a render and
    /// more than one tick was counted, and adds a line to the trail.
    pub fn record(actions: &mut Buffers, counters: &mut Counters, action: &Action, stamp: &str)
        ensures
            *final(counters) == old(counters).counted(*action),
            final(actions).histories() == if StatsDisplay::samples(*old(counters), *action) {
                Buffers::sampled(old(actions).histories(), final(counters).sample())
            } else {
                old(actions).histories()
            },
            final(actions).trail_seen() == pushed(
                old(actions).trail_seen(),
                trail_line(stamp@, *action),
                32,
            ),
    {
        counters.count(action);
        if let Action::Render = action {
            if counters.tick > 1 {
                actions.record(counters);
            }
        }
        let mut line = chars_of(stamp);
        push_literal(&mut line, " ");
        let mut text = describe(action);
        line.append(&mut text);
        actions.note(string_of(&line));
    }

    /// Counts an action seen now: [`StatsDisplay::record`] with the date and
    /// time of the call as the stamp.
    pub fn update(actions: &mut Buffers, counters: &mut Counters, action: &Action)
        ensures
            *final(counters) == old(counters).counted(*action),
            final(actions).histories() == if StatsDisplay::samples(*old(counters), *action) {
                Buffers::sampled(old(actions).histories(), final(counters).sample())
            } else {
                old(actions).histories()
            },
            exists|stamp: Seq<char>|
                final(actions).trail_seen() == pushed(
                    old(actions).trail_seen(),
                    #[trigger] trail_line(stamp, *action),
                    32,
                ),
    {
        let stamp = time_stamp();
        StatsDisplay::record(actions, counters, action, stamp.as_str());
        assert(actions.trail_seen() == pushed(
            old(actions).trail_seen(),
            trail_line(stamp@, *action),
            32,
        ));
    }

    /// Counts a frame of the application loop: [`tick_window`] on the
    /// application's count and rate, with the time since the running second
    /// began. Where a new second begins, it begins now; where none does,
    /// the running second began when it did. The running second of
    /// rendering is left alone.
    pub fn app_tick(&mut self, counters: &mut Counters)
        ensures
            exists|elapsed: u128|
                {
                    let after = #[trigger] window_after(
                        old(counters).app_frames,
                        old(counters).app_fps,
                        elapsed,
                    );
                    &&& (final(counters).app_frames, final(counters).app_fps) == (
                        after.0,
                        after.1,
                    )
                    &&& !after.2 ==> final(self).app_start_time == old(self).app_start_time
                },
            final(self).render_start_time == old(self).render_start_time,
            final(self).message_tx_to_self == old(self).message_tx_to_self,
            *final(counters) == (Counters {
                app_frames: final(counters).app_frames,
                app_fps: final(counters).app_fps,
                ..*old(counters)
            }),
    {
        let now = clock();
        let elapsed = nanos_between(&self.app_start_time, &now);
        let mut frames = counters.app_frames;
        let mut fps = counters.app_fps;
        if tick_window(&mut frames, &mut fps, elapsed) {
            self.app_start_time = now;
        }
        counters.app_frames = frames;
        counters.app_fps = fps;
        assert({
            let after = window_after(old(counters).app_frames, old(counters).app_fps, elapsed);
            &&& (counters.app_frames, counters.app_fps) == (after.0, after.1)
            &&& !after.2 ==> self.app_start_time == old(self).app_start_time
        });
    }

    /// Counts a rendered frame: [`tick_window`] on the count and rate of
    /// rendering, with the time since the running second began. Where a new
    /// second begins, it begins now; where none does, the running second
    /// began when it did. The running second of the application loop is
    /// left alone.
    pub fn render_tick(&mut self, counters: &mut Counters)
        ensures
            exists|elapsed: u128|
                {
                    let after = #[trigger] window_after(
                        old(counters).render_frames,
                        old(counters).render_fps,
                        elapsed,
                    );
                    &&& (final(counters).render_frames, final(counters).render_fps) == (
                        after.0,
                        after.1,
                    )
                    &&& !after.2 ==> final(self).render_start_time == old(self).render_start_time
                },
            final(self).app_start_time == old(self).app_start_time,
            final(self).message_tx_to_self == old(self).message_tx_to_self,
            *final(counters) == (Counters {
                render_frames: final(counters).render_frames,
                render_fps: final(counters).render_fps,
                ..*old(counters)
            }),
    {
        let now = clock();
        let elapsed = nanos_between(&self.render_start_time, &now);
        let mut frames = counters.render_frames;
        let mut fps = counters.render_fps;
        if tick_window(&mut frames, &mut fps, elapsed) {
            self.render_start_time = now;
        }
        counters.render_frames = frames;
        counters.render_fps = fps;
        assert({
            let after = window_after(
                old(counters).render_frames,
                old(counters).render_fps,
                elapsed,
            );
            &&& (counters.render_frames, counters.render_fps) == (after.0, after.1)
            &&& !after.2 ==> self.render_start_time == old(self).render_start_time
        });
    }
}

} // verus!
