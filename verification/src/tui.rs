//! What the terminal driver reports to the dispatch loop.

use crate::config::keys::{KeyEvent, KeyEventKind, KeyModifiers};
use vstd::prelude::*;

verus! {

/// A button of the mouse.
#[derive(Debug, Copy, Clone, PartialEq, Eq, Hash, Structural)]
pub enum MouseButton {
    Left,
    Right,
    Middle,
}

/// What the mouse did.
#[derive(Debug, Copy, Clone, PartialEq, Eq, Hash, Structural)]
pub enum MouseEventKind {
    Down(MouseButton),
    Up(MouseButton),
    Drag(MouseButton),
    Moved,
    ScrollDown,
    ScrollUp,
    ScrollLeft,
    ScrollRight,
}

/// A mouse event: what the mouse did, where, and the modifier keys held.
#[derive(Debug, Copy, Clone, PartialEq, Eq, Hash, Structural)]
pub struct MouseEvent {
    pub kind: MouseEventKind,
    pub column: u16,
    pub row: u16,
    pub modifiers: KeyModifiers,
}

/// What the terminal itself reports.
#[derive(Debug, Clone)]
pub enum TerminalEvent {
    FocusGained,
    FocusLost,
    Key(KeyEvent),
    Mouse(MouseEvent),
    Paste(String),
    Resize(u16, u16),
}

/// What the terminal driver was woken by.
#[derive(Debug, Clone)]
pub enum Wake {
    /// The terminal reported an event.
    Terminal(TerminalEvent),
    /// Reading the terminal failed.
    ReadFailed,
    /// The stream of terminal events has ended.
    StreamEnded,
    /// The tick timer fired.
    Tick,
    /// The render timer fired.
    Render,
}

/// An event of the terminal driver, as the dispatch loop sees it.
#[derive(Debug, Clone)]
pub enum Event {
    Init,
    Quit,
    Error,
    Closed,
    Tick,
    Render,
    FocusGained,
    FocusLost,
    Paste(String),
    Key(KeyEvent),
    Mouse(MouseEvent),
    Resize(u16, u16),
}

/// The event that the driver passes on for what woke it. Of the keys only
/// the presses are passed on; the end of the stream is not reported.
pub open spec fn passed_on(wake: Wake) -> Option<Event> {
    match wake {
        Wake::Terminal(TerminalEvent::Key(key)) => if key.kind == KeyEventKind::Press {
            Some(Event::Key(key))
        } else {
            None
        },
        Wake::Terminal(TerminalEvent::Mouse(mouse)) => Some(Event::Mouse(mouse)),
        Wake::Terminal(TerminalEvent::Resize(x, y)) => Some(Event::Resize(x, y)),
        Wake::Terminal(TerminalEvent::FocusLost) => Some(Event::FocusLost),
        Wake::Terminal(TerminalEvent::FocusGained) => Some(Event::FocusGained),
        Wake::Terminal(TerminalEvent::Paste(text)) => Some(Event::Paste(text)),
        Wake::ReadFailed => Some(Event::Error),
        Wake::StreamEnded => None,
        Wake::Tick => Some(Event::Tick),
        Wake::Render => Some(Event::Render),
    }
}

impl Event {
    /// Computes [`passed_on`].
    pub fn from_wake(wake: Wake) -> (event: Option<Event>)
        ensures
            event == passed_on(wake),
    {
        match wake {
            Wake::Terminal(TerminalEvent::Key(key)) => {
                if key.kind == KeyEventKind::Press {
                    Some(Event::Key(key))
                } else {
                    None
                }
            },
            Wake::Terminal(TerminalEvent::Mouse(mouse)) => Some(Event::Mouse(mouse)),
            Wake::Terminal(TerminalEvent::Resize(x, y)) => Some(Event::Resize(x, y)),
            Wake::Terminal(TerminalEvent::FocusLost) => Some(Event::FocusLost),
            Wake::Terminal(TerminalEvent::FocusGained) => Some(Event::FocusGained),
            Wake::Terminal(TerminalEvent::Paste(text)) => Some(Event::Paste(text)),
            Wake::ReadFailed => Some(Event::Error),
            Wake::StreamEnded => None,
            Wake::Tick => Some(Event::Tick),
            Wake::Render => Some(Event::Render),
        }
    }

    /// A copy of the event.
    pub fn duplicate(&self) -> (copy: Event)
        ensures
            copy == *self,
    {
        match self {
            Event::Init => Event::Init,
            Event::Quit => Event::Quit,
            Event::Error => Event::Error,
            Event::Closed => Event::Closed,
            Event::Tick => Event::Tick,
            Event::Render => Event::Render,
            Event::FocusGained => Event::FocusGained,
            Event::FocusLost => Event::FocusLost,
            Event::Paste(text) => Event::Paste(text.clone()),
            Event::Key(key) => Event::Key(*key),
            Event::Mouse(mouse) => Event::Mouse(*mouse),
            Event::Resize(x, y) => Event::Resize(*x, *y),
        }
    }
}

/// What to do with a driver task that was told to stop and is looked at once
/// a millisecond.
#[derive(Debug, Copy, Clone, PartialEq, Eq, Hash, Structural)]
pub enum StopStep {
    /// The task has finished.
    Done,
    /// The task runs on: wait another millisecond.
    Wait,
    /// The task has had its grace period: abort it, and wait another
    /// millisecond.
    Abort,
    /// The task has outlived the abort as well: give up.
    GiveUp,
}

/// How long a cancelled driver task is waited for before it is aborted, in
/// milliseconds.
pub const GRACE_MILLIS: u32 = 50;

/// How long a cancelled driver task is waited for at all, in milliseconds.
pub const PATIENCE_MILLIS: u32 = 100;

/// What to do after `waited` milliseconds with a task that has `finished` or
/// not: a task that runs on is aborted after the grace period, every
/// millisecond anew, and given up after the patience.
pub open spec fn stop_decision(waited: u32, finished: bool) -> StopStep {
    if finished {
        StopStep::Done
    } else if waited > PATIENCE_MILLIS {
        StopStep::GiveUp
    } else if waited > GRACE_MILLIS {
        StopStep::Abort
    } else {
        StopStep::Wait
    }
}

/// Computes [`stop_decision`].
pub fn stop_step(waited: u32, finished: bool) -> (step: StopStep)
    ensures
        step == stop_decision(waited, finished),
{
    if finished {
        StopStep::Done
    } else if waited > PATIENCE_MILLIS {
        StopStep::GiveUp
    } else if waited > GRACE_MILLIS {
        StopStep::Abort
    } else {
        StopStep::Wait
    }
}

} // verus!
