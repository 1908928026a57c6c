//! The list of jobs and its bar of tabs.

use crate::action::view;
use vstd::prelude::*;
use vstd::std_specs::convert::FromSpecImpl;

verus! {

/// The views of the list of jobs.
#[derive(Debug, Copy, Clone, PartialEq, Eq, Hash, Structural)]
pub enum View {
    All,
    Remote,
    Local,
    Prompt,
}

impl Default for View {
    fn default() -> (view: View)
        ensures
            view == View::All,
    {
        View::All
    }
}

impl View {
    /// The tab of a view. The prompt has no tab of its own and counts as the
    /// first.
    pub open spec fn tab(self) -> usize {
        match self {
            View::All => 0,
            View::Remote => 1,
            View::Local => 2,
            View::Prompt => 0,
        }
    }

    /// The view of the jobs that a view of the application stands for.
    pub open spec fn of(k: view::View) -> View {
        match k {
            view::View::A => View::All,
            view::View::R => View::Remote,
            view::View::L => View::Local,
            view::View::Prompt => View::Prompt,
        }
    }
}

impl From<View> for usize {
    fn from(v: View) -> (tab: usize) {
        match v {
            View::All => 0,
            View::Remote => 1,
            View::Local => 2,
            View::Prompt => 0,
        }
    }
}

impl FromSpecImpl<View> for usize {
    open spec fn obeys_from_spec() -> bool {
        true
    }

    open spec fn from_spec(v: View) -> usize {
        v.tab()
    }
}

impl From<view::View> for View {
    fn from(k: view::View) -> (v: View) {
        match k {
            view::View::A => View::All,
            view::View::R => View::Remote,
            view::View::L => View::Local,
            view::View::Prompt => View::Prompt,
        }
    }
}

impl FromSpecImpl<view::View> for View {
    open spec fn obeys_from_spec() -> bool {
        true
    }

    open spec fn from_spec(k: view::View) -> View {
        View::of(k)
    }
}

/// The names of the tabs.
#[derive(Debug, Copy, Clone, PartialEq, Eq, Hash, Structural)]
pub enum Tab {
    All,
    Remote,
    Local,
}

/// The list of jobs: it remembers which view is chosen.
#[derive(Debug)]
pub struct Jobs {
    pub view: View,
}

impl Jobs {
    /// The list of jobs at the start: every job is listed.
    pub fn new() -> (jobs: Jobs)
        ensures
            jobs.view == View::All,
    {
        Jobs { view: View::default() }
    }

    /// Chooses the view that a view of the application stands for.
    pub fn set_view(&mut self, k: view::View)
        ensures
            final(self).view == View::of(k),
    {
        self.view = View::from(k);
    }

    /// The tabs in the order in which they are drawn: the chosen view
    /// first, the others behind it in their round. The prompt counts as the
    /// view of all jobs.
    pub open spec fn tabs_of(view: View) -> Seq<Tab> {
        match view {
            View::All | View::Prompt => seq![Tab::All, Tab::Remote, Tab::Local],
            View::Remote => seq![Tab::Remote, Tab::Local, Tab::All],
            View::Local => seq![Tab::Local, Tab::All, Tab::Remote],
        }
    }

    /// Computes [`Jobs::tabs_of`] for the chosen view.
    pub fn tabs(&self) -> (tabs: Vec<Tab>)
        ensures
            vstd::view::View::view(&tabs) == Jobs::tabs_of(self.view),
    {
        let mut tabs: Vec<Tab> = Vec::new();
        match self.view {
            View::All | View::Prompt => {
                tabs.push(Tab::All);
                tabs.push(Tab::Remote);
                tabs.push(Tab::Local);
            },
            View::Remote => {
                tabs.push(Tab::Remote);
                tabs.push(Tab::Local);
                tabs.push(Tab::All);
            },
            View::Local => {
                tabs.push(Tab::Local);
                tabs.push(Tab::All);
                tabs.push(Tab::Remote);
            },
        }
        tabs
    }
}

} // verus!
