//! The decisions of the log view around the filter and the window cache:
//! whether it is filtering, whether it already holds the whole log, and which
//! slice of the log to ask for.
use crate::engine::SLICE_SIZE;
use vstd::prelude::*;

verus! {

/// The abstract state of the log view.
pub struct RevlogView {
    pub visible: bool,
    pub is_filtering: bool,
    pub has_all_commits: bool,
}

/// What the list must do after the filter text changed.
#[derive(Debug, PartialEq, Eq)]
pub struct FilterChange {
    /// The filter the list applies from now on.
    pub filter: Option<String>,
    /// Whether the log must be fetched whole first.
    pub refresh: bool,
}

/// A slice of the log to read: `amount` identifiers from `start`. The
/// entries read are held as a window whose first entry stands at
/// `window_start` in the log, which is always `start`.
#[derive(Clone, Copy, Debug, PartialEq, Eq, Structural)]
pub struct LogRequest {
    pub start: usize,
    pub amount: usize,
    pub window_start: usize,
}

/// The log view's state.
pub struct Revlog {
    visible: bool,
    is_filtering: bool,
    has_all_commits: bool,
}

impl View for Revlog {
    type V = RevlogView;

    closed spec fn view(&self) -> RevlogView {
        RevlogView { visible: self.visible, is_filtering: self.is_filtering, has_all_commits: self.has_all_commits }
    }
}

/// The position half a slice above `selection`, or the top of the log.
pub open spec fn window_start_for(selection: usize) -> usize {
    if selection >= SLICE_SIZE / 2 {
        (selection - SLICE_SIZE / 2) as usize
    } else {
        0
    }
}

impl Revlog {
    /// A hidden view that does not filter.
    pub fn new() -> (r: Self)
        ensures
            r@ == (RevlogView { visible: false, is_filtering: false, has_all_commits: false }),
    {
        Revlog { visible: false, is_filtering: false, has_all_commits: false }
    }

    pub fn is_visible(&self) -> (r: bool)
        ensures
            r == self@.visible,
    {
        self.visible
    }

    /// Shows or hides the view.
    pub fn set_visible(&mut self, visible: bool)
        ensures
            final(self)@ == (RevlogView { visible, ..old(self)@ }),
    {
        self.visible = visible;
    }

    /// Whether the view is filtering.
    pub fn is_filtering(&self) -> (r: bool)
        ensures
            r == self@.is_filtering,
    {
        self.is_filtering
    }

    /// Takes in new filter text. Empty text ends filtering. Other text
    /// starts it; the whole log is fetched first unless it already was.
    pub fn filter(&mut self, filter_by: String) -> (r: FilterChange)
        ensures
            filter_by@.len() == 0 ==> final(self)@ == (RevlogView {
                is_filtering: false,
                has_all_commits: false,
                ..old(self)@
            }) && r.filter is None && !r.refresh,
            filter_by@.len() != 0 ==> final(self)@ == (RevlogView {
                is_filtering: true,
                has_all_commits: true,
                ..old(self)@
            }) && r.filter == Some(filter_by) && r.refresh == !old(self)@.has_all_commits,
    {
        if filter_by.as_str().is_empty() {
            self.is_filtering = false;
            self.has_all_commits = false;
            FilterChange { filter: None, refresh: false }
        } else {
            self.is_filtering = true;
            let refresh = !self.has_all_commits;
            self.has_all_commits = true;
            FilterChange { filter: Some(filter_by), refresh }
        }
    }

    /// The slice of the log to read for the window around `selection`:
    /// the whole log while filtering, otherwise one slice that starts half a
    /// slice above the selection.
    pub fn commits_request(&self, selection: usize) -> (r: LogRequest)
        ensures
            r.window_start == r.start,
            self@.is_filtering ==> r.start == 0 && r.amount == usize::MAX,
            !self@.is_filtering ==> r.start == window_start_for(selection) && r.amount == SLICE_SIZE,
    {
        if self.is_filtering {
            LogRequest { start: 0, amount: usize::MAX, window_start: 0 }
        } else {
            let want_min = if selection >= SLICE_SIZE / 2 { selection - SLICE_SIZE / 2 } else { 0 };
            LogRequest { start: want_min, amount: SLICE_SIZE, window_start: want_min }
        }
    }

    /// Whether the window must be read again: only a visible view reads,
    /// when the cache misses the selection or the log changed.
    pub fn should_fetch_commits(&self, needs_data: bool, log_changed: bool) -> (r: bool)
        ensures
            r == (self@.visible && (needs_data || log_changed)),
    {
        self.visible && (needs_data || log_changed)
    }
}

} // verus!
