//! The commit filterer: one owned object that holds the current run of a
//! filter over the log, its matches, and the rules by which the worker that
//! feeds it records goes on, waits, retries or stops.
//!
//! Each run has a generation. The worker of a run hands in what it fetched
//! together with the generation it was started with; what a superseded or
//! stopped run hands in is dropped, so the result buffer only ever holds the
//! matches of the newest run.
use crate::flags::FilterBy;
use crate::matching::{
    commit_matches, filter_spec, is_match, lemma_filter_all_match, lemma_filter_append,
    lemma_filter_index_map, tags_wf, CommitInfo, TagIndex,
};
use crate::text::{truncate_to_width, truncated_to_width};
use std::sync::Arc;
use vstd::prelude::*;

verus! {

/// How many identifiers a worker asks the log for at a time.
pub const SLICE_SIZE: usize = 1200;

/// What `fetch` reports of the current run.
#[derive(Clone, Copy, Debug, PartialEq, Eq, Structural)]
pub enum FilterStatus {
    Filtering,
    Finished,
}

/// Where the filterer stands.
#[derive(Clone, Copy, Debug, PartialEq, Eq, Structural)]
pub enum RunState {
    /// No run was ever started.
    Idle,
    /// A run is taking in records.
    Running,
    /// The run reached the end of the log.
    Finished,
    /// The run was stopped before the end of the log.
    Stopped,
}

/// What the worker of a run does next.
#[derive(Clone, Copy, Debug, PartialEq, Eq, Structural)]
pub enum FilterAction {
    /// The run is over (finished, stopped or superseded): leave the loop.
    Exit,
    /// Fetching failed: wait the long back-off, then ask again at the same cursor.
    Retry,
    /// A batch was taken in: announce the change, wait the short poll
    /// interval, and go on at the next cursor.
    Continue,
}

/// The abstract state of a filterer.
pub struct FilterState {
    pub generation: u64,
    pub state: RunState,
    /// Position in the log of the next slice to ask for.
    pub cursor: usize,
    pub expr: Seq<Vec<(String, FilterBy)>>,
    pub tags: Option<TagIndex>,
    /// The matches of the current run, in log order.
    pub results: Seq<CommitInfo>,
    /// Every record the current run has taken in, in log order.
    pub scanned: Seq<CommitInfo>,
}

/// What can happen to a filterer while runs go on.
pub enum FilterEvent {
    /// The worker of run `generation` hands in the records it read.
    Records { generation: u64, records: Seq<CommitInfo>, log_pending: bool },
    /// `stop_filter` is called.
    Stop,
}

/// The results are those records the current run took in that match.
pub open spec fn state_wf(s: FilterState) -> bool {
    &&& s.results == filter_spec(s.scanned, s.tags, s.expr)
    &&& tags_wf(s.tags)
}

/// `gen` names the run that is taking in records.
pub open spec fn is_current(s: FilterState, gen: u64) -> bool {
    s.generation == gen && s.state == RunState::Running
}

/// The cursor after a batch: one slice further, kept within `usize`.
pub open spec fn next_cursor(c: usize) -> usize {
    if c + SLICE_SIZE <= usize::MAX {
        (c + SLICE_SIZE) as usize
    } else {
        usize::MAX
    }
}

/// The state once `stop_filter` has run.
pub open spec fn stopped(s: FilterState) -> FilterState {
    if s.state == RunState::Finished {
        s
    } else {
        FilterState { state: RunState::Stopped, ..s }
    }
}

/// The generation that follows `g`.
pub open spec fn next_generation(g: u64) -> u64 {
    if g == u64::MAX {
        0
    } else {
        (g + 1) as u64
    }
}

/// The state once a run with expression `expr` and tag snapshot `tags` has
/// been started.
pub open spec fn started(s: FilterState, expr: Seq<Vec<(String, FilterBy)>>, tags: Option<TagIndex>) -> FilterState {
    FilterState {
        generation: next_generation(s.generation),
        state: RunState::Running,
        cursor: 0,
        expr,
        tags,
        results: Seq::empty(),
        scanned: Seq::empty(),
    }
}

/// The state once the worker of run `gen` has handed in `records`.
pub open spec fn delivered(s: FilterState, gen: u64, records: Seq<CommitInfo>, log_pending: bool) -> FilterState {
    if !is_current(s, gen) {
        s
    } else if records.len() == 0 && !log_pending {
        FilterState { state: RunState::Finished, ..s }
    } else {
        FilterState {
            cursor: next_cursor(s.cursor),
            results: s.results + filter_spec(records, s.tags, s.expr),
            scanned: s.scanned + records,
            ..s
        }
    }
}

/// The state after one event.
pub open spec fn after_event(s: FilterState, e: FilterEvent) -> FilterState {
    match e {
        FilterEvent::Records { generation, records, log_pending } => delivered(s, generation, records, log_pending),
        FilterEvent::Stop => stopped(s),
    }
}

/// The state after a series of events, in order.
pub open spec fn after_events(s: FilterState, es: Seq<FilterEvent>) -> FilterState
    decreases es.len(),
{
    if es.len() == 0 {
        s
    } else {
        after_events(after_event(s, es[0]), es.drop_first())
    }
}

/// Record `c` was handed in by the worker of run `gen` in one of `es`.
pub open spec fn handed_in_by(c: CommitInfo, es: Seq<FilterEvent>, gen: u64) -> bool {
    exists|j: int|
        0 <= j < es.len() && match #[trigger] es[j] {
            FilterEvent::Records { generation, records, .. } => generation == gen && records.contains(c),
            FilterEvent::Stop => false,
        }
}

/// The filterer.
pub struct AsyncCommitFilterer {
    generation: u64,
    state: RunState,
    cursor: usize,
    filter_strings: Arc<Vec<Vec<(String, FilterBy)>>>,
    tags: Arc<Option<TagIndex>>,
    filtered_commits: Vec<CommitInfo>,
    scanned: Ghost<Seq<CommitInfo>>,
}

impl View for AsyncCommitFilterer {
    type V = FilterState;

    closed spec fn view(&self) -> FilterState {
        FilterState {
            generation: self.generation,
            state: self.state,
            cursor: self.cursor,
            expr: self.filter_strings@,
            tags: *self.tags,
            results: self.filtered_commits@,
            scanned: self.scanned@,
        }
    }
}

impl AsyncCommitFilterer {
    pub open spec fn wf(&self) -> bool {
        state_wf(self@)
    }

    /// A filterer with no run and no results.
    pub fn new() -> (r: Self)
        ensures
            r.wf(),
            r@.generation == 0,
            r@.state == RunState::Idle,
            r@.results == Seq::<CommitInfo>::empty(),
            r@.scanned == Seq::<CommitInfo>::empty(),
    {
        AsyncCommitFilterer {
            generation: 0,
            state: RunState::Idle,
            cursor: 0,
            filter_strings: Arc::new(Vec::new()),
            tags: Arc::new(None),
            filtered_commits: Vec::new(),
            scanned: Ghost(Seq::empty()),
        }
    }

    /// True while a run is taking in records.
    pub fn is_pending(&self) -> (r: bool)
        ensures
            r == (self@.state == RunState::Running),
    {
        self.state == RunState::Running
    }

    /// `Finished` once the run reached the end of the log or was stopped.
    pub fn fetch(&self) -> (r: FilterStatus)
        ensures
            r == FilterStatus::Finished <==> (self@.state == RunState::Finished || self@.state == RunState::Stopped),
    {
        match self.state {
            RunState::Finished | RunState::Stopped => FilterStatus::Finished,
            _ => FilterStatus::Filtering,
        }
    }

    /// The number of matches of the current run.
    pub fn count(&self) -> (r: usize)
        requires
            self.wf(),
        ensures
            r == self@.results.len(),
    {
        self.filtered_commits.len()
    }

    /// The records of `vec_commit_info` that match the expression
    /// `filter_strings`, in their order. The expression is a list of
    /// AND-groups of clauses: `A || B && C && D || E` is
    /// `[[A], [B, C, D], [E]]`.
    pub fn filter(
        vec_commit_info: Vec<CommitInfo>,
        tags: &Option<TagIndex>,
        filter_strings: &[Vec<(String, FilterBy)>],
    ) -> (r: Vec<CommitInfo>)
        requires
            tags_wf(*tags),
        ensures
            r@ == filter_spec(vec_commit_info@, *tags, filter_strings@),
    {
        let mut out: Vec<CommitInfo> = Vec::new();
        let mut i: usize = 0;
        while i < vec_commit_info.len()
            invariant
                0 <= i <= vec_commit_info@.len(),
                tags_wf(*tags),
                out@ == filter_spec(vec_commit_info@.subrange(0, i as int), *tags, filter_strings@),
            decreases vec_commit_info@.len() - i,
        {
            let ghost done = vec_commit_info@.subrange(0, i as int);
            let ghost next = vec_commit_info@.subrange(0, i + 1);
            assert(next.drop_last() =~= done);
            assert(next.last() == vec_commit_info@[i as int]);
            if is_match(&vec_commit_info[i], tags, filter_strings) {
                out.push(vec_commit_info[i].clone());
            }
            i = i + 1;
        }
        assert(vec_commit_info@.subrange(0, i as int) =~= vec_commit_info@);
        out
    }

    /// Whether some clause of the expression looks at tags, so that a tag
    /// snapshot is needed to run it.
    pub fn needs_tags(filter_strings: &[Vec<(String, FilterBy)>]) -> (r: bool)
        ensures
            r == exists|g: int, k: int|
                0 <= g < filter_strings@.len() && 0 <= k < filter_strings@[g]@.len()
                    && (#[trigger] filter_strings@[g]@[k]).1.tags,
    {
        let mut g: usize = 0;
        while g < filter_strings.len()
            invariant
                0 <= g <= filter_strings@.len(),
                forall|a: int, k: int|
                    0 <= a < g && 0 <= k < filter_strings@[a]@.len() ==> !(#[trigger] filter_strings@[a]@[k]).1.tags,
            decreases filter_strings@.len() - g,
        {
            let group = &filter_strings[g];
            let mut k: usize = 0;
            while k < group.len()
                invariant
                    0 <= g < filter_strings@.len(),
                    *group == filter_strings@[g as int],
                    0 <= k <= group@.len(),
                    forall|a: int, j: int|
                        0 <= a < g && 0 <= j < filter_strings@[a]@.len() ==> !(#[trigger] filter_strings@[a]@[j]).1.tags,
                    forall|j: int| 0 <= j < k ==> !(#[trigger] group@[j]).1.tags,
                decreases group@.len() - k,
            {
                if group[k].1.tags {
                    assert(filter_strings@[g as int]@[k as int].1.tags);
                    return true;
                }
                k = k + 1;
            }
            g = g + 1;
        }
        false
    }

    /// Ends the current run, if any: the worker leaves at its next check,
    /// and from now on nothing it hands in is kept. The matches so far stay.
    pub fn stop_filter(&mut self)
        requires
            old(self).wf(),
        ensures
            final(self).wf(),
            final(self)@ == stopped(old(self)@),
    {
        if self.state != RunState::Finished {
            self.state = RunState::Stopped;
        }
    }

    /// Stops the current run and starts a new one with expression
    /// `filter_strings`, under a new generation. The handle returned lets
    /// the run's worker filter what it reads without holding the filterer,
    /// and names the run's generation, which the worker hands in. `tags` is the
    /// outcome of fetching the tag snapshot; when that failed, the old run
    /// is stopped all the same, no run starts, and the error is returned.
    /// A snapshot must hold at most one entry per commit.
    pub fn start_filter(
        &mut self,
        filter_strings: Vec<Vec<(String, FilterBy)>>,
        tags: Result<Option<TagIndex>, String>,
    ) -> (r: Result<FilterRun, String>)
        requires
            old(self).wf(),
            tags matches Ok(t) ==> tags_wf(t),
        ensures
            final(self).wf(),
            match tags {
                Ok(t) => r matches Ok(run) && run@ == (RunView {
                    generation: final(self)@.generation,
                    expr: filter_strings@,
                    tags: t,
                }) && final(self)@ == started(old(self)@, filter_strings@, t),
                Err(e) => r == Err::<FilterRun, String>(e) && final(self)@ == stopped(old(self)@),
            },
    {
        self.stop_filter();
        match tags {
            Err(e) => Err(e),
            Ok(t) => {
                self.generation = if self.generation == u64::MAX { 0 } else { self.generation + 1 };
                self.state = RunState::Running;
                self.cursor = 0;
                let expr = Arc::new(filter_strings);
                let snapshot = Arc::new(t);
                self.filter_strings = share(&expr);
                self.tags = share(&snapshot);
                self.filtered_commits = Vec::new();
                self.scanned = Ghost(Seq::empty());
                Ok(FilterRun { generation: self.generation, filter_strings: expr, tags: snapshot })
            },
        }
    }

    /// The cancellation check of a worker: the cursor to fetch at when run
    /// `gen` is still the one taking in records, `None` when it must leave.
    pub fn poll(&self, gen: u64) -> (r: Option<usize>)
        ensures
            r == (if is_current(self@, gen) { Some(self@.cursor) } else { None::<usize> }),
    {
        if self.generation == gen && self.state == RunState::Running {
            Some(self.cursor)
        } else {
            None
        }
    }

    /// What the worker of run `gen` does after it failed to fetch a slice or
    /// to read the commits of one: retry at the same cursor, or leave.
    pub fn on_fetch_failed(&self, gen: u64) -> (r: FilterAction)
        ensures
            r == (if is_current(self@, gen) { FilterAction::Retry } else { FilterAction::Exit }),
    {
        if self.generation == gen && self.state == RunState::Running {
            FilterAction::Retry
        } else {
            FilterAction::Exit
        }
    }

    /// Takes in the records that the worker of run `gen` read at the cursor.
    /// A stale run changes nothing. No records while the log is complete
    /// ends the run. Otherwise the matches are appended and the cursor moves
    /// one slice on.
    pub fn on_records(&mut self, gen: u64, records: Vec<CommitInfo>, log_pending: bool) -> (r: FilterAction)
        requires
            old(self).wf(),
        ensures
            final(self).wf(),
            final(self)@ == delivered(old(self)@, gen, records@, log_pending),
            r == (if is_current(old(self)@, gen) && (records@.len() > 0 || log_pending) {
                FilterAction::Continue
            } else {
                FilterAction::Exit
            }),
    {
        if !(self.generation == gen && self.state == RunState::Running) {
            return FilterAction::Exit;
        }
        if records.len() == 0 && !log_pending {
            self.state = RunState::Finished;
            return FilterAction::Exit;
        }
        let ghost recs = records@;
        let filtered = Self::filter(records, &*self.tags, self.filter_strings.as_slice());
        self.take_in(filtered, Ghost(recs));
        FilterAction::Continue
    }

    /// Takes in a batch that the worker of its run filtered: the same as
    /// `on_records` with the batch's records. The batch must have been
    /// filtered by the handle of the run it names, when that run is current.
    pub fn on_batch(&mut self, batch: FilteredBatch, log_pending: bool) -> (r: FilterAction)
        requires
            old(self).wf(),
            batch.wf(),
            is_current(old(self)@, batch@.generation) ==> batch@.expr == old(self)@.expr && batch@.tags == old(self)@.tags,
        ensures
            final(self).wf(),
            final(self)@ == delivered(old(self)@, batch@.generation, batch@.records, log_pending),
            r == (if is_current(old(self)@, batch@.generation) && (batch@.records.len() > 0 || log_pending) {
                FilterAction::Continue
            } else {
                FilterAction::Exit
            }),
    {
        if !(self.generation == batch.generation && self.state == RunState::Running) {
            return FilterAction::Exit;
        }
        if batch.was_empty && !log_pending {
            self.state = RunState::Finished;
            return FilterAction::Exit;
        }
        self.take_in(batch.matches, batch.records);
        FilterAction::Continue
    }

    fn take_in(&mut self, matches: Vec<CommitInfo>, records: Ghost<Seq<CommitInfo>>)
        requires
            old(self).wf(),
            old(self).state == RunState::Running,
            matches@ == filter_spec(records@, old(self)@.tags, old(self)@.expr),
        ensures
            final(self).wf(),
            final(self)@ == (FilterState {
                cursor: next_cursor(old(self)@.cursor),
                results: old(self)@.results + filter_spec(records@, old(self)@.tags, old(self)@.expr),
                scanned: old(self)@.scanned + records@,
                ..old(self)@
            }),
    {
        let ghost before = self.scanned@;
        let mut matches = matches;
        self.filtered_commits.append(&mut matches);
        proof {
            lemma_filter_append(before, records@, self@.tags, self@.expr);
        }
        self.scanned = Ghost(before + records@);
        self.cursor = if self.cursor <= usize::MAX - SLICE_SIZE { self.cursor + SLICE_SIZE } else { usize::MAX };
    }

    /// A copy of the matches at positions `[min(start, len), min(start + amount, len))`.
    pub fn copy_filter_items(&self, start: usize, amount: usize) -> (r: Vec<CommitInfo>)
        ensures
            r@ == self@.results.subrange(
                window_start(self@.results.len(), start),
                window_end(self@.results.len(), start, amount),
            ),
    {
        let len = self.filtered_commits.len();
        let min = if start < len { start } else { len };
        let max = if amount <= len - min { min + amount } else { len };
        let mut out: Vec<CommitInfo> = Vec::new();
        let mut i: usize = min;
        while i < max
            invariant
                min <= i <= max <= len,
                len == self@.results.len(),
                min == window_start(len as nat, start),
                max == window_end(len as nat, start, amount),
                out@ == self@.results.subrange(min as int, i as int),
            decreases max - i,
        {
            out.push(self.filtered_commits[i].clone());
            assert(self@.results.subrange(min as int, i + 1) =~= self@.results.subrange(min as int, i as int).push(self@.results[i as int]));
            i = i + 1;
        }
        out
    }

    /// A copy of the matches at positions `[min(start, len), min(start + amount, len))`,
    /// each message cut to `message_length_limit` columns of display width.
    pub fn get_filter_items(&self, start: usize, amount: usize, message_length_limit: usize) -> (r: Vec<CommitInfo>)
        ensures
            r@.len() == window_end(self@.results.len(), start, amount) - window_start(self@.results.len(), start),
            forall|k: int| 0 <= k < r@.len() ==> is_shortened(
                #[trigger] r@[k],
                self@.results[window_start(self@.results.len(), start) + k],
                message_length_limit,
            ),
    {
        let items = self.copy_filter_items(start, amount);
        shorten_messages(items, message_length_limit)
    }
}

/// `items` with each message cut to `message_length_limit` columns of
/// display width, the other fields unchanged.
pub fn shorten_messages(items: Vec<CommitInfo>, message_length_limit: usize) -> (r: Vec<CommitInfo>)
    ensures
        r@.len() == items@.len(),
        forall|k: int| 0 <= k < r@.len() ==> is_shortened(#[trigger] r@[k], items@[k], message_length_limit),
{
    let mut out: Vec<CommitInfo> = Vec::new();
    let mut i: usize = 0;
    while i < items.len()
        invariant
            0 <= i <= items@.len(),
            out@.len() == i,
            forall|k: int| 0 <= k < i ==> is_shortened(#[trigger] out@[k], items@[k], message_length_limit),
        decreases items@.len() - i,
    {
        let c = &items[i];
        out.push(CommitInfo {
            id: c.id.clone(),
            short_id: c.short_id.clone(),
            author: c.author.clone(),
            message: truncate_to_width(c.message.as_str(), message_length_limit),
            time: c.time,
        });
        i = i + 1;
    }
    out
}

/// Relies on `Arc::clone`: a new pointer to the same allocation, so to the
/// same value.
#[verifier::external_body]
fn share<T>(a: &Arc<T>) -> (r: Arc<T>)
    ensures
        r == *a,
{
    Arc::clone(a)
}

/// The abstract handle of a run.
pub struct RunView {
    pub generation: u64,
    pub expr: Seq<Vec<(String, FilterBy)>>,
    pub tags: Option<TagIndex>,
}

/// The handle of one run: its generation, expression and tag snapshot,
/// shared with the filterer, so that the run's worker can filter what it
/// reads on its own.
pub struct FilterRun {
    generation: u64,
    filter_strings: Arc<Vec<Vec<(String, FilterBy)>>>,
    tags: Arc<Option<TagIndex>>,
}

impl View for FilterRun {
    type V = RunView;

    closed spec fn view(&self) -> RunView {
        RunView { generation: self.generation, expr: self.filter_strings@, tags: *self.tags }
    }
}

/// The abstract content of a filtered batch.
pub struct BatchOutcome {
    pub generation: u64,
    pub expr: Seq<Vec<(String, FilterBy)>>,
    pub tags: Option<TagIndex>,
    /// The records read.
    pub records: Seq<CommitInfo>,
    /// Those of them that match, in order.
    pub matches: Seq<CommitInfo>,
}

/// The records one worker read, filtered by its run's expression.
pub struct FilteredBatch {
    generation: u64,
    was_empty: bool,
    matches: Vec<CommitInfo>,
    records: Ghost<Seq<CommitInfo>>,
    expr: Ghost<Seq<Vec<(String, FilterBy)>>>,
    tags: Ghost<Option<TagIndex>>,
}

impl View for FilteredBatch {
    type V = BatchOutcome;

    closed spec fn view(&self) -> BatchOutcome {
        BatchOutcome {
            generation: self.generation,
            expr: self.expr@,
            tags: self.tags@,
            records: self.records@,
            matches: self.matches@,
        }
    }
}

impl FilteredBatch {
    /// The matches are those of the records under the batch's expression.
    pub closed spec fn wf(&self) -> bool {
        &&& self.matches@ == filter_spec(self.records@, self.tags@, self.expr@)
        &&& self.was_empty == (self.records@.len() == 0)
    }
}

impl FilterRun {
    /// The run's tag snapshot has at most one entry per commit.
    pub open spec fn wf(&self) -> bool {
        tags_wf(self@.tags)
    }

    /// The generation the run was started under.
    pub fn generation(&self) -> (r: u64)
        ensures
            r == self@.generation,
    {
        self.generation
    }

    /// Filters the records the worker read, with the run's expression and
    /// tag snapshot.
    pub fn filter_batch(&self, records: Vec<CommitInfo>) -> (r: FilteredBatch)
        requires
            self.wf(),
        ensures
            r.wf(),
            r@.generation == self@.generation,
            r@.expr == self@.expr,
            r@.tags == self@.tags,
            r@.records == records@,
            r@.matches == filter_spec(records@, self@.tags, self@.expr),
    {
        let ghost recs = records@;
        let was_empty = records.len() == 0;
        let matches = AsyncCommitFilterer::filter(records, &*self.tags, self.filter_strings.as_slice());
        FilteredBatch {
            generation: self.generation,
            was_empty,
            matches,
            records: Ghost(recs),
            expr: Ghost(self@.expr),
            tags: Ghost(self@.tags),
        }
    }
}

/// The first position of the window `get_filter_items` copies.
pub open spec fn window_start(len: nat, start: usize) -> int {
    if start < len { start as int } else { len as int }
}

/// The end (exclusive) of the window `get_filter_items` copies.
pub open spec fn window_end(len: nat, start: usize, amount: usize) -> int {
    let lo = window_start(len, start);
    if lo + amount <= len { lo + amount } else { len as int }
}

/// `r` is `c` with its message cut to `limit` columns, the rest unchanged.
pub open spec fn is_shortened(r: CommitInfo, c: CommitInfo, limit: usize) -> bool {
    &&& r.id == c.id
    &&& r.short_id == c.short_id
    &&& r.author == c.author
    &&& r.time == c.time
    &&& r.message@ == truncated_to_width(c.message@, limit)
}

/// Events keep the results equal to the matches among the records taken in,
/// and take in only records that the worker of the current generation handed in.
proof fn lemma_events_keep_own_records(s: FilterState, es: Seq<FilterEvent>, origin: Seq<FilterEvent>)
    requires
        state_wf(s),
        forall|k: int| 0 <= k < s.scanned.len() ==> handed_in_by(#[trigger] s.scanned[k], origin, s.generation),
        forall|j: int| 0 <= j < es.len() ==> origin.contains(#[trigger] es[j]),
    ensures
        state_wf(after_events(s, es)),
        after_events(s, es).generation == s.generation,
        after_events(s, es).expr == s.expr,
        after_events(s, es).tags == s.tags,
        forall|k: int|
            0 <= k < after_events(s, es).scanned.len() ==> handed_in_by(
                #[trigger] after_events(s, es).scanned[k],
                origin,
                s.generation,
            ),
    decreases es.len(),
{
    if es.len() > 0 {
        let e = es[0];
        let s1 = after_event(s, e);
        assert(origin.contains(es[0]));
        if let FilterEvent::Records { generation, records, log_pending } = e {
            if is_current(s, generation) && !(records.len() == 0 && !log_pending) {
                lemma_filter_append(s.scanned, records, s.tags, s.expr);
                let j = choose|j: int| 0 <= j < origin.len() && origin[j] == e;
                assert forall|k: int| 0 <= k < s1.scanned.len() implies handed_in_by(#[trigger] s1.scanned[k], origin, s.generation) by {
                    if k < s.scanned.len() {
                        assert(s1.scanned[k] == s.scanned[k]);
                    } else {
                        assert(s1.scanned[k] == records[k - s.scanned.len()]);
                        assert(records.contains(s1.scanned[k]));
                        assert(origin[j] == e);
                    }
                }
            }
        }
        assert forall|j: int| 0 <= j < es.drop_first().len() implies origin.contains(#[trigger] es.drop_first()[j]) by {
            assert(es.drop_first()[j] == es[j + 1]);
        }
        lemma_events_keep_own_records(s1, es.drop_first(), origin);
    }
}

/// Supersession: once a new run is started, whatever the old run's worker
/// still hands in, and whenever `stop_filter` comes, the result buffer holds
/// only matches of records that the new run's worker handed in, and exactly
/// the matches among what the new run took in. The new run has a generation
/// other than the old one.
pub proof fn law_supersession(
    s: FilterState,
    expr: Seq<Vec<(String, FilterBy)>>,
    tags: Option<TagIndex>,
    es: Seq<FilterEvent>,
)
    requires
        state_wf(s),
        tags_wf(tags),
    ensures
        started(s, expr, tags).generation != s.generation,
        after_events(started(s, expr, tags), es).results == filter_spec(
            after_events(started(s, expr, tags), es).scanned,
            tags,
            expr,
        ),
        forall|k: int|
            0 <= k < after_events(started(s, expr, tags), es).results.len() ==> {
                let c = #[trigger] after_events(started(s, expr, tags), es).results[k];
                handed_in_by(c, es, started(s, expr, tags).generation) && commit_matches(c, tags, expr)
            },
{
    let s2 = started(s, expr, tags);
    assert forall|j: int| 0 <= j < es.len() implies es.contains(#[trigger] es[j]) by {}
    lemma_events_keep_own_records(s2, es, es);
    let f = after_events(s2, es);
    lemma_filter_all_match(f.scanned, tags, expr);
    let idx = lemma_filter_index_map(f.scanned, tags, expr);
    assert forall|k: int| 0 <= k < f.results.len() implies {
        let c = #[trigger] f.results[k];
        handed_in_by(c, es, s2.generation) && commit_matches(c, tags, expr)
    } by {
        assert(f.results[k] == f.scanned[idx[k]]);
    }
}

/// Once a run has finished, no event changes the filterer until the next
/// start: its results, and so its count, stay as they are.
pub proof fn law_finished_is_stable(s: FilterState, es: Seq<FilterEvent>)
    requires
        s.state == RunState::Finished,
    ensures
        after_events(s, es) == s,
    decreases es.len(),
{
    if es.len() > 0 {
        law_finished_is_stable(after_event(s, es[0]), es.drop_first());
    }
}

} // verus!