//! The window of the log that is held in memory for display: a contiguous
//! run of entries that starts at a known position of the full log.
use crate::matching::CommitInfo;
use vstd::prelude::*;

verus! {

/// How far around the viewed position the window must reach before it is
/// fetched again.
pub const SLICE_OFFSET_RELOAD_THRESHOLD: usize = 100;

/// One commit in display form.
#[derive(Debug, PartialEq, Eq)]
pub struct LogEntry {
    /// Commit time, in seconds since the epoch.
    pub time: i64,
    pub author: String,
    pub msg: String,
    pub hash_short: String,
    pub id: String,
}

/// The display form of a commit.
pub open spec fn entry_of(c: CommitInfo) -> LogEntry {
    LogEntry { time: c.time, author: c.author, msg: c.message, hash_short: c.short_id, id: c.id }
}

impl LogEntry {
    /// The display form of `c`.
    pub fn from_commit(c: CommitInfo) -> (r: LogEntry)
        ensures
            r == entry_of(c),
    {
        LogEntry { time: c.time, author: c.author, msg: c.message, hash_short: c.short_id, id: c.id }
    }
}

impl From<CommitInfo> for LogEntry {
    fn from(c: CommitInfo) -> (r: LogEntry) {
        LogEntry::from_commit(c)
    }
}

impl vstd::std_specs::convert::FromSpecImpl<CommitInfo> for LogEntry {
    open spec fn obeys_from_spec() -> bool {
        true
    }

    open spec fn from_spec(c: CommitInfo) -> LogEntry {
        entry_of(c)
    }
}

/// The abstract window: the position of its first entry, and its entries.
pub struct BatchView {
    pub offset: usize,
    pub items: Seq<LogEntry>,
}

/// Whether the window around `idx` (clamped to `[0, idx_max]`) reaches below
/// `offset` or at or past `offset + len`.
pub open spec fn needs_data_spec(offset: usize, len: nat, idx: usize, idx_max: usize) -> bool {
    let want_min = if idx >= SLICE_OFFSET_RELOAD_THRESHOLD { idx - SLICE_OFFSET_RELOAD_THRESHOLD } else { 0 };
    let up = if idx + SLICE_OFFSET_RELOAD_THRESHOLD <= usize::MAX {
        idx + SLICE_OFFSET_RELOAD_THRESHOLD
    } else {
        usize::MAX as int
    };
    let want_max = if up <= idx_max { up } else { idx_max as int };
    want_min < offset || want_max >= offset + len
}

/// The display forms of `cs`, in order.
pub open spec fn entries_of(cs: Seq<CommitInfo>) -> Seq<LogEntry> {
    cs.map_values(|c: CommitInfo| entry_of(c))
}

/// The entries of the log from `index_offset` on that are held for display.
pub struct ItemBatch {
    index_offset: usize,
    items: Vec<LogEntry>,
}

impl View for ItemBatch {
    type V = BatchView;

    closed spec fn view(&self) -> BatchView {
        BatchView { offset: self.index_offset, items: self.items@ }
    }
}

impl Default for ItemBatch {
    fn default() -> (r: Self)
        ensures
            r@.offset == 0,
            r@.items.len() == 0,
    {
        ItemBatch { index_offset: 0, items: Vec::new() }
    }
}

impl ItemBatch {
    /// The position in the log of the first entry held.
    pub fn index_offset(&self) -> (r: usize)
        ensures
            r == self@.offset,
    {
        self.index_offset
    }

    /// The entries held, in log order.
    pub fn iter(&self) -> (r: std::slice::Iter<'_, LogEntry>)
        ensures
            vstd::std_specs::iter::IteratorSpec::remaining(&r) == self@.items.as_ref(),
    {
        self.items.as_slice().iter()
    }

    /// Drops every entry; the offset stays.
    pub fn clear(&mut self)
        ensures
            final(self)@.offset == old(self)@.offset,
            final(self)@.items.len() == 0,
    {
        self.items.clear();
    }

    fn append_entries(&mut self, commits: Vec<CommitInfo>)
        ensures
            final(self)@.offset == old(self)@.offset,
            final(self)@.items == old(self)@.items + entries_of(commits@),
    {
        let ghost start = self.items@;
        let mut i: usize = 0;
        while i < commits.len()
            invariant
                0 <= i <= commits@.len(),
                self.index_offset == old(self)@.offset,
                self.items@ == start + entries_of(commits@.subrange(0, i as int)),
            decreases commits@.len() - i,
        {
            let c = commits[i].clone();
            self.items.push(LogEntry::from_commit(c));
            assert(commits@.subrange(0, i + 1) =~= commits@.subrange(0, i as int).push(c));
            assert(entries_of(commits@.subrange(0, i + 1)) =~= entries_of(commits@.subrange(0, i as int)).push(entry_of(c)));
            i = i + 1;
        }
        assert(commits@.subrange(0, i as int) =~= commits@);
    }

    /// Replaces the window: the entries are the display forms of `commits`,
    /// and the first of them stands at `start_index` in the log.
    pub fn set_items(&mut self, start_index: usize, commits: Vec<CommitInfo>)
        ensures
            final(self)@.offset == start_index,
            final(self)@.items == entries_of(commits@),
    {
        self.items.clear();
        self.append_entries(commits);
        self.index_offset = start_index;
    }

    /// Appends the display forms of `commits`; the offset stays.
    pub fn extend(&mut self, commits: Vec<CommitInfo>)
        ensures
            final(self)@.offset == old(self)@.offset,
            final(self)@.items == old(self)@.items + entries_of(commits@),
    {
        self.append_entries(commits);
    }

    /// The number of entries held.
    pub fn len(&self) -> (r: usize)
        ensures
            r == self@.items.len(),
    {
        self.items.len()
    }

    /// Whether the entries around position `idx` of the log, up to
    /// `idx_max`, reach out of the window, so that it must be fetched again.
    pub fn needs_data(&self, idx: usize, idx_max: usize) -> (r: bool)
        ensures
            r == needs_data_spec(self@.offset, self@.items.len(), idx, idx_max),
    {
        let want_min = if idx >= SLICE_OFFSET_RELOAD_THRESHOLD { idx - SLICE_OFFSET_RELOAD_THRESHOLD } else { 0 };
        let up = if idx <= usize::MAX - SLICE_OFFSET_RELOAD_THRESHOLD {
            idx + SLICE_OFFSET_RELOAD_THRESHOLD
        } else {
            usize::MAX
        };
        let want_max = if up <= idx_max { up } else { idx_max };
        let needs_data_top = want_min < self.index_offset;
        let needs_data_bottom = want_max >= self.index_offset && want_max - self.index_offset >= self.items.len();
        needs_data_bottom || needs_data_top
    }
}

/// With a window of at least twice the margin, no fetch is needed while the
/// viewed position stays a margin inside the window; one is needed just
/// before the window, and just past it when that position exists.
pub proof fn law_needs_data_window(b: BatchView, idx: usize, idx_max: usize)
    requires
        b.items.len() >= 2 * SLICE_OFFSET_RELOAD_THRESHOLD,
    ensures
        b.offset + SLICE_OFFSET_RELOAD_THRESHOLD <= idx <= b.offset + b.items.len() - 1 - SLICE_OFFSET_RELOAD_THRESHOLD
            ==> !needs_data_spec(b.offset, b.items.len(), idx, idx_max),
        b.offset > 0 && idx == b.offset - 1 ==> needs_data_spec(b.offset, b.items.len(), idx, idx_max),
        idx == b.offset + b.items.len() && idx <= idx_max ==> needs_data_spec(b.offset, b.items.len(), idx, idx_max),
{
}

} // verus!
