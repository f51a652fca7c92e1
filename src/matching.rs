//! Commit records, the tag index, and the disjunctive-normal-form predicate that
//! decides whether a record matches a filter expression.
use crate::flags::FilterBy;
use crate::text::{is_substring, lower_of, lowercase, str_contains};
use vstd::prelude::*;

verus! {

/// One commit as the filter sees it.
#[derive(Debug, PartialEq, Eq)]
pub struct CommitInfo {
    /// The full identifier, as text.
    pub id: String,
    /// The abbreviated identifier, as text.
    pub short_id: String,
    pub author: String,
    pub message: String,
    /// Commit time, in seconds since the epoch.
    pub time: i64,
}

impl Clone for CommitInfo {
    fn clone(&self) -> (r: Self)
        ensures
            r == *self,
    {
        CommitInfo {
            id: self.id.clone(),
            short_id: self.short_id.clone(),
            author: self.author.clone(),
            message: self.message.clone(),
            time: self.time,
        }
    }
}

/// The tag names of one commit.
pub struct TagEntry {
    pub commit: String,
    pub names: Vec<String>,
}

/// A snapshot of the tags of a repository, by commit identifier.
pub struct TagIndex {
    pub entries: Vec<TagEntry>,
}

/// The names of the first entry of `entries` for commit `id`.
pub open spec fn tags_in(entries: Seq<TagEntry>, id: Seq<char>) -> Option<Seq<String>>
    decreases entries.len(),
{
    if entries.len() == 0 {
        None
    } else if entries[0].commit@ == id {
        Some(entries[0].names@)
    } else {
        tags_in(entries.drop_first(), id)
    }
}

/// No two entries of a present snapshot are for the same commit.
pub open spec fn tags_wf(tags: Option<TagIndex>) -> bool {
    match tags {
        None => true,
        Some(t) => t.wf(),
    }
}

impl TagIndex {
    pub open spec fn tags_of(self, id: Seq<char>) -> Option<Seq<String>> {
        tags_in(self.entries@, id)
    }

    /// No two entries are for the same commit.
    pub open spec fn wf(self) -> bool {
        forall|i: int, j: int|
            0 <= i < j < self.entries@.len() ==> (#[trigger] self.entries@[i]).commit@ != (#[trigger] self.entries@[j]).commit@
    }

    /// Whether no two entries are for the same commit.
    pub fn is_well_formed(&self) -> (r: bool)
        ensures
            r == self.wf(),
    {
        let n = self.entries.len();
        let mut j: usize = 0;
        while j < n
            invariant
                n == self.entries@.len(),
                0 <= j <= n,
                forall|a: int, b: int| 0 <= a < b < j ==> (#[trigger] self.entries@[a]).commit@ != (#[trigger] self.entries@[b]).commit@,
            decreases n - j,
        {
            let mut i: usize = 0;
            while i < j
                invariant
                    n == self.entries@.len(),
                    0 <= i <= j < n,
                    forall|a: int, b: int| 0 <= a < b < j ==> (#[trigger] self.entries@[a]).commit@ != (#[trigger] self.entries@[b]).commit@,
                    forall|a: int| 0 <= a < i ==> (#[trigger] self.entries@[a]).commit@ != self.entries@[j as int].commit@,
                decreases j - i,
            {
                if self.entries[i].commit.eq(&self.entries[j].commit) {
                    assert(self.entries@[i as int].commit@ == self.entries@[j as int].commit@);
                    return false;
                }
                i = i + 1;
            }
            j = j + 1;
        }
        true
    }

    /// The tag names of commit `id`, if it has an entry.
    pub fn get(&self, id: &String) -> (r: Option<&Vec<String>>)
        ensures
            r is None <==> self.tags_of(id@) is None,
            r matches Some(v) ==> self.tags_of(id@) == Some(v@),
    {
        let mut i: usize = 0;
        assert(self.entries@.subrange(0, self.entries@.len() as int) =~= self.entries@);
        while i < self.entries.len()
            invariant
                0 <= i <= self.entries@.len(),
                tags_in(self.entries@, id@) == tags_in(self.entries@.subrange(i as int, self.entries@.len() as int), id@),
            decreases self.entries@.len() - i,
        {
            let rest = Ghost(self.entries@.subrange(i as int, self.entries@.len() as int));
            assert(rest@[0] == self.entries@[i as int]);
            if self.entries[i].commit.eq(id) {
                return Some(&self.entries[i].names);
            }
            assert(rest@.drop_first() =~= self.entries@.subrange(i + 1, self.entries@.len() as int));
            i = i + 1;
        }
        assert(self.entries@.subrange(i as int, self.entries@.len() as int).len() == 0);
        None
    }
}

/// The per-field condition of a clause with pattern `pat` and flags `f`.
pub open spec fn field_holds(text: Seq<char>, pat: Seq<char>, f: FilterBy) -> bool {
    let found = if f.case_sensitive {
        is_substring(pat, text)
    } else {
        is_substring(lower_of(pat), lower_of(text))
    };
    if f.not {
        !found
    } else {
        found
    }
}

/// Some tag name of `names` meets the per-field condition.
pub open spec fn some_name_holds(names: Seq<String>, pat: Seq<char>, f: FilterBy) -> bool {
    exists|k: int| 0 <= k < names.len() && field_holds(#[trigger] names[k]@, pat, f)
}

/// The tag part of a clause: false without a snapshot; for an untagged commit
/// true exactly when negated; otherwise true when some tag name meets the
/// per-field condition.
pub open spec fn tags_hold(c: CommitInfo, tags: Option<TagIndex>, pat: Seq<char>, f: FilterBy) -> bool {
    match tags {
        None => false,
        Some(t) => match t.tags_of(c.id@) {
            None => f.not,
            Some(names) => some_name_holds(names, pat, f),
        },
    }
}

/// A clause holds when its condition holds for any field it selects.
pub open spec fn clause_holds(c: CommitInfo, tags: Option<TagIndex>, pat: Seq<char>, f: FilterBy) -> bool {
    ||| (f.tags && tags_hold(c, tags, pat, f))
    ||| (f.sha && field_holds(c.id@, pat, f))
    ||| (f.author && field_holds(c.author@, pat, f))
    ||| (f.message && field_holds(c.message@, pat, f))
}

/// An AND-group holds when every one of its clauses holds.
pub open spec fn group_holds(c: CommitInfo, tags: Option<TagIndex>, group: Seq<(String, FilterBy)>) -> bool {
    forall|k: int| 0 <= k < group.len() ==> clause_holds(c, tags, (#[trigger] group[k]).0@, group[k].1)
}

/// An expression matches when any of its AND-groups holds.
pub open spec fn commit_matches(c: CommitInfo, tags: Option<TagIndex>, expr: Seq<Vec<(String, FilterBy)>>) -> bool {
    exists|g: int| 0 <= g < expr.len() && group_holds(c, tags, (#[trigger] expr[g])@)
}

/// The records of `cs` that match `expr`, in their order.
pub open spec fn filter_spec(cs: Seq<CommitInfo>, tags: Option<TagIndex>, expr: Seq<Vec<(String, FilterBy)>>) -> Seq<CommitInfo>
    decreases cs.len(),
{
    if cs.len() == 0 {
        Seq::empty()
    } else {
        let rest = filter_spec(cs.drop_last(), tags, expr);
        if commit_matches(cs.last(), tags, expr) {
            rest.push(cs.last())
        } else {
            rest
        }
    }
}

/// `a` is `b` with some elements left out, the rest kept in order.
pub open spec fn is_subsequence<A>(a: Seq<A>, b: Seq<A>) -> bool {
    exists|idx: Seq<int>| is_index_map(idx, a, b)
}

/// `idx` picks the elements of `a` from strictly increasing positions of `b`.
pub open spec fn is_index_map<A>(idx: Seq<int>, a: Seq<A>, b: Seq<A>) -> bool {
    &&& idx.len() == a.len()
    &&& forall|k: int| 0 <= k < idx.len() ==> 0 <= #[trigger] idx[k] < b.len() && a[k] == b[idx[k]]
    &&& forall|j: int, k: int| 0 <= j < k < idx.len() ==> #[trigger] idx[j] < #[trigger] idx[k]
}

/// The per-field condition on text that is already case-folded as the
/// clause asks: `pat` occurs in `text`, or with `not`, it does not.
pub fn pattern_holds(text: &str, pat: &str, not: bool) -> (r: bool)
    ensures
        r == (is_substring(pat@, text@) != not),
{
    let found = str_contains(text, pat);
    if not {
        !found
    } else {
        found
    }
}

fn field_contains(text: &str, pat: &str, f: FilterBy) -> (r: bool)
    ensures
        r == field_holds(text@, pat@, f),
{
    if f.case_sensitive {
        pattern_holds(text, pat, f.not)
    } else {
        let t = lowercase(text);
        let p = lowercase(pat);
        pattern_holds(t.as_str(), p.as_str(), f.not)
    }
}

fn tags_contain(c: &CommitInfo, tags: &Option<TagIndex>, pat: &str, f: FilterBy) -> (r: bool)
    ensures
        r == tags_hold(*c, *tags, pat@, f),
{
    match tags {
        None => false,
        Some(t) => match t.get(&c.id) {
            None => f.not,
            Some(names) => {
                let mut i: usize = 0;
                while i < names.len()
                    invariant
                        0 <= i <= names@.len(),
                        *tags == Some(*t),
                        t.tags_of(c.id@) == Some(names@),
                        forall|k: int| 0 <= k < i ==> !field_holds(#[trigger] names@[k]@, pat@, f),
                    decreases names@.len() - i,
                {
                    if field_contains(names[i].as_str(), pat, f) {
                        assert(field_holds(names@[i as int]@, pat@, f));
                        return true;
                    }
                    i = i + 1;
                }
                false
            },
        },
    }
}

fn clause_matches(c: &CommitInfo, tags: &Option<TagIndex>, pat: &str, f: FilterBy) -> (r: bool)
    ensures
        r == clause_holds(*c, *tags, pat@, f),
{
    (f.tags && tags_contain(c, tags, pat, f))
        || (f.sha && field_contains(c.id.as_str(), pat, f))
        || (f.author && field_contains(c.author.as_str(), pat, f))
        || (f.message && field_contains(c.message.as_str(), pat, f))
}

fn group_matches(c: &CommitInfo, tags: &Option<TagIndex>, group: &Vec<(String, FilterBy)>) -> (r: bool)
    ensures
        r == group_holds(*c, *tags, group@),
{
    let mut i: usize = 0;
    while i < group.len()
        invariant
            0 <= i <= group@.len(),
            forall|k: int| 0 <= k < i ==> clause_holds(*c, *tags, (#[trigger] group@[k]).0@, group@[k].1),
        decreases group@.len() - i,
    {
        let (pat, f) = &group[i];
        if !clause_matches(c, tags, pat.as_str(), *f) {
            return false;
        }
        i = i + 1;
    }
    true
}

/// Whether commit `c` matches the expression `expr`.
pub fn is_match(c: &CommitInfo, tags: &Option<TagIndex>, expr: &[Vec<(String, FilterBy)>]) -> (r: bool)
    requires
        tags_wf(*tags),
    ensures
        r == commit_matches(*c, *tags, expr@),
{
    let mut g: usize = 0;
    while g < expr.len()
        invariant
            0 <= g <= expr@.len(),
            forall|j: int| 0 <= j < g ==> !group_holds(*c, *tags, (#[trigger] expr@[j])@),
        decreases expr@.len() - g,
    {
        if group_matches(c, tags, &expr[g]) {
            return true;
        }
        g = g + 1;
    }
    false
}

/// Filtering a concatenation filters each part.
pub proof fn lemma_filter_append(a: Seq<CommitInfo>, b: Seq<CommitInfo>, tags: Option<TagIndex>, expr: Seq<Vec<(String, FilterBy)>>)
    ensures
        filter_spec(a + b, tags, expr) == filter_spec(a, tags, expr) + filter_spec(b, tags, expr),
    decreases b.len(),
{
    if b.len() == 0 {
        assert(a + b =~= a);
        assert(filter_spec(a, tags, expr) + filter_spec(b, tags, expr) =~= filter_spec(a, tags, expr));
    } else {
        lemma_filter_append(a, b.drop_last(), tags, expr);
        assert((a + b).drop_last() =~= a + b.drop_last());
        assert((a + b).last() == b.last());
        let fa = filter_spec(a, tags, expr);
        let fb = filter_spec(b.drop_last(), tags, expr);
        assert((fa + fb).push(b.last()) =~= fa + fb.push(b.last()));
    }
}

/// Every record kept by the filter matches the expression.
pub proof fn lemma_filter_all_match(cs: Seq<CommitInfo>, tags: Option<TagIndex>, expr: Seq<Vec<(String, FilterBy)>>)
    ensures
        forall|k: int| 0 <= k < filter_spec(cs, tags, expr).len() ==> commit_matches(#[trigger] filter_spec(cs, tags, expr)[k], tags, expr),
    decreases cs.len(),
{
    if cs.len() > 0 {
        lemma_filter_all_match(cs.drop_last(), tags, expr);
        let rest = filter_spec(cs.drop_last(), tags, expr);
        if commit_matches(cs.last(), tags, expr) {
            assert forall|k: int| 0 <= k < rest.push(cs.last()).len() implies commit_matches(#[trigger] rest.push(cs.last())[k], tags, expr) by {
                if k < rest.len() {
                    assert(rest.push(cs.last())[k] == rest[k]);
                }
            }
        }
    }
}

/// Filtering a sequence whose records all match keeps it whole.
pub proof fn lemma_filter_keeps_matching(cs: Seq<CommitInfo>, tags: Option<TagIndex>, expr: Seq<Vec<(String, FilterBy)>>)
    requires
        forall|k: int| 0 <= k < cs.len() ==> commit_matches(#[trigger] cs[k], tags, expr),
    ensures
        filter_spec(cs, tags, expr) == cs,
    decreases cs.len(),
{
    if cs.len() > 0 {
        assert forall|k: int| 0 <= k < cs.drop_last().len() implies commit_matches(#[trigger] cs.drop_last()[k], tags, expr) by {
            assert(cs.drop_last()[k] == cs[k]);
        }
        lemma_filter_keeps_matching(cs.drop_last(), tags, expr);
        assert(cs.drop_last().push(cs.last()) =~= cs);
    }
}

/// The filter's result is a subsequence of its input: positions strictly
/// increase, so order is kept and nothing is duplicated.
pub proof fn law_filter_is_subsequence(cs: Seq<CommitInfo>, tags: Option<TagIndex>, expr: Seq<Vec<(String, FilterBy)>>)
    ensures
        is_subsequence(filter_spec(cs, tags, expr), cs),
{
    let idx = lemma_filter_index_map(cs, tags, expr);
}

pub proof fn lemma_filter_index_map(cs: Seq<CommitInfo>, tags: Option<TagIndex>, expr: Seq<Vec<(String, FilterBy)>>) -> (idx: Seq<int>)
    ensures
        is_index_map(idx, filter_spec(cs, tags, expr), cs),
    decreases cs.len(),
{
    if cs.len() == 0 {
        Seq::empty()
    } else {
        let prev = lemma_filter_index_map(cs.drop_last(), tags, expr);
        let rest = filter_spec(cs.drop_last(), tags, expr);
        assert forall|k: int| 0 <= k < prev.len() implies 0 <= #[trigger] prev[k] < cs.len() && rest[k] == cs[prev[k]] by {
            assert(cs.drop_last()[prev[k]] == cs[prev[k]]);
        }
        if commit_matches(cs.last(), tags, expr) {
            let idx = prev.push(cs.len() - 1);
            let out = rest.push(cs.last());
            assert forall|k: int| 0 <= k < idx.len() implies 0 <= #[trigger] idx[k] < cs.len() && out[k] == cs[idx[k]] by {
                if k < prev.len() {
                    assert(idx[k] == prev[k]);
                }
            }
            assert forall|j: int, k: int| 0 <= j < k < idx.len() implies #[trigger] idx[j] < #[trigger] idx[k] by {
                if k < prev.len() {
                    assert(idx[j] == prev[j] && idx[k] == prev[k]);
                } else {
                    assert(idx[j] == prev[j]);
                    assert(prev[j] < cs.drop_last().len());
                }
            }
            idx
        } else {
            prev
        }
    }
}

/// Filtering twice with the same expression gives what filtering once gives.
pub proof fn law_filter_idempotent(cs: Seq<CommitInfo>, tags: Option<TagIndex>, expr: Seq<Vec<(String, FilterBy)>>)
    ensures
        filter_spec(filter_spec(cs, tags, expr), tags, expr) == filter_spec(cs, tags, expr),
{
    lemma_filter_all_match(cs, tags, expr);
    lemma_filter_keeps_matching(filter_spec(cs, tags, expr), tags, expr);
}

} // verus!
