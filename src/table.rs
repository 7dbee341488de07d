//! The progress table shared by the workers of a batch and the view.

use std::sync::Arc;
use vstd::prelude::*;
use vstd::rwlock::RwLock;
use crate::progress::{
    apply_update, entries_view, first_match, initial_entries, initial_progress, names_of, updated,
    EntryView, RepoProgress, RepoStatus,
};

verus! {

/// Rows whose names are `names`, in that order.
pub open spec fn has_names(v: Vec<RepoProgress>, names: Seq<Seq<char>>) -> bool {
    names_of(entries_view(v@)) == names
}

/// Every row's progress is a percentage.
pub open spec fn progress_in_range(s: Seq<EntryView>) -> bool {
    forall|i: int| 0 <= i < s.len() ==> #[trigger] s[i].progress <= 100
}

/// What the rows of a table over `names` always satisfy.
pub open spec fn rows_ok(v: Vec<RepoProgress>, names: Seq<Seq<char>>) -> bool {
    has_names(v, names) && progress_in_range(entries_view(v@))
}

pub open spec fn table_pred(names: Seq<Seq<char>>) -> spec_fn(Vec<RepoProgress>) -> bool {
    |v: Vec<RepoProgress>| rows_ok(v, names)
}

/// A progress table behind an exclusive lock. Its rows keep the names that
/// it was created with and a progress of at most 100; every read and every
/// update holds the lock for that one step only.
pub struct ProgressTable {
    lock: RwLock<Vec<RepoProgress>, spec_fn(Vec<RepoProgress>) -> bool>,
    names: Ghost<Seq<Seq<char>>>,
    created: Ghost<Seq<EntryView>>,
}

/// The rows of a table just before and just after one update, copied while
/// the lock was held.
pub struct TableWrite {
    /// Whether the table has a row of the name written.
    pub found: bool,
    pub before: Vec<RepoProgress>,
    pub after: Vec<RepoProgress>,
}

/// Copies every row.
fn copy_rows(rows: &Vec<RepoProgress>) -> (r: Vec<RepoProgress>)
    ensures
        entries_view(r@) == entries_view(rows@),
{
    let mut r: Vec<RepoProgress> = Vec::new();
    let mut i: usize = 0;
    while i < rows.len()
        invariant
            i <= rows.len(),
            entries_view(r@) == entries_view(rows@).take(i as int),
        decreases rows.len() - i,
    {
        let e = rows[i].duplicate();
        let ghost before = r@;
        r.push(e);
        assert(entries_view(r@) =~= entries_view(before).push(e@));
        assert(entries_view(r@) =~= entries_view(rows@).take(i + 1));
        i = i + 1;
    }
    assert(entries_view(rows@).take(rows.len() as int) =~= entries_view(rows@));
    r
}

impl ProgressTable {
    #[verifier::type_invariant]
    spec fn wf(self) -> bool {
        self.lock.pred() == table_pred(self.names@)
    }

    /// The names of the rows, in order.
    pub closed spec fn names(self) -> Seq<Seq<char>> {
        self.names@
    }

    /// The rows that the table was created with.
    pub closed spec fn created(self) -> Seq<EntryView> {
        self.created@
    }

    /// A table with one pending row per name: "Waiting...", no progress.
    pub fn create(names: Vec<String>) -> (t: ProgressTable)
        ensures
            t.names() == names@.map_values(|n: String| n@),
            t.created() == initial_entries(names@.map_values(|n: String| n@)),
    {
        let ghost ns = names@.map_values(|n: String| n@);
        let rows = initial_progress(names);
        let ghost s = entries_view(rows@);
        proof {
            assert(names_of(s) =~= ns);
            assert(progress_in_range(s));
        }
        let lock = RwLock::new(rows, Ghost(table_pred(ns)));
        ProgressTable { lock, names: Ghost(ns), created: Ghost(s) }
    }

    /// Overwrites status, message and progress of the first row named
    /// `name`, as `apply_update` does, under the lock; a name that the table
    /// does not hold changes nothing. Returns the rows just before and just
    /// after the write.
    pub fn update(&self, name: &str, status: RepoStatus, message: &str, progress: u16) -> (w:
        TableWrite)
        requires
            progress <= 100,
        ensures
            names_of(entries_view(w.before@)) == self.names(),
            entries_view(w.after@) == updated(
                entries_view(w.before@),
                name@,
                status,
                message@,
                progress,
            ),
            w.found == self.names().contains(name@),
    {
        proof {
            use_type_invariant(self);
        }
        let (mut rows, handle) = self.lock.acquire_write();
        let before = copy_rows(&rows);
        let ghost s = entries_view(rows@);
        let found = apply_update(&mut rows, name, status, message, progress);
        proof {
            lemma_update_keeps_names(s, name@, status, message@, progress);
            lemma_update_keeps_range(s, name@, status, message@, progress);
        }
        let after = copy_rows(&rows);
        handle.release_write(rows);
        TableWrite { found, before, after }
    }

    /// A copy of every row, taken at one instant.
    pub fn snapshot(&self) -> (r: Vec<RepoProgress>)
        ensures
            names_of(entries_view(r@)) == self.names(),
            progress_in_range(entries_view(r@)),
    {
        proof {
            use_type_invariant(self);
        }
        let handle = self.lock.acquire_read();
        let r = copy_rows(handle.borrow());
        handle.release_read();
        r
    }
}

/// Relies on `Arc::clone`: the new handle points to the same table.
#[verifier::external_body]
fn share_table(table: &Arc<ProgressTable>) -> (r: Arc<ProgressTable>)
    ensures
        *r == **table,
{
    Arc::clone(table)
}

/// The table of one batch, handed to the workers and read by the view.
pub struct TuiApp {
    repos: Arc<ProgressTable>,
}

impl TuiApp {
    /// The table behind the view.
    pub closed spec fn table(self) -> ProgressTable {
        *self.repos
    }

    /// The names of the table's rows.
    pub open spec fn names(self) -> Seq<Seq<char>> {
        self.table().names()
    }

    /// A view over a new table with one pending row per name.
    pub fn new(repo_names: Vec<String>) -> (r: TuiApp)
        ensures
            r.names() == repo_names@.map_values(|n: String| n@),
            r.table().created() == initial_entries(repo_names@.map_values(|n: String| n@)),
    {
        TuiApp { repos: Arc::new(ProgressTable::create(repo_names)) }
    }

    /// A handle on the same table, to be shared with the workers.
    pub fn get_repos_handle(&self) -> (h: Arc<ProgressTable>)
        ensures
            *h == self.table(),
    {
        share_table(&self.repos)
    }

    /// A copy of every row, taken at one instant.
    pub fn snapshot(&self) -> (r: Vec<RepoProgress>)
        ensures
            names_of(entries_view(r@)) == self.names(),
            progress_in_range(entries_view(r@)),
    {
        self.repos.snapshot()
    }
}

/// Records a status change of the repository named `repo_name`; a name that
/// the table does not hold changes nothing. Returns the rows just before and
/// just after the write.
pub fn update_repo_status(
    repos: &Arc<ProgressTable>,
    repo_name: &str,
    status: RepoStatus,
    message: &str,
    progress: u16,
) -> (w: TableWrite)
    requires
        progress <= 100,
    ensures
        names_of(entries_view(w.before@)) == repos.names(),
        entries_view(w.after@) == updated(
            entries_view(w.before@),
            repo_name@,
            status,
            message@,
            progress,
        ),
        w.found == repos.names().contains(repo_name@),
{
    repos.update(repo_name, status, message, progress)
}

/// An update with a percentage keeps every row's progress a percentage.
pub proof fn lemma_update_keeps_range(
    s: Seq<EntryView>,
    name: Seq<char>,
    status: RepoStatus,
    message: Seq<char>,
    progress: u16,
)
    requires
        progress_in_range(s),
        progress <= 100,
    ensures
        progress_in_range(updated(s, name, status, message, progress)),
{
    lemma_first_match_range(s, name, 0);
    let t = updated(s, name, status, message, progress);
    assert forall|i: int| 0 <= i < t.len() implies #[trigger] t[i].progress <= 100 by {
        if i != first_match(s, name, 0) {
            assert(t[i] == s[i]);
        }
    }
}

/// An update to a name that the table does not hold changes nothing.
pub proof fn lemma_update_of_unknown_name(
    s: Seq<EntryView>,
    name: Seq<char>,
    status: RepoStatus,
    message: Seq<char>,
    progress: u16,
)
    requires
        !names_of(s).contains(name),
    ensures
        updated(s, name, status, message, progress) == s,
{
    lemma_first_match_range(s, name, 0);
    let i = first_match(s, name, 0);
    if i != -1 {
        assert(names_of(s)[i] == name);
    }
}

proof fn lemma_first_match_by_names(s: Seq<EntryView>, t: Seq<EntryView>, name: Seq<char>, from: int)
    requires
        names_of(s) == names_of(t),
    ensures
        first_match(s, name, from) == first_match(t, name, from),
    decreases s.len() - from,
{
    assert(s.len() == names_of(s).len());
    assert(t.len() == names_of(t).len());
    if 0 <= from < s.len() {
        assert(names_of(s)[from] == s[from].name);
        assert(names_of(t)[from] == t[from].name);
        lemma_first_match_by_names(s, t, name, from + 1);
    }
}

proof fn lemma_first_match_range(s: Seq<EntryView>, name: Seq<char>, from: int)
    ensures
        first_match(s, name, from) == -1 || (0 <= from <= first_match(s, name, from) < s.len()
            && s[first_match(s, name, from)].name == name),
    decreases s.len() - from,
{
    if 0 <= from < s.len() && s[from].name != name {
        lemma_first_match_range(s, name, from + 1);
    }
}

/// An update changes no row's name.
pub proof fn lemma_update_keeps_names(
    s: Seq<EntryView>,
    name: Seq<char>,
    status: RepoStatus,
    message: Seq<char>,
    progress: u16,
)
    ensures
        names_of(updated(s, name, status, message, progress)) == names_of(s),
{
    lemma_first_match_range(s, name, 0);
    assert(names_of(updated(s, name, status, message, progress)) =~= names_of(s));
}

/// An update to a name that the table holds lands: the first row of that
/// name then holds exactly what was written.
pub proof fn lemma_update_lands(
    s: Seq<EntryView>,
    name: Seq<char>,
    status: RepoStatus,
    message: Seq<char>,
    progress: u16,
)
    requires
        names_of(s).contains(name),
    ensures
        ({
            let i = first_match(s, name, 0);
            let t = updated(s, name, status, message, progress);
            &&& 0 <= i < s.len()
            &&& t[i] == EntryView { name, status, message, progress }
            &&& forall|j: int| 0 <= j < s.len() && j != i ==> t[j] == s[j]
        }),
{
    lemma_first_match_range(s, name, 0);
    let k = choose|k: int| 0 <= k < names_of(s).len() && names_of(s)[k] == name;
    assert(s[k].name == name);
    lemma_first_match_covers(s, name, 0, k);
}

proof fn lemma_first_match_covers(s: Seq<EntryView>, name: Seq<char>, from: int, k: int)
    requires
        0 <= from <= k < s.len(),
        s[k].name == name,
    ensures
        first_match(s, name, from) != -1,
    decreases k - from,
{
    if s[from].name != name {
        lemma_first_match_covers(s, name, from + 1, k);
    }
}

/// Updates to two different names do not interfere: applied in either
/// order they give the same table.
pub proof fn lemma_updates_to_distinct_names_commute(
    s: Seq<EntryView>,
    a: Seq<char>,
    status_a: RepoStatus,
    message_a: Seq<char>,
    progress_a: u16,
    b: Seq<char>,
    status_b: RepoStatus,
    message_b: Seq<char>,
    progress_b: u16,
)
    requires
        a != b,
    ensures
        updated(updated(s, a, status_a, message_a, progress_a), b, status_b, message_b, progress_b)
            == updated(
            updated(s, b, status_b, message_b, progress_b),
            a,
            status_a,
            message_a,
            progress_a,
        ),
{
    let sa = updated(s, a, status_a, message_a, progress_a);
    let sb = updated(s, b, status_b, message_b, progress_b);
    lemma_update_keeps_names(s, a, status_a, message_a, progress_a);
    lemma_update_keeps_names(s, b, status_b, message_b, progress_b);
    lemma_first_match_by_names(s, sa, b, 0);
    lemma_first_match_by_names(s, sb, a, 0);
    lemma_first_match_range(s, a, 0);
    lemma_first_match_range(s, b, 0);
    assert(updated(sa, b, status_b, message_b, progress_b) =~= updated(
        sb,
        a,
        status_a,
        message_a,
        progress_a,
    ));
}

/// Two updates to the same name leave what the later one wrote.
pub proof fn lemma_last_update_wins(
    s: Seq<EntryView>,
    name: Seq<char>,
    status_1: RepoStatus,
    message_1: Seq<char>,
    progress_1: u16,
    status_2: RepoStatus,
    message_2: Seq<char>,
    progress_2: u16,
)
    ensures
        updated(updated(s, name, status_1, message_1, progress_1), name, status_2, message_2, progress_2)
            == updated(s, name, status_2, message_2, progress_2),
{
    let s1 = updated(s, name, status_1, message_1, progress_1);
    lemma_update_keeps_names(s, name, status_1, message_1, progress_1);
    lemma_first_match_by_names(s, s1, name, 0);
    lemma_first_match_range(s, name, 0);
    assert(updated(s1, name, status_2, message_2, progress_2) =~= updated(
        s,
        name,
        status_2,
        message_2,
        progress_2,
    ));
}

} // verus!
