//! Progress entries and the operations on a table of them.

use vstd::prelude::*;
use vstd::string::*;

verus! {

/// Where a repository stands in its batch.
#[derive(Debug, Clone, Copy, PartialEq, Eq, Structural)]
pub enum RepoStatus {
    Pending,
    Running,
    Success,
    Failed,
}

/// A repository is done once it has succeeded or failed.
pub open spec fn is_terminal(status: RepoStatus) -> bool {
    status == RepoStatus::Success || status == RepoStatus::Failed
}

/// One row of the progress table.
#[derive(Debug, Clone)]
pub struct RepoProgress {
    pub name: String,
    pub status: RepoStatus,
    pub message: String,
    /// Percentage of completion, from 0 to 100.
    pub progress: u16,
}

/// What a row holds, as plain values.
pub struct EntryView {
    pub name: Seq<char>,
    pub status: RepoStatus,
    pub message: Seq<char>,
    pub progress: u16,
}

impl View for RepoProgress {
    type V = EntryView;

    open spec fn view(&self) -> EntryView {
        EntryView {
            name: self.name@,
            status: self.status,
            message: self.message@,
            progress: self.progress,
        }
    }
}

impl RepoProgress {
    /// A copy of this row.
    pub fn duplicate(&self) -> (r: RepoProgress)
        ensures
            r@ == self@,
    {
        RepoProgress {
            name: self.name.clone(),
            status: self.status,
            message: self.message.clone(),
            progress: self.progress,
        }
    }
}

pub open spec fn entries_view(v: Seq<RepoProgress>) -> Seq<EntryView> {
    v.map_values(|e: RepoProgress| e@)
}

pub open spec fn names_of(s: Seq<EntryView>) -> Seq<Seq<char>> {
    s.map_values(|e: EntryView| e.name)
}

pub open spec fn waiting_message() -> Seq<char> {
    seq!['W', 'a', 'i', 't', 'i', 'n', 'g', '.', '.', '.']
}

/// The row a repository starts with: pending, "Waiting...", no progress.
pub open spec fn initial_entry(name: Seq<char>) -> EntryView {
    EntryView { name, status: RepoStatus::Pending, message: waiting_message(), progress: 0 }
}

/// The table that a batch over `names` starts with.
pub open spec fn initial_entries(names: Seq<Seq<char>>) -> Seq<EntryView> {
    names.map_values(|n: Seq<char>| initial_entry(n))
}

/// The index of the first row at or after `from` that is named `name`, or -1.
pub open spec fn first_match(s: Seq<EntryView>, name: Seq<char>, from: int) -> int
    decreases s.len() - from,
{
    if from < 0 || from >= s.len() {
        -1
    } else if s[from].name == name {
        from
    } else {
        first_match(s, name, from + 1)
    }
}

/// The table after the first row named `name` is overwritten; unchanged when
/// no row has that name.
pub open spec fn updated(
    s: Seq<EntryView>,
    name: Seq<char>,
    status: RepoStatus,
    message: Seq<char>,
    progress: u16,
) -> Seq<EntryView> {
    let i = first_match(s, name, 0);
    if i < 0 {
        s
    } else {
        s.update(i, EntryView { name: s[i].name, status, message, progress })
    }
}

/// The number of rows in `status`.
pub open spec fn count_status(s: Seq<EntryView>, status: RepoStatus) -> nat
    decreases s.len(),
{
    if s.len() == 0 {
        0
    } else {
        count_status(s.drop_last(), status) + if s.last().status == status {
            1nat
        } else {
            0nat
        }
    }
}

/// Whether every row has reached a terminal status.
pub open spec fn all_terminal(s: Seq<EntryView>) -> bool {
    forall|i: int| 0 <= i < s.len() ==> is_terminal(#[trigger] s[i].status)
}

/// Builds the starting table: one pending row per name, in order.
pub fn initial_progress(names: Vec<String>) -> (r: Vec<RepoProgress>)
    ensures
        entries_view(r@) == initial_entries(names@.map_values(|n: String| n@)),
{
    let ghost target = initial_entries(names@.map_values(|n: String| n@));
    let mut r: Vec<RepoProgress> = Vec::new();
    let mut i: usize = 0;
    while i < names.len()
        invariant
            i <= names.len(),
            target == initial_entries(names@.map_values(|n: String| n@)),
            target.len() == names.len(),
            entries_view(r@) == target.take(i as int),
        decreases names.len() - i,
    {
        let e = RepoProgress {
            name: names[i].clone(),
            status: RepoStatus::Pending,
            message: String::from_str("Waiting..."),
            progress: 0,
        };
        proof {
            reveal_strlit("Waiting...");
            assert(e.message@ =~= waiting_message());
        }
        let ghost before = r@;
        r.push(e);
        proof {
            assert(target[i as int] == initial_entry(names@[i as int]@));
            assert(entries_view(r@) =~= entries_view(before).push(e@));
            assert(entries_view(r@) =~= target.take(i + 1));
        }
        i = i + 1;
    }
    assert(target.take(names.len() as int) =~= target);
    r
}

/// Overwrites status, message and progress of the first row named `name`;
/// does nothing when no row has that name.
pub fn apply_update(
    entries: &mut Vec<RepoProgress>,
    name: &str,
    status: RepoStatus,
    message: &str,
    progress: u16,
) -> (found: bool)
    ensures
        entries_view(final(entries)@) == updated(
            entries_view(old(entries)@),
            name@,
            status,
            message@,
            progress,
        ),
        found == names_of(entries_view(old(entries)@)).contains(name@),
{
    let ghost s = entries_view(entries@);
    let key = String::from_str(name);
    let mut i: usize = 0;
    while i < entries.len()
        invariant
            entries@ == old(entries)@,
            s == entries_view(entries@),
            i <= entries.len(),
            key@ == name@,
            first_match(s, name@, 0) == first_match(s, name@, i as int),
            forall|j: int| 0 <= j < i ==> s[j].name != name@,
        decreases entries.len() - i,
    {
        if entries[i].name == key {
            let e = RepoProgress {
                name: entries[i].name.clone(),
                status,
                message: String::from_str(message),
                progress,
            };
            entries.set(i, e);
            assert(entries_view(entries@) =~= updated(s, name@, status, message@, progress));
            assert(names_of(s)[i as int] == name@);
            return true;
        }
        i = i + 1;
    }
    assert(!names_of(s).contains(name@)) by {
        if names_of(s).contains(name@) {
            let j = choose|j: int| 0 <= j < names_of(s).len() && names_of(s)[j] == name@;
            assert(s[j].name == name@);
        }
    }
    false
}

/// Counts of a table's rows, for the footer of the view.
pub struct ProgressSummary {
    pub total: usize,
    pub completed: usize,
    pub succeeded: usize,
    pub failed: usize,
}

/// Counts the rows: all of them, those done, those that succeeded, those
/// that failed.
pub fn summarize(entries: &Vec<RepoProgress>) -> (r: ProgressSummary)
    ensures
        r.total == entries@.len(),
        r.succeeded == count_status(entries_view(entries@), RepoStatus::Success),
        r.failed == count_status(entries_view(entries@), RepoStatus::Failed),
        r.completed == r.succeeded + r.failed,
{
    let ghost s = entries_view(entries@);
    let mut succeeded: usize = 0;
    let mut failed: usize = 0;
    let mut i: usize = 0;
    while i < entries.len()
        invariant
            s == entries_view(entries@),
            i <= entries.len(),
            succeeded == count_status(s.take(i as int), RepoStatus::Success),
            failed == count_status(s.take(i as int), RepoStatus::Failed),
            succeeded + failed <= i,
        decreases entries.len() - i,
    {
        assert(s.take(i + 1).drop_last() =~= s.take(i as int));
        if entries[i].status == RepoStatus::Success {
            succeeded = succeeded + 1;
        } else if entries[i].status == RepoStatus::Failed {
            failed = failed + 1;
        }
        i = i + 1;
    }
    assert(s.take(entries.len() as int) =~= s);
    ProgressSummary { total: entries.len(), completed: succeeded + failed, succeeded, failed }
}

/// Whether every repository of the table is done, which is when the view
/// stops waiting.
pub fn all_done(entries: &Vec<RepoProgress>) -> (r: bool)
    ensures
        r == all_terminal(entries_view(entries@)),
{
    let ghost s = entries_view(entries@);
    let mut i: usize = 0;
    while i < entries.len()
        invariant
            s == entries_view(entries@),
            i <= entries.len(),
            forall|j: int| 0 <= j < i ==> is_terminal(#[trigger] s[j].status),
        decreases entries.len() - i,
    {
        if entries[i].status != RepoStatus::Success && entries[i].status != RepoStatus::Failed {
            assert(!is_terminal(s[i as int].status));
            return false;
        }
        i = i + 1;
    }
    true
}

/// Whether `key` is the one that closes the view before the batch is done.
pub fn is_cancel_key(key: char) -> (r: bool)
    ensures
        r == (key == 'q'),
{
    key == 'q'
}

/// The width of a progress bar, in cells.
pub const BAR_WIDTH: usize = 50;

/// How many cells of a progress bar are filled and how many are empty.
pub fn bar_cells(progress: u16) -> (r: (usize, usize))
    requires
        progress <= 100,
    ensures
        r.0 == BAR_WIDTH * progress as int / 100,
        r.0 + r.1 == BAR_WIDTH,
{
    let filled: usize = BAR_WIDTH * (progress as usize) / 100;
    (filled, BAR_WIDTH - filled)
}

} // verus!
