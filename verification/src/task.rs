//! The record of one run: its entries, the counts derived from them, and
//! its timing.

use crate::entry::{EntryStatus, ScanEntry};
use std::time::Instant;
use vstd::prelude::*;

verus! {

/// `std::time::Instant`, carried through as an opaque value.
#[verifier::external_type_specification]
#[verifier::external_body]
pub struct ExInstant(Instant);

/// Reads the monotonic clock with `Instant::now`. Nothing is promised of
/// the reading.
#[verifier::external_body]
fn clock_now() -> (now: Instant) {
    Instant::now()
}

/// The nanoseconds that have passed since `start`, from `Instant::elapsed`.
/// Nothing is promised of the reading.
#[verifier::external_body]
fn nanos_since(start: &Instant) -> (elapsed: u128) {
    start.elapsed().as_nanos()
}

/// Where a run stands. `Paused` and `Break` are reserved: nothing in this
/// library enters them.
#[derive(Clone, Copy, Debug, PartialEq, Eq, Structural)]
pub enum TaskStatus {
    Running,
    Paused,
    Break,
    Completed,
}

impl TaskStatus {
    /// The text shown for this status in reports.
    pub open spec fn label(self) -> Seq<char> {
        match self {
            TaskStatus::Running => "Running"@,
            TaskStatus::Paused => "Paused"@,
            TaskStatus::Break => "Break"@,
            TaskStatus::Completed => "Completed"@,
        }
    }

    /// The status as text.
    pub fn name(&self) -> (s: &'static str)
        ensures
            s@ == self.label(),
    {
        match self {
            TaskStatus::Running => "Running",
            TaskStatus::Paused => "Paused",
            TaskStatus::Break => "Break",
            TaskStatus::Completed => "Completed",
        }
    }
}

/// How many of `entries` are in `status`.
pub open spec fn count_in_status(entries: Seq<ScanEntry>, status: EntryStatus) -> nat
    decreases entries.len(),
{
    if entries.len() == 0 {
        0
    } else {
        count_in_status(entries.drop_last(), status) + if entries.last().status == status {
            1nat
        } else {
            0nat
        }
    }
}

/// How many of `entries` have left `Unchecked`.
pub open spec fn count_scanned(entries: Seq<ScanEntry>) -> nat {
    (entries.len() - count_in_status(entries, EntryStatus::Unchecked)) as nat
}

/// A count never exceeds the number of entries.
pub proof fn lemma_count_bounded(entries: Seq<ScanEntry>, status: EntryStatus)
    ensures
        count_in_status(entries, status) <= entries.len(),
    decreases entries.len(),
{
    if entries.len() > 0 {
        lemma_count_bounded(entries.drop_last(), status);
    }
}

/// Where no entry is in `status`, the count is zero.
pub proof fn lemma_count_none(entries: Seq<ScanEntry>, status: EntryStatus)
    requires
        forall|i: int| 0 <= i < entries.len() ==> (#[trigger] entries[i]).status != status,
    ensures
        count_in_status(entries, status) == 0,
    decreases entries.len(),
{
    if entries.len() > 0 {
        assert forall|i: int| 0 <= i < entries.drop_last().len() implies (
        #[trigger] entries.drop_last()[i]).status != status by {
            assert(entries.drop_last()[i] == entries[i]);
        }
        lemma_count_none(entries.drop_last(), status);
    }
}

/// What a task is, for contracts. Times are nanoseconds counted from the
/// start of the task.
pub struct TaskModel {
    pub running_status: TaskStatus,
    pub entries: Seq<ScanEntry>,
    pub extensions: Seq<String>,
    pub file_count: nat,
    pub dir_count: nat,
    pub error_count: nat,
    pub danger_count: nat,
    pub start_time: Instant,
    pub end_time: Option<nat>,
    pub duration: nat,
}

impl TaskModel {
    /// A task that has just started at `start_time`.
    pub open spec fn fresh(start_time: Instant) -> TaskModel {
        TaskModel {
            running_status: TaskStatus::Running,
            entries: Seq::empty(),
            extensions: Seq::empty(),
            file_count: 0,
            dir_count: 0,
            error_count: 0,
            danger_count: 0,
            start_time,
            end_time: None,
            duration: 0,
        }
    }

    /// Whether the three counts are what the entries say.
    pub open spec fn counts_current(self) -> bool {
        &&& self.file_count == self.entries.len()
        &&& self.error_count == count_in_status(self.entries, EntryStatus::Error)
        &&& self.danger_count == count_in_status(self.entries, EntryStatus::Danger)
    }

    /// The task after its counts and its duration have been derived anew,
    /// `elapsed` nanoseconds after its start. A task that has an end keeps
    /// the duration up to that end.
    pub open spec fn refreshed(self, elapsed: nat) -> TaskModel {
        TaskModel {
            file_count: self.entries.len(),
            error_count: count_in_status(self.entries, EntryStatus::Error),
            danger_count: count_in_status(self.entries, EntryStatus::Danger),
            duration: match self.end_time {
                Some(end) => end,
                None => elapsed,
            },
            ..self
        }
    }

    /// The task after `more` entries have been added behind those it holds.
    pub open spec fn collected(self, more: Seq<ScanEntry>, elapsed: nat) -> TaskModel {
        TaskModel { entries: self.entries + more, ..self }.refreshed(elapsed)
    }

    /// The task after it has been told to complete, `elapsed` nanoseconds
    /// after its start. A completed task stays as it is.
    pub open spec fn completed(self, elapsed: nat) -> TaskModel {
        if self.running_status == TaskStatus::Completed {
            self
        } else {
            TaskModel {
                running_status: TaskStatus::Completed,
                end_time: Some(elapsed),
                ..self
            }.refreshed(elapsed)
        }
    }
}

/// The run-level record of a scan.
pub struct ScanTask {
    running_status: TaskStatus,
    entries: Vec<ScanEntry>,
    pub extensions: Vec<String>,
    file_count: usize,
    pub dir_count: usize,
    error_count: usize,
    danger_count: usize,
    start_time: Instant,
    end_time: Option<u128>,
    duration: u128,
}

impl View for ScanTask {
    type V = TaskModel;

    closed spec fn view(&self) -> TaskModel {
        TaskModel {
            running_status: self.running_status,
            entries: self.entries@,
            extensions: self.extensions@,
            file_count: self.file_count as nat,
            dir_count: self.dir_count as nat,
            error_count: self.error_count as nat,
            danger_count: self.danger_count as nat,
            start_time: self.start_time,
            end_time: match self.end_time {
                Some(end) => Some(end as nat),
                None => None,
            },
            duration: self.duration as nat,
        }
    }
}

/// Counts the entries in `status`.
fn count_entries(entries: &Vec<ScanEntry>, status: EntryStatus) -> (count: usize)
    ensures
        count == count_in_status(entries@, status),
{
    let mut count: usize = 0;
    let mut i: usize = 0;
    assert(entries@.take(0) == Seq::<ScanEntry>::empty());
    while i < entries.len()
        invariant
            i <= entries@.len(),
            count <= i,
            count == count_in_status(entries@.take(i as int), status),
        decreases entries@.len() - i,
    {
        proof {
            let upto = entries@.take(i + 1);
            assert(upto.drop_last() == entries@.take(i as int));
            assert(upto.last() == entries@[i as int]);
        }
        if entries[i].status == status {
            count = count + 1;
        }
        i = i + 1;
    }
    assert(entries@.take(i as int) == entries@);
    count
}

impl Default for ScanTask {
    /// A running task without entries, started now.
    fn default() -> (task: Self)
        ensures
            task@ == TaskModel::fresh(task@.start_time),
    {
        ScanTask {
            running_status: TaskStatus::Running,
            entries: Vec::new(),
            extensions: Vec::new(),
            file_count: 0,
            dir_count: 0,
            error_count: 0,
            danger_count: 0,
            start_time: clock_now(),
            end_time: None,
            duration: 0,
        }
    }
}

impl ScanTask {
    /// A running task without entries, started now.
    pub fn new() -> (task: Self)
        ensures
            task@ == TaskModel::fresh(task@.start_time),
    {
        Self::default()
    }

    /// Where the run stands.
    pub fn status(&self) -> (status: TaskStatus)
        ensures
            status == self@.running_status,
    {
        self.running_status
    }

    /// The entries collected so far, in the order they came.
    pub fn entries(&self) -> (entries: &Vec<ScanEntry>)
        ensures
            entries@ == self@.entries,
    {
        &self.entries
    }

    /// The number of entries at the last refresh.
    pub fn file_count(&self) -> (count: usize)
        ensures
            count == self@.file_count,
    {
        self.file_count
    }

    /// The number of entries in `Error` at the last refresh.
    pub fn error_count(&self) -> (count: usize)
        ensures
            count == self@.error_count,
    {
        self.error_count
    }

    /// The number of entries in `Danger` at the last refresh.
    pub fn danger_count(&self) -> (count: usize)
        ensures
            count == self@.danger_count,
    {
        self.danger_count
    }

    /// The number of entries that have left `Unchecked`, counted now.
    pub fn scanned_count(&self) -> (count: usize)
        ensures
            count == count_scanned(self@.entries),
    {
        proof {
            lemma_count_bounded(self.entries@, EntryStatus::Unchecked);
        }
        self.entries.len() - count_entries(&self.entries, EntryStatus::Unchecked)
    }

    /// When the run started.
    pub fn start_time(&self) -> (start: Instant)
        ensures
            start == self@.start_time,
    {
        self.start_time
    }

    /// When the run was completed, in nanoseconds after its start.
    pub fn end_time(&self) -> (end: Option<u128>)
        ensures
            match end {
                Some(at) => self@.end_time == Some(at as nat),
                None => self@.end_time is None,
            },
    {
        self.end_time
    }

    /// How long the run took, in nanoseconds, as of the last refresh.
    pub fn duration(&self) -> (nanos: u128)
        ensures
            nanos == self@.duration,
    {
        self.duration
    }

    /// Derives the counts from the entries and sets the duration, given the
    /// nanoseconds that have passed since the start.
    pub fn refresh_status_at(&mut self, elapsed: u128)
        ensures
            final(self)@ == old(self)@.refreshed(elapsed as nat),
            final(self)@.counts_current(),
    {
        self.file_count = self.entries.len();
        self.error_count = count_entries(&self.entries, EntryStatus::Error);
        self.danger_count = count_entries(&self.entries, EntryStatus::Danger);
        self.duration = match self.end_time {
            Some(end) => end,
            None => elapsed,
        };
    }

    /// Derives the counts from the entries and the duration from the clock.
    ///
    /// The duration of a task that has an end is the time up to that end;
    /// that of a running task is whatever the clock says has passed.
    pub fn refresh_status(&mut self)
        ensures
            final(self)@ == old(self)@.refreshed(final(self)@.duration),
            final(self)@.counts_current(),
    {
        let elapsed = nanos_since(&self.start_time);
        self.refresh_status_at(elapsed);
    }

    /// Adds `result` behind the entries held, then refreshes.
    pub fn collect_entries(&mut self, result: Vec<ScanEntry>)
        ensures
            final(self)@ == old(self)@.collected(result@, final(self)@.duration),
            final(self)@.counts_current(),
    {
        let mut result = result;
        self.entries.append(&mut result);
        self.refresh_status();
    }

    /// Completes the task, given the nanoseconds that have passed since the
    /// start: the end is fixed there and the counts are derived once more.
    /// A task that is already completed is left as it is.
    pub fn task_completed_at(&mut self, elapsed: u128)
        ensures
            final(self)@ == old(self)@.completed(elapsed as nat),
    {
        if self.running_status == TaskStatus::Completed {
            return ;
        }
        self.end_time = Some(elapsed);
        self.running_status = TaskStatus::Completed;
        self.refresh_status_at(elapsed);
    }

    /// Completes the task at the time the clock gives.
    ///
    /// A task that is already completed is left as it is; otherwise its end
    /// and its duration are both what the clock says has passed.
    pub fn task_completed(&mut self)
        ensures
            final(self)@ == old(self)@.completed(final(self)@.duration),
    {
        if self.running_status == TaskStatus::Completed {
            return ;
        }
        let elapsed = nanos_since(&self.start_time);
        self.task_completed_at(elapsed);
    }
}

/// Refreshing twice in a row, with the entries untouched in between, gives
/// the counts of the first refresh; and where the task has an end, the
/// second refresh changes nothing at all, whatever the clock says.
pub proof fn lemma_refresh_idempotent(task: TaskModel, first: nat, second: nat)
    ensures
        task.refreshed(first).refreshed(second).file_count == task.refreshed(first).file_count,
        task.refreshed(first).refreshed(second).error_count == task.refreshed(first).error_count,
        task.refreshed(first).refreshed(second).danger_count == task.refreshed(
            first,
        ).danger_count,
        task.end_time is Some ==> task.refreshed(first).refreshed(second) == task.refreshed(first),
{
}

/// Completing is one-way: a second completion changes nothing, neither the
/// end, nor the status, nor anything else.
pub proof fn lemma_complete_once(task: TaskModel, first: nat, second: nat)
    ensures
        task.completed(first).completed(second) == task.completed(first),
        task.completed(first).running_status == TaskStatus::Completed,
{
}

} // verus!
