use std::path::PathBuf;
use webshell_detector::entry::{EntryStatus, ScanEntry};
use webshell_detector::task::{ScanTask, TaskStatus};

fn mixed_entries() -> Vec<ScanEntry> {
    vec![
        ScanEntry::new_result_entry(PathBuf::from("a"), 5, 0),
        ScanEntry::new_error(PathBuf::from("b")),
        ScanEntry::new_result_entry(PathBuf::from("c"), 0, 0),
        ScanEntry::new(PathBuf::from("d")),
        ScanEntry::new_result_entry(PathBuf::from("e"), 0, 2),
    ]
}

#[test]
fn new_task_is_running_and_empty() {
    let task = ScanTask::new();
    assert_eq!(task.status(), TaskStatus::Running);
    assert_eq!(task.entries().len(), 0);
    assert_eq!(task.extensions.len(), 0);
    assert_eq!(task.file_count(), 0);
    assert_eq!(task.dir_count, 0);
    assert_eq!(task.error_count(), 0);
    assert_eq!(task.danger_count(), 0);
    assert_eq!(task.scanned_count(), 0);
    assert_eq!(task.end_time(), None);
    assert_eq!(task.duration(), 0);
}

#[test]
fn default_task_is_a_new_task() {
    let task = ScanTask::default();
    assert_eq!(task.status(), TaskStatus::Running);
    assert_eq!(task.file_count(), 0);
    assert_eq!(task.end_time(), None);
    assert_eq!(task.duration(), 0);
}

#[test]
fn task_status_names() {
    assert_eq!(TaskStatus::Running.name(), "Running");
    assert_eq!(TaskStatus::Paused.name(), "Paused");
    assert_eq!(TaskStatus::Break.name(), "Break");
    assert_eq!(TaskStatus::Completed.name(), "Completed");
}

#[test]
fn collecting_derives_the_counts() {
    let mut task = ScanTask::new();
    task.collect_entries(mixed_entries());
    assert_eq!(task.file_count(), 5);
    assert_eq!(task.error_count(), 1);
    assert_eq!(task.danger_count(), 2);
    assert_eq!(task.scanned_count(), 4);
    assert_eq!(task.entries().len(), 5);
    assert_eq!(task.entries()[3].status, EntryStatus::Unchecked);
}

#[test]
fn collecting_appends_behind_what_is_held() {
    let mut task = ScanTask::new();
    task.collect_entries(vec![ScanEntry::new_error(PathBuf::from("first"))]);
    task.collect_entries(vec![ScanEntry::new_result_entry(PathBuf::from("second"), 1, 1)]);
    task.collect_entries(Vec::new());
    assert_eq!(task.entries().len(), 2);
    assert_eq!(task.entries()[0].file, PathBuf::from("first"));
    assert_eq!(task.entries()[1].file, PathBuf::from("second"));
    assert_eq!(task.file_count(), 2);
    assert_eq!(task.error_count(), 1);
    assert_eq!(task.danger_count(), 1);
}

#[test]
fn refresh_of_a_running_task_takes_the_time_given() {
    let mut task = ScanTask::new();
    task.refresh_status_at(1_500);
    assert_eq!(task.duration(), 1_500);
    assert_eq!(task.end_time(), None);
    task.refresh_status_at(2_500);
    assert_eq!(task.duration(), 2_500);
    assert_eq!(task.status(), TaskStatus::Running);
}

#[test]
fn refresh_twice_gives_the_same_counts() {
    let mut task = ScanTask::new();
    task.collect_entries(mixed_entries());
    task.refresh_status();
    let first: (usize, usize, usize) = (task.file_count(), task.error_count(), task.danger_count());
    task.refresh_status();
    let second: (usize, usize, usize) = (task.file_count(), task.error_count(), task.danger_count());
    assert_eq!(first, (5, 1, 2));
    assert_eq!(second, first);
}

#[test]
fn refresh_after_the_end_keeps_the_duration() {
    let mut task = ScanTask::new();
    task.collect_entries(mixed_entries());
    task.task_completed_at(40_000);
    task.refresh_status_at(90_000);
    assert_eq!(task.duration(), 40_000);
    task.refresh_status();
    assert_eq!(task.duration(), 40_000);
    task.refresh_status();
    assert_eq!(task.duration(), 40_000);
    assert_eq!(task.end_time(), Some(40_000));
    assert_eq!(task.file_count(), 5);
}

#[test]
fn completing_fixes_the_end_and_the_counts() {
    let mut task = ScanTask::new();
    task.collect_entries(mixed_entries());
    task.task_completed_at(7_000);
    assert_eq!(task.status(), TaskStatus::Completed);
    assert_eq!(task.end_time(), Some(7_000));
    assert_eq!(task.duration(), 7_000);
    assert_eq!(task.file_count(), 5);
    assert_eq!(task.error_count(), 1);
    assert_eq!(task.danger_count(), 2);
}

#[test]
fn completing_twice_changes_nothing() {
    let mut task = ScanTask::new();
    task.task_completed_at(7_000);
    task.task_completed_at(9_000);
    assert_eq!(task.status(), TaskStatus::Completed);
    assert_eq!(task.end_time(), Some(7_000));
    assert_eq!(task.duration(), 7_000);
    task.task_completed();
    assert_eq!(task.status(), TaskStatus::Completed);
    assert_eq!(task.end_time(), Some(7_000));
    assert_eq!(task.duration(), 7_000);
}

#[test]
fn completing_by_the_clock_sets_end_and_duration_alike() {
    let mut task = ScanTask::new();
    task.task_completed();
    assert_eq!(task.status(), TaskStatus::Completed);
    let end: Option<u128> = task.end_time();
    assert!(end.is_some());
    assert_eq!(Some(task.duration()), end);
    task.task_completed();
    assert_eq!(task.end_time(), end);
    assert_eq!(Some(task.duration()), end);
}

#[test]
fn clock_of_a_running_task_does_not_run_backwards() {
    let mut task = ScanTask::new();
    let started = task.start_time();
    task.refresh_status();
    let first: u128 = task.duration();
    task.refresh_status();
    let second: u128 = task.duration();
    assert!(second >= first);
    assert_eq!(task.start_time(), started);
    assert!(second <= started.elapsed().as_nanos());
}

#[test]
fn completed_task_still_collects_and_counts() {
    let mut task = ScanTask::new();
    task.task_completed_at(3);
    task.collect_entries(vec![ScanEntry::new_error(PathBuf::from("late"))]);
    assert_eq!(task.file_count(), 1);
    assert_eq!(task.error_count(), 1);
    assert_eq!(task.duration(), 3);
    assert_eq!(task.status(), TaskStatus::Completed);
}

#[test]
fn public_fields_are_left_alone_by_a_refresh() {
    let mut task = ScanTask::new();
    task.extensions = vec!["php".to_string()];
    task.dir_count = 4;
    task.collect_entries(mixed_entries());
    task.task_completed();
    assert_eq!(task.extensions, vec!["php".to_string()]);
    assert_eq!(task.dir_count, 4);
}
