use std::path::PathBuf;
use webshell_detector::engine::{
    combine_scores, RuleLoadError, ScanEngine, ScanError, ScanInput, ScanMod,
};
use webshell_detector::fingerprint::count_fingerprint_matches;
use webshell_detector::pattern::count_pattern_matches;
use webshell_detector::entry::{EntryStatus, ScanEntry};
use webshell_detector::rules::{FingerprintRule, PatternRule};
use webshell_detector::task::{ScanTask, TaskStatus};

const BAD_DIGEST: &str = "5ab2908c8a9c406e25c19e004e54fe0c";
const EVIL_DIGEST: &str = "4034a346ccee15292d823416f7510a2f";

fn bad_rule(severity: i32) -> FingerprintRule {
    FingerprintRule::new(BAD_DIGEST.to_string(), 4, severity)
}

fn evil_rule(severity: i32) -> PatternRule {
    PatternRule::new("evil".to_string(), severity)
}

fn engine_with(
    scan_mod: ScanMod,
    fingerprints: Vec<FingerprintRule>,
    patterns: Vec<PatternRule>,
) -> ScanEngine {
    let mut engine = ScanEngine::new(scan_mod);
    assert_eq!(engine.load_rules(Some(fingerprints), Some(patterns)), Ok(()));
    engine
}

fn readable(name: &str, content: &[u8]) -> ScanInput {
    ScanInput { file: PathBuf::from(name), content: Some(content.to_vec()) }
}

fn unreadable(name: &str) -> ScanInput {
    ScanInput { file: PathBuf::from(name), content: None }
}

#[test]
fn new_engine_has_no_rules() {
    let engine = ScanEngine::new(ScanMod::Complete);
    assert_eq!(engine.scan_mod(), ScanMod::Complete);
    assert_eq!(engine.fingerprints().len(), 0);
    assert_eq!(engine.patterns().len(), 0);
}

#[test]
fn default_engine_is_quick() {
    let engine = ScanEngine::default();
    assert_eq!(engine.scan_mod(), ScanMod::Quick);
    assert_eq!(engine.fingerprints().len(), 0);
    assert_eq!(engine.patterns().len(), 0);
}

#[test]
fn scan_mode_names() {
    assert_eq!(ScanMod::Quick.name(), "Quick");
    assert_eq!(ScanMod::Complete.name(), "Complete");
    assert_eq!(ScanMod::Ai.name(), "AI");
}

#[test]
fn loaded_rules_keep_their_order() {
    let engine = engine_with(
        ScanMod::Quick,
        vec![bad_rule(5), FingerprintRule::new(EVIL_DIGEST.to_string(), 4, 2)],
        vec![evil_rule(3), PatternRule::new("x+".to_string(), 1)],
    );
    assert_eq!(engine.fingerprints().len(), 2);
    assert_eq!(engine.fingerprints()[0].digest_hex, BAD_DIGEST);
    assert_eq!(engine.fingerprints()[1].digest_hex, EVIL_DIGEST);
    assert_eq!(engine.patterns().len(), 2);
    assert_eq!(engine.patterns()[0].pattern, "evil");
    assert_eq!(engine.patterns()[1].pattern, "x+");
}

#[test]
fn failed_load_keeps_the_rules_held() {
    let mut engine = engine_with(ScanMod::Complete, vec![bad_rule(5)], vec![evil_rule(3)]);
    assert_eq!(engine.load_rules(None, Some(Vec::new())), Err(RuleLoadError::Fingerprints));
    assert_eq!(engine.fingerprints().len(), 1);
    assert_eq!(engine.patterns().len(), 1);
    assert_eq!(engine.load_rules(Some(Vec::new()), None), Err(RuleLoadError::Patterns));
    assert_eq!(engine.fingerprints().len(), 1);
    assert_eq!(engine.patterns().len(), 1);
    assert_eq!(engine.load_rules(None, None), Err(RuleLoadError::Fingerprints));
    assert_eq!(engine.fingerprints().len(), 1);
    assert_eq!(engine.patterns().len(), 1);
}

#[test]
fn verdict_parts_are_kept_where_their_sum_fits() {
    assert_eq!(combine_scores(Some(5), Some(6)), Ok((5, 6)));
    assert_eq!(combine_scores(Some(0), Some(0)), Ok((0, 0)));
    assert_eq!(combine_scores(Some(usize::MAX), Some(0)), Ok((usize::MAX, 0)));
    assert_eq!(combine_scores(Some(1), Some(usize::MAX - 1)), Ok((1, usize::MAX - 1)));
}

#[test]
fn verdict_that_cannot_be_held_is_refused() {
    assert_eq!(combine_scores(Some(usize::MAX), Some(1)), Err(ScanError::ScoreOverflow));
    assert_eq!(combine_scores(None, Some(1)), Err(ScanError::ScoreOverflow));
    assert_eq!(combine_scores(Some(1), None), Err(ScanError::ScoreOverflow));
    assert_eq!(combine_scores(None, None), Err(ScanError::ScoreOverflow));
}

#[test]
fn quick_mode_stops_at_the_fingerprint() {
    let engine = engine_with(ScanMod::Quick, vec![bad_rule(5)], vec![evil_rule(3)]);
    assert_eq!(count_fingerprint_matches(b"BAD!", &bad_rule(5)), Some(1));
    assert_eq!(engine.scan_buffer(b"BAD!"), Ok((5, 0)));
    let mut task = ScanTask::new();
    assert_eq!(engine.scan(&mut task, vec![readable("shell.php", b"BAD!")]), Ok(()));
    let entry = &task.entries()[0];
    assert_eq!(entry.file, PathBuf::from("shell.php"));
    assert_eq!(entry.md5_matches, 5);
    assert_eq!(entry.preg_matches, 0);
    assert_eq!(entry.warning_level, 5);
    assert_eq!(entry.status, EntryStatus::Danger);
}

#[test]
fn quick_mode_skips_patterns_after_a_fingerprint() {
    let engine = engine_with(ScanMod::Quick, vec![bad_rule(5)], vec![evil_rule(3)]);
    assert_eq!(engine.scan_buffer(b"BAD!evilevil"), Ok((5, 0)));
    assert_eq!(engine.scan_md5_quick(b"BAD!evilevil"), Some(5));
    assert_eq!(engine.scan_file_quick(b"BAD!evilevil"), Ok((5, 0)));
}

#[test]
fn quick_mode_counts_one_occurrence_of_the_first_rule() {
    let engine = engine_with(
        ScanMod::Quick,
        vec![FingerprintRule::new(EVIL_DIGEST.to_string(), 4, 2), bad_rule(5)],
        Vec::new(),
    );
    assert_eq!(engine.scan_buffer(b"BAD!BAD!evilevil"), Ok((2, 0)));
    assert_eq!(engine.scan_buffer(b"BAD!BAD!"), Ok((5, 0)));
}

#[test]
fn quick_mode_falls_back_to_the_first_matching_pattern() {
    let engine = engine_with(
        ScanMod::Quick,
        vec![bad_rule(5)],
        vec![PatternRule::new("absent".to_string(), 9), evil_rule(3), PatternRule::new("l".to_string(), 7)],
    );
    assert_eq!(engine.scan_md5_quick(b"evilevil"), None);
    assert_eq!(engine.scan_regex_quick("evilevil"), Some(6));
    assert_eq!(engine.scan_buffer(b"evilevil"), Ok((0, 6)));
}

#[test]
fn quick_mode_without_any_match_is_normal() {
    let engine = engine_with(ScanMod::Quick, vec![bad_rule(5)], vec![evil_rule(3)]);
    assert_eq!(engine.scan_buffer(b"hello world"), Ok((0, 0)));
    let mut task = ScanTask::new();
    assert_eq!(engine.scan(&mut task, vec![readable("index.html", b"hello world")]), Ok(()));
    assert_eq!(task.entries()[0].status, EntryStatus::Normal);
    assert_eq!(task.entries()[0].warning_level, 0);
}

#[test]
fn quick_mode_match_without_weight_decides_and_scores_nothing() {
    let engine = engine_with(ScanMod::Quick, vec![bad_rule(-4), bad_rule(5)], vec![evil_rule(3)]);
    assert_eq!(engine.scan_buffer(b"BAD!evil"), Ok((0, 0)));
    let mut task = ScanTask::new();
    assert_eq!(engine.scan(&mut task, vec![readable("odd.php", b"BAD!evil")]), Ok(()));
    assert_eq!(task.entries()[0].status, EntryStatus::Normal);
}

#[test]
fn complete_mode_adds_everything_up() {
    let engine = engine_with(ScanMod::Complete, vec![bad_rule(5)], vec![evil_rule(3)]);
    assert_eq!(count_fingerprint_matches(b"BAD!evilevil", &bad_rule(5)), Some(1));
    assert_eq!(count_pattern_matches("BAD!evilevil", &evil_rule(3)), 2);
    assert_eq!(engine.scan_buffer(b"BAD!evilevil"), Ok((5, 6)));
    let mut task = ScanTask::new();
    assert_eq!(engine.scan(&mut task, vec![readable("shell.php", b"BAD!evilevil")]), Ok(()));
    let entry = &task.entries()[0];
    assert_eq!(entry.md5_matches, 5);
    assert_eq!(entry.preg_matches, 6);
    assert_eq!(entry.warning_level, 11);
    assert_eq!(entry.status, EntryStatus::Danger);
}

#[test]
fn complete_mode_sums_over_rules_and_occurrences() {
    let engine = engine_with(
        ScanMod::Complete,
        vec![bad_rule(5), FingerprintRule::new(EVIL_DIGEST.to_string(), 4, 2), bad_rule(1)],
        vec![evil_rule(3), PatternRule::new("!".to_string(), 10)],
    );
    assert_eq!(engine.scan_md5_complete(b"BAD!evilBAD!"), Some(14));
    assert_eq!(engine.scan_regex_complete("BAD!evilBAD!"), Some(23));
    assert_eq!(engine.scan_file_complete(b"BAD!evilBAD!"), Ok((14, 23)));
}

#[test]
fn negative_severity_never_lowers_a_score() {
    let engine = engine_with(
        ScanMod::Complete,
        vec![bad_rule(5), bad_rule(-5)],
        vec![evil_rule(3), evil_rule(-100)],
    );
    assert_eq!(engine.scan_buffer(b"BAD!evil"), Ok((5, 3)));
}

#[test]
fn invalid_pattern_rule_is_skipped() {
    let engine = engine_with(
        ScanMod::Complete,
        Vec::new(),
        vec![PatternRule::new("evil(".to_string(), 50), evil_rule(3)],
    );
    assert_eq!(engine.scan_buffer(b"evil(evil("), Ok((0, 6)));
    let quick = engine_with(
        ScanMod::Quick,
        Vec::new(),
        vec![PatternRule::new("evil(".to_string(), 50), evil_rule(3)],
    );
    assert_eq!(quick.scan_buffer(b"evil(evil("), Ok((0, 6)));
    let mut task = ScanTask::new();
    assert_eq!(quick.scan(&mut task, vec![readable("a.php", b"evil(")]), Ok(()));
    assert_eq!(task.entries()[0].status, EntryStatus::Danger);
    assert_eq!(task.error_count(), 0);
}

#[test]
fn patterns_see_bytes_that_are_not_text() {
    let engine = engine_with(
        ScanMod::Complete,
        Vec::new(),
        vec![evil_rule(3), PatternRule::new("\u{FFFD}".to_string(), 1)],
    );
    assert_eq!(engine.scan_buffer(&[0xff, b'e', b'v', b'i', b'l', 0xfe]), Ok((0, 5)));
}

#[test]
fn empty_pattern_list_gives_no_pattern_score() {
    let engine = engine_with(ScanMod::Complete, vec![bad_rule(5)], Vec::new());
    assert_eq!(engine.scan_buffer(b"BAD!evilevil"), Ok((5, 0)));
    assert_eq!(engine.scan_regex_complete("evilevil"), Some(0));
    assert_eq!(engine.scan_regex_quick("evilevil"), Some(0));
}

#[test]
fn unreadable_file_does_not_stop_the_run() {
    let engine = engine_with(ScanMod::Complete, vec![bad_rule(5)], vec![evil_rule(3)]);
    let mut task = ScanTask::new();
    let files = vec![unreadable("locked.php"), readable("clean.php", b"<?php echo 1; ?>")];
    assert_eq!(engine.scan(&mut task, files), Ok(()));
    task.task_completed();
    assert_eq!(task.status(), TaskStatus::Completed);
    assert_eq!(task.file_count(), 2);
    assert_eq!(task.error_count(), 1);
    assert_eq!(task.danger_count(), 0);
    assert_eq!(task.scanned_count(), 2);
    assert_eq!(task.entries()[0].file, PathBuf::from("locked.php"));
    assert_eq!(task.entries()[0].status, EntryStatus::Error);
    assert_eq!(task.entries()[0].md5_matches, 0);
    assert_eq!(task.entries()[0].preg_matches, 0);
    assert_eq!(task.entries()[0].warning_level, 0);
    assert_eq!(task.entries()[1].file, PathBuf::from("clean.php"));
    assert_eq!(task.entries()[1].status, EntryStatus::Normal);
}

#[test]
fn empty_rule_set_finds_nothing() {
    for scan_mod in [ScanMod::Quick, ScanMod::Complete] {
        let engine = engine_with(scan_mod, Vec::new(), Vec::new());
        let mut task = ScanTask::new();
        let files = vec![
            readable("a.php", b"BAD!evilevil"),
            readable("b.php", b""),
            readable("c.bin", &[0, 159, 146, 150]),
        ];
        assert_eq!(engine.scan(&mut task, files), Ok(()));
        assert_eq!(task.file_count(), 3);
        assert_eq!(task.danger_count(), 0);
        assert_eq!(task.error_count(), 0);
        for entry in task.entries() {
            assert_eq!(entry.status, EntryStatus::Normal);
            assert_eq!(entry.warning_level, 0);
        }
    }
}

#[test]
fn reserved_mode_is_refused() {
    let engine = engine_with(ScanMod::Ai, vec![bad_rule(5)], vec![evil_rule(3)]);
    assert_eq!(engine.scan_buffer(b"BAD!evil"), Err(ScanError::NotImplemented));
    let mut task = ScanTask::new();
    assert_eq!(
        engine.scan(&mut task, vec![readable("a.php", b"BAD!evil")]),
        Err(ScanError::NotImplemented)
    );
    assert_eq!(task.entries().len(), 0);
    assert_eq!(task.file_count(), 0);
    assert_eq!(task.status(), TaskStatus::Running);
}

#[test]
fn one_entry_is_scanned_in_place() {
    let engine = engine_with(ScanMod::Complete, vec![bad_rule(5)], vec![evil_rule(3)]);
    let mut entry = ScanEntry::new(PathBuf::from("shell.php"));
    assert_eq!(engine.scan_entry(&mut entry, Some(b"BAD!evilevil")), Ok(()));
    assert_eq!(entry.file, PathBuf::from("shell.php"));
    assert_eq!(entry.md5_matches, 5);
    assert_eq!(entry.preg_matches, 6);
    assert_eq!(entry.warning_level, 11);
    assert_eq!(entry.status, EntryStatus::Danger);
    let mut clean = ScanEntry::new(PathBuf::from("clean.php"));
    assert_eq!(engine.scan_entry(&mut clean, Some(b"hello")), Ok(()));
    assert_eq!(clean.status, EntryStatus::Normal);
    assert_eq!(clean.warning_level, 0);
}

#[test]
fn unreadable_entry_ends_in_error() {
    let engine = engine_with(ScanMod::Quick, vec![bad_rule(5)], vec![evil_rule(3)]);
    let mut entry = ScanEntry::new(PathBuf::from("locked.php"));
    assert_eq!(engine.scan_entry(&mut entry, None), Ok(()));
    assert_eq!(entry.status, EntryStatus::Error);
    assert_eq!(entry.md5_matches, 0);
    assert_eq!(entry.preg_matches, 0);
    assert_eq!(entry.warning_level, 0);
}

#[test]
fn scanned_entry_is_not_scanned_again() {
    let engine = engine_with(ScanMod::Complete, vec![bad_rule(5)], vec![evil_rule(3)]);
    let mut entry = ScanEntry::new(PathBuf::from("a.php"));
    assert_eq!(engine.scan_entry(&mut entry, Some(b"clean")), Ok(()));
    assert_eq!(entry.status, EntryStatus::Normal);
    assert_eq!(engine.scan_entry(&mut entry, Some(b"BAD!evil")), Ok(()));
    assert_eq!(entry.status, EntryStatus::Normal);
    assert_eq!(entry.warning_level, 0);
    assert_eq!(engine.scan_entry(&mut entry, None), Ok(()));
    assert_eq!(entry.status, EntryStatus::Normal);
    let mut failed = ScanEntry::new_error(PathBuf::from("b.php"));
    assert_eq!(engine.scan_entry(&mut failed, Some(b"BAD!evil")), Ok(()));
    assert_eq!(failed.status, EntryStatus::Error);
    assert_eq!(failed.warning_level, 0);
}

#[test]
fn reserved_mode_leaves_an_entry_unchecked() {
    let engine = engine_with(ScanMod::Ai, vec![bad_rule(5)], vec![evil_rule(3)]);
    let mut entry = ScanEntry::new(PathBuf::from("a.php"));
    assert_eq!(engine.scan_entry(&mut entry, Some(b"BAD!evil")), Err(ScanError::NotImplemented));
    assert_eq!(entry.status, EntryStatus::Unchecked);
    assert_eq!(entry.warning_level, 0);
    assert_eq!(engine.scan_entry(&mut entry, None), Err(ScanError::NotImplemented));
    assert_eq!(entry.status, EntryStatus::Unchecked);
}

#[test]
fn entries_come_in_the_order_of_the_files() {
    let engine = engine_with(ScanMod::Complete, vec![bad_rule(5)], vec![evil_rule(3)]);
    let mut task = ScanTask::new();
    assert_eq!(engine.scan(&mut task, vec![readable("1", b"BAD!"), readable("2", b"ok")]), Ok(()));
    assert_eq!(engine.scan(&mut task, vec![readable("3", b"evil"), unreadable("4")]), Ok(()));
    let names: Vec<PathBuf> = task.entries().iter().map(|e| e.file.clone()).collect();
    assert_eq!(
        names,
        vec![PathBuf::from("1"), PathBuf::from("2"), PathBuf::from("3"), PathBuf::from("4")]
    );
    let statuses: Vec<EntryStatus> = task.entries().iter().map(|e| e.status).collect();
    assert_eq!(
        statuses,
        vec![EntryStatus::Danger, EntryStatus::Normal, EntryStatus::Danger, EntryStatus::Error]
    );
    assert_eq!(task.file_count(), 4);
    assert_eq!(task.danger_count(), 2);
    assert_eq!(task.error_count(), 1);
}

#[test]
fn scanned_entries_keep_the_score_invariant() {
    let engine = engine_with(ScanMod::Complete, vec![bad_rule(5)], vec![evil_rule(3)]);
    let mut task = ScanTask::new();
    let files = vec![
        readable("a", b"BAD!BAD!"),
        readable("b", b"evil"),
        readable("c", b"fine"),
        unreadable("d"),
    ];
    assert_eq!(engine.scan(&mut task, files), Ok(()));
    for entry in task.entries() {
        assert_eq!(entry.warning_level, entry.md5_matches + entry.preg_matches);
        match entry.status {
            EntryStatus::Error => assert_eq!(entry.warning_level, 0),
            EntryStatus::Danger => assert!(entry.warning_level > 0),
            EntryStatus::Normal => assert_eq!(entry.warning_level, 0),
            EntryStatus::Unchecked => panic!("a scanned file stayed unchecked"),
        }
    }
    assert_eq!(task.entries()[0].warning_level, 10);
}
