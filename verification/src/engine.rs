//! The scan engine: the rule set of a run, the scan modes, and the verdict
//! each mode reaches on the bytes of one file.

use crate::entry::{EntryStatus, ScanEntry};
use crate::fingerprint::{
    count_fingerprint_matches, fingerprint_found, fingerprint_hits, first_fingerprint_match,
};
use crate::pattern::{
    count_pattern_matches, lossy_text, pattern_hits, regex_compiles, utf8_lossy,
};
use crate::rules::{
    add_contribution, contribution, lemma_contribution_bounds, rule_contribution,
    severity_weight, weight, FingerprintRule, PatternRule,
};
use crate::task::{count_in_status, lemma_count_none, ScanTask};
use std::path::PathBuf;
use vstd::prelude::*;

verus! {

/// How thoroughly a file is searched.
#[derive(Clone, Copy, Debug, PartialEq, Eq, Structural)]
pub enum ScanMod {
    /// Stop at the first rule that matches.
    Quick,
    /// Evaluate every rule and add everything up.
    Complete,
    /// Reserved for an outside classifier; scanning in this mode is refused.
    Ai,
}

impl ScanMod {
    /// The text shown for this mode in reports.
    pub open spec fn label(self) -> Seq<char> {
        match self {
            ScanMod::Quick => "Quick"@,
            ScanMod::Complete => "Complete"@,
            ScanMod::Ai => "AI"@,
        }
    }

    /// The mode as text.
    pub fn name(&self) -> (s: &'static str)
        ensures
            s@ == self.label(),
    {
        match self {
            ScanMod::Quick => "Quick",
            ScanMod::Complete => "Complete",
            ScanMod::Ai => "AI",
        }
    }
}

/// What all fingerprint rules together add to the score of `buffer` when
/// every occurrence of every rule counts.
pub open spec fn fingerprint_total(buffer: Seq<u8>, rules: Seq<FingerprintRule>) -> nat
    decreases rules.len(),
{
    if rules.len() == 0 {
        0
    } else {
        fingerprint_total(buffer, rules.drop_last()) + contribution(
            fingerprint_hits(buffer, rules.last()),
            rules.last().severity,
        )
    }
}

/// What all pattern rules together add to the score of `text` when every
/// match of every rule counts.
pub open spec fn pattern_total(text: Seq<char>, rules: Seq<PatternRule>) -> nat
    decreases rules.len(),
{
    if rules.len() == 0 {
        0
    } else {
        pattern_total(text, rules.drop_last()) + contribution(
            pattern_hits(text, rules.last().pattern@),
            rules.last().severity,
        )
    }
}

/// The score of the first fingerprint rule, in list order, that occurs in
/// `buffer`: one occurrence of it. `None` where no rule occurs.
pub open spec fn first_fingerprint_score(buffer: Seq<u8>, rules: Seq<FingerprintRule>) -> Option<
    nat,
>
    decreases rules.len(),
{
    if rules.len() == 0 {
        None
    } else if fingerprint_found(buffer, rules.first()) {
        Some(weight(rules.first().severity))
    } else {
        first_fingerprint_score(buffer, rules.drop_first())
    }
}

/// The score of the first pattern rule, in list order, that matches `text`:
/// all of its matches. Zero where no rule matches.
pub open spec fn first_pattern_score(text: Seq<char>, rules: Seq<PatternRule>) -> nat
    decreases rules.len(),
{
    if rules.len() == 0 {
        0
    } else if pattern_hits(text, rules.first().pattern@) > 0 {
        contribution(pattern_hits(text, rules.first().pattern@), rules.first().severity)
    } else {
        first_pattern_score(text, rules.drop_first())
    }
}

/// The two parts of a file's score: what fingerprints gave and what
/// patterns gave.
pub struct Scores {
    pub md5_matches: nat,
    pub preg_matches: nat,
}

impl Scores {
    pub open spec fn total(self) -> nat {
        self.md5_matches + self.preg_matches
    }
}

/// The verdict of quick mode: the first fingerprint rule that occurs decides
/// alone; only where none occurs are the patterns consulted, and then the
/// first pattern rule that matches decides alone.
pub open spec fn quick_scores(
    buffer: Seq<u8>,
    fingerprints: Seq<FingerprintRule>,
    patterns: Seq<PatternRule>,
) -> Scores {
    match first_fingerprint_score(buffer, fingerprints) {
        Some(score) => Scores { md5_matches: score, preg_matches: 0 },
        None => Scores {
            md5_matches: 0,
            preg_matches: first_pattern_score(utf8_lossy(buffer), patterns),
        },
    }
}

/// The verdict of complete mode: everything that any rule finds.
pub open spec fn complete_scores(
    buffer: Seq<u8>,
    fingerprints: Seq<FingerprintRule>,
    patterns: Seq<PatternRule>,
) -> Scores {
    Scores {
        md5_matches: fingerprint_total(buffer, fingerprints),
        preg_matches: pattern_total(utf8_lossy(buffer), patterns),
    }
}

/// Adding a rule never lowers the total.
pub proof fn lemma_fingerprint_total_grows(buffer: Seq<u8>, rules: Seq<FingerprintRule>, n: int)
    requires
        0 <= n <= rules.len(),
    ensures
        fingerprint_total(buffer, rules.take(n)) <= fingerprint_total(buffer, rules),
    decreases rules.len(),
{
    if n == rules.len() {
        assert(rules.take(n) == rules);
    } else {
        assert(rules.drop_last().take(n) == rules.take(n));
        lemma_fingerprint_total_grows(buffer, rules.drop_last(), n);
    }
}

/// Adding a rule never lowers the total.
pub proof fn lemma_pattern_total_grows(text: Seq<char>, rules: Seq<PatternRule>, n: int)
    requires
        0 <= n <= rules.len(),
    ensures
        pattern_total(text, rules.take(n)) <= pattern_total(text, rules),
    decreases rules.len(),
{
    if n == rules.len() {
        assert(rules.take(n) == rules);
    } else {
        assert(rules.drop_last().take(n) == rules.take(n));
        lemma_pattern_total_grows(text, rules.drop_last(), n);
    }
}

/// Puts the two parts of a verdict together. The verdict is refused where
/// a part could not be held (`None`), or where their sum cannot.
pub fn combine_scores(md5_matches: Option<usize>, preg_matches: Option<usize>) -> (scores: Result<
    (usize, usize),
    ScanError,
>)
    ensures
        scores == match (md5_matches, preg_matches) {
            (Some(m), Some(p)) if m + p <= usize::MAX => Ok::<(usize, usize), ScanError>((m, p)),
            _ => Err(ScanError::ScoreOverflow),
        },
{
    match (md5_matches, preg_matches) {
        (Some(m), Some(p)) => match m.checked_add(p) {
            Some(_) => Ok((m, p)),
            None => Err(ScanError::ScoreOverflow),
        },
        _ => Err(ScanError::ScoreOverflow),
    }
}

/// The rule set of a run and the mode it is applied in.
pub struct ScanEngine {
    scan_mod: ScanMod,
    tokens: Vec<FingerprintRule>,
    pregs: Vec<PatternRule>,
}

/// What an engine is, for contracts.
pub struct EngineModel {
    pub scan_mod: ScanMod,
    pub fingerprints: Seq<FingerprintRule>,
    pub patterns: Seq<PatternRule>,
}

/// One candidate file as the caller found it: its path, and its bytes where
/// it could be opened and read to the end.
pub struct ScanInput {
    pub file: PathBuf,
    pub content: Option<Vec<u8>>,
}

/// Why a scan gave no verdict.
#[derive(Clone, Copy, Debug, PartialEq, Eq, Structural)]
pub enum ScanError {
    /// The engine is in a mode that this library does not carry out.
    NotImplemented,
    /// The score of the file does not fit in a `usize`.
    ScoreOverflow,
}

/// Why no rules were loaded: the list that could not be read.
#[derive(Clone, Copy, Debug, PartialEq, Eq, Structural)]
pub enum RuleLoadError {
    Fingerprints,
    Patterns,
}

impl EngineModel {
    /// An engine in `scan_mod` without rules.
    pub open spec fn empty(scan_mod: ScanMod) -> EngineModel {
        EngineModel { scan_mod, fingerprints: Seq::empty(), patterns: Seq::empty() }
    }

    /// The verdict on the bytes of one file in the mode of this engine;
    /// `None` in the mode that is not carried out.
    pub open spec fn verdict(self, buffer: Seq<u8>) -> Option<Scores> {
        match self.scan_mod {
            ScanMod::Quick => Some(self.quick(buffer)),
            ScanMod::Complete => Some(self.complete(buffer)),
            ScanMod::Ai => None,
        }
    }

    /// The entry after this engine was applied to it, given the bytes of
    /// its file, or `None` where the file could not be read.
    ///
    /// An entry that has left `Unchecked` stays as it is, and so does every
    /// entry in the reserved mode. A file that could not be read ends in
    /// `Error`, whatever the rules are. A file whose score cannot be held
    /// stays `Unchecked`.
    pub open spec fn scanned(self, entry: ScanEntry, content: Option<Seq<u8>>) -> ScanEntry {
        if self.scan_mod == ScanMod::Ai {
            entry
        } else {
            match content {
                None => entry.failed(),
                Some(bytes) => {
                    let scores = self.verdict(bytes).unwrap();
                    if scores.total() <= usize::MAX {
                        entry.finalized(scores.md5_matches as usize, scores.preg_matches as usize)
                    } else {
                        entry
                    }
                },
            }
        }
    }

    /// Whether a scan of an unchecked entry fails because the score of its
    /// file cannot be held.
    pub open spec fn overflows(self, content: Option<Seq<u8>>) -> bool {
        match (self.scan_mod, content) {
            (ScanMod::Ai, _) => false,
            (_, None) => false,
            (_, Some(bytes)) => self.verdict(bytes).unwrap().total() > usize::MAX,
        }
    }

    /// The entry that a scan leaves for one file.
    pub open spec fn outcome(self, input: ScanInput) -> ScanEntry {
        self.scanned(
            ScanEntry::unchecked(input.file),
            match input.content {
                Some(bytes) => Some(bytes@),
                None => None,
            },
        )
    }

    /// The engine after a load of rules was tried: both lists are taken, or
    /// neither is.
    pub open spec fn loaded(
        self,
        fingerprints: Option<Vec<FingerprintRule>>,
        patterns: Option<Vec<PatternRule>>,
    ) -> EngineModel {
        match (fingerprints, patterns) {
            (Some(f), Some(p)) => EngineModel { fingerprints: f@, patterns: p@, ..self },
            _ => self,
        }
    }

    /// The entries that a scan leaves for `files`, in their order.
    pub open spec fn outcomes(self, files: Seq<ScanInput>) -> Seq<ScanEntry> {
        Seq::new(files.len(), |i: int| self.outcome(files[i]))
    }

    /// The verdict of quick mode with this rule set.
    pub open spec fn quick(self, buffer: Seq<u8>) -> Scores {
        quick_scores(buffer, self.fingerprints, self.patterns)
    }

    /// The verdict of complete mode with this rule set.
    pub open spec fn complete(self, buffer: Seq<u8>) -> Scores {
        complete_scores(buffer, self.fingerprints, self.patterns)
    }
}

impl View for ScanEngine {
    type V = EngineModel;

    closed spec fn view(&self) -> EngineModel {
        EngineModel { scan_mod: self.scan_mod, fingerprints: self.tokens@, patterns: self.pregs@ }
    }
}

impl Default for ScanEngine {
    /// An engine in quick mode that holds no rules yet.
    fn default() -> (engine: Self)
        ensures
            engine@ == EngineModel::empty(ScanMod::Quick),
    {
        ScanEngine { scan_mod: ScanMod::Quick, tokens: Vec::new(), pregs: Vec::new() }
    }
}

impl ScanEngine {
    /// An engine for `scan_mod` that holds no rules yet.
    pub fn new(scan_mod: ScanMod) -> (engine: Self)
        ensures
            engine@ == EngineModel::empty(scan_mod),
    {
        ScanEngine { scan_mod, tokens: Vec::new(), pregs: Vec::new() }
    }

    /// Takes over the rules that were read from the rule store, where `None`
    /// stands for a list that could not be read.
    ///
    /// Rules are all or nothing: where either list is missing the engine
    /// keeps what it had, and the error names the first list that is missing.
    pub fn load_rules(
        &mut self,
        fingerprints: Option<Vec<FingerprintRule>>,
        patterns: Option<Vec<PatternRule>>,
    ) -> (done: Result<(), RuleLoadError>)
        ensures
            final(self)@ == old(self)@.loaded(fingerprints, patterns),
            done == match (fingerprints, patterns) {
                (None, _) => Err::<(), RuleLoadError>(RuleLoadError::Fingerprints),
                (Some(_), None) => Err(RuleLoadError::Patterns),
                (Some(_), Some(_)) => Ok(()),
            },
    {
        let tokens = match fingerprints {
            Some(rules) => rules,
            None => {
                return Err(RuleLoadError::Fingerprints);
            },
        };
        let pregs = match patterns {
            Some(rules) => rules,
            None => {
                return Err(RuleLoadError::Patterns);
            },
        };
        self.tokens = tokens;
        self.pregs = pregs;
        Ok(())
    }

    /// The mode this engine scans in.
    pub fn scan_mod(&self) -> (scan_mod: ScanMod)
        ensures
            scan_mod == self@.scan_mod,
    {
        self.scan_mod
    }

    /// The fingerprint rules, in the order they were loaded.
    pub fn fingerprints(&self) -> (rules: &Vec<FingerprintRule>)
        ensures
            rules@ == self@.fingerprints,
    {
        &self.tokens
    }

    /// The pattern rules, in the order they were loaded.
    pub fn patterns(&self) -> (rules: &Vec<PatternRule>)
        ensures
            rules@ == self@.patterns,
    {
        &self.pregs
    }

    /// The fingerprint phase of quick mode: the score of the first rule, in
    /// list order, that occurs anywhere in `buffer`. The search of a rule
    /// stops at its first occurrence, and no rule after it is looked at.
    pub fn scan_md5_quick(&self, buffer: &[u8]) -> (score: Option<usize>)
        ensures
            match score {
                Some(s) => first_fingerprint_score(buffer@, self@.fingerprints) == Some(s as nat),
                None => first_fingerprint_score(buffer@, self@.fingerprints) is None,
            },
    {
        let mut i: usize = 0;
        assert(self.tokens@.skip(0) == self.tokens@);
        while i < self.tokens.len()
            invariant
                i <= self.tokens@.len(),
                first_fingerprint_score(buffer@, self.tokens@) == first_fingerprint_score(
                    buffer@,
                    self.tokens@.skip(i as int),
                ),
            decreases self.tokens@.len() - i,
        {
            let rule = &self.tokens[i];
            let ghost rest = self.tokens@.skip(i as int);
            assert(rest.first() == *rule);
            assert(rest.drop_first() == self.tokens@.skip(i + 1));
            if first_fingerprint_match(buffer, rule).is_some() {
                return Some(severity_weight(rule.severity));
            }
            i = i + 1;
        }
        None
    }

    /// The pattern phase of quick mode: the score of the first rule, in list
    /// order, that matches `text` at all. `None` where that score does not
    /// fit in a `usize`.
    pub fn scan_regex_quick(&self, text: &str) -> (score: Option<usize>)
        ensures
            match score {
                Some(s) => s == first_pattern_score(text@, self@.patterns),
                None => first_pattern_score(text@, self@.patterns) > usize::MAX,
            },
    {
        let mut i: usize = 0;
        assert(self.pregs@.skip(0) == self.pregs@);
        while i < self.pregs.len()
            invariant
                i <= self.pregs@.len(),
                first_pattern_score(text@, self.pregs@) == first_pattern_score(
                    text@,
                    self.pregs@.skip(i as int),
                ),
            decreases self.pregs@.len() - i,
        {
            let rule = &self.pregs[i];
            let ghost rest = self.pregs@.skip(i as int);
            assert(rest.first() == *rule);
            assert(rest.drop_first() == self.pregs@.skip(i + 1));
            let hits = count_pattern_matches(text, rule);
            if hits > 0 {
                return rule_contribution(hits, rule.severity);
            }
            i = i + 1;
        }
        Some(0)
    }

    /// The fingerprint part of complete mode: every occurrence of every
    /// rule, weighed and added up. `None` where the sum does not fit in a
    /// `usize`.
    pub fn scan_md5_complete(&self, buffer: &[u8]) -> (score: Option<usize>)
        ensures
            match score {
                Some(s) => s == fingerprint_total(buffer@, self@.fingerprints),
                None => fingerprint_total(buffer@, self@.fingerprints) > usize::MAX,
            },
    {
        let mut total: usize = 0;
        let mut i: usize = 0;
        assert(self.tokens@.take(0) == Seq::<FingerprintRule>::empty());
        while i < self.tokens.len()
            invariant
                i <= self.tokens@.len(),
                total == fingerprint_total(buffer@, self.tokens@.take(i as int)),
            decreases self.tokens@.len() - i,
        {
            let rule = &self.tokens[i];
            proof {
                let upto = self.tokens@.take(i + 1);
                assert(upto.drop_last() == self.tokens@.take(i as int));
                assert(upto.last() == *rule);
                lemma_fingerprint_total_grows(buffer@, self.tokens@, i + 1);
            }
            let sum = match count_fingerprint_matches(buffer, rule) {
                Some(hits) => add_contribution(total, hits, rule.severity),
                None => {
                    // More occurrences than a `usize` counts: the sum only
                    // stays in range where they weigh nothing.
                    let per_hit = severity_weight(rule.severity);
                    proof {
                        lemma_contribution_bounds(fingerprint_hits(buffer@, *rule), rule.severity);
                    }
                    if per_hit == 0 {
                        Some(total)
                    } else {
                        None
                    }
                },
            };
            match sum {
                Some(s) => {
                    total = s;
                },
                None => {
                    return None;
                },
            }
            i = i + 1;
        }
        assert(self.tokens@.take(i as int) == self.tokens@);
        Some(total)
    }

    /// The pattern part of complete mode: every match of every rule, weighed
    /// and added up. `None` where the sum does not fit in a `usize`.
    pub fn scan_regex_complete(&self, text: &str) -> (score: Option<usize>)
        ensures
            match score {
                Some(s) => s == pattern_total(text@, self@.patterns),
                None => pattern_total(text@, self@.patterns) > usize::MAX,
            },
    {
        let mut total: usize = 0;
        let mut i: usize = 0;
        assert(self.pregs@.take(0) == Seq::<PatternRule>::empty());
        while i < self.pregs.len()
            invariant
                i <= self.pregs@.len(),
                total == pattern_total(text@, self.pregs@.take(i as int)),
            decreases self.pregs@.len() - i,
        {
            let rule = &self.pregs[i];
            proof {
                let upto = self.pregs@.take(i + 1);
                assert(upto.drop_last() == self.pregs@.take(i as int));
                assert(upto.last() == *rule);
                lemma_pattern_total_grows(text@, self.pregs@, i + 1);
            }
            let hits = count_pattern_matches(text, rule);
            match add_contribution(total, hits, rule.severity) {
                Some(s) => {
                    total = s;
                },
                None => {
                    return None;
                },
            }
            i = i + 1;
        }
        assert(self.pregs@.take(i as int) == self.pregs@);
        Some(total)
    }

    /// Quick mode on the bytes of one file. The patterns are consulted only
    /// where no fingerprint rule occurs. The only error is a score that
    /// does not fit in a `usize`.
    pub fn scan_file_quick(&self, buffer: &[u8]) -> (scores: Result<(usize, usize), ScanError>)
        ensures
            match scores {
                Ok((md5_matches, preg_matches)) => {
                    &&& md5_matches == self@.quick(buffer@).md5_matches
                    &&& preg_matches == self@.quick(buffer@).preg_matches
                    &&& md5_matches + preg_matches <= usize::MAX
                },
                Err(e) => {
                    &&& e == ScanError::ScoreOverflow
                    &&& self@.quick(buffer@).total() > usize::MAX
                },
            },
    {
        match self.scan_md5_quick(buffer) {
            Some(md5_matches) => Ok((md5_matches, 0)),
            None => {
                let text = lossy_text(buffer);
                combine_scores(Some(0), self.scan_regex_quick(text.as_str()))
            },
        }
    }

    /// Complete mode on the bytes of one file: every fingerprint rule and
    /// every pattern rule is evaluated in full. The only error is a score
    /// that does not fit in a `usize`.
    pub fn scan_file_complete(&self, buffer: &[u8]) -> (scores: Result<(usize, usize), ScanError>)
        ensures
            match scores {
                Ok((md5_matches, preg_matches)) => {
                    &&& md5_matches == self@.complete(buffer@).md5_matches
                    &&& preg_matches == self@.complete(buffer@).preg_matches
                    &&& md5_matches + preg_matches <= usize::MAX
                },
                Err(e) => {
                    &&& e == ScanError::ScoreOverflow
                    &&& self@.complete(buffer@).total() > usize::MAX
                },
            },
    {
        let md5_matches = self.scan_md5_complete(buffer);
        if md5_matches.is_none() {
            return Err(ScanError::ScoreOverflow);
        }
        let text = lossy_text(buffer);
        combine_scores(md5_matches, self.scan_regex_complete(text.as_str()))
    }

    /// Applies the mode of this engine to the bytes of one file.
    ///
    /// The reserved mode is refused. A score that does not fit in a `usize`
    /// is reported, never cut short.
    pub fn scan_buffer(&self, buffer: &[u8]) -> (scores: Result<(usize, usize), ScanError>)
        ensures
            match scores {
                Ok((md5_matches, preg_matches)) => {
                    &&& self@.verdict(buffer@) == Some(
                        Scores {
                            md5_matches: md5_matches as nat,
                            preg_matches: preg_matches as nat,
                        },
                    )
                    &&& md5_matches + preg_matches <= usize::MAX
                },
                Err(ScanError::NotImplemented) => self@.scan_mod == ScanMod::Ai,
                Err(ScanError::ScoreOverflow) => {
                    &&& self@.verdict(buffer@) is Some
                    &&& self@.verdict(buffer@).unwrap().total() > usize::MAX
                },
            },
    {
        match self.scan_mod {
            ScanMod::Quick => self.scan_file_quick(buffer),
            ScanMod::Complete => self.scan_file_complete(buffer),
            ScanMod::Ai => Err(ScanError::NotImplemented),
        }
    }

    /// Applies the mode of this engine to one entry, given the bytes of its
    /// file, or `None` where the file could not be opened or read to its end.
    ///
    /// The reserved mode is refused and an entry that has left `Unchecked`
    /// is final: both leave the entry as it is. An unreadable file ends in
    /// `Error` without any rule being looked at. Where the score of the file
    /// does not fit in a `usize`, the entry stays `Unchecked` and the error
    /// says so.
    pub fn scan_entry(&self, entry: &mut ScanEntry, content: Option<&[u8]>) -> (done: Result<
        (),
        ScanError,
    >)
        ensures
            *final(entry) == self@.scanned(
                *old(entry),
                match content {
                    Some(bytes) => Some(bytes@),
                    None => None,
                },
            ),
            old(entry).wf() ==> final(entry).wf(),
            done == if self@.scan_mod == ScanMod::Ai {
                Err::<(), ScanError>(ScanError::NotImplemented)
            } else if old(entry).status == EntryStatus::Unchecked && self@.overflows(
                match content {
                    Some(bytes) => Some(bytes@),
                    None => None,
                },
            ) {
                Err(ScanError::ScoreOverflow)
            } else {
                Ok(())
            },
    {
        if let ScanMod::Ai = self.scan_mod {
            return Err(ScanError::NotImplemented);
        }
        if entry.status != EntryStatus::Unchecked {
            return Ok(());
        }
        match content {
            None => {
                entry.mark_error();
                Ok(())
            },
            Some(bytes) => match self.scan_buffer(bytes) {
                Ok((md5_matches, preg_matches)) => {
                    entry.finalize(md5_matches, preg_matches);
                    Ok(())
                },
                Err(e) => Err(e),
            },
        }
    }

    /// Scans one file and makes its entry.
    fn scan_file(&self, input: ScanInput) -> (entry: ScanEntry)
        ensures
            entry == self@.outcome(input),
            entry.wf(),
    {
        let ScanInput { file, content } = input;
        let mut entry = ScanEntry::new(file);
        let _ = match content {
            Some(bytes) => self.scan_entry(&mut entry, Some(bytes.as_slice())),
            None => self.scan_entry(&mut entry, None),
        };
        entry
    }

    /// Scans `files` one after the other, in their order, and hands the
    /// entries to `task`, which refreshes its counts.
    ///
    /// In the reserved mode nothing is scanned and the task is not touched.
    /// One file never stops the others: a file that could not be read ends
    /// in `Error`, and one whose score cannot be held stays `Unchecked`.
    pub fn scan(&self, task: &mut ScanTask, files: Vec<ScanInput>) -> (done: Result<(), ScanError>)
        ensures
            match done {
                Ok(()) => {
                    &&& self@.scan_mod != ScanMod::Ai
                    &&& final(task)@ == old(task)@.collected(
                        self@.outcomes(files@),
                        final(task)@.duration,
                    )
                },
                Err(e) => {
                    &&& e == ScanError::NotImplemented
                    &&& self@.scan_mod == ScanMod::Ai
                    &&& final(task)@ == old(task)@
                },
            },
    {
        if let ScanMod::Ai = self.scan_mod {
            return Err(ScanError::NotImplemented);
        }
        let mut results: Vec<ScanEntry> = Vec::new();
        for input in iter: files
            invariant
                self@.scan_mod != ScanMod::Ai,
                iter.seq() == files@,
                results@ == self@.outcomes(files@.take(iter.index() as int)),
        {
            let entry = self.scan_file(input);
            results.push(entry);
        }
        assert(files@.take(files@.len() as int) == files@);
        task.collect_entries(results);
        Ok(())
    }
}

/// Whatever a scan leaves for a file keeps the invariant of entries.
pub proof fn lemma_outcome_wf(engine: EngineModel, input: ScanInput)
    ensures
        engine.outcome(input).wf(),
{
}

/// Without pattern rules, patterns add nothing to any verdict.
pub proof fn lemma_no_patterns_no_pattern_score(engine: EngineModel, buffer: Seq<u8>)
    requires
        engine.patterns.len() == 0,
    ensures
        engine.quick(buffer).preg_matches == 0,
        engine.complete(buffer).preg_matches == 0,
{
}

/// A rule whose pattern does not compile adds nothing: the verdict on a
/// text is the same with the rule as without it, in either mode and
/// wherever in the list the rule stands.
pub proof fn lemma_invalid_pattern_adds_nothing(
    text: Seq<char>,
    rules: Seq<PatternRule>,
    at: int,
)
    requires
        0 <= at < rules.len(),
        !regex_compiles(rules[at].pattern@),
    ensures
        pattern_total(text, rules) == pattern_total(text, rules.remove(at)),
        first_pattern_score(text, rules) == first_pattern_score(text, rules.remove(at)),
{
    lemma_pattern_total_skips(text, rules, at);
    lemma_first_pattern_score_skips(text, rules, at);
}

/// The complete half of [`lemma_invalid_pattern_adds_nothing`].
proof fn lemma_pattern_total_skips(text: Seq<char>, rules: Seq<PatternRule>, at: int)
    requires
        0 <= at < rules.len(),
        !regex_compiles(rules[at].pattern@),
    ensures
        pattern_total(text, rules) == pattern_total(text, rules.remove(at)),
    decreases rules.len(),
{
    if at == rules.len() - 1 {
        assert(rules.remove(at) == rules.drop_last());
        assert(pattern_hits(text, rules.last().pattern@) == 0);
        lemma_contribution_bounds(0, rules.last().severity);
    } else {
        let shorter = rules.remove(at);
        assert(shorter.drop_last() == rules.drop_last().remove(at));
        assert(shorter.last() == rules.last());
        lemma_pattern_total_skips(text, rules.drop_last(), at);
    }
}

/// The quick half of [`lemma_invalid_pattern_adds_nothing`].
proof fn lemma_first_pattern_score_skips(text: Seq<char>, rules: Seq<PatternRule>, at: int)
    requires
        0 <= at < rules.len(),
        !regex_compiles(rules[at].pattern@),
    ensures
        first_pattern_score(text, rules) == first_pattern_score(text, rules.remove(at)),
    decreases rules.len(),
{
    if at == 0 {
        assert(rules.remove(at) == rules.drop_first());
    } else {
        let shorter = rules.remove(at);
        assert(shorter.drop_first() == rules.drop_first().remove(at - 1));
        assert(shorter.first() == rules.first());
        lemma_first_pattern_score_skips(text, rules.drop_first(), at - 1);
    }
}

/// With an empty rule set, in a mode that scans, every file that could be
/// read ends in `Normal`, every other file in `Error`, and none in `Danger`.
pub proof fn lemma_no_rules_no_danger(engine: EngineModel, files: Seq<ScanInput>)
    requires
        engine.scan_mod != ScanMod::Ai,
        engine.fingerprints.len() == 0,
        engine.patterns.len() == 0,
    ensures
        forall|i: int|
            0 <= i < files.len() ==> (#[trigger] engine.outcomes(files)[i]).status == if files[i].content is Some {
                EntryStatus::Normal
            } else {
                EntryStatus::Error
            },
        count_in_status(engine.outcomes(files), EntryStatus::Danger) == 0,
{
    let entries = engine.outcomes(files);
    assert forall|i: int| 0 <= i < entries.len() implies (#[trigger] entries[i]).status
        != EntryStatus::Danger by {
        assert(entries[i] == engine.outcome(files[i]));
    }
    lemma_count_none(entries, EntryStatus::Danger);
}

} // verus!
