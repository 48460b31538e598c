//! The per-file record of a scan and its lifecycle.

use std::path::PathBuf;
use vstd::prelude::*;

verus! {

/// `std::path::PathBuf`, carried through as an opaque value: the library
/// never looks inside a path.
#[verifier::external_type_specification]
#[verifier::external_body]
pub struct ExPathBuf(PathBuf);

/// Where a file stands in its scan.
///
/// `Unchecked` is the only state that can be left; the other three are final.
#[derive(Clone, Copy, Debug, PartialEq, Eq, Structural)]
pub enum EntryStatus {
    Unchecked,
    Normal,
    Danger,
    Error,
}

impl EntryStatus {
    /// The text shown for this status in reports.
    pub open spec fn label(self) -> Seq<char> {
        match self {
            EntryStatus::Unchecked => "Unchecked"@,
            EntryStatus::Normal => "Normal"@,
            EntryStatus::Danger => "Danger"@,
            EntryStatus::Error => "Error"@,
        }
    }

    /// The status as text.
    pub fn name(&self) -> (s: &'static str)
        ensures
            s@ == self.label(),
    {
        match self {
            EntryStatus::Unchecked => "Unchecked",
            EntryStatus::Normal => "Normal",
            EntryStatus::Danger => "Danger",
            EntryStatus::Error => "Error",
        }
    }
}

/// The record kept for one candidate file.
pub struct ScanEntry {
    pub file: PathBuf,
    /// Severity accumulated from fingerprint rules.
    pub md5_matches: usize,
    /// Severity accumulated from pattern rules.
    pub preg_matches: usize,
    /// The risk score: the two accumulated severities together.
    pub warning_level: usize,
    pub status: EntryStatus,
}

impl ScanEntry {
    /// The invariant of an entry: the score is the sum of its two parts, and
    /// it is positive in `Danger` and zero in every other state.
    pub open spec fn wf(&self) -> bool {
        &&& self.warning_level == self.md5_matches + self.preg_matches
        &&& match self.status {
            EntryStatus::Danger => self.warning_level > 0,
            _ => self.warning_level == 0,
        }
    }

    /// The entry of a file that has not been scanned.
    pub open spec fn unchecked(file: PathBuf) -> ScanEntry {
        ScanEntry {
            file,
            md5_matches: 0,
            preg_matches: 0,
            warning_level: 0,
            status: EntryStatus::Unchecked,
        }
    }

    /// The entry of a file that could not be opened or read to its end.
    pub open spec fn unreadable(file: PathBuf) -> ScanEntry {
        ScanEntry {
            file,
            md5_matches: 0,
            preg_matches: 0,
            warning_level: 0,
            status: EntryStatus::Error,
        }
    }

    /// The entry of a file that was scanned and scored: dangerous exactly
    /// when the score is positive.
    pub open spec fn scored(file: PathBuf, md5_matches: usize, preg_matches: usize) -> ScanEntry {
        ScanEntry {
            file,
            md5_matches,
            preg_matches,
            warning_level: (md5_matches + preg_matches) as usize,
            status: if md5_matches + preg_matches > 0 {
                EntryStatus::Danger
            } else {
                EntryStatus::Normal
            },
        }
    }

    /// The entry after its file turned out to be unreadable. Only an
    /// unchecked entry changes: the other states are final.
    pub open spec fn failed(self) -> ScanEntry {
        if self.status == EntryStatus::Unchecked {
            Self::unreadable(self.file)
        } else {
            self
        }
    }

    /// The entry after its file was scanned and scored. Only an unchecked
    /// entry changes: the other states are final.
    pub open spec fn finalized(self, md5_matches: usize, preg_matches: usize) -> ScanEntry {
        if self.status == EntryStatus::Unchecked {
            Self::scored(self.file, md5_matches, preg_matches)
        } else {
            self
        }
    }

    /// A file that has not been scanned yet.
    pub fn new(file: PathBuf) -> (entry: Self)
        ensures
            entry == Self::unchecked(file),
            entry.wf(),
    {
        ScanEntry {
            file,
            md5_matches: 0,
            preg_matches: 0,
            warning_level: 0,
            status: EntryStatus::Unchecked,
        }
    }

    /// A file that could not be read. It carries no score.
    pub fn new_error(file: PathBuf) -> (entry: Self)
        ensures
            entry == Self::unreadable(file),
            entry.wf(),
    {
        ScanEntry {
            file,
            md5_matches: 0,
            preg_matches: 0,
            warning_level: 0,
            status: EntryStatus::Error,
        }
    }

    /// A file that was scanned, with what fingerprints and patterns gave.
    ///
    /// The two parts together must fit in a `usize`.
    pub fn new_result_entry(file: PathBuf, md5_matches: usize, preg_matches: usize) -> (entry: Self)
        requires
            md5_matches + preg_matches <= usize::MAX,
        ensures
            entry == Self::scored(file, md5_matches, preg_matches),
            entry.wf(),
    {
        let status = if md5_matches > 0 || preg_matches > 0 {
            EntryStatus::Danger
        } else {
            EntryStatus::Normal
        };
        ScanEntry {
            file,
            md5_matches,
            preg_matches,
            warning_level: md5_matches + preg_matches,
            status,
        }
    }

    /// Records that the file could not be opened or read to its end.
    ///
    /// An entry that has left `Unchecked` stays as it is.
    pub fn mark_error(&mut self)
        ensures
            *final(self) == old(self).failed(),
            old(self).wf() ==> final(self).wf(),
    {
        if self.status == EntryStatus::Unchecked {
            self.md5_matches = 0;
            self.preg_matches = 0;
            self.warning_level = 0;
            self.status = EntryStatus::Error;
        }
    }

    /// Records what a scan of the file gave: the two parts of the score,
    /// their sum, and the status that follows from it.
    ///
    /// An entry that has left `Unchecked` stays as it is. The two parts
    /// together must fit in a `usize`.
    pub fn finalize(&mut self, md5_matches: usize, preg_matches: usize)
        requires
            md5_matches + preg_matches <= usize::MAX,
        ensures
            *final(self) == old(self).finalized(md5_matches, preg_matches),
            old(self).wf() ==> final(self).wf(),
    {
        if self.status == EntryStatus::Unchecked {
            self.md5_matches = md5_matches;
            self.preg_matches = preg_matches;
            self.warning_level = md5_matches + preg_matches;
            self.status = if md5_matches > 0 || preg_matches > 0 {
                EntryStatus::Danger
            } else {
                EntryStatus::Normal
            };
        }
    }
}

/// An entry in `Error` carries no score at all.
pub proof fn lemma_error_entry_has_no_score(entry: ScanEntry)
    requires
        entry.wf(),
        entry.status == EntryStatus::Error,
    ensures
        entry.md5_matches == 0,
        entry.preg_matches == 0,
        entry.warning_level == 0,
{
}

/// An entry that has left `Unchecked` is final: neither a failure nor a
/// score changes it any more.
pub proof fn lemma_entry_is_final(entry: ScanEntry, md5_matches: usize, preg_matches: usize)
    requires
        entry.status != EntryStatus::Unchecked,
    ensures
        entry.failed() == entry,
        entry.finalized(md5_matches, preg_matches) == entry,
        entry.failed().failed() == entry.failed(),
{
}

/// Once an entry has been scanned, its score is the sum of its two parts,
/// and it is in `Danger` exactly when that score is positive.
pub proof fn lemma_scanned_entry_score(entry: ScanEntry)
    requires
        entry.wf(),
        entry.status != EntryStatus::Unchecked,
        entry.status != EntryStatus::Error,
    ensures
        entry.warning_level == entry.md5_matches + entry.preg_matches,
        entry.status == EntryStatus::Danger <==> entry.warning_level > 0,
{
}

} // verus!
