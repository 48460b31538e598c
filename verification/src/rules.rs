//! The two kinds of rules a scan is driven by, and how a severity weighs.

use vstd::prelude::*;

verus! {

/// A known-bad byte sequence, given by its length and the lowercase
/// hexadecimal rendering of its MD5 digest.
pub struct FingerprintRule {
    pub digest_hex: String,
    pub window_length: u32,
    pub severity: i32,
}

/// A regular expression that marks suspicious text.
///
/// A pattern that does not compile is kept as it is and never matches.
pub struct PatternRule {
    pub pattern: String,
    pub severity: i32,
}

/// What one occurrence of a rule adds to a score: the severity, or nothing
/// where the severity is negative.
pub open spec fn weight(severity: i32) -> nat {
    if severity > 0 {
        severity as nat
    } else {
        0
    }
}

/// What `hits` occurrences of a rule add to a score.
pub open spec fn contribution(hits: nat, severity: i32) -> nat {
    hits * weight(severity)
}

/// Nothing is added where nothing occurs or where an occurrence weighs
/// nothing; otherwise at least as much as there are occurrences.
pub proof fn lemma_contribution_bounds(hits: nat, severity: i32)
    ensures
        hits == 0 || weight(severity) == 0 ==> contribution(hits, severity) == 0,
        weight(severity) >= 1 ==> contribution(hits, severity) >= hits,
{
    assert(hits == 0 || weight(severity) == 0 ==> hits * weight(severity) == 0)
        by (nonlinear_arith);
    assert(weight(severity) >= 1 ==> hits * weight(severity) >= hits) by (nonlinear_arith);
}

/// Computes [`weight`].
pub fn severity_weight(severity: i32) -> (w: usize)
    ensures
        w == weight(severity),
{
    if severity > 0 {
        severity as usize
    } else {
        0
    }
}

/// Computes [`contribution`], or `None` where it does not fit in a `usize`.
pub fn rule_contribution(hits: usize, severity: i32) -> (score: Option<usize>)
    ensures
        match score {
            Some(s) => s == contribution(hits as nat, severity),
            None => contribution(hits as nat, severity) > usize::MAX,
        },
{
    hits.checked_mul(severity_weight(severity))
}

/// Adds what `hits` occurrences of a rule are worth to a running `total`,
/// or gives `None` where the sum does not fit in a `usize`.
pub fn add_contribution(total: usize, hits: usize, severity: i32) -> (sum: Option<usize>)
    ensures
        match sum {
            Some(s) => s == total + contribution(hits as nat, severity),
            None => total + contribution(hits as nat, severity) > usize::MAX,
        },
{
    match rule_contribution(hits, severity) {
        Some(part) => total.checked_add(part),
        None => None,
    }
}

impl FingerprintRule {
    /// A rule for windows of `window_length` bytes whose digest reads
    /// `digest_hex`.
    pub fn new(digest_hex: String, window_length: u32, severity: i32) -> (rule: Self)
        ensures
            rule.digest_hex == digest_hex,
            rule.window_length == window_length,
            rule.severity == severity,
    {
        FingerprintRule { digest_hex, window_length, severity }
    }

    /// Makes a rule of a row of the rule store, which keeps lengths as
    /// signed numbers. A row with a negative length is malformed and gives
    /// no rule.
    pub fn from_row(digest_hex: String, len: i32, severity: i32) -> (rule: Option<Self>)
        ensures
            rule == if len >= 0 {
                Some(FingerprintRule { digest_hex, window_length: len as u32, severity })
            } else {
                None
            },
    {
        if len >= 0 {
            Some(FingerprintRule { digest_hex, window_length: len as u32, severity })
        } else {
            None
        }
    }
}

impl PatternRule {
    /// A rule for the regular expression `pattern`.
    pub fn new(pattern: String, severity: i32) -> (rule: Self)
        ensures
            rule.pattern == pattern,
            rule.severity == severity,
    {
        PatternRule { pattern, severity }
    }
}

} // verus!
