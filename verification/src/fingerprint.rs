//! The fingerprint matcher: which byte windows of a buffer carry a rule's
//! digest.

use crate::rules::FingerprintRule;
use vstd::prelude::*;
use vstd::slice::slice_subrange;

verus! {

/// The MD5 digest of `data`, as the `md5` crate computes it.
pub uninterp spec fn md5_digest(data: Seq<u8>) -> Seq<u8>;

/// The sixteen lowercase hexadecimal digits, in order.
pub open spec fn hex_digits() -> Seq<char> {
    seq!['0', '1', '2', '3', '4', '5', '6', '7', '8', '9', 'a', 'b', 'c', 'd', 'e', 'f']
}

/// Two lowercase hexadecimal digits for each byte, the high one first.
pub open spec fn lower_hex(bytes: Seq<u8>) -> Seq<char>
    decreases bytes.len(),
{
    if bytes.len() == 0 {
        Seq::empty()
    } else {
        lower_hex(bytes.drop_last()).push(hex_digits()[bytes.last() as int / 16]).push(
            hex_digits()[bytes.last() as int % 16],
        )
    }
}

/// The digest of `data` as the text a rule is written in.
pub open spec fn digest_hex(data: Seq<u8>) -> Seq<char> {
    lower_hex(md5_digest(data))
}

/// Calls `md5::compute`. Trusted: the sixteen bytes returned are the MD5
/// digest of `data`, which depends on `data` alone.
#[verifier::external_body]
fn md5_compute(data: &[u8]) -> (digest: [u8; 16])
    ensures
        digest@ == md5_digest(data@),
{
    md5::compute(data).0
}

/// Formats an `md5::Digest` with `{:x}`. Trusted: that rendering writes each
/// byte as two lowercase hexadecimal digits, in the order of the bytes.
#[verifier::external_body]
fn digest_to_hex(digest: &[u8; 16]) -> (hex: String)
    ensures
        hex@ == lower_hex(digest@),
{
    format!("{:x}", md5::Digest(*digest))
}

/// Whether the window of `width` bytes that starts at `offset` carries the
/// digest `wanted`.
pub open spec fn window_hit(buffer: Seq<u8>, wanted: Seq<char>, width: nat, offset: int) -> bool {
    digest_hex(buffer.subrange(offset, offset + width)) == wanted
}

/// How many of the offsets below `upto` start a window that hits.
pub open spec fn hits_below(buffer: Seq<u8>, wanted: Seq<char>, width: nat, upto: nat) -> nat
    decreases upto,
{
    if upto == 0 {
        0
    } else {
        hits_below(buffer, wanted, width, (upto - 1) as nat) + if window_hit(
            buffer,
            wanted,
            width,
            upto - 1,
        ) {
            1nat
        } else {
            0nat
        }
    }
}

/// How many windows of `width` bytes a buffer of `len` bytes has: one for
/// each offset from 0 up to and including `len - width`.
pub open spec fn window_count(len: nat, width: nat) -> nat {
    if len >= width {
        (len - width + 1) as nat
    } else {
        0
    }
}

/// How many windows of `buffer` carry the fingerprint of `rule`.
pub open spec fn fingerprint_hits(buffer: Seq<u8>, rule: FingerprintRule) -> nat {
    hits_below(
        buffer,
        rule.digest_hex@,
        rule.window_length as nat,
        window_count(buffer.len(), rule.window_length as nat),
    )
}

/// Whether any window of `buffer` carries the fingerprint of `rule`.
pub open spec fn fingerprint_found(buffer: Seq<u8>, rule: FingerprintRule) -> bool {
    exists|offset: int|
        0 <= offset < window_count(buffer.len(), rule.window_length as nat) && #[trigger] window_hit(
            buffer,
            rule.digest_hex@,
            rule.window_length as nat,
            offset,
        )
}

/// Tests one window against a rule.
///
/// The window must lie inside the buffer.
fn window_matches(buffer: &[u8], rule: &FingerprintRule, offset: usize) -> (hit: bool)
    requires
        offset + rule.window_length <= buffer@.len(),
    ensures
        hit == window_hit(buffer@, rule.digest_hex@, rule.window_length as nat, offset as int),
{
    let width = rule.window_length as usize;
    assert(buffer.len() == buffer@.len());
    let window = slice_subrange(buffer, offset, offset + width);
    let digest = md5_compute(window);
    let hex = digest_to_hex(&digest);
    hex == rule.digest_hex
}

/// The count is positive exactly when some offset below `upto` hits.
pub proof fn lemma_hits_below_positive(buffer: Seq<u8>, wanted: Seq<char>, width: nat, upto: nat)
    ensures
        hits_below(buffer, wanted, width, upto) > 0 <==> exists|offset: int|
            0 <= offset < upto && #[trigger] window_hit(buffer, wanted, width, offset),
    decreases upto,
{
    if upto > 0 {
        let prev = (upto - 1) as nat;
        lemma_hits_below_positive(buffer, wanted, width, prev);
        if hits_below(buffer, wanted, width, upto) > 0 {
            if window_hit(buffer, wanted, width, upto - 1) {
            } else {
                let offset = choose|offset: int|
                    0 <= offset < prev && #[trigger] window_hit(buffer, wanted, width, offset);
                assert(0 <= offset < upto && window_hit(buffer, wanted, width, offset));
            }
        }
        if exists|offset: int|
            0 <= offset < upto && #[trigger] window_hit(buffer, wanted, width, offset) {
            let offset = choose|offset: int|
                0 <= offset < upto && #[trigger] window_hit(buffer, wanted, width, offset);
            if offset < prev {
                assert(0 <= offset < prev && window_hit(buffer, wanted, width, offset));
            }
        }
    }
}

/// Counts the windows of `buffer` that carry the fingerprint of `rule`.
///
/// A buffer shorter than the window has none. The result is `None` only
/// where the count does not fit in a `usize`.
pub fn count_fingerprint_matches(buffer: &[u8], rule: &FingerprintRule) -> (hits: Option<usize>)
    ensures
        match hits {
            Some(n) => n == fingerprint_hits(buffer@, *rule),
            None => fingerprint_hits(buffer@, *rule) > usize::MAX,
        },
{
    let width = rule.window_length as usize;
    if buffer.len() < width {
        return Some(0);
    }
    let last = buffer.len() - width;
    let mut hits: usize = 0;
    let mut offset: usize = 0;
    while offset < last
        invariant
            offset <= last,
            last + width == buffer@.len(),
            width == rule.window_length,
            hits <= offset,
            hits == hits_below(buffer@, rule.digest_hex@, width as nat, offset as nat),
        decreases last - offset,
    {
        if window_matches(buffer, rule, offset) {
            hits = hits + 1;
        }
        offset = offset + 1;
    }
    if window_matches(buffer, rule, last) {
        hits.checked_add(1)
    } else {
        Some(hits)
    }
}

/// Finds the first window of `buffer` that carries the fingerprint of
/// `rule`, and returns its offset.
pub fn first_fingerprint_match(buffer: &[u8], rule: &FingerprintRule) -> (found: Option<usize>)
    ensures
        found.is_some() == fingerprint_found(buffer@, *rule),
        found.is_some() == (fingerprint_hits(buffer@, *rule) > 0),
        found matches Some(at) ==> {
            &&& at < window_count(buffer@.len(), rule.window_length as nat)
            &&& window_hit(buffer@, rule.digest_hex@, rule.window_length as nat, at as int)
            &&& forall|earlier: int|
                0 <= earlier < at ==> !#[trigger] window_hit(
                    buffer@,
                    rule.digest_hex@,
                    rule.window_length as nat,
                    earlier,
                )
        },
{
    let width = rule.window_length as usize;
    proof {
        lemma_hits_below_positive(
            buffer@,
            rule.digest_hex@,
            width as nat,
            window_count(buffer@.len(), width as nat),
        );
    }
    if buffer.len() < width {
        return None;
    }
    let last = buffer.len() - width;
    let mut offset: usize = 0;
    while offset < last
        invariant
            offset <= last,
            last + width == buffer@.len(),
            width == rule.window_length,
            forall|earlier: int|
                0 <= earlier < offset ==> !#[trigger] window_hit(
                    buffer@,
                    rule.digest_hex@,
                    width as nat,
                    earlier,
                ),
        decreases last - offset,
    {
        if window_matches(buffer, rule, offset) {
            proof {
                lemma_hits_below_positive(
                    buffer@,
                    rule.digest_hex@,
                    width as nat,
                    window_count(buffer@.len(), width as nat),
                );
            }
            return Some(offset);
        }
        offset = offset + 1;
    }
    if window_matches(buffer, rule, last) {
        Some(last)
    } else {
        None
    }
}

/// A buffer that is exactly the fingerprinted byte sequence matches the rule
/// once: its only window is the buffer itself.
pub proof fn lemma_exact_buffer_matches_once(buffer: Seq<u8>, rule: FingerprintRule)
    requires
        rule.window_length == buffer.len(),
        rule.digest_hex@ == digest_hex(buffer),
    ensures
        fingerprint_hits(buffer, rule) == 1,
{
    assert(buffer.subrange(0, buffer.len() as int) == buffer);
    reveal_with_fuel(hits_below, 2);
}

/// A buffer shorter than the window of a rule has no window at all, so the
/// rule does not match it.
pub proof fn lemma_short_buffer_never_matches(buffer: Seq<u8>, rule: FingerprintRule)
    requires
        buffer.len() < rule.window_length,
    ensures
        fingerprint_hits(buffer, rule) == 0,
        !fingerprint_found(buffer, rule),
{
}

} // verus!
