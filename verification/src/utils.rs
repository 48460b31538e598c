//! Which files a run looks at: the rule on file extensions.

use vstd::prelude::*;

verus! {

/// The lowercase form of `text` that `str::to_lowercase` gives.
pub uninterp spec fn lowercase(text: Seq<char>) -> Seq<char>;

/// Calls `str::to_lowercase`. Trusted: the text returned depends on the
/// argument alone.
#[verifier::external_body]
fn to_lowercase(text: &str) -> (lower: String)
    ensures
        lower@ == lowercase(text@),
{
    text.to_lowercase()
}

/// Whether `listed` lets `extension` through: it is the wildcard, or the two
/// are equal but for case.
pub open spec fn extension_matches(extension: Seq<char>, listed: Seq<char>) -> bool {
    listed == "*"@ || lowercase(listed) == lowercase(extension)
}

/// Whether a file with `extension` is a candidate under `extensions`. An
/// empty list lets every extension through; a file without an extension is
/// never a candidate.
pub open spec fn extension_accepted(extension: Option<Seq<char>>, extensions: Seq<String>) -> bool {
    match extension {
        None => false,
        Some(ext) => extensions.len() == 0 || exists|i: int|
            0 <= i < extensions.len() && extension_matches(ext, #[trigger] extensions[i]@),
    }
}

/// Decides whether a file with the given extension is to be scanned.
pub fn accepts_extension(extension: Option<&str>, extensions: &Vec<String>) -> (accepted: bool)
    ensures
        accepted == extension_accepted(
            match extension {
                Some(ext) => Some(ext@),
                None => None,
            },
            extensions@,
        ),
{
    let ext = match extension {
        Some(ext) => ext,
        None => {
            return false;
        },
    };
    if extensions.len() == 0 {
        return true;
    }
    let wanted = to_lowercase(ext);
    let wildcard = "*".to_owned();
    let mut i: usize = 0;
    while i < extensions.len()
        invariant
            i <= extensions@.len(),
            extension == Some(ext),
            wanted@ == lowercase(ext@),
            wildcard@ == "*"@,
            forall|j: int| 0 <= j < i ==> !extension_matches(ext@, #[trigger] extensions@[j]@),
        decreases extensions@.len() - i,
    {
        let listed = &extensions[i];
        if *listed == wildcard || to_lowercase(listed.as_str()) == wanted {
            assert(extension_matches(ext@, extensions@[i as int]@));
            return true;
        }
        i = i + 1;
    }
    false
}

} // verus!
