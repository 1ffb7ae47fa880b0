//! The list of directories searched for executables, and how a newly
//! provisioned tool's directory enters it.

use vstd::prelude::*;
use vstd::string::*;
use crate::text::{same_text, texts};

verus! {

/// The search path after `dir` was asked to be put in front: unchanged
/// where it already holds `dir`, else `dir` followed by the old entries.
pub open spec fn spec_prepend(paths: Seq<Seq<char>>, dir: Seq<char>) -> Seq<Seq<char>> {
    if paths.contains(dir) {
        paths
    } else {
        seq![dir] + paths
    }
}

/// Whether the search path holds `dir`.
pub fn contains_dir(paths: &Vec<String>, dir: &str) -> (r: bool)
    ensures
        r == texts(paths@).contains(dir@),
{
    let mut i: usize = 0;
    while i < paths.len()
        invariant
            i <= paths@.len(),
            forall|k: int| 0 <= k < i ==> texts(paths@)[k] != dir@,
        decreases paths@.len() - i,
    {
        if same_text(paths[i].as_str(), dir) {
            assert(texts(paths@)[i as int] == dir@);
            return true;
        }
        i = i + 1;
    }
    false
}

/// Puts `dir` in front of the search path unless the path already holds
/// it, in which case the path is returned as it was.
pub fn prepend_dir(paths: Vec<String>, dir: &str) -> (r: Vec<String>)
    ensures
        texts(r@) == spec_prepend(texts(paths@), dir@),
{
    if contains_dir(&paths, dir) {
        paths
    } else {
        let mut out = paths;
        let ghost before = out@;
        out.insert(0, String::from_str(dir));
        assert(texts(out@) =~= seq![dir@] + texts(before));
        out
    }
}

/// Putting a directory in front that the path already holds changes
/// nothing.
pub proof fn lemma_prepend_present(paths: Seq<Seq<char>>, dir: Seq<char>)
    requires
        paths.contains(dir),
    ensures
        spec_prepend(paths, dir) == paths,
{
}

/// A directory that the path does not hold yet ends up before every
/// earlier entry, and the earlier entries keep their order.
pub proof fn lemma_prepend_absent(paths: Seq<Seq<char>>, dir: Seq<char>)
    requires
        !paths.contains(dir),
    ensures
        spec_prepend(paths, dir).len() == paths.len() + 1,
        spec_prepend(paths, dir)[0] == dir,
        forall|i: int| 0 <= i < paths.len() ==> spec_prepend(paths, dir)[i + 1] == paths[i],
{
}

/// After the call the path holds the directory, and asking again changes
/// nothing.
pub proof fn lemma_prepend_idempotent(paths: Seq<Seq<char>>, dir: Seq<char>)
    ensures
        spec_prepend(paths, dir).contains(dir),
        spec_prepend(spec_prepend(paths, dir), dir) == spec_prepend(paths, dir),
{
    if !paths.contains(dir) {
        assert(spec_prepend(paths, dir)[0] == dir);
    }
}

/// A path without repeated entries has none afterwards either.
pub proof fn lemma_prepend_keeps_distinct(paths: Seq<Seq<char>>, dir: Seq<char>)
    requires
        paths.no_duplicates(),
    ensures
        spec_prepend(paths, dir).no_duplicates(),
{
    if !paths.contains(dir) {
        let out = spec_prepend(paths, dir);
        assert forall|i: int, j: int| 0 <= i < out.len() && 0 <= j < out.len() && i != j implies out[i]
            != out[j] by {
            if i > 0 {
                assert(out[i] == paths[i - 1]);
            }
            if j > 0 {
                assert(out[j] == paths[j - 1]);
            }
        }
    }
}

} // verus!
