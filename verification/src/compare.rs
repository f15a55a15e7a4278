//! The verdict of a structural comparison of two generated binding files.
//!
//! The comparison itself parses and normalises the two files elsewhere and
//! reduces each to the set of items the other lacks; here stands the data
//! that carries the verdict and the decision that classifies it.

use vstd::prelude::*;

verus! {

/// The items that each file holds and the other does not, rendered as one
/// string per item.
pub struct CmpDiff {
    /// Items only the first file holds.
    pub file1: Vec<String>,
    /// Items only the second file holds.
    pub file2: Vec<String>,
}

/// The verdict of comparing two binding files as unordered collections of
/// items.
pub enum CmpResult {
    /// The files hold the same items.
    Equivalent,
    /// The files differ; the payload says how.
    Different(CmpDiff),
}

impl CmpDiff {
    /// Whether neither side holds an item the other lacks.
    pub fn is_empty(&self) -> (b: bool)
        ensures
            b == (self.file1@.len() == 0 && self.file2@.len() == 0),
    {
        self.file1.len() == 0 && self.file2.len() == 0
    }
}

impl CmpResult {
    /// Whether the verdict says the files hold the same items.
    pub fn is_equivalent(&self) -> (b: bool)
        ensures
            b == (*self is Equivalent),
    {
        match self {
            CmpResult::Equivalent => true,
            CmpResult::Different(_) => false,
        }
    }
}

/// Classifies a computed difference: two files are equivalent exactly when
/// neither holds an item the other lacks; otherwise the difference itself
/// is the verdict.
pub fn classify(diff: CmpDiff) -> (r: CmpResult)
    ensures
        (diff.file1@.len() == 0 && diff.file2@.len() == 0) ==> r is Equivalent,
        (diff.file1@.len() != 0 || diff.file2@.len() != 0) ==> r == CmpResult::Different(diff),
{
    if diff.file1.len() == 0 && diff.file2.len() == 0 {
        CmpResult::Equivalent
    } else {
        CmpResult::Different(diff)
    }
}

} // verus!
