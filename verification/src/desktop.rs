//! Desktop directory entries and the pure decisions that select
//! them: the attribute mask test, the name exclusion list, and the
//! hidden-entry tests of both platforms. Walking the directories is
//! the surrounding program's work.
use vstd::prelude::*;

verus! {

use crate::text::{spec_starts_with, str_eq, str_starts_with};

/// The attribute value a failed metadata lookup stands for: no mask
/// test can pass on it.
pub const INVALID_FILE_ATTRIBUTES: u32 = 0xFFFF_FFFF;

/// The attribute bit that marks an entry hidden.
pub const FILE_ATTRIBUTE_HIDDEN: u32 = 0x2;

/// One entry found on a user's desktop.
#[derive(Clone, Debug)]
pub struct DesktopItem {
    /// The user whose desktop holds the entry.
    pub uname: String,
    /// Full path of the entry.
    pub path: String,
    /// Whether the entry is a directory.
    pub is_dir: bool,
    /// Whether the entry is hidden.
    pub is_hidden: bool,
    /// Raw attribute bits of the entry.
    pub attribute: u32,
}

/// Whether an entry's attributes pass the operator's mask: with no
/// mask everything passes; with one, the attributes must be valid
/// and contain every bit of the mask.
pub fn keep_by_attr(attr: u32, attr_filter: Option<u32>) -> (r: bool)
    ensures
        r == match attr_filter {
            Some(f) => attr != INVALID_FILE_ATTRIBUTES && (attr & f) == f,
            None => true,
        },
{
    match attr_filter {
        Some(f) => attr != INVALID_FILE_ATTRIBUTES && (attr & f) == f,
        None => true,
    }
}

/// Whether an entry name stands on the exclusion list.
pub fn name_excluded(fname: &str, filters: &Vec<String>) -> (r: bool)
    ensures
        r == exists|i: int| 0 <= i < filters@.len() && (#[trigger] filters@[i])@ == fname@,
{
    let mut i: usize = 0;
    while i < filters.len()
        invariant
            0 <= i <= filters@.len(),
            forall|j: int| 0 <= j < i ==> (#[trigger] filters@[j])@ != fname@,
        decreases filters@.len() - i,
    {
        if str_eq(filters[i].as_str(), fname) {
            return true;
        }
        i = i + 1;
    }
    false
}

/// Whether attribute bits mark an entry hidden.
pub fn attr_is_hidden(attr: u32) -> (r: bool)
    ensures
        r == ((attr & FILE_ATTRIBUTE_HIDDEN) != 0),
{
    (attr & FILE_ATTRIBUTE_HIDDEN) != 0
}

/// Whether a file name is hidden by the dot convention.
pub fn dot_hidden(fname: &str) -> (r: bool)
    ensures
        r == spec_starts_with(fname@, "."@),
{
    str_starts_with(fname, ".")
}

} // verus!
