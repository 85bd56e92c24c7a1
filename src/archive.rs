//! What extraction does with each entry of an archive.

use vstd::prelude::*;
use crate::text::{ends_with_slash, has_trailing_slash};

verus! {

/// The treatment of one archive entry.
#[derive(Debug, Clone, Copy, PartialEq, Eq, Structural)]
pub enum EntryAction {
    /// The entry's name would resolve outside the destination: leave it out
    /// and go on with the next entry.
    Skip,
    /// A directory entry: create the directory tree.
    CreateDir,
    /// A file entry: create its parent directories, then write its bytes.
    WriteFile,
}

/// The treatment of the entry stored under `name`, where `enclosed` says
/// whether that name stays inside the destination directory.
pub open spec fn entry_action_spec(name: &str, enclosed: bool) -> EntryAction {
    if !enclosed {
        EntryAction::Skip
    } else if ends_with_slash(name) {
        EntryAction::CreateDir
    } else {
        EntryAction::WriteFile
    }
}

/// Decides what extraction does with the entry stored under `name`.
///
/// An entry whose name does not stay inside the destination is always
/// skipped: nothing is written for it, and extraction goes on.
pub fn entry_action(name: &str, enclosed: bool) -> (r: EntryAction)
    ensures
        r == entry_action_spec(name, enclosed),
        !enclosed ==> r == EntryAction::Skip,
{
    if !enclosed {
        EntryAction::Skip
    } else if has_trailing_slash(name) {
        EntryAction::CreateDir
    } else {
        EntryAction::WriteFile
    }
}

} // verus!
