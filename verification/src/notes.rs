//! Pure logic behind the note and folder commands: the candidate names tried
//! when a new note or folder is created, the label a directory gets in a
//! recursive listing, and the depth budget of that listing.
//!
//! The runtime probes the filesystem: it tries candidate names for counts
//! 0, 1, 2, ... until one does not exist yet, and walks directories while the
//! depth budget allows.

use vstd::prelude::*;

use crate::decimal::{dec_str_of, decimal_string};

verus! {

/// The base name a new note gets when none is given.
pub open spec fn default_note_base() -> Seq<char> {
    "New Note"@
}

/// The `count`-th candidate name for a new note: `base.md` first, then
/// `base (1).md`, `base (2).md`, and so on.
pub open spec fn candidate_file_name_of(base: Seq<char>, count: nat) -> Seq<char> {
    if count == 0 {
        base + ".md"@
    } else {
        base + " ("@ + dec_str_of(count) + ")"@ + ".md"@
    }
}

pub fn candidate_file_name(name: &Option<String>, count: u64) -> (r: String)
    ensures
        r@ == candidate_file_name_of(
            match name {
                Some(n) => n@,
                None => default_note_base(),
            },
            count as nat,
        ),
{
    let base = match name {
        Some(n) => n.clone(),
        None => String::from_str("New Note"),
    };
    if count == 0 {
        base.concat(".md")
    } else {
        base.concat(" (").concat(decimal_string(count).as_str()).concat(")").concat(".md")
    }
}

/// The `count`-th candidate name for a new folder: `New Folder` first, then
/// `New Folder (1)`, and so on.
pub open spec fn candidate_folder_name_of(count: nat) -> Seq<char> {
    if count == 0 {
        "New Folder"@
    } else {
        "New Folder ("@ + dec_str_of(count) + ")"@
    }
}

pub fn candidate_folder_name(count: u64) -> (r: String)
    ensures
        r@ == candidate_folder_name_of(count as nat),
{
    if count == 0 {
        String::from_str("New Folder")
    } else {
        String::from_str("New Folder (").concat(decimal_string(count).as_str()).concat(")")
    }
}

/// The label a directory gets in a recursive listing: its path with a
/// trailing slash, so that callers can tell directories from files.
pub fn directory_label(path: &String) -> (r: String)
    ensures
        r@ == path@ + "/"@,
{
    path.clone().concat("/")
}

/// One step of the listing's depth budget: `None` when the walk must not
/// enter the directory (the budget is used up), otherwise the budget for the
/// directory's children — unlimited stays unlimited, a positive budget
/// shrinks by one.
pub fn descend_depth(depth: Option<u32>) -> (r: Option<Option<u32>>)
    ensures
        depth is None ==> r == Some(Option::<u32>::None),
        depth matches Some(d) ==> (if d == 0 {
            r is None
        } else {
            r == Some(Some((d - 1) as u32))
        }),
{
    match depth {
        None => Some(None),
        Some(0) => None,
        Some(d) => Some(Some(d - 1)),
    }
}

} // verus!
