use vstd::prelude::*;
use crate::paths::{blank, is_blank, opt_view};

verus! {

/// The error shown for a blank game name.
pub open spec fn name_required() -> Seq<char> {
    "Game name is required"@
}

/// The error shown for a blank path.
pub open spec fn path_required() -> Seq<char> {
    "Path is required"@
}

/// The error shown for a path that is not an existing regular file.
pub open spec fn file_missing() -> Seq<char> {
    "File does not exist"@
}

/// The error shown for a path that is not an existing directory.
pub open spec fn dir_missing() -> Seq<char> {
    "Directory does not exist"@
}

/// The error recorded for a game name, if any.
pub open spec fn name_error(s: Seq<char>) -> Option<Seq<char>> {
    if blank(s) {
        Some(name_required())
    } else {
        None
    }
}

/// The error recorded for a file path, given whether it names an existing
/// regular file.
pub open spec fn file_error(s: Seq<char>, is_file: bool) -> Option<Seq<char>> {
    if blank(s) {
        Some(path_required())
    } else if !is_file {
        Some(file_missing())
    } else {
        None
    }
}

/// The error recorded for a directory path, given whether it names an
/// existing directory.
pub open spec fn dir_error(s: Seq<char>, is_dir: bool) -> Option<Seq<char>> {
    if blank(s) {
        Some(path_required())
    } else if !is_dir {
        Some(dir_missing())
    } else {
        None
    }
}

/// Checks a game name: it must not be blank.
pub fn validate_game_name(s: &str) -> (r: Option<String>)
    ensures
        opt_view(r) == name_error(s@),
{
    if is_blank(s) {
        Some(String::from_str("Game name is required"))
    } else {
        None
    }
}

/// Checks a file path, given whether the file system holds a regular file
/// there.
pub fn validate_file_path(s: &str, is_file: bool) -> (r: Option<String>)
    ensures
        opt_view(r) == file_error(s@, is_file),
{
    if is_blank(s) {
        Some(String::from_str("Path is required"))
    } else if !is_file {
        Some(String::from_str("File does not exist"))
    } else {
        None
    }
}

/// Checks a directory path, given whether the file system holds a directory
/// there.
pub fn validate_dir_path(s: &str, is_dir: bool) -> (r: Option<String>)
    ensures
        opt_view(r) == dir_error(s@, is_dir),
{
    if is_blank(s) {
        Some(String::from_str("Path is required"))
    } else if !is_dir {
        Some(String::from_str("Directory does not exist"))
    } else {
        None
    }
}

} // verus!
