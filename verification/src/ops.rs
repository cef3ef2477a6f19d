//! The paths and messages of the filesystem operations the browser starts.

use vstd::prelude::*;

use crate::paths::{join_path, parent_of, path_join, path_parent};
use crate::strings::{chars_of, push_str, string_from_chars};

verus! {

/// Where a folder named `name` is created inside the (normalized) `parent`.
pub fn folder_path(parent: &str, name: &str) -> (r: String)
    ensures
        r@ == path_join(parent@, name@),
{
    join_path(parent, name)
}

/// Where renaming the (normalized) `from` to `to_name` moves it: beside it,
/// in its parent directory. A path without a parent cannot be renamed.
pub fn rename_target(from: &str, to_name: &str) -> (r: Result<String, String>)
    ensures
        match path_parent(from@) {
            None => r matches Err(m) && m@ == "cannot rename root path"@,
            Some(parent) => r matches Ok(to) && to@ == path_join(parent, to_name@),
        },
{
    match parent_of(from) {
        None => Err("cannot rename root path".to_string()),
        Some(parent) => Ok(join_path(parent.as_str(), to_name)),
    }
}

/// `prefix` followed by `path`.
fn message(prefix: &str, path: &str) -> (r: String)
    ensures
        r@ == prefix@ + path@,
{
    let mut text = chars_of(prefix);
    push_str(&mut text, path);
    string_from_chars(&text)
}

/// The report of a created folder.
pub fn created_message(path: &str) -> (r: String)
    ensures
        r@ == "Created folder "@ + path@,
{
    message("Created folder ", path)
}

/// The report of a renamed entry, naming where it went.
pub fn renamed_message(path: &str) -> (r: String)
    ensures
        r@ == "Renamed to "@ + path@,
{
    message("Renamed to ", path)
}

/// The report of a deleted entry.
pub fn deleted_message(path: &str) -> (r: String)
    ensures
        r@ == "Deleted "@ + path@,
{
    message("Deleted ", path)
}

} // verus!
