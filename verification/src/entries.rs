use std::hash::{Hash, Hasher};

use vstd::prelude::*;

use crate::paths::{extension_of, path_extension};
use crate::strings::chars_of;

verus! {

/// What a directory entry is on disk.
#[derive(Debug, Clone, Copy, PartialEq, Eq, Structural)]
pub enum EntryKind {
    File,
    Directory,
    Symlink,
    Other,
}

impl EntryKind {
    /// Whether the entry is a directory.
    pub fn is_dir(self) -> (r: bool)
        ensures
            r == (self is Directory),
    {
        match self {
            EntryKind::Directory => true,
            _ => false,
        }
    }
}

/// One entry of a directory listing.
///
/// `modified` is the modification time in nanoseconds relative to the Unix
/// epoch (negative before it), when the platform reports one.
#[derive(Debug)]
pub struct FsEntry {
    pub id: u64,
    pub path: String,
    pub name: String,
    pub kind: EntryKind,
    pub size: u64,
    pub modified: Option<i128>,
    pub extension: Option<String>,
    pub hidden: bool,
}

/// A copy of an optional string.
fn clone_opt_string(s: &Option<String>) -> (r: Option<String>)
    ensures
        r == *s,
{
    match s {
        Some(x) => Some(x.clone()),
        None => None,
    }
}

impl Clone for FsEntry {
    fn clone(&self) -> (r: Self)
        ensures
            r == *self,
    {
        FsEntry {
            id: self.id,
            path: self.path.clone(),
            name: self.name.clone(),
            kind: self.kind,
            size: self.size,
            modified: self.modified,
            extension: clone_opt_string(&self.extension),
            hidden: self.hidden,
        }
    }
}

/// What a hash of the path with `DefaultHasher::new()` gives: a fixed
/// function of the path's text.
pub uninterp spec fn path_hash(p: Seq<char>) -> u64;

/// Wraps hashing a path with `DefaultHasher`: a `DefaultHasher::new()` hasher
/// fed the path through `Path::hash`, then `finish`. Every hasher that `new`
/// makes starts from the same keys, so the id depends on the path alone.
#[verifier::external_body]
fn stable_id(path: &str) -> (r: u64)
    ensures
        r == path_hash(path@),
{
    let mut hasher = std::collections::hash_map::DefaultHasher::new();
    std::path::Path::new(path).hash(&mut hasher);
    hasher.finish()
}

/// The kind of an entry from what its file type reports, in this order of
/// precedence: directory, file, symbolic link, anything else.
pub open spec fn kind_of(is_dir: bool, is_file: bool, is_symlink: bool) -> EntryKind {
    if is_dir {
        EntryKind::Directory
    } else if is_file {
        EntryKind::File
    } else if is_symlink {
        EntryKind::Symlink
    } else {
        EntryKind::Other
    }
}

/// Builds the entry for the file at `path` from what its metadata reports.
/// The id is a hash of the path, the extension is read off the path.
pub fn build_entry(
    path: String,
    name: String,
    is_dir: bool,
    is_file: bool,
    is_symlink: bool,
    size: u64,
    modified: Option<i128>,
    hidden: bool,
) -> (r: FsEntry)
    ensures
        r.id == path_hash(path@),
        r.path == path,
        r.name == name,
        r.kind == kind_of(is_dir, is_file, is_symlink),
        r.size == size,
        r.modified == modified,
        r.extension.deep_view() == path_extension(path@),
        r.hidden == hidden,
{
    let kind = if is_dir {
        EntryKind::Directory
    } else if is_file {
        EntryKind::File
    } else if is_symlink {
        EntryKind::Symlink
    } else {
        EntryKind::Other
    };
    let extension = extension_of(path.as_str());
    let id = stable_id(path.as_str());
    FsEntry { id, path, name, kind, size, modified, extension, hidden }
}

/// Whether a file name marks a hidden file outside Windows: it begins with a
/// dot. A name that is not valid text (`None`) is not hidden.
pub fn hidden_name(file_name: Option<&str>) -> (r: bool)
    ensures
        r == (match file_name {
            Some(n) => n@.len() > 0 && n@[0] == '.',
            None => false,
        }),
{
    match file_name {
        Some(n) => {
            let chars = chars_of(n);
            chars.len() > 0 && chars[0] == '.'
        },
        None => false,
    }
}

/// Entries built from the same path text get the same id.
pub proof fn lemma_same_path_same_id(p: Seq<char>, q: Seq<char>)
    requires
        p == q,
    ensures
        path_hash(p) == path_hash(q),
{
}

/// A listing of one directory. `generated_at` is the time it was read, in
/// nanoseconds relative to the Unix epoch.
#[derive(Debug)]
pub struct DirectorySnapshot {
    pub path: String,
    pub entries: Vec<FsEntry>,
    pub generated_at: i128,
}

impl Clone for DirectorySnapshot {
    fn clone(&self) -> (r: Self)
        ensures
            r.path == self.path,
            r.entries@ == self.entries@,
            r.generated_at == self.generated_at,
    {
        let entries = self.entries.clone();
        assert(entries@ == self.entries@);
        DirectorySnapshot { path: self.path.clone(), entries, generated_at: self.generated_at }
    }
}

} // verus!
