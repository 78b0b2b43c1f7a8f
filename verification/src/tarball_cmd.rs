//! The options of packing a project into an archive, and the names used in
//! the archive.

use vstd::prelude::*;
use vstd::string::*;

use crate::path::{parent, parent_of, strip_prefix, without_prefix};
use crate::text::{append_text, copy_text, opt_text};

verus! {

/// The options of packing a project into an archive.
#[derive(Debug, PartialEq, Eq, Clone)]
pub struct TarballCmd {
    pub rust_debug_target: bool,
    pub rust_target_triple: Option<String>,
    pub package_dir: String,
    pub packages: Vec<String>,
    /// The directory inside the archive; the archive's name where unset.
    pub directory_name: Option<String>,
    pub tarball_name: String,
}

/// The directory inside the archive.
pub open spec fn archive_directory(directory_name: Option<Seq<char>>, tarball_name: Seq<char>)
    -> Seq<char> {
    match directory_name {
        Some(name) => name,
        None => tarball_name,
    }
}

/// The outermost directory of a path: the path itself, or the nearest of
/// its parents, whose own parent has no parent. `None` where the path has
/// no parent, or where none is found among `fuel` paths.
pub open spec fn top_directory_of(path: Seq<char>, fuel: nat) -> Option<Seq<char>>
    decreases fuel,
{
    if fuel == 0 {
        None
    } else {
        match parent_of(path) {
            None => None,
            Some(dir) => if parent_of(dir).is_none() {
                Some(path)
            } else {
                top_directory_of(dir, (fuel - 1) as nat)
            },
        }
    }
}

/// The path of a member of an archive below the archive's outermost
/// directory, which is how the manifest names it.
pub open spec fn member_source_of(member: Seq<char>) -> Option<Seq<char>> {
    match top_directory_of(member, member.len()) {
        Some(top) => without_prefix(member, top),
        None => None,
    }
}

/// Finds the outermost directory of a path, looking at no more than `fuel`
/// paths.
pub fn top_directory(path: &str, fuel: usize) -> (r: Option<String>)
    ensures
        opt_text(r) == top_directory_of(path@, fuel as nat),
    decreases fuel,
{
    if fuel == 0 {
        return None;
    }
    match parent(path) {
        None => None,
        Some(dir) => {
            if parent(dir.as_str()).is_none() {
                Some(copy_text(path))
            } else {
                top_directory(dir.as_str(), fuel - 1)
            }
        },
    }
}

/// Finds the path of a member of an archive below the archive's outermost
/// directory.
pub fn member_source(member: &str) -> (r: Option<String>)
    ensures
        opt_text(r) == member_source_of(member@),
{
    match top_directory(member, member.unicode_len()) {
        Some(top) => strip_prefix(member, top.as_str()),
        None => None,
    }
}

impl TarballCmd {
    /// The file name of the archive: its name with `.tar.gz` at the end.
    pub fn file_name(&self) -> (r: String)
        ensures
            r@ == self.tarball_name@ + ".tar.gz"@,
    {
        append_text(self.tarball_name.as_str(), ".tar.gz")
    }

    /// The directory inside the archive that holds everything.
    pub fn directory(&self) -> (r: String)
        ensures
            r@ == archive_directory(opt_text(self.directory_name), self.tarball_name@),
    {
        match &self.directory_name {
            Some(name) => name.clone(),
            None => self.tarball_name.clone(),
        }
    }

    /// The name of a source inside the archive: the directory, a
    /// separator, and the source as the manifest gives it.
    pub fn member_name(&self, source: &str) -> (r: String)
        ensures
            r@ == archive_directory(opt_text(self.directory_name), self.tarball_name@) + "/"@
                + source@,
    {
        let directory = self.directory();
        let with_slash = append_text(directory.as_str(), "/");
        append_text(with_slash.as_str(), source)
    }
}

} // verus!
