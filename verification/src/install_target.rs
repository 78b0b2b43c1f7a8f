//! The resolved unit of installation work.

use vstd::prelude::*;
use vstd::string::*;

use crate::path::{
    file_name, file_name_of, join, joined, paths_equal, same_path, strip_prefix, without_prefix,
};
use crate::text::{ends_with, ends_with_char};

verus! {

/// One source with the place it is installed to and the policy that applies.
#[derive(Debug, PartialEq, Eq, Clone)]
pub struct InstallEntry {
    /// The source as the manifest gives it.
    pub source: String,
    /// The path at which the source is found, a file or a directory.
    pub full_source: String,
    /// The target file, or the target directory where it ends in a separator.
    pub destination: String,
    /// Whether placeholders in the file's contents are substituted.
    pub templating: bool,
    /// Whether an existing file may be replaced: configuration may not.
    pub replace: bool,
}

/// The mathematical model of an [`InstallEntry`].
pub struct InstallEntryView {
    pub source: Seq<char>,
    pub full_source: Seq<char>,
    pub destination: Seq<char>,
    pub templating: bool,
    pub replace: bool,
}

/// What is found at the full source of an entry.
#[derive(Debug, PartialEq, Eq, Clone, Copy, Structural)]
pub enum SourceKind {
    /// Nothing exists there.
    Missing,
    /// A file.
    File,
    /// A directory.
    Directory,
    /// Something that is neither a file nor a directory.
    Other,
}

/// How the source of an entry is installed.
#[derive(Debug, PartialEq, Eq, Clone, Copy, Structural)]
pub enum SourcePlan {
    /// The source is one file, installed at the entry's file destination.
    OneFile,
    /// The source is a directory: every file below it is installed at the
    /// same relative path below the destination.
    EveryFileBelow,
}

/// Why the source of an entry cannot be installed.
#[derive(Debug, PartialEq, Eq, Clone, Copy, Structural)]
pub enum SourceError {
    /// The source does not exist.
    Missing,
    /// The source is neither a file nor a directory.
    NotFileNorDirectory,
}

/// How a source of the given kind is installed, or why it cannot be.
pub open spec fn plan_of(kind: SourceKind) -> Result<SourcePlan, SourceError> {
    match kind {
        SourceKind::Missing => Err(SourceError::Missing),
        SourceKind::File => Ok(SourcePlan::OneFile),
        SourceKind::Directory => Ok(SourcePlan::EveryFileBelow),
        SourceKind::Other => Err(SourceError::NotFileNorDirectory),
    }
}

/// Whether the files of a category replace what is already installed.
#[derive(Debug, PartialEq, Eq, Clone, Copy, Structural)]
pub enum FilesPolicy {
    Replace,
    NoReplace,
}

impl FilesPolicy {
    /// Whether the policy lets existing files be replaced.
    pub open spec fn replaces(self) -> bool {
        self == FilesPolicy::Replace
    }

    /// Tells whether the policy lets existing files be replaced.
    pub fn may_replace(self) -> (r: bool)
        ensures
            r == self.replaces(),
    {
        match self {
            FilesPolicy::Replace => true,
            FilesPolicy::NoReplace => false,
        }
    }
}

impl View for InstallEntry {
    type V = InstallEntryView;

    open spec fn view(&self) -> InstallEntryView {
        InstallEntryView {
            source: self.source@,
            full_source: self.full_source@,
            destination: self.destination@,
            templating: self.templating,
            replace: self.replace,
        }
    }
}

impl InstallEntryView {
    /// Whether the destination names a directory into which the source is
    /// installed under its own name.
    pub open spec fn into_directory(self) -> bool {
        ends_with_char(self.destination, '/')
    }

    /// The file that a source file is installed as, where one can be named.
    pub open spec fn file_destination(self) -> Option<Seq<char>> {
        if self.into_directory() {
            match file_name_of(self.source) {
                Some(name) => Some(joined(self.destination, name)),
                None => None,
            }
        } else {
            Some(self.destination)
        }
    }

    /// The file that a file found below a source directory is installed as,
    /// where the file lies below that directory.
    pub open spec fn file_destination_in_directory(self, full_path: Seq<char>) -> Option<
        Seq<char>,
    > {
        match without_prefix(full_path, self.full_source) {
            Some(relative) => Some(joined(self.destination, relative)),
            None => None,
        }
    }
}

impl InstallEntryView {
    /// Where a member of an archive is installed by this entry: at the
    /// entry's file destination where the member is the entry's source, at
    /// the same relative path below the destination where the member lies
    /// below the source, and not at all otherwise.
    pub open spec fn archived_destination(self, member: Seq<char>) -> Option<Seq<char>> {
        if same_path(self.source, member) {
            self.file_destination()
        } else {
            match without_prefix(member, self.source) {
                Some(relative) => Some(joined(self.destination, relative)),
                None => None,
            }
        }
    }
}

impl InstallEntry {
    /// Finds where this entry installs a member of an archive, whose path
    /// is given as the manifest gives sources; `None` where the member is
    /// no part of the entry.
    pub fn destination_for_archived(&self, member: &str) -> (r: Option<String>)
        ensures
            crate::text::opt_text(r) == self@.archived_destination(member@),
    {
        if paths_equal(self.source.as_str(), member) {
            self.checked_destination_for_file()
        } else {
            match strip_prefix(member, self.source.as_str()) {
                Some(relative) => Some(join(self.destination.as_str(), relative.as_str())),
                None => None,
            }
        }
    }

    /// Decides how the entry is installed from what is found at its full
    /// source: a file as one file, a directory file by file; a source that
    /// is missing, or that is neither, stops the installation.
    pub fn plan(&self, found: SourceKind) -> (r: Result<SourcePlan, SourceError>)
        ensures
            r == plan_of(found),
    {
        match found {
            SourceKind::Missing => Err(SourceError::Missing),
            SourceKind::File => Ok(SourcePlan::OneFile),
            SourceKind::Directory => Ok(SourcePlan::EveryFileBelow),
            SourceKind::Other => Err(SourceError::NotFileNorDirectory),
        }
    }

    /// The source, as the manifest would give it, of a file found below the
    /// source directory: its path relative to that directory, below the
    /// entry's source. `None` where the file does not lie below it.
    pub fn source_for_file_in_directory(&self, full_path: &str) -> (r: Option<String>)
        ensures
            crate::text::opt_text(r) == match without_prefix(full_path@, self@.full_source) {
                Some(relative) => Some(joined(self@.source, relative)),
                None => None,
            },
    {
        match strip_prefix(full_path, self.full_source.as_str()) {
            Some(relative) => Some(join(self.source.as_str(), relative.as_str())),
            None => None,
        }
    }

    /// The file that the source file is installed as: the destination itself,
    /// or the source's file name below it where the destination is a
    /// directory.
    pub fn destination_for_file(&self) -> (r: String)
        requires
            self@.file_destination().is_some(),
        ensures
            Some(r@) == self@.file_destination(),
    {
        if ends_with(self.destination.as_str(), '/') {
            let name = file_name(self.source.as_str()).unwrap();
            join(self.destination.as_str(), name.as_str())
        } else {
            self.destination.clone()
        }
    }

    /// The same as [`Self::destination_for_file`], with `None` where the
    /// destination is a directory and the source has no file name.
    pub fn checked_destination_for_file(&self) -> (r: Option<String>)
        ensures
            crate::text::opt_text(r) == self@.file_destination(),
    {
        if ends_with(self.destination.as_str(), '/') && file_name(
            self.source.as_str(),
        ).is_none() {
            None
        } else {
            Some(self.destination_for_file())
        }
    }

    /// The file that a file found below the source directory is installed
    /// as: its path relative to the source directory, below the destination.
    pub fn destination_for_file_in_directory(&self, full_path: &str) -> (r: String)
        requires
            self@.file_destination_in_directory(full_path@).is_some(),
        ensures
            Some(r@) == self@.file_destination_in_directory(full_path@),
    {
        let relative = strip_prefix(full_path, self.full_source.as_str()).unwrap();
        join(self.destination.as_str(), relative.as_str())
    }

    /// The same as [`Self::destination_for_file_in_directory`], with `None`
    /// where the file does not lie below the source directory.
    pub fn checked_destination_for_file_in_directory(&self, full_path: &str) -> (r: Option<
        String,
    >)
        ensures
            crate::text::opt_text(r) == self@.file_destination_in_directory(full_path@),
    {
        if strip_prefix(full_path, self.full_source.as_str()).is_none() {
            None
        } else {
            Some(self.destination_for_file_in_directory(full_path))
        }
    }
}

} // verus!
