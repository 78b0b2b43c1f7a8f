//! The decisions taken while a package is uninstalled.

use vstd::prelude::*;
use vstd::string::*;

use crate::dirs::{Dirs, DirsView};
use crate::dirs_config::{DirsConfig, DirsConfigView};
use crate::package_info::{pkg_info_path, record_path, InstalledFile};
use crate::path::{is_absolute, is_absolute_path};
use crate::text::{copy_opt, copy_text, opt_text};

verus! {

/// The options of an uninstallation.
#[derive(Debug, PartialEq, Eq, Clone)]
pub struct Uninstall {
    pub config: Option<String>,
    /// Whether the changes are made; without it the run only reports.
    pub accept_changes: bool,
    pub force: bool,
    pub system: bool,
    pub prefix: Option<String>,
    pub localstatedir: Option<String>,
    /// The names, or the paths of the records, of the packages to remove.
    pub packages: Vec<String>,
}

/// What is done with an installed file, or with the record itself.
#[derive(Debug, PartialEq, Eq, Clone, Copy, Structural)]
pub enum Removal {
    /// The file is removed.
    Remove,
    /// The file stays.
    Keep,
    /// Nothing is done; the file would be removed in a real run.
    WouldRemove,
    /// Nothing is done; the file would stay in a real run.
    WouldKeep,
}

/// What is reported about an installed file.
#[derive(Debug, PartialEq, Eq, Clone, Copy, Structural)]
pub enum RemovalNotice {
    /// Information: the file is being removed.
    Removing,
    /// Information: the file would be removed.
    WouldRemove,
    /// Information: the modified file is kept.
    Keeping,
    /// Warning: the file was modified and has been removed all the same.
    ModifiedRemoved,
    /// Warning: the file was modified and will be removed all the same.
    ModifiedWillBeRemoved,
    /// Warning: the file was modified and will not be removed without force.
    ModifiedWontBeRemoved,
}

impl Removal {
    /// Whether the decision changes the file system.
    pub open spec fn mutates(self) -> bool {
        self == Removal::Remove
    }
}

impl RemovalNotice {
    /// Whether the notice is a warning about a modified file.
    pub open spec fn warns_of_modification(self) -> bool {
        self == RemovalNotice::ModifiedRemoved || self == RemovalNotice::ModifiedWillBeRemoved
            || self == RemovalNotice::ModifiedWontBeRemoved
    }
}

/// What a real run does with an installed file and what it reports: a file
/// that was not modified is removed; a modified one is removed with a
/// warning if it may be replaced or removal is forced, and kept otherwise.
pub open spec fn real_removal(force: bool, replace: bool, modified: bool) -> (
    Removal,
    RemovalNotice,
) {
    if !modified {
        (Removal::Remove, RemovalNotice::Removing)
    } else if replace || force {
        (Removal::Remove, RemovalNotice::ModifiedRemoved)
    } else {
        (Removal::Keep, RemovalNotice::Keeping)
    }
}

/// What is done with an installed file and what is reported. A dry run
/// makes the same checks, does nothing, and reports what the real run with
/// the same options would do.
pub open spec fn removal_of(accept_changes: bool, force: bool, replace: bool, modified: bool) -> (
    Removal,
    RemovalNotice,
) {
    let decided = real_removal(force, replace, modified);
    if accept_changes {
        decided
    } else if decided.0 == Removal::Keep {
        (Removal::WouldKeep, RemovalNotice::ModifiedWontBeRemoved)
    } else if modified {
        (Removal::WouldRemove, RemovalNotice::ModifiedWillBeRemoved)
    } else {
        (Removal::WouldRemove, RemovalNotice::WouldRemove)
    }
}

/// Where the record of a package is found: the argument itself where it is
/// an absolute path, else the record of the package of that name.
pub open spec fn record_of(pkg: Seq<char>, dirs: DirsView) -> Seq<char> {
    if is_absolute_path(pkg) {
        pkg
    } else {
        record_path(dirs.localstatedir, pkg)
    }
}

impl Uninstall {
    /// The directory options of the run: the defaults for the kind of
    /// installation, with the prefix and the directory for local state as
    /// given.
    pub fn dirs_options(&self, is_root: bool) -> (r: DirsConfig)
        ensures
            r@ == (DirsConfigView {
                prefix: opt_text(self.prefix),
                localstatedir: opt_text(self.localstatedir),
                ..DirsConfigView::defaults(is_root || self.system)
            }),
    {
        let mut opt_dirs = if is_root || self.system {
            DirsConfig::system_config()
        } else {
            DirsConfig::user_config()
        };
        opt_dirs.prefix = copy_opt(&self.prefix);
        opt_dirs.localstatedir = copy_opt(&self.localstatedir);
        opt_dirs
    }

    /// Where the record of the package `pkg` is found.
    pub fn pkg_info(pkg: &str, dirs: &Dirs) -> (r: String)
        ensures
            r@ == record_of(pkg@, dirs@),
    {
        if is_absolute(pkg) {
            copy_text(pkg)
        } else {
            pkg_info_path(dirs.localstatedir.as_str(), pkg)
        }
    }

    /// Decides what is done with an installed file; `modified` says whether
    /// its contents differ from what was installed.
    pub fn file_removal(&self, file: &InstalledFile, modified: bool) -> (r: (
        Removal,
        RemovalNotice,
    ))
        ensures
            r == removal_of(self.accept_changes, self.force, file.replace, modified),
            !self.accept_changes ==> !r.0.mutates(),
            !modified ==> !r.1.warns_of_modification(),
            self.accept_changes && !modified ==> r.0 == Removal::Remove,
            !self.accept_changes ==> (r.0 == Removal::WouldRemove <==> real_removal(
                self.force,
                file.replace,
                modified,
            ).0 == Removal::Remove),
    {
        let keep = modified && !file.replace && !self.force;
        if self.accept_changes {
            if keep {
                (Removal::Keep, RemovalNotice::Keeping)
            } else if modified {
                (Removal::Remove, RemovalNotice::ModifiedRemoved)
            } else {
                (Removal::Remove, RemovalNotice::Removing)
            }
        } else if keep {
            (Removal::WouldKeep, RemovalNotice::ModifiedWontBeRemoved)
        } else if modified {
            (Removal::WouldRemove, RemovalNotice::ModifiedWillBeRemoved)
        } else {
            (Removal::WouldRemove, RemovalNotice::WouldRemove)
        }
    }

    /// Decides what is done with the record of the package once its files
    /// were dealt with: it is removed, in a dry run it would be.
    pub fn record_removal(&self) -> (r: Removal)
        ensures
            r == if self.accept_changes {
                Removal::Remove
            } else {
                Removal::WouldRemove
            },
    {
        if self.accept_changes {
            Removal::Remove
        } else {
            Removal::WouldRemove
        }
    }
}

} // verus!
