//! The record of what a package installed.

use vstd::prelude::*;
use vstd::string::*;

use crate::dirs::Dirs;
use crate::path::{join, joined};
use crate::text::{append_text, copy_text, views};

verus! {

/// The checksum of a file's contents: the BLAKE3 hash that `blake3::hash`
/// computes, in the lowercase hexadecimal form of `Hash::to_hex`.
pub uninterp spec fn content_hash(contents: Seq<u8>) -> Seq<char>;

/// Calls `blake3::hash` on the contents and writes the hash with
/// `Hash::to_hex`.
#[verifier::external_body]
fn checksum_of(contents: &[u8]) -> (r: String)
    ensures
        r@ == content_hash(contents@),
{
    blake3::hash(contents).to_hex().to_string()
}

/// A file that was installed, with the checksum of what was installed.
#[derive(Debug, PartialEq, Eq, Clone)]
pub struct InstalledFile {
    pub path: String,
    pub checksum: String,
    pub replace: bool,
}

/// The mathematical model of an [`InstalledFile`].
pub struct InstalledFileView {
    pub path: Seq<char>,
    pub checksum: Seq<char>,
    pub replace: bool,
}

impl View for InstalledFile {
    type V = InstalledFileView;

    open spec fn view(&self) -> InstalledFileView {
        InstalledFileView { path: self.path@, checksum: self.checksum@, replace: self.replace }
    }
}

impl InstalledFileView {
    /// Whether contents differ from what was installed, as far as the
    /// checksum tells.
    pub open spec fn modified_by(self, contents: Seq<u8>) -> bool {
        self.checksum != content_hash(contents)
    }

    /// The record of a file installed at `target_path` with the given
    /// contents.
    pub open spec fn recorded(target_path: Seq<char>, contents: Seq<u8>, replace: bool) -> Self {
        InstalledFileView {
            path: joined("/"@, target_path),
            checksum: content_hash(contents),
            replace,
        }
    }
}

impl InstalledFile {
    /// Tells whether the file's present contents differ from what was
    /// installed.
    pub fn has_been_modified(&self, contents: &[u8]) -> (r: bool)
        ensures
            r == self@.modified_by(contents@),
    {
        let now = checksum_of(contents);
        !(self.checksum == now)
    }
}

/// The record of one installed package: its name, where the record is
/// kept, and the files that were installed.
#[derive(Debug, PartialEq, Eq, Clone)]
pub struct PackageInfo {
    pub pkg_name: String,
    pub path: String,
    pub files: Vec<InstalledFile>,
}

/// The mathematical model of a [`PackageInfo`].
pub struct PackageInfoView {
    pub pkg_name: Seq<char>,
    pub path: Seq<char>,
    pub files: Seq<InstalledFileView>,
}

impl View for PackageInfo {
    type V = PackageInfoView;

    open spec fn view(&self) -> PackageInfoView {
        PackageInfoView { pkg_name: self.pkg_name@, path: self.path@, files: views(self.files@) }
    }
}

/// Where the record of a package is kept: `rinstall/<name>.pkg` below the
/// directory for local state.
pub open spec fn record_path(localstatedir: Seq<char>, pkg_name: Seq<char>) -> Seq<char> {
    joined(joined(localstatedir, "rinstall"@), pkg_name + ".pkg"@)
}

/// Computes where the record of a package is kept.
pub fn pkg_info_path(localstatedir: &str, pkg_name: &str) -> (r: String)
    ensures
        r@ == record_path(localstatedir@, pkg_name@),
{
    let store = join(localstatedir, "rinstall");
    let file = append_text(pkg_name, ".pkg");
    join(store.as_str(), file.as_str())
}

impl PackageInfo {
    /// The empty record of a package.
    pub fn new(pkg_name: &str, dirs: &Dirs) -> (r: Self)
        ensures
            r@ == (PackageInfoView {
                pkg_name: pkg_name@,
                path: record_path(dirs@.localstatedir, pkg_name@),
                files: Seq::empty(),
            }),
    {
        let r = Self {
            pkg_name: copy_text(pkg_name),
            path: pkg_info_path(dirs.localstatedir.as_str(), pkg_name),
            files: Vec::new(),
        };
        proof {
            assert(views(r.files@) =~= Seq::empty());
        }
        r
    }

    /// Records a file installed at `target_path` with the given contents.
    pub fn add_file(&mut self, target_path: &str, contents: &[u8], replace: bool)
        ensures
            final(self)@ == (PackageInfoView {
                files: old(self)@.files.push(
                    InstalledFileView::recorded(target_path@, contents@, replace),
                ),
                ..old(self)@
            }),
    {
        let file = InstalledFile {
            path: join("/", target_path),
            checksum: checksum_of(contents),
            replace,
        };
        self.files.push(file);
        proof {
            assert(views(self.files@) =~= views(old(self).files@).push(file@));
        }
    }
}

/// A file that was recorded with its contents is unmodified as long as its
/// contents are the same.
pub proof fn lemma_recorded_is_unmodified(target_path: Seq<char>, contents: Seq<u8>, replace: bool)
    ensures
        !InstalledFileView::recorded(target_path, contents, replace).modified_by(contents),
{
}

} // verus!
