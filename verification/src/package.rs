//! Packages as a manifest describes them, and their resolution into
//! install entries.

use vstd::prelude::*;
use vstd::string::*;

use crate::dirs::{Dirs, DirsView};
use crate::icon::{Icon, IconView};
use crate::install_spec::RinstallVersion;
use crate::install_target::{FilesPolicy, InstallEntry, InstallEntryView};
use crate::path::{
    extension, extension_of, file_name, file_name_of, is_relative, is_relative_path, join, joined,
};
use crate::project::{RustDirectories, RustDirectoriesView};
use crate::text::{
    append_text, copy_text, ends_with, ends_with_char, opt_text, skip_chars, starts_with, views,
};

verus! {

/// The kind of project that a package is built from, which decides where
/// its sources are found.
#[derive(Debug, PartialEq, Eq, Clone, Copy, Structural)]
pub enum Type {
    Default,
    Rust,
    Custom,
}

/// The categories of files that a package can hold.
#[derive(Debug, PartialEq, Eq, Clone, Copy, Structural)]
pub enum Category {
    Exe,
    AdminExe,
    Libs,
    Libexec,
    Includes,
    Man,
    Data,
    Docs,
    Config,
    UserConfig,
    DesktopFiles,
    AppstreamMetadata,
    CompletionsBash,
    CompletionsElvish,
    CompletionsFish,
    CompletionsZsh,
    PamModules,
    SystemdUnits,
    SystemdUserUnits,
    Icons,
    Terminfo,
    Licenses,
    PkgConfig,
}

/// What is wrong with an entry of a manifest.
#[derive(Debug, PartialEq, Eq, Clone, Copy, Structural)]
pub enum EntryErrorKind {
    /// The source is not a relative path.
    SourceNotRelative,
    /// The destination is not a relative path.
    DestinationNotRelative,
    /// The source has no file name to install it under.
    NoFileName,
    /// A man page entry names a directory.
    ManIsDirectory,
    /// A man page has no extension to take its section from.
    NoExtension,
    /// The extension of a man page does not end in a digit from 1 to 8.
    NotManSection,
    /// A terminfo entry names a directory.
    TerminfoIsDirectory,
    /// A terminfo entry has no file name.
    NoTerminfoName,
    /// A terminfo entry has an empty file name.
    EmptyTerminfoName,
    /// An icon outside pixmaps has no dimensions.
    NoIconDimensions,
}

/// Why a package could not be resolved into install entries.
#[derive(Debug, PartialEq, Eq, Clone)]
pub enum PackageError {
    /// The category is used, but the manifest's version does not meet the
    /// category's requirement.
    Version { category: Category },
    /// The entry of the category with the given source is malformed.
    Entry { category: Category, kind: EntryErrorKind, source: String },
}

/// The mathematical model of a [`PackageError`].
pub enum PackageErrorView {
    Version { category: Category },
    Entry { category: Category, kind: EntryErrorKind, source: Seq<char> },
}

impl View for PackageError {
    type V = PackageErrorView;

    open spec fn view(&self) -> PackageErrorView {
        match *self {
            PackageError::Version { category } => PackageErrorView::Version { category },
            PackageError::Entry { category, kind, source } => PackageErrorView::Entry {
                category,
                kind,
                source: source@,
            },
        }
    }
}

/// How the entries of a category are resolved.
#[derive(Debug, PartialEq, Eq, Clone, Copy, Structural)]
pub enum Rule {
    /// Below the category's directory.
    Plain,
    /// Below the section directory that the man page's extension names.
    Man,
    /// Below the category's directory, a `libpam_` module without its `lib`.
    Pam,
    /// Below the terminfo directory named by the first letter of the file.
    Terminfo,
}

/// An entry of a manifest: a source with an optional destination.
#[derive(Debug, PartialEq, Eq, Clone)]
pub struct InnerEntry {
    pub source: String,
    pub destination: Option<String>,
    pub templating: bool,
    /// Whether the source, as the manifest gives it, is an existing file.
    pub is_file: bool,
    /// Whether the source was found in the project's output directory.
    pub built: bool,
}

/// The mathematical model of an [`InnerEntry`].
pub struct InnerEntryView {
    pub source: Seq<char>,
    pub destination: Option<Seq<char>>,
    pub templating: bool,
    pub is_file: bool,
    pub built: bool,
}

impl View for InnerEntry {
    type V = InnerEntryView;

    open spec fn view(&self) -> InnerEntryView {
        InnerEntryView {
            source: self.source@,
            destination: opt_text(self.destination),
            templating: self.templating,
            is_file: self.is_file,
            built: self.built,
        }
    }
}

/// An entry that may be installed below a directory named after the package.
#[derive(Debug, PartialEq, Eq, Clone)]
pub struct InnerDataEntry {
    pub use_pkg_name: bool,
    pub entry: InnerEntry,
}

/// The mathematical model of an [`InnerDataEntry`].
pub struct InnerDataEntryView {
    pub use_pkg_name: bool,
    pub entry: InnerEntryView,
}

impl View for InnerDataEntry {
    type V = InnerDataEntryView;

    open spec fn view(&self) -> InnerDataEntryView {
        InnerDataEntryView { use_pkg_name: self.use_pkg_name, entry: self.entry@ }
    }
}

/// The shell completions of a package.
#[derive(Debug, PartialEq, Eq, Clone)]
pub struct Completions {
    pub bash: Vec<InnerEntry>,
    pub elvish: Vec<InnerEntry>,
    pub fish: Vec<InnerEntry>,
    pub zsh: Vec<InnerEntry>,
}

/// The mathematical model of [`Completions`].
pub struct CompletionsView {
    pub bash: Seq<InnerEntryView>,
    pub elvish: Seq<InnerEntryView>,
    pub fish: Seq<InnerEntryView>,
    pub zsh: Seq<InnerEntryView>,
}

impl View for Completions {
    type V = CompletionsView;

    open spec fn view(&self) -> CompletionsView {
        CompletionsView {
            bash: views(self.bash@),
            elvish: views(self.elvish@),
            fish: views(self.fish@),
            zsh: views(self.zsh@),
        }
    }
}

/// A package of a manifest: its name, its kind, and its entries by category.
#[derive(Debug, PartialEq, Eq, Clone)]
pub struct Package {
    pub name: Option<String>,
    pub pkg_type: Type,
    pub exe: Vec<InnerEntry>,
    pub admin_exe: Vec<InnerEntry>,
    pub libs: Vec<InnerEntry>,
    pub libexec: Vec<InnerEntry>,
    pub includes: Vec<InnerEntry>,
    pub man: Vec<InnerEntry>,
    pub data: Vec<InnerDataEntry>,
    pub docs: Vec<InnerDataEntry>,
    pub config: Vec<InnerDataEntry>,
    pub user_config: Vec<InnerEntry>,
    pub desktop_files: Vec<InnerEntry>,
    pub appstream_metadata: Vec<InnerEntry>,
    pub completions: Completions,
    pub pam_modules: Vec<InnerEntry>,
    pub systemd_units: Vec<InnerEntry>,
    pub systemd_user_units: Vec<InnerEntry>,
    pub icons: Vec<Icon>,
    pub terminfo: Vec<InnerEntry>,
    pub licenses: Vec<InnerDataEntry>,
    pub pkg_config: Vec<InnerEntry>,
}

/// The mathematical model of a [`Package`].
pub struct PackageView {
    pub name: Option<Seq<char>>,
    pub pkg_type: Type,
    pub exe: Seq<InnerEntryView>,
    pub admin_exe: Seq<InnerEntryView>,
    pub libs: Seq<InnerEntryView>,
    pub libexec: Seq<InnerEntryView>,
    pub includes: Seq<InnerEntryView>,
    pub man: Seq<InnerEntryView>,
    pub data: Seq<InnerDataEntryView>,
    pub docs: Seq<InnerDataEntryView>,
    pub config: Seq<InnerDataEntryView>,
    pub user_config: Seq<InnerEntryView>,
    pub desktop_files: Seq<InnerEntryView>,
    pub appstream_metadata: Seq<InnerEntryView>,
    pub completions: CompletionsView,
    pub pam_modules: Seq<InnerEntryView>,
    pub systemd_units: Seq<InnerEntryView>,
    pub systemd_user_units: Seq<InnerEntryView>,
    pub icons: Seq<IconView>,
    pub terminfo: Seq<InnerEntryView>,
    pub licenses: Seq<InnerDataEntryView>,
    pub pkg_config: Seq<InnerEntryView>,
}

impl View for Package {
    type V = PackageView;

    open spec fn view(&self) -> PackageView {
        PackageView {
            name: opt_text(self.name),
            pkg_type: self.pkg_type,
            exe: views(self.exe@),
            admin_exe: views(self.admin_exe@),
            libs: views(self.libs@),
            libexec: views(self.libexec@),
            includes: views(self.includes@),
            man: views(self.man@),
            data: views(self.data@),
            docs: views(self.docs@),
            config: views(self.config@),
            user_config: views(self.user_config@),
            desktop_files: views(self.desktop_files@),
            appstream_metadata: views(self.appstream_metadata@),
            completions: self.completions@,
            pam_modules: views(self.pam_modules@),
            systemd_units: views(self.systemd_units@),
            systemd_user_units: views(self.systemd_user_units@),
            icons: views(self.icons@),
            terminfo: views(self.terminfo@),
            licenses: views(self.licenses@),
            pkg_config: views(self.pkg_config@),
        }
    }
}

/// One entry of a manifest with what resolving it gave.
pub struct Attempt {
    pub category: Category,
    pub source: Seq<char>,
    pub outcome: Result<InstallEntryView, EntryErrorKind>,
}

/// The install entries gathered so far, or the first failure.
pub type Gathered = Result<Seq<InstallEntryView>, PackageErrorView>;

/// What one more attempt makes of the entries gathered so far: a failure
/// stays, a skipped entry changes nothing, a resolved entry is added, and a
/// malformed one is the failure.
pub open spec fn extended(acc: Gathered, item: Option<Attempt>) -> Gathered {
    match acc {
        Err(e) => Err(e),
        Ok(entries) => match item {
            None => Ok(entries),
            Some(attempt) => match attempt.outcome {
                Ok(entry) => Ok(entries.push(entry)),
                Err(kind) => Err(
                    PackageErrorView::Entry {
                        category: attempt.category,
                        kind,
                        source: attempt.source,
                    },
                ),
            },
        },
    }
}

/// What a sequence of attempts, taken in order, makes of the entries
/// gathered so far.
pub open spec fn gathered(acc: Gathered, items: Seq<Option<Attempt>>) -> Gathered
    decreases items.len(),
{
    if items.len() == 0 {
        acc
    } else {
        extended(gathered(acc, items.drop_last()), items.last())
    }
}

/// A failure among the first `k` attempts is the outcome of all of them.
pub proof fn lemma_failure_stays(acc: Gathered, items: Seq<Option<Attempt>>, k: int)
    requires
        0 <= k <= items.len(),
        gathered(acc, items.take(k)).is_err(),
    ensures
        gathered(acc, items) == gathered(acc, items.take(k)),
    decreases items.len() - k,
{
    if k == items.len() {
        assert(items.take(k) =~= items);
    } else {
        assert(items.take(k + 1).drop_last() =~= items.take(k));
        lemma_failure_stays(acc, items, k + 1);
    }
}

/// Where a source of a package of the given kind is found.
pub open spec fn full_source_of(
    pkg_type: Type,
    project: RustDirectoriesView,
    source: Seq<char>,
    built: bool,
) -> Seq<char> {
    match pkg_type {
        Type::Rust => project.source_path(source, built),
        _ => source,
    }
}

/// The text that `char::to_lowercase` gives for a character.
pub uninterp spec fn lowercased(c: char) -> Seq<char>;

/// Calls `char::to_lowercase` and collects the characters it yields.
#[verifier::external_body]
fn lowercase(c: char) -> (r: String)
    ensures
        r@ == lowercased(c),
{
    c.to_lowercase().to_string()
}

/// Whether the character is a section of the manual: a digit from 1 to 8.
pub open spec fn is_man_section(c: char) -> bool {
    '1' <= c && c <= '8'
}

impl InnerEntryView {
    /// The install entry for this entry at a given destination.
    pub open spec fn installed_at(
        self,
        destination: Seq<char>,
        replace: bool,
        pkg_type: Type,
        project: RustDirectoriesView,
    ) -> InstallEntryView {
        InstallEntryView {
            source: self.source,
            full_source: full_source_of(pkg_type, project, self.source, self.built),
            destination,
            templating: self.templating,
            replace,
        }
    }

    /// The install entry for this entry below `install_dir`. The source and
    /// the destination must be relative. With a destination, or with a
    /// source that is a file, the entry names the installed file, for which
    /// a source without destination needs a file name; else it names the
    /// directory.
    pub open spec fn resolved(
        self,
        replace: bool,
        install_dir: Seq<char>,
        pkg_type: Type,
        project: RustDirectoriesView,
    ) -> Result<InstallEntryView, EntryErrorKind> {
        if !is_relative_path(self.source) {
            Err(EntryErrorKind::SourceNotRelative)
        } else if self.destination.is_some() {
            if !is_relative_path(self.destination.unwrap()) {
                Err(EntryErrorKind::DestinationNotRelative)
            } else {
                Ok(
                    self.installed_at(
                        joined(install_dir, self.destination.unwrap()),
                        replace,
                        pkg_type,
                        project,
                    ),
                )
            }
        } else if self.is_file {
            match file_name_of(self.source) {
                Some(name) => Ok(
                    self.installed_at(joined(install_dir, name), replace, pkg_type, project),
                ),
                None => Err(EntryErrorKind::NoFileName),
            }
        } else {
            Ok(self.installed_at(install_dir, replace, pkg_type, project))
        }
    }

    /// The path that names the installed file: the source, unless a
    /// destination is given that is no directory.
    pub open spec fn installed_name(self) -> Seq<char> {
        if self.destination.is_none() || ends_with_char(self.destination.unwrap(), '/') {
            self.source
        } else {
            self.destination.unwrap()
        }
    }

    /// The section directory of a man page below `mandir`. The entry must
    /// not be a directory, and the extension of the installed name must end
    /// in a digit from 1 to 8, which is the section.
    pub open spec fn man_dir(self, mandir: Seq<char>) -> Result<Seq<char>, EntryErrorKind> {
        if ends_with_char(self.source, '/') {
            Err(EntryErrorKind::ManIsDirectory)
        } else {
            match extension_of(self.installed_name()) {
                None => Err(EntryErrorKind::NoExtension),
                Some(ext) => if ext.len() > 0 && is_man_section(ext.last()) {
                    Ok(joined(mandir, "man"@ + seq![ext.last()] + "/"@))
                } else {
                    Err(EntryErrorKind::NotManSection)
                },
            }
        }
    }

    /// The directory of a terminfo entry below the data root: `terminfo`,
    /// then the lowercased first character of the installed file's name.
    pub open spec fn terminfo_dir(self, datarootdir: Seq<char>) -> Result<
        Seq<char>,
        EntryErrorKind,
    > {
        if ends_with_char(self.source, '/') {
            Err(EntryErrorKind::TerminfoIsDirectory)
        } else {
            match file_name_of(self.installed_name()) {
                None => Err(EntryErrorKind::NoTerminfoName),
                Some(name) => if name.len() == 0 {
                    Err(EntryErrorKind::EmptyTerminfoName)
                } else {
                    Ok(joined(joined(datarootdir, "terminfo"@), lowercased(name[0])))
                },
            }
        }
    }

    /// The entry of a PAM module as it is installed: without destination, a
    /// file named `libpam_...` is installed without the `lib`.
    pub open spec fn pam_adjusted(self) -> Self {
        if self.destination.is_some() {
            self
        } else {
            match file_name_of(self.source) {
                Some(name) => if "libpam_"@.is_prefix_of(name) {
                    InnerEntryView { destination: Some(name.skip(3)), ..self }
                } else {
                    self
                },
                None => self,
            }
        }
    }

    /// What resolving the entry under a rule gives.
    pub open spec fn resolved_by(
        self,
        rule: Rule,
        replace: bool,
        dir: Seq<char>,
        pkg_type: Type,
        project: RustDirectoriesView,
    ) -> Result<InstallEntryView, EntryErrorKind> {
        match rule {
            Rule::Plain => self.resolved(replace, dir, pkg_type, project),
            Rule::Man => match self.man_dir(dir) {
                Ok(section) => self.resolved(replace, section, pkg_type, project),
                Err(e) => Err(e),
            },
            Rule::Pam => self.pam_adjusted().resolved(replace, dir, pkg_type, project),
            Rule::Terminfo => match self.terminfo_dir(dir) {
                Ok(initial) => self.resolved(replace, initial, pkg_type, project),
                Err(e) => Err(e),
            },
        }
    }
}

impl IconView {
    /// The install entry of the icon below the data root.
    pub open spec fn resolved(
        self,
        datarootdir: Seq<char>,
        pkg_type: Type,
        project: RustDirectoriesView,
    ) -> Result<InstallEntryView, EntryErrorKind> {
        match self.relative_destination() {
            Err(e) => Err(e),
            Ok(destination) => (InnerEntryView {
                source: self.source,
                destination: Some(destination),
                templating: false,
                is_file: false,
                built: self.built,
            }).resolved(true, datarootdir, pkg_type, project),
        }
    }
}

/// The attempts at the entries of a category under a rule.
pub open spec fn attempts(
    entries: Seq<InnerEntryView>,
    category: Category,
    rule: Rule,
    replace: bool,
    dir: Seq<char>,
    pkg_type: Type,
    project: RustDirectoriesView,
) -> Seq<Option<Attempt>> {
    Seq::new(
        entries.len(),
        |i: int|
            Some(
                Attempt {
                    category,
                    source: entries[i].source,
                    outcome: entries[i].resolved_by(rule, replace, dir, pkg_type, project),
                },
            ),
    )
}

/// The attempts at the entries of a category whose directory may be unset,
/// in which case the category is passed over.
pub open spec fn attempts_in(
    entries: Seq<InnerEntryView>,
    category: Category,
    rule: Rule,
    replace: bool,
    dir: Option<Seq<char>>,
    pkg_type: Type,
    project: RustDirectoriesView,
) -> Seq<Option<Attempt>> {
    match dir {
        Some(d) => attempts(entries, category, rule, replace, d, pkg_type, project),
        None => Seq::empty(),
    }
}

/// The attempts at the entries of a category that are installed below
/// `dir`, or below the directory named after the package in it where the
/// entry asks for that.
pub open spec fn data_attempts(
    entries: Seq<InnerDataEntryView>,
    category: Category,
    replace: bool,
    dir: Option<Seq<char>>,
    name: Seq<char>,
    pkg_type: Type,
    project: RustDirectoriesView,
) -> Seq<Option<Attempt>> {
    match dir {
        Some(d) => Seq::new(
            entries.len(),
            |i: int|
                Some(
                    Attempt {
                        category,
                        source: entries[i].entry.source,
                        outcome: entries[i].entry.resolved(
                            replace,
                            if entries[i].use_pkg_name {
                                joined(d, name)
                            } else {
                                d
                            },
                            pkg_type,
                            project,
                        ),
                    },
                ),
        ),
        None => Seq::empty(),
    }
}

/// The attempts at the icons: a pixmap is passed over unless the
/// installation is system-wide.
pub open spec fn icon_attempts(
    icons: Seq<IconView>,
    datarootdir: Seq<char>,
    system_install: bool,
    pkg_type: Type,
    project: RustDirectoriesView,
) -> Seq<Option<Attempt>> {
    Seq::new(
        icons.len(),
        |i: int|
            if system_install || !icons[i].pixmaps {
                Some(
                    Attempt {
                        category: Category::Icons,
                        source: icons[i].source,
                        outcome: icons[i].resolved(datarootdir, pkg_type, project),
                    },
                )
            } else {
                None
            },
    )
}

/// The entries where the condition holds, none otherwise.
pub open spec fn only_if(condition: bool, items: Seq<Option<Attempt>>) -> Seq<Option<Attempt>> {
    if condition {
        items
    } else {
        Seq::empty()
    }
}

/// The outcome of a step that gathers entries into `results`.
pub open spec fn gathering(r: Result<(), PackageError>, results: Seq<InstallEntry>) -> Gathered {
    match r {
        Ok(()) => Ok(views(results)),
        Err(e) => Err(e@),
    }
}

/// The outcome of resolving a package.
pub open spec fn resolution(r: Result<Vec<InstallEntry>, PackageError>) -> Gathered {
    match r {
        Ok(entries) => Ok(views(entries@)),
        Err(e) => Err(e@),
    }
}

/// The view of an entry that was resolved or refused.
pub open spec fn entry_outcome(r: Result<InstallEntry, EntryErrorKind>) -> Result<
    InstallEntryView,
    EntryErrorKind,
> {
    match r {
        Ok(entry) => Ok(entry@),
        Err(e) => Err(e),
    }
}

/// The view of a directory that was computed or refused.
pub open spec fn dir_outcome(r: Result<String, EntryErrorKind>) -> Result<
    Seq<char>,
    EntryErrorKind,
> {
    match r {
        Ok(dir) => Ok(dir@),
        Err(e) => Err(e),
    }
}

impl Category {
    /// The name of the category.
    pub open spec fn name_text(self) -> Seq<char> {
        match self {
            Category::Exe => "exe"@,
            Category::AdminExe => "admin_exe"@,
            Category::Libs => "libs"@,
            Category::Libexec => "libexec"@,
            Category::Includes => "includes"@,
            Category::Man => "man"@,
            Category::Data => "data"@,
            Category::Docs => "docs"@,
            Category::Config => "config"@,
            Category::UserConfig => "user-config"@,
            Category::DesktopFiles => "desktop-files"@,
            Category::AppstreamMetadata => "appstream-metadata"@,
            Category::CompletionsBash => "completions:bash"@,
            Category::CompletionsElvish => "completions:elvish"@,
            Category::CompletionsFish => "completions:fish"@,
            Category::CompletionsZsh => "completions:zsh"@,
            Category::PamModules => "pam-modules"@,
            Category::SystemdUnits => "systemd-units"@,
            Category::SystemdUserUnits => "systemd-user-units"@,
            Category::Icons => "icons"@,
            Category::Terminfo => "terminfo"@,
            Category::Licenses => "licenses"@,
            Category::PkgConfig => "pkg-config"@,
        }
    }

    /// The first version of the manifest format in which the category
    /// exists.
    pub open spec fn minimum(self) -> (u64, u64, u64) {
        match self {
            Category::CompletionsElvish | Category::SystemdUserUnits => (0, 2, 0),
            _ => (0, 1, 0),
        }
    }

    /// The versions of the manifest format in which the category exists,
    /// written as a requirement.
    pub open spec fn requirement_text(self) -> Seq<char> {
        match self {
            Category::CompletionsElvish | Category::SystemdUserUnits => ">=0.2.0"@,
            _ => ">=0.1.0"@,
        }
    }

    /// The name of the category.
    pub fn name(self) -> (r: &'static str)
        ensures
            r@ == self.name_text(),
    {
        match self {
            Category::Exe => "exe",
            Category::AdminExe => "admin_exe",
            Category::Libs => "libs",
            Category::Libexec => "libexec",
            Category::Includes => "includes",
            Category::Man => "man",
            Category::Data => "data",
            Category::Docs => "docs",
            Category::Config => "config",
            Category::UserConfig => "user-config",
            Category::DesktopFiles => "desktop-files",
            Category::AppstreamMetadata => "appstream-metadata",
            Category::CompletionsBash => "completions:bash",
            Category::CompletionsElvish => "completions:elvish",
            Category::CompletionsFish => "completions:fish",
            Category::CompletionsZsh => "completions:zsh",
            Category::PamModules => "pam-modules",
            Category::SystemdUnits => "systemd-units",
            Category::SystemdUserUnits => "systemd-user-units",
            Category::Icons => "icons",
            Category::Terminfo => "terminfo",
            Category::Licenses => "licenses",
            Category::PkgConfig => "pkg-config",
        }
    }

    /// The first version of the manifest format in which the category
    /// exists.
    pub fn minimum_version(self) -> (r: (u64, u64, u64))
        ensures
            r == self.minimum(),
    {
        match self {
            Category::CompletionsElvish | Category::SystemdUserUnits => (0, 2, 0),
            _ => (0, 1, 0),
        }
    }

    /// The versions of the manifest format in which the category exists,
    /// written as a requirement.
    pub fn requirement(self) -> (r: &'static str)
        ensures
            r@ == self.requirement_text(),
    {
        match self {
            Category::CompletionsElvish | Category::SystemdUserUnits => ">=0.2.0",
            _ => ">=0.1.0",
        }
    }

    /// Checks that a category, if it is used, exists in the given version of
    /// the manifest format.
    pub fn check_version(self, used: bool, version: RinstallVersion) -> (r: Result<
        (),
        PackageError,
    >)
        ensures
            r.is_ok() <==> !unmet(used, self, version),
            r.is_err() ==> r.unwrap_err()@ == (PackageErrorView::Version { category: self }),
    {
        let met = version.satisfies(self.minimum_version());
        if !used || met {
            Ok(())
        } else {
            Err(PackageError::Version { category: self })
        }
    }
}

impl Default for Type {
    fn default() -> (r: Self)
        ensures
            r == Type::Default,
    {
        Type::Default
    }
}

impl Type {
    /// Where a source of a package of this kind is found: for a Rust
    /// project as its directories say, else where the manifest says.
    pub fn sourcepath(self, source: &str, project: &RustDirectories, built: bool) -> (r: String)
        ensures
            r@ == full_source_of(self, project@, source@, built),
    {
        match self {
            Type::Default | Type::Custom => copy_text(source),
            Type::Rust => project.sourcepath(source, built),
        }
    }
}

/// The always-true default of `use_pkg_name`.
pub fn bool_true() -> (r: bool)
    ensures
        r,
{
    true
}

impl InnerEntry {
    /// The entry that a bare source in the manifest stands for.
    pub fn new_with_source(source: String) -> (r: Self)
        ensures
            r@ == (InnerEntryView {
                source: source@,
                destination: None,
                templating: false,
                is_file: false,
                built: false,
            }),
    {
        Self { source, destination: None, templating: false, is_file: false, built: false }
    }

    /// Resolves the entry into an install entry below `install_dir`.
    pub fn new_entry(
        &self,
        policy: FilesPolicy,
        install_dir: &str,
        pkg_type: Type,
        project: &RustDirectories,
    ) -> (r: Result<InstallEntry, EntryErrorKind>)
        ensures
            entry_outcome(r) == self@.resolved(
                policy.replaces(),
                install_dir@,
                pkg_type,
                project@,
            ),
    {
        let replace = policy.may_replace();
        if !is_relative(self.source.as_str()) {
            return Err(EntryErrorKind::SourceNotRelative);
        }
        let destination = match &self.destination {
            Some(destination) => {
                if !is_relative(destination.as_str()) {
                    return Err(EntryErrorKind::DestinationNotRelative);
                }
                join(install_dir, destination.as_str())
            },
            None => {
                if self.is_file {
                    match file_name(self.source.as_str()) {
                        Some(name) => join(install_dir, name.as_str()),
                        None => {
                            return Err(EntryErrorKind::NoFileName);
                        },
                    }
                } else {
                    copy_text(install_dir)
                }
            },
        };
        let full_source = pkg_type.sourcepath(self.source.as_str(), project, self.built);
        Ok(
            InstallEntry {
                source: self.source.clone(),
                full_source,
                destination,
                templating: self.templating,
                replace,
            },
        )
    }

    /// The path that names the installed file.
    fn installed_name(&self) -> (r: &str)
        ensures
            r@ == self@.installed_name(),
    {
        match &self.destination {
            None => self.source.as_str(),
            Some(destination) => {
                if ends_with(destination.as_str(), '/') {
                    self.source.as_str()
                } else {
                    destination.as_str()
                }
            },
        }
    }

    /// The section directory of a man page below `mandir`.
    pub fn man_dir(&self, mandir: &str) -> (r: Result<String, EntryErrorKind>)
        ensures
            dir_outcome(r) == self@.man_dir(mandir@),
    {
        if ends_with(self.source.as_str(), '/') {
            return Err(EntryErrorKind::ManIsDirectory);
        }
        match extension(self.installed_name()) {
            None => Err(EntryErrorKind::NoExtension),
            Some(ext) => {
                let n = ext.as_str().unicode_len();
                if n == 0 {
                    return Err(EntryErrorKind::NotManSection);
                }
                let section = ext.as_str().get_char(n - 1);
                if '1' <= section && section <= '8' {
                    let digit = ext.as_str().substring_char(n - 1, n);
                    let name = append_text(append_text("man", digit).as_str(), "/");
                    proof {
                        assert(digit@ =~= seq![ext@.last()]);
                    }
                    Ok(join(mandir, name.as_str()))
                } else {
                    Err(EntryErrorKind::NotManSection)
                }
            },
        }
    }

    /// The directory of a terminfo entry below the data root.
    pub fn terminfo_dir(&self, datarootdir: &str) -> (r: Result<String, EntryErrorKind>)
        ensures
            dir_outcome(r) == self@.terminfo_dir(datarootdir@),
    {
        if ends_with(self.source.as_str(), '/') {
            return Err(EntryErrorKind::TerminfoIsDirectory);
        }
        match file_name(self.installed_name()) {
            None => Err(EntryErrorKind::NoTerminfoName),
            Some(name) => {
                if name.as_str().unicode_len() == 0 {
                    return Err(EntryErrorKind::EmptyTerminfoName);
                }
                let initial = lowercase(name.as_str().get_char(0));
                let terminfo = join(datarootdir, "terminfo");
                Ok(join(terminfo.as_str(), initial.as_str()))
            },
        }
    }

    /// The entry of a PAM module as it is installed.
    pub fn pam_adjusted(&self) -> (r: Self)
        ensures
            r@ == self@.pam_adjusted(),
    {
        let destination = match &self.destination {
            Some(destination) => Some(destination.clone()),
            None => match file_name(self.source.as_str()) {
                Some(name) => {
                    proof {
                        reveal_strlit("libpam_");
                    }
                    if starts_with(name.as_str(), "libpam_") {
                        Some(skip_chars(name.as_str(), 3))
                    } else {
                        None
                    }
                },
                None => None,
            },
        };
        Self {
            source: self.source.clone(),
            destination,
            templating: self.templating,
            is_file: self.is_file,
            built: self.built,
        }
    }

    /// Resolves the entry under a rule.
    pub fn resolve(
        &self,
        rule: Rule,
        policy: FilesPolicy,
        dir: &str,
        pkg_type: Type,
        project: &RustDirectories,
    ) -> (r: Result<InstallEntry, EntryErrorKind>)
        ensures
            entry_outcome(r) == self@.resolved_by(
                rule,
                policy.replaces(),
                dir@,
                pkg_type,
                project@,
            ),
    {
        match rule {
            Rule::Plain => self.new_entry(policy, dir, pkg_type, project),
            Rule::Man => match self.man_dir(dir) {
                Ok(section) => self.new_entry(policy, section.as_str(), pkg_type, project),
                Err(e) => Err(e),
            },
            Rule::Pam => self.pam_adjusted().new_entry(policy, dir, pkg_type, project),
            Rule::Terminfo => match self.terminfo_dir(dir) {
                Ok(initial) => self.new_entry(policy, initial.as_str(), pkg_type, project),
                Err(e) => Err(e),
            },
        }
    }
}

impl InnerDataEntry {
    /// The entry that a bare source in the manifest stands for: installed
    /// below the directory named after the package.
    pub fn new_with_source(source: String) -> (r: Self)
        ensures
            r@ == (InnerDataEntryView {
                use_pkg_name: true,
                entry: InnerEntryView {
                    source: source@,
                    destination: None,
                    templating: false,
                    is_file: false,
                    built: false,
                },
            }),
    {
        InnerDataEntry { use_pkg_name: bool_true(), entry: InnerEntry::new_with_source(source) }
    }
}

impl Icon {
    /// Resolves the icon into an install entry below the data root.
    pub fn resolve(&self, datarootdir: &str, pkg_type: Type, project: &RustDirectories) -> (r:
        Result<InstallEntry, EntryErrorKind>)
        ensures
            entry_outcome(r) == self@.resolved(datarootdir@, pkg_type, project@),
    {
        match self.get_destination() {
            Err(e) => Err(e),
            Ok(destination) => {
                let entry = InnerEntry {
                    source: self.source.clone(),
                    destination: Some(destination),
                    templating: false,
                    is_file: false,
                    built: self.built,
                };
                entry.new_entry(FilesPolicy::Replace, datarootdir, pkg_type, project)
            },
        }
    }
}

/// Adds a resolved entry to the results, or reports the malformed one.
fn record(
    results: &mut Vec<InstallEntry>,
    category: Category,
    source: &String,
    outcome: Result<InstallEntry, EntryErrorKind>,
) -> (r: Result<(), PackageError>)
    ensures
        gathering(r, final(results)@) == extended(
            Ok(views(old(results)@)),
            Some(Attempt { category, source: source@, outcome: entry_outcome(outcome) }),
        ),
{
    match outcome {
        Ok(entry) => {
            results.push(entry);
            proof {
                assert(views(results@) =~= views(old(results)@).push(entry@));
            }
            Ok(())
        },
        Err(kind) => Err(PackageError::Entry { category, kind, source: source.clone() }),
    }
}

/// Resolves the entries of a category under a rule and adds them to the
/// results, up to the first malformed one.
fn gather(
    results: &mut Vec<InstallEntry>,
    entries: &Vec<InnerEntry>,
    category: Category,
    rule: Rule,
    policy: FilesPolicy,
    dir: &str,
    pkg_type: Type,
    project: &RustDirectories,
) -> (r: Result<(), PackageError>)
    ensures
        gathering(r, final(results)@) == gathered(
            Ok(views(old(results)@)),
            attempts(
                views(entries@),
                category,
                rule,
                policy.replaces(),
                dir@,
                pkg_type,
                project@,
            ),
        ),
{
    let ghost start: Gathered = Ok(views(results@));
    let ghost items = attempts(
        views(entries@),
        category,
        rule,
        policy.replaces(),
        dir@,
        pkg_type,
        project@,
    );
    let mut i: usize = 0;
    proof {
        assert(items.take(0) =~= Seq::empty());
    }
    while i < entries.len()
        invariant
            i <= entries.len(),
            items.len() == entries.len(),
            items == attempts(
                views(entries@),
                category,
                rule,
                policy.replaces(),
                dir@,
                pkg_type,
                project@,
            ),
            start == Ok::<_, PackageErrorView>(views(old(results)@)),
            gathered(start, items.take(i as int)) == Ok::<_, PackageErrorView>(views(results@)),
        decreases entries.len() - i,
    {
        let entry = &entries[i];
        let outcome = entry.resolve(rule, policy, dir, pkg_type, project);
        proof {
            assert(items.take(i + 1).drop_last() =~= items.take(i as int));
            assert(items.take(i + 1).last() == items[i as int]);
        }
        match record(results, category, &entry.source, outcome) {
            Ok(()) => {},
            Err(e) => {
                proof {
                    lemma_failure_stays(start, items, i + 1);
                }
                return Err(e);
            },
        }
        i += 1;
    }
    proof {
        assert(items.take(i as int) =~= items);
    }
    Ok(())
}

/// Resolves the entries of a category that may be installed below a
/// directory named after the package, and adds them to the results.
fn gather_data(
    results: &mut Vec<InstallEntry>,
    entries: &Vec<InnerDataEntry>,
    category: Category,
    policy: FilesPolicy,
    dir: &str,
    name: &str,
    pkg_type: Type,
    project: &RustDirectories,
) -> (r: Result<(), PackageError>)
    ensures
        gathering(r, final(results)@) == gathered(
            Ok(views(old(results)@)),
            data_attempts(
                views(entries@),
                category,
                policy.replaces(),
                Some(dir@),
                name@,
                pkg_type,
                project@,
            ),
        ),
{
    let ghost start: Gathered = Ok(views(results@));
    let ghost items = data_attempts(
        views(entries@),
        category,
        policy.replaces(),
        Some(dir@),
        name@,
        pkg_type,
        project@,
    );
    let with_pkgname = join(dir, name);
    let mut i: usize = 0;
    proof {
        assert(items.take(0) =~= Seq::empty());
    }
    while i < entries.len()
        invariant
            i <= entries.len(),
            items.len() == entries.len(),
            with_pkgname@ == joined(dir@, name@),
            items == data_attempts(
                views(entries@),
                category,
                policy.replaces(),
                Some(dir@),
                name@,
                pkg_type,
                project@,
            ),
            start == Ok::<_, PackageErrorView>(views(old(results)@)),
            gathered(start, items.take(i as int)) == Ok::<_, PackageErrorView>(views(results@)),
        decreases entries.len() - i,
    {
        let entry = &entries[i];
        let outcome = if entry.use_pkg_name {
            entry.entry.new_entry(policy, with_pkgname.as_str(), pkg_type, project)
        } else {
            entry.entry.new_entry(policy, dir, pkg_type, project)
        };
        proof {
            assert(items.take(i + 1).drop_last() =~= items.take(i as int));
            assert(items.take(i + 1).last() == items[i as int]);
        }
        match record(results, category, &entry.entry.source, outcome) {
            Ok(()) => {},
            Err(e) => {
                proof {
                    lemma_failure_stays(start, items, i + 1);
                }
                return Err(e);
            },
        }
        i += 1;
    }
    proof {
        assert(items.take(i as int) =~= items);
    }
    Ok(())
}

/// Resolves the icons and adds them to the results; pixmaps are passed
/// over unless the installation is system-wide.
fn gather_icons(
    results: &mut Vec<InstallEntry>,
    icons: &Vec<Icon>,
    datarootdir: &str,
    system_install: bool,
    pkg_type: Type,
    project: &RustDirectories,
) -> (r: Result<(), PackageError>)
    ensures
        gathering(r, final(results)@) == gathered(
            Ok(views(old(results)@)),
            icon_attempts(views(icons@), datarootdir@, system_install, pkg_type, project@),
        ),
{
    let ghost start: Gathered = Ok(views(results@));
    let ghost items = icon_attempts(
        views(icons@),
        datarootdir@,
        system_install,
        pkg_type,
        project@,
    );
    let mut i: usize = 0;
    proof {
        assert(items.take(0) =~= Seq::empty());
    }
    while i < icons.len()
        invariant
            i <= icons.len(),
            items.len() == icons.len(),
            items == icon_attempts(
                views(icons@),
                datarootdir@,
                system_install,
                pkg_type,
                project@,
            ),
            start == Ok::<_, PackageErrorView>(views(old(results)@)),
            gathered(start, items.take(i as int)) == Ok::<_, PackageErrorView>(views(results@)),
        decreases icons.len() - i,
    {
        let icon = &icons[i];
        proof {
            assert(items.take(i + 1).drop_last() =~= items.take(i as int));
            assert(items.take(i + 1).last() == items[i as int]);
        }
        if system_install || !icon.pixmaps {
            let outcome = icon.resolve(datarootdir, pkg_type, project);
            match record(results, Category::Icons, &icon.source, outcome) {
                Ok(()) => {},
                Err(e) => {
                    proof {
                        lemma_failure_stays(start, items, i + 1);
                    }
                    return Err(e);
                },
            }
        }
        i += 1;
    }
    proof {
        assert(items.take(i as int) =~= items);
    }
    Ok(())
}

/// Whether a category is used although the version of the manifest format
/// lacks it.
pub open spec fn unmet(used: bool, category: Category, version: RinstallVersion) -> bool {
    used && !version.meets(category.minimum())
}

impl PackageView {
    /// The first category, in the order in which they are checked, that is
    /// used although the version of the manifest format lacks it.
    pub open spec fn version_failure(self, version: RinstallVersion) -> Option<Category> {
        if unmet(self.exe.len() > 0, Category::Exe, version) {
            Some(Category::Exe)
        } else if unmet(self.admin_exe.len() > 0, Category::AdminExe, version) {
            Some(Category::AdminExe)
        } else if unmet(self.libs.len() > 0, Category::Libs, version) {
            Some(Category::Libs)
        } else if unmet(self.libexec.len() > 0, Category::Libexec, version) {
            Some(Category::Libexec)
        } else if unmet(self.includes.len() > 0, Category::Includes, version) {
            Some(Category::Includes)
        } else if unmet(self.man.len() > 0, Category::Man, version) {
            Some(Category::Man)
        } else if unmet(self.data.len() > 0, Category::Data, version) {
            Some(Category::Data)
        } else if unmet(self.docs.len() > 0, Category::Docs, version) {
            Some(Category::Docs)
        } else if unmet(self.config.len() > 0, Category::Config, version) {
            Some(Category::Config)
        } else if unmet(self.user_config.len() > 0, Category::UserConfig, version) {
            Some(Category::UserConfig)
        } else if unmet(self.desktop_files.len() > 0, Category::DesktopFiles, version) {
            Some(Category::DesktopFiles)
        } else if unmet(self.appstream_metadata.len() > 0, Category::AppstreamMetadata, version) {
            Some(Category::AppstreamMetadata)
        } else if unmet(self.completions.bash.len() > 0, Category::CompletionsBash, version) {
            Some(Category::CompletionsBash)
        } else if unmet(self.completions.elvish.len() > 0, Category::CompletionsElvish, version) {
            Some(Category::CompletionsElvish)
        } else if unmet(self.completions.fish.len() > 0, Category::CompletionsFish, version) {
            Some(Category::CompletionsFish)
        } else if unmet(self.completions.zsh.len() > 0, Category::CompletionsZsh, version) {
            Some(Category::CompletionsZsh)
        } else if unmet(self.pam_modules.len() > 0, Category::PamModules, version) {
            Some(Category::PamModules)
        } else if unmet(self.systemd_units.len() > 0, Category::SystemdUnits, version) {
            Some(Category::SystemdUnits)
        } else if unmet(self.systemd_user_units.len() > 0, Category::SystemdUserUnits, version) {
            Some(Category::SystemdUserUnits)
        } else if unmet(self.icons.len() > 0, Category::Icons, version) {
            Some(Category::Icons)
        } else if unmet(self.terminfo.len() > 0, Category::Terminfo, version) {
            Some(Category::Terminfo)
        } else if unmet(self.licenses.len() > 0, Category::Licenses, version) {
            Some(Category::Licenses)
        } else if unmet(self.pkg_config.len() > 0, Category::PkgConfig, version) {
            Some(Category::PkgConfig)
        } else {
            None
        }
    }
}

/// The entries gathered so far with those of further attempts, unless a
/// failure already stands.
pub open spec fn then(acc: Gathered, items: Seq<Option<Attempt>>) -> Gathered {
    match acc {
        Err(e) => Err(e),
        Ok(entries) => gathered(Ok(entries), items),
    }
}

/// The directory below `base`, where `base` is set.
pub open spec fn below(base: Option<Seq<char>>, path: Seq<char>) -> Option<Seq<char>> {
    match base {
        Some(b) => Some(joined(b, path)),
        None => None,
    }
}

impl PackageView {
    /// The entries of the categories whose directory does not depend on the
    /// kind of installation: executables, libraries, headers, desktop files,
    /// user units, data, configuration, documentation, licenses and man
    /// pages, in this order.
    pub open spec fn common_entries(self, dirs: DirsView, project: RustDirectoriesView)
        -> Gathered {
        let ty = self.pkg_type;
        let name = self.name.unwrap();
        let acc: Gathered = Ok(Seq::empty());
        let acc = then(
            acc,
            attempts_in(self.exe, Category::Exe, Rule::Plain, true, Some(dirs.bindir), ty, project),
        );
        let acc = then(
            acc,
            attempts_in(
                self.libs,
                Category::Libs,
                Rule::Plain,
                true,
                Some(dirs.libdir),
                ty,
                project,
            ),
        );
        let acc = then(
            acc,
            attempts_in(
                self.libexec,
                Category::Libexec,
                Rule::Plain,
                true,
                Some(dirs.libexecdir),
                ty,
                project,
            ),
        );
        let acc = then(
            acc,
            attempts_in(
                self.admin_exe,
                Category::AdminExe,
                Rule::Plain,
                true,
                dirs.sbindir,
                ty,
                project,
            ),
        );
        let acc = then(
            acc,
            attempts_in(
                self.includes,
                Category::Includes,
                Rule::Plain,
                true,
                dirs.includedir,
                ty,
                project,
            ),
        );
        let acc = then(
            acc,
            attempts_in(
                self.desktop_files,
                Category::DesktopFiles,
                Rule::Plain,
                true,
                Some(joined(dirs.datarootdir, "applications/"@)),
                ty,
                project,
            ),
        );
        let acc = then(
            acc,
            attempts_in(
                self.systemd_user_units,
                Category::SystemdUserUnits,
                Rule::Plain,
                true,
                Some(joined(dirs.systemd_unitsdir, "user/"@)),
                ty,
                project,
            ),
        );
        let acc = then(
            acc,
            data_attempts(self.data, Category::Data, true, Some(dirs.datadir), name, ty, project),
        );
        let acc = then(
            acc,
            data_attempts(
                self.config,
                Category::Config,
                false,
                Some(dirs.sysconfdir),
                name,
                ty,
                project,
            ),
        );
        let acc = then(
            acc,
            data_attempts(self.docs, Category::Docs, true, dirs.docdir, name, ty, project),
        );
        let acc = then(
            acc,
            data_attempts(
                self.licenses,
                Category::Licenses,
                true,
                Some(joined(dirs.datarootdir, "licenses/"@)),
                name,
                ty,
                project,
            ),
        );
        let acc = then(
            acc,
            attempts_in(self.man, Category::Man, Rule::Man, true, dirs.mandir, ty, project),
        );
        acc
    }

    /// The entries of the user configuration, of the application metadata
    /// and of the shell completions, added to those gathered so far. User
    /// configuration is documentation in a system installation and
    /// configuration that is not replaced otherwise; metadata and the
    /// completions of fish and zsh belong to a system installation only.
    pub open spec fn shared_entries(
        self,
        acc: Gathered,
        dirs: DirsView,
        system_install: bool,
        project: RustDirectoriesView,
    ) -> Gathered {
        let ty = self.pkg_type;
        let root = dirs.datarootdir;
        let acc = then(
            acc,
            if system_install {
                attempts_in(
                    self.user_config,
                    Category::UserConfig,
                    Rule::Plain,
                    true,
                    below(dirs.docdir, "user-config"@),
                    ty,
                    project,
                )
            } else {
                attempts(
                    self.user_config,
                    Category::UserConfig,
                    Rule::Plain,
                    false,
                    dirs.sysconfdir,
                    ty,
                    project,
                )
            },
        );
        let acc = then(
            acc,
            only_if(
                system_install,
                attempts(
                    self.appstream_metadata,
                    Category::AppstreamMetadata,
                    Rule::Plain,
                    true,
                    joined(root, "metainfo/"@),
                    ty,
                    project,
                ),
            ),
        );
        let acc = then(
            acc,
            attempts(
                self.completions.bash,
                Category::CompletionsBash,
                Rule::Plain,
                true,
                joined(
                    root,
                    if system_install {
                        "bash-completion/completions/"@
                    } else {
                        "bash-completion/"@
                    },
                ),
                ty,
                project,
            ),
        );
        let acc = then(
            acc,
            attempts(
                self.completions.elvish,
                Category::CompletionsElvish,
                Rule::Plain,
                true,
                joined(root, "elvish/lib/"@),
                ty,
                project,
            ),
        );
        let acc = then(
            acc,
            only_if(
                system_install,
                attempts(
                    self.completions.fish,
                    Category::CompletionsFish,
                    Rule::Plain,
                    true,
                    joined(root, "fish/vendor_completions.d/"@),
                    ty,
                    project,
                ),
            ),
        );
        let acc = then(
            acc,
            only_if(
                system_install,
                attempts(
                    self.completions.zsh,
                    Category::CompletionsZsh,
                    Rule::Plain,
                    true,
                    joined(root, "zsh/site-functions/"@),
                    ty,
                    project,
                ),
            ),
        );
        acc
    }

    /// The entries of the PAM modules, system units, icons, terminfo files
    /// and pkg-config files, added to those gathered so far. System units,
    /// terminfo and pkg-config files belong to a system installation only.
    pub open spec fn system_entries(
        self,
        acc: Gathered,
        dirs: DirsView,
        system_install: bool,
        project: RustDirectoriesView,
    ) -> Gathered {
        let ty = self.pkg_type;
        let acc = then(
            acc,
            attempts_in(
                self.pam_modules,
                Category::PamModules,
                Rule::Pam,
                true,
                dirs.pam_modulesdir,
                ty,
                project,
            ),
        );
        let acc = then(
            acc,
            only_if(
                system_install,
                attempts(
                    self.systemd_units,
                    Category::SystemdUnits,
                    Rule::Plain,
                    true,
                    joined(dirs.systemd_unitsdir, "system/"@),
                    ty,
                    project,
                ),
            ),
        );
        let acc = then(
            acc,
            icon_attempts(self.icons, dirs.datarootdir, system_install, ty, project),
        );
        let acc = then(
            acc,
            only_if(
                system_install,
                attempts(
                    self.terminfo,
                    Category::Terminfo,
                    Rule::Terminfo,
                    true,
                    dirs.datarootdir,
                    ty,
                    project,
                ),
            ),
        );
        let acc = then(
            acc,
            only_if(
                system_install,
                attempts(
                    self.pkg_config,
                    Category::PkgConfig,
                    Rule::Plain,
                    true,
                    joined(dirs.libdir, "pkgconfig/"@),
                    ty,
                    project,
                ),
            ),
        );
        acc
    }

    /// The install entries of the package: none where a category is used
    /// that the version of the manifest format lacks; else the entries of
    /// all categories in their fixed order, up to the first malformed one.
    pub open spec fn targets(
        self,
        dirs: DirsView,
        version: RinstallVersion,
        system_install: bool,
        project: RustDirectoriesView,
    ) -> Gathered {
        match self.version_failure(version) {
            Some(category) => Err(PackageErrorView::Version { category }),
            None => self.system_entries(
                self.shared_entries(
                    self.common_entries(dirs, project),
                    dirs,
                    system_install,
                    project,
                ),
                dirs,
                system_install,
                project,
            ),
        }
    }
}

/// A package that uses a category which the version of the manifest format
/// lacks yields the failure that names the category, and no entry.
pub proof fn lemma_unmet_category_yields_nothing(
    package: PackageView,
    dirs: DirsView,
    version: RinstallVersion,
    system_install: bool,
    project: RustDirectoriesView,
)
    requires
        package.version_failure(version).is_some(),
    ensures
        package.targets(dirs, version, system_install, project) == Err::<
            Seq<InstallEntryView>,
            PackageErrorView,
        >(PackageErrorView::Version { category: package.version_failure(version).unwrap() }),
{
}

/// A package is refused for its version exactly where the manifest
/// declares 0.1.0 and the package has user units or completions for
/// elvish, which exist from 0.2.0 on; of the two, the completions are named
/// first.
pub proof fn lemma_version_gate(package: PackageView, version: RinstallVersion)
    ensures
        package.version_failure(version).is_some() <==> (version == RinstallVersion::V0_1_0 && (
        package.completions.elvish.len() > 0 || package.systemd_user_units.len() > 0)),
        package.version_failure(version) matches Some(category) ==> category == (
        if package.completions.elvish.len() > 0 {
            Category::CompletionsElvish
        } else {
            Category::SystemdUserUnits
        }),
{
}

/// An entry that resolves has a relative source, under every rule.
pub proof fn lemma_resolved_source_is_relative(
    entry: InnerEntryView,
    rule: Rule,
    replace: bool,
    dir: Seq<char>,
    pkg_type: Type,
    project: RustDirectoriesView,
)
    ensures
        entry.resolved_by(rule, replace, dir, pkg_type, project) matches Ok(resolved)
            ==> resolved.source == entry.source && is_relative_path(resolved.source)
            && resolved.replace == replace,
{
}

impl Package {
    /// Gathers the entries of the categories whose directory does not
    /// depend on the kind of installation.
    fn common_targets(&self, dirs: &Dirs, project: &RustDirectories) -> (r: Result<
        Vec<InstallEntry>,
        PackageError,
    >)
        requires
            self.name.is_some(),
        ensures
            resolution(r) == self@.common_entries(dirs@, project@),
    {
        let ty = self.pkg_type;
        let name = match &self.name {
            Some(name) => name.as_str(),
            None => "",
        };
        let mut results: Vec<InstallEntry> = Vec::new();
        proof {
            assert(views(results@) =~= Seq::empty());
        }
        gather(
            &mut results,
            &self.exe,
            Category::Exe,
            Rule::Plain,
            FilesPolicy::Replace,
            dirs.bindir.as_str(),
            ty,
            project,
        )?;
        gather(
            &mut results,
            &self.libs,
            Category::Libs,
            Rule::Plain,
            FilesPolicy::Replace,
            dirs.libdir.as_str(),
            ty,
            project,
        )?;
        gather(
            &mut results,
            &self.libexec,
            Category::Libexec,
            Rule::Plain,
            FilesPolicy::Replace,
            dirs.libexecdir.as_str(),
            ty,
            project,
        )?;
        if let Some(dir) = &dirs.sbindir {
            gather(
                &mut results,
                &self.admin_exe,
                Category::AdminExe,
                Rule::Plain,
                FilesPolicy::Replace,
                dir.as_str(),
                ty,
                project,
            )?;
        }
        if let Some(dir) = &dirs.includedir {
            gather(
                &mut results,
                &self.includes,
                Category::Includes,
                Rule::Plain,
                FilesPolicy::Replace,
                dir.as_str(),
                ty,
                project,
            )?;
        }
        let dir = join(dirs.datarootdir.as_str(), "applications/");
        gather(
            &mut results,
            &self.desktop_files,
            Category::DesktopFiles,
            Rule::Plain,
            FilesPolicy::Replace,
            dir.as_str(),
            ty,
            project,
        )?;
        let dir = join(dirs.systemd_unitsdir.as_str(), "user/");
        gather(
            &mut results,
            &self.systemd_user_units,
            Category::SystemdUserUnits,
            Rule::Plain,
            FilesPolicy::Replace,
            dir.as_str(),
            ty,
            project,
        )?;
        gather_data(
            &mut results,
            &self.data,
            Category::Data,
            FilesPolicy::Replace,
            dirs.datadir.as_str(),
            name,
            ty,
            project,
        )?;
        gather_data(
            &mut results,
            &self.config,
            Category::Config,
            FilesPolicy::NoReplace,
            dirs.sysconfdir.as_str(),
            name,
            ty,
            project,
        )?;
        if let Some(dir) = &dirs.docdir {
            gather_data(
                &mut results,
                &self.docs,
                Category::Docs,
                FilesPolicy::Replace,
                dir.as_str(),
                name,
                ty,
                project,
            )?;
        }
        let dir = join(dirs.datarootdir.as_str(), "licenses/");
        gather_data(
            &mut results,
            &self.licenses,
            Category::Licenses,
            FilesPolicy::Replace,
            dir.as_str(),
            name,
            ty,
            project,
        )?;
        if let Some(dir) = &dirs.mandir {
            gather(
                &mut results,
                &self.man,
                Category::Man,
                Rule::Man,
                FilesPolicy::Replace,
                dir.as_str(),
                ty,
                project,
            )?;
        }
        Ok(results)
    }

    /// Adds the entries of the user configuration, of the application
    /// metadata and of the shell completions.
    fn shared_targets(
        &self,
        results: Vec<InstallEntry>,
        dirs: &Dirs,
        system_install: bool,
        project: &RustDirectories,
    ) -> (r: Result<Vec<InstallEntry>, PackageError>)
        ensures
            resolution(r) == self@.shared_entries(
                Ok(views(results@)),
                dirs@,
                system_install,
                project@,
            ),
    {
        let ty = self.pkg_type;
        let mut results = results;
        let root = dirs.datarootdir.as_str();
        if system_install {
            if let Some(docdir) = &dirs.docdir {
                let dir = join(docdir.as_str(), "user-config");
                gather(
                    &mut results,
                    &self.user_config,
                    Category::UserConfig,
                    Rule::Plain,
                    FilesPolicy::Replace,
                    dir.as_str(),
                    ty,
                    project,
                )?;
            }
        } else {
            gather(
                &mut results,
                &self.user_config,
                Category::UserConfig,
                Rule::Plain,
                FilesPolicy::NoReplace,
                dirs.sysconfdir.as_str(),
                ty,
                project,
            )?;
        }
        if system_install {
            let dir = join(root, "metainfo/");
            gather(
                &mut results,
                &self.appstream_metadata,
                Category::AppstreamMetadata,
                Rule::Plain,
                FilesPolicy::Replace,
                dir.as_str(),
                ty,
                project,
            )?;
        }
        let dir = join(
            root,
            if system_install {
                "bash-completion/completions/"
            } else {
                "bash-completion/"
            },
        );
        gather(
            &mut results,
            &self.completions.bash,
            Category::CompletionsBash,
            Rule::Plain,
            FilesPolicy::Replace,
            dir.as_str(),
            ty,
            project,
        )?;
        let dir = join(root, "elvish/lib/");
        gather(
            &mut results,
            &self.completions.elvish,
            Category::CompletionsElvish,
            Rule::Plain,
            FilesPolicy::Replace,
            dir.as_str(),
            ty,
            project,
        )?;
        if system_install {
            let dir = join(root, "fish/vendor_completions.d/");
            gather(
                &mut results,
                &self.completions.fish,
                Category::CompletionsFish,
                Rule::Plain,
                FilesPolicy::Replace,
                dir.as_str(),
                ty,
                project,
            )?;
            let dir = join(root, "zsh/site-functions/");
            gather(
                &mut results,
                &self.completions.zsh,
                Category::CompletionsZsh,
                Rule::Plain,
                FilesPolicy::Replace,
                dir.as_str(),
                ty,
                project,
            )?;
        }
        Ok(results)
    }

    /// Adds the entries of the PAM modules, system units, icons, terminfo
    /// files and pkg-config files.
    fn system_targets(
        &self,
        results: Vec<InstallEntry>,
        dirs: &Dirs,
        system_install: bool,
        project: &RustDirectories,
    ) -> (r: Result<Vec<InstallEntry>, PackageError>)
        ensures
            resolution(r) == self@.system_entries(
                Ok(views(results@)),
                dirs@,
                system_install,
                project@,
            ),
    {
        let ty = self.pkg_type;
        let mut results = results;
        if let Some(dir) = &dirs.pam_modulesdir {
            gather(
                &mut results,
                &self.pam_modules,
                Category::PamModules,
                Rule::Pam,
                FilesPolicy::Replace,
                dir.as_str(),
                ty,
                project,
            )?;
        }
        if system_install {
            let dir = join(dirs.systemd_unitsdir.as_str(), "system/");
            gather(
                &mut results,
                &self.systemd_units,
                Category::SystemdUnits,
                Rule::Plain,
                FilesPolicy::Replace,
                dir.as_str(),
                ty,
                project,
            )?;
        }
        gather_icons(
            &mut results,
            &self.icons,
            dirs.datarootdir.as_str(),
            system_install,
            ty,
            project,
        )?;
        if system_install {
            gather(
                &mut results,
                &self.terminfo,
                Category::Terminfo,
                Rule::Terminfo,
                FilesPolicy::Replace,
                dirs.datarootdir.as_str(),
                ty,
                project,
            )?;
            let dir = join(dirs.libdir.as_str(), "pkgconfig/");
            gather(
                &mut results,
                &self.pkg_config,
                Category::PkgConfig,
                Rule::Plain,
                FilesPolicy::Replace,
                dir.as_str(),
                ty,
                project,
            )?;
        }
        Ok(results)
    }

    /// Resolves the package into its install entries: for every category,
    /// in a fixed order, one entry for each entry of the manifest, placed
    /// in the category's directory under the category's policy. Fails where
    /// a category is used that the version of the manifest format lacks, or
    /// at the first malformed entry.
    pub fn targets(
        self,
        dirs: &Dirs,
        rinstall_version: &RinstallVersion,
        system_install: bool,
        project: &RustDirectories,
    ) -> (r: Result<Vec<InstallEntry>, PackageError>)
        requires
            self.name.is_some(),
        ensures
            resolution(r) == self@.targets(dirs@, *rinstall_version, system_install, project@),
    {
        self.check_entries(*rinstall_version)?;
        let common = self.common_targets(dirs, project)?;
        let shared = self.shared_targets(common, dirs, system_install, project)?;
        self.system_targets(shared, dirs, system_install, project)
    }

    /// Checks that every category that the package uses exists in the given
    /// version of the manifest format, and names the first that does not.
    pub fn check_entries(&self, version: RinstallVersion) -> (r: Result<(), PackageError>)
        ensures
            r.is_ok() <==> self@.version_failure(version).is_none(),
            r.is_err() ==> Some(r.unwrap_err()@) == match self@.version_failure(version) {
                Some(category) => Some(PackageErrorView::Version { category }),
                None => None,
            },
    {
        Category::Exe.check_version(self.exe.len() > 0, version)?;
        Category::AdminExe.check_version(self.admin_exe.len() > 0, version)?;
        Category::Libs.check_version(self.libs.len() > 0, version)?;
        Category::Libexec.check_version(self.libexec.len() > 0, version)?;
        Category::Includes.check_version(self.includes.len() > 0, version)?;
        Category::Man.check_version(self.man.len() > 0, version)?;
        Category::Data.check_version(self.data.len() > 0, version)?;
        Category::Docs.check_version(self.docs.len() > 0, version)?;
        Category::Config.check_version(self.config.len() > 0, version)?;
        Category::UserConfig.check_version(self.user_config.len() > 0, version)?;
        Category::DesktopFiles.check_version(self.desktop_files.len() > 0, version)?;
        Category::AppstreamMetadata.check_version(self.appstream_metadata.len() > 0, version)?;
        Category::CompletionsBash.check_version(self.completions.bash.len() > 0, version)?;
        Category::CompletionsElvish.check_version(self.completions.elvish.len() > 0, version)?;
        Category::CompletionsFish.check_version(self.completions.fish.len() > 0, version)?;
        Category::CompletionsZsh.check_version(self.completions.zsh.len() > 0, version)?;
        Category::PamModules.check_version(self.pam_modules.len() > 0, version)?;
        Category::SystemdUnits.check_version(self.systemd_units.len() > 0, version)?;
        Category::SystemdUserUnits.check_version(self.systemd_user_units.len() > 0, version)?;
        Category::Icons.check_version(self.icons.len() > 0, version)?;
        Category::Terminfo.check_version(self.terminfo.len() > 0, version)?;
        Category::Licenses.check_version(self.licenses.len() > 0, version)?;
        Category::PkgConfig.check_version(self.pkg_config.len() > 0, version)?;
        Ok(())
    }

    /// Tells whether the package declares the deprecated kind `custom` in a
    /// version of the manifest format that no longer wants it.
    pub fn uses_deprecated_type(&self, version: RinstallVersion) -> (r: bool)
        ensures
            r == (self.pkg_type == Type::Custom && version.meets((0, 2, 0))),
            r == (self.pkg_type == Type::Custom && version == RinstallVersion::V0_2_0),
    {
        match self.pkg_type {
            Type::Custom => version.satisfies((0, 2, 0)),
            _ => false,
        }
    }
}

} // verus!
