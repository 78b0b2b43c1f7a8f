//! The installation directories of one run, resolved and validated.

use vstd::prelude::*;
use vstd::string::*;

use crate::dirs_config::{DirsConfig, DirsConfigView};
use crate::path::{is_absolute, is_absolute_path, join, joined};
use crate::text::opt_text;

verus! {

/// The resolved installation directories. The directories that only a
/// system-wide installation has may be unset.
#[derive(Debug, PartialEq, Eq, Clone)]
pub struct Dirs {
    pub prefix: Option<String>,
    pub exec_prefix: Option<String>,
    pub bindir: String,
    pub sbindir: Option<String>,
    pub libdir: String,
    pub libexecdir: String,
    pub datarootdir: String,
    pub datadir: String,
    pub sysconfdir: String,
    pub localstatedir: String,
    pub runstatedir: String,
    pub includedir: Option<String>,
    pub docdir: Option<String>,
    pub mandir: Option<String>,
    pub pam_modulesdir: Option<String>,
    pub systemd_unitsdir: String,
}

/// The mathematical model of [`Dirs`].
pub struct DirsView {
    pub prefix: Option<Seq<char>>,
    pub exec_prefix: Option<Seq<char>>,
    pub bindir: Seq<char>,
    pub sbindir: Option<Seq<char>>,
    pub libdir: Seq<char>,
    pub libexecdir: Seq<char>,
    pub datarootdir: Seq<char>,
    pub datadir: Seq<char>,
    pub sysconfdir: Seq<char>,
    pub localstatedir: Seq<char>,
    pub runstatedir: Seq<char>,
    pub includedir: Option<Seq<char>>,
    pub docdir: Option<Seq<char>>,
    pub mandir: Option<Seq<char>>,
    pub pam_modulesdir: Option<Seq<char>>,
    pub systemd_unitsdir: Seq<char>,
}

/// Why a configuration could not become the directories of a run.
#[derive(Debug, PartialEq, Eq, Clone)]
pub enum DirsError {
    /// The named directory of a system installation is not an absolute path.
    NotAbsolute { name: String, path: String },
}

impl View for Dirs {
    type V = DirsView;

    open spec fn view(&self) -> DirsView {
        DirsView {
            prefix: opt_text(self.prefix),
            exec_prefix: opt_text(self.exec_prefix),
            bindir: self.bindir@,
            sbindir: opt_text(self.sbindir),
            libdir: self.libdir@,
            libexecdir: self.libexecdir@,
            datarootdir: self.datarootdir@,
            datadir: self.datadir@,
            sysconfdir: self.sysconfdir@,
            localstatedir: self.localstatedir@,
            runstatedir: self.runstatedir@,
            includedir: opt_text(self.includedir),
            docdir: opt_text(self.docdir),
            mandir: opt_text(self.mandir),
            pam_modulesdir: opt_text(self.pam_modulesdir),
            systemd_unitsdir: self.systemd_unitsdir@,
        }
    }
}

/// The path itself where it is absolute, the path below `home` otherwise.
pub open spec fn below_home(home: Seq<char>, path: Seq<char>) -> Seq<char> {
    if is_absolute_path(path) {
        path
    } else {
        joined(home, path)
    }
}

impl DirsConfigView {
    /// Whether the directories that every installation needs are set.
    pub open spec fn required_present(self) -> bool {
        &&& self.bindir.is_some()
        &&& self.libdir.is_some()
        &&& self.libexecdir.is_some()
        &&& self.datarootdir.is_some()
        &&& self.datadir.is_some()
        &&& self.sysconfdir.is_some()
        &&& self.localstatedir.is_some()
        &&& self.runstatedir.is_some()
        &&& self.systemd_unitsdir.is_some()
    }

    /// The directories that this configuration holds.
    pub open spec fn dirs(self) -> DirsView {
        DirsView {
            prefix: self.prefix,
            exec_prefix: self.exec_prefix,
            bindir: self.bindir.unwrap(),
            sbindir: self.sbindir,
            libdir: self.libdir.unwrap(),
            libexecdir: self.libexecdir.unwrap(),
            datarootdir: self.datarootdir.unwrap(),
            datadir: self.datadir.unwrap(),
            sysconfdir: self.sysconfdir.unwrap(),
            localstatedir: self.localstatedir.unwrap(),
            runstatedir: self.runstatedir.unwrap(),
            includedir: self.includedir,
            docdir: self.docdir,
            mandir: self.mandir,
            pam_modulesdir: self.pam_modulesdir,
            systemd_unitsdir: self.systemd_unitsdir.unwrap(),
        }
    }
}

impl DirsView {
    /// The name and the value of the first directory that is set to a path
    /// that is not absolute, in the order in which they are checked.
    pub open spec fn first_not_absolute(self) -> Option<(Seq<char>, Seq<char>)> {
        if !is_absolute_path(self.bindir) {
            Some(("bindir"@, self.bindir))
        } else if !is_absolute_path(self.libdir) {
            Some(("libdir"@, self.libdir))
        } else if !is_absolute_path(self.libexecdir) {
            Some(("libexecdir"@, self.libexecdir))
        } else if !is_absolute_path(self.datarootdir) {
            Some(("datarootdir"@, self.datarootdir))
        } else if !is_absolute_path(self.datadir) {
            Some(("datadir"@, self.datadir))
        } else if !is_absolute_path(self.sysconfdir) {
            Some(("sysconfdir"@, self.sysconfdir))
        } else if !is_absolute_path(self.localstatedir) {
            Some(("localstatedir"@, self.localstatedir))
        } else if !is_absolute_path(self.runstatedir) {
            Some(("runstatedir"@, self.runstatedir))
        } else if !is_absolute_path(self.systemd_unitsdir) {
            Some(("systemd-unitsdir"@, self.systemd_unitsdir))
        } else if self.prefix.is_some() && !is_absolute_path(self.prefix.unwrap()) {
            Some(("prefix"@, self.prefix.unwrap()))
        } else if self.exec_prefix.is_some() && !is_absolute_path(self.exec_prefix.unwrap()) {
            Some(("exec_prefix"@, self.exec_prefix.unwrap()))
        } else if self.sbindir.is_some() && !is_absolute_path(self.sbindir.unwrap()) {
            Some(("sbindir"@, self.sbindir.unwrap()))
        } else if self.includedir.is_some() && !is_absolute_path(self.includedir.unwrap()) {
            Some(("includedir"@, self.includedir.unwrap()))
        } else if self.docdir.is_some() && !is_absolute_path(self.docdir.unwrap()) {
            Some(("docdir"@, self.docdir.unwrap()))
        } else if self.mandir.is_some() && !is_absolute_path(self.mandir.unwrap()) {
            Some(("mandir"@, self.mandir.unwrap()))
        } else if self.pam_modulesdir.is_some() && !is_absolute_path(self.pam_modulesdir.unwrap()) {
            Some(("pam_modulesdir"@, self.pam_modulesdir.unwrap()))
        } else {
            None
        }
    }

    /// Whether every directory that is set is an absolute path.
    pub open spec fn all_absolute(self) -> bool {
        &&& (self.prefix.is_some() ==> is_absolute_path(self.prefix.unwrap()))
        &&& (self.exec_prefix.is_some() ==> is_absolute_path(self.exec_prefix.unwrap()))
        &&& is_absolute_path(self.bindir)
        &&& (self.sbindir.is_some() ==> is_absolute_path(self.sbindir.unwrap()))
        &&& is_absolute_path(self.libdir)
        &&& is_absolute_path(self.libexecdir)
        &&& is_absolute_path(self.datarootdir)
        &&& is_absolute_path(self.datadir)
        &&& is_absolute_path(self.sysconfdir)
        &&& is_absolute_path(self.localstatedir)
        &&& is_absolute_path(self.runstatedir)
        &&& (self.includedir.is_some() ==> is_absolute_path(self.includedir.unwrap()))
        &&& (self.docdir.is_some() ==> is_absolute_path(self.docdir.unwrap()))
        &&& (self.mandir.is_some() ==> is_absolute_path(self.mandir.unwrap()))
        &&& (self.pam_modulesdir.is_some() ==> is_absolute_path(self.pam_modulesdir.unwrap()))
        &&& is_absolute_path(self.systemd_unitsdir)
    }

    /// The directories with the relative ones placed below `home`.
    pub open spec fn home_prefixed(self, home: Seq<char>) -> Self {
        DirsView {
            bindir: below_home(home, self.bindir),
            libdir: below_home(home, self.libdir),
            libexecdir: below_home(home, self.libexecdir),
            datarootdir: below_home(home, self.datarootdir),
            datadir: below_home(home, self.datadir),
            sysconfdir: below_home(home, self.sysconfdir),
            localstatedir: below_home(home, self.localstatedir),
            runstatedir: below_home(home, self.runstatedir),
            systemd_unitsdir: below_home(home, self.systemd_unitsdir),
            ..self
        }
    }
}

/// Checks that one directory is an absolute path.
fn check_absolute(path: &String, name: &str) -> (r: Result<(), DirsError>)
    ensures
        r.is_ok() <==> is_absolute_path(path@),
        r matches Err(DirsError::NotAbsolute { name: n, path: p }) ==> n@ == name@ && p@ == path@,
{
    if is_absolute(path.as_str()) {
        Ok(())
    } else {
        Err(DirsError::NotAbsolute { name: String::from_str(name), path: path.clone() })
    }
}

/// Checks that one directory, where it is set, is an absolute path.
fn check_absolute_opt(path: &Option<String>, name: &str) -> (r: Result<(), DirsError>)
    ensures
        r.is_ok() <==> (path.is_some() ==> is_absolute_path(path.unwrap()@)),
        r matches Err(DirsError::NotAbsolute { name: n, path: p }) ==> n@ == name@ && Some(p@)
            == opt_text(*path),
{
    match path {
        Some(p) => check_absolute(p, name),
        None => Ok(()),
    }
}

/// The path placed below `home` unless it is absolute.
fn place_below_home(home: &str, path: String) -> (r: String)
    ensures
        r@ == below_home(home@, path@),
{
    if is_absolute(path.as_str()) {
        path
    } else {
        join(home, path.as_str())
    }
}

/// The text of a directory that is known to be set.
fn required(value: Option<String>) -> (r: String)
    requires
        value.is_some(),
    ensures
        Some(r@) == opt_text(value),
{
    value.unwrap()
}

impl Dirs {
    /// Turns a resolved configuration into the directories of a run. For a
    /// system installation every set directory must be an absolute path; for
    /// a user installation the relative ones are placed below `home`.
    pub fn new(dirs_config: DirsConfig, system: bool, home: &str) -> (r: Result<Self, DirsError>)
        requires
            dirs_config@.required_present(),
        ensures
            r.is_ok() <==> (system ==> dirs_config@.dirs().all_absolute()),
            r.is_ok() && system ==> r.unwrap()@ == dirs_config@.dirs(),
            r.is_ok() && !system ==> r.unwrap()@ == dirs_config@.dirs().home_prefixed(home@),
            r matches Err(DirsError::NotAbsolute { name, path }) ==> Some((name@, path@))
                == dirs_config@.dirs().first_not_absolute(),
    {
        let mut dirs = Self {
            prefix: dirs_config.prefix,
            exec_prefix: dirs_config.exec_prefix,
            bindir: required(dirs_config.bindir),
            sbindir: dirs_config.sbindir,
            libdir: required(dirs_config.libdir),
            libexecdir: required(dirs_config.libexecdir),
            datarootdir: required(dirs_config.datarootdir),
            datadir: required(dirs_config.datadir),
            sysconfdir: required(dirs_config.sysconfdir),
            localstatedir: required(dirs_config.localstatedir),
            runstatedir: required(dirs_config.runstatedir),
            includedir: dirs_config.includedir,
            docdir: dirs_config.docdir,
            mandir: dirs_config.mandir,
            pam_modulesdir: dirs_config.pam_modulesdir,
            systemd_unitsdir: required(dirs_config.systemd_unitsdir),
        };
        if system {
            match dirs.check_absolute_paths() {
                Ok(()) => Ok(dirs),
                Err(e) => Err(e),
            }
        } else {
            dirs.append_home(home);
            Ok(dirs)
        }
    }

    /// Places every relative directory of a user installation below `home`.
    pub fn append_home(&mut self, home: &str)
        ensures
            final(self)@ == old(self)@.home_prefixed(home@),
    {
        let bindir = place_below_home(home, self.bindir.clone());
        self.bindir = bindir;
        let libdir = place_below_home(home, self.libdir.clone());
        self.libdir = libdir;
        let libexecdir = place_below_home(home, self.libexecdir.clone());
        self.libexecdir = libexecdir;
        let datarootdir = place_below_home(home, self.datarootdir.clone());
        self.datarootdir = datarootdir;
        let datadir = place_below_home(home, self.datadir.clone());
        self.datadir = datadir;
        let sysconfdir = place_below_home(home, self.sysconfdir.clone());
        self.sysconfdir = sysconfdir;
        let localstatedir = place_below_home(home, self.localstatedir.clone());
        self.localstatedir = localstatedir;
        let runstatedir = place_below_home(home, self.runstatedir.clone());
        self.runstatedir = runstatedir;
        let systemd_unitsdir = place_below_home(home, self.systemd_unitsdir.clone());
        self.systemd_unitsdir = systemd_unitsdir;
    }

    /// Checks that every directory that is set is an absolute path, and names
    /// the first one that is not.
    pub fn check_absolute_paths(&self) -> (r: Result<(), DirsError>)
        ensures
            r.is_ok() <==> self@.all_absolute(),
            r.is_ok() <==> self@.first_not_absolute().is_none(),
            r matches Err(DirsError::NotAbsolute { name, path }) ==> Some((name@, path@))
                == self@.first_not_absolute(),
    {
        check_absolute(&self.bindir, "bindir")?;
        check_absolute(&self.libdir, "libdir")?;
        check_absolute(&self.libexecdir, "libexecdir")?;
        check_absolute(&self.datarootdir, "datarootdir")?;
        check_absolute(&self.datadir, "datadir")?;
        check_absolute(&self.sysconfdir, "sysconfdir")?;
        check_absolute(&self.localstatedir, "localstatedir")?;
        check_absolute(&self.runstatedir, "runstatedir")?;
        check_absolute(&self.systemd_unitsdir, "systemd-unitsdir")?;
        check_absolute_opt(&self.prefix, "prefix")?;
        check_absolute_opt(&self.exec_prefix, "exec_prefix")?;
        check_absolute_opt(&self.sbindir, "sbindir")?;
        check_absolute_opt(&self.includedir, "includedir")?;
        check_absolute_opt(&self.docdir, "docdir")?;
        check_absolute_opt(&self.mandir, "mandir")?;
        check_absolute_opt(&self.pam_modulesdir, "pam_modulesdir")?;
        Ok(())
    }
}

} // verus!
