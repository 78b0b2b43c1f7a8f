//! The options of an installation and the decisions taken while a package
//! is installed.

use vstd::prelude::*;
use vstd::string::*;

use crate::dirs::Dirs;
use crate::dirs_config::DirsConfig;
use crate::install_target::{InstallEntry, InstallEntryView};
use crate::package::Package;
use crate::package_info::{InstalledFileView, PackageInfo, PackageInfoView};
use crate::text::{copy_text, opt_text};
use crate::uninstall::Uninstall;
use crate::utils::{append_destdir, staged};

verus! {

/// The options of an installation.
#[derive(Debug, PartialEq, Eq, Clone)]
pub struct InstallCmd {
    pub config: Option<String>,
    pub system: bool,
    /// Whether the changes are made; without it the run only reports.
    pub accept_changes: bool,
    pub force: bool,
    pub update_config: bool,
    pub rust_debug_target: bool,
    pub rust_target_triple: Option<String>,
    /// The staging root below which everything is installed.
    pub destdir: Option<String>,
    pub skip_pkg_info: bool,
    pub package_dir: String,
    pub packages: Vec<String>,
    pub update: bool,
    pub packaging: bool,
    pub completions: Option<String>,
    pub tarball: Option<String>,
    pub dirs: DirsConfig,
}

/// What is reported while a package is installed.
#[derive(Debug, PartialEq, Eq, Clone, Copy, Structural)]
pub enum Notice {
    /// Warning: the package is already installed.
    AlreadyInstalled,
    /// Warning: the file exists; a real run needs force to overwrite it.
    ExistsAddForce,
    /// Warning: the file exists and would be overwritten.
    WouldOverwrite,
    /// Warning: the file exists and is overwritten.
    Overwriting,
    /// Warning: the configuration is being overwritten.
    ConfigOverwritten,
    /// Warning: the configuration will be overwritten.
    ConfigWillBeOverwritten,
    /// Information: the existing configuration is skipped.
    SkippingConfig,
    /// Information: the existing configuration would be skipped.
    WouldSkipConfig,
}

/// Why an installation stops.
#[derive(Debug, PartialEq, Eq, Clone)]
pub enum InstallError {
    /// The package has been installed already and is not being updated.
    AlreadyInstalled { pkg_name: String },
    /// The file exists and must not be overwritten without force.
    FileExists { destination: String },
}

/// How the installation of a package begins.
#[derive(Debug, PartialEq, Eq, Clone, Copy, Structural)]
pub enum Preparation {
    /// Nothing stands in the way.
    Install,
    /// The package is installed already; a dry run goes on with a warning.
    WarnInstalled,
    /// The package is installed already and is uninstalled first.
    UninstallFirst,
}

/// What is done about a file that may exist already.
#[derive(Debug, PartialEq, Eq, Clone, Copy, Structural)]
pub struct Handling {
    /// Whether the file is left alone.
    pub skip: bool,
    pub notice: Option<Notice>,
}

/// What is done with one file of an entry.
#[derive(Debug, PartialEq, Eq, Clone)]
pub enum Step {
    /// The existing file is left as it is.
    Skip { notice: Option<Notice> },
    /// The file is installed at the destination.
    Install { destination: String, notice: Option<Notice> },
    /// Nothing is done; the file would be installed at the destination.
    WouldInstall { destination: String, notice: Option<Notice> },
}

/// The mathematical model of a [`Step`].
pub enum StepView {
    Skip { notice: Option<Notice> },
    Install { destination: Seq<char>, notice: Option<Notice> },
    WouldInstall { destination: Seq<char>, notice: Option<Notice> },
}

impl View for Step {
    type V = StepView;

    open spec fn view(&self) -> StepView {
        match *self {
            Step::Skip { notice } => StepView::Skip { notice },
            Step::Install { destination, notice } => StepView::Install {
                destination: destination@,
                notice,
            },
            Step::WouldInstall { destination, notice } => StepView::WouldInstall {
                destination: destination@,
                notice,
            },
        }
    }
}

impl StepView {
    /// Whether the step changes the file system.
    pub open spec fn mutates(self) -> bool {
        self is Install
    }
}

/// What is done with the record of the package at the end.
#[derive(Debug, PartialEq, Eq, Clone, Copy, Structural)]
pub enum RecordStep {
    /// No record is kept.
    Skip,
    /// The record is written.
    Install,
    /// Nothing is done; the record would be written.
    WouldInstall,
}

/// How the installation of a package begins, or `None` where it is refused:
/// a package that is installed already is uninstalled first when updating,
/// refused in a real run and warned about in a dry run.
pub open spec fn preparation_of(already_installed: bool, update: bool, accept_changes: bool)
    -> Option<Preparation> {
    if !already_installed {
        Some(Preparation::Install)
    } else if update {
        Some(Preparation::UninstallFirst)
    } else if accept_changes {
        None
    } else {
        Some(Preparation::WarnInstalled)
    }
}

/// What is done about a destination that may exist, or `None` where the
/// installation stops. An existing file that may be replaced stops a real
/// run without force, unless the package was installed already; in every
/// other case it is overwritten, or would be, with a warning. An existing
/// file that must not be replaced is skipped, unless configuration is being
/// updated: then it is overwritten, or would be, with a warning.
pub open spec fn conflict(
    exists: bool,
    replace: bool,
    force: bool,
    update_config: bool,
    accept_changes: bool,
    already_installed: bool,
) -> Option<Handling> {
    if !exists {
        Some(Handling { skip: false, notice: None })
    } else if replace {
        if accept_changes && !force && !already_installed {
            None
        } else if !accept_changes && !force && !already_installed {
            Some(Handling { skip: false, notice: Some(Notice::ExistsAddForce) })
        } else if accept_changes {
            Some(Handling { skip: false, notice: Some(Notice::Overwriting) })
        } else {
            Some(Handling { skip: false, notice: Some(Notice::WouldOverwrite) })
        }
    } else if !update_config {
        Some(
            Handling {
                skip: true,
                notice: Some(
                    if accept_changes {
                        Notice::SkippingConfig
                    } else {
                        Notice::WouldSkipConfig
                    },
                ),
            },
        )
    } else if accept_changes {
        Some(Handling { skip: false, notice: Some(Notice::ConfigOverwritten) })
    } else {
        Some(Handling { skip: false, notice: Some(Notice::ConfigWillBeOverwritten) })
    }
}

/// What is done with one file, or `None` where the installation stops.
/// With a staging root nothing is checked against what exists, and the
/// file goes below the root.
pub open spec fn step_of(
    destdir: Option<Seq<char>>,
    destination: Seq<char>,
    exists: bool,
    replace: bool,
    force: bool,
    update_config: bool,
    options_accept: bool,
    accept_changes: bool,
    already_installed: bool,
) -> Option<StepView> {
    let handling = if destdir.is_none() {
        conflict(exists, replace, force, update_config, options_accept, already_installed)
    } else {
        Some(Handling { skip: false, notice: None })
    };
    match handling {
        None => None,
        Some(h) => if h.skip {
            Some(StepView::Skip { notice: h.notice })
        } else if accept_changes {
            Some(StepView::Install { destination: staged(destination, destdir), notice: h.notice })
        } else {
            Some(StepView::WouldInstall { destination, notice: h.notice })
        },
    }
}

/// What is done with the record of the package.
pub open spec fn record_step_of(skip_pkg_info: bool, accept_changes: bool) -> RecordStep {
    if skip_pkg_info {
        RecordStep::Skip
    } else if accept_changes {
        RecordStep::Install
    } else {
        RecordStep::WouldInstall
    }
}

impl InstallCmd {
    /// Tells whether the system directories are used: when run as root, for
    /// a system installation, and when packaging.
    pub fn system_dirs(&self, is_root: bool) -> (r: bool)
        ensures
            r == (is_root || self.system || self.packaging),
    {
        is_root || self.system || self.packaging
    }

    /// Tells whether no record of the package is kept.
    pub fn skip_pkg_info(&self) -> (r: bool)
        ensures
            r == (self.skip_pkg_info || self.packaging),
    {
        self.skip_pkg_info || self.packaging
    }
}

/// The installation of one package in progress.
#[derive(Debug)]
pub struct PackageInstaller<'a> {
    /// Whether the package was installed already when the run began.
    pub check_for_overwrite: bool,
    pub dirs: &'a Dirs,
    pub install_opts: &'a InstallCmd,
    pub pkg_info: PackageInfo,
}

impl<'a> PackageInstaller<'a> {
    /// Begins the installation of a package; `pkg_already_installed` says
    /// whether its record exists. Refuses a package that is installed
    /// already unless it is being updated or the run is a dry run.
    pub fn new(
        package: &Package,
        install_opts: &'a InstallCmd,
        dirs: &'a Dirs,
        pkg_already_installed: bool,
    ) -> (r: Result<(Self, Preparation), InstallError>)
        requires
            package.name.is_some(),
        ensures
            r.is_ok() <==> preparation_of(
                pkg_already_installed,
                install_opts.update,
                install_opts.accept_changes,
            ).is_some(),
            r matches Ok((installer, preparation)) ==> {
                &&& Some(preparation) == preparation_of(
                    pkg_already_installed,
                    install_opts.update,
                    install_opts.accept_changes,
                )
                &&& installer.check_for_overwrite == pkg_already_installed
                &&& installer.dirs == dirs
                &&& installer.install_opts == install_opts
                &&& installer.pkg_info@ == (PackageInfoView {
                    pkg_name: package.name.unwrap()@,
                    path: crate::package_info::record_path(
                        dirs@.localstatedir,
                        package.name.unwrap()@,
                    ),
                    files: Seq::empty(),
                })
            },
            r matches Err(e) ==> e matches InstallError::AlreadyInstalled { pkg_name }
                && pkg_name@ == package.name.unwrap()@,
    {
        let name = match &package.name {
            Some(name) => name.as_str(),
            None => "",
        };
        let pkg_info = PackageInfo::new(name, dirs);
        let preparation = if !pkg_already_installed {
            Preparation::Install
        } else if install_opts.update {
            Preparation::UninstallFirst
        } else if install_opts.accept_changes {
            return Err(InstallError::AlreadyInstalled { pkg_name: copy_text(name) });
        } else {
            Preparation::WarnInstalled
        };
        Ok(
            (
                Self { check_for_overwrite: pkg_already_installed, dirs, install_opts, pkg_info },
                preparation,
            ),
        )
    }

    /// The uninstallation that comes before the update of a package: of
    /// this package, in the directory for local state of this run, as real
    /// and as forced as the installation is.
    pub fn uninstall_first(&self, is_root: bool) -> (r: Uninstall)
        ensures
            r.config.is_none(),
            r.accept_changes == self.install_opts.accept_changes,
            r.force == self.install_opts.force,
            r.system == (is_root || self.install_opts.system || self.install_opts.packaging),
            r.prefix.is_none(),
            opt_text(r.localstatedir) == Some(self.dirs@.localstatedir),
            r.packages@.len() == 1,
            r.packages@[0]@ == self.pkg_info@.pkg_name,
    {
        let mut packages: Vec<String> = Vec::new();
        packages.push(self.pkg_info.pkg_name.clone());
        Uninstall {
            config: None,
            accept_changes: self.install_opts.accept_changes,
            force: self.install_opts.force,
            system: self.install_opts.system_dirs(is_root),
            prefix: None,
            localstatedir: Some(self.dirs.localstatedir.clone()),
            packages,
        }
    }

    /// Decides what is done about the destination of a file; `exists` says
    /// whether there is a file already.
    pub fn handle_existing_file(
        &self,
        target: &InstallEntry,
        destination: &str,
        exists: bool,
    ) -> (r: Result<Handling, InstallError>)
        ensures
            r.is_ok() <==> conflict(
                exists,
                target.replace,
                self.install_opts.force,
                self.install_opts.update_config,
                self.install_opts.accept_changes,
                self.check_for_overwrite,
            ).is_some(),
            r matches Ok(handling) ==> Some(handling) == conflict(
                exists,
                target.replace,
                self.install_opts.force,
                self.install_opts.update_config,
                self.install_opts.accept_changes,
                self.check_for_overwrite,
            ),
            r matches Err(e) ==> e matches InstallError::FileExists { destination: d } && d@
                == destination@,
    {
        let accept_changes = self.install_opts.accept_changes;
        if !exists {
            return Ok(Handling { skip: false, notice: None });
        }
        if target.replace {
            let unchecked = self.install_opts.force || self.check_for_overwrite;
            if unchecked {
                let notice = if accept_changes {
                    Notice::Overwriting
                } else {
                    Notice::WouldOverwrite
                };
                Ok(Handling { skip: false, notice: Some(notice) })
            } else if accept_changes {
                Err(InstallError::FileExists { destination: copy_text(destination) })
            } else {
                Ok(Handling { skip: false, notice: Some(Notice::ExistsAddForce) })
            }
        } else if self.install_opts.update_config {
            let notice = if accept_changes {
                Notice::ConfigOverwritten
            } else {
                Notice::ConfigWillBeOverwritten
            };
            Ok(Handling { skip: false, notice: Some(notice) })
        } else {
            let notice = if accept_changes {
                Notice::SkippingConfig
            } else {
                Notice::WouldSkipConfig
            };
            Ok(Handling { skip: true, notice: Some(notice) })
        }
    }

    /// Decides what is done with one file of an entry that is to be
    /// installed at `destination`; `exists` says whether there is a file
    /// already.
    pub fn install_target(
        &self,
        target: &InstallEntry,
        destination: String,
        accept_changes: bool,
        exists: bool,
    ) -> (r: Result<Step, InstallError>)
        ensures
            r.is_ok() <==> self.step_for(target@, destination@, accept_changes, exists).is_some(),
            r matches Ok(step) ==> Some(step@) == self.step_for(
                target@,
                destination@,
                accept_changes,
                exists,
            ),
            r matches Err(e) ==> e matches InstallError::FileExists { destination: d } && d@
                == destination@,
            r matches Ok(step) ==> (step@.mutates() ==> accept_changes),
    {
        let mut notice: Option<Notice> = None;
        if self.install_opts.destdir.is_none() {
            let handling = self.handle_existing_file(target, destination.as_str(), exists)?;
            if handling.skip {
                return Ok(Step::Skip { notice: handling.notice });
            }
            notice = handling.notice;
        }
        if accept_changes {
            let destdir = match &self.install_opts.destdir {
                Some(root) => Some(root.as_str()),
                None => None,
            };
            let destination_destdir = append_destdir(destination.as_str(), destdir);
            Ok(Step::Install { destination: destination_destdir, notice })
        } else {
            Ok(Step::WouldInstall { destination, notice })
        }
    }

    /// What [`Self::install_target`] decides.
    pub open spec fn step_for(
        &self,
        target: InstallEntryView,
        destination: Seq<char>,
        accept_changes: bool,
        exists: bool,
    ) -> Option<StepView> {
        step_of(
            opt_text(self.install_opts.destdir),
            destination,
            exists,
            target.replace,
            self.install_opts.force,
            self.install_opts.update_config,
            self.install_opts.accept_changes,
            accept_changes,
            self.check_for_overwrite,
        )
    }

    /// Records a file that was installed at `destination` with the given
    /// contents.
    pub fn add_installed(&mut self, target: &InstallEntry, destination: &str, contents: &[u8])
        ensures
            final(self).check_for_overwrite == old(self).check_for_overwrite,
            final(self).dirs == old(self).dirs,
            final(self).install_opts == old(self).install_opts,
            final(self).pkg_info@ == (PackageInfoView {
                files: old(self).pkg_info@.files.push(
                    InstalledFileView::recorded(destination@, contents@, target.replace),
                ),
                ..old(self).pkg_info@
            }),
    {
        self.pkg_info.add_file(destination, contents, target.replace);
    }

    /// Decides what is done with the record of the package once its files
    /// are installed.
    pub fn install_pkg_info(&self) -> (r: RecordStep)
        ensures
            r == record_step_of(
                self.install_opts.skip_pkg_info || self.install_opts.packaging,
                self.install_opts.accept_changes,
            ),
    {
        if !self.install_opts.skip_pkg_info() {
            if self.install_opts.accept_changes {
                RecordStep::Install
            } else {
                RecordStep::WouldInstall
            }
        } else {
            RecordStep::Skip
        }
    }
}

/// Without a staging root, a file that exists and must not be replaced is
/// skipped unless configuration is being updated: forced or not, in a real
/// run and in a dry run.
pub proof fn lemma_existing_config_is_skipped(
    destination: Seq<char>,
    force: bool,
    accept_changes: bool,
    already_installed: bool,
)
    ensures
        step_of(
            None,
            destination,
            true,
            false,
            force,
            false,
            accept_changes,
            accept_changes,
            already_installed,
        ) matches Some(step) && step is Skip,
{
}

/// With a staging root nothing that exists stands in the way: a real run
/// installs every file at the root's text followed by the destination's.
pub proof fn lemma_staging_skips_conflicts(
    root: Seq<char>,
    destination: Seq<char>,
    exists: bool,
    replace: bool,
    force: bool,
    update_config: bool,
    already_installed: bool,
)
    ensures
        step_of(
            Some(root),
            destination,
            exists,
            replace,
            force,
            update_config,
            true,
            true,
            already_installed,
        ) == Some(StepView::Install { destination: root + destination, notice: None }),
{
}

} // verus!
