//! The configured installation directories, before and while their
//! placeholders are resolved.

use vstd::prelude::*;
use vstd::string::*;

use crate::text::{
    append_text, copy_opt, ends_with, ends_with_char, opt_text, replace_all, replaced,
};

verus! {

/// The installation directories as configured: each one is either unset or a
/// value that may still hold placeholders such as `@prefix@`.
#[derive(Debug, PartialEq, Eq)]
pub struct DirsConfig {
    pub prefix: Option<String>,
    pub exec_prefix: Option<String>,
    pub bindir: Option<String>,
    pub sbindir: Option<String>,
    pub libdir: Option<String>,
    pub libexecdir: Option<String>,
    pub datarootdir: Option<String>,
    pub datadir: Option<String>,
    pub sysconfdir: Option<String>,
    pub localstatedir: Option<String>,
    pub runstatedir: Option<String>,
    pub includedir: Option<String>,
    pub docdir: Option<String>,
    pub mandir: Option<String>,
    pub pam_modulesdir: Option<String>,
    pub systemd_unitsdir: Option<String>,
}

/// The mathematical model of a [`DirsConfig`].
pub struct DirsConfigView {
    pub prefix: Option<Seq<char>>,
    pub exec_prefix: Option<Seq<char>>,
    pub bindir: Option<Seq<char>>,
    pub sbindir: Option<Seq<char>>,
    pub libdir: Option<Seq<char>>,
    pub libexecdir: Option<Seq<char>>,
    pub datarootdir: Option<Seq<char>>,
    pub datadir: Option<Seq<char>>,
    pub sysconfdir: Option<Seq<char>>,
    pub localstatedir: Option<Seq<char>>,
    pub runstatedir: Option<Seq<char>>,
    pub includedir: Option<Seq<char>>,
    pub docdir: Option<Seq<char>>,
    pub mandir: Option<Seq<char>>,
    pub pam_modulesdir: Option<Seq<char>>,
    pub systemd_unitsdir: Option<Seq<char>>,
}

/// The locations that the XDG base directory lookup gave for the current user.
#[derive(Debug, PartialEq, Eq)]
pub struct XdgDirs {
    pub data_home: String,
    pub config_home: String,
    /// `None` where the runtime directory is unset or not secure.
    pub runtime_dir: Option<String>,
}

/// Why a configuration could not be resolved.
#[derive(Debug, PartialEq, Eq, Clone, Copy, Structural)]
pub enum ConfigError {
    /// The XDG runtime directory is missing or insecure.
    InsecureRuntimeDir,
    /// The configuration file that was asked for does not exist.
    MissingConfigFile,
}

/// Where the configuration file is looked for: where the user says, if the
/// file exists there; else in `/etc` for a system installation and at the
/// user's own place otherwise.
pub open spec fn config_location(
    explicit: Option<Seq<char>>,
    explicit_exists: bool,
    system: bool,
    user_file: Seq<char>,
) -> Result<Seq<char>, ConfigError> {
    match explicit {
        Some(path) => if explicit_exists {
            Ok(path)
        } else {
            Err(ConfigError::MissingConfigFile)
        },
        None => if system {
            Ok("/etc/rinstall.yml"@)
        } else {
            Ok(user_file)
        },
    }
}

/// The view of a location that was chosen or refused.
pub open spec fn location_outcome(r: Result<String, ConfigError>) -> Result<
    Seq<char>,
    ConfigError,
> {
    match r {
        Ok(path) => Ok(path@),
        Err(e) => Err(e),
    }
}

/// The overlay's value where it has one, the base's value otherwise.
pub open spec fn overlaid(base: Option<Seq<char>>, overlay: Option<Seq<char>>) -> Option<
    Seq<char>,
> {
    if overlay.is_some() {
        overlay
    } else {
        base
    }
}

/// The value with a separator at its end.
pub open spec fn slash_terminated(value: Seq<char>) -> Seq<char> {
    if ends_with_char(value, '/') {
        value
    } else {
        value + "/"@
    }
}

/// An optional value with a separator at its end.
pub open spec fn opt_slash_terminated(value: Option<Seq<char>>) -> Option<Seq<char>> {
    match value {
        Some(v) => Some(slash_terminated(v)),
        None => None,
    }
}

/// A set value with one placeholder replaced.
pub open spec fn opt_replaced(
    value: Option<Seq<char>>,
    needle: Seq<char>,
    with: Option<Seq<char>>,
) -> Option<Seq<char>> {
    Some(replaced(value.unwrap(), needle, with.unwrap()))
}

impl DirsConfigView {
    /// The defaults of a system-wide installation.
    pub open spec fn system() -> Self {
        DirsConfigView {
            prefix: Some("/usr/local/"@),
            exec_prefix: Some("@prefix@"@),
            bindir: Some("@exec_prefix@bin/"@),
            sbindir: Some("@exec_prefix@sbin/"@),
            libdir: Some("@exec_prefix@lib/"@),
            libexecdir: Some("@exec_prefix@libexec/"@),
            datarootdir: Some("@prefix@share/"@),
            datadir: Some("@prefix@share/"@),
            sysconfdir: Some("@prefix@etc/"@),
            localstatedir: Some("@prefix@var/"@),
            runstatedir: Some("@localstatedir@run/"@),
            includedir: Some("@prefix@include/"@),
            docdir: Some("@datarootdir@doc/"@),
            mandir: Some("@datarootdir@man/"@),
            pam_modulesdir: Some("@libdir@security/"@),
            systemd_unitsdir: Some("@libdir@systemd/"@),
        }
    }

    /// The defaults of an installation for the current user.
    pub open spec fn user() -> Self {
        DirsConfigView {
            prefix: None,
            exec_prefix: None,
            bindir: Some(".local/bin/"@),
            sbindir: None,
            libdir: Some(".local/lib/"@),
            libexecdir: Some(".local/libexec/"@),
            datarootdir: Some("@XDG_DATA_HOME@/"@),
            datadir: Some("@XDG_DATA_HOME@/"@),
            sysconfdir: Some("@XDG_CONFIG_HOME@/"@),
            localstatedir: Some("@XDG_DATA_HOME@/"@),
            runstatedir: Some("@XDG_RUNTIME_DIR@/"@),
            includedir: None,
            docdir: None,
            mandir: None,
            pam_modulesdir: None,
            systemd_unitsdir: Some("@sysconfdir@/systemd/"@),
        }
    }

    /// Whether every directory is set.
    pub open spec fn all_present(self) -> bool {
        &&& self.prefix.is_some()
        &&& self.exec_prefix.is_some()
        &&& self.bindir.is_some()
        &&& self.sbindir.is_some()
        &&& self.libdir.is_some()
        &&& self.libexecdir.is_some()
        &&& self.datarootdir.is_some()
        &&& self.datadir.is_some()
        &&& self.sysconfdir.is_some()
        &&& self.localstatedir.is_some()
        &&& self.runstatedir.is_some()
        &&& self.includedir.is_some()
        &&& self.docdir.is_some()
        &&& self.mandir.is_some()
        &&& self.pam_modulesdir.is_some()
        &&& self.systemd_unitsdir.is_some()
    }

    /// Whether every directory that a user installation resolves is set.
    pub open spec fn user_present(self) -> bool {
        &&& self.datarootdir.is_some()
        &&& self.datadir.is_some()
        &&& self.sysconfdir.is_some()
        &&& self.localstatedir.is_some()
        &&& self.runstatedir.is_some()
        &&& self.systemd_unitsdir.is_some()
    }

    /// Every field of `other` that is set laid over this configuration.
    pub open spec fn merged_root(self, other: Self) -> Self {
        DirsConfigView {
            prefix: overlaid(self.prefix, other.prefix),
            exec_prefix: overlaid(self.exec_prefix, other.exec_prefix),
            bindir: overlaid(self.bindir, other.bindir),
            sbindir: overlaid(self.sbindir, other.sbindir),
            libdir: overlaid(self.libdir, other.libdir),
            libexecdir: overlaid(self.libexecdir, other.libexecdir),
            datarootdir: overlaid(self.datarootdir, other.datarootdir),
            datadir: overlaid(self.datadir, other.datadir),
            sysconfdir: overlaid(self.sysconfdir, other.sysconfdir),
            localstatedir: overlaid(self.localstatedir, other.localstatedir),
            runstatedir: overlaid(self.runstatedir, other.runstatedir),
            includedir: overlaid(self.includedir, other.includedir),
            docdir: overlaid(self.docdir, other.docdir),
            mandir: overlaid(self.mandir, other.mandir),
            pam_modulesdir: overlaid(self.pam_modulesdir, other.pam_modulesdir),
            systemd_unitsdir: overlaid(self.systemd_unitsdir, other.systemd_unitsdir),
        }
    }

    /// The fields of `other` that a user installation controls, where set,
    /// laid over this configuration.
    pub open spec fn merged_user(self, other: Self) -> Self {
        DirsConfigView {
            bindir: overlaid(self.bindir, other.bindir),
            libdir: overlaid(self.libdir, other.libdir),
            libexecdir: overlaid(self.libexecdir, other.libexecdir),
            datarootdir: overlaid(self.datarootdir, other.datarootdir),
            datadir: overlaid(self.datadir, other.datadir),
            sysconfdir: overlaid(self.sysconfdir, other.sysconfdir),
            localstatedir: overlaid(self.localstatedir, other.localstatedir),
            runstatedir: overlaid(self.runstatedir, other.runstatedir),
            systemd_unitsdir: overlaid(self.systemd_unitsdir, other.systemd_unitsdir),
            ..self
        }
    }

    /// The merge for the given kind of installation.
    pub open spec fn merged(self, system: bool, other: Self) -> Self {
        if system {
            self.merged_root(other)
        } else {
            self.merged_user(other)
        }
    }

    /// Every set directory with a separator at its end.
    pub open spec fn sanitized(self) -> Self {
        DirsConfigView {
            prefix: opt_slash_terminated(self.prefix),
            exec_prefix: opt_slash_terminated(self.exec_prefix),
            bindir: opt_slash_terminated(self.bindir),
            sbindir: opt_slash_terminated(self.sbindir),
            libdir: opt_slash_terminated(self.libdir),
            libexecdir: opt_slash_terminated(self.libexecdir),
            datarootdir: opt_slash_terminated(self.datarootdir),
            datadir: opt_slash_terminated(self.datadir),
            sysconfdir: opt_slash_terminated(self.sysconfdir),
            localstatedir: opt_slash_terminated(self.localstatedir),
            runstatedir: opt_slash_terminated(self.runstatedir),
            includedir: opt_slash_terminated(self.includedir),
            docdir: opt_slash_terminated(self.docdir),
            mandir: opt_slash_terminated(self.mandir),
            pam_modulesdir: opt_slash_terminated(self.pam_modulesdir),
            systemd_unitsdir: opt_slash_terminated(self.systemd_unitsdir),
        }
    }

    /// The configuration after `@prefix@` was replaced everywhere.
    pub open spec fn prefix_resolved(self) -> Self {
        DirsConfigView {
            prefix: self.prefix,
            exec_prefix: opt_replaced(self.exec_prefix, "@prefix@"@, self.prefix),
            bindir: opt_replaced(self.bindir, "@prefix@"@, self.prefix),
            sbindir: opt_replaced(self.sbindir, "@prefix@"@, self.prefix),
            libdir: opt_replaced(self.libdir, "@prefix@"@, self.prefix),
            libexecdir: opt_replaced(self.libexecdir, "@prefix@"@, self.prefix),
            datarootdir: opt_replaced(self.datarootdir, "@prefix@"@, self.prefix),
            datadir: opt_replaced(self.datadir, "@prefix@"@, self.prefix),
            sysconfdir: opt_replaced(self.sysconfdir, "@prefix@"@, self.prefix),
            localstatedir: opt_replaced(self.localstatedir, "@prefix@"@, self.prefix),
            runstatedir: opt_replaced(self.runstatedir, "@prefix@"@, self.prefix),
            includedir: opt_replaced(self.includedir, "@prefix@"@, self.prefix),
            docdir: opt_replaced(self.docdir, "@prefix@"@, self.prefix),
            mandir: opt_replaced(self.mandir, "@prefix@"@, self.prefix),
            pam_modulesdir: opt_replaced(self.pam_modulesdir, "@prefix@"@, self.prefix),
            systemd_unitsdir: opt_replaced(self.systemd_unitsdir, "@prefix@"@, self.prefix),
        }
    }

    /// The configuration after `@exec_prefix@` was replaced in the
    /// directories that derive from it.
    pub open spec fn exec_prefix_resolved(self) -> Self {
        DirsConfigView {
            bindir: opt_replaced(self.bindir, "@exec_prefix@"@, self.exec_prefix),
            sbindir: opt_replaced(self.sbindir, "@exec_prefix@"@, self.exec_prefix),
            libdir: opt_replaced(self.libdir, "@exec_prefix@"@, self.exec_prefix),
            libexecdir: opt_replaced(self.libexecdir, "@exec_prefix@"@, self.exec_prefix),
            ..self
        }
    }

    /// The configuration after `@localstatedir@` was replaced in `runstatedir`.
    pub open spec fn localstatedir_resolved(self) -> Self {
        DirsConfigView {
            runstatedir: opt_replaced(self.runstatedir, "@localstatedir@"@, self.localstatedir),
            ..self
        }
    }

    /// The configuration after `@datarootdir@` was replaced in `docdir` and
    /// `mandir`.
    pub open spec fn datarootdir_resolved(self) -> Self {
        DirsConfigView {
            docdir: opt_replaced(self.docdir, "@datarootdir@"@, self.datarootdir),
            mandir: opt_replaced(self.mandir, "@datarootdir@"@, self.datarootdir),
            ..self
        }
    }

    /// The configuration after `@libdir@` was replaced in `pam_modulesdir`
    /// and `systemd_unitsdir`.
    pub open spec fn libdir_resolved(self) -> Self {
        DirsConfigView {
            pam_modulesdir: opt_replaced(self.pam_modulesdir, "@libdir@"@, self.libdir),
            systemd_unitsdir: opt_replaced(self.systemd_unitsdir, "@libdir@"@, self.libdir),
            ..self
        }
    }

    /// The configuration of a system installation with its placeholders
    /// resolved: the five passes, each on the outcome of the one before.
    pub open spec fn root_resolved(self) -> Self {
        self.prefix_resolved().exec_prefix_resolved().localstatedir_resolved()
            .datarootdir_resolved().libdir_resolved()
    }

    /// The configuration after the data and configuration homes were put in
    /// place of their placeholders, up to the point where the runtime
    /// directory is needed.
    pub open spec fn homes_resolved(self, data_home: Seq<char>, config_home: Seq<char>) -> Self {
        DirsConfigView {
            datarootdir: opt_replaced(self.datarootdir, "@XDG_DATA_HOME@"@, Some(data_home)),
            datadir: opt_replaced(self.datadir, "@XDG_DATA_HOME@"@, Some(data_home)),
            sysconfdir: opt_replaced(self.sysconfdir, "@XDG_CONFIG_HOME@"@, Some(config_home)),
            localstatedir: opt_replaced(self.localstatedir, "@XDG_DATA_HOME@"@, Some(data_home)),
            ..self
        }
    }

    /// The configuration of a user installation with its placeholders
    /// resolved against the XDG locations.
    pub open spec fn user_resolved(
        self,
        data_home: Seq<char>,
        config_home: Seq<char>,
        runtime_dir: Seq<char>,
    ) -> Self {
        DirsConfigView {
            runstatedir: opt_replaced(self.runstatedir, "@XDG_RUNTIME_DIR@"@, Some(runtime_dir)),
            systemd_unitsdir: opt_replaced(
                opt_replaced(self.systemd_unitsdir, "@XDG_CONFIG_HOME@"@, Some(config_home)),
                "@sysconfdir@"@,
                Some(config_home),
            ),
            ..self.homes_resolved(data_home, config_home)
        }
    }

    /// What resolving the placeholders gives: the resolved configuration, or
    /// the partly resolved one where the runtime directory is missing.
    pub open spec fn resolved(self, system: bool, xdg: XdgDirs) -> Self {
        if system {
            self.root_resolved()
        } else {
            match xdg.runtime_dir {
                Some(runtime_dir) => self.user_resolved(
                    xdg.data_home@,
                    xdg.config_home@,
                    runtime_dir@,
                ),
                None => self.homes_resolved(xdg.data_home@, xdg.config_home@),
            }
        }
    }

    /// The defaults for the given kind of installation.
    pub open spec fn defaults(system: bool) -> Self {
        if system {
            Self::system()
        } else {
            Self::user()
        }
    }

    /// The configuration that loading gives before its placeholders are
    /// resolved: the defaults, then the file's values, then the sanitized
    /// options, each laid over what came before.
    pub open spec fn layered(system: bool, from_file: Option<Self>, opts: Self) -> Self {
        let base = Self::defaults(system);
        let with_file = match from_file {
            Some(file) => base.merged(system, file),
            None => base,
        };
        with_file.merged(system, opts.sanitized())
    }
}

impl View for DirsConfig {
    type V = DirsConfigView;

    open spec fn view(&self) -> DirsConfigView {
        DirsConfigView {
            prefix: opt_text(self.prefix),
            exec_prefix: opt_text(self.exec_prefix),
            bindir: opt_text(self.bindir),
            sbindir: opt_text(self.sbindir),
            libdir: opt_text(self.libdir),
            libexecdir: opt_text(self.libexecdir),
            datarootdir: opt_text(self.datarootdir),
            datadir: opt_text(self.datadir),
            sysconfdir: opt_text(self.sysconfdir),
            localstatedir: opt_text(self.localstatedir),
            runstatedir: opt_text(self.runstatedir),
            includedir: opt_text(self.includedir),
            docdir: opt_text(self.docdir),
            mandir: opt_text(self.mandir),
            pam_modulesdir: opt_text(self.pam_modulesdir),
            systemd_unitsdir: opt_text(self.systemd_unitsdir),
        }
    }
}

/// The overlay's value where it has one, the base's value otherwise.
fn overlay(base: Option<String>, over: Option<String>) -> (r: Option<String>)
    ensures
        opt_text(r) == overlaid(opt_text(base), opt_text(over)),
{
    match over {
        Some(s) => Some(s),
        None => base,
    }
}

/// The value with a separator at its end, where it is set.
fn with_ending_slash(value: Option<String>) -> (r: Option<String>)
    ensures
        opt_text(r) == opt_slash_terminated(opt_text(value)),
{
    match value {
        Some(s) => {
            if ends_with(s.as_str(), '/') {
                Some(s)
            } else {
                Some(append_text(s.as_str(), "/"))
            }
        },
        None => None,
    }
}

/// The value with one placeholder replaced by the text of another directory.
fn substitute(value: &Option<String>, needle: &str, with: &Option<String>) -> (r: Option<String>)
    requires
        value.is_some(),
        with.is_some(),
        needle@.len() > 0,
    ensures
        opt_text(r) == opt_replaced(opt_text(*value), needle@, opt_text(*with)),
{
    match (value, with) {
        (Some(v), Some(w)) => Some(replace_all(v.as_str(), needle, w.as_str())),
        _ => None,
    }
}

/// The value with one placeholder replaced by a given text.
fn substitute_text(value: &Option<String>, needle: &str, with: &str) -> (r: Option<String>)
    requires
        value.is_some(),
        needle@.len() > 0,
    ensures
        opt_text(r) == opt_replaced(opt_text(*value), needle@, Some(with@)),
{
    match value {
        Some(v) => Some(replace_all(v.as_str(), needle, with)),
        None => None,
    }
}

impl Clone for DirsConfig {
    fn clone(&self) -> (r: Self)
        ensures
            r@ == self@,
    {
        DirsConfig {
            prefix: copy_opt(&self.prefix),
            exec_prefix: copy_opt(&self.exec_prefix),
            bindir: copy_opt(&self.bindir),
            sbindir: copy_opt(&self.sbindir),
            libdir: copy_opt(&self.libdir),
            libexecdir: copy_opt(&self.libexecdir),
            datarootdir: copy_opt(&self.datarootdir),
            datadir: copy_opt(&self.datadir),
            sysconfdir: copy_opt(&self.sysconfdir),
            localstatedir: copy_opt(&self.localstatedir),
            runstatedir: copy_opt(&self.runstatedir),
            includedir: copy_opt(&self.includedir),
            docdir: copy_opt(&self.docdir),
            mandir: copy_opt(&self.mandir),
            pam_modulesdir: copy_opt(&self.pam_modulesdir),
            systemd_unitsdir: copy_opt(&self.systemd_unitsdir),
        }
    }
}

impl DirsConfig {
    /// Chooses where the configuration file is looked for. A file that the
    /// user asks for must exist; `user_file` is the place of the user's own
    /// configuration file.
    pub fn config_file(
        explicit: Option<&str>,
        explicit_exists: bool,
        system: bool,
        user_file: &str,
    ) -> (r: Result<String, ConfigError>)
        ensures
            location_outcome(r) == config_location(
                match explicit {
                    Some(path) => Some(path@),
                    None => None,
                },
                explicit_exists,
                system,
                user_file@,
            ),
    {
        match explicit {
            Some(path) => {
                if explicit_exists {
                    Ok(String::from_str(path))
                } else {
                    Err(ConfigError::MissingConfigFile)
                }
            },
            None => {
                if system {
                    Ok(String::from_str("/etc/rinstall.yml"))
                } else {
                    Ok(String::from_str(user_file))
                }
            },
        }
    }

    /// Loads the configuration for one run: the defaults for the kind of
    /// installation, overlaid by the values read from the configuration file
    /// (if there was one) and then by the given options, with the placeholders
    /// resolved at the end. The options are sanitized in place.
    pub fn load(
        system: bool,
        from_file: Option<DirsConfig>,
        opts: &mut DirsConfig,
        xdg: &XdgDirs,
    ) -> (r: Result<DirsConfig, ConfigError>)
        ensures
            final(opts)@ == old(opts)@.sanitized(),
            r.is_ok() <==> (system || xdg.runtime_dir.is_some()),
            r.is_ok() ==> r.unwrap()@ == DirsConfigView::layered(
                system,
                match from_file {
                    Some(file) => Some(file@),
                    None => None,
                },
                old(opts)@,
            ).resolved(system, *xdg),
            r.is_err() ==> r.unwrap_err() == ConfigError::InsecureRuntimeDir,
    {
        let mut dirs_config = if system {
            Self::system_config()
        } else {
            Self::user_config()
        };
        if let Some(file) = from_file {
            dirs_config.merge(system, file);
        }
        opts.sanitize();
        dirs_config.merge(system, opts.clone());
        match dirs_config.replace_placeholders(system, xdg) {
            Ok(()) => Ok(dirs_config),
            Err(e) => Err(e),
        }
    }

    /// The defaults of a system-wide installation.
    #[must_use]
    pub fn system_config() -> (r: Self)
        ensures
            r@ == DirsConfigView::system(),
    {
        Self {
            prefix: Some(String::from_str("/usr/local/")),
            exec_prefix: Some(String::from_str("@prefix@")),
            bindir: Some(String::from_str("@exec_prefix@bin/")),
            sbindir: Some(String::from_str("@exec_prefix@sbin/")),
            libdir: Some(String::from_str("@exec_prefix@lib/")),
            libexecdir: Some(String::from_str("@exec_prefix@libexec/")),
            datarootdir: Some(String::from_str("@prefix@share/")),
            datadir: Some(String::from_str("@prefix@share/")),
            sysconfdir: Some(String::from_str("@prefix@etc/")),
            localstatedir: Some(String::from_str("@prefix@var/")),
            runstatedir: Some(String::from_str("@localstatedir@run/")),
            includedir: Some(String::from_str("@prefix@include/")),
            docdir: Some(String::from_str("@datarootdir@doc/")),
            mandir: Some(String::from_str("@datarootdir@man/")),
            pam_modulesdir: Some(String::from_str("@libdir@security/")),
            systemd_unitsdir: Some(String::from_str("@libdir@systemd/")),
        }
    }

    /// The defaults of an installation for the current user.
    #[must_use]
    pub fn user_config() -> (r: Self)
        ensures
            r@ == DirsConfigView::user(),
    {
        Self {
            prefix: None,
            exec_prefix: None,
            bindir: Some(String::from_str(".local/bin/")),
            sbindir: None,
            libdir: Some(String::from_str(".local/lib/")),
            libexecdir: Some(String::from_str(".local/libexec/")),
            datarootdir: Some(String::from_str("@XDG_DATA_HOME@/")),
            datadir: Some(String::from_str("@XDG_DATA_HOME@/")),
            sysconfdir: Some(String::from_str("@XDG_CONFIG_HOME@/")),
            localstatedir: Some(String::from_str("@XDG_DATA_HOME@/")),
            runstatedir: Some(String::from_str("@XDG_RUNTIME_DIR@/")),
            includedir: None,
            docdir: None,
            mandir: None,
            pam_modulesdir: None,
            systemd_unitsdir: Some(String::from_str("@sysconfdir@/systemd/")),
        }
    }

    /// Lays the set fields of `other` over this configuration, as far as the
    /// kind of installation lets them be configured.
    pub fn merge(&mut self, system: bool, other: Self)
        ensures
            final(self)@ == old(self)@.merged(system, other@),
    {
        if system {
            self.merge_root_conf(other);
        } else {
            self.merge_user_conf(other);
        }
    }

    /// Lays every set field of `config` over this configuration.
    pub fn merge_root_conf(&mut self, config: Self)
        ensures
            final(self)@ == old(self)@.merged_root(config@),
    {
        self.prefix = overlay(self.prefix.take(), config.prefix);
        self.exec_prefix = overlay(self.exec_prefix.take(), config.exec_prefix);
        self.bindir = overlay(self.bindir.take(), config.bindir);
        self.sbindir = overlay(self.sbindir.take(), config.sbindir);
        self.libdir = overlay(self.libdir.take(), config.libdir);
        self.libexecdir = overlay(self.libexecdir.take(), config.libexecdir);
        self.datarootdir = overlay(self.datarootdir.take(), config.datarootdir);
        self.datadir = overlay(self.datadir.take(), config.datadir);
        self.sysconfdir = overlay(self.sysconfdir.take(), config.sysconfdir);
        self.localstatedir = overlay(self.localstatedir.take(), config.localstatedir);
        self.runstatedir = overlay(self.runstatedir.take(), config.runstatedir);
        self.includedir = overlay(self.includedir.take(), config.includedir);
        self.docdir = overlay(self.docdir.take(), config.docdir);
        self.mandir = overlay(self.mandir.take(), config.mandir);
        self.pam_modulesdir = overlay(self.pam_modulesdir.take(), config.pam_modulesdir);
        self.systemd_unitsdir = overlay(self.systemd_unitsdir.take(), config.systemd_unitsdir);
    }

    /// Lays the set fields of `config` that a user installation controls over
    /// this configuration; its other fields are ignored.
    pub fn merge_user_conf(&mut self, config: Self)
        ensures
            final(self)@ == old(self)@.merged_user(config@),
    {
        self.bindir = overlay(self.bindir.take(), config.bindir);
        self.libdir = overlay(self.libdir.take(), config.libdir);
        self.libexecdir = overlay(self.libexecdir.take(), config.libexecdir);
        self.datarootdir = overlay(self.datarootdir.take(), config.datarootdir);
        self.datadir = overlay(self.datadir.take(), config.datadir);
        self.sysconfdir = overlay(self.sysconfdir.take(), config.sysconfdir);
        self.localstatedir = overlay(self.localstatedir.take(), config.localstatedir);
        self.runstatedir = overlay(self.runstatedir.take(), config.runstatedir);
        self.systemd_unitsdir = overlay(self.systemd_unitsdir.take(), config.systemd_unitsdir);
    }

    /// Resolves the placeholders for the given kind of installation. A user
    /// installation fails where the runtime directory is missing.
    pub fn replace_placeholders(&mut self, system: bool, xdg: &XdgDirs) -> (r: Result<
        (),
        ConfigError,
    >)
        requires
            system ==> old(self)@.all_present(),
            !system ==> old(self)@.user_present(),
        ensures
            final(self)@ == old(self)@.resolved(system, *xdg),
            r.is_ok() <==> (system || xdg.runtime_dir.is_some()),
            r.is_err() ==> r.unwrap_err() == ConfigError::InsecureRuntimeDir,
    {
        if system {
            self.replace_root_placeholders();
            Ok(())
        } else {
            self.replace_user_placeholders(xdg)
        }
    }

    /// Resolves the placeholders of a system installation: `@prefix@`
    /// everywhere, then `@exec_prefix@`, `@localstatedir@`, `@datarootdir@`
    /// and `@libdir@`, each in the directories that derive from it.
    pub fn replace_root_placeholders(&mut self)
        requires
            old(self)@.all_present(),
        ensures
            final(self)@ == old(self)@.root_resolved(),
    {
        proof {
            reveal_strlit("@prefix@");
            reveal_strlit("@exec_prefix@");
            reveal_strlit("@localstatedir@");
            reveal_strlit("@datarootdir@");
            reveal_strlit("@libdir@");
        }

        self.exec_prefix = substitute(&self.exec_prefix, "@prefix@", &self.prefix);
        self.bindir = substitute(&self.bindir, "@prefix@", &self.prefix);
        self.sbindir = substitute(&self.sbindir, "@prefix@", &self.prefix);
        self.libdir = substitute(&self.libdir, "@prefix@", &self.prefix);
        self.libexecdir = substitute(&self.libexecdir, "@prefix@", &self.prefix);
        self.datarootdir = substitute(&self.datarootdir, "@prefix@", &self.prefix);
        self.datadir = substitute(&self.datadir, "@prefix@", &self.prefix);
        self.sysconfdir = substitute(&self.sysconfdir, "@prefix@", &self.prefix);
        self.localstatedir = substitute(&self.localstatedir, "@prefix@", &self.prefix);
        self.runstatedir = substitute(&self.runstatedir, "@prefix@", &self.prefix);
        self.includedir = substitute(&self.includedir, "@prefix@", &self.prefix);
        self.docdir = substitute(&self.docdir, "@prefix@", &self.prefix);
        self.mandir = substitute(&self.mandir, "@prefix@", &self.prefix);
        self.pam_modulesdir = substitute(&self.pam_modulesdir, "@prefix@", &self.prefix);
        self.systemd_unitsdir = substitute(&self.systemd_unitsdir, "@prefix@", &self.prefix);

        self.bindir = substitute(&self.bindir, "@exec_prefix@", &self.exec_prefix);
        self.sbindir = substitute(&self.sbindir, "@exec_prefix@", &self.exec_prefix);
        self.libdir = substitute(&self.libdir, "@exec_prefix@", &self.exec_prefix);
        self.libexecdir = substitute(&self.libexecdir, "@exec_prefix@", &self.exec_prefix);
        self.runstatedir = substitute(&self.runstatedir, "@localstatedir@", &self.localstatedir);
        self.docdir = substitute(&self.docdir, "@datarootdir@", &self.datarootdir);
        self.mandir = substitute(&self.mandir, "@datarootdir@", &self.datarootdir);
        self.pam_modulesdir = substitute(&self.pam_modulesdir, "@libdir@", &self.libdir);
        self.systemd_unitsdir = substitute(&self.systemd_unitsdir, "@libdir@", &self.libdir);
    }

    /// Resolves the placeholders of a user installation against the XDG
    /// locations. Fails where the runtime directory is missing, after the data
    /// and configuration homes were put in place.
    pub fn replace_user_placeholders(&mut self, xdg: &XdgDirs) -> (r: Result<(), ConfigError>)
        requires
            old(self)@.user_present(),
        ensures
            final(self)@ == old(self)@.resolved(false, *xdg),
            r.is_ok() <==> xdg.runtime_dir.is_some(),
            r.is_err() ==> r.unwrap_err() == ConfigError::InsecureRuntimeDir,
    {
        proof {
            reveal_strlit("@XDG_DATA_HOME@");
            reveal_strlit("@XDG_CONFIG_HOME@");
            reveal_strlit("@XDG_RUNTIME_DIR@");
            reveal_strlit("@sysconfdir@");
        }
        let data_home = xdg.data_home.as_str();
        let config_home = xdg.config_home.as_str();
        self.datarootdir = substitute_text(&self.datarootdir, "@XDG_DATA_HOME@", data_home);
        self.datadir = substitute_text(&self.datadir, "@XDG_DATA_HOME@", data_home);
        self.sysconfdir = substitute_text(&self.sysconfdir, "@XDG_CONFIG_HOME@", config_home);
        self.localstatedir = substitute_text(&self.localstatedir, "@XDG_DATA_HOME@", data_home);
        match &xdg.runtime_dir {
            None => Err(ConfigError::InsecureRuntimeDir),
            Some(runtime_dir) => {
                self.runstatedir = substitute_text(
                    &self.runstatedir,
                    "@XDG_RUNTIME_DIR@",
                    runtime_dir.as_str(),
                );
                self.systemd_unitsdir = substitute_text(
                    &self.systemd_unitsdir,
                    "@XDG_CONFIG_HOME@",
                    config_home,
                );
                self.systemd_unitsdir = substitute_text(
                    &self.systemd_unitsdir,
                    "@sysconfdir@",
                    config_home,
                );
                Ok(())
            },
        }
    }

    /// Puts a separator at the end of every set directory that lacks one.
    pub fn sanitize(&mut self)
        ensures
            final(self)@ == old(self)@.sanitized(),
    {
        self.prefix = with_ending_slash(self.prefix.take());
        self.exec_prefix = with_ending_slash(self.exec_prefix.take());
        self.bindir = with_ending_slash(self.bindir.take());
        self.sbindir = with_ending_slash(self.sbindir.take());
        self.libdir = with_ending_slash(self.libdir.take());
        self.libexecdir = with_ending_slash(self.libexecdir.take());
        self.datarootdir = with_ending_slash(self.datarootdir.take());
        self.datadir = with_ending_slash(self.datadir.take());
        self.sysconfdir = with_ending_slash(self.sysconfdir.take());
        self.localstatedir = with_ending_slash(self.localstatedir.take());
        self.runstatedir = with_ending_slash(self.runstatedir.take());
        self.includedir = with_ending_slash(self.includedir.take());
        self.docdir = with_ending_slash(self.docdir.take());
        self.mandir = with_ending_slash(self.mandir.take());
        self.pam_modulesdir = with_ending_slash(self.pam_modulesdir.take());
        self.systemd_unitsdir = with_ending_slash(self.systemd_unitsdir.take());
    }
}

} // verus!
