use rinstall::dirs::{Dirs, DirsError};
use rinstall::dirs_config::{ConfigError, DirsConfig, XdgDirs};

fn empty_config() -> DirsConfig {
    DirsConfig {
        prefix: None,
        exec_prefix: None,
        bindir: None,
        sbindir: None,
        libdir: None,
        libexecdir: None,
        datarootdir: None,
        datadir: None,
        sysconfdir: None,
        localstatedir: None,
        runstatedir: None,
        includedir: None,
        docdir: None,
        mandir: None,
        pam_modulesdir: None,
        systemd_unitsdir: None,
    }
}

fn xdg() -> XdgDirs {
    XdgDirs {
        data_home: "/home/u/.local/share".to_string(),
        config_home: "/home/u/.config".to_string(),
        runtime_dir: Some("/run/user/1000".to_string()),
    }
}

fn s(text: &str) -> Option<String> {
    Some(text.to_string())
}

#[test]
fn system_defaults_resolve_below_usr_local() {
    let mut config = DirsConfig::system_config();
    config.replace_root_placeholders();
    assert_eq!(config.prefix, s("/usr/local/"));
    assert_eq!(config.exec_prefix, s("/usr/local/"));
    assert_eq!(config.bindir, s("/usr/local/bin/"));
    assert_eq!(config.sbindir, s("/usr/local/sbin/"));
    assert_eq!(config.libdir, s("/usr/local/lib/"));
    assert_eq!(config.libexecdir, s("/usr/local/libexec/"));
    assert_eq!(config.datarootdir, s("/usr/local/share/"));
    assert_eq!(config.datadir, s("/usr/local/share/"));
    assert_eq!(config.sysconfdir, s("/usr/local/etc/"));
    assert_eq!(config.localstatedir, s("/usr/local/var/"));
    assert_eq!(config.runstatedir, s("/usr/local/var/run/"));
    assert_eq!(config.includedir, s("/usr/local/include/"));
    assert_eq!(config.docdir, s("/usr/local/share/doc/"));
    assert_eq!(config.mandir, s("/usr/local/share/man/"));
    assert_eq!(config.pam_modulesdir, s("/usr/local/lib/security/"));
    assert_eq!(config.systemd_unitsdir, s("/usr/local/lib/systemd/"));
}

#[test]
fn resolved_system_defaults_hold_no_placeholder() {
    let mut opts = empty_config();
    let config = DirsConfig::load(true, None, &mut opts, &xdg()).unwrap();
    let all = [
        &config.prefix,
        &config.exec_prefix,
        &config.bindir,
        &config.sbindir,
        &config.libdir,
        &config.libexecdir,
        &config.datarootdir,
        &config.datadir,
        &config.sysconfdir,
        &config.localstatedir,
        &config.runstatedir,
        &config.includedir,
        &config.docdir,
        &config.mandir,
        &config.pam_modulesdir,
        &config.systemd_unitsdir,
    ];
    for dir in all {
        assert!(!dir.as_ref().unwrap().contains('@'));
    }
}

#[test]
fn user_defaults_resolve_against_xdg() {
    let mut config = DirsConfig::user_config();
    assert_eq!(config.replace_user_placeholders(&xdg()), Ok(()));
    assert_eq!(config.prefix, None);
    assert_eq!(config.bindir, s(".local/bin/"));
    assert_eq!(config.datarootdir, s("/home/u/.local/share/"));
    assert_eq!(config.datadir, s("/home/u/.local/share/"));
    assert_eq!(config.sysconfdir, s("/home/u/.config/"));
    assert_eq!(config.localstatedir, s("/home/u/.local/share/"));
    assert_eq!(config.runstatedir, s("/run/user/1000/"));
    assert_eq!(config.systemd_unitsdir, s("/home/u/.config/systemd/"));
    assert_eq!(config.mandir, None);
}

#[test]
fn missing_runtime_dir_is_fatal() {
    let mut config = DirsConfig::user_config();
    let mut xdg = xdg();
    xdg.runtime_dir = None;
    assert_eq!(
        config.replace_user_placeholders(&xdg),
        Err(ConfigError::InsecureRuntimeDir)
    );
    let mut opts = empty_config();
    assert_eq!(
        DirsConfig::load(false, None, &mut opts, &xdg),
        Err(ConfigError::InsecureRuntimeDir)
    );
    assert!(DirsConfig::load(true, None, &mut opts, &xdg).is_ok());
}

#[test]
fn prefix_override_cascades() {
    let mut opts = empty_config();
    opts.prefix = s("/opt/tool");
    let config = DirsConfig::load(true, None, &mut opts, &xdg()).unwrap();
    assert_eq!(opts.prefix, s("/opt/tool/"));
    assert_eq!(config.prefix, s("/opt/tool/"));
    assert_eq!(config.bindir, s("/opt/tool/bin/"));
    assert_eq!(config.mandir, s("/opt/tool/share/man/"));
    assert_eq!(config.systemd_unitsdir, s("/opt/tool/lib/systemd/"));
}

#[test]
fn options_win_over_file_and_file_over_defaults() {
    let mut file = empty_config();
    file.bindir = s("/file/bin/");
    file.libdir = s("/file/lib/");
    let mut opts = empty_config();
    opts.bindir = s("/cli/bin");
    let config = DirsConfig::load(true, Some(file), &mut opts, &xdg()).unwrap();
    assert_eq!(config.bindir, s("/cli/bin/"));
    assert_eq!(config.libdir, s("/file/lib/"));
    assert_eq!(config.pam_modulesdir, s("/file/lib/security/"));
    assert_eq!(config.sbindir, s("/usr/local/sbin/"));
}

#[test]
fn merge_overwrites_only_set_fields() {
    let mut base = DirsConfig::system_config();
    let mut overlay = empty_config();
    overlay.docdir = s("/doc/");
    base.merge(true, overlay);
    let mut expected = DirsConfig::system_config();
    expected.docdir = s("/doc/");
    assert_eq!(base, expected);
}

#[test]
fn user_merge_ignores_system_only_fields() {
    let mut base = DirsConfig::user_config();
    let mut overlay = empty_config();
    overlay.prefix = s("/p/");
    overlay.sbindir = s("/sbin/");
    overlay.mandir = s("/man/");
    overlay.bindir = s("/b/");
    base.merge(false, overlay.clone());
    let mut expected = DirsConfig::user_config();
    expected.bindir = s("/b/");
    assert_eq!(base, expected);

    let mut by_name = DirsConfig::user_config();
    by_name.merge_user_conf(overlay.clone());
    assert_eq!(by_name, expected);

    let mut root = DirsConfig::user_config();
    root.merge_root_conf(overlay);
    assert_eq!(root.prefix, s("/p/"));
    assert_eq!(root.sbindir, s("/sbin/"));
}

#[test]
fn sanitize_adds_one_separator() {
    let mut config = empty_config();
    config.prefix = s("/a");
    config.bindir = s("/b/");
    config.libdir = s("");
    config.sanitize();
    assert_eq!(config.prefix, s("/a/"));
    assert_eq!(config.bindir, s("/b/"));
    assert_eq!(config.libdir, s("/"));
    assert_eq!(config.mandir, None);
}

#[test]
fn placeholders_are_replaced_everywhere_in_a_value() {
    let mut config = DirsConfig::system_config();
    config.prefix = s("/p/");
    config.bindir = s("@prefix@x/@prefix@y/@exec_prefix@");
    config.replace_root_placeholders();
    assert_eq!(config.bindir, s("/p/x//p/y//p/"));
}

#[test]
fn system_dirs_must_be_absolute() {
    let mut opts = empty_config();
    opts.libdir = s("relative/lib");
    let config = DirsConfig::load(true, None, &mut opts, &xdg()).unwrap();
    let err = Dirs::new(config, true, "/home/u").unwrap_err();
    assert_eq!(
        err,
        DirsError::NotAbsolute {
            name: "libdir".to_string(),
            path: "relative/lib/".to_string()
        }
    );
}

#[test]
fn first_relative_directory_is_named() {
    let mut opts = empty_config();
    opts.systemd_unitsdir = s("units");
    opts.prefix = s("pre");
    opts.bindir = s("/bin");
    opts.exec_prefix = s("/e");
    let config = DirsConfig::load(true, None, &mut opts, &xdg()).unwrap();
    let dirs = Dirs {
        prefix: config.prefix.clone(),
        exec_prefix: config.exec_prefix.clone(),
        bindir: config.bindir.clone().unwrap(),
        sbindir: s("rel/sbin/"),
        libdir: "/l/".to_string(),
        libexecdir: "/le/".to_string(),
        datarootdir: "/d/".to_string(),
        datadir: "/d/".to_string(),
        sysconfdir: "/etc/".to_string(),
        localstatedir: "/var/".to_string(),
        runstatedir: "/run/".to_string(),
        includedir: None,
        docdir: None,
        mandir: None,
        pam_modulesdir: None,
        systemd_unitsdir: "units/".to_string(),
    };
    assert_eq!(
        dirs.check_absolute_paths(),
        Err(DirsError::NotAbsolute {
            name: "systemd-unitsdir".to_string(),
            path: "units/".to_string()
        })
    );
    let mut fixed = dirs.clone();
    fixed.systemd_unitsdir = "/units/".to_string();
    assert_eq!(
        fixed.check_absolute_paths(),
        Err(DirsError::NotAbsolute {
            name: "prefix".to_string(),
            path: "pre/".to_string()
        })
    );
    fixed.prefix = None;
    assert_eq!(
        fixed.check_absolute_paths(),
        Err(DirsError::NotAbsolute {
            name: "sbindir".to_string(),
            path: "rel/sbin/".to_string()
        })
    );
    fixed.sbindir = None;
    assert_eq!(fixed.check_absolute_paths(), Ok(()));
}

#[test]
fn user_dirs_are_placed_below_home() {
    let mut opts = empty_config();
    let config = DirsConfig::load(false, None, &mut opts, &xdg()).unwrap();
    let dirs = Dirs::new(config, false, "/home/u").unwrap();
    assert_eq!(dirs.bindir, "/home/u/.local/bin/");
    assert_eq!(dirs.libdir, "/home/u/.local/lib/");
    assert_eq!(dirs.libexecdir, "/home/u/.local/libexec/");
    assert_eq!(dirs.datadir, "/home/u/.local/share/");
    assert_eq!(dirs.sysconfdir, "/home/u/.config/");
    assert_eq!(dirs.runstatedir, "/run/user/1000/");
    assert_eq!(dirs.sbindir, None);
    assert_eq!(dirs.mandir, None);
}

#[test]
fn configuration_file_is_looked_for() {
    assert_eq!(
        DirsConfig::config_file(Some("/my.yml"), true, true, "/home/u/.config/rinstall.yml"),
        Ok("/my.yml".to_string())
    );
    assert_eq!(
        DirsConfig::config_file(Some("/my.yml"), false, false, "/home/u/.config/rinstall.yml"),
        Err(ConfigError::MissingConfigFile)
    );
    assert_eq!(
        DirsConfig::config_file(None, false, true, "/home/u/.config/rinstall.yml"),
        Ok("/etc/rinstall.yml".to_string())
    );
    assert_eq!(
        DirsConfig::config_file(None, true, false, "/home/u/.config/rinstall.yml"),
        Ok("/home/u/.config/rinstall.yml".to_string())
    );
}

#[test]
fn an_at_sign_that_is_no_placeholder_stays() {
    let mut opts = empty_config();
    opts.bindir = s("/home/a@b/bin");
    let mut xdg = xdg();
    xdg.data_home = "/home/a@b/.local/share".to_string();
    let config = DirsConfig::load(false, None, &mut opts, &xdg).unwrap();
    assert_eq!(config.bindir, s("/home/a@b/bin/"));
    assert_eq!(config.datadir, s("/home/a@b/.local/share/"));
    assert_eq!(config.systemd_unitsdir, s("/home/u/.config/systemd/"));
}

#[test]
fn several_placeholders_in_one_value_resolve() {
    let mut opts = empty_config();
    opts.prefix = s("/p");
    opts.exec_prefix = s("@prefix@e/@prefix@");
    opts.libdir = s("@exec_prefix@@prefix@lib@exec_prefix@");
    let config = DirsConfig::load(true, None, &mut opts, &xdg()).unwrap();
    assert_eq!(config.exec_prefix, s("/p/e//p//"));
    assert_eq!(config.libdir, s("/p/e//p///p/lib/p/e//p///"));
    assert_eq!(config.pam_modulesdir, s("/p/e//p///p/lib/p/e//p///security/"));
}
