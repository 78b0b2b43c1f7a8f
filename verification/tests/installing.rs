use rinstall::dirs::Dirs;
use rinstall::dirs_config::{DirsConfig, XdgDirs};
use rinstall::install_cmd::{
    Handling, InstallCmd, InstallError, Notice, PackageInstaller, Preparation, RecordStep, Step,
};
use rinstall::install_target::InstallEntry;
use rinstall::package::{Completions, Package, Type};
use rinstall::package_info::{pkg_info_path, InstalledFile, PackageInfo};
use rinstall::tarball_cmd::{member_source, top_directory, TarballCmd};
use rinstall::templating::{apply_templating, TemplatingError};
use rinstall::text::{append_text, copy_opt, copy_text, ends_with, same_text, skip_chars, starts_with};
use rinstall::path::is_relative;
use rinstall::uninstall::{Removal, RemovalNotice, Uninstall};
use rinstall::utils::append_destdir;

fn empty_config() -> DirsConfig {
    DirsConfig {
        prefix: None,
        exec_prefix: None,
        bindir: None,
        sbindir: None,
        libdir: None,
        libexecdir: None,
        datarootdir: None,
        datadir: None,
        sysconfdir: None,
        localstatedir: None,
        runstatedir: None,
        includedir: None,
        docdir: None,
        mandir: None,
        pam_modulesdir: None,
        systemd_unitsdir: None,
    }
}

fn xdg() -> XdgDirs {
    XdgDirs {
        data_home: "/home/u/.local/share".to_string(),
        config_home: "/home/u/.config".to_string(),
        runtime_dir: Some("/run/user/1000".to_string()),
    }
}

fn system_dirs() -> Dirs {
    let mut opts = empty_config();
    let config = DirsConfig::load(true, None, &mut opts, &xdg()).unwrap();
    Dirs::new(config, true, "/root").unwrap()
}

fn user_dirs() -> Dirs {
    let mut opts = empty_config();
    let config = DirsConfig::load(false, None, &mut opts, &xdg()).unwrap();
    Dirs::new(config, false, "/home/u").unwrap()
}

fn package(name: &str) -> Package {
    Package {
        name: Some(name.to_string()),
        pkg_type: Type::Default,
        exe: vec![],
        admin_exe: vec![],
        libs: vec![],
        libexec: vec![],
        includes: vec![],
        man: vec![],
        data: vec![],
        docs: vec![],
        config: vec![],
        user_config: vec![],
        desktop_files: vec![],
        appstream_metadata: vec![],
        completions: Completions { bash: vec![], elvish: vec![], fish: vec![], zsh: vec![] },
        pam_modules: vec![],
        systemd_units: vec![],
        systemd_user_units: vec![],
        icons: vec![],
        terminfo: vec![],
        licenses: vec![],
        pkg_config: vec![],
    }
}

fn options() -> InstallCmd {
    InstallCmd {
        config: None,
        system: true,
        accept_changes: true,
        force: false,
        update_config: false,
        rust_debug_target: false,
        rust_target_triple: None,
        destdir: None,
        skip_pkg_info: false,
        package_dir: ".".to_string(),
        packages: vec![],
        update: false,
        packaging: false,
        completions: None,
        tarball: None,
        dirs: empty_config(),
    }
}

fn entry(source: &str, destination: &str, replace: bool) -> InstallEntry {
    InstallEntry {
        source: source.to_string(),
        full_source: source.to_string(),
        destination: destination.to_string(),
        templating: false,
        replace,
    }
}

fn uninstall(accept_changes: bool, force: bool) -> Uninstall {
    Uninstall {
        config: None,
        accept_changes,
        force,
        system: true,
        prefix: None,
        localstatedir: None,
        packages: vec!["demo".to_string()],
    }
}

const EMPTY_HASH: &str = "af1349b9f5f9a1a6a0404dea36dcc9499bcb25c9adc112b7cc9a93cae41f3262";

#[test]
fn demo_package_is_installed_and_recorded() {
    let dirs = system_dirs();
    let opts = options();
    let pkg = package("demo");
    let (mut installer, preparation) = PackageInstaller::new(&pkg, &opts, &dirs, false).unwrap();
    assert_eq!(preparation, Preparation::Install);
    assert_eq!(installer.pkg_info.path, "/usr/local/var/rinstall/demo.pkg");
    assert_eq!(installer.pkg_info.pkg_name, "demo");
    assert!(!installer.check_for_overwrite);

    let exe = entry("bin/demo", "/usr/local/bin/demo", true);
    let conf = entry("demo.conf", "/usr/local/etc/demo/demo.conf", false);
    let step = installer.install_target(&exe, exe.destination_for_file(), true, false);
    assert_eq!(
        step,
        Ok(Step::Install { destination: "/usr/local/bin/demo".to_string(), notice: None })
    );
    installer.add_installed(&exe, "/usr/local/bin/demo", b"binary");
    let step = installer.install_target(&conf, conf.destination_for_file(), true, false);
    assert_eq!(
        step,
        Ok(Step::Install {
            destination: "/usr/local/etc/demo/demo.conf".to_string(),
            notice: None
        })
    );
    installer.add_installed(&conf, "/usr/local/etc/demo/demo.conf", b"");
    assert_eq!(installer.install_pkg_info(), RecordStep::Install);
    assert_eq!(
        installer.pkg_info.files,
        vec![
            InstalledFile {
                path: "/usr/local/bin/demo".to_string(),
                checksum: blake3::hash(b"binary").to_hex().to_string(),
                replace: true
            },
            InstalledFile {
                path: "/usr/local/etc/demo/demo.conf".to_string(),
                checksum: EMPTY_HASH.to_string(),
                replace: false
            },
        ]
    );
}

#[test]
fn staging_root_skips_conflict_checks() {
    let dirs = system_dirs();
    let mut opts = options();
    opts.destdir = Some("/tmp/stage".to_string());
    opts.packaging = true;
    let pkg = package("demo");
    let (installer, _) = PackageInstaller::new(&pkg, &opts, &dirs, false).unwrap();
    let exe = entry("bin/demo", "/usr/local/bin/demo", true);
    let conf = entry("demo.conf", "/usr/local/etc/demo/demo.conf", false);
    assert_eq!(
        installer.install_target(&exe, "/usr/local/bin/demo".to_string(), true, true),
        Ok(Step::Install { destination: "/tmp/stage/usr/local/bin/demo".to_string(), notice: None })
    );
    assert_eq!(
        installer.install_target(&conf, "/usr/local/etc/demo/demo.conf".to_string(), true, true),
        Ok(Step::Install {
            destination: "/tmp/stage/usr/local/etc/demo/demo.conf".to_string(),
            notice: None
        })
    );
    assert_eq!(installer.install_pkg_info(), RecordStep::Skip);
    assert!(opts.skip_pkg_info());
    assert!(opts.system_dirs(false));

    let mut staged_only = options();
    staged_only.destdir = Some("/tmp/stage".to_string());
    let (installer, _) = PackageInstaller::new(&pkg, &staged_only, &dirs, false).unwrap();
    assert_eq!(installer.pkg_info.path, "/usr/local/var/rinstall/demo.pkg");
    assert_eq!(
        installer.install_target(&exe, "/usr/local/bin/demo".to_string(), false, true),
        Ok(Step::WouldInstall { destination: "/usr/local/bin/demo".to_string(), notice: None })
    );
}

#[test]
fn staging_root_is_concatenated() {
    assert_eq!(append_destdir("/usr/bin/demo", Some("/tmp/stage")), "/tmp/stage/usr/bin/demo");
    assert_eq!(append_destdir("/usr/bin/demo", Some("/tmp/stage/")), "/tmp/stage//usr/bin/demo");
    assert_eq!(append_destdir("usr", Some("/tmp")), "/tmpusr");
    assert_eq!(append_destdir("/usr/bin/demo", None), "/usr/bin/demo");
}

#[test]
fn dry_run_installs_nothing() {
    let dirs = system_dirs();
    let pkg = package("demo");
    for force in [false, true] {
        for update_config in [false, true] {
            for already in [false, true] {
                for exists in [false, true] {
                    for replace in [false, true] {
                        let mut opts = options();
                        opts.accept_changes = false;
                        opts.force = force;
                        opts.update_config = update_config;
                        let (installer, _) =
                            PackageInstaller::new(&pkg, &opts, &dirs, already).unwrap();
                        let e = entry("a", "/a", replace);
                        let step =
                            installer.install_target(&e, "/a".to_string(), false, exists).unwrap();
                        assert!(!matches!(step, Step::Install { .. }));
                        assert_eq!(installer.install_pkg_info(), RecordStep::WouldInstall);
                        for modified in [false, true] {
                            let file = InstalledFile {
                                path: "/a".to_string(),
                                checksum: String::new(),
                                replace,
                            };
                            let (removal, _) = uninstall(false, force).file_removal(&file, modified);
                            assert!(removal != Removal::Remove);
                        }
                    }
                }
            }
        }
    }
    assert_eq!(uninstall(false, true).record_removal(), Removal::WouldRemove);
}

#[test]
fn existing_config_is_not_clobbered() {
    let dirs = system_dirs();
    let pkg = package("demo");
    let conf = entry("demo.conf", "/etc/demo.conf", false);
    for force in [false, true] {
        let mut opts = options();
        opts.force = force;
        let (installer, _) = PackageInstaller::new(&pkg, &opts, &dirs, false).unwrap();
        assert_eq!(
            installer.install_target(&conf, "/etc/demo.conf".to_string(), true, true),
            Ok(Step::Skip { notice: Some(Notice::SkippingConfig) })
        );
        assert_eq!(
            installer.handle_existing_file(&conf, "/etc/demo.conf", true),
            Ok(Handling { skip: true, notice: Some(Notice::SkippingConfig) })
        );
    }
    let mut opts = options();
    opts.accept_changes = false;
    let (installer, _) = PackageInstaller::new(&pkg, &opts, &dirs, false).unwrap();
    assert_eq!(
        installer.install_target(&conf, "/etc/demo.conf".to_string(), false, true),
        Ok(Step::Skip { notice: Some(Notice::WouldSkipConfig) })
    );
    let mut opts = options();
    opts.update_config = true;
    let (installer, _) = PackageInstaller::new(&pkg, &opts, &dirs, false).unwrap();
    assert_eq!(
        installer.install_target(&conf, "/etc/demo.conf".to_string(), true, true),
        Ok(Step::Install {
            destination: "/etc/demo.conf".to_string(),
            notice: Some(Notice::ConfigOverwritten)
        })
    );
    opts.accept_changes = false;
    let (installer, _) = PackageInstaller::new(&pkg, &opts, &dirs, false).unwrap();
    assert_eq!(
        installer.install_target(&conf, "/etc/demo.conf".to_string(), false, true),
        Ok(Step::WouldInstall {
            destination: "/etc/demo.conf".to_string(),
            notice: Some(Notice::ConfigWillBeOverwritten)
        })
    );
}

#[test]
fn existing_files_need_force() {
    let dirs = system_dirs();
    let pkg = package("demo");
    let exe = entry("demo", "/bin/demo", true);
    let opts = options();
    let (installer, _) = PackageInstaller::new(&pkg, &opts, &dirs, false).unwrap();
    assert_eq!(
        installer.install_target(&exe, "/bin/demo".to_string(), true, true),
        Err(InstallError::FileExists { destination: "/bin/demo".to_string() })
    );
    assert_eq!(
        installer.install_target(&exe, "/bin/demo".to_string(), true, false),
        Ok(Step::Install { destination: "/bin/demo".to_string(), notice: None })
    );
    let mut forced = options();
    forced.force = true;
    let (installer, _) = PackageInstaller::new(&pkg, &forced, &dirs, false).unwrap();
    assert_eq!(
        installer.install_target(&exe, "/bin/demo".to_string(), true, true),
        Ok(Step::Install { destination: "/bin/demo".to_string(), notice: Some(Notice::Overwriting) })
    );
    forced.accept_changes = false;
    let (installer, _) = PackageInstaller::new(&pkg, &forced, &dirs, false).unwrap();
    assert_eq!(
        installer.install_target(&exe, "/bin/demo".to_string(), false, true),
        Ok(Step::WouldInstall {
            destination: "/bin/demo".to_string(),
            notice: Some(Notice::WouldOverwrite)
        })
    );
    let mut dry = options();
    dry.accept_changes = false;
    let (installer, _) = PackageInstaller::new(&pkg, &dry, &dirs, false).unwrap();
    assert_eq!(
        installer.install_target(&exe, "/bin/demo".to_string(), false, true),
        Ok(Step::WouldInstall {
            destination: "/bin/demo".to_string(),
            notice: Some(Notice::ExistsAddForce)
        })
    );
    let (installer, preparation) = PackageInstaller::new(&pkg, &dry, &dirs, true).unwrap();
    assert_eq!(preparation, Preparation::WarnInstalled);
    assert_eq!(
        installer.install_target(&exe, "/bin/demo".to_string(), false, true),
        Ok(Step::WouldInstall {
            destination: "/bin/demo".to_string(),
            notice: Some(Notice::WouldOverwrite)
        })
    );
}

#[test]
fn existing_files_of_an_installed_package_only_warn() {
    let dirs = system_dirs();
    let pkg = package("demo");
    let exe = entry("demo", "/bin/demo", true);
    let conf = entry("demo.conf", "/etc/demo.conf", false);
    let mut update = options();
    update.update = true;
    let (installer, preparation) = PackageInstaller::new(&pkg, &update, &dirs, true).unwrap();
    assert_eq!(preparation, Preparation::UninstallFirst);
    assert_eq!(
        installer.handle_existing_file(&exe, "/bin/demo", true),
        Ok(Handling { skip: false, notice: Some(Notice::Overwriting) })
    );
    assert_eq!(
        installer.install_target(&exe, "/bin/demo".to_string(), true, true),
        Ok(Step::Install { destination: "/bin/demo".to_string(), notice: Some(Notice::Overwriting) })
    );
    assert_eq!(
        installer.handle_existing_file(&exe, "/bin/demo", false),
        Ok(Handling { skip: false, notice: None })
    );
    assert_eq!(
        installer.install_target(&conf, "/etc/demo.conf".to_string(), true, true),
        Ok(Step::Skip { notice: Some(Notice::SkippingConfig) })
    );
    update.accept_changes = false;
    update.update_config = true;
    let (installer, _) = PackageInstaller::new(&pkg, &update, &dirs, true).unwrap();
    assert_eq!(
        installer.handle_existing_file(&exe, "/bin/demo", true),
        Ok(Handling { skip: false, notice: Some(Notice::WouldOverwrite) })
    );
    assert_eq!(
        installer.handle_existing_file(&conf, "/etc/demo.conf", true),
        Ok(Handling { skip: false, notice: Some(Notice::ConfigWillBeOverwritten) })
    );
}

#[test]
fn installed_packages_are_refused_or_updated() {
    let dirs = system_dirs();
    let pkg = package("demo");
    let opts = options();
    assert_eq!(
        PackageInstaller::new(&pkg, &opts, &dirs, true).err(),
        Some(InstallError::AlreadyInstalled { pkg_name: "demo".to_string() })
    );
    let mut update = options();
    update.update = true;
    update.force = true;
    let (installer, preparation) = PackageInstaller::new(&pkg, &update, &dirs, true).unwrap();
    assert_eq!(preparation, Preparation::UninstallFirst);
    assert!(installer.check_for_overwrite);
    assert_eq!(
        installer.uninstall_first(false),
        Uninstall {
            config: None,
            accept_changes: true,
            force: true,
            system: true,
            prefix: None,
            localstatedir: Some("/usr/local/var/".to_string()),
            packages: vec!["demo".to_string()],
        }
    );
    let (_, preparation) = PackageInstaller::new(&pkg, &update, &dirs, false).unwrap();
    assert_eq!(preparation, Preparation::Install);
    let mut user = options();
    user.system = false;
    assert!(!user.system_dirs(false));
    assert!(user.system_dirs(true));
    assert!(!user.skip_pkg_info());
    user.skip_pkg_info = true;
    assert!(user.skip_pkg_info());
    let (installer, _) = PackageInstaller::new(&pkg, &user, &dirs, false).unwrap();
    assert_eq!(installer.install_pkg_info(), RecordStep::Skip);
}

#[test]
fn round_trip_removes_every_file_without_warning() {
    let dirs = system_dirs();
    let mut info = PackageInfo::new("demo", &dirs);
    assert!(info.files.is_empty());
    info.add_file("/usr/local/bin/demo", b"binary", true);
    info.add_file("/usr/local/etc/demo/demo.conf", b"key = value\n", false);
    let contents: [&[u8]; 2] = [b"binary", b"key = value\n"];
    for force in [false, true] {
        let run = uninstall(true, force);
        for (file, now) in info.files.iter().zip(contents) {
            let modified = file.has_been_modified(now);
            assert!(!modified);
            assert_eq!(
                run.file_removal(file, modified),
                (Removal::Remove, RemovalNotice::Removing)
            );
        }
        assert_eq!(run.record_removal(), Removal::Remove);
    }
}

#[test]
fn modified_files_are_kept_or_removed_by_policy() {
    let dirs = system_dirs();
    let mut info = PackageInfo::new("demo", &dirs);
    info.add_file("/usr/local/bin/demo", b"binary", true);
    info.add_file("/usr/local/etc/demo/demo.conf", b"key = value\n", false);
    let exe = &info.files[0];
    let conf = &info.files[1];
    assert!(exe.has_been_modified(b"patched"));
    assert!(conf.has_been_modified(b"key = other\n"));
    let plain = uninstall(true, false);
    assert_eq!(plain.file_removal(conf, true), (Removal::Keep, RemovalNotice::Keeping));
    assert_eq!(plain.file_removal(exe, true), (Removal::Remove, RemovalNotice::ModifiedRemoved));
    let forced = uninstall(true, true);
    assert_eq!(forced.file_removal(conf, true), (Removal::Remove, RemovalNotice::ModifiedRemoved));
    assert_eq!(forced.file_removal(exe, true), (Removal::Remove, RemovalNotice::ModifiedRemoved));
    let dry = uninstall(false, false);
    assert_eq!(
        dry.file_removal(conf, true),
        (Removal::WouldKeep, RemovalNotice::ModifiedWontBeRemoved)
    );
    assert_eq!(
        dry.file_removal(exe, true),
        (Removal::WouldRemove, RemovalNotice::ModifiedWillBeRemoved)
    );
    assert_eq!(dry.file_removal(exe, false), (Removal::WouldRemove, RemovalNotice::WouldRemove));
    let dry_forced = uninstall(false, true);
    assert_eq!(
        dry_forced.file_removal(conf, true),
        (Removal::WouldRemove, RemovalNotice::ModifiedWillBeRemoved)
    );
    assert_eq!(
        dry_forced.file_removal(conf, false),
        (Removal::WouldRemove, RemovalNotice::WouldRemove)
    );
}

#[test]
fn checksum_is_the_blake3_hash_in_hex() {
    let dirs = user_dirs();
    let mut info = PackageInfo::new("demo", &dirs);
    assert_eq!(info.path, "/home/u/.local/share/rinstall/demo.pkg");
    info.add_file("home/u/.local/bin/demo", b"", true);
    assert_eq!(info.files[0].checksum, EMPTY_HASH);
    assert_eq!(info.files[0].path, "/home/u/.local/bin/demo");
    assert!(info.files[0].replace);
    assert!(!info.files[0].has_been_modified(b""));
    assert!(info.files[0].has_been_modified(b"\n"));
    assert_eq!(pkg_info_path("/var/", "x"), "/var/rinstall/x.pkg");
}

#[test]
fn uninstall_finds_the_record() {
    let dirs = system_dirs();
    assert_eq!(Uninstall::pkg_info("demo", &dirs), "/usr/local/var/rinstall/demo.pkg");
    assert_eq!(Uninstall::pkg_info("/tmp/demo.pkg", &dirs), "/tmp/demo.pkg");
    let mut run = uninstall(true, false);
    run.system = false;
    run.localstatedir = Some("/var/lib".to_string());
    let user = run.dirs_options(false);
    assert_eq!(user.localstatedir, Some("/var/lib".to_string()));
    assert_eq!(user.prefix, None);
    assert_eq!(user.bindir, Some(".local/bin/".to_string()));
    run.prefix = Some("/opt".to_string());
    let root = run.dirs_options(true);
    assert_eq!(root.prefix, Some("/opt".to_string()));
    assert_eq!(root.bindir, Some("@exec_prefix@bin/".to_string()));
}

#[test]
fn templating_fills_in_the_directories() {
    let dirs = system_dirs();
    let text = b"exec=@bindir@demo\nconf=@sysconfdir@demo.conf\n@prefix@ @exec_prefix@ \
@sbindir@ @libdir@ @libexecdir@ @datarootdir@ @datadir@ @localstatedir@ @runstatedir@ \
@includedir@ @docdir@ @mandir@ @pam_modulesdir@ @systemd_unitsdir@ @other@ @bindir";
    assert_eq!(
        apply_templating(text, &dirs),
        Ok("exec=/usr/local/bin/demo\nconf=/usr/local/etc/demo.conf\n/usr/local/ /usr/local/ \
/usr/local/sbin/ /usr/local/lib/ /usr/local/libexec/ /usr/local/share/ /usr/local/share/ \
/usr/local/var/ /usr/local/var/run/ /usr/local/include/ /usr/local/share/doc/ \
/usr/local/share/man/ /usr/local/lib/security/ /usr/local/lib/systemd/ @other@ @bindir"
            .to_string())
    );
    assert_eq!(apply_templating(b"", &dirs), Ok(String::new()));
    assert_eq!(apply_templating(b"a\xffb", &dirs), Ok("a\u{fffd}b".to_string()));
}

#[test]
fn templating_refuses_unset_directories() {
    let dirs = user_dirs();
    assert_eq!(
        apply_templating(b"bin=@bindir@ man=@mandir@ p=@prefix@", &dirs),
        Err(TemplatingError::UnsetDirectory { placeholder: "@prefix@".to_string() })
    );
    assert_eq!(
        apply_templating(b"bin=@bindir@ man=@mandir@", &dirs),
        Err(TemplatingError::UnsetDirectory { placeholder: "@mandir@".to_string() })
    );
    assert_eq!(
        apply_templating(b"bin=@bindir@", &dirs),
        Ok("bin=/home/u/.local/bin/".to_string())
    );
}

#[test]
fn archive_names() {
    let mut cmd = TarballCmd {
        rust_debug_target: false,
        rust_target_triple: None,
        package_dir: ".".to_string(),
        packages: vec![],
        directory_name: None,
        tarball_name: "demo-1.0".to_string(),
    };
    assert_eq!(cmd.file_name(), "demo-1.0.tar.gz");
    assert_eq!(cmd.directory(), "demo-1.0");
    assert_eq!(cmd.member_name("bin/demo"), "demo-1.0/bin/demo");
    cmd.directory_name = Some("demo".to_string());
    assert_eq!(cmd.member_name("install.yml"), "demo/install.yml");
    assert_eq!(cmd.file_name(), "demo-1.0.tar.gz");
}

#[test]
fn text_helpers() {
    assert!(ends_with("a/", '/'));
    assert!(!ends_with("a", '/'));
    assert!(!ends_with("", '/'));
    assert!(starts_with("libpam_x", "libpam_"));
    assert!(starts_with("x", ""));
    assert!(!starts_with("lib", "libpam_"));
    assert!(!starts_with("libpan_x", "libpam_"));
    assert!(same_text("é1", "é1"));
    assert!(!same_text("a", "ab"));
    assert!(!same_text("ab", "ac"));
    assert_eq!(skip_chars("libpam", 3), "pam");
    assert_eq!(skip_chars("éa", 1), "a");
    assert_eq!(skip_chars("ab", 2), "");
    assert_eq!(append_text("a", "b"), "ab");
    assert_eq!(copy_text("abc"), "abc");
    assert_eq!(copy_opt(&Some("a".to_string())), Some("a".to_string()));
    assert_eq!(copy_opt(&None), None);
    assert!(is_relative("a/b"));
    assert!(!is_relative("/a"));
}

#[test]
fn archive_members_are_matched_with_entries() {
    assert_eq!(member_source("demo-1.0/bin/demo"), Some("bin/demo".to_string()));
    assert_eq!(member_source("demo-1.0/install.yml"), Some("install.yml".to_string()));
    assert_eq!(member_source("demo-1.0"), Some("".to_string()));
    assert_eq!(member_source(""), None);
    assert_eq!(top_directory("demo-1.0/bin/demo", 17), Some("demo-1.0".to_string()));
    assert_eq!(top_directory("demo-1.0/bin/demo", 2), None);
    assert_eq!(top_directory("/a/b", 4), Some("/a".to_string()));
    let exe = entry("bin/demo", "/usr/local/bin/", true);
    assert_eq!(
        exe.destination_for_archived("bin/demo"),
        Some("/usr/local/bin/demo".to_string())
    );
    assert_eq!(exe.destination_for_archived("bin/other"), None);
    let assets = entry("assets", "/usr/local/share/demo/", true);
    assert_eq!(
        assets.destination_for_archived("assets/img/logo.png"),
        Some("/usr/local/share/demo/img/logo.png".to_string())
    );
    assert_eq!(assets.destination_for_archived("assets2/logo.png"), None);
}
