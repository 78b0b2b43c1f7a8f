use rinstall::dirs::Dirs;
use rinstall::dirs_config::{DirsConfig, XdgDirs};
use rinstall::icon::Icon;
use rinstall::install::Install;
use rinstall::install_spec::{selects, InstallSpec, RinstallVersion, SpecError};
use rinstall::install_target::{
    FilesPolicy, InstallEntry, SourceError, SourceKind, SourcePlan,
};
use rinstall::package::{
    bool_true, Category, Completions, EntryErrorKind, InnerDataEntry, InnerEntry, Package,
    PackageError, Rule, Type,
};
use rinstall::project::{
    DefaultProjectDirectories, ProjectError, RustDirectories, TargetSource,
};

fn empty_config() -> DirsConfig {
    DirsConfig {
        prefix: None,
        exec_prefix: None,
        bindir: None,
        sbindir: None,
        libdir: None,
        libexecdir: None,
        datarootdir: None,
        datadir: None,
        sysconfdir: None,
        localstatedir: None,
        runstatedir: None,
        includedir: None,
        docdir: None,
        mandir: None,
        pam_modulesdir: None,
        systemd_unitsdir: None,
    }
}

fn xdg() -> XdgDirs {
    XdgDirs {
        data_home: "/home/u/.local/share".to_string(),
        config_home: "/home/u/.config".to_string(),
        runtime_dir: Some("/run/user/1000".to_string()),
    }
}

fn system_dirs() -> Dirs {
    let mut opts = empty_config();
    let config = DirsConfig::load(true, None, &mut opts, &xdg()).unwrap();
    Dirs::new(config, true, "/root").unwrap()
}

fn user_dirs() -> Dirs {
    let mut opts = empty_config();
    let config = DirsConfig::load(false, None, &mut opts, &xdg()).unwrap();
    Dirs::new(config, false, "/home/u").unwrap()
}

fn no_project() -> RustDirectories {
    RustDirectories { packagedir: None, outputdir: None }
}

fn package(name: &str) -> Package {
    Package {
        name: Some(name.to_string()),
        pkg_type: Type::Default,
        exe: vec![],
        admin_exe: vec![],
        libs: vec![],
        libexec: vec![],
        includes: vec![],
        man: vec![],
        data: vec![],
        docs: vec![],
        config: vec![],
        user_config: vec![],
        desktop_files: vec![],
        appstream_metadata: vec![],
        completions: Completions { bash: vec![], elvish: vec![], fish: vec![], zsh: vec![] },
        pam_modules: vec![],
        systemd_units: vec![],
        systemd_user_units: vec![],
        icons: vec![],
        terminfo: vec![],
        licenses: vec![],
        pkg_config: vec![],
    }
}

fn file(source: &str) -> InnerEntry {
    let mut entry = InnerEntry::new_with_source(source.to_string());
    entry.is_file = true;
    entry
}

fn data_file(source: &str) -> InnerDataEntry {
    let mut entry = InnerDataEntry::new_with_source(source.to_string());
    entry.entry.is_file = true;
    entry
}

fn entry(source: &str, destination: &str, replace: bool) -> InstallEntry {
    InstallEntry {
        source: source.to_string(),
        full_source: source.to_string(),
        destination: destination.to_string(),
        templating: false,
        replace,
    }
}

fn resolve(pkg: Package, system: bool) -> Result<Vec<InstallEntry>, PackageError> {
    let dirs = if system { system_dirs() } else { user_dirs() };
    pkg.targets(&dirs, &RinstallVersion::V0_2_0, system, &no_project())
}

#[test]
fn demo_package_resolves_in_system_mode() {
    let dirs = system_dirs();
    assert_eq!(dirs.bindir, "/usr/local/bin/");
    let mut pkg = package("demo");
    pkg.exe.push(file("bin/demo"));
    pkg.config.push(data_file("demo.conf"));
    let targets = pkg
        .targets(&dirs, &RinstallVersion::V0_2_0, true, &no_project())
        .unwrap();
    assert_eq!(
        targets,
        vec![
            entry("bin/demo", "/usr/local/bin/demo", true),
            entry("demo.conf", "/usr/local/etc/demo/demo.conf", false),
        ]
    );
    assert_eq!(targets[0].destination_for_file(), "/usr/local/bin/demo");
}

#[test]
fn config_outside_the_package_directory() {
    let mut pkg = package("demo");
    let mut conf = data_file("demo.conf");
    conf.use_pkg_name = false;
    pkg.config.push(conf);
    assert_eq!(
        resolve(pkg, true).unwrap(),
        vec![entry("demo.conf", "/usr/local/etc/demo.conf", false)]
    );
}

#[test]
fn user_units_need_version_0_2_0() {
    let mut pkg = package("demo");
    pkg.exe.push(file("bin/demo"));
    pkg.systemd_user_units.push(file("demo.service"));
    let r = pkg.clone().targets(&system_dirs(), &RinstallVersion::V0_1_0, true, &no_project());
    assert_eq!(r, Err(PackageError::Version { category: Category::SystemdUserUnits }));
    assert_eq!(
        pkg.check_entries(RinstallVersion::V0_1_0),
        Err(PackageError::Version { category: Category::SystemdUserUnits })
    );
    assert_eq!(pkg.check_entries(RinstallVersion::V0_2_0), Ok(()));
    let ok = pkg.targets(&system_dirs(), &RinstallVersion::V0_2_0, true, &no_project()).unwrap();
    assert_eq!(ok[1].destination, "/usr/local/lib/systemd/user/demo.service");
}

#[test]
fn elvish_completions_need_version_0_2_0() {
    let mut pkg = package("demo");
    pkg.completions.elvish.push(file("demo.elv"));
    assert_eq!(
        pkg.check_entries(RinstallVersion::V0_1_0),
        Err(PackageError::Version { category: Category::CompletionsElvish })
    );
    assert_eq!(Category::CompletionsElvish.requirement(), ">=0.2.0");
    assert_eq!(Category::Exe.requirement(), ">=0.1.0");
    assert_eq!(Category::CompletionsElvish.name(), "completions:elvish");
    assert_eq!(Category::SystemdUserUnits.name(), "systemd-user-units");
    assert_eq!(Category::AdminExe.name(), "admin_exe");
}

#[test]
fn version_check_of_one_category() {
    assert_eq!(Category::Exe.check_version(true, RinstallVersion::V0_1_0), Ok(()));
    assert_eq!(Category::SystemdUserUnits.check_version(false, RinstallVersion::V0_1_0), Ok(()));
    assert_eq!(
        Category::SystemdUserUnits.check_version(true, RinstallVersion::V0_1_0),
        Err(PackageError::Version { category: Category::SystemdUserUnits })
    );
    assert_eq!(Category::SystemdUserUnits.check_version(true, RinstallVersion::V0_2_0), Ok(()));
}

#[test]
fn versions_and_requirements() {
    assert_eq!(RinstallVersion::parse("0.1.0"), Some(RinstallVersion::V0_1_0));
    assert_eq!(RinstallVersion::parse("0.2.0"), Some(RinstallVersion::V0_2_0));
    assert_eq!(RinstallVersion::parse("0.3.0"), None);
    assert_eq!(RinstallVersion::parse(""), None);
    assert_eq!(RinstallVersion::V0_1_0.tag(), "0.1.0");
    assert_eq!(RinstallVersion::V0_2_0.tag(), "0.2.0");
    assert_eq!(RinstallVersion::V0_2_0.version_numbers(), (0, 2, 0));
    assert!(RinstallVersion::V0_1_0.satisfies((0, 1, 0)));
    assert!(!RinstallVersion::V0_1_0.satisfies((0, 2, 0)));
    assert!(RinstallVersion::V0_2_0.satisfies((0, 2, 0)));
    assert!(RinstallVersion::V0_2_0.satisfies((0, 1, 9)));
    assert!(!RinstallVersion::V0_2_0.satisfies((0, 2, 1)));
    assert!(!RinstallVersion::V0_2_0.satisfies((1, 0, 0)));
    assert_eq!(Category::SystemdUserUnits.minimum_version(), (0, 2, 0));
    assert_eq!(Category::Man.minimum_version(), (0, 1, 0));
}

#[test]
fn deprecated_custom_type() {
    let mut pkg = package("demo");
    assert!(!pkg.uses_deprecated_type(RinstallVersion::V0_2_0));
    pkg.pkg_type = Type::Custom;
    assert!(pkg.uses_deprecated_type(RinstallVersion::V0_2_0));
    assert!(!pkg.uses_deprecated_type(RinstallVersion::V0_1_0));
    assert_eq!(Type::default(), Type::Default);
}

#[test]
fn plain_categories_in_system_mode() {
    let mut pkg = package("demo");
    pkg.pkg_config.push(file("demo.pc"));
    pkg.exe.push(file("target/demo"));
    pkg.libs.push(file("libdemo.so"));
    pkg.libexec.push(file("helper"));
    pkg.admin_exe.push(file("demod"));
    pkg.includes.push(file("demo.h"));
    pkg.desktop_files.push(file("demo.desktop"));
    pkg.appstream_metadata.push(file("demo.metainfo.xml"));
    pkg.systemd_units.push(file("demo.service"));
    pkg.licenses.push(data_file("LICENSE"));
    pkg.data.push(data_file("assets/logo.png"));
    pkg.docs.push(data_file("README.md"));
    pkg.user_config.push(file("demo.user.conf"));
    let targets = resolve(pkg, true).unwrap();
    let destinations: Vec<&str> = targets.iter().map(|t| t.destination.as_str()).collect();
    assert_eq!(
        destinations,
        vec![
            "/usr/local/bin/demo",
            "/usr/local/lib/libdemo.so",
            "/usr/local/libexec/helper",
            "/usr/local/sbin/demod",
            "/usr/local/include/demo.h",
            "/usr/local/share/applications/demo.desktop",
            "/usr/local/share/demo/logo.png",
            "/usr/local/share/doc/demo/README.md",
            "/usr/local/share/licenses/demo/LICENSE",
            "/usr/local/share/doc/user-config/demo.user.conf",
            "/usr/local/share/metainfo/demo.metainfo.xml",
            "/usr/local/lib/systemd/system/demo.service",
            "/usr/local/lib/pkgconfig/demo.pc",
        ]
    );
    assert!(targets.iter().all(|t| t.replace));
}

#[test]
fn user_mode_passes_over_system_only_categories() {
    let mut pkg = package("demo");
    pkg.exe.push(file("demo"));
    pkg.admin_exe.push(file("demod"));
    pkg.includes.push(file("demo.h"));
    pkg.man.push(file("demo.1"));
    pkg.docs.push(data_file("README.md"));
    pkg.appstream_metadata.push(file("demo.metainfo.xml"));
    pkg.pam_modules.push(file("libpam_demo.so"));
    pkg.systemd_units.push(file("demo.service"));
    pkg.terminfo.push(file("demo.terminfo"));
    pkg.pkg_config.push(file("demo.pc"));
    pkg.completions.fish.push(file("demo.fish"));
    pkg.completions.zsh.push(file("_demo"));
    pkg.completions.bash.push(file("demo.bash"));
    pkg.completions.elvish.push(file("demo.elv"));
    pkg.user_config.push(file("demo.user.conf"));
    let targets = resolve(pkg, false).unwrap();
    assert_eq!(
        targets,
        vec![
            entry("demo", "/home/u/.local/bin/demo", true),
            entry("demo.user.conf", "/home/u/.config/demo.user.conf", false),
            entry("demo.bash", "/home/u/.local/share/bash-completion/demo.bash", true),
            entry("demo.elv", "/home/u/.local/share/elvish/lib/demo.elv", true),
        ]
    );
}

#[test]
fn completions_in_system_mode() {
    let mut pkg = package("demo");
    pkg.completions.zsh.push(file("_demo"));
    pkg.completions.fish.push(file("demo.fish"));
    pkg.completions.elvish.push(file("demo.elv"));
    pkg.completions.bash.push(file("demo.bash"));
    let targets = resolve(pkg, true).unwrap();
    let destinations: Vec<&str> = targets.iter().map(|t| t.destination.as_str()).collect();
    assert_eq!(
        destinations,
        vec![
            "/usr/local/share/bash-completion/completions/demo.bash",
            "/usr/local/share/elvish/lib/demo.elv",
            "/usr/local/share/fish/vendor_completions.d/demo.fish",
            "/usr/local/share/zsh/site-functions/_demo",
        ]
    );
}

#[test]
fn man_pages_go_to_their_section() {
    let mut pkg = package("demo");
    pkg.man.push(file("doc/demo.1"));
    let mut renamed = file("doc/page");
    renamed.destination = Some("demo.conf.5".to_string());
    pkg.man.push(renamed);
    let targets = resolve(pkg, true).unwrap();
    assert_eq!(targets[0].destination, "/usr/local/share/man/man1/demo.1");
    assert_eq!(targets[1].destination, "/usr/local/share/man/man5/demo.conf.5");
}

#[test]
fn malformed_man_pages_are_refused() {
    let no_project = no_project();
    let dir = file("doc/");
    assert_eq!(dir.man_dir("/m/"), Err(EntryErrorKind::ManIsDirectory));
    assert_eq!(file("doc/demo").man_dir("/m/"), Err(EntryErrorKind::NoExtension));
    assert_eq!(file("doc/demo.txt").man_dir("/m/"), Err(EntryErrorKind::NotManSection));
    assert_eq!(file("doc/demo.9").man_dir("/m/"), Err(EntryErrorKind::NotManSection));
    assert_eq!(file("doc/demo.0").man_dir("/m/"), Err(EntryErrorKind::NotManSection));
    assert_eq!(file("doc/demo.").man_dir("/m/"), Err(EntryErrorKind::NotManSection));
    assert_eq!(file("doc/demo.8").man_dir("/m/"), Ok("/m/man8/".to_string()));
    let mut pkg = package("demo");
    pkg.exe.push(file("demo"));
    pkg.man.push(file("doc/demo.txt"));
    assert_eq!(
        pkg.targets(&system_dirs(), &RinstallVersion::V0_2_0, true, &no_project),
        Err(PackageError::Entry {
            category: Category::Man,
            kind: EntryErrorKind::NotManSection,
            source: "doc/demo.txt".to_string()
        })
    );
}

#[test]
fn terminfo_goes_below_its_initial() {
    let mut pkg = package("demo");
    pkg.terminfo.push(file("Xterm-demo"));
    let targets = resolve(pkg, true).unwrap();
    assert_eq!(targets[0].destination, "/usr/local/share/terminfo/x/Xterm-demo");
    assert_eq!(file("t/").terminfo_dir("/d/"), Err(EntryErrorKind::TerminfoIsDirectory));
    assert_eq!(file("..").terminfo_dir("/d/"), Err(EntryErrorKind::NoTerminfoName));
}

#[test]
fn pam_modules_lose_their_lib_prefix() {
    let mut pkg = package("demo");
    pkg.pam_modules.push(file("build/libpam_demo.so"));
    pkg.pam_modules.push(file("build/pam_other.so"));
    let mut named = file("build/libpam_named.so");
    named.destination = Some("kept.so".to_string());
    pkg.pam_modules.push(named);
    let targets = resolve(pkg, true).unwrap();
    let destinations: Vec<&str> = targets.iter().map(|t| t.destination.as_str()).collect();
    assert_eq!(
        destinations,
        vec![
            "/usr/local/lib/security/pam_demo.so",
            "/usr/local/lib/security/pam_other.so",
            "/usr/local/lib/security/kept.so",
        ]
    );
    assert_eq!(
        file("libpam_x.so").pam_adjusted().destination,
        Some("pam_x.so".to_string())
    );
    assert_eq!(file("libfoo.so").pam_adjusted().destination, None);
}

#[test]
fn icons_follow_their_metadata() {
    let pixmap = Icon::new_with_source("demo.png".to_string());
    assert!(pixmap.pixmaps);
    assert_eq!(pixmap.get_destination(), Ok("pixmaps/".to_string()));
    let themed = Icon {
        source: "demo.svg".to_string(),
        destination: None,
        icon_type: None,
        theme: None,
        dimensions: Some("scalable".to_string()),
        pixmaps: false,
        built: false,
    };
    assert_eq!(themed.get_destination(), Ok("icons/hicolor/scalable/apps/".to_string()));
    let custom = Icon {
        source: "demo.png".to_string(),
        destination: Some("other.png".to_string()),
        icon_type: Some("mimetypes".to_string()),
        theme: Some("Adwaita".to_string()),
        dimensions: Some("48x48".to_string()),
        pixmaps: false,
        built: false,
    };
    assert_eq!(
        custom.get_destination(),
        Ok("icons/Adwaita/48x48/mimetypes/other.png".to_string())
    );
    let mut unsized_icon = themed.clone();
    unsized_icon.dimensions = None;
    assert_eq!(unsized_icon.get_destination(), Err(EntryErrorKind::NoIconDimensions));

    let mut pkg = package("demo");
    pkg.icons = vec![pixmap.clone(), themed.clone(), custom.clone()];
    let system = resolve(pkg.clone(), true).unwrap();
    let destinations: Vec<&str> = system.iter().map(|t| t.destination.as_str()).collect();
    assert_eq!(
        destinations,
        vec![
            "/usr/local/share/pixmaps/",
            "/usr/local/share/icons/hicolor/scalable/apps/",
            "/usr/local/share/icons/Adwaita/48x48/mimetypes/other.png",
        ]
    );
    assert_eq!(system[0].destination_for_file(), "/usr/local/share/pixmaps/demo.png");
    let user = resolve(pkg.clone(), false).unwrap();
    assert_eq!(user.len(), 2);
    assert_eq!(user[0].destination, "/home/u/.local/share/icons/hicolor/scalable/apps/");

    pkg.icons.push(unsized_icon);
    assert_eq!(
        resolve(pkg, true),
        Err(PackageError::Entry {
            category: Category::Icons,
            kind: EntryErrorKind::NoIconDimensions,
            source: "demo.svg".to_string()
        })
    );
}

#[test]
fn entries_must_be_relative() {
    let project = no_project();
    let absolute = file("/etc/passwd");
    assert_eq!(
        absolute.new_entry(FilesPolicy::Replace, "/usr/bin/", Type::Default, &project),
        Err(EntryErrorKind::SourceNotRelative)
    );
    let mut to_absolute = file("demo");
    to_absolute.destination = Some("/bin/demo".to_string());
    assert_eq!(
        to_absolute.new_entry(FilesPolicy::Replace, "/usr/bin/", Type::Default, &project),
        Err(EntryErrorKind::DestinationNotRelative)
    );
    assert_eq!(
        file("..").new_entry(FilesPolicy::Replace, "/usr/bin/", Type::Default, &project),
        Err(EntryErrorKind::NoFileName)
    );
    let mut pkg = package("demo");
    pkg.libs.push(file("liba.so"));
    pkg.libs.push(absolute);
    pkg.libs.push(to_absolute);
    assert_eq!(
        resolve(pkg, true),
        Err(PackageError::Entry {
            category: Category::Libs,
            kind: EntryErrorKind::SourceNotRelative,
            source: "/etc/passwd".to_string()
        })
    );
}

#[test]
fn directories_and_destinations() {
    let project = no_project();
    let dir = InnerEntry::new_with_source("assets".to_string());
    assert!(!dir.is_file && !dir.templating && dir.destination.is_none());
    let e = dir.new_entry(FilesPolicy::NoReplace, "/usr/share/demo/", Type::Default, &project).unwrap();
    assert_eq!(e.destination, "/usr/share/demo/");
    assert!(!e.replace);
    assert_eq!(e.destination_for_file(), "/usr/share/demo/assets");
    assert_eq!(
        e.destination_for_file_in_directory("assets/img/logo.png"),
        "/usr/share/demo/img/logo.png"
    );
    assert_eq!(e.checked_destination_for_file_in_directory("other/logo.png"), None);
    assert_eq!(
        e.checked_destination_for_file_in_directory("assets/a"),
        Some("/usr/share/demo/a".to_string())
    );
    let mut with_dst = file("a.txt");
    with_dst.destination = Some("sub/b.txt".to_string());
    with_dst.templating = true;
    let e = with_dst.resolve(Rule::Plain, FilesPolicy::Replace, "/d/", Type::Default, &project).unwrap();
    assert_eq!(e.destination, "/d/sub/b.txt");
    assert!(e.templating && e.replace);
    assert_eq!(e.checked_destination_for_file(), Some("/d/sub/b.txt".to_string()));
    let odd = entry("..", "/d/", true);
    assert_eq!(odd.checked_destination_for_file(), None);
    assert!(FilesPolicy::Replace.may_replace());
    assert!(!FilesPolicy::NoReplace.may_replace());
    assert!(bool_true());
    assert!(InnerDataEntry::new_with_source("x".to_string()).use_pkg_name);
}

#[test]
fn rust_projects_take_sources_from_the_output_directory() {
    let project = RustDirectories::new(Some("/src/demo".to_string()), "/src/demo/target", false, None);
    assert_eq!(project.packagedir, Some("/src/demo".to_string()));
    assert_eq!(project.outputdir, Some("/src/demo/target/release".to_string()));
    assert_eq!(
        RustDirectories::target_dir("/t", true, Some("x86_64-unknown-linux-gnu")),
        "/t/x86_64-unknown-linux-gnu/debug"
    );
    assert_eq!(
        project.output_candidate("demo"),
        Some("/src/demo/target/release/demo".to_string())
    );
    assert_eq!(project.sourcepath("demo", true), "/src/demo/target/release/demo");
    assert_eq!(project.sourcepath("README.md", false), "/src/demo/README.md");
    let none = RustDirectories::new(None, "/ignored", false, None);
    assert_eq!(none, no_project());
    assert_eq!(none.sourcepath("demo", true), "demo");
    assert_eq!(none.output_candidate("demo"), None);
    assert_eq!(DefaultProjectDirectories.sourcepath("a/b"), "a/b");
    assert_eq!(Type::Rust.sourcepath("demo", &project, true), "/src/demo/target/release/demo");
    assert_eq!(Type::Default.sourcepath("demo", &project, true), "demo");
    assert_eq!(Type::Custom.sourcepath("demo", &project, true), "demo");

    let mut pkg = package("demo");
    pkg.pkg_type = Type::Rust;
    let mut built = file("demo");
    built.built = true;
    pkg.exe.push(built);
    pkg.docs.push(data_file("README.md"));
    let targets = pkg
        .targets(&system_dirs(), &RinstallVersion::V0_2_0, true, &project)
        .unwrap();
    assert_eq!(targets[0].full_source, "/src/demo/target/release/demo");
    assert_eq!(targets[0].source, "demo");
    assert_eq!(targets[1].full_source, "/src/demo/README.md");
}

#[test]
fn selected_packages_keep_their_order_and_get_their_name() {
    let mut a = package("x");
    a.name = None;
    let mut b = package("y");
    b.name = None;
    b.exe.push(file("b"));
    let spec = InstallSpec {
        version: RinstallVersion::V0_2_0,
        packages: vec![("a".to_string(), a), ("b".to_string(), b), ("c".to_string(), package("z"))],
    };
    let all = spec.clone().packages(&[]);
    let names: Vec<Option<String>> = all.iter().map(|p| p.name.clone()).collect();
    assert_eq!(
        names,
        vec![Some("a".to_string()), Some("b".to_string()), Some("c".to_string())]
    );
    assert_eq!(all[1].exe.len(), 1);
    let some = spec.clone().packages(&["c".to_string(), "a".to_string(), "q".to_string()]);
    let names: Vec<Option<String>> = some.iter().map(|p| p.name.clone()).collect();
    assert_eq!(names, vec![Some("a".to_string()), Some("c".to_string())]);
    assert!(spec.packages(&["none".to_string()]).is_empty());
    assert!(selects(&[], "a"));
    assert!(selects(&["a".to_string()], "a"));
    assert!(!selects(&["ab".to_string()], "a"));
}

#[test]
fn manifest_is_looked_for_in_two_places() {
    assert_eq!(InstallSpec::locate("/p", true, true), Ok("/p/install.yml".to_string()));
    assert_eq!(InstallSpec::locate("/p", true, false), Ok("/p/install.yml".to_string()));
    assert_eq!(
        InstallSpec::locate("/p", false, true),
        Ok("/p/.package/install.yml".to_string())
    );
    assert_eq!(InstallSpec::locate("/p", false, false), Err(SpecError::NotFound));
}

#[test]
fn simple_entries_are_sanitized() {
    let plain = Install { source: "bin/demo".to_string(), destination: None };
    assert_eq!(
        plain.sanitize("/usr/bin", Some("/src")),
        Ok(Install {
            source: "/src/bin/demo".to_string(),
            destination: Some("/usr/bin/demo".to_string())
        })
    );
    let renamed = Install { source: "demo".to_string(), destination: Some("d/e".to_string()) };
    assert_eq!(
        renamed.sanitize("/usr/bin/", None),
        Ok(Install { source: "demo".to_string(), destination: Some("/usr/bin/d/e".to_string()) })
    );
    let absolute = Install { source: "/demo".to_string(), destination: None };
    assert_eq!(absolute.sanitize("/usr/bin/", None), Err(EntryErrorKind::SourceNotRelative));
    let to_absolute = Install { source: "/demo".to_string(), destination: Some("/x".to_string()) };
    assert_eq!(to_absolute.sanitize("/usr/bin/", None), Err(EntryErrorKind::DestinationNotRelative));
    let nameless = Install { source: "..".to_string(), destination: None };
    assert_eq!(nameless.sanitize("/usr/bin/", None), Err(EntryErrorKind::NoFileName));
}

#[test]
fn sources_are_installed_by_what_they_are() {
    let e = entry("assets", "/usr/share/demo/", true);
    assert_eq!(e.plan(SourceKind::File), Ok(SourcePlan::OneFile));
    assert_eq!(e.plan(SourceKind::Directory), Ok(SourcePlan::EveryFileBelow));
    assert_eq!(e.plan(SourceKind::Missing), Err(SourceError::Missing));
    assert_eq!(e.plan(SourceKind::Other), Err(SourceError::NotFileNorDirectory));
    let mut below = entry("assets", "/usr/share/demo/", true);
    below.full_source = "/src/demo/assets".to_string();
    assert_eq!(
        below.source_for_file_in_directory("/src/demo/assets/img/logo.png"),
        Some("assets/img/logo.png".to_string())
    );
    assert_eq!(below.source_for_file_in_directory("/elsewhere/logo.png"), None);
}

#[test]
fn a_manifest_lists_no_name_twice() {
    let twice = vec![
        ("a".to_string(), package("a")),
        ("b".to_string(), package("b")),
        ("a".to_string(), package("c")),
    ];
    assert_eq!(InstallSpec::new(RinstallVersion::V0_1_0, twice), None);
    let once = vec![("a".to_string(), package("a")), ("b".to_string(), package("b"))];
    let spec = InstallSpec::new(RinstallVersion::V0_1_0, once.clone()).unwrap();
    assert_eq!(spec.version, RinstallVersion::V0_1_0);
    assert_eq!(spec.packages, once);
    assert!(InstallSpec::new(RinstallVersion::V0_2_0, vec![]).is_some());
}

#[test]
fn target_directory_comes_from_cargo_or_the_environment() {
    assert_eq!(RustDirectories::target_source(false, true, false), TargetSource::Metadata);
    assert_eq!(RustDirectories::target_source(false, false, true), TargetSource::Metadata);
    assert_eq!(RustDirectories::target_source(true, false, true), TargetSource::Metadata);
    assert_eq!(RustDirectories::target_source(true, true, true), TargetSource::Environment);
    assert_eq!(RustDirectories::target_source(true, false, false), TargetSource::Environment);
    let metadata = "{\"packages\": [], \"target_directory\": \"/src/demo/target\"}";
    assert_eq!(
        RustDirectories::target_base(TargetSource::Metadata, "/env", metadata),
        Ok("/src/demo/target".to_string())
    );
    assert_eq!(
        RustDirectories::target_base(TargetSource::Environment, "/env", metadata),
        Ok("/env".to_string())
    );
    assert_eq!(
        RustDirectories::target_base(TargetSource::Metadata, "/env", "not json"),
        Err(ProjectError::BadMetadata)
    );
    assert_eq!(
        RustDirectories::target_base(TargetSource::Metadata, "/env", "{}"),
        Ok("null".to_string())
    );
}
