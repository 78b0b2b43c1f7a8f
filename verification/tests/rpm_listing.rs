use rinstall::dirs::Dirs;
use rinstall::dirs_config::{DirsConfig, XdgDirs};
use rinstall::generate_rpm_files::{collect_unowned, owns, GenerateRpmFiles};

fn empty_config() -> DirsConfig {
    DirsConfig {
        prefix: None,
        exec_prefix: None,
        bindir: None,
        sbindir: None,
        libdir: None,
        libexecdir: None,
        datarootdir: None,
        datadir: None,
        sysconfdir: None,
        localstatedir: None,
        runstatedir: None,
        includedir: None,
        docdir: None,
        mandir: None,
        pam_modulesdir: None,
        systemd_unitsdir: None,
    }
}

fn xdg() -> XdgDirs {
    XdgDirs {
        data_home: "/home/u/.local/share".to_string(),
        config_home: "/home/u/.config".to_string(),
        runtime_dir: Some("/run/user/1000".to_string()),
    }
}

fn dirs(system: bool) -> Dirs {
    let mut opts = empty_config();
    let config = DirsConfig::load(system, None, &mut opts, &xdg()).unwrap();
    Dirs::new(config, system, "/home/u").unwrap()
}

#[test]
fn system_directories_are_owned() {
    let owned = GenerateRpmFiles::owned_directories(&dirs(true)).unwrap();
    assert_eq!(owned.len(), 25);
    assert_eq!(owned[0], "/usr/local/bin/");
    assert_eq!(owned[9], "/usr/local/share/man/man1");
    assert_eq!(owned[15], "/usr/local/share/man/man7");
    assert_eq!(owned[24], "/usr/local/share/fish/vendor_completions.d");
    assert!(owns(&owned, "/usr/local/bin"));
    assert!(owns(&owned, "/usr/local/share/zsh/site-functions/"));
    assert!(!owns(&owned, "/usr/local/share/man/man8"));
    assert!(!owns(&owned, "/usr/local"));
    assert_eq!(GenerateRpmFiles::owned_directories(&dirs(false)), None);
}

#[test]
fn unowned_directories_are_listed_once() {
    let mut owned = GenerateRpmFiles::owned_directories(&dirs(true)).unwrap();
    let files = vec![
        "/usr/local/bin/demo".to_string(),
        "/usr/local/share/demo/img/logo.png".to_string(),
        "/usr/local/share/demo/img/icon.png".to_string(),
        "/usr/local/share/demo/readme".to_string(),
        "/usr/local/share/man/man8/demo.8".to_string(),
    ];
    let text = GenerateRpmFiles::list(&mut owned, &files);
    assert_eq!(
        text,
        "/usr/local/bin/demo\n\
%dir /usr/local/share/demo\n\
%dir /usr/local/share/demo/img\n\
/usr/local/share/demo/img/logo.png\n\
/usr/local/share/demo/img/icon.png\n\
/usr/local/share/demo/readme\n\
%dir /usr/local/share/man/man8\n\
/usr/local/share/man/man8/demo.8\n"
    );
    assert_eq!(owned.len(), 28);
    assert_eq!(owned[25], "/usr/local/share/demo");
    assert_eq!(owned[27], "/usr/local/share/man/man8");
    assert_eq!(GenerateRpmFiles::list(&mut owned, &vec![]), "");
}

#[test]
fn ancestors_stop_at_the_root_and_at_the_limit() {
    let owned: Vec<String> = vec![];
    assert_eq!(
        collect_unowned(&owned, "/a/b/c", 6),
        vec!["/".to_string(), "/a".to_string(), "/a/b".to_string()]
    );
    assert_eq!(collect_unowned(&owned, "/a/b/c", 1), vec!["/a/b".to_string()]);
    assert_eq!(collect_unowned(&owned, "/a/b/c", 0), Vec::<String>::new());
    let owned = vec!["/a/".to_string()];
    assert_eq!(collect_unowned(&owned, "/a/b/c", 6), vec!["/a/b".to_string()]);
}
