//! Directory-variable resolution.

use rinstall::config::{Config, ResolveError};

fn value(o: &Option<String>) -> &str {
    match o {
        Some(s) => s.as_str(),
        None => panic!("directory slot unexpectedly unset"),
    }
}

fn assert_no_marker(o: &Option<String>) {
    if let Some(s) = o {
        assert!(!s.contains('@'), "unresolved placeholder in {}", s);
    }
}

#[test]
fn default_root_table_resolves_completely() {
    let mut c = Config::new_default_root();
    c.replace_root_placeholders();
    assert_eq!(value(&c.prefix), "/usr/local");
    assert_eq!(value(&c.exec_prefix), "/usr/local");
    assert_eq!(value(&c.bindir), "/usr/local/bin");
    assert_eq!(value(&c.sbindir), "/usr/local/sbin");
    assert_eq!(value(&c.libdir), "/usr/local/lib");
    assert_eq!(value(&c.libexecdir), "/usr/local/libexec");
    assert_eq!(value(&c.datarootdir), "/usr/local/share");
    assert_eq!(value(&c.datadir), "/usr/local/share");
    assert_eq!(value(&c.sysconfdir), "/usr/local/etc");
    assert_eq!(value(&c.localstatedir), "/usr/local/var");
    assert_eq!(value(&c.runstatedir), "/usr/local/var/run");
    assert_eq!(value(&c.includedir), "/usr/local/include");
    assert_eq!(value(&c.docdir), "/usr/local/share/doc");
    assert_eq!(value(&c.mandir), "/usr/local/share/man");
    assert_eq!(value(&c.pam_modulesdir), "/usr/local/lib/security");
    assert_eq!(value(&c.systemd_unitsdir), "/usr/local/lib/systemd");
    assert_no_marker(&c.prefix);
    assert_no_marker(&c.exec_prefix);
    assert_no_marker(&c.bindir);
    assert_no_marker(&c.sbindir);
    assert_no_marker(&c.libdir);
    assert_no_marker(&c.libexecdir);
    assert_no_marker(&c.datarootdir);
    assert_no_marker(&c.datadir);
    assert_no_marker(&c.sysconfdir);
    assert_no_marker(&c.localstatedir);
    assert_no_marker(&c.runstatedir);
    assert_no_marker(&c.includedir);
    assert_no_marker(&c.docdir);
    assert_no_marker(&c.mandir);
    assert_no_marker(&c.pam_modulesdir);
    assert_no_marker(&c.systemd_unitsdir);
}

#[test]
fn default_user_table_resolves_completely() {
    let mut c = Config::new_default_user();
    let r = c.replace_user_placeholders(
        "/home/u/.local/share",
        "/home/u/.config",
        Some("/run/user/1000"),
    );
    assert!(r.is_ok());
    assert_eq!(value(&c.bindir), ".local/bin");
    assert_eq!(value(&c.libdir), ".local/lib");
    assert_eq!(value(&c.libexecdir), ".local/libexec");
    assert_eq!(value(&c.datarootdir), "/home/u/.local/share");
    assert_eq!(value(&c.datadir), "/home/u/.local/share");
    assert_eq!(value(&c.sysconfdir), "/home/u/.config");
    assert_eq!(value(&c.localstatedir), "/home/u/.local/share");
    assert_eq!(value(&c.runstatedir), "/run/user/1000");
    assert_eq!(value(&c.systemd_unitsdir), "/home/u/.config/systemd");
    assert!(c.sbindir.is_none());
    assert!(c.includedir.is_none());
    assert!(c.docdir.is_none());
    assert!(c.mandir.is_none());
    assert!(c.pam_modulesdir.is_none());
    assert_no_marker(&c.bindir);
    assert_no_marker(&c.datarootdir);
    assert_no_marker(&c.datadir);
    assert_no_marker(&c.sysconfdir);
    assert_no_marker(&c.localstatedir);
    assert_no_marker(&c.runstatedir);
    assert_no_marker(&c.systemd_unitsdir);
}

#[test]
fn insecure_runtime_dir_is_fatal() {
    let mut c = Config::new_default_user();
    let r = c.replace_user_placeholders("/home/u/.local/share", "/home/u/.config", None);
    assert!(matches!(r, Err(ResolveError::InsecureRuntimeDir)));
    // the slots that need the runtime directory keep their templates
    assert_eq!(value(&c.runstatedir), "@XDG_RUNTIME_DIR@");
    assert_eq!(value(&c.systemd_unitsdir), "@sysconfdir@/systemd");
    // the slots substituted before the check keep their new values
    assert_eq!(value(&c.datarootdir), "/home/u/.local/share");
}

#[test]
fn overlay_overrides_only_set_slots() {
    let mut base = Config::new_default_root();
    let mut overlay = Config::new_default_root();
    overlay.prefix = Some("/opt/thing".to_string());
    overlay.exec_prefix = None;
    overlay.bindir = None;
    overlay.sbindir = None;
    overlay.libdir = None;
    overlay.libexecdir = None;
    overlay.datarootdir = None;
    overlay.datadir = None;
    overlay.sysconfdir = None;
    overlay.localstatedir = None;
    overlay.runstatedir = None;
    overlay.includedir = None;
    overlay.docdir = None;
    overlay.mandir = None;
    overlay.pam_modulesdir = None;
    overlay.systemd_unitsdir = None;
    overlay.package_dir = None;
    base.merge_root_conf(overlay, "/cwd");
    assert_eq!(value(&base.prefix), "/opt/thing");
    assert_eq!(value(&base.exec_prefix), "@prefix@");
    assert_eq!(value(&base.package_dir), "/cwd");
    base.replace_root_placeholders();
    assert_eq!(value(&base.bindir), "/opt/thing/bin");
    assert_eq!(value(&base.mandir), "/opt/thing/share/man");
}

#[test]
fn user_overlay_never_touches_restricted_slots() {
    let mut base = Config::new_default_user();
    let mut overlay = Config::new_default_user();
    overlay.bindir = Some("bin-here".to_string());
    overlay.sbindir = Some("sbin-here".to_string());
    base.merge_user_conf(overlay, "/cwd");
    assert_eq!(value(&base.bindir), "bin-here");
    // a user-scope merge never takes scope-restricted slots from the overlay
    assert!(base.sbindir.is_none());
    assert!(base.mandir.is_none());
}
