//! Manifest compilation.

use rinstall::entry::{CompileError, Icon, InstallEntry, InstallTarget};
use rinstall::package::{Dirs, Package, Type};
use rinstall::project::Project;
use rinstall::version::Version;

fn system_dirs() -> Dirs {
    Dirs {
        bindir: "/usr/local/bin".to_string(),
        sbindir: Some("/usr/local/sbin".to_string()),
        libdir: "/usr/local/lib".to_string(),
        libexecdir: "/usr/local/libexec".to_string(),
        datarootdir: "/usr/local/share".to_string(),
        datadir: "/usr/local/share".to_string(),
        sysconfdir: "/usr/local/etc".to_string(),
        localstatedir: "/usr/local/var".to_string(),
        runstatedir: Some("/usr/local/var/run".to_string()),
        includedir: Some("/usr/local/include".to_string()),
        docdir: Some("/usr/local/share/doc".to_string()),
        mandir: Some("/usr/local/share/man".to_string()),
        pam_modulesdir: Some("/usr/local/lib/security".to_string()),
        systemd_unitsdir: "/usr/local/lib/systemd".to_string(),
    }
}

fn user_dirs() -> Dirs {
    Dirs {
        bindir: "/home/u/.local/bin".to_string(),
        sbindir: None,
        libdir: "/home/u/.local/lib".to_string(),
        libexecdir: "/home/u/.local/libexec".to_string(),
        datarootdir: "/home/u/.local/share".to_string(),
        datadir: "/home/u/.local/share".to_string(),
        sysconfdir: "/home/u/.config".to_string(),
        localstatedir: "/home/u/.local/share".to_string(),
        runstatedir: Some("/run/user/1000".to_string()),
        includedir: None,
        docdir: None,
        mandir: None,
        pam_modulesdir: None,
        systemd_unitsdir: "/home/u/.config/systemd".to_string(),
    }
}

fn project() -> Project {
    Project {
        outputdir: "/build/out".to_string(),
        projectdir: "/src/proj".to_string(),
    }
}

fn entry(source: &str) -> InstallEntry {
    InstallEntry {
        source: source.to_string(),
        destination: None,
        templating: false,
    }
}

fn entry_to(source: &str, destination: &str) -> InstallEntry {
    InstallEntry {
        source: source.to_string(),
        destination: Some(destination.to_string()),
        templating: false,
    }
}

fn pkg(name: &str) -> Package {
    Package::new(Some(name.to_string()), Type::Default)
}

fn v010() -> Version {
    Version::release(0, 1, 0)
}

fn compile(p: Package, dirs: &Dirs, system: bool) -> Vec<InstallTarget> {
    match p.targets(dirs, project(), &v010(), system) {
        Ok(ts) => ts,
        Err(_) => panic!("compilation failed unexpectedly"),
    }
}

fn compile_err(p: Package, dirs: &Dirs, system: bool) -> CompileError {
    match p.targets(dirs, project(), &v010(), system) {
        Ok(_) => panic!("compilation succeeded unexpectedly"),
        Err(e) => e,
    }
}

#[test]
fn single_exe_entry_system_scope() {
    let mut p = pkg("foo");
    p.exe.push(entry("foo"));
    let ts = compile(p, &system_dirs(), true);
    assert_eq!(ts.len(), 1);
    assert_eq!(ts[0].source, "/build/out/foo");
    assert_eq!(ts[0].destination, "/usr/local/bin/foo");
    assert!(ts[0].replace);
    assert!(!ts[0].templating);
}

#[test]
fn man_entry_routes_by_section_digit() {
    let mut p = pkg("foo");
    p.man.push(entry_to("docs/foo.3", "foo.3"));
    let ts = compile(p, &system_dirs(), true);
    assert_eq!(ts.len(), 1);
    assert_eq!(ts[0].destination, "/usr/local/share/man/man3/foo.3");
    assert_eq!(ts[0].source, "/src/proj/docs/foo.3");
}

#[test]
fn man_entry_without_destination_uses_source_name() {
    let mut p = pkg("foo");
    p.man.push(entry("docs/foo.1"));
    let ts = compile(p, &system_dirs(), true);
    assert_eq!(ts[0].destination, "/usr/local/share/man/man1/foo.1");
}

#[test]
fn man_entry_with_non_digit_extension_fails() {
    let mut p = pkg("foo");
    p.man.push(entry_to("docs/foo.x", "foo.x"));
    let e = compile_err(p, &system_dirs(), true);
    match e {
        CompileError::InvalidEntry { category, source } => {
            assert_eq!(category, "man");
            assert_eq!(source, "docs/foo.x");
        }
        _ => panic!("expected an invalid-entry error"),
    }
}

#[test]
fn man_entry_directory_source_fails() {
    let mut p = pkg("foo");
    p.man.push(entry("docs/"));
    let e = compile_err(p, &system_dirs(), true);
    assert!(matches!(e, CompileError::InvalidEntry { .. }));
}

#[test]
fn terminfo_entry_lowercased_initial_bucket() {
    let mut p = pkg("foo");
    p.terminfo.push(entry("Xterm"));
    let ts = compile(p, &system_dirs(), true);
    assert_eq!(ts.len(), 1);
    assert_eq!(ts[0].destination, "/usr/local/share/terminfo/x/Xterm");
}

#[test]
fn terminfo_skipped_in_user_scope() {
    let mut p = pkg("foo");
    p.terminfo.push(entry("Xterm"));
    let ts = compile(p, &user_dirs(), false);
    assert_eq!(ts.len(), 0);
}

#[test]
fn compilation_is_deterministic() {
    let build = || {
        let mut p = pkg("foo");
        p.exe.push(entry("foo"));
        p.libs.push(entry("libfoo.so"));
        p.config.push(entry("foo.conf"));
        p.man.push(entry("foo.1"));
        p.terminfo.push(entry("Xterm"));
        p.licenses.push(entry("LICENSE"));
        p
    };
    let a = compile(build(), &system_dirs(), true);
    let b = compile(build(), &system_dirs(), true);
    assert_eq!(a.len(), b.len());
    for (x, y) in a.iter().zip(b.iter()) {
        assert_eq!(x.source, y.source);
        assert_eq!(x.destination, y.destination);
        assert_eq!(x.replace, y.replace);
        assert_eq!(x.templating, y.templating);
    }
}

#[test]
fn config_entries_are_never_replaceable() {
    let mut p = pkg("foo");
    p.exe.push(entry("foo"));
    p.config.push(entry("foo.conf"));
    let ts = compile(p, &system_dirs(), true);
    assert_eq!(ts.len(), 2);
    assert!(ts[0].replace, "exe targets may overwrite");
    assert!(!ts[1].replace, "config targets must not overwrite");
    assert_eq!(ts[1].destination, "/usr/local/etc/foo.conf");
}

#[test]
fn user_config_placement_depends_on_scope() {
    let mut p = pkg("foo");
    p.user_config.push(entry("user.conf"));
    let ts = compile(p, &system_dirs(), true);
    assert_eq!(ts.len(), 1);
    // in system scope user config is a reference copy under the docs tree
    assert_eq!(
        ts[0].destination,
        "/usr/local/share/doc/foo/user-config/user.conf"
    );
    assert!(ts[0].replace);
    let mut p = pkg("foo");
    p.user_config.push(entry("user.conf"));
    let ts = compile(p, &user_dirs(), false);
    assert_eq!(ts.len(), 1);
    assert_eq!(ts[0].destination, "/home/u/.config/user.conf");
    assert!(!ts[0].replace);
}

#[test]
fn systemd_units_below_minimum_version_fail_the_gate() {
    let mut p = pkg("foo");
    p.systemd_units.push(entry("foo.service"));
    let old = Version::release(0, 0, 9);
    match p.check_entries(&old) {
        Err(CompileError::IncompatibleCategory { category }) => {
            assert_eq!(category, "systemd-units");
        }
        _ => panic!("expected an incompatible-category error"),
    }
    // the whole compilation aborts before producing any target
    assert!(p.targets(&system_dirs(), project(), &old, true).is_err());
}

#[test]
fn user_scope_never_targets_restricted_directories() {
    let mut p = pkg("foo");
    p.exe.push(entry("foo"));
    p.admin_exe.push(entry("food"));
    p.includes.push(entry("foo.h"));
    p.man.push(entry("foo.1"));
    p.pam_modules.push(entry("libpam_foo.so"));
    p.completions.fish.push(entry("foo.fish"));
    p.completions.zsh.push(entry("_foo"));
    p.systemd_units.push(entry("foo.service"));
    p.terminfo.push(entry("Xterm"));
    p.pkg_config.push(entry("foo.pc"));
    p.appstream_metadata.push(entry("foo.metainfo.xml"));
    p.docs.push(entry("README"));
    let ts = compile(p, &user_dirs(), false);
    assert_eq!(ts.len(), 1, "only the exe entry may produce a target");
    assert_eq!(ts[0].destination, "/home/u/.local/bin/foo");
}

#[test]
fn declared_version_must_be_accepted() {
    let mut p = pkg("foo");
    p.exe.push(entry("foo"));
    let e = match p.targets(&system_dirs(), project(), &Version::release(0, 2, 0), true) {
        Ok(_) => panic!("unexpectedly accepted"),
        Err(e) => e,
    };
    assert!(matches!(e, CompileError::InvalidVersion));
}

#[test]
fn missing_package_name_is_fatal() {
    let mut p = Package::new(None, Type::Default);
    p.exe.push(entry("foo"));
    let e = compile_err(p, &system_dirs(), true);
    assert!(matches!(e, CompileError::MissingPackageName));
}

#[test]
fn icon_without_derived_destination_is_fatal() {
    let mut p = pkg("foo");
    p.icons.push(Icon {
        source: "icons/app.png".to_string(),
        pixmaps: false,
        destination: None,
    });
    let e = compile_err(p, &system_dirs(), true);
    match e {
        CompileError::IconDestination { source } => assert_eq!(source, "icons/app.png"),
        _ => panic!("expected an icon-destination error"),
    }
}

#[test]
fn pixmap_icons_excluded_from_user_installs() {
    let icon = || Icon {
        source: "icons/app.xpm".to_string(),
        pixmaps: true,
        destination: Some("pixmaps/app.xpm".to_string()),
    };
    let mut p = pkg("foo");
    p.icons.push(icon());
    assert_eq!(compile(p, &user_dirs(), false).len(), 0);
    let mut p = pkg("foo");
    p.icons.push(icon());
    let ts = compile(p, &system_dirs(), true);
    assert_eq!(ts.len(), 1);
    assert_eq!(ts[0].destination, "/usr/local/share/pixmaps/app.xpm");
    assert!(!ts[0].templating);
}

#[test]
fn pam_module_names_drop_the_library_prefix() {
    let mut p = pkg("foo");
    p.pam_modules.push(entry("libpam_foo.so"));
    p.pam_modules.push(entry("helper.so"));
    p.pam_modules.push(entry_to("custom.so", "pam_custom.so"));
    let ts = compile(p, &system_dirs(), true);
    // the prefixless entry without a destination is skipped entirely
    assert_eq!(ts.len(), 2);
    assert_eq!(ts[0].destination, "/usr/local/lib/security/pam_foo.so");
    assert_eq!(ts[0].source, "/build/out/libpam_foo.so");
    assert_eq!(ts[1].destination, "/usr/local/lib/security/pam_custom.so");
}

#[test]
fn source_tree_marker_swaps_the_base_directory() {
    let mut p = pkg("foo");
    p.exe.push(entry("$PROJECTDIR/scripts/run"));
    p.exe.push(entry("built"));
    let ts = compile(p, &system_dirs(), true);
    assert_eq!(ts.len(), 2);
    assert_eq!(ts[0].source, "/src/proj/scripts/run");
    assert_eq!(ts[0].destination, "/usr/local/bin/run");
    assert_eq!(ts[1].source, "/build/out/built");
}

#[test]
fn trailing_separator_destination_keeps_source_name() {
    let mut p = pkg("foo");
    p.exe.push(entry_to("tools/frob", "helpers/"));
    let ts = compile(p, &system_dirs(), true);
    assert_eq!(ts[0].destination, "/usr/local/bin/helpers/frob");
}

#[test]
fn completion_directories_depend_on_scope_and_shell() {
    let mut p = pkg("foo");
    p.completions.bash.push(entry("foo.bash"));
    p.completions.fish.push(entry("foo.fish"));
    p.completions.zsh.push(entry("_foo"));
    let ts = compile(p, &system_dirs(), true);
    assert_eq!(ts.len(), 3);
    assert_eq!(
        ts[0].destination,
        "/usr/local/share/bash-completion/completions/foo.bash"
    );
    assert_eq!(
        ts[1].destination,
        "/usr/local/share/fish/vendor_completions.d/foo.fish"
    );
    assert_eq!(ts[2].destination, "/usr/local/share/zsh/site-functions/_foo");
    let mut p = pkg("foo");
    p.completions.bash.push(entry("foo.bash"));
    p.completions.fish.push(entry("foo.fish"));
    let ts = compile(p, &user_dirs(), false);
    assert_eq!(ts.len(), 1, "fish completions are system-scope only");
    assert_eq!(
        ts[0].destination,
        "/home/u/.local/share/bash-completion/foo.bash"
    );
}

#[test]
fn data_docs_and_licenses_are_placed_per_package() {
    let mut p = pkg("foo");
    p.data.push(entry("assets/logo.svg"));
    p.docs.push(entry("README"));
    p.licenses.push(entry("LICENSE"));
    let ts = compile(p, &system_dirs(), true);
    assert_eq!(ts.len(), 3);
    assert_eq!(ts[0].destination, "/usr/local/share/foo/logo.svg");
    assert_eq!(ts[0].source, "/src/proj/assets/logo.svg");
    assert_eq!(ts[1].destination, "/usr/local/share/doc/foo/README");
    assert_eq!(ts[2].destination, "/usr/local/share/licenses/foo/LICENSE");
}

#[test]
fn systemd_unit_routing_by_scope() {
    let mut p = pkg("foo");
    p.systemd_units.push(entry("foo.service"));
    p.systemd_user_units.push(entry("foo-user.service"));
    let ts = compile(p, &system_dirs(), true);
    assert_eq!(ts.len(), 2);
    assert_eq!(
        ts[0].destination,
        "/usr/local/lib/systemd/system/foo.service"
    );
    assert_eq!(
        ts[1].destination,
        "/usr/local/lib/systemd/user/foo-user.service"
    );
    let mut p = pkg("foo");
    p.systemd_units.push(entry("foo.service"));
    p.systemd_user_units.push(entry("foo-user.service"));
    let ts = compile(p, &user_dirs(), false);
    assert_eq!(ts.len(), 1, "system units are skipped in a user-scope run");
    assert_eq!(
        ts[0].destination,
        "/home/u/.config/systemd/user/foo-user.service"
    );
}

#[test]
fn custom_type_deprecation_warning() {
    let p = Package::new(Some("foo".to_string()), Type::Custom);
    assert!(matches!(p.check_entries(&Version::release(0, 2, 0)), Ok(true)));
    assert!(matches!(p.check_entries(&v010()), Ok(false)));
    let q = Package::new(Some("foo".to_string()), Type::Default);
    assert!(matches!(q.check_entries(&Version::release(0, 2, 0)), Ok(false)));
}

#[test]
fn prerelease_versions_fail_the_bounds() {
    let pre = Version {
        major: 0,
        minor: 1,
        patch: 0,
        pre: true,
        build: false,
    };
    assert!(!pre.at_least(0, 1, 0));
    assert!(!pre.is(0, 1, 0));
    assert!(Version::release(0, 1, 0).at_least(0, 1, 0));
    assert!(Version::release(1, 0, 0).at_least(0, 1, 0));
    assert!(!Version::release(0, 0, 9).at_least(0, 1, 0));
}

#[test]
fn templating_flag_is_carried_over() {
    let mut p = pkg("foo");
    p.config.push(InstallEntry {
        source: "foo.conf".to_string(),
        destination: None,
        templating: true,
    });
    let ts = compile(p, &system_dirs(), true);
    assert!(ts[0].templating);
}

#[test]
fn project_output_directory_by_type() {
    let p = match Project::new_from_type(Type::Default, "/src/p".to_string(), false, None) {
        Ok(p) => p,
        Err(_) => panic!("default projects need no external resolution"),
    };
    assert_eq!(p.outputdir, "/src/p");
    let p = match Project::new_from_type(
        Type::Rust,
        "/src/p".to_string(),
        false,
        Some("target".to_string()),
    ) {
        Ok(p) => p,
        Err(_) => panic!("the target directory was supplied"),
    };
    assert_eq!(p.outputdir, "target/release");
    assert_eq!(p.projectdir, "/src/p");
    assert!(Project::new_from_type(Type::Rust, "/src/p".to_string(), false, None).is_err());
    let p = match Project::new_from_type(Type::Rust, "/src/p".to_string(), true, None) {
        Ok(p) => p,
        Err(_) => panic!("release tarballs use the source tree"),
    };
    assert_eq!(p.outputdir, "/src/p");
}

#[test]
fn absolute_destination_replaces_the_install_directory() {
    let mut p = pkg("foo");
    p.exe.push(entry_to("foo", "/opt/other/foo"));
    let ts = compile(p, &system_dirs(), true);
    assert_eq!(ts[0].destination, "/opt/other/foo");
    assert_eq!(ts[0].source, "/build/out/foo");
}

#[test]
fn libexec_and_includes_use_their_own_roots() {
    let mut p = pkg("foo");
    p.libexec.push(entry("helper"));
    p.includes.push(entry("api/foo.h"));
    let ts = compile(p, &system_dirs(), true);
    assert_eq!(ts.len(), 2);
    assert_eq!(ts[0].destination, "/usr/local/libexec/helper");
    assert_eq!(ts[0].source, "/build/out/helper");
    assert_eq!(ts[1].destination, "/usr/local/include/foo.h");
    // headers come from the source tree, not the build output
    assert_eq!(ts[1].source, "/src/proj/api/foo.h");
}

#[test]
fn desktop_and_appstream_files_land_under_the_data_root() {
    let mut p = pkg("foo");
    p.desktop_files.push(entry("foo.desktop"));
    p.appstream_metadata.push(entry("foo.metainfo.xml"));
    let ts = compile(p, &system_dirs(), true);
    assert_eq!(ts.len(), 2);
    assert_eq!(
        ts[0].destination,
        "/usr/local/share/applications/foo.desktop"
    );
    assert_eq!(ts[1].destination, "/usr/local/share/metainfo/foo.metainfo.xml");
}

#[test]
fn dirs_from_config_gates_restricted_slots_by_scope() {
    let mut c = rinstall::config::Config::new_default_root();
    c.replace_root_placeholders();
    let d = match Dirs::from_config(c, true) {
        Some(d) => d,
        None => panic!("the resolved system table fills every required slot"),
    };
    assert_eq!(d.sbindir.as_deref(), Some("/usr/local/sbin"));
    assert_eq!(d.mandir.as_deref(), Some("/usr/local/share/man"));
    let mut c = rinstall::config::Config::new_default_root();
    c.replace_root_placeholders();
    let d = match Dirs::from_config(c, false) {
        Some(d) => d,
        None => panic!("the required slots are all set"),
    };
    // a user-scope run never keeps the scope-restricted slots
    assert!(d.sbindir.is_none());
    assert!(d.includedir.is_none());
    assert!(d.docdir.is_none());
    assert!(d.mandir.is_none());
    assert!(d.pam_modulesdir.is_none());
    let mut c = rinstall::config::Config::new_default_root();
    c.bindir = None;
    assert!(Dirs::from_config(c, true).is_none());
}
