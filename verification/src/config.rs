//! The directory-variable table and its placeholder resolver.
//!
//! A `Config` holds the run's flags and the named directory slots, first as
//! placeholder-bearing templates and, after resolution, as concrete paths.
//! The placeholders form a fixed, acyclic dependency graph; resolution is a
//! fixed sequence of literal substring replacements, one resolved variable
//! into its dependents, in an order that must not change: some defaults
//! legitimately contain another, still unresolved variable's literal text.

use vstd::pervasive::unreached;
use vstd::prelude::*;

use crate::entry::sv;
use crate::strutil::{replace, spec_replace};

verus! {

/// What the external runner was asked to do besides installing.
#[derive(Clone, Copy, PartialEq, Eq, Structural, Debug)]
pub enum SubCommand {
    Uninstall,
    GenerateRpmFiles,
}

/// Why per-user placeholder resolution failed.
#[derive(Clone, Copy, PartialEq, Eq, Structural, Debug)]
pub enum ResolveError {
    /// No runtime directory that is accessible only by the owning user was
    /// supplied.
    InsecureRuntimeDir,
}

/// Whether the optional string holds exactly the given characters.
pub open spec fn ois(o: Option<String>, s: Seq<char>) -> bool {
    o matches Some(x) && x@ == s
}

pub struct Config {
    pub config: Option<String>,
    pub system: bool,
    pub accept_changes: bool,
    pub force: bool,
    pub update_config: bool,
    pub package_dir: Option<String>,
    pub packages: Vec<String>,
    pub disable_uninstall: bool,
    pub destdir: Option<String>,
    pub prefix: Option<String>,
    pub exec_prefix: Option<String>,
    pub bindir: Option<String>,
    pub sbindir: Option<String>,
    pub libdir: Option<String>,
    pub libexecdir: Option<String>,
    pub datarootdir: Option<String>,
    pub datadir: Option<String>,
    pub sysconfdir: Option<String>,
    pub localstatedir: Option<String>,
    pub runstatedir: Option<String>,
    pub includedir: Option<String>,
    pub docdir: Option<String>,
    pub mandir: Option<String>,
    pub pam_modulesdir: Option<String>,
    pub systemd_unitsdir: Option<String>,
    pub rust_debug_target: bool,
    pub subcmd: Option<SubCommand>,
}

/// Takes the overlay's value when it sets one, else keeps the default.
fn merge_opt(update: &mut Option<String>, other: Option<String>)
    ensures
        *final(update) == (if other is Some {
            other
        } else {
            *old(update)
        }),
{
    if other.is_some() {
        *update = other;
    }
}

/// The borrowed content of an optional string that is known to be set.
fn opt_str<'a>(o: &'a Option<String>) -> (r: &'a str)
    requires
        o is Some,
    ensures
        r@ == sv(*o),
{
    match o {
        Some(s) => s.as_str(),
        None => unreached(),
    }
}

// The resolved value of each directory slot of a system-scope table, as a
// function of the table before resolution. The passes run in dependency
// order: prefix into everything, then exec_prefix, localstatedir,
// datarootdir and libdir — each already resolved — into their dependents.
pub open spec fn resolved_exec_prefix(c: Config) -> Seq<char> {
    spec_replace(sv(c.exec_prefix), "@prefix@"@, sv(c.prefix))
}

pub open spec fn resolved_bindir(c: Config) -> Seq<char> {
    spec_replace(
        spec_replace(sv(c.bindir), "@prefix@"@, sv(c.prefix)),
        "@exec_prefix@"@,
        resolved_exec_prefix(c),
    )
}

pub open spec fn resolved_sbindir(c: Config) -> Seq<char> {
    spec_replace(
        spec_replace(sv(c.sbindir), "@prefix@"@, sv(c.prefix)),
        "@exec_prefix@"@,
        resolved_exec_prefix(c),
    )
}

pub open spec fn resolved_libdir(c: Config) -> Seq<char> {
    spec_replace(
        spec_replace(sv(c.libdir), "@prefix@"@, sv(c.prefix)),
        "@exec_prefix@"@,
        resolved_exec_prefix(c),
    )
}

pub open spec fn resolved_libexecdir(c: Config) -> Seq<char> {
    spec_replace(
        spec_replace(sv(c.libexecdir), "@prefix@"@, sv(c.prefix)),
        "@exec_prefix@"@,
        resolved_exec_prefix(c),
    )
}

pub open spec fn resolved_datarootdir(c: Config) -> Seq<char> {
    spec_replace(sv(c.datarootdir), "@prefix@"@, sv(c.prefix))
}

pub open spec fn resolved_datadir(c: Config) -> Seq<char> {
    spec_replace(sv(c.datadir), "@prefix@"@, sv(c.prefix))
}

pub open spec fn resolved_sysconfdir(c: Config) -> Seq<char> {
    spec_replace(sv(c.sysconfdir), "@prefix@"@, sv(c.prefix))
}

pub open spec fn resolved_localstatedir(c: Config) -> Seq<char> {
    spec_replace(sv(c.localstatedir), "@prefix@"@, sv(c.prefix))
}

pub open spec fn resolved_runstatedir(c: Config) -> Seq<char> {
    spec_replace(
        spec_replace(sv(c.runstatedir), "@prefix@"@, sv(c.prefix)),
        "@localstatedir@"@,
        resolved_localstatedir(c),
    )
}

pub open spec fn resolved_includedir(c: Config) -> Seq<char> {
    spec_replace(sv(c.includedir), "@prefix@"@, sv(c.prefix))
}

pub open spec fn resolved_docdir(c: Config) -> Seq<char> {
    spec_replace(
        spec_replace(sv(c.docdir), "@prefix@"@, sv(c.prefix)),
        "@datarootdir@"@,
        resolved_datarootdir(c),
    )
}

pub open spec fn resolved_mandir(c: Config) -> Seq<char> {
    spec_replace(
        spec_replace(sv(c.mandir), "@prefix@"@, sv(c.prefix)),
        "@datarootdir@"@,
        resolved_datarootdir(c),
    )
}

pub open spec fn resolved_pam_modulesdir(c: Config) -> Seq<char> {
    spec_replace(
        spec_replace(sv(c.pam_modulesdir), "@prefix@"@, sv(c.prefix)),
        "@libdir@"@,
        resolved_libdir(c),
    )
}

pub open spec fn resolved_systemd_unitsdir(c: Config) -> Seq<char> {
    spec_replace(
        spec_replace(sv(c.systemd_unitsdir), "@prefix@"@, sv(c.prefix)),
        "@libdir@"@,
        resolved_libdir(c),
    )
}

// The resolved value of each directory slot of a user-scope table, given the
// externally supplied base directories.
pub open spec fn user_resolved_datarootdir(c: Config, data_home: Seq<char>) -> Seq<char> {
    spec_replace(sv(c.datarootdir), "@XDG_DATA_HOME@"@, data_home)
}

pub open spec fn user_resolved_datadir(c: Config, data_home: Seq<char>) -> Seq<char> {
    spec_replace(sv(c.datadir), "@XDG_DATA_HOME@"@, data_home)
}

pub open spec fn user_resolved_sysconfdir(c: Config, config_home: Seq<char>) -> Seq<char> {
    spec_replace(sv(c.sysconfdir), "@XDG_CONFIG_HOME@"@, config_home)
}

pub open spec fn user_resolved_localstatedir(c: Config, data_home: Seq<char>) -> Seq<char> {
    spec_replace(sv(c.localstatedir), "@XDG_DATA_HOME@"@, data_home)
}

pub open spec fn user_resolved_runstatedir(c: Config, runtime_dir: Seq<char>) -> Seq<char> {
    spec_replace(sv(c.runstatedir), "@XDG_RUNTIME_DIR@"@, runtime_dir)
}

pub open spec fn user_resolved_systemd_unitsdir(c: Config, config_home: Seq<char>) -> Seq<char> {
    spec_replace(
        spec_replace(sv(c.systemd_unitsdir), "@XDG_CONFIG_HOME@"@, config_home),
        "@sysconfdir@"@,
        config_home,
    )
}

impl Config {
    /// The fixed default table for a system-wide installation.
    pub fn new_default_root() -> (r: Config)
        ensures
            r.config is None,
            r.system == true,
            r.accept_changes == false,
            r.force == false,
            r.update_config == false,
            r.package_dir is None,
            r.packages@.len() == 0,
            r.disable_uninstall == false,
            r.destdir is None,
            ois(r.prefix, "/usr/local"@),
            ois(r.exec_prefix, "@prefix@"@),
            ois(r.bindir, "@exec_prefix@/bin"@),
            ois(r.sbindir, "@exec_prefix@/sbin"@),
            ois(r.libdir, "@exec_prefix@/lib"@),
            ois(r.libexecdir, "@exec_prefix@/libexec"@),
            ois(r.datarootdir, "@prefix@/share"@),
            ois(r.datadir, "@prefix@/share"@),
            ois(r.sysconfdir, "@prefix@/etc"@),
            ois(r.localstatedir, "@prefix@/var"@),
            ois(r.runstatedir, "@localstatedir@/run"@),
            ois(r.includedir, "@prefix@/include"@),
            ois(r.docdir, "@datarootdir@/doc"@),
            ois(r.mandir, "@datarootdir@/man"@),
            ois(r.pam_modulesdir, "@libdir@/security"@),
            ois(r.systemd_unitsdir, "@libdir@/systemd"@),
            r.rust_debug_target == false,
            r.subcmd is None,
    {
        Config {
            config: None,
            system: true,
            accept_changes: false,
            force: false,
            update_config: false,
            package_dir: None,
            packages: Vec::new(),
            disable_uninstall: false,
            destdir: None,
            prefix: Some("/usr/local".to_owned()),
            exec_prefix: Some("@prefix@".to_owned()),
            bindir: Some("@exec_prefix@/bin".to_owned()),
            sbindir: Some("@exec_prefix@/sbin".to_owned()),
            libdir: Some("@exec_prefix@/lib".to_owned()),
            libexecdir: Some("@exec_prefix@/libexec".to_owned()),
            datarootdir: Some("@prefix@/share".to_owned()),
            datadir: Some("@prefix@/share".to_owned()),
            sysconfdir: Some("@prefix@/etc".to_owned()),
            localstatedir: Some("@prefix@/var".to_owned()),
            runstatedir: Some("@localstatedir@/run".to_owned()),
            includedir: Some("@prefix@/include".to_owned()),
            docdir: Some("@datarootdir@/doc".to_owned()),
            mandir: Some("@datarootdir@/man".to_owned()),
            pam_modulesdir: Some("@libdir@/security".to_owned()),
            systemd_unitsdir: Some("@libdir@/systemd".to_owned()),
            rust_debug_target: false,
            subcmd: None,
        }
    }

    /// The fixed default table for a per-user installation. Scope-restricted
    /// slots (sbin, include, doc, man, PAM modules) are unset; XDG-family
    /// placeholders stand for externally supplied base directories.
    pub fn new_default_user() -> (r: Config)
        ensures
            r.config is None,
            r.system == false,
            r.accept_changes == false,
            r.force == false,
            r.update_config == false,
            r.package_dir is None,
            r.packages@.len() == 0,
            r.disable_uninstall == false,
            r.destdir is None,
            r.prefix is None,
            r.exec_prefix is None,
            ois(r.bindir, ".local/bin"@),
            r.sbindir is None,
            ois(r.libdir, ".local/lib"@),
            ois(r.libexecdir, ".local/libexec"@),
            ois(r.datarootdir, "@XDG_DATA_HOME@"@),
            ois(r.datadir, "@XDG_DATA_HOME@"@),
            ois(r.sysconfdir, "@XDG_CONFIG_HOME@"@),
            ois(r.localstatedir, "@XDG_DATA_HOME@"@),
            ois(r.runstatedir, "@XDG_RUNTIME_DIR@"@),
            r.includedir is None,
            r.docdir is None,
            r.mandir is None,
            r.pam_modulesdir is None,
            ois(r.systemd_unitsdir, "@sysconfdir@/systemd"@),
            r.rust_debug_target == false,
            r.subcmd is None,
    {
        Config {
            config: None,
            system: false,
            accept_changes: false,
            force: false,
            update_config: false,
            package_dir: None,
            packages: Vec::new(),
            disable_uninstall: false,
            destdir: None,
            prefix: None,
            exec_prefix: None,
            bindir: Some(".local/bin".to_owned()),
            sbindir: None,
            libdir: Some(".local/lib".to_owned()),
            libexecdir: Some(".local/libexec".to_owned()),
            datarootdir: Some("@XDG_DATA_HOME@".to_owned()),
            datadir: Some("@XDG_DATA_HOME@".to_owned()),
            sysconfdir: Some("@XDG_CONFIG_HOME@".to_owned()),
            localstatedir: Some("@XDG_DATA_HOME@".to_owned()),
            runstatedir: Some("@XDG_RUNTIME_DIR@".to_owned()),
            includedir: None,
            docdir: None,
            mandir: None,
            pam_modulesdir: None,
            systemd_unitsdir: Some("@sysconfdir@/systemd".to_owned()),
            rust_debug_target: false,
            subcmd: None,
        }
    }

    /// Overlays an externally loaded configuration on a system-scope table:
    /// run flags are taken as given, the package directory falls back to the
    /// supplied current directory, and every directory slot the overlay sets
    /// replaces the default.
    #[verifier::rlimit(100)]
    pub fn merge_root_conf(&mut self, config: Config, current_dir: &str)
        ensures
            final(self).config == config.config,
            final(self).system == config.system,
            final(self).accept_changes == config.accept_changes,
            final(self).force == config.force,
            final(self).update_config == config.update_config,
            final(self).package_dir matches Some(p) && p@ == (match config.package_dir {
                Some(q) => q@,
                None => current_dir@,
            }),
            final(self).packages == config.packages,
            final(self).disable_uninstall == config.disable_uninstall,
            final(self).destdir == config.destdir,
            final(self).rust_debug_target == config.rust_debug_target,
            final(self).subcmd == config.subcmd,
            final(self).prefix == (if config.prefix is Some {
                config.prefix
            } else {
                old(self).prefix
            }),
            final(self).exec_prefix == (if config.exec_prefix is Some {
                config.exec_prefix
            } else {
                old(self).exec_prefix
            }),
            final(self).bindir == (if config.bindir is Some {
                config.bindir
            } else {
                old(self).bindir
            }),
            final(self).sbindir == (if config.sbindir is Some {
                config.sbindir
            } else {
                old(self).sbindir
            }),
            final(self).libdir == (if config.libdir is Some {
                config.libdir
            } else {
                old(self).libdir
            }),
            final(self).libexecdir == (if config.libexecdir is Some {
                config.libexecdir
            } else {
                old(self).libexecdir
            }),
            final(self).datarootdir == (if config.datarootdir is Some {
                config.datarootdir
            } else {
                old(self).datarootdir
            }),
            final(self).datadir == (if config.datadir is Some {
                config.datadir
            } else {
                old(self).datadir
            }),
            final(self).sysconfdir == (if config.sysconfdir is Some {
                config.sysconfdir
            } else {
                old(self).sysconfdir
            }),
            final(self).localstatedir == (if config.localstatedir is Some {
                config.localstatedir
            } else {
                old(self).localstatedir
            }),
            final(self).runstatedir == (if config.runstatedir is Some {
                config.runstatedir
            } else {
                old(self).runstatedir
            }),
            final(self).includedir == (if config.includedir is Some {
                config.includedir
            } else {
                old(self).includedir
            }),
            final(self).docdir == (if config.docdir is Some {
                config.docdir
            } else {
                old(self).docdir
            }),
            final(self).mandir == (if config.mandir is Some {
                config.mandir
            } else {
                old(self).mandir
            }),
            final(self).pam_modulesdir == (if config.pam_modulesdir is Some {
                config.pam_modulesdir
            } else {
                old(self).pam_modulesdir
            }),
            final(self).systemd_unitsdir == (if config.systemd_unitsdir is Some {
                config.systemd_unitsdir
            } else {
                old(self).systemd_unitsdir
            }),
    {
        self.config = config.config;
        self.system = config.system;
        self.accept_changes = config.accept_changes;
        self.force = config.force;
        self.update_config = config.update_config;
        self.package_dir = Some(
            match config.package_dir {
                Some(p) => p,
                None => current_dir.to_owned(),
            },
        );
        self.packages = config.packages;
        self.disable_uninstall = config.disable_uninstall;
        self.destdir = config.destdir;
        self.rust_debug_target = config.rust_debug_target;
        self.subcmd = config.subcmd;
        merge_opt(&mut self.prefix, config.prefix);
        merge_opt(&mut self.exec_prefix, config.exec_prefix);
        merge_opt(&mut self.bindir, config.bindir);
        merge_opt(&mut self.sbindir, config.sbindir);
        merge_opt(&mut self.libdir, config.libdir);
        merge_opt(&mut self.libexecdir, config.libexecdir);
        merge_opt(&mut self.datarootdir, config.datarootdir);
        merge_opt(&mut self.datadir, config.datadir);
        merge_opt(&mut self.sysconfdir, config.sysconfdir);
        merge_opt(&mut self.localstatedir, config.localstatedir);
        merge_opt(&mut self.runstatedir, config.runstatedir);
        merge_opt(&mut self.includedir, config.includedir);
        merge_opt(&mut self.docdir, config.docdir);
        merge_opt(&mut self.mandir, config.mandir);
        merge_opt(&mut self.pam_modulesdir, config.pam_modulesdir);
        merge_opt(&mut self.systemd_unitsdir, config.systemd_unitsdir);
    }

    /// Overlays an externally loaded configuration on a user-scope table.
    /// Scope-restricted slots are never taken from the overlay.
    #[verifier::rlimit(100)]
    pub fn merge_user_conf(&mut self, config: Config, current_dir: &str)
        ensures
            final(self).config == config.config,
            final(self).system == config.system,
            final(self).accept_changes == config.accept_changes,
            final(self).force == config.force,
            final(self).update_config == config.update_config,
            final(self).package_dir matches Some(p) && p@ == (match config.package_dir {
                Some(q) => q@,
                None => current_dir@,
            }),
            final(self).packages == config.packages,
            final(self).disable_uninstall == config.disable_uninstall,
            final(self).destdir == config.destdir,
            final(self).rust_debug_target == config.rust_debug_target,
            final(self).subcmd == config.subcmd,
            final(self).prefix == old(self).prefix,
            final(self).exec_prefix == old(self).exec_prefix,
            final(self).sbindir == old(self).sbindir,
            final(self).includedir == old(self).includedir,
            final(self).docdir == old(self).docdir,
            final(self).mandir == old(self).mandir,
            final(self).pam_modulesdir == old(self).pam_modulesdir,
            final(self).bindir == (if config.bindir is Some {
                config.bindir
            } else {
                old(self).bindir
            }),
            final(self).libdir == (if config.libdir is Some {
                config.libdir
            } else {
                old(self).libdir
            }),
            final(self).libexecdir == (if config.libexecdir is Some {
                config.libexecdir
            } else {
                old(self).libexecdir
            }),
            final(self).datarootdir == (if config.datarootdir is Some {
                config.datarootdir
            } else {
                old(self).datarootdir
            }),
            final(self).datadir == (if config.datadir is Some {
                config.datadir
            } else {
                old(self).datadir
            }),
            final(self).sysconfdir == (if config.sysconfdir is Some {
                config.sysconfdir
            } else {
                old(self).sysconfdir
            }),
            final(self).localstatedir == (if config.localstatedir is Some {
                config.localstatedir
            } else {
                old(self).localstatedir
            }),
            final(self).runstatedir == (if config.runstatedir is Some {
                config.runstatedir
            } else {
                old(self).runstatedir
            }),
            final(self).systemd_unitsdir == (if config.systemd_unitsdir is Some {
                config.systemd_unitsdir
            } else {
                old(self).systemd_unitsdir
            }),
    {
        self.config = config.config;
        self.system = config.system;
        self.accept_changes = config.accept_changes;
        self.force = config.force;
        self.update_config = config.update_config;
        self.package_dir = Some(
            match config.package_dir {
                Some(p) => p,
                None => current_dir.to_owned(),
            },
        );
        self.packages = config.packages;
        self.disable_uninstall = config.disable_uninstall;
        self.destdir = config.destdir;
        self.rust_debug_target = config.rust_debug_target;
        self.subcmd = config.subcmd;
        merge_opt(&mut self.bindir, config.bindir);
        merge_opt(&mut self.libdir, config.libdir);
        merge_opt(&mut self.libexecdir, config.libexecdir);
        merge_opt(&mut self.datarootdir, config.datarootdir);
        merge_opt(&mut self.datadir, config.datadir);
        merge_opt(&mut self.sysconfdir, config.sysconfdir);
        merge_opt(&mut self.localstatedir, config.localstatedir);
        merge_opt(&mut self.runstatedir, config.runstatedir);
        merge_opt(&mut self.systemd_unitsdir, config.systemd_unitsdir);
    }

    /// Resolves a system-scope table: every placeholder is substituted in the
    /// fixed dependency order, so that each populated slot becomes the value
    /// the `resolved_*` functions state.
    #[verifier::rlimit(100)]
    pub fn replace_root_placeholders(&mut self)
        requires
            old(self).prefix is Some,
            old(self).exec_prefix is Some,
            old(self).bindir is Some,
            old(self).sbindir is Some,
            old(self).libdir is Some,
            old(self).libexecdir is Some,
            old(self).datarootdir is Some,
            old(self).datadir is Some,
            old(self).sysconfdir is Some,
            old(self).localstatedir is Some,
            old(self).runstatedir is Some,
            old(self).includedir is Some,
            old(self).docdir is Some,
            old(self).mandir is Some,
            old(self).pam_modulesdir is Some,
            old(self).systemd_unitsdir is Some,
        ensures
            final(self).prefix == old(self).prefix,
            ois(final(self).exec_prefix, resolved_exec_prefix(*old(self))),
            ois(final(self).bindir, resolved_bindir(*old(self))),
            ois(final(self).sbindir, resolved_sbindir(*old(self))),
            ois(final(self).libdir, resolved_libdir(*old(self))),
            ois(final(self).libexecdir, resolved_libexecdir(*old(self))),
            ois(final(self).datarootdir, resolved_datarootdir(*old(self))),
            ois(final(self).datadir, resolved_datadir(*old(self))),
            ois(final(self).sysconfdir, resolved_sysconfdir(*old(self))),
            ois(final(self).localstatedir, resolved_localstatedir(*old(self))),
            ois(final(self).runstatedir, resolved_runstatedir(*old(self))),
            ois(final(self).includedir, resolved_includedir(*old(self))),
            ois(final(self).docdir, resolved_docdir(*old(self))),
            ois(final(self).mandir, resolved_mandir(*old(self))),
            ois(final(self).pam_modulesdir, resolved_pam_modulesdir(*old(self))),
            ois(final(self).systemd_unitsdir, resolved_systemd_unitsdir(*old(self))),
            final(self).config == old(self).config,
            final(self).system == old(self).system,
            final(self).accept_changes == old(self).accept_changes,
            final(self).force == old(self).force,
            final(self).update_config == old(self).update_config,
            final(self).package_dir == old(self).package_dir,
            final(self).packages == old(self).packages,
            final(self).disable_uninstall == old(self).disable_uninstall,
            final(self).destdir == old(self).destdir,
            final(self).rust_debug_target == old(self).rust_debug_target,
            final(self).subcmd == old(self).subcmd,
    {
        proof {
            reveal_strlit("@prefix@");
            reveal_strlit("@exec_prefix@");
            reveal_strlit("@localstatedir@");
            reveal_strlit("@datarootdir@");
            reveal_strlit("@libdir@");
        }
        self.exec_prefix = Some(
            replace(opt_str(&self.exec_prefix), "@prefix@", opt_str(&self.prefix)),
        );
        self.bindir = Some(replace(opt_str(&self.bindir), "@prefix@", opt_str(&self.prefix)));
        self.sbindir = Some(replace(opt_str(&self.sbindir), "@prefix@", opt_str(&self.prefix)));
        self.libdir = Some(replace(opt_str(&self.libdir), "@prefix@", opt_str(&self.prefix)));
        self.libexecdir = Some(
            replace(opt_str(&self.libexecdir), "@prefix@", opt_str(&self.prefix)),
        );
        self.datadir = Some(replace(opt_str(&self.datadir), "@prefix@", opt_str(&self.prefix)));
        self.datarootdir = Some(
            replace(opt_str(&self.datarootdir), "@prefix@", opt_str(&self.prefix)),
        );
        self.sysconfdir = Some(
            replace(opt_str(&self.sysconfdir), "@prefix@", opt_str(&self.prefix)),
        );
        self.localstatedir = Some(
            replace(opt_str(&self.localstatedir), "@prefix@", opt_str(&self.prefix)),
        );
        self.runstatedir = Some(
            replace(opt_str(&self.runstatedir), "@prefix@", opt_str(&self.prefix)),
        );
        self.includedir = Some(
            replace(opt_str(&self.includedir), "@prefix@", opt_str(&self.prefix)),
        );
        self.docdir = Some(replace(opt_str(&self.docdir), "@prefix@", opt_str(&self.prefix)));
        self.mandir = Some(replace(opt_str(&self.mandir), "@prefix@", opt_str(&self.prefix)));
        self.pam_modulesdir = Some(
            replace(opt_str(&self.pam_modulesdir), "@prefix@", opt_str(&self.prefix)),
        );
        self.systemd_unitsdir = Some(
            replace(opt_str(&self.systemd_unitsdir), "@prefix@", opt_str(&self.prefix)),
        );
        self.bindir = Some(
            replace(opt_str(&self.bindir), "@exec_prefix@", opt_str(&self.exec_prefix)),
        );
        self.sbindir = Some(
            replace(opt_str(&self.sbindir), "@exec_prefix@", opt_str(&self.exec_prefix)),
        );
        self.libdir = Some(
            replace(opt_str(&self.libdir), "@exec_prefix@", opt_str(&self.exec_prefix)),
        );
        self.libexecdir = Some(
            replace(opt_str(&self.libexecdir), "@exec_prefix@", opt_str(&self.exec_prefix)),
        );
        self.runstatedir = Some(
            replace(opt_str(&self.runstatedir), "@localstatedir@", opt_str(&self.localstatedir)),
        );
        self.docdir = Some(
            replace(opt_str(&self.docdir), "@datarootdir@", opt_str(&self.datarootdir)),
        );
        self.mandir = Some(
            replace(opt_str(&self.mandir), "@datarootdir@", opt_str(&self.datarootdir)),
        );
        self.pam_modulesdir = Some(
            replace(opt_str(&self.pam_modulesdir), "@libdir@", opt_str(&self.libdir)),
        );
        self.systemd_unitsdir = Some(
            replace(opt_str(&self.systemd_unitsdir), "@libdir@", opt_str(&self.libdir)),
        );
    }

    /// Resolves a user-scope table against the externally supplied base
    /// directories. A missing runtime directory — none was found, or the one
    /// found is not accessible only by the owning user — is a fatal error;
    /// the slots substituted before the runtime directory is needed keep
    /// their new values even then.
    pub fn replace_user_placeholders(
        &mut self,
        data_home: &str,
        config_home: &str,
        runtime_dir: Option<&str>,
    ) -> (r: Result<(), ResolveError>)
        requires
            old(self).datarootdir is Some,
            old(self).datadir is Some,
            old(self).sysconfdir is Some,
            old(self).localstatedir is Some,
            old(self).runstatedir is Some,
            old(self).systemd_unitsdir is Some,
        ensures
            r is Ok <==> runtime_dir is Some,
            r is Err ==> r == Err::<(), ResolveError>(ResolveError::InsecureRuntimeDir),
            ois(final(self).datarootdir, user_resolved_datarootdir(*old(self), data_home@)),
            ois(final(self).datadir, user_resolved_datadir(*old(self), data_home@)),
            ois(final(self).sysconfdir, user_resolved_sysconfdir(*old(self), config_home@)),
            ois(final(self).localstatedir, user_resolved_localstatedir(*old(self), data_home@)),
            r is Ok ==> ois(
                final(self).runstatedir,
                user_resolved_runstatedir(*old(self), runtime_dir.unwrap()@),
            ),
            r is Ok ==> ois(
                final(self).systemd_unitsdir,
                user_resolved_systemd_unitsdir(*old(self), config_home@),
            ),
            r is Err ==> final(self).runstatedir == old(self).runstatedir,
            r is Err ==> final(self).systemd_unitsdir == old(self).systemd_unitsdir,
            final(self).config == old(self).config,
            final(self).system == old(self).system,
            final(self).accept_changes == old(self).accept_changes,
            final(self).force == old(self).force,
            final(self).update_config == old(self).update_config,
            final(self).package_dir == old(self).package_dir,
            final(self).packages == old(self).packages,
            final(self).disable_uninstall == old(self).disable_uninstall,
            final(self).destdir == old(self).destdir,
            final(self).prefix == old(self).prefix,
            final(self).exec_prefix == old(self).exec_prefix,
            final(self).bindir == old(self).bindir,
            final(self).sbindir == old(self).sbindir,
            final(self).libdir == old(self).libdir,
            final(self).libexecdir == old(self).libexecdir,
            final(self).includedir == old(self).includedir,
            final(self).docdir == old(self).docdir,
            final(self).mandir == old(self).mandir,
            final(self).pam_modulesdir == old(self).pam_modulesdir,
            final(self).rust_debug_target == old(self).rust_debug_target,
            final(self).subcmd == old(self).subcmd,
    {
        proof {
            reveal_strlit("@XDG_DATA_HOME@");
            reveal_strlit("@XDG_CONFIG_HOME@");
            reveal_strlit("@XDG_RUNTIME_DIR@");
            reveal_strlit("@sysconfdir@");
        }
        self.datarootdir = Some(
            replace(opt_str(&self.datarootdir), "@XDG_DATA_HOME@", data_home),
        );
        self.datadir = Some(replace(opt_str(&self.datadir), "@XDG_DATA_HOME@", data_home));
        self.sysconfdir = Some(
            replace(opt_str(&self.sysconfdir), "@XDG_CONFIG_HOME@", config_home),
        );
        self.localstatedir = Some(
            replace(opt_str(&self.localstatedir), "@XDG_DATA_HOME@", data_home),
        );
        let rt = match runtime_dir {
            Some(rt) => rt,
            None => {
                return Err(ResolveError::InsecureRuntimeDir);
            },
        };
        self.runstatedir = Some(replace(opt_str(&self.runstatedir), "@XDG_RUNTIME_DIR@", rt));
        self.systemd_unitsdir = Some(
            replace(opt_str(&self.systemd_unitsdir), "@XDG_CONFIG_HOME@", config_home),
        );
        self.systemd_unitsdir = Some(
            replace(opt_str(&self.systemd_unitsdir), "@sysconfdir@", config_home),
        );
        Ok(())
    }
}

} // verus!
