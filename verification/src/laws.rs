//! The stated laws of the library.
//!
//! Each public proof function here states, over the same spec functions the
//! executable contracts use, a property the library promises as a whole:
//! the default tables resolve completely, compilation is deterministic, the
//! overwrite policy is fixed per category, the version gate runs before any
//! target exists, and user scope never touches system-only directories.

use vstd::prelude::*;

use crate::config::{
    resolved_bindir, resolved_datadir, resolved_datarootdir, resolved_docdir,
    resolved_exec_prefix, resolved_includedir, resolved_libdir, resolved_libexecdir,
    resolved_localstatedir, resolved_mandir, resolved_pam_modulesdir, resolved_runstatedir,
    resolved_sbindir, resolved_sysconfdir, resolved_systemd_unitsdir, user_resolved_datadir,
    user_resolved_datarootdir, user_resolved_localstatedir, user_resolved_runstatedir,
    user_resolved_sysconfdir, user_resolved_systemd_unitsdir, Config,
};
use crate::entry::{sv, ErrS, Icon, InstallEntry, TargetS};
use crate::package::{
    cat_appstream, cat_admin_exe, cat_bash, cat_config, cat_data, cat_desktop_files, cat_docs,
    cat_exe, cat_fish, cat_icons, cat_includes, cat_libexec, cat_libs, cat_licenses, cat_man,
    cat_pam, cat_pkg_config, cat_systemd_units, cat_systemd_user_units, cat_terminfo,
    cat_user_config, cat_zsh, rjoin, spec_check, spec_compiled, spec_icon_seq, spec_plain_seq,
    spec_special_seq, spec_targets, Dirs, Package, SpecialKind,
};
use crate::project::Project;
use crate::strutil::{at_free, spec_replace};
use crate::version::{spec_version_at_least, spec_version_is, Version};

verus! {

/// Whether `pat` occurs nowhere in `s` as a substring.
pub open spec fn occurs_nowhere(s: Seq<char>, pat: Seq<char>) -> bool {
    forall|i: int|
        0 <= i <= s.len() - pat.len() ==> #[trigger] s.subrange(i, i + pat.len() as int) != pat
}

/// Replacement of an absent pattern changes nothing.
pub proof fn lemma_replace_absent(s: Seq<char>, pat: Seq<char>, repl: Seq<char>)
    requires
        pat.len() > 0,
        occurs_nowhere(s, pat),
    ensures
        spec_replace(s, pat, repl) == s,
    decreases s.len(),
{
    if s.len() < pat.len() {
    } else {
        assert(s.subrange(0, 0 + pat.len() as int) != pat);
        assert(s.subrange(0, pat.len() as int) != pat);
        assert forall|i: int|
            0 <= i <= s.skip(1).len() - pat.len() implies #[trigger] s.skip(1).subrange(
            i,
            i + pat.len() as int,
        ) != pat by {
            assert(s.skip(1).subrange(i, i + pat.len() as int) =~= s.subrange(
                i + 1,
                i + 1 + pat.len() as int,
            ));
            assert(s.subrange(i + 1, i + 1 + pat.len() as int) != pat);
        }
        lemma_replace_absent(s.skip(1), pat, repl);
        assert(seq![s[0]] + s.skip(1) =~= s);
    }
}

/// Replacement at the very front: the token goes, the tail is processed.
pub proof fn lemma_replace_prefix(pat: Seq<char>, tail: Seq<char>, repl: Seq<char>)
    requires
        pat.len() > 0,
    ensures
        spec_replace(pat + tail, pat, repl) == repl + spec_replace(tail, pat, repl),
{
    let s = pat + tail;
    assert(s.subrange(0, pat.len() as int) =~= pat);
    assert(s.skip(pat.len() as int) =~= tail);
}

/// A placeholder token never matches inside a marker-free value.
pub proof fn lemma_replace_at_free(s: Seq<char>, pat: Seq<char>, repl: Seq<char>)
    requires
        pat.len() > 0,
        pat[0] == '@',
        at_free(s),
    ensures
        spec_replace(s, pat, repl) == s,
{
    assert forall|i: int|
        0 <= i <= s.len() - pat.len() implies #[trigger] s.subrange(i, i + pat.len() as int)
        != pat by {
        if s.subrange(i, i + pat.len() as int) == pat {
            assert(s.subrange(i, i + pat.len() as int)[0] == s[i]);
            assert(s[i] == '@');
        }
    }
    lemma_replace_absent(s, pat, repl);
}

/// One placeholder token never matches inside another token followed by a
/// marker-free tail: the markers of the value sit only at the token's two
/// ends, where the other token cannot align without being the same token.
pub proof fn lemma_token_absent(tok: Seq<char>, tail: Seq<char>, pat: Seq<char>)
    requires
        tok.len() >= 2,
        tok[0] == '@',
        tok[tok.len() - 1] == '@',
        forall|j: int| 0 < j < tok.len() - 1 ==> tok[j] != '@',
        pat.len() >= 2,
        pat[0] == '@',
        pat[pat.len() - 1] == '@',
        at_free(tail),
        tok != pat,
    ensures
        occurs_nowhere(tok + tail, pat),
{
    let s = tok + tail;
    let m = pat.len() as int;
    let k = tok.len() as int;
    assert forall|i: int|
        0 <= i <= s.len() - m implies #[trigger] s.subrange(i, i + m) != pat by {
        if s.subrange(i, i + m) == pat {
            assert(s.subrange(i, i + m)[0] == s[i]);
            assert(s[i] == '@');
            assert(s.subrange(i, i + m)[m - 1] == s[i + m - 1]);
            assert(s[i + m - 1] == '@');
            if i >= k {
                assert(s[i] == tail[i - k]);
                assert(false);
            } else if i != 0 && i != k - 1 {
                assert(s[i] == tok[i]);
                assert(false);
            } else if i == k - 1 {
                assert(i + m - 1 >= k);
                assert(s[i + m - 1] == tail[i + m - 1 - k]);
                assert(false);
            } else {
                if m - 1 >= k {
                    assert(s[m - 1] == tail[m - 1 - k]);
                    assert(false);
                } else if m - 1 != k - 1 {
                    assert(s[m - 1] == tok[m - 1]);
                    assert(false);
                } else {
                    assert(s.subrange(0, k) =~= tok);
                    assert(pat == tok);
                    assert(false);
                }
            }
        }
    }
}

/// Resolving a value of the form token-plus-literal-tail substitutes the
/// token and keeps the tail.
pub proof fn lemma_resolve_token(tok: Seq<char>, tail: Seq<char>, repl: Seq<char>)
    requires
        tok.len() > 0,
        tok[0] == '@',
        at_free(tail),
    ensures
        spec_replace(tok + tail, tok, repl) == repl + tail,
{
    lemma_replace_prefix(tok, tail, repl);
    lemma_replace_at_free(tail, tok, repl);
}

/// Resolving the untouched system-scope default table leaves no placeholder
/// marker in any populated slot; each slot becomes the concrete path below.
pub proof fn lemma_default_root_resolved(c: Config)
    requires
        sv(c.prefix) == "/usr/local"@,
        sv(c.exec_prefix) == "@prefix@"@,
        sv(c.bindir) == "@exec_prefix@/bin"@,
        sv(c.sbindir) == "@exec_prefix@/sbin"@,
        sv(c.libdir) == "@exec_prefix@/lib"@,
        sv(c.libexecdir) == "@exec_prefix@/libexec"@,
        sv(c.datarootdir) == "@prefix@/share"@,
        sv(c.datadir) == "@prefix@/share"@,
        sv(c.sysconfdir) == "@prefix@/etc"@,
        sv(c.localstatedir) == "@prefix@/var"@,
        sv(c.runstatedir) == "@localstatedir@/run"@,
        sv(c.includedir) == "@prefix@/include"@,
        sv(c.docdir) == "@datarootdir@/doc"@,
        sv(c.mandir) == "@datarootdir@/man"@,
        sv(c.pam_modulesdir) == "@libdir@/security"@,
        sv(c.systemd_unitsdir) == "@libdir@/systemd"@,
    ensures
        resolved_exec_prefix(c) == "/usr/local"@ && at_free(resolved_exec_prefix(c)),
        resolved_bindir(c) == "/usr/local/bin"@ && at_free(resolved_bindir(c)),
        resolved_sbindir(c) == "/usr/local/sbin"@ && at_free(resolved_sbindir(c)),
        resolved_libdir(c) == "/usr/local/lib"@ && at_free(resolved_libdir(c)),
        resolved_libexecdir(c) == "/usr/local/libexec"@ && at_free(resolved_libexecdir(c)),
        resolved_datarootdir(c) == "/usr/local/share"@ && at_free(resolved_datarootdir(c)),
        resolved_datadir(c) == "/usr/local/share"@ && at_free(resolved_datadir(c)),
        resolved_sysconfdir(c) == "/usr/local/etc"@ && at_free(resolved_sysconfdir(c)),
        resolved_localstatedir(c) == "/usr/local/var"@ && at_free(resolved_localstatedir(c)),
        resolved_runstatedir(c) == "/usr/local/var/run"@ && at_free(resolved_runstatedir(c)),
        resolved_includedir(c) == "/usr/local/include"@ && at_free(resolved_includedir(c)),
        resolved_docdir(c) == "/usr/local/share/doc"@ && at_free(resolved_docdir(c)),
        resolved_mandir(c) == "/usr/local/share/man"@ && at_free(resolved_mandir(c)),
        resolved_pam_modulesdir(c) == "/usr/local/lib/security"@ && at_free(
            resolved_pam_modulesdir(c),
        ),
        resolved_systemd_unitsdir(c) == "/usr/local/lib/systemd"@ && at_free(
            resolved_systemd_unitsdir(c),
        ),
{
    reveal_strlit("/usr/local");
    reveal_strlit("@prefix@");
    reveal_strlit("@exec_prefix@");
    reveal_strlit("@localstatedir@");
    reveal_strlit("@datarootdir@");
    reveal_strlit("@libdir@");
    reveal_strlit("@exec_prefix@/bin");
    reveal_strlit("@exec_prefix@/sbin");
    reveal_strlit("@exec_prefix@/lib");
    reveal_strlit("@exec_prefix@/libexec");
    reveal_strlit("@prefix@/share");
    reveal_strlit("@prefix@/etc");
    reveal_strlit("@prefix@/var");
    reveal_strlit("@localstatedir@/run");
    reveal_strlit("@prefix@/include");
    reveal_strlit("@datarootdir@/doc");
    reveal_strlit("@datarootdir@/man");
    reveal_strlit("@libdir@/security");
    reveal_strlit("@libdir@/systemd");
    reveal_strlit("/bin");
    reveal_strlit("/sbin");
    reveal_strlit("/lib");
    reveal_strlit("/libexec");
    reveal_strlit("/share");
    reveal_strlit("/etc");
    reveal_strlit("/var");
    reveal_strlit("/run");
    reveal_strlit("/include");
    reveal_strlit("/doc");
    reveal_strlit("/man");
    reveal_strlit("/security");
    reveal_strlit("/systemd");
    reveal_strlit("/usr/local/bin");
    reveal_strlit("/usr/local/sbin");
    reveal_strlit("/usr/local/lib");
    reveal_strlit("/usr/local/libexec");
    reveal_strlit("/usr/local/share");
    reveal_strlit("/usr/local/etc");
    reveal_strlit("/usr/local/var");
    reveal_strlit("/usr/local/var/run");
    reveal_strlit("/usr/local/include");
    reveal_strlit("/usr/local/share/doc");
    reveal_strlit("/usr/local/share/man");
    reveal_strlit("/usr/local/lib/security");
    reveal_strlit("/usr/local/lib/systemd");
    let p = "/usr/local"@;
    // exec_prefix: the bare prefix token
    assert("@prefix@"@ =~= "@prefix@"@ + Seq::<char>::empty());
    lemma_resolve_token("@prefix@"@, Seq::empty(), p);
    assert(resolved_exec_prefix(c) =~= p);
    // bindir and the other exec_prefix dependents: kept in the prefix pass,
    // substituted in the exec_prefix pass
    lemma_token_absent("@exec_prefix@"@, "/bin"@, "@prefix@"@);
    assert("@exec_prefix@/bin"@ =~= "@exec_prefix@"@ + "/bin"@);
    lemma_replace_absent("@exec_prefix@/bin"@, "@prefix@"@, p);
    lemma_resolve_token("@exec_prefix@"@, "/bin"@, resolved_exec_prefix(c));
    assert(resolved_bindir(c) =~= "/usr/local/bin"@);
    lemma_token_absent("@exec_prefix@"@, "/sbin"@, "@prefix@"@);
    assert("@exec_prefix@/sbin"@ =~= "@exec_prefix@"@ + "/sbin"@);
    lemma_replace_absent("@exec_prefix@/sbin"@, "@prefix@"@, p);
    lemma_resolve_token("@exec_prefix@"@, "/sbin"@, resolved_exec_prefix(c));
    assert(resolved_sbindir(c) =~= "/usr/local/sbin"@);
    lemma_token_absent("@exec_prefix@"@, "/lib"@, "@prefix@"@);
    assert("@exec_prefix@/lib"@ =~= "@exec_prefix@"@ + "/lib"@);
    lemma_replace_absent("@exec_prefix@/lib"@, "@prefix@"@, p);
    lemma_resolve_token("@exec_prefix@"@, "/lib"@, resolved_exec_prefix(c));
    assert(resolved_libdir(c) =~= "/usr/local/lib"@);
    lemma_token_absent("@exec_prefix@"@, "/libexec"@, "@prefix@"@);
    assert("@exec_prefix@/libexec"@ =~= "@exec_prefix@"@ + "/libexec"@);
    lemma_replace_absent("@exec_prefix@/libexec"@, "@prefix@"@, p);
    lemma_resolve_token("@exec_prefix@"@, "/libexec"@, resolved_exec_prefix(c));
    assert(resolved_libexecdir(c) =~= "/usr/local/libexec"@);
    // the direct prefix dependents
    assert("@prefix@/share"@ =~= "@prefix@"@ + "/share"@);
    lemma_resolve_token("@prefix@"@, "/share"@, p);
    assert(resolved_datarootdir(c) =~= "/usr/local/share"@);
    assert(resolved_datadir(c) =~= "/usr/local/share"@);
    assert("@prefix@/etc"@ =~= "@prefix@"@ + "/etc"@);
    lemma_resolve_token("@prefix@"@, "/etc"@, p);
    assert(resolved_sysconfdir(c) =~= "/usr/local/etc"@);
    assert("@prefix@/var"@ =~= "@prefix@"@ + "/var"@);
    lemma_resolve_token("@prefix@"@, "/var"@, p);
    assert(resolved_localstatedir(c) =~= "/usr/local/var"@);
    assert("@prefix@/include"@ =~= "@prefix@"@ + "/include"@);
    lemma_resolve_token("@prefix@"@, "/include"@, p);
    assert(resolved_includedir(c) =~= "/usr/local/include"@);
    // runstatedir: kept in the prefix pass, substituted from localstatedir
    lemma_token_absent("@localstatedir@"@, "/run"@, "@prefix@"@);
    assert("@localstatedir@/run"@ =~= "@localstatedir@"@ + "/run"@);
    lemma_replace_absent("@localstatedir@/run"@, "@prefix@"@, p);
    lemma_resolve_token("@localstatedir@"@, "/run"@, resolved_localstatedir(c));
    assert(resolved_runstatedir(c) =~= "/usr/local/var/run"@);
    // docdir and mandir: kept in the prefix pass, substituted from datarootdir
    lemma_token_absent("@datarootdir@"@, "/doc"@, "@prefix@"@);
    assert("@datarootdir@/doc"@ =~= "@datarootdir@"@ + "/doc"@);
    lemma_replace_absent("@datarootdir@/doc"@, "@prefix@"@, p);
    lemma_resolve_token("@datarootdir@"@, "/doc"@, resolved_datarootdir(c));
    assert(resolved_docdir(c) =~= "/usr/local/share/doc"@);
    lemma_token_absent("@datarootdir@"@, "/man"@, "@prefix@"@);
    assert("@datarootdir@/man"@ =~= "@datarootdir@"@ + "/man"@);
    lemma_replace_absent("@datarootdir@/man"@, "@prefix@"@, p);
    lemma_resolve_token("@datarootdir@"@, "/man"@, resolved_datarootdir(c));
    assert(resolved_mandir(c) =~= "/usr/local/share/man"@);
    // PAM modules and systemd units: kept in the prefix pass, substituted
    // from libdir
    assert("@libdir@"@[1] == 'l' && "@prefix@"@[1] == 'p');
    assert("@libdir@"@ != "@prefix@"@);
    lemma_token_absent("@libdir@"@, "/security"@, "@prefix@"@);
    assert("@libdir@/security"@ =~= "@libdir@"@ + "/security"@);
    lemma_replace_absent("@libdir@/security"@, "@prefix@"@, p);
    lemma_resolve_token("@libdir@"@, "/security"@, resolved_libdir(c));
    assert(resolved_pam_modulesdir(c) =~= "/usr/local/lib/security"@);
    lemma_token_absent("@libdir@"@, "/systemd"@, "@prefix@"@);
    assert("@libdir@/systemd"@ =~= "@libdir@"@ + "/systemd"@);
    lemma_replace_absent("@libdir@/systemd"@, "@prefix@"@, p);
    lemma_resolve_token("@libdir@"@, "/systemd"@, resolved_libdir(c));
    assert(resolved_systemd_unitsdir(c) =~= "/usr/local/lib/systemd"@);
}

/// Resolving the untouched user-scope default table against marker-free
/// base directories leaves no placeholder marker in any populated slot.
pub proof fn lemma_default_user_resolved(
    c: Config,
    data_home: Seq<char>,
    config_home: Seq<char>,
    runtime_dir: Seq<char>,
)
    requires
        sv(c.datarootdir) == "@XDG_DATA_HOME@"@,
        sv(c.datadir) == "@XDG_DATA_HOME@"@,
        sv(c.sysconfdir) == "@XDG_CONFIG_HOME@"@,
        sv(c.localstatedir) == "@XDG_DATA_HOME@"@,
        sv(c.runstatedir) == "@XDG_RUNTIME_DIR@"@,
        sv(c.systemd_unitsdir) == "@sysconfdir@/systemd"@,
        at_free(data_home),
        at_free(config_home),
        at_free(runtime_dir),
    ensures
        user_resolved_datarootdir(c, data_home) == data_home,
        user_resolved_datadir(c, data_home) == data_home,
        user_resolved_sysconfdir(c, config_home) == config_home,
        user_resolved_localstatedir(c, data_home) == data_home,
        user_resolved_runstatedir(c, runtime_dir) == runtime_dir,
        user_resolved_systemd_unitsdir(c, config_home) == config_home + "/systemd"@,
        at_free(user_resolved_datarootdir(c, data_home)),
        at_free(user_resolved_sysconfdir(c, config_home)),
        at_free(user_resolved_runstatedir(c, runtime_dir)),
        at_free(user_resolved_systemd_unitsdir(c, config_home)),
{
    reveal_strlit("@XDG_DATA_HOME@");
    reveal_strlit("@XDG_CONFIG_HOME@");
    reveal_strlit("@XDG_RUNTIME_DIR@");
    reveal_strlit("@sysconfdir@");
    reveal_strlit("@sysconfdir@/systemd");
    reveal_strlit("/systemd");
    assert("@XDG_DATA_HOME@"@ =~= "@XDG_DATA_HOME@"@ + Seq::<char>::empty());
    lemma_resolve_token("@XDG_DATA_HOME@"@, Seq::empty(), data_home);
    assert(user_resolved_datarootdir(c, data_home) =~= data_home);
    assert(user_resolved_datadir(c, data_home) =~= data_home);
    assert(user_resolved_localstatedir(c, data_home) =~= data_home);
    assert("@XDG_CONFIG_HOME@"@ =~= "@XDG_CONFIG_HOME@"@ + Seq::<char>::empty());
    lemma_resolve_token("@XDG_CONFIG_HOME@"@, Seq::empty(), config_home);
    assert(user_resolved_sysconfdir(c, config_home) =~= config_home);
    assert("@XDG_RUNTIME_DIR@"@ =~= "@XDG_RUNTIME_DIR@"@ + Seq::<char>::empty());
    lemma_resolve_token("@XDG_RUNTIME_DIR@"@, Seq::empty(), runtime_dir);
    assert(user_resolved_runstatedir(c, runtime_dir) =~= runtime_dir);
    // systemd units: the config-home pass does not touch the sysconfdir
    // token, which the second pass then substitutes
    lemma_token_absent("@sysconfdir@"@, "/systemd"@, "@XDG_CONFIG_HOME@"@);
    assert("@sysconfdir@/systemd"@ =~= "@sysconfdir@"@ + "/systemd"@);
    lemma_replace_absent("@sysconfdir@/systemd"@, "@XDG_CONFIG_HOME@"@, config_home);
    lemma_resolve_token("@sysconfdir@"@, "/systemd"@, config_home);
    assert(user_resolved_systemd_unitsdir(c, config_home) =~= config_home + "/systemd"@);
    assert(at_free(config_home + "/systemd"@));
}

/// Compiling the same manifest against the same directories, project,
/// version and scope always yields the same result: compilation is a pure
/// function of its inputs, so two runs are identical target for target.
pub proof fn lemma_deterministic(
    p1: Package,
    p2: Package,
    dirs: Dirs,
    project: Project,
    v: Version,
    system: bool,
)
    requires
        p1 == p2,
    ensures
        spec_targets(p1, dirs, project, v, system) == spec_targets(p2, dirs, project, v, system),
{
}

/// Every target of an ordinary category carries the category's fixed
/// overwrite flag.
pub proof fn lemma_plain_replace_flag(
    entries: Seq<InstallEntry>,
    category: Seq<char>,
    dir: Seq<char>,
    from_output: bool,
    project: Project,
    replace: bool,
)
    ensures
        spec_plain_seq(entries, category, dir, from_output, project, replace) matches Ok(ts)
            ==> forall|i: int| 0 <= i < ts.len() ==> (#[trigger] ts[i]).replace == replace,
    decreases entries.len(),
{
    if entries.len() == 0 {
    } else {
        lemma_plain_replace_flag(
            entries.drop_first(),
            category,
            dir,
            from_output,
            project,
            replace,
        );
        match spec_plain_seq(entries, category, dir, from_output, project, replace) {
            Ok(ts) => {
                match spec_plain_seq(
                    entries.drop_first(),
                    category,
                    dir,
                    from_output,
                    project,
                    replace,
                ) {
                    Ok(rest) => {
                        assert forall|i: int| 0 <= i < ts.len() implies (#[trigger] ts[i]).replace
                            == replace by {
                            if i > 0 {
                                assert(ts[i] == rest[i - 1]);
                            }
                        }
                    },
                    Err(_) => {},
                }
            },
            Err(_) => {},
        }
    }
}

/// Every target of a special category may overwrite.
pub proof fn lemma_special_replace_flag(
    kind: SpecialKind,
    entries: Seq<InstallEntry>,
    dir: Seq<char>,
    project: Project,
)
    ensures
        spec_special_seq(kind, entries, dir, project) matches Ok(ts) ==> forall|i: int|
            0 <= i < ts.len() ==> (#[trigger] ts[i]).replace,
    decreases entries.len(),
{
    if entries.len() == 0 {
    } else {
        lemma_special_replace_flag(kind, entries.drop_first(), dir, project);
        match spec_special_seq(kind, entries, dir, project) {
            Ok(ts) => {
                match spec_special_seq(kind, entries.drop_first(), dir, project) {
                    Ok(rest) => {
                        assert forall|i: int| 0 <= i < ts.len() implies (#[trigger] ts[i]).replace
                            by {
                            if ts.len() == rest.len() + 1 && i > 0 {
                                assert(ts[i] == rest[i - 1]);
                            } else if ts.len() == rest.len() {
                                assert(ts[i] == rest[i]);
                            }
                        }
                    },
                    Err(_) => {},
                }
            },
            Err(_) => {},
        }
    }
}

/// Every icon target may overwrite.
pub proof fn lemma_icon_replace_flag(
    icons: Seq<Icon>,
    datarootdir: Seq<char>,
    project: Project,
    system: bool,
)
    ensures
        spec_icon_seq(icons, datarootdir, project, system) matches Ok(ts) ==> forall|i: int|
            0 <= i < ts.len() ==> (#[trigger] ts[i]).replace,
    decreases icons.len(),
{
    if icons.len() == 0 {
    } else {
        lemma_icon_replace_flag(icons.drop_first(), datarootdir, project, system);
        match spec_icon_seq(icons, datarootdir, project, system) {
            Ok(ts) => {
                match spec_icon_seq(icons.drop_first(), datarootdir, project, system) {
                    Ok(rest) => {
                        assert forall|i: int| 0 <= i < ts.len() implies (#[trigger] ts[i]).replace
                            by {
                            if ts.len() == rest.len() + 1 && i > 0 {
                                assert(ts[i] == rest[i - 1]);
                            } else if ts.len() == rest.len() {
                                assert(ts[i] == rest[i]);
                            }
                        }
                    },
                    Err(_) => {},
                }
            },
            Err(_) => {},
        }
    }
}

/// Config-category targets never allow overwriting, and so do user-config
/// targets in user scope; in system scope user-config entries are reference
/// copies under the documentation tree and may be overwritten, like the
/// targets of every other category.
pub proof fn lemma_replace_policy(pkg: Package, dirs: Dirs, project: Project, system: bool)
    ensures
        cat_config(pkg, dirs, project) matches Ok(ts) ==> forall|i: int|
            0 <= i < ts.len() ==> !(#[trigger] ts[i]).replace,
        !system ==> (cat_user_config(pkg, dirs, project, system) matches Ok(ts) ==> forall|i: int|
            0 <= i < ts.len() ==> !(#[trigger] ts[i]).replace),
        system ==> (cat_user_config(pkg, dirs, project, system) matches Ok(ts) ==> forall|i: int|
            0 <= i < ts.len() ==> (#[trigger] ts[i]).replace),
        cat_exe(pkg, dirs, project) matches Ok(ts) ==> forall|i: int|
            0 <= i < ts.len() ==> (#[trigger] ts[i]).replace,
        cat_admin_exe(pkg, dirs, project) matches Ok(ts) ==> forall|i: int|
            0 <= i < ts.len() ==> (#[trigger] ts[i]).replace,
        cat_libs(pkg, dirs, project) matches Ok(ts) ==> forall|i: int|
            0 <= i < ts.len() ==> (#[trigger] ts[i]).replace,
        cat_libexec(pkg, dirs, project) matches Ok(ts) ==> forall|i: int|
            0 <= i < ts.len() ==> (#[trigger] ts[i]).replace,
        cat_includes(pkg, dirs, project) matches Ok(ts) ==> forall|i: int|
            0 <= i < ts.len() ==> (#[trigger] ts[i]).replace,
        cat_data(pkg, dirs, project) matches Ok(ts) ==> forall|i: int|
            0 <= i < ts.len() ==> (#[trigger] ts[i]).replace,
        cat_man(pkg, dirs, project) matches Ok(ts) ==> forall|i: int|
            0 <= i < ts.len() ==> (#[trigger] ts[i]).replace,
        cat_docs(pkg, dirs, project, system) matches Ok(ts) ==> forall|i: int|
            0 <= i < ts.len() ==> (#[trigger] ts[i]).replace,
        cat_desktop_files(pkg, dirs, project) matches Ok(ts) ==> forall|i: int|
            0 <= i < ts.len() ==> (#[trigger] ts[i]).replace,
        cat_appstream(pkg, dirs, project, system) matches Ok(ts) ==> forall|i: int|
            0 <= i < ts.len() ==> (#[trigger] ts[i]).replace,
        cat_bash(pkg, dirs, project, system) matches Ok(ts) ==> forall|i: int|
            0 <= i < ts.len() ==> (#[trigger] ts[i]).replace,
        cat_fish(pkg, dirs, project, system) matches Ok(ts) ==> forall|i: int|
            0 <= i < ts.len() ==> (#[trigger] ts[i]).replace,
        cat_zsh(pkg, dirs, project, system) matches Ok(ts) ==> forall|i: int|
            0 <= i < ts.len() ==> (#[trigger] ts[i]).replace,
        cat_pam(pkg, dirs, project) matches Ok(ts) ==> forall|i: int|
            0 <= i < ts.len() ==> (#[trigger] ts[i]).replace,
        cat_systemd_units(pkg, dirs, project, system) matches Ok(ts) ==> forall|i: int|
            0 <= i < ts.len() ==> (#[trigger] ts[i]).replace,
        cat_systemd_user_units(pkg, dirs, project) matches Ok(ts) ==> forall|i: int|
            0 <= i < ts.len() ==> (#[trigger] ts[i]).replace,
        cat_icons(pkg, dirs, project, system) matches Ok(ts) ==> forall|i: int|
            0 <= i < ts.len() ==> (#[trigger] ts[i]).replace,
        cat_terminfo(pkg, dirs, project, system) matches Ok(ts) ==> forall|i: int|
            0 <= i < ts.len() ==> (#[trigger] ts[i]).replace,
        cat_licenses(pkg, dirs, project) matches Ok(ts) ==> forall|i: int|
            0 <= i < ts.len() ==> (#[trigger] ts[i]).replace,
        cat_pkg_config(pkg, dirs, project, system) matches Ok(ts) ==> forall|i: int|
            0 <= i < ts.len() ==> (#[trigger] ts[i]).replace,
{
    lemma_plain_replace_flag(pkg.config@, "config"@, dirs.sysconfdir@, false, project, false);
    if system {
        lemma_plain_replace_flag(
            pkg.user_config@,
            "user-config"@,
            crate::strutil::spec_path_join(
                crate::strutil::spec_path_join(sv(dirs.docdir), sv(pkg.name)),
                "user-config"@,
            ),
            false,
            project,
            true,
        );
    } else {
        lemma_plain_replace_flag(
            pkg.user_config@,
            "user-config"@,
            dirs.sysconfdir@,
            false,
            project,
            false,
        );
    }
    lemma_plain_replace_flag(pkg.exe@, "exe"@, dirs.bindir@, true, project, true);
    match dirs.sbindir {
        Some(d) => {
            lemma_plain_replace_flag(pkg.admin_exe@, "admin_exe"@, d@, true, project, true);
        },
        None => {},
    }
    lemma_plain_replace_flag(pkg.libs@, "libs"@, dirs.libdir@, true, project, true);
    lemma_plain_replace_flag(pkg.libexec@, "libexec"@, dirs.libexecdir@, true, project, true);
    match dirs.includedir {
        Some(d) => {
            lemma_plain_replace_flag(pkg.includes@, "includes"@, d@, false, project, true);
        },
        None => {},
    }
    lemma_plain_replace_flag(
        pkg.data@,
        "data"@,
        crate::strutil::spec_path_join(dirs.datadir@, sv(pkg.name)),
        false,
        project,
        true,
    );
    match dirs.mandir {
        Some(d) => {
            lemma_special_replace_flag(SpecialKind::Man, pkg.man@, d@, project);
        },
        None => {},
    }
    if system {
        lemma_plain_replace_flag(
            pkg.docs@,
            "docs"@,
            crate::strutil::spec_path_join(sv(dirs.docdir), sv(pkg.name)),
            false,
            project,
            true,
        );
    }
    lemma_plain_replace_flag(
        pkg.desktop_files@,
        "desktop-files"@,
        crate::strutil::spec_path_join(dirs.datarootdir@, "applications"@),
        false,
        project,
        true,
    );
    if system {
        lemma_plain_replace_flag(
            pkg.appstream_metadata@,
            "appstream-metadata"@,
            crate::strutil::spec_path_join(dirs.datarootdir@, "metainfo"@),
            false,
            project,
            true,
        );
    }
    lemma_plain_replace_flag(
        pkg.completions.bash@,
        "completions"@,
        crate::strutil::spec_path_join(
            dirs.datarootdir@,
            if system {
                "bash-completion/completions"@
            } else {
                "bash-completion"@
            },
        ),
        false,
        project,
        true,
    );
    if system {
        lemma_plain_replace_flag(
            pkg.completions.fish@,
            "completions"@,
            crate::strutil::spec_path_join(dirs.datarootdir@, "fish/vendor_completions.d"@),
            false,
            project,
            true,
        );
        lemma_plain_replace_flag(
            pkg.completions.zsh@,
            "completions"@,
            crate::strutil::spec_path_join(dirs.datarootdir@, "zsh/site-functions"@),
            false,
            project,
            true,
        );
    }
    match dirs.pam_modulesdir {
        Some(d) => {
            lemma_special_replace_flag(SpecialKind::Pam, pkg.pam_modules@, d@, project);
        },
        None => {},
    }
    if system {
        lemma_plain_replace_flag(
            pkg.systemd_units@,
            "systemd-units"@,
            crate::strutil::spec_path_join(dirs.systemd_unitsdir@, "system"@),
            false,
            project,
            true,
        );
    }
    lemma_plain_replace_flag(
        pkg.systemd_user_units@,
        "systemd-user-units"@,
        crate::strutil::spec_path_join(dirs.systemd_unitsdir@, "user"@),
        false,
        project,
        true,
    );
    lemma_icon_replace_flag(pkg.icons@, dirs.datarootdir@, project, system);
    if system {
        lemma_special_replace_flag(SpecialKind::Terminfo, pkg.terminfo@, dirs.datarootdir@, project);
    }
    lemma_plain_replace_flag(
        pkg.licenses@,
        "licenses"@,
        crate::strutil::spec_path_join(
            crate::strutil::spec_path_join(dirs.datarootdir@, "licenses"@),
            sv(pkg.name),
        ),
        false,
        project,
        true,
    );
    if system {
        lemma_plain_replace_flag(
            pkg.pkg_config@,
            "pkg-config"@,
            crate::strutil::spec_path_join(dirs.libdir@, "pkgconfig"@),
            false,
            project,
            true,
        );
    }
}

/// A manifest that declares systemd units under a declared version below
/// the category's minimum fails the version gate with an incompatible-
/// category error, and the compilation as a whole yields no target.
pub proof fn lemma_systemd_units_version_gate(
    pkg: Package,
    dirs: Dirs,
    project: Project,
    v: Version,
    system: bool,
)
    requires
        pkg.systemd_units@.len() > 0,
        !spec_version_at_least(v, 0, 1, 0),
    ensures
        spec_check(pkg, v) matches Err(e) && e is IncompatibleCategory,
        spec_targets(pkg, dirs, project, v, system) is Err,
{
    assert(!spec_version_is(v, 0, 1, 0));
}

/// Concatenating an empty category changes nothing.
pub proof fn lemma_rjoin_empty(r: Result<Seq<TargetS>, ErrS>)
    ensures
        rjoin(r, Ok(Seq::<TargetS>::empty())) == r,
{
    match r {
        Ok(a) => {
            assert(a + Seq::<TargetS>::empty() =~= a);
        },
        Err(_) => {},
    }
}

/// The user-scope decomposition of a compilation: only the categories whose
/// directories exist in user scope appear.
pub open spec fn spec_compiled_user(pkg: Package, dirs: Dirs, project: Project) -> Result<
    Seq<TargetS>,
    ErrS,
> {
    let r = cat_exe(pkg, dirs, project);
    let r = rjoin(r, cat_libs(pkg, dirs, project));
    let r = rjoin(r, cat_libexec(pkg, dirs, project));
    let r = rjoin(r, cat_data(pkg, dirs, project));
    let r = rjoin(r, cat_config(pkg, dirs, project));
    let r = rjoin(r, cat_user_config(pkg, dirs, project, false));
    let r = rjoin(r, cat_desktop_files(pkg, dirs, project));
    let r = rjoin(r, cat_bash(pkg, dirs, project, false));
    let r = rjoin(r, cat_systemd_user_units(pkg, dirs, project));
    let r = rjoin(r, cat_icons(pkg, dirs, project, false));
    let r = rjoin(r, cat_licenses(pkg, dirs, project));
    r
}

/// User-scope compilation never places a target under the admin-binary,
/// include, man or PAM-module directories, nor under any system-only
/// category: with those slots unset, the whole compilation equals the
/// user-scope decomposition, in which they do not appear at all.
pub proof fn lemma_user_scope_restricted(pkg: Package, dirs: Dirs, project: Project)
    requires
        dirs.sbindir is None,
        dirs.includedir is None,
        dirs.mandir is None,
        dirs.pam_modulesdir is None,
    ensures
        spec_compiled(pkg, dirs, project, false) == spec_compiled_user(pkg, dirs, project),
{
    let empty = Ok::<Seq<TargetS>, ErrS>(Seq::<TargetS>::empty());
    let r1 = cat_exe(pkg, dirs, project);
    lemma_rjoin_empty(r1);
    let r2 = rjoin(r1, cat_admin_exe(pkg, dirs, project));
    assert(r2 == r1);
    let r3 = rjoin(r2, cat_libs(pkg, dirs, project));
    let r4 = rjoin(r3, cat_libexec(pkg, dirs, project));
    lemma_rjoin_empty(r4);
    let r5 = rjoin(r4, cat_includes(pkg, dirs, project));
    assert(r5 == r4);
    let r6 = rjoin(r5, cat_data(pkg, dirs, project));
    let r7 = rjoin(r6, cat_config(pkg, dirs, project));
    lemma_rjoin_empty(r7);
    let r8 = rjoin(r7, cat_man(pkg, dirs, project));
    assert(r8 == r7);
    lemma_rjoin_empty(r8);
    let r9 = rjoin(r8, cat_docs(pkg, dirs, project, false));
    assert(r9 == r8);
    let r10 = rjoin(r9, cat_user_config(pkg, dirs, project, false));
    let r11 = rjoin(r10, cat_desktop_files(pkg, dirs, project));
    lemma_rjoin_empty(r11);
    let r12 = rjoin(r11, cat_appstream(pkg, dirs, project, false));
    assert(r12 == r11);
    let r13 = rjoin(r12, cat_bash(pkg, dirs, project, false));
    lemma_rjoin_empty(r13);
    let r14 = rjoin(r13, cat_fish(pkg, dirs, project, false));
    assert(r14 == r13);
    lemma_rjoin_empty(r14);
    let r15 = rjoin(r14, cat_zsh(pkg, dirs, project, false));
    assert(r15 == r14);
    lemma_rjoin_empty(r15);
    let r16 = rjoin(r15, cat_pam(pkg, dirs, project));
    assert(r16 == r15);
    lemma_rjoin_empty(r16);
    let r17 = rjoin(r16, cat_systemd_units(pkg, dirs, project, false));
    assert(r17 == r16);
    let r18 = rjoin(r17, cat_systemd_user_units(pkg, dirs, project));
    let r19 = rjoin(r18, cat_icons(pkg, dirs, project, false));
    lemma_rjoin_empty(r19);
    let r20 = rjoin(r19, cat_terminfo(pkg, dirs, project, false));
    assert(r20 == r19);
    let r21 = rjoin(r20, cat_licenses(pkg, dirs, project));
    lemma_rjoin_empty(r21);
    let r22 = rjoin(r21, cat_pkg_config(pkg, dirs, project, false));
    assert(r22 == r21);
    assert(spec_compiled(pkg, dirs, project, false) == r22);
    assert(spec_compiled_user(pkg, dirs, project) == r21);
}

} // verus!
