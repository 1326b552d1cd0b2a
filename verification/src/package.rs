//! The manifest and its compiler.
//!
//! A `Package` is the parsed manifest: a name, a project type, and an
//! ordered sequence of entries per category. `targets` compiles it, one
//! category at a time in a fixed order, into the final list of install
//! targets, resolved against a `Dirs` table and an installation scope.

use vstd::pervasive::unreached;
use vstd::prelude::*;

use crate::entry::{
    ov, sv, spec_has_marker, spec_install_target, spec_strip_marker, targets_view, has_marker,
    install_target_new, strip_marker, CompileError, ErrS, Icon, InstallEntry, InstallTarget,
    TargetS,
};
use crate::config::Config;
use crate::project::Project;
use crate::strutil::{
    ends_with_slash, extension, file_name, path_join, spec_ends_with_slash, spec_extension,
    spec_file_name, spec_path_join, spec_starts_with, str_starts_with, lower_of, char_lower,
};
use crate::version::{spec_version_at_least, spec_version_is, Version};

verus! {

/// How a project's artifacts are built, which decides where they are found.
#[derive(Clone, Copy, PartialEq, Eq, Structural, Debug)]
pub enum Type {
    Default,
    Rust,
    Custom,
}

impl Default for Type {
    fn default() -> (r: Self)
        ensures
            r == Type::Default,
    {
        Type::Default
    }
}

/// The shell-completion categories of a manifest.
pub struct Completions {
    pub bash: Vec<InstallEntry>,
    pub fish: Vec<InstallEntry>,
    pub zsh: Vec<InstallEntry>,
}

/// The resolved table of installation directories for one run. Slots that
/// exist only in system scope are optional and stay unset in user scope.
pub struct Dirs {
    pub bindir: String,
    pub sbindir: Option<String>,
    pub libdir: String,
    pub libexecdir: String,
    pub datarootdir: String,
    pub datadir: String,
    pub sysconfdir: String,
    pub localstatedir: String,
    pub runstatedir: Option<String>,
    pub includedir: Option<String>,
    pub docdir: Option<String>,
    pub mandir: Option<String>,
    pub pam_modulesdir: Option<String>,
    pub systemd_unitsdir: String,
}

impl Dirs {
    /// Moves a resolved table into the directory set for one run. The slots
    /// every scope needs must all be set; the scope-restricted slots (sbin,
    /// include, doc, man, PAM modules) are kept only for a system-wide run
    /// and are unset in user scope whatever the table holds.
    pub fn from_config(config: Config, system_install: bool) -> (r: Option<Dirs>)
        ensures
            r is Some <==> (config.bindir is Some && config.libdir is Some
                && config.libexecdir is Some && config.datarootdir is Some
                && config.datadir is Some && config.sysconfdir is Some
                && config.localstatedir is Some && config.systemd_unitsdir is Some),
            r matches Some(d) ==> {
                &&& d.bindir == config.bindir.unwrap()
                &&& d.libdir == config.libdir.unwrap()
                &&& d.libexecdir == config.libexecdir.unwrap()
                &&& d.datarootdir == config.datarootdir.unwrap()
                &&& d.datadir == config.datadir.unwrap()
                &&& d.sysconfdir == config.sysconfdir.unwrap()
                &&& d.localstatedir == config.localstatedir.unwrap()
                &&& d.systemd_unitsdir == config.systemd_unitsdir.unwrap()
                &&& d.runstatedir == config.runstatedir
                &&& d.sbindir == (if system_install {
                    config.sbindir
                } else {
                    None::<String>
                })
                &&& d.includedir == (if system_install {
                    config.includedir
                } else {
                    None::<String>
                })
                &&& d.docdir == (if system_install {
                    config.docdir
                } else {
                    None::<String>
                })
                &&& d.mandir == (if system_install {
                    config.mandir
                } else {
                    None::<String>
                })
                &&& d.pam_modulesdir == (if system_install {
                    config.pam_modulesdir
                } else {
                    None::<String>
                })
            },
    {
        let bindir = match config.bindir {
            Some(v) => v,
            None => {
                return None;
            },
        };
        let libdir = match config.libdir {
            Some(v) => v,
            None => {
                return None;
            },
        };
        let libexecdir = match config.libexecdir {
            Some(v) => v,
            None => {
                return None;
            },
        };
        let datarootdir = match config.datarootdir {
            Some(v) => v,
            None => {
                return None;
            },
        };
        let datadir = match config.datadir {
            Some(v) => v,
            None => {
                return None;
            },
        };
        let sysconfdir = match config.sysconfdir {
            Some(v) => v,
            None => {
                return None;
            },
        };
        let localstatedir = match config.localstatedir {
            Some(v) => v,
            None => {
                return None;
            },
        };
        let systemd_unitsdir = match config.systemd_unitsdir {
            Some(v) => v,
            None => {
                return None;
            },
        };
        Some(
            Dirs {
                bindir,
                sbindir: if system_install {
                    config.sbindir
                } else {
                    None
                },
                libdir,
                libexecdir,
                datarootdir,
                datadir,
                sysconfdir,
                localstatedir,
                runstatedir: config.runstatedir,
                includedir: if system_install {
                    config.includedir
                } else {
                    None
                },
                docdir: if system_install {
                    config.docdir
                } else {
                    None
                },
                mandir: if system_install {
                    config.mandir
                } else {
                    None
                },
                pam_modulesdir: if system_install {
                    config.pam_modulesdir
                } else {
                    None
                },
                systemd_unitsdir,
            },
        )
    }
}

/// A parsed manifest.
pub struct Package {
    pub name: Option<String>,
    pub project_type: Type,
    pub exe: Vec<InstallEntry>,
    pub admin_exe: Vec<InstallEntry>,
    pub libs: Vec<InstallEntry>,
    pub libexec: Vec<InstallEntry>,
    pub includes: Vec<InstallEntry>,
    pub man: Vec<InstallEntry>,
    pub data: Vec<InstallEntry>,
    pub docs: Vec<InstallEntry>,
    pub config: Vec<InstallEntry>,
    pub user_config: Vec<InstallEntry>,
    pub desktop_files: Vec<InstallEntry>,
    pub appstream_metadata: Vec<InstallEntry>,
    pub completions: Completions,
    pub pam_modules: Vec<InstallEntry>,
    pub systemd_units: Vec<InstallEntry>,
    pub systemd_user_units: Vec<InstallEntry>,
    pub icons: Vec<Icon>,
    pub terminfo: Vec<InstallEntry>,
    pub licenses: Vec<InstallEntry>,
    pub pkg_config: Vec<InstallEntry>,
}

/// Concatenates two category results; the first error aborts everything.
pub open spec fn rjoin(a: Result<Seq<TargetS>, ErrS>, b: Result<Seq<TargetS>, ErrS>) -> Result<
    Seq<TargetS>,
    ErrS,
> {
    match a {
        Err(e) => Err(e),
        Ok(x) => match b {
            Err(e) => Err(e),
            Ok(y) => Ok(x + y),
        },
    }
}

/// Prefixes already-compiled targets onto a category result.
pub open spec fn prepend_ok(ts: Seq<TargetS>, r: Result<Seq<TargetS>, ErrS>) -> Result<
    Seq<TargetS>,
    ErrS,
> {
    match r {
        Err(e) => Err(e),
        Ok(rest) => Ok(ts + rest),
    }
}

/// Folds a category's items front to back: the first failing item aborts,
/// items compiled to nothing are skipped, the rest keep their order.
pub open spec fn spec_entry_fold<A>(
    items: Seq<A>,
    f: spec_fn(A) -> Result<Option<TargetS>, ErrS>,
) -> Result<Seq<TargetS>, ErrS>
    decreases items.len(),
{
    if items.len() == 0 {
        Ok(Seq::empty())
    } else {
        match f(items[0]) {
            Err(e) => Err(e),
            Ok(opt) => match spec_entry_fold(items.drop_first(), f) {
                Err(e) => Err(e),
                Ok(rest) => Ok(
                    match opt {
                        Some(t) => seq![t] + rest,
                        None => rest,
                    },
                ),
            },
        }
    }
}

/// The base directory an ordinary entry's source is resolved against, and
/// the effective source path: an entry of a build-output category may carry
/// the source-tree marker, which swaps its base to the source tree.
pub open spec fn spec_plain_entry(
    e: InstallEntry,
    category: Seq<char>,
    dir: Seq<char>,
    from_output: bool,
    project: Project,
    replace: bool,
) -> Result<TargetS, ErrS> {
    let use_marker = from_output && spec_has_marker(e.source@);
    let parent = if use_marker || !from_output {
        project.projectdir@
    } else {
        project.outputdir@
    };
    let src = if use_marker {
        spec_strip_marker(e.source@)
    } else {
        e.source@
    };
    match spec_install_target(src, ov(e.destination), e.templating, dir, parent, replace) {
        None => Err(ErrS::InvalidEntry { category, source: e.source@ }),
        Some(t) => Ok(t),
    }
}

/// An ordinary category: every entry compiles to one target.
pub open spec fn spec_plain_seq(
    entries: Seq<InstallEntry>,
    category: Seq<char>,
    dir: Seq<char>,
    from_output: bool,
    project: Project,
    replace: bool,
) -> Result<Seq<TargetS>, ErrS> {
    spec_entry_fold(
        entries,
        |e: InstallEntry|
            match spec_plain_entry(e, category, dir, from_output, project, replace) {
                Ok(t) => Ok(Some(t)),
                Err(err) => Err(err),
            },
    )
}

/// Compiles one ordinary entry, proved against `spec_plain_entry`.
fn compile_plain_entry(
    e: &InstallEntry,
    category: &str,
    dir: &str,
    from_output: bool,
    project: &Project,
    replace: bool,
) -> (r: Result<InstallTarget, CompileError>)
    ensures
        match r {
            Ok(t) => spec_plain_entry(*e, category@, dir@, from_output, *project, replace) == Ok::<
                TargetS,
                ErrS,
            >(t@),
            Err(err) => spec_plain_entry(*e, category@, dir@, from_output, *project, replace)
                == Err::<TargetS, ErrS>(err@),
        },
{
    let use_marker = from_output && has_marker(e.source.as_str());
    let made = if use_marker {
        let stripped = strip_marker(e.source.as_str());
        install_target_new(
            stripped.as_str(),
            &e.destination,
            e.templating,
            dir,
            project.projectdir.as_str(),
            replace,
        )
    } else {
        let parent = if from_output {
            project.outputdir.as_str()
        } else {
            project.projectdir.as_str()
        };
        install_target_new(e.source.as_str(), &e.destination, e.templating, dir, parent, replace)
    };
    match made {
        Some(t) => Ok(t),
        None => Err(
            CompileError::InvalidEntry { category: category.to_owned(), source: e.source.clone() },
        ),
    }
}

/// Compiles an ordinary category in order, appending to `out`; proved
/// against `spec_plain_seq`.
fn compile_plain(
    entries: Vec<InstallEntry>,
    category: &str,
    dir: &str,
    from_output: bool,
    project: &Project,
    replace: bool,
    out: &mut Vec<InstallTarget>,
) -> (r: Result<(), CompileError>)
    ensures
        match r {
            Ok(_) => spec_plain_seq(entries@, category@, dir@, from_output, *project, replace)
                matches Ok(ts) && targets_view(final(out)@) == targets_view(old(out)@) + ts,
            Err(e) => spec_plain_seq(entries@, category@, dir@, from_output, *project, replace)
                == Err::<Seq<TargetS>, ErrS>(e@),
        },
{
    let ghost all = entries@;
    let ghost oldlen = out@.len() as int;
    let n = entries.len();
    let mut i: usize = 0;
    proof {
        assert(all.skip(0) =~= all);
        assert(targets_view(out@.skip(oldlen)) =~= Seq::<TargetS>::empty());
        assert(Seq::<TargetS>::empty() + spec_seq_of(
            spec_plain_seq(all, category@, dir@, from_output, *project, replace),
        ) =~= spec_seq_of(spec_plain_seq(all, category@, dir@, from_output, *project, replace)));
    }
    while i < n
        invariant
            i <= n,
            n == all.len(),
            entries@ == all,
            0 <= oldlen <= out@.len(),
            oldlen == old(out)@.len(),
            out@.subrange(0, oldlen) == old(out)@,
            spec_plain_seq(all, category@, dir@, from_output, *project, replace) == prepend_ok(
                targets_view(out@.skip(oldlen)),
                spec_plain_seq(all.skip(i as int), category@, dir@, from_output, *project, replace),
            ),
        decreases n - i,
    {
        let ghost done = targets_view(out@.skip(oldlen));
        let ghost tail = all.skip(i as int);
        match compile_plain_entry(&entries[i], category, dir, from_output, project, replace) {
            Ok(t) => {
                proof {
                    assert(tail[0] == all[i as int]);
                    assert(tail.drop_first() =~= all.skip(i as int + 1));
                }
                let ghost tv = t@;
                let ghost te = t;
                let ghost prev = out@;
                out.push(t);
                proof {
                    assert(out@ == prev.push(te));
                    assert(out@.skip(oldlen) =~= prev.skip(oldlen).push(te));
                    assert(targets_view(out@.skip(oldlen)) =~= done.push(tv));
                    assert(out@.subrange(0, oldlen) =~= old(out)@);
                    let ghost rest = spec_plain_seq(
                        all.skip(i as int + 1),
                        category@,
                        dir@,
                        from_output,
                        *project,
                        replace,
                    );
                    match rest {
                        Ok(rs) => {
                            assert(done + (seq![tv] + rs) =~= done.push(tv) + rs);
                        },
                        Err(_) => {},
                    }
                }
                i += 1;
            },
            Err(e) => {
                proof {
                    assert(tail[0] == all[i as int]);
                }
                return Err(e);
            },
        }
    }
    proof {
        assert(all.skip(n as int) =~= Seq::<InstallEntry>::empty());
        let ghost done = targets_view(out@.skip(oldlen));
        assert(done + Seq::<TargetS>::empty() =~= done);
        assert(targets_view(out@) =~= targets_view(old(out)@) + done);
    }
    Ok(())
}

/// The target sequence of an Ok result; arbitrary on an error.
pub open spec fn spec_seq_of(r: Result<Seq<TargetS>, ErrS>) -> Seq<TargetS> {
    match r {
        Ok(ts) => ts,
        Err(_) => Seq::empty(),
    }
}

/// The categories with a destination rule of their own.
#[derive(Clone, Copy, PartialEq, Eq, Structural, Debug)]
pub enum SpecialKind {
    Man,
    Terminfo,
    Pam,
}

/// Whether the character names a man section.
pub open spec fn spec_is_man_section(c: char) -> bool {
    '1' as u32 <= c as u32 && c as u32 <= '8' as u32
}

/// A man entry: the name that decides placement is the destination, or the
/// source when none is given or the destination names a directory; the
/// trailing character of that name's extension must be a section digit,
/// which routes the entry to the `man<extension>` directory under the man
/// root. A directory source or a missing extension is rejected.
pub open spec fn spec_man_entry(e: InstallEntry, mandir: Seq<char>, project: Project) -> Result<
    TargetS,
    ErrS,
> {
    let src = e.source@;
    if spec_ends_with_slash(src) {
        Err(ErrS::InvalidEntry { category: "man"@, source: src })
    } else {
        let use_source = match ov(e.destination) {
            None => true,
            Some(d) => spec_ends_with_slash(d),
        };
        let name = if use_source {
            src
        } else {
            sv(e.destination)
        };
        match spec_extension(spec_file_name(name)) {
            None => Err(ErrS::InvalidEntry { category: "man"@, source: src }),
            Some(ext) => if ext.len() > 0 && spec_is_man_section(ext[ext.len() - 1]) {
                match spec_install_target(
                    src,
                    ov(e.destination),
                    e.templating,
                    spec_path_join(mandir, "man"@ + ext),
                    project.projectdir@,
                    true,
                ) {
                    None => Err(ErrS::InvalidEntry { category: "man"@, source: src }),
                    Some(t) => Ok(t),
                }
            } else {
                Err(ErrS::InvalidEntry { category: "man"@, source: src })
            },
        }
    }
}

/// A terminfo entry: routed to the `terminfo/<initial>` directory under the
/// data root, where the initial is the lowercased first character of the
/// placing name's file name. A directory source or an empty file name is
/// rejected.
pub open spec fn spec_terminfo_entry(
    e: InstallEntry,
    datarootdir: Seq<char>,
    project: Project,
) -> Result<TargetS, ErrS> {
    let src = e.source@;
    if spec_ends_with_slash(src) {
        Err(ErrS::InvalidEntry { category: "terminfo"@, source: src })
    } else {
        let use_source = match ov(e.destination) {
            None => true,
            Some(d) => spec_ends_with_slash(d),
        };
        let name = if use_source {
            src
        } else {
            sv(e.destination)
        };
        let fname = spec_file_name(name);
        if fname.len() == 0 {
            Err(ErrS::InvalidEntry { category: "terminfo"@, source: src })
        } else {
            match spec_install_target(
                src,
                ov(e.destination),
                e.templating,
                spec_path_join(spec_path_join(datarootdir, "terminfo"@), lower_of(fname[0])),
                project.projectdir@,
                true,
            ) {
                None => Err(ErrS::InvalidEntry { category: "terminfo"@, source: src }),
                Some(t) => Ok(t),
            }
        }
    }
}

/// A PAM module: with no explicit destination, a source file name with the
/// library prefix `libpam_` is installed under that name with the generic
/// `lib` prefix stripped; otherwise the entry is skipped. PAM modules are
/// build artifacts, so the source-tree marker applies.
pub open spec fn spec_pam_entry(e: InstallEntry, pamdir: Seq<char>, project: Project) -> Result<
    Option<TargetS>,
    ErrS,
> {
    let use_marker = spec_has_marker(e.source@);
    let parent = if use_marker {
        project.projectdir@
    } else {
        project.outputdir@
    };
    let src = if use_marker {
        spec_strip_marker(e.source@)
    } else {
        e.source@
    };
    let dest = match ov(e.destination) {
        Some(d) => Some(d),
        None => {
            let f = spec_file_name(src);
            if spec_starts_with(f, "libpam_"@) {
                Some(f.skip(3))
            } else {
                None
            }
        },
    };
    match dest {
        None => Ok(None),
        Some(d) => match spec_install_target(src, Some(d), e.templating, pamdir, parent, true) {
            None => Err(ErrS::InvalidEntry { category: "pam-modules"@, source: e.source@ }),
            Some(t) => Ok(Some(t)),
        },
    }
}

/// An icon: its destination is always the derived themed path, never the
/// entry's own file name; legacy pixmap icons are excluded from per-user
/// installs; an icon without a derived destination fails the compilation.
pub open spec fn spec_icon_entry(
    icon: Icon,
    datarootdir: Seq<char>,
    project: Project,
    system: bool,
) -> Result<Option<TargetS>, ErrS> {
    if !system && icon.pixmaps {
        Ok(None)
    } else {
        match ov(icon.destination) {
            None => Err(ErrS::IconDestination { source: icon.source@ }),
            Some(d) => match spec_install_target(
                icon.source@,
                Some(d),
                false,
                datarootdir,
                project.projectdir@,
                true,
            ) {
                None => Err(ErrS::InvalidEntry { category: "icons"@, source: icon.source@ }),
                Some(t) => Ok(Some(t)),
            },
        }
    }
}

pub open spec fn spec_special_entry(
    kind: SpecialKind,
    e: InstallEntry,
    dir: Seq<char>,
    project: Project,
) -> Result<Option<TargetS>, ErrS> {
    match kind {
        SpecialKind::Man => match spec_man_entry(e, dir, project) {
            Ok(t) => Ok(Some(t)),
            Err(er) => Err(er),
        },
        SpecialKind::Terminfo => match spec_terminfo_entry(e, dir, project) {
            Ok(t) => Ok(Some(t)),
            Err(er) => Err(er),
        },
        SpecialKind::Pam => spec_pam_entry(e, dir, project),
    }
}

/// A category with a destination rule of its own, folded in order.
pub open spec fn spec_special_seq(
    kind: SpecialKind,
    entries: Seq<InstallEntry>,
    dir: Seq<char>,
    project: Project,
) -> Result<Seq<TargetS>, ErrS> {
    spec_entry_fold(entries, |e: InstallEntry| spec_special_entry(kind, e, dir, project))
}

/// The icon category, folded in order.
pub open spec fn spec_icon_seq(
    icons: Seq<Icon>,
    datarootdir: Seq<char>,
    project: Project,
    system: bool,
) -> Result<Seq<TargetS>, ErrS> {
    spec_entry_fold(icons, |ic: Icon| spec_icon_entry(ic, datarootdir, project, system))
}

fn compile_special_entry(
    kind: SpecialKind,
    e: &InstallEntry,
    dir: &str,
    project: &Project,
) -> (r: Result<Option<InstallTarget>, CompileError>)
    ensures
        match r {
            Ok(Some(t)) => spec_special_entry(kind, *e, dir@, *project) == Ok::<
                Option<TargetS>,
                ErrS,
            >(Some(t@)),
            Ok(None) => spec_special_entry(kind, *e, dir@, *project) == Ok::<
                Option<TargetS>,
                ErrS,
            >(None),
            Err(err) => spec_special_entry(kind, *e, dir@, *project) == Err::<
                Option<TargetS>,
                ErrS,
            >(err@),
        },
{
    match kind {
        SpecialKind::Man => {
            let src = e.source.as_str();
            if ends_with_slash(src) {
                return Err(
                    CompileError::InvalidEntry {
                        category: "man".to_owned(),
                        source: e.source.clone(),
                    },
                );
            }
            let use_source = match &e.destination {
                None => true,
                Some(d) => ends_with_slash(d.as_str()),
            };
            let name: &str = if use_source {
                src
            } else {
                e.destination.as_ref().unwrap().as_str()
            };
            let fname = file_name(name);
            let ext = match extension(fname.as_str()) {
                Some(x) => x,
                None => {
                    return Err(
                        CompileError::InvalidEntry {
                            category: "man".to_owned(),
                            source: e.source.clone(),
                        },
                    );
                },
            };
            let el = ext.as_str().unicode_len();
            if el > 0 {
                let c = ext.as_str().get_char(el - 1);
                if '1' as u32 <= c as u32 && c as u32 <= '8' as u32 {
                    let mut sub = "man".to_owned();
                    sub.append(ext.as_str());
                    let install_dir = path_join(dir, sub.as_str());
                    return match install_target_new(
                        src,
                        &e.destination,
                        e.templating,
                        install_dir.as_str(),
                        project.projectdir.as_str(),
                        true,
                    ) {
                        Some(t) => Ok(Some(t)),
                        None => Err(
                            CompileError::InvalidEntry {
                                category: "man".to_owned(),
                                source: e.source.clone(),
                            },
                        ),
                    };
                }
            }
            Err(CompileError::InvalidEntry { category: "man".to_owned(), source: e.source.clone() })
        },
        SpecialKind::Terminfo => {
            let src = e.source.as_str();
            if ends_with_slash(src) {
                return Err(
                    CompileError::InvalidEntry {
                        category: "terminfo".to_owned(),
                        source: e.source.clone(),
                    },
                );
            }
            let use_source = match &e.destination {
                None => true,
                Some(d) => ends_with_slash(d.as_str()),
            };
            let name: &str = if use_source {
                src
            } else {
                e.destination.as_ref().unwrap().as_str()
            };
            let fname = file_name(name);
            if fname.as_str().unicode_len() == 0 {
                return Err(
                    CompileError::InvalidEntry {
                        category: "terminfo".to_owned(),
                        source: e.source.clone(),
                    },
                );
            }
            let initial = char_lower(fname.as_str().get_char(0));
            let bucket_root = path_join(dir, "terminfo");
            let install_dir = path_join(bucket_root.as_str(), initial.as_str());
            match install_target_new(
                src,
                &e.destination,
                e.templating,
                install_dir.as_str(),
                project.projectdir.as_str(),
                true,
            ) {
                Some(t) => Ok(Some(t)),
                None => Err(
                    CompileError::InvalidEntry {
                        category: "terminfo".to_owned(),
                        source: e.source.clone(),
                    },
                ),
            }
        },
        SpecialKind::Pam => {
            let use_marker = has_marker(e.source.as_str());
            let stripped: String = if use_marker {
                strip_marker(e.source.as_str())
            } else {
                e.source.clone()
            };
            let src = stripped.as_str();
            let parent = if use_marker {
                project.projectdir.as_str()
            } else {
                project.outputdir.as_str()
            };
            let dest: Option<String> = match &e.destination {
                Some(d) => Some(d.clone()),
                None => {
                    let fname = file_name(src);
                    if str_starts_with(fname.as_str(), "libpam_") {
                        proof {
                            reveal_strlit("libpam_");
                        }
                        let fl = fname.as_str().unicode_len();
                        let d = fname.as_str().substring_char(3, fl).to_owned();
                        proof {
                            assert(fname@.subrange(3, fname@.len() as int) =~= fname@.skip(3));
                        }
                        Some(d)
                    } else {
                        return Ok(None);
                    }
                },
            };
            match install_target_new(src, &dest, e.templating, dir, parent, true) {
                Some(t) => Ok(Some(t)),
                None => Err(
                    CompileError::InvalidEntry {
                        category: "pam-modules".to_owned(),
                        source: e.source.clone(),
                    },
                ),
            }
        },
    }
}

fn compile_icon_entry(icon: &Icon, datarootdir: &str, project: &Project, system: bool) -> (r:
    Result<Option<InstallTarget>, CompileError>)
    ensures
        match r {
            Ok(Some(t)) => spec_icon_entry(*icon, datarootdir@, *project, system) == Ok::<
                Option<TargetS>,
                ErrS,
            >(Some(t@)),
            Ok(None) => spec_icon_entry(*icon, datarootdir@, *project, system) == Ok::<
                Option<TargetS>,
                ErrS,
            >(None),
            Err(err) => spec_icon_entry(*icon, datarootdir@, *project, system) == Err::<
                Option<TargetS>,
                ErrS,
            >(err@),
        },
{
    if !system && icon.pixmaps {
        return Ok(None);
    }
    let dest: Option<String> = match &icon.destination {
        Some(d) => Some(d.clone()),
        None => {
            return Err(CompileError::IconDestination { source: icon.source.clone() });
        },
    };
    match install_target_new(
        icon.source.as_str(),
        &dest,
        false,
        datarootdir,
        project.projectdir.as_str(),
        true,
    ) {
        Some(t) => Ok(Some(t)),
        None => Err(
            CompileError::InvalidEntry { category: "icons".to_owned(), source: icon.source.clone() },
        ),
    }
}

/// Compiles a special category in order, appending to `out`; proved against
/// `spec_special_seq`.
fn compile_special(
    kind: SpecialKind,
    entries: Vec<InstallEntry>,
    dir: &str,
    project: &Project,
    out: &mut Vec<InstallTarget>,
) -> (r: Result<(), CompileError>)
    ensures
        match r {
            Ok(_) => spec_special_seq(kind, entries@, dir@, *project) matches Ok(ts)
                && targets_view(final(out)@) == targets_view(old(out)@) + ts,
            Err(e) => spec_special_seq(kind, entries@, dir@, *project) == Err::<
                Seq<TargetS>,
                ErrS,
            >(e@),
        },
{
    let ghost all = entries@;
    let ghost oldlen = out@.len() as int;
    let n = entries.len();
    let mut i: usize = 0;
    proof {
        assert(all.skip(0) =~= all);
        assert(targets_view(out@.skip(oldlen)) =~= Seq::<TargetS>::empty());
        match spec_special_seq(kind, all, dir@, *project) {
            Ok(ts) => {
                assert(Seq::<TargetS>::empty() + ts =~= ts);
            },
            Err(_) => {},
        }
    }
    while i < n
        invariant
            i <= n,
            n == all.len(),
            entries@ == all,
            0 <= oldlen <= out@.len(),
            oldlen == old(out)@.len(),
            out@.subrange(0, oldlen) == old(out)@,
            spec_special_seq(kind, all, dir@, *project) == prepend_ok(
                targets_view(out@.skip(oldlen)),
                spec_special_seq(kind, all.skip(i as int), dir@, *project),
            ),
        decreases n - i,
    {
        let ghost done = targets_view(out@.skip(oldlen));
        let ghost tail = all.skip(i as int);
        proof {
            assert(tail[0] == all[i as int]);
            assert(tail.drop_first() =~= all.skip(i as int + 1));
        }
        match compile_special_entry(kind, &entries[i], dir, project) {
            Ok(Some(t)) => {
                let ghost tv = t@;
                let ghost te = t;
                let ghost prev = out@;
                out.push(t);
                proof {
                    assert(out@ == prev.push(te));
                    assert(out@.skip(oldlen) =~= prev.skip(oldlen).push(te));
                    assert(targets_view(out@.skip(oldlen)) =~= done.push(tv));
                    assert(out@.subrange(0, oldlen) =~= old(out)@);
                    let ghost rest = spec_special_seq(
                        kind,
                        all.skip(i as int + 1),
                        dir@,
                        *project,
                    );
                    match rest {
                        Ok(rs) => {
                            assert(done + (seq![tv] + rs) =~= done.push(tv) + rs);
                        },
                        Err(_) => {},
                    }
                }
                i += 1;
            },
            Ok(None) => {
                i += 1;
            },
            Err(e) => {
                return Err(e);
            },
        }
    }
    proof {
        assert(all.skip(n as int) =~= Seq::<InstallEntry>::empty());
        let ghost done = targets_view(out@.skip(oldlen));
        assert(done + Seq::<TargetS>::empty() =~= done);
        assert(targets_view(out@) =~= targets_view(old(out)@) + done);
    }
    Ok(())
}

/// Compiles the icon category in order, appending to `out`; proved against
/// `spec_icon_seq`.
fn compile_icons(
    icons: Vec<Icon>,
    datarootdir: &str,
    project: &Project,
    system: bool,
    out: &mut Vec<InstallTarget>,
) -> (r: Result<(), CompileError>)
    ensures
        match r {
            Ok(_) => spec_icon_seq(icons@, datarootdir@, *project, system) matches Ok(ts)
                && targets_view(final(out)@) == targets_view(old(out)@) + ts,
            Err(e) => spec_icon_seq(icons@, datarootdir@, *project, system) == Err::<
                Seq<TargetS>,
                ErrS,
            >(e@),
        },
{
    let ghost all = icons@;
    let ghost oldlen = out@.len() as int;
    let n = icons.len();
    let mut i: usize = 0;
    proof {
        assert(all.skip(0) =~= all);
        assert(targets_view(out@.skip(oldlen)) =~= Seq::<TargetS>::empty());
        match spec_icon_seq(all, datarootdir@, *project, system) {
            Ok(ts) => {
                assert(Seq::<TargetS>::empty() + ts =~= ts);
            },
            Err(_) => {},
        }
    }
    while i < n
        invariant
            i <= n,
            n == all.len(),
            icons@ == all,
            0 <= oldlen <= out@.len(),
            oldlen == old(out)@.len(),
            out@.subrange(0, oldlen) == old(out)@,
            spec_icon_seq(all, datarootdir@, *project, system) == prepend_ok(
                targets_view(out@.skip(oldlen)),
                spec_icon_seq(all.skip(i as int), datarootdir@, *project, system),
            ),
        decreases n - i,
    {
        let ghost done = targets_view(out@.skip(oldlen));
        let ghost tail = all.skip(i as int);
        proof {
            assert(tail[0] == all[i as int]);
            assert(tail.drop_first() =~= all.skip(i as int + 1));
        }
        match compile_icon_entry(&icons[i], datarootdir, project, system) {
            Ok(Some(t)) => {
                let ghost tv = t@;
                let ghost te = t;
                let ghost prev = out@;
                out.push(t);
                proof {
                    assert(out@ == prev.push(te));
                    assert(out@.skip(oldlen) =~= prev.skip(oldlen).push(te));
                    assert(targets_view(out@.skip(oldlen)) =~= done.push(tv));
                    assert(out@.subrange(0, oldlen) =~= old(out)@);
                    let ghost rest = spec_icon_seq(
                        all.skip(i as int + 1),
                        datarootdir@,
                        *project,
                        system,
                    );
                    match rest {
                        Ok(rs) => {
                            assert(done + (seq![tv] + rs) =~= done.push(tv) + rs);
                        },
                        Err(_) => {},
                    }
                }
                i += 1;
            },
            Ok(None) => {
                i += 1;
            },
            Err(e) => {
                return Err(e);
            },
        }
    }
    proof {
        assert(all.skip(n as int) =~= Seq::<Icon>::empty());
        let ghost done = targets_view(out@.skip(oldlen));
        assert(done + Seq::<TargetS>::empty() =~= done);
        assert(targets_view(out@) =~= targets_view(old(out)@) + done);
    }
    Ok(())
}

// The per-category results, in the fixed traversal order of `targets`. Each
// category has an install directory (conditionally absent in user scope: a
// whole category whose slot is unset compiles to nothing) and a base
// directory for its sources: the build-output tree for built artifacts, the
// source tree for everything else.
pub open spec fn cat_exe(pkg: Package, dirs: Dirs, project: Project) -> Result<Seq<TargetS>, ErrS> {
    spec_plain_seq(pkg.exe@, "exe"@, dirs.bindir@, true, project, true)
}

pub open spec fn cat_admin_exe(pkg: Package, dirs: Dirs, project: Project) -> Result<
    Seq<TargetS>,
    ErrS,
> {
    match dirs.sbindir {
        None => Ok(Seq::empty()),
        Some(d) => spec_plain_seq(pkg.admin_exe@, "admin_exe"@, d@, true, project, true),
    }
}

pub open spec fn cat_libs(pkg: Package, dirs: Dirs, project: Project) -> Result<Seq<TargetS>, ErrS> {
    spec_plain_seq(pkg.libs@, "libs"@, dirs.libdir@, true, project, true)
}

pub open spec fn cat_libexec(pkg: Package, dirs: Dirs, project: Project) -> Result<
    Seq<TargetS>,
    ErrS,
> {
    spec_plain_seq(pkg.libexec@, "libexec"@, dirs.libexecdir@, true, project, true)
}

pub open spec fn cat_includes(pkg: Package, dirs: Dirs, project: Project) -> Result<
    Seq<TargetS>,
    ErrS,
> {
    match dirs.includedir {
        None => Ok(Seq::empty()),
        Some(d) => spec_plain_seq(pkg.includes@, "includes"@, d@, false, project, true),
    }
}

pub open spec fn cat_data(pkg: Package, dirs: Dirs, project: Project) -> Result<Seq<TargetS>, ErrS> {
    spec_plain_seq(
        pkg.data@,
        "data"@,
        spec_path_join(dirs.datadir@, sv(pkg.name)),
        false,
        project,
        true,
    )
}

pub open spec fn cat_config(pkg: Package, dirs: Dirs, project: Project) -> Result<
    Seq<TargetS>,
    ErrS,
> {
    spec_plain_seq(pkg.config@, "config"@, dirs.sysconfdir@, false, project, false)
}

pub open spec fn cat_man(pkg: Package, dirs: Dirs, project: Project) -> Result<Seq<TargetS>, ErrS> {
    match dirs.mandir {
        None => Ok(Seq::empty()),
        Some(d) => spec_special_seq(SpecialKind::Man, pkg.man@, d@, project),
    }
}

pub open spec fn cat_docs(pkg: Package, dirs: Dirs, project: Project, system: bool) -> Result<
    Seq<TargetS>,
    ErrS,
> {
    if system {
        spec_plain_seq(
            pkg.docs@,
            "docs"@,
            spec_path_join(sv(dirs.docdir), sv(pkg.name)),
            false,
            project,
            true,
        )
    } else {
        Ok(Seq::empty())
    }
}

pub open spec fn cat_user_config(
    pkg: Package,
    dirs: Dirs,
    project: Project,
    system: bool,
) -> Result<Seq<TargetS>, ErrS> {
    if system {
        spec_plain_seq(
            pkg.user_config@,
            "user-config"@,
            spec_path_join(spec_path_join(sv(dirs.docdir), sv(pkg.name)), "user-config"@),
            false,
            project,
            true,
        )
    } else {
        spec_plain_seq(pkg.user_config@, "user-config"@, dirs.sysconfdir@, false, project, false)
    }
}

pub open spec fn cat_desktop_files(pkg: Package, dirs: Dirs, project: Project) -> Result<
    Seq<TargetS>,
    ErrS,
> {
    spec_plain_seq(
        pkg.desktop_files@,
        "desktop-files"@,
        spec_path_join(dirs.datarootdir@, "applications"@),
        false,
        project,
        true,
    )
}

pub open spec fn cat_appstream(pkg: Package, dirs: Dirs, project: Project, system: bool) -> Result<
    Seq<TargetS>,
    ErrS,
> {
    if system {
        spec_plain_seq(
            pkg.appstream_metadata@,
            "appstream-metadata"@,
            spec_path_join(dirs.datarootdir@, "metainfo"@),
            false,
            project,
            true,
        )
    } else {
        Ok(Seq::empty())
    }
}

pub open spec fn cat_bash(pkg: Package, dirs: Dirs, project: Project, system: bool) -> Result<
    Seq<TargetS>,
    ErrS,
> {
    spec_plain_seq(
        pkg.completions.bash@,
        "completions"@,
        spec_path_join(
            dirs.datarootdir@,
            if system {
                "bash-completion/completions"@
            } else {
                "bash-completion"@
            },
        ),
        false,
        project,
        true,
    )
}

pub open spec fn cat_fish(pkg: Package, dirs: Dirs, project: Project, system: bool) -> Result<
    Seq<TargetS>,
    ErrS,
> {
    if system {
        spec_plain_seq(
            pkg.completions.fish@,
            "completions"@,
            spec_path_join(dirs.datarootdir@, "fish/vendor_completions.d"@),
            false,
            project,
            true,
        )
    } else {
        Ok(Seq::empty())
    }
}

pub open spec fn cat_zsh(pkg: Package, dirs: Dirs, project: Project, system: bool) -> Result<
    Seq<TargetS>,
    ErrS,
> {
    if system {
        spec_plain_seq(
            pkg.completions.zsh@,
            "completions"@,
            spec_path_join(dirs.datarootdir@, "zsh/site-functions"@),
            false,
            project,
            true,
        )
    } else {
        Ok(Seq::empty())
    }
}

pub open spec fn cat_pam(pkg: Package, dirs: Dirs, project: Project) -> Result<Seq<TargetS>, ErrS> {
    match dirs.pam_modulesdir {
        None => Ok(Seq::empty()),
        Some(d) => spec_special_seq(SpecialKind::Pam, pkg.pam_modules@, d@, project),
    }
}

pub open spec fn cat_systemd_units(
    pkg: Package,
    dirs: Dirs,
    project: Project,
    system: bool,
) -> Result<Seq<TargetS>, ErrS> {
    if system {
        spec_plain_seq(
            pkg.systemd_units@,
            "systemd-units"@,
            spec_path_join(dirs.systemd_unitsdir@, "system"@),
            false,
            project,
            true,
        )
    } else {
        Ok(Seq::empty())
    }
}

pub open spec fn cat_systemd_user_units(pkg: Package, dirs: Dirs, project: Project) -> Result<
    Seq<TargetS>,
    ErrS,
> {
    spec_plain_seq(
        pkg.systemd_user_units@,
        "systemd-user-units"@,
        spec_path_join(dirs.systemd_unitsdir@, "user"@),
        false,
        project,
        true,
    )
}

pub open spec fn cat_icons(pkg: Package, dirs: Dirs, project: Project, system: bool) -> Result<
    Seq<TargetS>,
    ErrS,
> {
    spec_icon_seq(pkg.icons@, dirs.datarootdir@, project, system)
}

pub open spec fn cat_terminfo(pkg: Package, dirs: Dirs, project: Project, system: bool) -> Result<
    Seq<TargetS>,
    ErrS,
> {
    if system {
        spec_special_seq(SpecialKind::Terminfo, pkg.terminfo@, dirs.datarootdir@, project)
    } else {
        Ok(Seq::empty())
    }
}

pub open spec fn cat_licenses(pkg: Package, dirs: Dirs, project: Project) -> Result<
    Seq<TargetS>,
    ErrS,
> {
    spec_plain_seq(
        pkg.licenses@,
        "licenses"@,
        spec_path_join(spec_path_join(dirs.datarootdir@, "licenses"@), sv(pkg.name)),
        false,
        project,
        true,
    )
}

pub open spec fn cat_pkg_config(pkg: Package, dirs: Dirs, project: Project, system: bool) -> Result<
    Seq<TargetS>,
    ErrS,
> {
    if system {
        spec_plain_seq(
            pkg.pkg_config@,
            "pkg-config"@,
            spec_path_join(dirs.libdir@, "pkgconfig"@),
            false,
            project,
            true,
        )
    } else {
        Ok(Seq::empty())
    }
}

/// All categories compiled and concatenated, in the fixed traversal order.
pub open spec fn spec_compiled(pkg: Package, dirs: Dirs, project: Project, system: bool) -> Result<
    Seq<TargetS>,
    ErrS,
> {
    let r = cat_exe(pkg, dirs, project);
    let r = rjoin(r, cat_admin_exe(pkg, dirs, project));
    let r = rjoin(r, cat_libs(pkg, dirs, project));
    let r = rjoin(r, cat_libexec(pkg, dirs, project));
    let r = rjoin(r, cat_includes(pkg, dirs, project));
    let r = rjoin(r, cat_data(pkg, dirs, project));
    let r = rjoin(r, cat_config(pkg, dirs, project));
    let r = rjoin(r, cat_man(pkg, dirs, project));
    let r = rjoin(r, cat_docs(pkg, dirs, project, system));
    let r = rjoin(r, cat_user_config(pkg, dirs, project, system));
    let r = rjoin(r, cat_desktop_files(pkg, dirs, project));
    let r = rjoin(r, cat_appstream(pkg, dirs, project, system));
    let r = rjoin(r, cat_bash(pkg, dirs, project, system));
    let r = rjoin(r, cat_fish(pkg, dirs, project, system));
    let r = rjoin(r, cat_zsh(pkg, dirs, project, system));
    let r = rjoin(r, cat_pam(pkg, dirs, project));
    let r = rjoin(r, cat_systemd_units(pkg, dirs, project, system));
    let r = rjoin(r, cat_systemd_user_units(pkg, dirs, project));
    let r = rjoin(r, cat_icons(pkg, dirs, project, system));
    let r = rjoin(r, cat_terminfo(pkg, dirs, project, system));
    let r = rjoin(r, cat_licenses(pkg, dirs, project));
    let r = rjoin(r, cat_pkg_config(pkg, dirs, project, system));
    r
}

/// The version-compatibility gate: every populated category must be usable
/// under the declared schema version, in the fixed category order; the first
/// offence is reported. On success the result says whether the deprecated
/// `custom` project type was declared under a version that already
/// deprecates it — a non-fatal warning for the caller to surface.
pub open spec fn spec_check(pkg: Package, v: Version) -> Result<bool, ErrS> {
    let ok = spec_version_at_least(v, 0, 1, 0);
    if pkg.exe@.len() > 0 && !ok {
        Err(ErrS::IncompatibleCategory { category: "exe"@ })
    } else if pkg.admin_exe@.len() > 0 && !ok {
        Err(ErrS::IncompatibleCategory { category: "admin_exe"@ })
    } else if pkg.libs@.len() > 0 && !ok {
        Err(ErrS::IncompatibleCategory { category: "libs"@ })
    } else if pkg.libexec@.len() > 0 && !ok {
        Err(ErrS::IncompatibleCategory { category: "libexec"@ })
    } else if pkg.includes@.len() > 0 && !ok {
        Err(ErrS::IncompatibleCategory { category: "includes"@ })
    } else if pkg.man@.len() > 0 && !ok {
        Err(ErrS::IncompatibleCategory { category: "man"@ })
    } else if pkg.data@.len() > 0 && !ok {
        Err(ErrS::IncompatibleCategory { category: "data"@ })
    } else if pkg.docs@.len() > 0 && !ok {
        Err(ErrS::IncompatibleCategory { category: "docs"@ })
    } else if pkg.config@.len() > 0 && !ok {
        Err(ErrS::IncompatibleCategory { category: "config"@ })
    } else if pkg.user_config@.len() > 0 && !ok {
        Err(ErrS::IncompatibleCategory { category: "user-config"@ })
    } else if pkg.desktop_files@.len() > 0 && !ok {
        Err(ErrS::IncompatibleCategory { category: "desktop-files"@ })
    } else if pkg.appstream_metadata@.len() > 0 && !ok {
        Err(ErrS::IncompatibleCategory { category: "appstream-metadata"@ })
    } else if pkg.completions.bash@.len() > 0 && !ok {
        Err(ErrS::IncompatibleCategory { category: "completions:bash"@ })
    } else if pkg.completions.fish@.len() > 0 && !ok {
        Err(ErrS::IncompatibleCategory { category: "completions:fish"@ })
    } else if pkg.completions.zsh@.len() > 0 && !ok {
        Err(ErrS::IncompatibleCategory { category: "completions:zsh"@ })
    } else if pkg.pam_modules@.len() > 0 && !ok {
        Err(ErrS::IncompatibleCategory { category: "pam-modules"@ })
    } else if pkg.systemd_units@.len() > 0 && !ok {
        Err(ErrS::IncompatibleCategory { category: "systemd-units"@ })
    } else if pkg.icons@.len() > 0 && !ok {
        Err(ErrS::IncompatibleCategory { category: "icons"@ })
    } else if pkg.terminfo@.len() > 0 && !ok {
        Err(ErrS::IncompatibleCategory { category: "terminfo"@ })
    } else if pkg.licenses@.len() > 0 && !ok {
        Err(ErrS::IncompatibleCategory { category: "licenses"@ })
    } else if pkg.pkg_config@.len() > 0 && !ok {
        Err(ErrS::IncompatibleCategory { category: "pkg-config"@ })
    } else {
        Ok(pkg.project_type == Type::Custom && spec_version_at_least(v, 0, 2, 0))
    }
}

/// The whole compilation: the declared version must be acceptable, the
/// gate must pass, the manifest must carry a name; then every category is
/// compiled and concatenated. The result depends only on the manifest, the
/// directories, the project and the scope.
pub open spec fn spec_targets(
    pkg: Package,
    dirs: Dirs,
    project: Project,
    v: Version,
    system: bool,
) -> Result<Seq<TargetS>, ErrS> {
    if !spec_version_is(v, 0, 1, 0) {
        Err(ErrS::InvalidVersion)
    } else {
        match spec_check(pkg, v) {
            Err(e) => Err(e),
            Ok(_) => if pkg.name is None {
                Err(ErrS::MissingPackageName)
            } else {
                spec_compiled(pkg, dirs, project, system)
            },
        }
    }
}

impl Package {
    /// A manifest with the given name and type and no entries.
    pub fn new(name: Option<String>, project_type: Type) -> (r: Package)
        ensures
            r.name == name,
            r.project_type == project_type,
            r.exe@.len() == 0,
            r.admin_exe@.len() == 0,
            r.libs@.len() == 0,
            r.libexec@.len() == 0,
            r.includes@.len() == 0,
            r.man@.len() == 0,
            r.data@.len() == 0,
            r.docs@.len() == 0,
            r.config@.len() == 0,
            r.user_config@.len() == 0,
            r.desktop_files@.len() == 0,
            r.appstream_metadata@.len() == 0,
            r.completions.bash@.len() == 0,
            r.completions.fish@.len() == 0,
            r.completions.zsh@.len() == 0,
            r.pam_modules@.len() == 0,
            r.systemd_units@.len() == 0,
            r.systemd_user_units@.len() == 0,
            r.icons@.len() == 0,
            r.terminfo@.len() == 0,
            r.licenses@.len() == 0,
            r.pkg_config@.len() == 0,
    {
        Package {
            name,
            project_type,
            exe: Vec::new(),
            admin_exe: Vec::new(),
            libs: Vec::new(),
            libexec: Vec::new(),
            includes: Vec::new(),
            man: Vec::new(),
            data: Vec::new(),
            docs: Vec::new(),
            config: Vec::new(),
            user_config: Vec::new(),
            desktop_files: Vec::new(),
            appstream_metadata: Vec::new(),
            completions: Completions { bash: Vec::new(), fish: Vec::new(), zsh: Vec::new() },
            pam_modules: Vec::new(),
            systemd_units: Vec::new(),
            systemd_user_units: Vec::new(),
            icons: Vec::new(),
            terminfo: Vec::new(),
            licenses: Vec::new(),
            pkg_config: Vec::new(),
        }
    }

    /// Runs the version-compatibility gate, proved against `spec_check`.
    /// `Ok(true)` asks the caller to surface the deprecation warning for the
    /// `custom` project type; it never blocks compilation.
    pub fn check_entries(&self, rinstall_version: &Version) -> (r: Result<bool, CompileError>)
        ensures
            match r {
                Ok(w) => spec_check(*self, *rinstall_version) == Ok::<bool, ErrS>(w),
                Err(e) => spec_check(*self, *rinstall_version) == Err::<bool, ErrS>(e@),
            },
    {
        let ok = rinstall_version.at_least(0, 1, 0);
        if !self.exe.is_empty() && !ok {
            Err(CompileError::IncompatibleCategory { category: "exe".to_owned() })
        } else if !self.admin_exe.is_empty() && !ok {
            Err(CompileError::IncompatibleCategory { category: "admin_exe".to_owned() })
        } else if !self.libs.is_empty() && !ok {
            Err(CompileError::IncompatibleCategory { category: "libs".to_owned() })
        } else if !self.libexec.is_empty() && !ok {
            Err(CompileError::IncompatibleCategory { category: "libexec".to_owned() })
        } else if !self.includes.is_empty() && !ok {
            Err(CompileError::IncompatibleCategory { category: "includes".to_owned() })
        } else if !self.man.is_empty() && !ok {
            Err(CompileError::IncompatibleCategory { category: "man".to_owned() })
        } else if !self.data.is_empty() && !ok {
            Err(CompileError::IncompatibleCategory { category: "data".to_owned() })
        } else if !self.docs.is_empty() && !ok {
            Err(CompileError::IncompatibleCategory { category: "docs".to_owned() })
        } else if !self.config.is_empty() && !ok {
            Err(CompileError::IncompatibleCategory { category: "config".to_owned() })
        } else if !self.user_config.is_empty() && !ok {
            Err(CompileError::IncompatibleCategory { category: "user-config".to_owned() })
        } else if !self.desktop_files.is_empty() && !ok {
            Err(CompileError::IncompatibleCategory { category: "desktop-files".to_owned() })
        } else if !self.appstream_metadata.is_empty() && !ok {
            Err(CompileError::IncompatibleCategory { category: "appstream-metadata".to_owned() })
        } else if !self.completions.bash.is_empty() && !ok {
            Err(CompileError::IncompatibleCategory { category: "completions:bash".to_owned() })
        } else if !self.completions.fish.is_empty() && !ok {
            Err(CompileError::IncompatibleCategory { category: "completions:fish".to_owned() })
        } else if !self.completions.zsh.is_empty() && !ok {
            Err(CompileError::IncompatibleCategory { category: "completions:zsh".to_owned() })
        } else if !self.pam_modules.is_empty() && !ok {
            Err(CompileError::IncompatibleCategory { category: "pam-modules".to_owned() })
        } else if !self.systemd_units.is_empty() && !ok {
            Err(CompileError::IncompatibleCategory { category: "systemd-units".to_owned() })
        } else if !self.icons.is_empty() && !ok {
            Err(CompileError::IncompatibleCategory { category: "icons".to_owned() })
        } else if !self.terminfo.is_empty() && !ok {
            Err(CompileError::IncompatibleCategory { category: "terminfo".to_owned() })
        } else if !self.licenses.is_empty() && !ok {
            Err(CompileError::IncompatibleCategory { category: "licenses".to_owned() })
        } else if !self.pkg_config.is_empty() && !ok {
            Err(CompileError::IncompatibleCategory { category: "pkg-config".to_owned() })
        } else {
            Ok(self.project_type == Type::Custom && rinstall_version.at_least(0, 2, 0))
        }
    }

    /// Compiles the manifest into the ordered list of install targets,
    /// resolved against the directory table and the installation scope; the
    /// whole contract is `spec_targets`. The deprecation warning is
    /// available from `check_entries`.
    #[verifier::rlimit(100)]
    pub fn targets(
        self,
        dirs: &Dirs,
        project: Project,
        rinstall_version: &Version,
        system_install: bool,
    ) -> (r: Result<Vec<InstallTarget>, CompileError>)
        requires
            system_install ==> dirs.docdir is Some,
        ensures
            match r {
                Ok(v) => spec_targets(self, *dirs, project, *rinstall_version, system_install)
                    matches Ok(ts) && targets_view(v@) == ts,
                Err(e) => spec_targets(self, *dirs, project, *rinstall_version, system_install)
                    == Err::<Seq<TargetS>, ErrS>(e@),
            },
    {
        let ghost pkg0 = self;
        if !rinstall_version.is(0, 1, 0) {
            return Err(CompileError::InvalidVersion);
        }
        match self.check_entries(rinstall_version) {
            Ok(_) => {},
            Err(e) => {
                return Err(e);
            },
        }
        let Package {
            name,
            project_type: _,
            exe,
            admin_exe,
            libs,
            libexec,
            includes,
            man,
            data,
            docs,
            config,
            user_config,
            desktop_files,
            appstream_metadata,
            completions,
            pam_modules,
            systemd_units,
            systemd_user_units,
            icons,
            terminfo,
            licenses,
            pkg_config,
        } = self;
        let Completions { bash, fish, zsh } = completions;
        let name = match name {
            Some(n) => n,
            None => {
                return Err(CompileError::MissingPackageName);
            },
        };
        let mut results: Vec<InstallTarget> = Vec::new();
        proof {
            assert(targets_view(results@) =~= Seq::<TargetS>::empty());
        }
        let ghost mut acc: Result<Seq<TargetS>, ErrS> = cat_exe(pkg0, *dirs, project);
        match compile_plain(exe, "exe", dirs.bindir.as_str(), true, &project, true, &mut results) {
            Ok(_) => {},
            Err(e) => {
                return Err(e);
            },
        }
        proof {
            match acc {
                Ok(ts) => {
                    assert(Seq::<TargetS>::empty() + ts =~= ts);
                },
                Err(_) => {},
            }
            assert(acc matches Ok(ts) && targets_view(results@) == ts);
        }
        let ghost c = cat_admin_exe(pkg0, *dirs, project);
        match &dirs.sbindir {
            Some(sb) => {
                match compile_plain(
                    admin_exe,
                    "admin_exe",
                    sb.as_str(),
                    true,
                    &project,
                    true,
                    &mut results,
                ) {
                    Ok(_) => {},
                    Err(e) => {
                        return Err(e);
                    },
                }
            },
            None => {},
        }
        proof {
            match acc {
                Ok(ts) => {
                    assert(ts + Seq::<TargetS>::empty() =~= ts);
                },
                Err(_) => {},
            }
            acc = rjoin(acc, c);
            assert(acc matches Ok(ts) && targets_view(results@) == ts);
        }
        let ghost c = cat_libs(pkg0, *dirs, project);
        match compile_plain(libs, "libs", dirs.libdir.as_str(), true, &project, true, &mut results) {
            Ok(_) => {},
            Err(e) => {
                return Err(e);
            },
        }
        proof {
            acc = rjoin(acc, c);
            assert(acc matches Ok(ts) && targets_view(results@) == ts);
        }
        let ghost c = cat_libexec(pkg0, *dirs, project);
        match compile_plain(
            libexec,
            "libexec",
            dirs.libexecdir.as_str(),
            true,
            &project,
            true,
            &mut results,
        ) {
            Ok(_) => {},
            Err(e) => {
                return Err(e);
            },
        }
        proof {
            acc = rjoin(acc, c);
            assert(acc matches Ok(ts) && targets_view(results@) == ts);
        }
        let ghost c = cat_includes(pkg0, *dirs, project);
        match &dirs.includedir {
            Some(inc) => {
                match compile_plain(
                    includes,
                    "includes",
                    inc.as_str(),
                    false,
                    &project,
                    true,
                    &mut results,
                ) {
                    Ok(_) => {},
                    Err(e) => {
                        return Err(e);
                    },
                }
            },
            None => {},
        }
        proof {
            match acc {
                Ok(ts) => {
                    assert(ts + Seq::<TargetS>::empty() =~= ts);
                },
                Err(_) => {},
            }
            acc = rjoin(acc, c);
            assert(acc matches Ok(ts) && targets_view(results@) == ts);
        }
        let ghost c = cat_data(pkg0, *dirs, project);
        let data_dir = path_join(dirs.datadir.as_str(), name.as_str());
        match compile_plain(data, "data", data_dir.as_str(), false, &project, true, &mut results) {
            Ok(_) => {},
            Err(e) => {
                return Err(e);
            },
        }
        proof {
            acc = rjoin(acc, c);
            assert(acc matches Ok(ts) && targets_view(results@) == ts);
        }
        let ghost c = cat_config(pkg0, *dirs, project);
        match compile_plain(
            config,
            "config",
            dirs.sysconfdir.as_str(),
            false,
            &project,
            false,
            &mut results,
        ) {
            Ok(_) => {},
            Err(e) => {
                return Err(e);
            },
        }
        proof {
            acc = rjoin(acc, c);
            assert(acc matches Ok(ts) && targets_view(results@) == ts);
        }
        let ghost c = cat_man(pkg0, *dirs, project);
        match &dirs.mandir {
            Some(md) => {
                match compile_special(SpecialKind::Man, man, md.as_str(), &project, &mut results) {
                    Ok(_) => {},
                    Err(e) => {
                        return Err(e);
                    },
                }
            },
            None => {},
        }
        proof {
            match acc {
                Ok(ts) => {
                    assert(ts + Seq::<TargetS>::empty() =~= ts);
                },
                Err(_) => {},
            }
            acc = rjoin(acc, c);
            assert(acc matches Ok(ts) && targets_view(results@) == ts);
        }
        let ghost cd = cat_docs(pkg0, *dirs, project, system_install);
        let ghost cu = cat_user_config(pkg0, *dirs, project, system_install);
        if system_install {
            let docdir_s: &str = match &dirs.docdir {
                Some(d) => d.as_str(),
                None => unreached(),
            };
            let pkg_docs = path_join(docdir_s, name.as_str());
            match compile_plain(docs, "docs", pkg_docs.as_str(), false, &project, true, &mut results)
                {
                Ok(_) => {},
                Err(e) => {
                    return Err(e);
                },
            }
            proof {
                acc = rjoin(acc, cd);
                assert(acc matches Ok(ts) && targets_view(results@) == ts);
            }
            let uc_dir = path_join(pkg_docs.as_str(), "user-config");
            match compile_plain(
                user_config,
                "user-config",
                uc_dir.as_str(),
                false,
                &project,
                true,
                &mut results,
            ) {
                Ok(_) => {},
                Err(e) => {
                    return Err(e);
                },
            }
            proof {
                acc = rjoin(acc, cu);
                assert(acc matches Ok(ts) && targets_view(results@) == ts);
            }
        } else {
            proof {
                match acc {
                    Ok(ts) => {
                        assert(ts + Seq::<TargetS>::empty() =~= ts);
                    },
                    Err(_) => {},
                }
                acc = rjoin(acc, cd);
                assert(acc matches Ok(ts) && targets_view(results@) == ts);
            }
            match compile_plain(
                user_config,
                "user-config",
                dirs.sysconfdir.as_str(),
                false,
                &project,
                false,
                &mut results,
            ) {
                Ok(_) => {},
                Err(e) => {
                    return Err(e);
                },
            }
            proof {
                acc = rjoin(acc, cu);
                assert(acc matches Ok(ts) && targets_view(results@) == ts);
            }
        }
        let ghost c = cat_desktop_files(pkg0, *dirs, project);
        let desktop_dir = path_join(dirs.datarootdir.as_str(), "applications");
        match compile_plain(
            desktop_files,
            "desktop-files",
            desktop_dir.as_str(),
            false,
            &project,
            true,
            &mut results,
        ) {
            Ok(_) => {},
            Err(e) => {
                return Err(e);
            },
        }
        proof {
            acc = rjoin(acc, c);
            assert(acc matches Ok(ts) && targets_view(results@) == ts);
        }
        let ghost c = cat_appstream(pkg0, *dirs, project, system_install);
        if system_install {
            let metainfo_dir = path_join(dirs.datarootdir.as_str(), "metainfo");
            match compile_plain(
                appstream_metadata,
                "appstream-metadata",
                metainfo_dir.as_str(),
                false,
                &project,
                true,
                &mut results,
            ) {
                Ok(_) => {},
                Err(e) => {
                    return Err(e);
                },
            }
        }
        proof {
            match acc {
                Ok(ts) => {
                    assert(ts + Seq::<TargetS>::empty() =~= ts);
                },
                Err(_) => {},
            }
            acc = rjoin(acc, c);
            assert(acc matches Ok(ts) && targets_view(results@) == ts);
        }
        let ghost c = cat_bash(pkg0, *dirs, project, system_install);
        let bash_dir = if system_install {
            path_join(dirs.datarootdir.as_str(), "bash-completion/completions")
        } else {
            path_join(dirs.datarootdir.as_str(), "bash-completion")
        };
        match compile_plain(
            bash,
            "completions",
            bash_dir.as_str(),
            false,
            &project,
            true,
            &mut results,
        ) {
            Ok(_) => {},
            Err(e) => {
                return Err(e);
            },
        }
        proof {
            acc = rjoin(acc, c);
            assert(acc matches Ok(ts) && targets_view(results@) == ts);
        }
        let ghost c = cat_fish(pkg0, *dirs, project, system_install);
        if system_install {
            let fish_dir = path_join(dirs.datarootdir.as_str(), "fish/vendor_completions.d");
            match compile_plain(
                fish,
                "completions",
                fish_dir.as_str(),
                false,
                &project,
                true,
                &mut results,
            ) {
                Ok(_) => {},
                Err(e) => {
                    return Err(e);
                },
            }
        }
        proof {
            match acc {
                Ok(ts) => {
                    assert(ts + Seq::<TargetS>::empty() =~= ts);
                },
                Err(_) => {},
            }
            acc = rjoin(acc, c);
            assert(acc matches Ok(ts) && targets_view(results@) == ts);
        }
        let ghost c = cat_zsh(pkg0, *dirs, project, system_install);
        if system_install {
            let zsh_dir = path_join(dirs.datarootdir.as_str(), "zsh/site-functions");
            match compile_plain(
                zsh,
                "completions",
                zsh_dir.as_str(),
                false,
                &project,
                true,
                &mut results,
            ) {
                Ok(_) => {},
                Err(e) => {
                    return Err(e);
                },
            }
        }
        proof {
            match acc {
                Ok(ts) => {
                    assert(ts + Seq::<TargetS>::empty() =~= ts);
                },
                Err(_) => {},
            }
            acc = rjoin(acc, c);
            assert(acc matches Ok(ts) && targets_view(results@) == ts);
        }
        let ghost c = cat_pam(pkg0, *dirs, project);
        match &dirs.pam_modulesdir {
            Some(pd) => {
                match compile_special(
                    SpecialKind::Pam,
                    pam_modules,
                    pd.as_str(),
                    &project,
                    &mut results,
                ) {
                    Ok(_) => {},
                    Err(e) => {
                        return Err(e);
                    },
                }
            },
            None => {},
        }
        proof {
            match acc {
                Ok(ts) => {
                    assert(ts + Seq::<TargetS>::empty() =~= ts);
                },
                Err(_) => {},
            }
            acc = rjoin(acc, c);
            assert(acc matches Ok(ts) && targets_view(results@) == ts);
        }
        let ghost c = cat_systemd_units(pkg0, *dirs, project, system_install);
        if system_install {
            let sys_units_dir = path_join(dirs.systemd_unitsdir.as_str(), "system");
            match compile_plain(
                systemd_units,
                "systemd-units",
                sys_units_dir.as_str(),
                false,
                &project,
                true,
                &mut results,
            ) {
                Ok(_) => {},
                Err(e) => {
                    return Err(e);
                },
            }
        }
        proof {
            match acc {
                Ok(ts) => {
                    assert(ts + Seq::<TargetS>::empty() =~= ts);
                },
                Err(_) => {},
            }
            acc = rjoin(acc, c);
            assert(acc matches Ok(ts) && targets_view(results@) == ts);
        }
        let ghost c = cat_systemd_user_units(pkg0, *dirs, project);
        let user_units_dir = path_join(dirs.systemd_unitsdir.as_str(), "user");
        match compile_plain(
            systemd_user_units,
            "systemd-user-units",
            user_units_dir.as_str(),
            false,
            &project,
            true,
            &mut results,
        ) {
            Ok(_) => {},
            Err(e) => {
                return Err(e);
            },
        }
        proof {
            acc = rjoin(acc, c);
            assert(acc matches Ok(ts) && targets_view(results@) == ts);
        }
        let ghost c = cat_icons(pkg0, *dirs, project, system_install);
        match compile_icons(icons, dirs.datarootdir.as_str(), &project, system_install, &mut results)
            {
            Ok(_) => {},
            Err(e) => {
                return Err(e);
            },
        }
        proof {
            acc = rjoin(acc, c);
            assert(acc matches Ok(ts) && targets_view(results@) == ts);
        }
        let ghost c = cat_terminfo(pkg0, *dirs, project, system_install);
        if system_install {
            match compile_special(
                SpecialKind::Terminfo,
                terminfo,
                dirs.datarootdir.as_str(),
                &project,
                &mut results,
            ) {
                Ok(_) => {},
                Err(e) => {
                    return Err(e);
                },
            }
        }
        proof {
            match acc {
                Ok(ts) => {
                    assert(ts + Seq::<TargetS>::empty() =~= ts);
                },
                Err(_) => {},
            }
            acc = rjoin(acc, c);
            assert(acc matches Ok(ts) && targets_view(results@) == ts);
        }
        let ghost c = cat_licenses(pkg0, *dirs, project);
        let licenses_root = path_join(dirs.datarootdir.as_str(), "licenses");
        let licenses_dir = path_join(licenses_root.as_str(), name.as_str());
        match compile_plain(
            licenses,
            "licenses",
            licenses_dir.as_str(),
            false,
            &project,
            true,
            &mut results,
        ) {
            Ok(_) => {},
            Err(e) => {
                return Err(e);
            },
        }
        proof {
            acc = rjoin(acc, c);
            assert(acc matches Ok(ts) && targets_view(results@) == ts);
        }
        let ghost c = cat_pkg_config(pkg0, *dirs, project, system_install);
        if system_install {
            let pc_dir = path_join(dirs.libdir.as_str(), "pkgconfig");
            match compile_plain(
                pkg_config,
                "pkg-config",
                pc_dir.as_str(),
                false,
                &project,
                true,
                &mut results,
            ) {
                Ok(_) => {},
                Err(e) => {
                    return Err(e);
                },
            }
        }
        proof {
            match acc {
                Ok(ts) => {
                    assert(ts + Seq::<TargetS>::empty() =~= ts);
                },
                Err(_) => {},
            }
            acc = rjoin(acc, c);
            assert(acc matches Ok(ts) && targets_view(results@) == ts);
        }
        proof {
            assert(spec_compiled(pkg0, *dirs, project, system_install) == acc);
        }
        Ok(results)
    }
}

} // verus!
