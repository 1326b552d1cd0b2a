//! Manifest entries and compiled install targets.

use vstd::prelude::*;

use crate::strutil::{
    ends_with_slash, file_name, path_join, spec_ends_with_slash, spec_file_name, spec_path_join,
    spec_starts_with, str_eq, str_starts_with,
};

verus! {

/// The view of an optional string.
pub open spec fn ov(o: Option<String>) -> Option<Seq<char>> {
    match o {
        Some(s) => Some(s@),
        None => None,
    }
}

/// The view of the content of an optional string.
pub open spec fn sv(o: Option<String>) -> Seq<char>
    recommends
        o is Some,
{
    o.unwrap()@
}

/// One source-to-destination mapping declared in a manifest category.
///
/// `destination` is relative to the category's install directory; when it is
/// absent the source's file name is kept, and when it ends with a separator
/// the source's file name is appended to it. `templating` asks the executor
/// to substitute variables in the file's content.
pub struct InstallEntry {
    pub source: String,
    pub destination: Option<String>,
    pub templating: bool,
}

/// An icon declared in a manifest.
///
/// `destination` is the themed destination path derived from the icon's own
/// size and category metadata; the derivation is done by the icon-metadata
/// layer before compilation, and an icon it could not place carries `None`,
/// which fails the whole compilation. `pixmaps` flags a legacy pixmap-theme
/// icon, excluded from per-user installs.
pub struct Icon {
    pub source: String,
    pub pixmaps: bool,
    pub destination: Option<String>,
}

/// A fully resolved install action: copy `source` to `destination`, where
/// `replace` says whether an existing file may be overwritten without an
/// explicit force, and `templating` is carried over from the entry.
pub struct InstallTarget {
    pub source: String,
    pub destination: String,
    pub replace: bool,
    pub templating: bool,
}

/// The mathematical value of an install target.
#[verifier::ext_equal]
pub struct TargetS {
    pub source: Seq<char>,
    pub destination: Seq<char>,
    pub replace: bool,
    pub templating: bool,
}

impl View for InstallTarget {
    type V = TargetS;

    open spec fn view(&self) -> TargetS {
        TargetS {
            source: self.source@,
            destination: self.destination@,
            replace: self.replace,
            templating: self.templating,
        }
    }
}

/// The views of a compiled target list.
pub open spec fn targets_view(ts: Seq<InstallTarget>) -> Seq<TargetS> {
    ts.map_values(|t: InstallTarget| t@)
}

/// Why a compilation was aborted. Every error is fatal to the whole run:
/// a manifest either compiles fully or not at all.
pub enum CompileError {
    /// The declared schema version is not one this compiler accepts.
    InvalidVersion,
    /// A populated category needs a newer schema version than was declared.
    IncompatibleCategory { category: String },
    /// The manifest carries no package name.
    MissingPackageName,
    /// An entry of the named category cannot be placed: a directory where a
    /// file is needed, a missing or unusable file name or extension.
    InvalidEntry { category: String, source: String },
    /// An icon came without a derived destination.
    IconDestination { source: String },
}

/// The mathematical value of a compilation error.
#[verifier::ext_equal]
pub enum ErrS {
    InvalidVersion,
    IncompatibleCategory { category: Seq<char> },
    MissingPackageName,
    InvalidEntry { category: Seq<char>, source: Seq<char> },
    IconDestination { source: Seq<char> },
}

impl View for CompileError {
    type V = ErrS;

    open spec fn view(&self) -> ErrS {
        match self {
            CompileError::InvalidVersion => ErrS::InvalidVersion,
            CompileError::IncompatibleCategory { category } => ErrS::IncompatibleCategory {
                category: category@,
            },
            CompileError::MissingPackageName => ErrS::MissingPackageName,
            CompileError::InvalidEntry { category, source } => ErrS::InvalidEntry {
                category: category@,
                source: source@,
            },
            CompileError::IconDestination { source } => ErrS::IconDestination { source: source@ },
        }
    }
}

/// The relative destination of an entry: the given destination, the source's
/// file name when none is given, or the two glued when the destination names
/// a directory. `None` when a file name is needed but the source has none.
pub open spec fn spec_dest_rel(source: Seq<char>, destination: Option<Seq<char>>) -> Option<
    Seq<char>,
> {
    match destination {
        Some(d) => if spec_ends_with_slash(d) {
            if spec_file_name(source).len() == 0 {
                None
            } else {
                Some(d + spec_file_name(source))
            }
        } else {
            Some(d)
        },
        None => if spec_file_name(source).len() == 0 {
            None
        } else {
            Some(spec_file_name(source))
        },
    }
}

/// The target compiled from one entry: the source resolved against its base
/// directory, the destination against the category's install directory.
pub open spec fn spec_install_target(
    source: Seq<char>,
    destination: Option<Seq<char>>,
    templating: bool,
    dir: Seq<char>,
    parent: Seq<char>,
    replace: bool,
) -> Option<TargetS> {
    match spec_dest_rel(source, destination) {
        None => None,
        Some(dr) => Some(
            TargetS {
                source: spec_path_join(parent, source),
                destination: spec_path_join(dir, dr),
                replace,
                templating,
            },
        ),
    }
}

/// Compiles one entry to a target, proved against `spec_install_target`.
pub fn install_target_new(
    source: &str,
    destination: &Option<String>,
    templating: bool,
    dir: &str,
    parent: &str,
    replace: bool,
) -> (r: Option<InstallTarget>)
    ensures
        match r {
            Some(t) => spec_install_target(
                source@,
                ov(*destination),
                templating,
                dir@,
                parent@,
                replace,
            ) == Some(t@),
            None => spec_install_target(
                source@,
                ov(*destination),
                templating,
                dir@,
                parent@,
                replace,
            ) is None,
        },
{
    let dest_rel: String = match destination {
        Some(d) => {
            if ends_with_slash(d.as_str()) {
                let name = file_name(source);
                if name.as_str().unicode_len() == 0 {
                    return None;
                }
                let mut dr = d.clone();
                dr.append(name.as_str());
                dr
            } else {
                d.clone()
            }
        },
        None => {
            let name = file_name(source);
            if name.as_str().unicode_len() == 0 {
                return None;
            }
            name
        },
    };
    Some(
        InstallTarget {
            source: path_join(parent, source),
            destination: path_join(dir, dest_rel.as_str()),
            replace,
            templating,
        },
    )
}

/// The in-manifest marker naming the project's source tree.
pub open spec fn spec_has_marker(s: Seq<char>) -> bool {
    s == "$PROJECTDIR"@ || spec_starts_with(s, "$PROJECTDIR/"@)
}

/// The source path with the source-tree marker removed.
pub open spec fn spec_strip_marker(s: Seq<char>) -> Seq<char> {
    if s == "$PROJECTDIR"@ {
        Seq::empty()
    } else {
        s.skip("$PROJECTDIR/"@.len() as int)
    }
}

pub fn has_marker(s: &str) -> (r: bool)
    ensures
        r == spec_has_marker(s@),
{
    str_eq(s, "$PROJECTDIR") || str_starts_with(s, "$PROJECTDIR/")
}

pub fn strip_marker(s: &str) -> (r: String)
    requires
        spec_has_marker(s@),
    ensures
        r@ == spec_strip_marker(s@),
{
    if str_eq(s, "$PROJECTDIR") {
        String::new()
    } else {
        let k = "$PROJECTDIR/".unicode_len();
        let n = s.unicode_len();
        let r = s.substring_char(k, n).to_owned();
        proof {
            assert(s@.subrange("$PROJECTDIR/"@.len() as int, s@.len() as int) =~= s@.skip(
                "$PROJECTDIR/"@.len() as int,
            ));
        }
        r
    }
}

} // verus!
