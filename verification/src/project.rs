//! Where a project's files are read from.

use vstd::prelude::*;

use crate::package::Type;
use crate::strutil::{path_join, spec_path_join};

verus! {

/// Why the project's directories could not be determined.
#[derive(Clone, Copy, PartialEq, Eq, Structural, Debug)]
pub enum ProjectError {
    /// A build-managed project needs an externally resolved build-output
    /// directory, and none was supplied.
    ExternalResolutionFailure,
}

/// The two roots an entry's relative source can be resolved against:
/// `projectdir` is the source tree, `outputdir` the built-artifact tree.
pub struct Project {
    pub outputdir: String,
    pub projectdir: String,
}

impl Project {
    /// Picks the built-artifact root for a project: the source tree itself
    /// for release tarballs and non-built project types, otherwise the
    /// `release` directory under the externally resolved build target
    /// directory. Fails when that external resolution is needed but none
    /// was supplied.
    pub fn new_from_type(
        project_type: Type,
        projectdir: String,
        is_release_tarball: bool,
        rust_target_dir: Option<String>,
    ) -> (r: Result<Project, ProjectError>)
        ensures
            ({
                let needs_target = project_type == Type::Rust && !is_release_tarball;
                match r {
                    Ok(p) => {
                        &&& p.projectdir@ == projectdir@
                        &&& !(needs_target && rust_target_dir is None)
                        &&& p.outputdir@ == (if needs_target {
                            spec_path_join(rust_target_dir.unwrap()@, "release"@)
                        } else {
                            projectdir@
                        })
                    },
                    Err(e) => {
                        &&& needs_target && rust_target_dir is None
                        &&& e == ProjectError::ExternalResolutionFailure
                    },
                }
            }),
    {
        if project_type == Type::Rust && !is_release_tarball {
            match rust_target_dir {
                Some(target) => Ok(
                    Project { outputdir: path_join(target.as_str(), "release"), projectdir },
                ),
                None => Err(ProjectError::ExternalResolutionFailure),
            }
        } else {
            let outputdir = projectdir.clone();
            Ok(Project { outputdir, projectdir })
        }
    }
}

} // verus!
