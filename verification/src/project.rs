//! Where the sources of a project are found.

use vstd::prelude::*;
use vstd::string::*;

use crate::path::{join, joined};
use crate::text::{copy_text, opt_text};

verus! {

/// The directories of a Rust project: the package directory and the
/// directory that holds the build's output. Both are set when installing
/// from a directory, neither when installing from an archive.
#[derive(Debug, PartialEq, Eq, Clone)]
pub struct RustDirectories {
    pub packagedir: Option<String>,
    pub outputdir: Option<String>,
}

/// The mathematical model of [`RustDirectories`].
pub struct RustDirectoriesView {
    pub packagedir: Option<Seq<char>>,
    pub outputdir: Option<Seq<char>>,
}

/// Where the target directory of a Rust project is taken from.
#[derive(Debug, PartialEq, Eq, Clone, Copy, Structural)]
pub enum TargetSource {
    /// From the metadata that cargo reports for the project.
    Metadata,
    /// From the environment, which names the target directory.
    Environment,
}

/// Why the directories of a project could not be found.
#[derive(Debug, PartialEq, Eq, Clone, Copy, Structural)]
pub enum ProjectError {
    /// The metadata that cargo reported is no JSON text.
    BadMetadata,
}

/// What the member `key` of a JSON text reads as: `None` where
/// `json::parse` refuses the text, else the member that indexing the parsed
/// value by `key` gives, written by `JsonValue::to_string`.
pub uninterp spec fn json_member(text: Seq<char>, key: Seq<char>) -> Option<Seq<char>>;

/// Parses the text with `json::parse`, takes the member `key` of the value
/// by index, and writes it with `to_string`. The result is `None` where the
/// text does not parse.
#[verifier::external_body]
fn member_of(text: &str, key: &str) -> (r: Option<String>)
    ensures
        opt_text(r) == json_member(text@, key@),
{
    match json::parse(text) {
        Ok(value) => Some(value[key].to_string()),
        Err(_) => None,
    }
}

/// Where the target directory is taken from: from the environment where it
/// names one, unless the project has no `target` directory of its own and
/// cargo can be run; from cargo's metadata otherwise.
pub open spec fn target_source_of(env_set: bool, target_exists: bool, cargo_runs: bool)
    -> TargetSource {
    if !env_set || (!target_exists && cargo_runs) {
        TargetSource::Metadata
    } else {
        TargetSource::Environment
    }
}

/// The target directory, or `None` where the metadata is needed and is no
/// JSON text.
pub open spec fn target_base_of(source: TargetSource, env_dir: Seq<char>, metadata: Seq<char>)
    -> Option<Seq<char>> {
    match source {
        TargetSource::Metadata => json_member(metadata, "target_directory"@),
        TargetSource::Environment => Some(env_dir),
    }
}

/// A project whose sources lie where the manifest says.
#[derive(Debug, PartialEq, Eq, Clone, Copy)]
pub struct DefaultProjectDirectories;

impl View for RustDirectories {
    type V = RustDirectoriesView;

    open spec fn view(&self) -> RustDirectoriesView {
        RustDirectoriesView {
            packagedir: opt_text(self.packagedir),
            outputdir: opt_text(self.outputdir),
        }
    }
}

/// The name of the build profile's directory.
pub open spec fn profile_dir(rust_debug_target: bool) -> Seq<char> {
    if rust_debug_target {
        "debug"@
    } else {
        "release"@
    }
}

/// The directory of the build's output below the target directory `base`.
pub open spec fn output_dir_of(
    base: Seq<char>,
    rust_debug_target: bool,
    rust_target_triple: Option<Seq<char>>,
) -> Seq<char> {
    let triple = match rust_target_triple {
        Some(t) => t,
        None => ""@,
    };
    joined(joined(base, triple), profile_dir(rust_debug_target))
}

impl RustDirectoriesView {
    /// Whether both directories are set or neither is.
    pub open spec fn wf(self) -> bool {
        self.packagedir.is_some() == self.outputdir.is_some()
    }

    /// Where a source is found: in the output directory if it was built
    /// there, else in the package directory; as given where no directories
    /// are set.
    pub open spec fn source_path(self, source: Seq<char>, built: bool) -> Seq<char> {
        if self.packagedir.is_some() && self.outputdir.is_some() {
            if built {
                joined(self.outputdir.unwrap(), source)
            } else {
                joined(self.packagedir.unwrap(), source)
            }
        } else {
            source
        }
    }
}

impl RustDirectories {
    /// The directories of a project in `package_dir` whose target directory
    /// is `target_base`; none are set where there is no package directory.
    pub fn new(
        package_dir: Option<String>,
        target_base: &str,
        rust_debug_target: bool,
        rust_target_triple: Option<&str>,
    ) -> (r: Self)
        ensures
            r@.wf(),
            r@.packagedir == opt_text(package_dir),
            r@.outputdir == if package_dir.is_some() {
                Some(
                    output_dir_of(
                        target_base@,
                        rust_debug_target,
                        match rust_target_triple {
                            Some(t) => Some(t@),
                            None => None,
                        },
                    ),
                )
            } else {
                None
            },
    {
        let outputdir = if package_dir.is_some() {
            Some(Self::target_dir(target_base, rust_debug_target, rust_target_triple))
        } else {
            None
        };
        Self { packagedir: package_dir, outputdir }
    }

    /// Decides where the target directory is taken from; `env_set` says
    /// whether the environment names one, `target_exists` whether the
    /// project has a `target` directory, `cargo_runs` whether cargo can be
    /// run in the project.
    pub fn target_source(env_set: bool, target_exists: bool, cargo_runs: bool) -> (r: TargetSource)
        ensures
            r == target_source_of(env_set, target_exists, cargo_runs),
    {
        if !env_set || (!target_exists && cargo_runs) {
            TargetSource::Metadata
        } else {
            TargetSource::Environment
        }
    }

    /// The target directory of the project: the one that the environment
    /// names, or the one that cargo's metadata reports. Fails where the
    /// metadata is needed and is no JSON text.
    pub fn target_base(source: TargetSource, env_dir: &str, metadata: &str) -> (r: Result<
        String,
        ProjectError,
    >)
        ensures
            r.is_ok() <==> target_base_of(source, env_dir@, metadata@).is_some(),
            r.is_ok() ==> Some(r.unwrap()@) == target_base_of(source, env_dir@, metadata@),
    {
        match source {
            TargetSource::Metadata => match member_of(metadata, "target_directory") {
                Some(dir) => Ok(dir),
                None => Err(ProjectError::BadMetadata),
            },
            TargetSource::Environment => Ok(copy_text(env_dir)),
        }
    }

    /// The directory of the build's output: the target directory, then the
    /// target triple if one is given, then `debug` or `release`.
    pub fn target_dir(base: &str, rust_debug_target: bool, rust_target_triple: Option<&str>) -> (r:
        String)
        ensures
            r@ == output_dir_of(
                base@,
                rust_debug_target,
                match rust_target_triple {
                    Some(t) => Some(t@),
                    None => None,
                },
            ),
    {
        let triple = match rust_target_triple {
            Some(t) => t,
            None => "",
        };
        let with_triple = join(base, triple);
        join(
            with_triple.as_str(),
            if rust_debug_target {
                "debug"
            } else {
                "release"
            },
        )
    }

    /// The candidate for a source in the output directory, which the caller
    /// looks for before asking for the source's path.
    pub fn output_candidate(&self, source: &str) -> (r: Option<String>)
        ensures
            opt_text(r) == match self@.outputdir {
                Some(dir) => Some(joined(dir, source@)),
                None => None,
            },
    {
        match &self.outputdir {
            Some(dir) => Some(join(dir.as_str(), source)),
            None => None,
        }
    }

    /// Where a source is found; `built` says whether it exists in the
    /// output directory.
    pub fn sourcepath(&self, source: &str, built: bool) -> (r: String)
        ensures
            r@ == self@.source_path(source@, built),
    {
        match (&self.packagedir, &self.outputdir) {
            (Some(packagedir), Some(outputdir)) => {
                if built {
                    join(outputdir.as_str(), source)
                } else {
                    join(packagedir.as_str(), source)
                }
            },
            _ => copy_text(source),
        }
    }
}

impl DefaultProjectDirectories {
    /// Where a source is found: where the manifest says.
    pub fn sourcepath(&self, source: &str) -> (r: String)
        ensures
            r@ == source@,
    {
        copy_text(source)
    }
}

} // verus!
