//! Resolution of the package to build and of the distribution directory.

use vstd::prelude::*;
use vstd::string::StringExecFns;
use crate::text::{joined, owned, text_of};
use crate::workspace::{WorkspaceMetadata, WorkspaceView};

verus! {

/// Why no package could be chosen.
#[derive(Debug, Clone, Copy, PartialEq, Eq, Structural)]
pub enum ConfigurationError {
    /// No package was named and the workspace has no root package.
    NoRootPackage,
}

impl ConfigurationError {
    /// The diagnostic shown to the operator, with a hint at the remedy.
    pub fn message(&self) -> (out: String)
        ensures
            out@ == "No root crate, please provide rom crate name or run from rom subdirectory"@,
    {
        owned("No root crate, please provide rom crate name or run from rom subdirectory")
    }
}

/// The package that a run builds: the explicit name where one is given, else
/// the workspace's root package; nothing where neither exists.
pub open spec fn package_choice(explicit: Option<Seq<char>>, workspace: WorkspaceView) -> Option<Seq<char>> {
    match explicit {
        Some(name) => Some(name),
        None => workspace.root_package,
    }
}

/// Chooses the package to build. An explicit name is returned as it is,
/// without a look at the workspace.
pub fn resolve_package_name(explicit: &Option<String>, workspace: &WorkspaceMetadata) -> (res: Result<
    String,
    ConfigurationError,
>)
    ensures
        explicit is Some ==> res is Ok && res->Ok_0@ == explicit->Some_0@,
        match package_choice(text_of(*explicit), workspace@) {
            Some(name) => res is Ok && res->Ok_0@ == name,
            None => res == Err::<String, ConfigurationError>(ConfigurationError::NoRootPackage),
        },
{
    match explicit {
        Some(name) => Ok(owned(name.as_str())),
        None => match &workspace.root_package {
            Some(name) => Ok(owned(name.as_str())),
            None => Err(ConfigurationError::NoRootPackage),
        },
    }
}

/// The directory, below the workspace root, that holds every staged package.
pub open spec fn dist_root(workspace_root: Seq<char>) -> Seq<char> {
    workspace_root + "/dist"@
}

/// The distribution directory of one run: the override where one is given,
/// else `<workspace_root>/dist/<leaf>`, the leaf being the directory name
/// where one is given and the package name otherwise.
pub open spec fn dist_dir_path(
    override_dir: Option<Seq<char>>,
    workspace_root: Seq<char>,
    dir_name: Option<Seq<char>>,
    package_name: Seq<char>,
) -> Seq<char> {
    match override_dir {
        Some(dir) => dir,
        None => dist_root(workspace_root) + "/"@ + match dir_name {
            Some(name) => name,
            None => package_name,
        },
    }
}

/// Computes the distribution directory. No I/O and no failure.
pub fn resolve_dist_dir(
    override_dir: &Option<String>,
    workspace_root: &str,
    dir_name: &Option<String>,
    package_name: &str,
) -> (dir: String)
    ensures
        dir@ == dist_dir_path(text_of(*override_dir), workspace_root@, text_of(*dir_name), package_name@),
{
    match override_dir {
        Some(dir) => owned(dir.as_str()),
        None => {
            let root = joined(workspace_root, "/dist");
            let leaf: &str = match dir_name {
                Some(name) => name.as_str(),
                None => package_name,
            };
            root.concat("/").concat(leaf)
        },
    }
}

} // verus!
