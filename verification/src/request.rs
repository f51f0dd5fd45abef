//! The operator's options and the build request derived from them.

use vstd::prelude::*;
use crate::resolve::{dist_dir_path, package_choice, resolve_dist_dir, resolve_package_name, ConfigurationError};
use crate::text::{copy_text, text_of};
use crate::workspace::{WorkspaceMetadata, WorkspaceView};

verus! {

/// The options of one invocation, as the operator gave them.
#[derive(Debug, PartialEq, Eq)]
pub struct DistArgs {
    /// The package to build.
    pub package: Option<String>,
    /// The name of the package's directory below `dist`; without effect
    /// where `dist_dir` is given.
    pub dir_name: Option<String>,
    /// Where to put the produced files, in place of the computed directory.
    pub dist_dir: Option<String>,
    /// Build for development: no release profile and no size optimization.
    pub dev: bool,
}

/// The mathematical model of [`DistArgs`].
pub struct DistArgsView {
    pub package: Option<Seq<char>>,
    pub dir_name: Option<Seq<char>>,
    pub dist_dir: Option<Seq<char>>,
    pub dev: bool,
}

impl View for DistArgs {
    type V = DistArgsView;

    open spec fn view(&self) -> DistArgsView {
        DistArgsView {
            package: text_of(self.package),
            dir_name: text_of(self.dir_name),
            dist_dir: text_of(self.dist_dir),
            dev: self.dev,
        }
    }
}

/// What one run builds, and where its output is to go.
#[derive(Debug, PartialEq, Eq)]
pub struct BuildRequest {
    /// The package that is built.
    pub package_name: String,
    /// Whether the release profile is used; the opposite of the `dev` option.
    pub release: bool,
    /// The leaf directory below `dist`, where the operator chose one.
    pub dir_name: Option<String>,
    /// The whole output directory, where the operator chose one.
    pub dist_dir_override: Option<String>,
}

/// The mathematical model of [`BuildRequest`].
pub struct BuildRequestView {
    pub package_name: Seq<char>,
    pub release: bool,
    pub dir_name: Option<Seq<char>>,
    pub dist_dir_override: Option<Seq<char>>,
}

impl View for BuildRequest {
    type V = BuildRequestView;

    open spec fn view(&self) -> BuildRequestView {
        BuildRequestView {
            package_name: self.package_name@,
            release: self.release,
            dir_name: text_of(self.dir_name),
            dist_dir_override: text_of(self.dist_dir_override),
        }
    }
}

/// The request that the options describe in a workspace, where a package can
/// be chosen: the release flag is the negated `dev` option, the two
/// directory options are carried over.
pub open spec fn request_for(args: DistArgsView, workspace: WorkspaceView) -> Option<BuildRequestView> {
    match package_choice(args.package, workspace) {
        Some(name) => Some(
            BuildRequestView {
                package_name: name,
                release: !args.dev,
                dir_name: args.dir_name,
                dist_dir_override: args.dist_dir,
            },
        ),
        None => None,
    }
}

/// The distribution directory of a request in a workspace.
pub open spec fn request_dist_dir(request: BuildRequestView, workspace: WorkspaceView) -> Seq<char> {
    dist_dir_path(request.dist_dir_override, workspace.workspace_root, request.dir_name, request.package_name)
}

impl BuildRequest {
    /// Derives the request from the operator's options. Fails exactly when
    /// no package is named and the workspace has no root package.
    pub fn from_args(args: &DistArgs, workspace: &WorkspaceMetadata) -> (res: Result<BuildRequest, ConfigurationError>)
        ensures
            match request_for(args@, workspace@) {
                Some(request) => res is Ok && res->Ok_0@ == request,
                None => res == Err::<BuildRequest, ConfigurationError>(ConfigurationError::NoRootPackage),
            },
    {
        match resolve_package_name(&args.package, workspace) {
            Ok(package_name) => Ok(
                BuildRequest {
                    package_name,
                    release: !args.dev,
                    dir_name: copy_text(&args.dir_name),
                    dist_dir_override: copy_text(&args.dist_dir),
                },
            ),
            Err(error) => Err(error),
        }
    }

    /// The directory that receives the output of this request.
    pub fn dist_dir(&self, workspace: &WorkspaceMetadata) -> (dir: String)
        ensures
            dir@ == request_dist_dir(self@, workspace@),
    {
        resolve_dist_dir(
            &self.dist_dir_override,
            workspace.workspace_root.as_str(),
            &self.dir_name,
            self.package_name.as_str(),
        )
    }
}

} // verus!
