//! What a run needs to know of the workspace it builds in.

use vstd::prelude::*;
use crate::text::{owned, copy_text, text_of};

verus! {

/// `cargo_metadata::Metadata`, carried through as an opaque value.
#[verifier::external_type_specification]
#[verifier::external_body]
pub struct ExMetadata(cargo_metadata::Metadata);

/// The name of the root package that `cargo_metadata::Metadata::root_package`
/// finds in a metadata value, if it finds one.
pub uninterp spec fn cargo_root_package(metadata: cargo_metadata::Metadata) -> Option<Seq<char>>;

/// The text of the `workspace_root` field of a metadata value.
pub uninterp spec fn cargo_workspace_root(metadata: cargo_metadata::Metadata) -> Seq<char>;

/// Calls `cargo_metadata::Metadata::root_package` and copies the name of the
/// package it returns. The method only reads the metadata value, so its
/// result is a function of that value; the contract gives the result that
/// name and claims nothing else.
#[verifier::external_body]
fn root_package_name_of(metadata: &cargo_metadata::Metadata) -> (name: Option<String>)
    ensures
        text_of(name) == cargo_root_package(*metadata),
{
    metadata.root_package().map(|package| package.name.to_string())
}

/// Reads the public field `workspace_root` of `cargo_metadata::Metadata` and
/// copies the path's text. The contract names that text and claims nothing
/// else.
#[verifier::external_body]
fn workspace_root_of(metadata: &cargo_metadata::Metadata) -> (root: String)
    ensures
        root@ == cargo_workspace_root(*metadata),
{
    metadata.workspace_root.to_string()
}

/// The workspace as the pipeline sees it: computed once, never changed.
#[derive(Debug, PartialEq, Eq)]
pub struct WorkspaceMetadata {
    /// The directory that holds the workspace.
    pub workspace_root: String,
    /// The name of the package at the workspace root, where there is one.
    pub root_package: Option<String>,
}

/// The mathematical model of [`WorkspaceMetadata`].
pub struct WorkspaceView {
    pub workspace_root: Seq<char>,
    pub root_package: Option<Seq<char>>,
}

impl View for WorkspaceMetadata {
    type V = WorkspaceView;

    open spec fn view(&self) -> WorkspaceView {
        WorkspaceView {
            workspace_root: self.workspace_root@,
            root_package: text_of(self.root_package),
        }
    }
}

impl WorkspaceMetadata {
    /// A workspace described by plain values.
    pub fn new(workspace_root: String, root_package: Option<String>) -> (workspace: WorkspaceMetadata)
        ensures
            workspace@.workspace_root == workspace_root@,
            workspace@.root_package == text_of(root_package),
    {
        WorkspaceMetadata { workspace_root, root_package }
    }

    /// The workspace that a `cargo metadata` answer describes.
    pub fn from_cargo(metadata: &cargo_metadata::Metadata) -> (workspace: WorkspaceMetadata)
        ensures
            workspace@.workspace_root == cargo_workspace_root(*metadata),
            workspace@.root_package == cargo_root_package(*metadata),
    {
        WorkspaceMetadata {
            workspace_root: workspace_root_of(metadata),
            root_package: root_package_name_of(metadata),
        }
    }

    /// The name of the root package, if the workspace has one.
    pub fn root_package_name(&self) -> (name: Option<String>)
        ensures
            text_of(name) == self@.root_package,
    {
        copy_text(&self.root_package)
    }

    /// The workspace's root directory.
    pub fn root_path(&self) -> (path: String)
        ensures
            path@ == self@.workspace_root,
    {
        owned(self.workspace_root.as_str())
    }
}

} // verus!
