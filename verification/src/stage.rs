//! Where the produced files go, and what became of them.

use vstd::prelude::*;
use crate::text::{joined, text_of};

verus! {

/// The two files that a successful build leaves behind.
#[derive(Debug, PartialEq, Eq)]
pub struct BuildResult {
    /// The WebAssembly binary.
    pub wasm_path: String,
    /// The script that loads it.
    pub js_path: String,
}

/// The mathematical model of [`BuildResult`].
pub struct BuildResultView {
    pub wasm_path: Seq<char>,
    pub js_path: Seq<char>,
}

impl View for BuildResult {
    type V = BuildResultView;

    open spec fn view(&self) -> BuildResultView {
        BuildResultView { wasm_path: self.wasm_path@, js_path: self.js_path@ }
    }
}

/// The staged place of the WebAssembly binary.
pub open spec fn wasm_destination(dist_dir: Seq<char>) -> Seq<char> {
    dist_dir + "/app.wasm"@
}

/// The staged place of the loader script.
pub open spec fn js_destination(dist_dir: Seq<char>) -> Seq<char> {
    dist_dir + "/app.js"@
}

/// Computes the staged place of the WebAssembly binary.
pub fn wasm_target(dist_dir: &str) -> (path: String)
    ensures
        path@ == wasm_destination(dist_dir@),
{
    joined(dist_dir, "/app.wasm")
}

/// Computes the staged place of the loader script.
pub fn js_target(dist_dir: &str) -> (path: String)
    ensures
        path@ == js_destination(dist_dir@),
{
    joined(dist_dir, "/app.js")
}

/// What staging achieved. Each file is recorded on its own: a failed
/// relocation holds the reason, a successful one holds nothing.
#[derive(Debug, PartialEq, Eq)]
pub struct StagingOutcome {
    /// Why the WebAssembly binary could not be relocated, if it could not.
    pub wasm_failure: Option<String>,
    /// Why the loader script could not be relocated, if it could not.
    pub js_failure: Option<String>,
}

/// The mathematical model of [`StagingOutcome`].
pub struct StagingOutcomeView {
    pub wasm_failure: Option<Seq<char>>,
    pub js_failure: Option<Seq<char>>,
}

impl StagingOutcomeView {
    /// Both files reached the distribution directory.
    pub open spec fn fully_staged(self) -> bool {
        self.wasm_failure is None && self.js_failure is None
    }
}

impl View for StagingOutcome {
    type V = StagingOutcomeView;

    open spec fn view(&self) -> StagingOutcomeView {
        StagingOutcomeView {
            wasm_failure: text_of(self.wasm_failure),
            js_failure: text_of(self.js_failure),
        }
    }
}

impl StagingOutcome {
    /// Whether the WebAssembly binary reached the distribution directory.
    pub fn wasm_staged(&self) -> (staged: bool)
        ensures
            staged == (self@.wasm_failure is None),
    {
        self.wasm_failure.is_none()
    }

    /// Whether the loader script reached the distribution directory.
    pub fn js_staged(&self) -> (staged: bool)
        ensures
            staged == (self@.js_failure is None),
    {
        self.js_failure.is_none()
    }

    /// Whether both files reached the distribution directory.
    pub fn fully_staged(&self) -> (staged: bool)
        ensures
            staged == self@.fully_staged(),
    {
        self.wasm_failure.is_none() && self.js_failure.is_none()
    }
}

} // verus!
