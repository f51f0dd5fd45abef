//! The lines that a run shows to the operator.

use vstd::prelude::*;
use crate::text::joined;

verus! {

/// How a line is shown: progress goes to the log, a failure that the run
/// survives goes to the error stream.
#[derive(Debug, Clone, Copy, PartialEq, Eq, Structural)]
pub enum Severity {
    Info,
    Error,
}

/// One line for the operator.
#[derive(Debug, PartialEq, Eq)]
pub struct Diagnostic {
    pub severity: Severity,
    pub text: String,
}

/// The mathematical model of [`Diagnostic`].
pub struct DiagnosticView {
    pub severity: Severity,
    pub text: Seq<char>,
}

impl View for Diagnostic {
    type V = DiagnosticView;

    open spec fn view(&self) -> DiagnosticView {
        DiagnosticView { severity: self.severity, text: self.text@ }
    }
}

/// The models of a list of lines, in order.
pub open spec fn lines_of(diagnostics: Seq<Diagnostic>) -> Seq<DiagnosticView> {
    diagnostics.map_values(|d: Diagnostic| d@)
}

/// The text that `bytesize::ByteSize` displays for a number of bytes.
pub uninterp spec fn byte_size_text(bytes: u64) -> Seq<char>;

/// Formats a number of bytes through the `Display` impl of
/// `bytesize::ByteSize`, which shows a size below 1024 in bytes and a larger
/// one in a binary unit with one decimal place. That text depends on the
/// number alone; the contract gives it a name and claims nothing else of it.
#[verifier::external_body]
fn format_byte_size(bytes: u64) -> (text: String)
    ensures
        text@ == byte_size_text(bytes),
{
    bytesize::ByteSize(bytes).to_string()
}

/// The progress line that opens a run.
pub open spec fn generating_package_line(package_name: Seq<char>) -> DiagnosticView {
    DiagnosticView { severity: Severity::Info, text: "Generating package: "@ + package_name + "..."@ }
}

/// The progress line that shows a formatted file size.
pub open spec fn file_size_line(size_text: Seq<char>) -> DiagnosticView {
    DiagnosticView { severity: Severity::Info, text: "File size: "@ + size_text }
}

/// The progress line that announces the creation of the output directory.
pub open spec fn creating_dist_dir_line(dist_dir: Seq<char>) -> DiagnosticView {
    DiagnosticView { severity: Severity::Info, text: "Creating dist dir: "@ + dist_dir }
}

/// The error line for a file that could not be relocated.
pub open spec fn relocation_failed_line(detail: Seq<char>) -> DiagnosticView {
    DiagnosticView { severity: Severity::Error, text: "Error renaming: "@ + detail }
}

/// Builds the progress line that opens a run.
pub fn generating_package(package_name: &str) -> (line: Diagnostic)
    ensures
        line@ == generating_package_line(package_name@),
{
    let text = joined("Generating package: ", package_name);
    Diagnostic { severity: Severity::Info, text: joined(text.as_str(), "...") }
}

/// Builds the progress line for a size that is already formatted.
pub fn file_size(size_text: &str) -> (line: Diagnostic)
    ensures
        line@ == file_size_line(size_text@),
{
    Diagnostic { severity: Severity::Info, text: joined("File size: ", size_text) }
}

/// Builds the progress line for the size of the produced binary.
pub fn file_size_of(bytes: u64) -> (line: Diagnostic)
    ensures
        line@ == file_size_line(byte_size_text(bytes)),
{
    let size_text = format_byte_size(bytes);
    file_size(size_text.as_str())
}

/// Builds the progress line that announces the creation of the output
/// directory.
pub fn creating_dist_dir(dist_dir: &str) -> (line: Diagnostic)
    ensures
        line@ == creating_dist_dir_line(dist_dir@),
{
    Diagnostic { severity: Severity::Info, text: joined("Creating dist dir: ", dist_dir) }
}

/// Builds the error line for a file that could not be relocated.
pub fn relocation_failed(detail: &str) -> (line: Diagnostic)
    ensures
        line@ == relocation_failed_line(detail@),
{
    Diagnostic { severity: Severity::Error, text: joined("Error renaming: ", detail) }
}

} // verus!
