//! Small helpers for owned text and its mathematical view.

use vstd::prelude::*;
use vstd::string::StringExecFns;

verus! {

/// The view of an optional string: the characters it holds, if any.
pub open spec fn text_of(value: Option<String>) -> Option<Seq<char>> {
    match value {
        Some(s) => Some(s@),
        None => None,
    }
}

/// An owned copy of a string slice.
pub(crate) fn owned(s: &str) -> (out: String)
    ensures
        out@ == s@,
{
    String::from_str(s)
}

/// A copy of an optional string.
pub(crate) fn copy_text(value: &Option<String>) -> (out: Option<String>)
    ensures
        text_of(out) == text_of(*value),
{
    match value {
        Some(s) => Some(owned(s.as_str())),
        None => None,
    }
}

/// `head` followed by `tail`.
pub(crate) fn joined(head: &str, tail: &str) -> (out: String)
    ensures
        out@ == head@ + tail@,
{
    String::from_str(head).concat(tail)
}

} // verus!
