//! Reusable dialog pieces: the instruction bar's content and the
//! validation status line.

use vstd::prelude::*;

verus! {

/// Horizontal padding between a dialog's border and its content.
pub const DIALOG_CONTENT_PADDING_X: u16 = 1;

/// Vertical padding between a dialog's border and its content.
pub const DIALOG_CONTENT_PADDING_Y: u16 = 1;

/// An instruction bar: key/action pairs shown along a dialog's
/// bottom edge.
#[derive(Debug, Clone, PartialEq, Eq)]
pub struct InstructionBar {
    pub instructions: Vec<(&'static str, &'static str)>,
}

impl InstructionBar {
    /// A bar with the given key/action pairs.
    pub fn new(instructions: Vec<(&'static str, &'static str)>) -> (r: InstructionBar)
        ensures
            r.instructions == instructions,
    {
        InstructionBar { instructions }
    }
}

/// A validation status line: at most one of an error or a success
/// message.
#[derive(Debug, Clone, PartialEq, Eq)]
pub struct StatusLine {
    pub error: Option<String>,
    pub success: Option<String>,
}

impl StatusLine {
    /// An empty status line.
    pub fn new() -> (r: StatusLine)
        ensures
            r.error is None,
            r.success is None,
    {
        StatusLine { error: None, success: None }
    }

    /// A status line showing an error; any success is cleared.
    pub fn error(self, msg: String) -> (r: StatusLine)
        ensures
            r.error == Some(msg),
            r.success is None,
    {
        StatusLine { error: Some(msg), success: None }
    }

    /// A status line showing a success; any error is cleared.
    pub fn success(self, msg: String) -> (r: StatusLine)
        ensures
            r.error is None,
            r.success == Some(msg),
    {
        StatusLine { error: None, success: Some(msg) }
    }

    /// The status for a validation outcome: an error wins, then a
    /// success message if the input is valid, else nothing.
    pub fn from_result(error: Option<String>, is_valid: bool, success_msg: String) -> (r:
        StatusLine)
        ensures
            error is Some ==> r.error == error && r.success is None,
            error is None && is_valid ==> r.error is None && r.success == Some(success_msg),
            error is None && !is_valid ==> r.error is None && r.success is None,
    {
        match error {
            Some(err) => StatusLine { error: Some(err), success: None },
            None => {
                if is_valid {
                    StatusLine { error: None, success: Some(success_msg) }
                } else {
                    StatusLine { error: None, success: None }
                }
            },
        }
    }
}

} // verus!
