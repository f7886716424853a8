//! The missing-tool dialog: shown when a required external tool is
//! not found, collecting a path from the user.

use vstd::prelude::*;
use crate::config::Tool;
use crate::file_path_detector;
use crate::strutil;

verus! {

/// The outcome of the dialog.
#[derive(Debug, Clone, PartialEq, Eq)]
pub enum MissingToolResult {
    /// The user provided a path that exists.
    PathProvided(String),
    /// The user skipped (only offered for optional tools).
    Skipped,
    /// The user chose to quit.
    Quit,
}

/// The dialog's state: the missing tool, whether it is required,
/// an optional context message, and the path input.
#[derive(Debug, Clone, PartialEq, Eq)]
pub struct MissingToolDialogState {
    pub visible: bool,
    pub tool: Tool,
    pub is_required: bool,
    pub context_message: Option<String>,
    /// The path input's characters.
    pub input: Vec<char>,
    /// The cursor, as a character index into `input`.
    pub cursor: usize,
    pub error: Option<String>,
    pub validating: bool,
}

impl MissingToolDialogState {
    /// The cursor points into or just past the input.
    pub open spec fn wf(self) -> bool {
        self.cursor <= self.input@.len()
    }

    /// A fresh, hidden dialog.
    pub fn new() -> (r: MissingToolDialogState)
        ensures
            r.wf(),
            !r.visible,
            r.tool == Tool::Git,
            r.is_required,
            r.input@.len() == 0,
            r.cursor == 0,
            r.error is None,
            !r.validating,
    {
        MissingToolDialogState {
            visible: false,
            tool: Tool::Git,
            is_required: true,
            context_message: None,
            input: Vec::new(),
            cursor: 0,
            error: None,
            validating: false,
        }
    }

    /// Opens the dialog for a missing tool; a tool is treated as
    /// required when it is intrinsically required or it is an agent
    /// (at least one agent must be configured).
    pub fn show(&mut self, tool: Tool)
        ensures
            final(self).wf(),
            final(self).visible,
            final(self).tool == tool,
            final(self).is_required == (tool == Tool::Git || crate::config::spec_tool_is_agent(
                tool,
            )),
            final(self).context_message is None,
            final(self).input@.len() == 0,
            final(self).cursor == 0,
            final(self).error is None,
            !final(self).validating,
    {
        self.visible = true;
        self.tool = tool;
        self.is_required = tool.is_required() || tool.is_agent();
        self.context_message = None;
        self.input.clear();
        self.cursor = 0;
        self.error = None;
        self.validating = false;
    }

    /// Opens the dialog with a context message explaining the
    /// feature that needs the tool; such dialogs are optional.
    pub fn show_with_context(&mut self, tool: Tool, context: String)
        ensures
            final(self).wf(),
            final(self).visible,
            final(self).tool == tool,
            !final(self).is_required,
            final(self).context_message == Some(context),
            final(self).input@.len() == 0,
            final(self).error is None,
    {
        self.show(tool);
        self.context_message = Some(context);
        self.is_required = false;
    }

    /// Opens the dialog for a missing agent tool: it blocks until
    /// at least one agent is configured.
    pub fn show_for_agent(&mut self, preferred_tool: Tool)
        ensures
            final(self).wf(),
            final(self).visible,
            final(self).tool == preferred_tool,
            final(self).is_required,
            final(self).input@.len() == 0,
    {
        self.show(preferred_tool);
        self.is_required = true;
    }

    /// Hides the dialog, clearing any error.
    pub fn dismiss(&mut self)
        requires
            old(self).wf(),
        ensures
            final(self).wf(),
            !final(self).visible,
            final(self).error is None,
            !final(self).validating,
            final(self).input == old(self).input,
            final(self).cursor == old(self).cursor,
    {
        self.visible = false;
        self.error = None;
        self.validating = false;
    }

    /// Whether the dialog is visible.
    pub fn is_visible(&self) -> (r: bool)
        ensures
            r == self.visible,
    {
        self.visible
    }

    /// Inserts a character at the cursor, clearing any error.
    pub fn insert_char(&mut self, c: char)
        requires
            old(self).wf(),
        ensures
            final(self).wf(),
            final(self).input@ == old(self).input@.insert(old(self).cursor as int, c),
            final(self).cursor == old(self).cursor + 1,
            final(self).error is None,
            final(self).visible == old(self).visible,
            final(self).tool == old(self).tool,
            final(self).is_required == old(self).is_required,
            final(self).context_message == old(self).context_message,
            final(self).validating == old(self).validating,
    {
        self.input.insert(self.cursor, c);
        let n = self.input.len();
        proof {
            assert(self.cursor < n);
        }
        self.cursor = self.cursor + 1;
        self.error = None;
    }

    /// Deletes the character before the cursor, if any, clearing
    /// any error when something was deleted.
    pub fn backspace(&mut self)
        requires
            old(self).wf(),
        ensures
            final(self).wf(),
            old(self).cursor == 0 ==> final(self).input == old(self).input && final(self).cursor
                == 0,
            old(self).cursor > 0 ==> final(self).input@ == old(self).input@.remove(
                old(self).cursor - 1,
            ) && final(self).cursor == old(self).cursor - 1 && final(self).error is None,
            final(self).visible == old(self).visible,
            final(self).tool == old(self).tool,
            final(self).is_required == old(self).is_required,
            final(self).context_message == old(self).context_message,
            final(self).validating == old(self).validating,
    {
        if self.cursor > 0 {
            let _ = self.input.remove(self.cursor - 1);
            self.cursor = self.cursor - 1;
            self.error = None;
        }
    }

    /// Deletes the character at the cursor, if any, clearing any
    /// error when something was deleted.
    pub fn delete(&mut self)
        requires
            old(self).wf(),
        ensures
            final(self).wf(),
            old(self).cursor >= old(self).input@.len() ==> final(self).input == old(self).input,
            old(self).cursor < old(self).input@.len() ==> final(self).input@ == old(self).input@.remove(old(self).cursor as int) && final(self).error is None,
            final(self).cursor == old(self).cursor,
            final(self).visible == old(self).visible,
            final(self).tool == old(self).tool,
            final(self).is_required == old(self).is_required,
            final(self).context_message == old(self).context_message,
            final(self).validating == old(self).validating,
    {
        if self.cursor < self.input.len() {
            let _ = self.input.remove(self.cursor);
            self.error = None;
        }
    }

    /// Moves the cursor one character left.
    pub fn move_left(&mut self)
        requires
            old(self).wf(),
        ensures
            final(self).wf(),
            final(self).input == old(self).input,
            final(self).cursor == if old(self).cursor > 0 {
                (old(self).cursor - 1) as usize
            } else {
                0usize
            },
    {
        if self.cursor > 0 {
            self.cursor = self.cursor - 1;
        }
    }

    /// Moves the cursor one character right.
    pub fn move_right(&mut self)
        requires
            old(self).wf(),
        ensures
            final(self).wf(),
            final(self).input == old(self).input,
            final(self).cursor == if old(self).cursor < old(self).input@.len() {
                (old(self).cursor + 1) as usize
            } else {
                old(self).cursor
            },
    {
        if self.cursor < self.input.len() {
            self.cursor = self.cursor + 1;
        }
    }

    /// Moves the cursor to the start.
    pub fn move_to_start(&mut self)
        ensures
            final(self).wf(),
            final(self).input == old(self).input,
            final(self).cursor == 0,
    {
        self.cursor = 0;
    }

    /// Moves the cursor to the end.
    pub fn move_to_end(&mut self)
        ensures
            final(self).wf(),
            final(self).input == old(self).input,
            final(self).cursor == old(self).input@.len(),
    {
        self.cursor = self.input.len();
    }

    /// Clears the input and any error.
    pub fn clear_input(&mut self)
        ensures
            final(self).wf(),
            final(self).input@.len() == 0,
            final(self).cursor == 0,
            final(self).error is None,
            final(self).visible == old(self).visible,
            final(self).tool == old(self).tool,
            final(self).is_required == old(self).is_required,
            final(self).context_message == old(self).context_message,
            final(self).validating == old(self).validating,
    {
        self.input.clear();
        self.cursor = 0;
        self.error = None;
    }

    /// Validates the input: an effectively empty path records an
    /// error; otherwise the filesystem is asked whether the path
    /// exists, and a hit becomes the dialog's result while a miss
    /// records an error.  The filesystem's answer is the outside
    /// world's; the contract pins everything that does not depend
    /// on it.
    pub fn validate(&mut self) -> (r: Option<MissingToolResult>)
        requires
            old(self).wf(),
        ensures
            final(self).wf(),
            final(self).input == old(self).input,
            final(self).cursor == old(self).cursor,
            strutil::spec_trim(old(self).input@).len() == 0 ==> r is None && final(self).error is Some,
            match r {
                Some(result) => (result matches MissingToolResult::PathProvided(p) && p@ == old(self).input@) && final(self).error is None,
                None => final(self).error is Some,
            },
    {
        let trimmed = strutil::trim_chars(&self.input);
        if trimmed.len() == 0 {
            let mut message = String::new();
            strutil::append_str(&mut message, "Please enter a path");
            self.error = Some(message);
            return None;
        }
        let path = strutil::chars_to_string(&self.input);
        if file_path_detector::path_exists(path.as_str()) {
            self.error = None;
            Some(MissingToolResult::PathProvided(path))
        } else {
            let mut message = String::new();
            strutil::append_str(&mut message, "Path does not exist");
            self.error = Some(message);
            None
        }
    }

    /// Records an error message.
    pub fn set_error(&mut self, error: String)
        requires
            old(self).wf(),
        ensures
            final(self).wf(),
            final(self).error == Some(error),
            final(self).input == old(self).input,
    {
        self.error = Some(error);
    }
}

/// The dialog widget: rendering belongs to the caller, which draws
/// from the borrowed state.
#[derive(Debug)]
pub struct MissingToolDialog<'a> {
    pub state: &'a MissingToolDialogState,
}

impl<'a> MissingToolDialog<'a> {
    /// A widget over the given state.
    pub fn new(state: &'a MissingToolDialogState) -> (r: MissingToolDialog<'a>)
        ensures
            r.state == state,
    {
        MissingToolDialog { state }
    }
}

/// The startup gate shown until every required tool is configured:
/// it owns its dialog state.
#[derive(Debug, Clone, PartialEq, Eq)]
pub struct StartupToolDialog {
    pub state: MissingToolDialogState,
}

impl StartupToolDialog {
    /// A gate whose dialog starts on the given missing tool.
    pub fn new(tool: Tool) -> (r: StartupToolDialog)
        ensures
            r.state.wf(),
            r.state.visible,
            r.state.tool == tool,
            r.state.is_required,
    {
        let mut state = MissingToolDialogState::new();
        state.show_for_agent(tool);
        StartupToolDialog { state }
    }

    /// Read access to the dialog state.
    pub fn state(&self) -> (r: &MissingToolDialogState)
        ensures
            r == &self.state,
    {
        &self.state
    }

    /// Write access to the dialog state.
    pub fn state_mut(&mut self) -> (r: &mut MissingToolDialogState)
        ensures
            *r == old(self).state,
            final(self).state == *final(r),
    {
        &mut self.state
    }
}

} // verus!
