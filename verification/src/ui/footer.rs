//! The global footer: which keyboard hints to show for the current
//! view and input mode.

use vstd::prelude::*;
use crate::ui::spinner::KnightRiderSpinner;

verus! {

/// The top-level view the terminal shows.
#[derive(Debug, Clone, Copy, PartialEq, Eq, Structural)]
pub enum ViewMode {
    Chat,
    RawEvents,
}

/// Where keyboard input currently goes.
#[derive(Debug, Clone, Copy, PartialEq, Eq, Structural)]
pub enum InputMode {
    Normal,
    Editing,
    SidebarNavigation,
    QueueEditing,
}

/// Which hint set the footer shows.
#[derive(Debug, Clone, Copy, PartialEq, Eq, Structural)]
pub enum FooterContext {
    /// No tabs open.
    Empty,
    /// Normal chat mode with tabs.
    Chat,
    /// Sidebar navigation mode.
    Sidebar,
    /// Raw events view mode.
    RawEvents,
}

/// What `FooterContext::from_state` decides: no tabs means the
/// empty context; the raw-events view its own; chat becomes the
/// sidebar context exactly while the sidebar has input focus.
pub open spec fn spec_footer_context(view_mode: ViewMode, input_mode: InputMode, has_tabs: bool) -> FooterContext {
    if !has_tabs {
        FooterContext::Empty
    } else {
        match view_mode {
            ViewMode::RawEvents => FooterContext::RawEvents,
            ViewMode::Chat => if input_mode == InputMode::SidebarNavigation {
                FooterContext::Sidebar
            } else {
                FooterContext::Chat
            },
        }
    }
}

impl FooterContext {
    /// Decides the footer context from the view mode, the input
    /// mode, and whether any tab is open.
    pub fn from_state(view_mode: ViewMode, input_mode: InputMode, has_tabs: bool) -> (r:
        FooterContext)
        ensures
            r == spec_footer_context(view_mode, input_mode, has_tabs),
    {
        if !has_tabs {
            return FooterContext::Empty;
        }
        match view_mode {
            ViewMode::RawEvents => FooterContext::RawEvents,
            ViewMode::Chat => {
                if input_mode == InputMode::SidebarNavigation {
                    FooterContext::Sidebar
                } else {
                    FooterContext::Chat
                }
            },
        }
    }
}

/// The footer's content: the hint set plus an optional spinner and
/// message on the left.
#[derive(Debug, Clone, PartialEq, Eq)]
pub struct GlobalFooter {
    pub hints: Vec<(&'static str, &'static str)>,
    pub spinner: Option<KnightRiderSpinner>,
    pub message: Option<String>,
}

/// The hint set for each context.
pub open spec fn spec_hints_for(context: FooterContext) -> Seq<(&'static str, &'static str)> {
    match context {
        FooterContext::Empty => seq![
            ("C-n", "new project"),
            ("C-t", "sidebar"),
            ("M-i", "import session"),
            ("C-q", "quit"),
        ],
        FooterContext::Chat => seq![
            ("tab", "next tab"),
            ("C-o", "model"),
            ("C-t", "sidebar"),
            ("C-n", "new project"),
            ("M-S-w", "close"),
            ("C-c", "stop"),
            ("C-q", "quit"),
        ],
        FooterContext::Sidebar => seq![
            ("up/down", "navigate"),
            ("enter", "select"),
            ("h/l", "collapse/expand"),
            ("r", "add repo"),
            ("C-n", "new project"),
            ("esc", "exit"),
        ],
        FooterContext::RawEvents => seq![
            ("j/k", "nav"),
            ("e", "detail"),
            ("C-j/k", "panel"),
            ("c", "copy"),
            ("C-g", "chat"),
        ],
    }
}

impl GlobalFooter {
    /// The chat footer.
    pub fn new() -> (r: GlobalFooter)
        ensures
            r.hints@ == spec_hints_for(FooterContext::Chat),
            r.spinner is None,
            r.message is None,
    {
        Self::for_context(FooterContext::Chat)
    }

    /// The footer for a specific context.
    pub fn for_context(context: FooterContext) -> (r: GlobalFooter)
        ensures
            r.hints@ == spec_hints_for(context),
            r.spinner is None,
            r.message is None,
    {
        let hints = match context {
            FooterContext::Empty => Self::empty_hints(),
            FooterContext::Chat => Self::chat_hints(),
            FooterContext::Sidebar => Self::sidebar_hints(),
            FooterContext::RawEvents => Self::raw_events_hints(),
        };
        GlobalFooter { hints, spinner: None, message: None }
    }

    /// The footer the application state calls for.
    pub fn from_state(view_mode: ViewMode, input_mode: InputMode, has_tabs: bool) -> (r:
        GlobalFooter)
        ensures
            r.hints@ == spec_hints_for(spec_footer_context(view_mode, input_mode, has_tabs)),
            r.spinner is None,
            r.message is None,
    {
        let context = FooterContext::from_state(view_mode, input_mode, has_tabs);
        Self::for_context(context)
    }

    /// Attaches a spinner to the footer's left side.
    pub fn with_spinner(self, spinner: Option<KnightRiderSpinner>) -> (r: GlobalFooter)
        ensures
            r.hints == self.hints,
            r.spinner == spinner,
            r.message == self.message,
    {
        GlobalFooter { spinner, ..self }
    }

    /// Attaches a message to the footer's left side.
    pub fn with_message(self, message: Option<String>) -> (r: GlobalFooter)
        ensures
            r.hints == self.hints,
            r.spinner == self.spinner,
            r.message == message,
    {
        GlobalFooter { message, ..self }
    }

    /// Hints for the empty state (no tabs open).
    pub fn empty_hints() -> (r: Vec<(&'static str, &'static str)>)
        ensures
            r@ == spec_hints_for(FooterContext::Empty),
    {
        let mut v: Vec<(&'static str, &'static str)> = Vec::new();
        v.push(("C-n", "new project"));
        v.push(("C-t", "sidebar"));
        v.push(("M-i", "import session"));
        v.push(("C-q", "quit"));
        proof {
            assert(v@ =~= spec_hints_for(FooterContext::Empty));
        }
        v
    }

    /// Hints for chat mode.
    pub fn chat_hints() -> (r: Vec<(&'static str, &'static str)>)
        ensures
            r@ == spec_hints_for(FooterContext::Chat),
    {
        let mut v: Vec<(&'static str, &'static str)> = Vec::new();
        v.push(("tab", "next tab"));
        v.push(("C-o", "model"));
        v.push(("C-t", "sidebar"));
        v.push(("C-n", "new project"));
        v.push(("M-S-w", "close"));
        v.push(("C-c", "stop"));
        v.push(("C-q", "quit"));
        proof {
            assert(v@ =~= spec_hints_for(FooterContext::Chat));
        }
        v
    }

    /// Hints for sidebar navigation mode.
    pub fn sidebar_hints() -> (r: Vec<(&'static str, &'static str)>)
        ensures
            r@ == spec_hints_for(FooterContext::Sidebar),
    {
        let mut v: Vec<(&'static str, &'static str)> = Vec::new();
        v.push(("up/down", "navigate"));
        v.push(("enter", "select"));
        v.push(("h/l", "collapse/expand"));
        v.push(("r", "add repo"));
        v.push(("C-n", "new project"));
        v.push(("esc", "exit"));
        proof {
            assert(v@ =~= spec_hints_for(FooterContext::Sidebar));
        }
        v
    }

    /// Hints for the raw events view.
    pub fn raw_events_hints() -> (r: Vec<(&'static str, &'static str)>)
        ensures
            r@ == spec_hints_for(FooterContext::RawEvents),
    {
        let mut v: Vec<(&'static str, &'static str)> = Vec::new();
        v.push(("j/k", "nav"));
        v.push(("e", "detail"));
        v.push(("C-j/k", "panel"));
        v.push(("c", "copy"));
        v.push(("C-g", "chat"));
        proof {
            assert(v@ =~= spec_hints_for(FooterContext::RawEvents));
        }
        v
    }
}

} // verus!
