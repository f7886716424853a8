//! Request and response shapes of the web API's handlers.  The
//! handlers themselves (routing, JSON, stores) belong to the
//! application around the library; these are the plain values they
//! exchange with it.

use vstd::prelude::*;

verus! {

/// How a queued message is delivered to the agent.
#[derive(Debug, Clone, Copy, PartialEq, Eq, Structural)]
pub enum QueuedMessageMode {
    /// Sent as a follow-up once the agent finishes its turn.
    FollowUp,
    /// Injected immediately to steer the running turn.
    Steer,
}

/// An image attached to a queued message, stored on disk.
#[derive(Debug, Clone, PartialEq, Eq)]
pub struct QueuedImageAttachment {
    pub path: String,
    pub placeholder: String,
}

/// Response shape of a queued image attachment.
#[derive(Debug, Clone, PartialEq, Eq)]
pub struct QueuedImageAttachmentResponse {
    pub path: String,
    pub placeholder: String,
}

impl QueuedImageAttachmentResponse {
    /// Carries the attachment's fields over unchanged.
    pub fn from_attachment(image: &QueuedImageAttachment) -> (r: QueuedImageAttachmentResponse)
        ensures
            r.path == image.path,
            r.placeholder == image.placeholder,
    {
        QueuedImageAttachmentResponse {
            path: image.path.clone(),
            placeholder: image.placeholder.clone(),
        }
    }
}

/// Request to append a message to a session's queue.
#[derive(Debug, Clone, PartialEq, Eq)]
pub struct AddQueueRequest {
    pub mode: QueuedMessageMode,
    pub text: String,
    pub images: Vec<QueuedImageAttachment>,
}

/// Request to edit a queued message.
#[derive(Debug, Clone, PartialEq, Eq)]
pub struct UpdateQueueRequest {
    pub text: Option<String>,
    pub mode: Option<QueuedMessageMode>,
    pub position: Option<usize>,
}

/// Response carrying one theme's full color table, each color as a
/// hex string.
#[derive(Debug, Clone, PartialEq, Eq)]
pub struct ThemeColorsResponse {
    pub bg_terminal: String,
    pub bg_base: String,
    pub bg_surface: String,
    pub bg_elevated: String,
    pub bg_highlight: String,
    pub markdown_code_bg: String,
    pub markdown_inline_code_bg: String,
    pub text_bright: String,
    pub text_primary: String,
    pub text_secondary: String,
    pub text_muted: String,
    pub text_faint: String,
    pub accent_primary: String,
    pub accent_secondary: String,
    pub accent_success: String,
    pub accent_warning: String,
    pub accent_error: String,
    pub agent_nova: String,
    pub agent_codex: String,
    pub pr_open_bg: String,
    pub pr_merged_bg: String,
    pub pr_closed_bg: String,
    pub pr_draft_bg: String,
    pub pr_unknown_bg: String,
    pub border_default: String,
    pub border_focused: String,
    pub border_dimmed: String,
    pub diff_add: String,
    pub diff_remove: String,
}

/// Response for a single theme.
#[derive(Debug, Clone, PartialEq, Eq)]
pub struct ThemeResponse {
    pub name: String,
    pub display_name: String,
    pub is_light: bool,
    pub colors: ThemeColorsResponse,
}

/// Response describing a theme without its colors.
#[derive(Debug, Clone, PartialEq, Eq)]
pub struct ThemeInfoResponse {
    pub name: String,
    pub display_name: String,
    pub is_light: bool,
    pub source: String,
}

/// Response listing the available themes.
#[derive(Debug, Clone, PartialEq, Eq)]
pub struct ListThemesResponse {
    pub themes: Vec<ThemeInfoResponse>,
    pub current: String,
}

/// Request to select a theme.
#[derive(Debug, Clone, PartialEq, Eq)]
pub struct SetThemeRequest {
    pub name: String,
}

/// Request to create a workspace.
#[derive(Debug, Clone, PartialEq, Eq)]
pub struct CreateWorkspaceRequest {
    pub name: String,
    pub branch: String,
    pub path: String,
    pub is_default: bool,
}

/// Response for git diff statistics, as the workspace handlers
/// serve it.
#[derive(Debug, Clone, Copy, PartialEq, Eq, Structural)]
pub struct GitDiffStatsResponse {
    pub additions: usize,
    pub deletions: usize,
    pub files_changed: usize,
}

/// Response for PR status, as the workspace handlers serve it: the
/// compact form with the number, the state label, and the check
/// verdict.
#[derive(Debug, Clone, PartialEq, Eq)]
pub struct PrStatusResponse {
    pub number: u32,
    pub state: String,
    pub checks_passing: bool,
    pub url: Option<String>,
}

/// Response for a workspace's combined status, as the workspace
/// handlers serve it.
#[derive(Debug, Clone, PartialEq, Eq)]
pub struct WorkspaceStatusResponse {
    pub git_stats: Option<GitDiffStatsResponse>,
    pub pr_status: Option<PrStatusResponse>,
}

} // verus!
