//! Workspace status facets: git diff statistics and pull-request
//! status, with the response shapes the status cache stores.
//!
//! The external tools that compute these (git, a PR-hosting CLI)
//! are collaborators; their structured results arrive here as plain
//! values and are mapped to response form by verified code.

use vstd::prelude::*;

verus! {

/// Local git diff statistics, as the external git invocation
/// reports them.
#[derive(Debug, Clone, Copy, PartialEq, Eq, Structural, Default)]
pub struct GitDiffStats {
    pub additions: usize,
    pub deletions: usize,
    pub files_changed: usize,
}

impl GitDiffStats {
    /// Whether the working tree differs from the base at all.
    pub fn has_changes(&self) -> (r: bool)
        ensures
            r == spec_has_changes(*self),
    {
        self.additions > 0 || self.deletions > 0 || self.files_changed > 0
    }
}

/// Whether any of the three counters is non-zero.
pub open spec fn spec_has_changes(stats: GitDiffStats) -> bool {
    stats.additions > 0 || stats.deletions > 0 || stats.files_changed > 0
}

/// The lifecycle state of a pull request.
#[derive(Debug, Clone, Copy, PartialEq, Eq, Structural)]
pub enum PrState {
    Open,
    Merged,
    Closed,
    Draft,
    Unknown,
}

/// The aggregate state of a PR's checks.
#[derive(Debug, Clone, Copy, PartialEq, Eq, Structural)]
pub enum CheckState {
    Passing,
    Failing,
    Pending,
}

/// Counts of a PR's checks by outcome.
#[derive(Debug, Clone, Copy, PartialEq, Eq, Structural, Default)]
pub struct ChecksSummary {
    pub total: usize,
    pub passed: usize,
    pub failed: usize,
    pub pending: usize,
    pub skipped: usize,
}

impl ChecksSummary {
    /// The aggregate state: failing if anything failed, pending if
    /// anything is still running, passing otherwise.
    pub fn state(&self) -> (r: CheckState)
        ensures
            r == spec_checks_state(*self),
    {
        if self.failed > 0 {
            CheckState::Failing
        } else if self.pending > 0 {
            CheckState::Pending
        } else {
            CheckState::Passing
        }
    }
}

/// What `ChecksSummary::state` returns.
pub open spec fn spec_checks_state(c: ChecksSummary) -> CheckState {
    if c.failed > 0 {
        CheckState::Failing
    } else if c.pending > 0 {
        CheckState::Pending
    } else {
        CheckState::Passing
    }
}

/// Whether the PR could be merged as it stands.
#[derive(Debug, Clone, Copy, PartialEq, Eq, Structural)]
pub enum MergeReadiness {
    Ready,
    Blocked,
    HasConflicts,
    Unknown,
}

/// The host's mergeability verdict.
#[derive(Debug, Clone, Copy, PartialEq, Eq, Structural)]
pub enum MergeableStatus {
    Mergeable,
    Conflicting,
    Unknown,
}

/// The host's review verdict.  `Unreviewed` stands for the absence
/// of any decision.
#[derive(Debug, Clone, Copy, PartialEq, Eq, Structural)]
pub enum ReviewDecision {
    Approved,
    ReviewRequired,
    ChangesRequested,
    Unreviewed,
}

/// The PR-hosting CLI's structured answer for a workspace.
#[derive(Debug, Clone, PartialEq, Eq)]
pub struct PrStatus {
    /// Whether a PR exists for the branch at all.
    pub exists: bool,
    pub number: Option<u32>,
    pub state: PrState,
    pub url: Option<String>,
    pub merge_readiness: MergeReadiness,
    pub checks: ChecksSummary,
    pub mergeable: MergeableStatus,
    pub review_decision: ReviewDecision,
}

/// Whether the PR-hosting CLI itself can be used: installed and
/// authenticated.
#[derive(Debug, Clone, Copy, PartialEq, Eq, Structural)]
pub struct GhStatus {
    pub installed: bool,
    pub authenticated: bool,
}

/// Response for git diff statistics.
#[derive(Debug, Clone, Copy, PartialEq, Eq, Structural, Default)]
pub struct GitDiffStatsResponse {
    pub additions: usize,
    pub deletions: usize,
    pub files_changed: usize,
}

impl GitDiffStatsResponse {
    /// Carries the three counters over unchanged.
    pub fn from_stats(stats: &GitDiffStats) -> (r: GitDiffStatsResponse)
        ensures
            r.additions == stats.additions,
            r.deletions == stats.deletions,
            r.files_changed == stats.files_changed,
    {
        GitDiffStatsResponse {
            additions: stats.additions,
            deletions: stats.deletions,
            files_changed: stats.files_changed,
        }
    }
}

/// Response for PR status, with every enum rendered as its stable
/// label.
#[derive(Debug, Clone, PartialEq, Eq)]
pub struct PrStatusResponse {
    pub number: u32,
    pub state: String,
    pub checks_passing: bool,
    pub url: Option<String>,
    pub merge_readiness: Option<String>,
    pub checks_total: Option<usize>,
    pub checks_passed: Option<usize>,
    pub checks_failed: Option<usize>,
    pub checks_pending: Option<usize>,
    pub checks_skipped: Option<usize>,
    pub mergeable: Option<String>,
    pub review_decision: Option<String>,
}

/// The label for each PR lifecycle state.
pub open spec fn spec_pr_state_label(s: PrState) -> Seq<char> {
    match s {
        PrState::Open => "open"@,
        PrState::Merged => "merged"@,
        PrState::Closed => "closed"@,
        PrState::Draft => "draft"@,
        PrState::Unknown => "unknown"@,
    }
}

/// The label for each merge-readiness verdict.
pub open spec fn spec_merge_readiness_label(m: MergeReadiness) -> Seq<char> {
    match m {
        MergeReadiness::Ready => "ready"@,
        MergeReadiness::Blocked => "blocked"@,
        MergeReadiness::HasConflicts => "has_conflicts"@,
        MergeReadiness::Unknown => "unknown"@,
    }
}

/// The label for each mergeability verdict.
pub open spec fn spec_mergeable_label(m: MergeableStatus) -> Seq<char> {
    match m {
        MergeableStatus::Mergeable => "mergeable"@,
        MergeableStatus::Conflicting => "conflicting"@,
        MergeableStatus::Unknown => "unknown"@,
    }
}

/// The label for each review verdict.
pub open spec fn spec_review_decision_label(d: ReviewDecision) -> Seq<char> {
    match d {
        ReviewDecision::Approved => "approved"@,
        ReviewDecision::ReviewRequired => "review_required"@,
        ReviewDecision::ChangesRequested => "changes_requested"@,
        ReviewDecision::Unreviewed => "none"@,
    }
}

fn pr_state_label(s: PrState) -> (r: &'static str)
    ensures
        r@ == spec_pr_state_label(s),
{
    match s {
        PrState::Open => "open",
        PrState::Merged => "merged",
        PrState::Closed => "closed",
        PrState::Draft => "draft",
        PrState::Unknown => "unknown",
    }
}

fn merge_readiness_label(m: MergeReadiness) -> (r: &'static str)
    ensures
        r@ == spec_merge_readiness_label(m),
{
    match m {
        MergeReadiness::Ready => "ready",
        MergeReadiness::Blocked => "blocked",
        MergeReadiness::HasConflicts => "has_conflicts",
        MergeReadiness::Unknown => "unknown",
    }
}

fn mergeable_label(m: MergeableStatus) -> (r: &'static str)
    ensures
        r@ == spec_mergeable_label(m),
{
    match m {
        MergeableStatus::Mergeable => "mergeable",
        MergeableStatus::Conflicting => "conflicting",
        MergeableStatus::Unknown => "unknown",
    }
}

fn review_decision_label(d: ReviewDecision) -> (r: &'static str)
    ensures
        r@ == spec_review_decision_label(d),
{
    match d {
        ReviewDecision::Approved => "approved",
        ReviewDecision::ReviewRequired => "review_required",
        ReviewDecision::ChangesRequested => "changes_requested",
        ReviewDecision::Unreviewed => "none",
    }
}

fn owned_label(label: &'static str) -> (r: String)
    ensures
        r@ == label@,
{
    let mut s = String::new();
    crate::strutil::append_str(&mut s, label);
    proof {
        assert(s@ =~= label@);
    }
    s
}

impl PrStatusResponse {
    /// Maps the CLI's structured answer to response form: `None`
    /// exactly when no PR exists or it has no number; otherwise
    /// every facet carried over, with each enum rendered as its
    /// label and `checks_passing` true exactly when the aggregate
    /// check state is passing.
    pub fn from_pr_status(pr: &PrStatus) -> (r: Option<PrStatusResponse>)
        ensures
            r is Some <==> pr.exists && pr.number is Some,
            match r {
                Some(resp) => spec_pr_response_matches(*pr, resp),
                None => true,
            },
    {
        if !pr.exists {
            return None;
        }
        let number = match pr.number {
            Some(n) => n,
            None => {
                return None;
            },
        };
        let state = owned_label(pr_state_label(pr.state));
        let checks_passing = match pr.checks.state() {
            CheckState::Passing => true,
            _ => false,
        };
        let url = match &pr.url {
            Some(u) => Some(u.clone()),
            None => None,
        };
        Some(PrStatusResponse {
            number,
            state,
            checks_passing,
            url,
            merge_readiness: Some(owned_label(merge_readiness_label(pr.merge_readiness))),
            checks_total: Some(pr.checks.total),
            checks_passed: Some(pr.checks.passed),
            checks_failed: Some(pr.checks.failed),
            checks_pending: Some(pr.checks.pending),
            checks_skipped: Some(pr.checks.skipped),
            mergeable: Some(owned_label(mergeable_label(pr.mergeable))),
            review_decision: Some(owned_label(review_decision_label(pr.review_decision))),
        })
    }
}

/// The cached status snapshot for one workspace: the last committed
/// result per facet and the wall-clock moment of the last commit,
/// in milliseconds since the Unix epoch.
#[derive(Debug, Clone, PartialEq, Eq)]
pub struct WorkspaceStatusResponse {
    pub git_stats: Option<GitDiffStatsResponse>,
    pub pr_status: Option<PrStatusResponse>,
    pub updated_at: Option<i64>,
}

impl WorkspaceStatusResponse {
    /// The empty snapshot: nothing computed yet.
    pub fn new_empty() -> (r: WorkspaceStatusResponse)
        ensures
            r.git_stats is None,
            r.pr_status is None,
            r.updated_at is None,
    {
        WorkspaceStatusResponse { git_stats: None, pr_status: None, updated_at: None }
    }
}

/// Maps an optional git result to the cached facet: present exactly
/// when the tool answered and reported changes.  A failed or silent
/// invocation is treated as no data for this tick.
pub fn git_result_to_response(stats: Option<GitDiffStats>) -> (r: Option<GitDiffStatsResponse>)
    ensures
        r is Some <==> (stats matches Some(s) && spec_has_changes(s)),
        match r {
            Some(resp) => (stats matches Some(s) && resp.additions == s.additions
                && resp.deletions == s.deletions && resp.files_changed == s.files_changed),
            None => true,
        },
{
    match stats {
        Some(s) => {
            if s.has_changes() {
                Some(GitDiffStatsResponse::from_stats(&s))
            } else {
                None
            }
        },
        None => None,
    }
}

/// Whether a response carries exactly the facets of a PR status, as
/// `PrStatusResponse::from_pr_status` produces them.
pub open spec fn spec_pr_response_matches(p: PrStatus, resp: PrStatusResponse) -> bool {
    &&& Some(resp.number) == p.number
    &&& resp.state@ == spec_pr_state_label(p.state)
    &&& resp.checks_passing == (spec_checks_state(p.checks) == CheckState::Passing)
    &&& resp.url == p.url
    &&& match resp.merge_readiness {
        Some(m) => m@ == spec_merge_readiness_label(p.merge_readiness),
        None => false,
    }
    &&& resp.checks_total == Some(p.checks.total)
    &&& resp.checks_passed == Some(p.checks.passed)
    &&& resp.checks_failed == Some(p.checks.failed)
    &&& resp.checks_pending == Some(p.checks.pending)
    &&& resp.checks_skipped == Some(p.checks.skipped)
    &&& match resp.mergeable {
        Some(m) => m@ == spec_mergeable_label(p.mergeable),
        None => false,
    }
    &&& match resp.review_decision {
        Some(d) => d@ == spec_review_decision_label(p.review_decision),
        None => false,
    }
}

/// Maps the PR tooling's answers to the cached facet: no data
/// unless the CLI is installed and authenticated and a numbered PR
/// exists; otherwise the full response.
pub fn pr_result_to_response(gh: GhStatus, pr: Option<&PrStatus>) -> (r: Option<PrStatusResponse>)
    ensures
        r is Some <==> (gh.installed && gh.authenticated && (pr matches Some(p) && p.exists
            && p.number is Some)),
        match r {
            Some(resp) => (pr matches Some(p) && spec_pr_response_matches(*p, resp)),
            None => true,
        },
{
    if !gh.installed || !gh.authenticated {
        return None;
    }
    match pr {
        Some(p) => PrStatusResponse::from_pr_status(p),
        None => None,
    }
}

} // verus!
