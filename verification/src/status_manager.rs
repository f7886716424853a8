//! The background workspace status scheduler.
//!
//! Per workspace it caches two status facets (git diff statistics,
//! PR status) and decides when each is recomputed: on a periodic
//! active tick for the focused workspace (git only — the PR call is
//! deliberately the expensive one and is skipped on the fast tick),
//! or forced for both facets by an initial scan, an explicit
//! refresh, or a focus change.
//!
//! The scheduler is a pure state machine over integer milliseconds.
//! The caller runs the timers, executes the due facet computations
//! under the admission pool, and hands the results back to
//! `commit_refresh`.  Every dispatch captures the entry's generation
//! counter; scheduling a newer dispatch for the same workspace bumps
//! the counter, so a superseded dispatch can never commit late: its
//! captured generation no longer matches.

use vstd::prelude::*;
use crate::status_types::{GitDiffStatsResponse, PrStatusResponse, WorkspaceStatusResponse};

verus! {

/// A workspace's stable identifier.
#[derive(Debug, Clone, Copy, PartialEq, Eq, Structural)]
pub struct WorkspaceId(pub u128);

/// The application-level settings the scheduler is built from.
#[derive(Debug, Clone, PartialEq, Eq)]
pub struct WebStatusSettings {
    pub initial_scan: bool,
    pub status_scan_concurrency: usize,
    pub selected_refresh_interval_ms: u64,
    pub pr_refresh_interval_ms: u64,
}

/// The scheduler's own configuration.
#[derive(Debug, Clone, PartialEq, Eq)]
pub struct StatusManagerConfig {
    pub initial_scan: bool,
    /// The admission pool's size; at least one.
    pub concurrency: usize,
    pub selected_refresh_interval_ms: u64,
    pub pr_refresh_interval_ms: u64,
}

impl StatusManagerConfig {
    /// Derives the scheduler configuration from the application
    /// settings; a zero concurrency is raised to one.
    pub fn from_config(settings: &WebStatusSettings) -> (r: StatusManagerConfig)
        ensures
            r.initial_scan == settings.initial_scan,
            r.concurrency == if settings.status_scan_concurrency >= 1 {
                settings.status_scan_concurrency
            } else {
                1
            },
            r.concurrency >= 1,
            r.selected_refresh_interval_ms == settings.selected_refresh_interval_ms,
            r.pr_refresh_interval_ms == settings.pr_refresh_interval_ms,
    {
        let concurrency = if settings.status_scan_concurrency >= 1 {
            settings.status_scan_concurrency
        } else {
            1
        };
        StatusManagerConfig {
            initial_scan: settings.initial_scan,
            concurrency,
            selected_refresh_interval_ms: settings.selected_refresh_interval_ms,
            pr_refresh_interval_ms: settings.pr_refresh_interval_ms,
        }
    }
}

/// Which facets a refresh request forces, regardless of their
/// intervals.
#[derive(Debug, Clone, Copy, PartialEq, Eq, Structural)]
pub struct RefreshPlan {
    pub force_git: bool,
    pub force_pr: bool,
}

impl RefreshPlan {
    /// The initial scan forces both facets.
    pub fn initial() -> (r: RefreshPlan)
        ensures
            r.force_git && r.force_pr,
    {
        RefreshPlan { force_git: true, force_pr: true }
    }

    /// The periodic tick for the focused workspace forces only the
    /// git facet; the PR facet is deliberately skipped on the fast
    /// tick.
    pub fn active_tick() -> (r: RefreshPlan)
        ensures
            r.force_git && !r.force_pr,
    {
        RefreshPlan { force_git: true, force_pr: false }
    }

    /// An explicit refresh or focus change forces both facets.
    pub fn force_all() -> (r: RefreshPlan)
        ensures
            r.force_git && r.force_pr,
    {
        RefreshPlan { force_git: true, force_pr: true }
    }
}

/// One workspace's scheduling record.
#[derive(Debug, Clone, PartialEq, Eq)]
pub struct WorkspaceEntry {
    pub id: WorkspaceId,
    /// The filesystem path the external tools run against.
    pub path: String,
    /// The last committed snapshot.
    pub status: WorkspaceStatusResponse,
    /// When the git facet last committed, in monotonic milliseconds.
    pub last_git_at: Option<u64>,
    /// When the PR facet last committed, in monotonic milliseconds.
    pub last_pr_at: Option<u64>,
    /// Bumped on every dispatched refresh; a dispatch may commit
    /// only while its captured value still matches.
    pub refresh_generation: u64,
    /// Whether a dispatched refresh has not committed yet.
    pub in_flight: bool,
}

/// What one dispatched refresh captured: the workspace, the
/// generation at dispatch time, which facets to compute, and the
/// path to run against.
#[derive(Debug, Clone, PartialEq, Eq)]
pub struct Dispatch {
    pub workspace: WorkspaceId,
    pub generation: u64,
    pub do_git: bool,
    pub do_pr: bool,
    pub path: String,
}

/// The scheduler's state.
#[derive(Debug)]
pub struct StatusManager {
    pub config: StatusManagerConfig,
    pub workspaces: Vec<WorkspaceEntry>,
    pub active_workspace: Option<WorkspaceId>,
    pub initial_scan_started: bool,
}

/// The first entry with the given id, if any.
pub open spec fn spec_find_entry(s: Seq<WorkspaceEntry>, id: u128) -> Option<WorkspaceEntry>
    decreases s.len(),
{
    if s.len() == 0 {
        None
    } else if s[0].id.0 == id {
        Some(s[0])
    } else {
        spec_find_entry(s.drop_first(), id)
    }
}

/// Whether a facet is due on its own: never computed yet, or its
/// interval has elapsed since the last commit.
pub open spec fn spec_due(last_at: Option<u64>, now: u64, interval_ms: u64) -> bool {
    match last_at {
        None => true,
        Some(ts) => now >= ts + interval_ms,
    }
}

/// The generation counter after one more dispatch: one higher,
/// saturating at the top of the range.
pub open spec fn spec_bump(g: u64) -> u64 {
    if g < u64::MAX {
        (g + 1) as u64
    } else {
        g
    }
}

/// Whether a dispatch may commit into the given state: its
/// workspace's entry still exists and still carries the generation
/// the dispatch captured.
pub open spec fn spec_commit_allowed(m: StatusManager, d: Dispatch) -> bool {
    match m.spec_entry(d.workspace.0) {
        Some(entry) => entry.refresh_generation == d.generation,
        None => false,
    }
}

/// What dispatching a refresh for `id` under a plan guarantees, as
/// `schedule_refresh` establishes it: the dispatch carries the
/// workspace, its path, and the freshly bumped generation; the
/// entry records that generation with a refresh in flight, its
/// cache and timestamps untouched; and the dispatch may commit into
/// the post state.
pub open spec fn spec_dispatched(
    pre: StatusManager,
    post: StatusManager,
    id: WorkspaceId,
    d: Dispatch,
) -> bool {
    &&& d.workspace == id
    &&& match pre.spec_entry(id.0) {
        Some(entry) => {
            &&& d.generation == spec_bump(entry.refresh_generation)
            &&& d.path == entry.path
            &&& match post.spec_entry(id.0) {
                Some(updated) => {
                    &&& updated.refresh_generation == d.generation
                    &&& updated.in_flight
                    &&& updated.status == entry.status
                    &&& updated.last_git_at == entry.last_git_at
                    &&& updated.last_pr_at == entry.last_pr_at
                    &&& updated.path == entry.path
                },
                None => false,
            }
        },
        None => false,
    }
    &&& spec_commit_allowed(post, d)
}

/// `spec_dispatched` for a force-all request: both facets are
/// computed.
pub open spec fn spec_force_all_dispatched(
    pre: StatusManager,
    post: StatusManager,
    id: WorkspaceId,
    d: Dispatch,
) -> bool {
    &&& spec_dispatched(pre, post, id, d)
    &&& d.do_git
    &&& d.do_pr
}

/// `spec_dispatched` for an active tick at `now`: the git facet is
/// always computed, the PR facet only when its own interval has
/// elapsed.
pub open spec fn spec_active_tick_dispatched(
    pre: StatusManager,
    post: StatusManager,
    id: WorkspaceId,
    d: Dispatch,
    now: u64,
) -> bool {
    &&& spec_dispatched(pre, post, id, d)
    &&& d.do_git
    &&& d.do_pr == match pre.spec_entry(id.0) {
        Some(entry) => spec_due(entry.last_pr_at, now, pre.config.pr_refresh_interval_ms),
        None => false,
    }
}

impl StatusManager {
    /// Workspace ids are unique.
    pub open spec fn wf(self) -> bool {
        forall|i: int, j: int|
            0 <= i < j < self.workspaces@.len() ==> (#[trigger] self.workspaces@[i]).id.0 != (
            #[trigger] self.workspaces@[j]).id.0
    }

    /// The entry registered under `id`, if any.
    pub open spec fn spec_entry(self, id: u128) -> Option<WorkspaceEntry> {
        spec_find_entry(self.workspaces@, id)
    }

    /// A fresh scheduler: no workspaces, no focus, initial scan not
    /// yet started.
    pub fn new(config: StatusManagerConfig) -> (r: StatusManager)
        ensures
            r.wf(),
            r.workspaces@.len() == 0,
            r.active_workspace is None,
            !r.initial_scan_started,
            r.config == config,
    {
        StatusManager {
            config,
            workspaces: Vec::new(),
            active_workspace: None,
            initial_scan_started: false,
        }
    }

    /// The index of the entry registered under `id`, if any.
    fn find_index(&self, id: WorkspaceId) -> (r: Option<usize>)
        ensures
            match r {
                Some(i) => i < self.workspaces@.len() && self.workspaces@[i as int].id.0 == id.0
                    && self.spec_entry(id.0) == Some(self.workspaces@[i as int]) && (forall|j: int|
                    0 <= j < i ==> (#[trigger] self.workspaces@[j]).id.0 != id.0),
                None => self.spec_entry(id.0) is None,
            },
    {
        let mut i: usize = 0;
        proof {
            assert(self.workspaces@.skip(0) =~= self.workspaces@);
        }
        while i < self.workspaces.len()
            invariant
                i <= self.workspaces@.len(),
                forall|j: int| 0 <= j < i ==> (#[trigger] self.workspaces@[j]).id.0 != id.0,
                spec_find_entry(self.workspaces@.skip(i as int), id.0) == spec_find_entry(
                    self.workspaces@,
                    id.0,
                ),
            decreases self.workspaces@.len() - i,
        {
            if self.workspaces[i].id.0 == id.0 {
                proof {
                    let tail = self.workspaces@.skip(i as int);
                    assert(tail[0] == self.workspaces@[i as int]);
                }
                return Some(i);
            }
            i = i + 1;
            proof {
                let prev = self.workspaces@.skip(i - 1);
                assert(prev[0] == self.workspaces@[i - 1]);
                assert(prev.drop_first() =~= self.workspaces@.skip(i as int));
            }
        }
        proof {
            assert(self.workspaces@.skip(i as int) =~= Seq::<WorkspaceEntry>::empty());
        }
        None
    }

    /// Registers a workspace: a new entry starts empty with
    /// generation zero; re-registering only refreshes the stored
    /// path, keeping the cache and the generation.
    pub fn register_workspace(&mut self, id: WorkspaceId, path: String)
        requires
            old(self).wf(),
        ensures
            final(self).wf(),
            final(self).config == old(self).config,
            final(self).active_workspace == old(self).active_workspace,
            final(self).initial_scan_started == old(self).initial_scan_started,
            match final(self).spec_entry(id.0) {
                Some(entry) => {
                    &&& entry.path == path
                    &&& match old(self).spec_entry(id.0) {
                        Some(prior) => entry.status == prior.status && entry.last_git_at
                            == prior.last_git_at && entry.last_pr_at == prior.last_pr_at
                            && entry.refresh_generation == prior.refresh_generation
                            && entry.in_flight == prior.in_flight,
                        None => entry.status.git_stats is None && entry.status.pr_status is None
                            && entry.status.updated_at is None && entry.last_git_at is None
                            && entry.last_pr_at is None && entry.refresh_generation == 0
                            && !entry.in_flight,
                    }
                },
                None => false,
            },
            forall|id2: u128|
                id2 != id.0 ==> final(self).spec_entry(id2) == old(self).spec_entry(id2),
    {
        match self.find_index(id) {
            Some(i) => {
                let updated = WorkspaceEntry {
                    id,
                    path,
                    status: clone_status(&self.workspaces[i].status),
                    last_git_at: self.workspaces[i].last_git_at,
                    last_pr_at: self.workspaces[i].last_pr_at,
                    refresh_generation: self.workspaces[i].refresh_generation,
                    in_flight: self.workspaces[i].in_flight,
                };
                proof {
                    lemma_find_entry_update_all(self.workspaces@, i as int, updated);
                    lemma_entry_wf_update_same_id(self.workspaces@, i as int, updated);
                }
                self.workspaces.set(i, updated);
            },
            None => {
                let fresh = WorkspaceEntry {
                    id,
                    path,
                    status: WorkspaceStatusResponse::new_empty(),
                    last_git_at: None,
                    last_pr_at: None,
                    refresh_generation: 0,
                    in_flight: false,
                };
                proof {
                    lemma_find_entry_push_all(self.workspaces@, fresh);
                    lemma_find_entry_none(self.workspaces@, id.0);
                    assert forall|a: int, b: int|
                        0 <= a < b < self.workspaces@.push(fresh).len() implies (
                    #[trigger] self.workspaces@.push(fresh)[a]).id.0 != (
                    #[trigger] self.workspaces@.push(fresh)[b]).id.0 by {
                        if b < self.workspaces@.len() {
                            assert(self.workspaces@.push(fresh)[a] == self.workspaces@[a]);
                            assert(self.workspaces@.push(fresh)[b] == self.workspaces@[b]);
                        } else {
                            assert(self.workspaces@.push(fresh)[a] == self.workspaces@[a]);
                            assert(self.workspaces@.push(fresh)[b] == fresh);
                        }
                    }
                }
                self.workspaces.push(fresh);
            },
        }
    }

    /// Removes a workspace's entry; any in-flight refresh for it can
    /// no longer commit, since its entry is gone.
    pub fn remove_workspace(&mut self, id: WorkspaceId)
        requires
            old(self).wf(),
        ensures
            final(self).wf(),
            final(self).config == old(self).config,
            final(self).spec_entry(id.0) is None,
            forall|id2: u128|
                id2 != id.0 ==> final(self).spec_entry(id2) == old(self).spec_entry(id2),
    {
        match self.find_index(id) {
            Some(i) => {
                proof {
                    lemma_find_entry_remove(self.workspaces@, i as int, id.0);
                }
                let _ = self.workspaces.remove(i);
                proof {
                    assert forall|a: int, b: int|
                        0 <= a < b < self.workspaces@.len() implies (
                    #[trigger] self.workspaces@[a]).id.0 != (#[trigger] self.workspaces@[b]).id.0 by {
                        if a < i {
                            assert(self.workspaces@[a] == old(self).workspaces@[a]);
                        } else {
                            assert(self.workspaces@[a] == old(self).workspaces@[a + 1]);
                        }
                        if b < i {
                            assert(self.workspaces@[b] == old(self).workspaces@[b]);
                        } else {
                            assert(self.workspaces@[b] == old(self).workspaces@[b + 1]);
                        }
                    }
                }
            },
            None => {},
        }
    }

    /// Schedules a refresh for a workspace under a plan, at the
    /// given monotonic time.  Per facet the work is due when the
    /// plan forces it or its interval has elapsed; with nothing due
    /// there is no work.  Otherwise any in-flight refresh is
    /// superseded: the generation counter is bumped and the
    /// returned dispatch captures the new value, which the caller
    /// executes and commits.
    pub fn schedule_refresh(&mut self, id: WorkspaceId, plan: RefreshPlan, now: u64) -> (r: Option<
        Dispatch,
    >)
        requires
            old(self).wf(),
        ensures
            final(self).wf(),
            final(self).config == old(self).config,
            final(self).active_workspace == old(self).active_workspace,
            final(self).initial_scan_started == old(self).initial_scan_started,
            old(self).spec_entry(id.0) is None ==> r is None && final(self).workspaces@ == old(self).workspaces@,
            forall|id2: u128|
                id2 != id.0 ==> final(self).spec_entry(id2) == old(self).spec_entry(id2),
            match old(self).spec_entry(id.0) {
                Some(entry) => {
                    let git_due = spec_due(
                        entry.last_git_at,
                        now,
                        old(self).config.selected_refresh_interval_ms,
                    );
                    let pr_due = spec_due(
                        entry.last_pr_at,
                        now,
                        old(self).config.pr_refresh_interval_ms,
                    );
                    let do_git = plan.force_git || git_due;
                    let do_pr = plan.force_pr || pr_due;
                    &&& (!do_git && !do_pr ==> r is None && final(self).workspaces@ == old(self).workspaces@)
                    &&& (do_git || do_pr ==> match r {
                        Some(d) => {
                            &&& d.workspace == id
                            &&& d.generation == spec_bump(entry.refresh_generation)
                            &&& d.do_git == do_git
                            &&& d.do_pr == do_pr
                            &&& d.path == entry.path
                            &&& spec_commit_allowed(*final(self), d)
                            &&& match final(self).spec_entry(id.0) {
                                Some(updated) => {
                                    &&& updated.refresh_generation == d.generation
                                    &&& updated.in_flight
                                    &&& updated.path == entry.path
                                    &&& updated.status == entry.status
                                    &&& updated.last_git_at == entry.last_git_at
                                    &&& updated.last_pr_at == entry.last_pr_at
                                },
                                None => false,
                            }
                        },
                        None => false,
                    })
                },
                None => true,
            },
    {
        let i = match self.find_index(id) {
            Some(i) => i,
            None => {
                return None;
            },
        };
        let git_due = facet_due(
            self.workspaces[i].last_git_at,
            now,
            self.config.selected_refresh_interval_ms,
        );
        let pr_due = facet_due(self.workspaces[i].last_pr_at, now, self.config.pr_refresh_interval_ms);
        let do_git = plan.force_git || git_due;
        let do_pr = plan.force_pr || pr_due;
        if !do_git && !do_pr {
            return None;
        }
        let generation = add_one_saturating(self.workspaces[i].refresh_generation);
        let path = clone_string(&self.workspaces[i].path);
        let updated = WorkspaceEntry {
            id,
            path: clone_string(&self.workspaces[i].path),
            status: clone_status(&self.workspaces[i].status),
            last_git_at: self.workspaces[i].last_git_at,
            last_pr_at: self.workspaces[i].last_pr_at,
            refresh_generation: generation,
            in_flight: true,
        };
        proof {
            lemma_find_entry_update_all(self.workspaces@, i as int, updated);
            lemma_entry_wf_update_same_id(self.workspaces@, i as int, updated);
        }
        self.workspaces.set(i, updated);
        Some(Dispatch { workspace: id, generation, do_git, do_pr, path })
    }

    /// Whether a dispatch has been superseded or orphaned: its
    /// workspace's entry is gone, or the entry's generation no
    /// longer matches the one the dispatch captured.  The worker
    /// checks this around each external call.
    pub fn is_cancelled(&self, d: &Dispatch) -> (r: bool)
        ensures
            r == !spec_commit_allowed(*self, *d),
    {
        match self.find_index(d.workspace) {
            Some(i) => self.workspaces[i].refresh_generation != d.generation,
            None => true,
        }
    }

    /// Commits a dispatch's results.  A dispatch whose workspace is
    /// gone or whose captured generation no longer matches commits
    /// nothing and reports `false`: superseded work never commits
    /// late.  Otherwise only the facets this dispatch actually
    /// computed are updated — an active tick never clobbers the
    /// cached PR status — their last-refreshed timestamps are set to
    /// `mono_now`, and the snapshot is stamped with `wall_now`.
    pub fn commit_refresh(
        &mut self,
        d: &Dispatch,
        git: Option<GitDiffStatsResponse>,
        pr: Option<PrStatusResponse>,
        mono_now: u64,
        wall_now: i64,
    ) -> (committed: bool)
        requires
            old(self).wf(),
        ensures
            final(self).wf(),
            final(self).config == old(self).config,
            final(self).active_workspace == old(self).active_workspace,
            final(self).initial_scan_started == old(self).initial_scan_started,
            committed == spec_commit_allowed(*old(self), *d),
            !committed ==> final(self).workspaces@ == old(self).workspaces@,
            forall|id2: u128|
                id2 != d.workspace.0 ==> final(self).spec_entry(id2) == old(self).spec_entry(id2),
            committed ==> match (old(self).spec_entry(d.workspace.0), final(self).spec_entry(
                d.workspace.0,
            )) {
                (Some(entry), Some(updated)) => {
                    &&& updated.status.git_stats == if d.do_git {
                        git
                    } else {
                        entry.status.git_stats
                    }
                    &&& updated.last_git_at == if d.do_git {
                        Some(mono_now)
                    } else {
                        entry.last_git_at
                    }
                    &&& updated.status.pr_status == if d.do_pr {
                        pr
                    } else {
                        entry.status.pr_status
                    }
                    &&& updated.last_pr_at == if d.do_pr {
                        Some(mono_now)
                    } else {
                        entry.last_pr_at
                    }
                    &&& updated.status.updated_at == Some(wall_now)
                    &&& !updated.in_flight
                    &&& updated.refresh_generation == entry.refresh_generation
                    &&& updated.path == entry.path
                },
                _ => false,
            },
    {
        let i = match self.find_index(d.workspace) {
            Some(i) => i,
            None => {
                return false;
            },
        };
        if self.workspaces[i].refresh_generation != d.generation {
            return false;
        }
        let git_stats = if d.do_git {
            git
        } else {
            clone_opt_git(&self.workspaces[i].status.git_stats)
        };
        let pr_status = if d.do_pr {
            pr
        } else {
            clone_opt_pr(&self.workspaces[i].status.pr_status)
        };
        let last_git_at = if d.do_git {
            Some(mono_now)
        } else {
            self.workspaces[i].last_git_at
        };
        let last_pr_at = if d.do_pr {
            Some(mono_now)
        } else {
            self.workspaces[i].last_pr_at
        };
        let updated = WorkspaceEntry {
            id: d.workspace,
            path: clone_string(&self.workspaces[i].path),
            status: WorkspaceStatusResponse {
                git_stats,
                pr_status,
                updated_at: Some(wall_now),
            },
            last_git_at,
            last_pr_at,
            refresh_generation: self.workspaces[i].refresh_generation,
            in_flight: false,
        };
        proof {
            lemma_find_entry_update_all(self.workspaces@, i as int, updated);
            lemma_entry_wf_update_same_id(self.workspaces@, i as int, updated);
        }
        self.workspaces.set(i, updated);
        true
    }

    /// Records which workspace holds focus and, when one does,
    /// immediately schedules a force-all refresh for it.
    pub fn set_active_workspace(&mut self, id: Option<WorkspaceId>, now: u64) -> (r: Option<
        Dispatch,
    >)
        requires
            old(self).wf(),
        ensures
            final(self).wf(),
            final(self).config == old(self).config,
            final(self).initial_scan_started == old(self).initial_scan_started,
            final(self).active_workspace == id,
            id is None ==> r is None && final(self).workspaces@ == old(self).workspaces@,
            match id {
                Some(ws) => {
                    &&& (old(self).spec_entry(ws.0) is Some ==> (r matches Some(d)
                        && spec_force_all_dispatched(*old(self), *final(self), ws, d)))
                    &&& (old(self).spec_entry(ws.0) is None ==> r is None && final(self).workspaces@ == old(self).workspaces@)
                    &&& (forall|id2: u128|
                        id2 != ws.0 ==> final(self).spec_entry(id2) == old(self).spec_entry(id2))
                },
                None => true,
            },
            match r {
                Some(d) => (id matches Some(ws) && d.workspace == ws && d.do_git && d.do_pr),
                None => true,
            },
    {
        self.active_workspace = id;
        match id {
            Some(ws) => self.schedule_refresh(ws, RefreshPlan::force_all(), now),
            None => None,
        }
    }

    /// Schedules an explicit force-all refresh for a workspace.
    pub fn refresh_workspace(&mut self, id: WorkspaceId, now: u64) -> (r: Option<Dispatch>)
        requires
            old(self).wf(),
        ensures
            final(self).wf(),
            final(self).config == old(self).config,
            final(self).active_workspace == old(self).active_workspace,
            final(self).initial_scan_started == old(self).initial_scan_started,
            old(self).spec_entry(id.0) is None ==> r is None && final(self).workspaces@ == old(self).workspaces@,
            old(self).spec_entry(id.0) is Some ==> (r matches Some(d)
                && spec_force_all_dispatched(*old(self), *final(self), id, d)),
            forall|id2: u128|
                id2 != id.0 ==> final(self).spec_entry(id2) == old(self).spec_entry(id2),
    {
        self.schedule_refresh(id, RefreshPlan::force_all(), now)
    }

    /// One step of the fixed-cadence loop: re-issues an active-tick
    /// dispatch for whichever workspace currently holds focus.
    pub fn active_tick_step(&mut self, now: u64) -> (r: Option<Dispatch>)
        requires
            old(self).wf(),
        ensures
            final(self).wf(),
            final(self).config == old(self).config,
            final(self).active_workspace == old(self).active_workspace,
            final(self).initial_scan_started == old(self).initial_scan_started,
            old(self).active_workspace is None ==> r is None && final(self).workspaces@ == old(self).workspaces@,
            match old(self).active_workspace {
                Some(ws) => {
                    &&& (old(self).spec_entry(ws.0) is Some ==> (r matches Some(d)
                        && spec_active_tick_dispatched(*old(self), *final(self), ws, d, now)))
                    &&& (old(self).spec_entry(ws.0) is None ==> r is None && final(self).workspaces@ == old(self).workspaces@)
                    &&& (forall|id2: u128|
                        id2 != ws.0 ==> final(self).spec_entry(id2) == old(self).spec_entry(id2))
                },
                None => true,
            },
    {
        let active = self.active_workspace;
        match active {
            Some(ws) => self.schedule_refresh(ws, RefreshPlan::active_tick(), now),
            None => None,
        }
    }

    /// On startup, if enabled and not yet run, registers every known
    /// workspace and schedules one force-all dispatch each, guarded
    /// by a one-shot flag so it happens at most once.
    pub fn kick_initial_scan(&mut self, entries: Vec<(WorkspaceId, String)>, now: u64) -> (r: Vec<
        Dispatch,
    >)
        requires
            old(self).wf(),
        ensures
            final(self).wf(),
            !old(self).config.initial_scan ==> r@.len() == 0 && final(self).workspaces@ == old(self).workspaces@ && final(self).initial_scan_started == old(self).initial_scan_started,
            old(self).initial_scan_started ==> r@.len() == 0 && final(self).workspaces@ == old(self).workspaces@,
            old(self).config.initial_scan && !old(self).initial_scan_started ==> final(self).initial_scan_started && (forall|k: int|
                0 <= k < entries@.len() ==> final(self).spec_entry(
                    (#[trigger] entries@[k]).0.0,
                ) is Some) && r@.len() == entries@.len() && (forall|k: int|
                0 <= k < entries@.len() ==> (#[trigger] r@[k]).workspace == entries@[k].0),
            forall|k: int| 0 <= k < r@.len() ==> (#[trigger] r@[k]).do_git && r@[k].do_pr,
    {
        if !self.config.initial_scan {
            return Vec::new();
        }
        if self.initial_scan_started {
            return Vec::new();
        }
        self.initial_scan_started = true;
        let mut dispatches: Vec<Dispatch> = Vec::new();
        let mut k: usize = 0;
        while k < entries.len()
            invariant
                self.wf(),
                k <= entries@.len(),
                self.initial_scan_started,
                self.config == old(self).config,
                dispatches@.len() == k,
                forall|j: int|
                    0 <= j < k ==> self.spec_entry((#[trigger] entries@[j]).0.0) is Some,
                forall|j: int|
                    0 <= j < k ==> (#[trigger] dispatches@[j]).workspace == entries@[j].0,
                forall|j: int|
                    0 <= j < dispatches@.len() ==> (#[trigger] dispatches@[j]).do_git
                        && dispatches@[j].do_pr,
            decreases entries@.len() - k,
        {
            let (id, path) = (entries[k].0, clone_string(&entries[k].1));
            self.register_workspace(id, path);
            // The entry now exists and the initial plan forces the
            // git facet, so a dispatch is always due.
            match self.schedule_refresh(id, RefreshPlan::initial(), now) {
                Some(d) => dispatches.push(d),
                None => {
                    proof {
                        assert(false);
                    }
                },
            }
            proof {
                assert forall|j: int|
                    0 <= j < k + 1 implies self.spec_entry((#[trigger] entries@[j]).0.0) is Some by {
                }
            }
            k = k + 1;
        }
        dispatches
    }

    /// A non-blocking read of the last committed snapshot for a
    /// workspace.  It never schedules work and never blocks.
    pub fn get_status(&self, id: WorkspaceId) -> (r: Option<WorkspaceStatusResponse>)
        ensures
            match (r, self.spec_entry(id.0)) {
                (Some(status), Some(entry)) => status == entry.status,
                (None, None) => true,
                _ => false,
            },
    {
        match self.find_index(id) {
            Some(i) => Some(clone_status(&self.workspaces[i].status)),
            None => None,
        }
    }
}

/// A bounded admission pool: the single global serialization point
/// for external-tool work.  At most `capacity` computations hold a
/// slot at once; further work waits for a release.
#[derive(Debug, Clone, Copy, PartialEq, Eq, Structural)]
pub struct AdmissionPool {
    pub capacity: usize,
    pub in_use: usize,
}

impl AdmissionPool {
    /// A pool with the given number of slots, all free.
    pub fn new(capacity: usize) -> (r: AdmissionPool)
        ensures
            r.capacity == capacity,
            r.in_use == 0,
    {
        AdmissionPool { capacity, in_use: 0 }
    }

    /// Takes a slot if one is free: succeeds exactly when fewer than
    /// `capacity` computations hold one.  A caller that is refused
    /// must wait for a release and try again.
    pub fn try_acquire(&mut self) -> (got: bool)
        ensures
            got == (old(self).in_use < old(self).capacity),
            got ==> final(self).in_use == old(self).in_use + 1,
            !got ==> *final(self) == *old(self),
            final(self).capacity == old(self).capacity,
    {
        if self.in_use < self.capacity {
            self.in_use = self.in_use + 1;
            true
        } else {
            false
        }
    }

    /// Returns a slot.
    pub fn release(&mut self)
        requires
            old(self).in_use > 0,
        ensures
            final(self).in_use == old(self).in_use - 1,
            final(self).capacity == old(self).capacity,
    {
        self.in_use = self.in_use - 1;
    }
}

/// A pool sized to one admits exactly one computation globally at a
/// time: while one computation holds the slot, the pool is full, so
/// by `try_acquire`'s contract every further acquisition is refused
/// until a release frees the slot.
pub proof fn lemma_admission_pool_exclusive(p: AdmissionPool)
    requires
        p.capacity == 1,
        p.in_use >= 1,
    ensures
        !(p.in_use < p.capacity),
{
}

/// Once a newer dispatch is scheduled for a workspace, the entry's
/// generation has moved past every older dispatch's captured value,
/// so by `commit_refresh`'s contract the older dispatch can no
/// longer commit: exactly the newest dispatch's data can.
pub proof fn lemma_superseded_dispatch_never_commits(m: StatusManager, older: Dispatch, newer: Dispatch)
    requires
        older.workspace == newer.workspace,
        older.generation < newer.generation,
        spec_commit_allowed(m, newer),
    ensures
        !spec_commit_allowed(m, older),
{
}

/// On a workspace that has never refreshed, both facets are due on
/// their own, whatever the intervals — so a force-all (and even an
/// unforced) dispatch computes both facets, and its commit fills
/// both cached facets and both timestamps.
pub proof fn lemma_fresh_workspace_both_facets_due(entry: WorkspaceEntry, now: u64, git_interval: u64, pr_interval: u64)
    requires
        entry.last_git_at is None,
        entry.last_pr_at is None,
    ensures
        spec_due(entry.last_git_at, now, git_interval),
        spec_due(entry.last_pr_at, now, pr_interval),
{
}

/// Between two active ticks inside the PR interval but past the git
/// interval, the git facet is due each time while the PR facet is
/// not — and the active-tick plan does not force it — so each such
/// dispatch computes git only, and its commit leaves the cached PR
/// status and its timestamp untouched.
pub proof fn lemma_active_tick_within_pr_interval_skips_pr(
    entry: WorkspaceEntry,
    plan: RefreshPlan,
    now: u64,
    git_interval: u64,
    pr_interval: u64,
)
    requires
        plan == (RefreshPlan { force_git: true, force_pr: false }),
        (entry.last_git_at matches Some(g) && now >= g + git_interval),
        (entry.last_pr_at matches Some(p) && now < p + pr_interval),
    ensures
        plan.force_git || spec_due(entry.last_git_at, now, git_interval),
        !(plan.force_pr || spec_due(entry.last_pr_at, now, pr_interval)),
{
}

/// Saturating increment, mirroring how the generation counter is
/// bumped.
fn add_one_saturating(n: u64) -> (r: u64)
    ensures
        r == spec_bump(n),
{
    if n < u64::MAX {
        n + 1
    } else {
        n
    }
}

/// Whether a facet is due at `now` given its last commit and its
/// interval.
fn facet_due(last_at: Option<u64>, now: u64, interval_ms: u64) -> (r: bool)
    ensures
        r == spec_due(last_at, now, interval_ms),
{
    match last_at {
        Some(ts) => now >= ts && now - ts >= interval_ms,
        None => true,
    }
}

/// A copy of a string with its characters pinned down.
fn clone_string(s: &String) -> (r: String)
    ensures
        r == *s,
{
    s.clone()
}

fn clone_opt_git(g: &Option<GitDiffStatsResponse>) -> (r: Option<GitDiffStatsResponse>)
    ensures
        r == *g,
{
    match g {
        Some(v) => Some(*v),
        None => None,
    }
}

fn clone_opt_pr(p: &Option<PrStatusResponse>) -> (r: Option<PrStatusResponse>)
    ensures
        r == *p,
{
    match p {
        Some(v) => Some(clone_pr_response(v)),
        None => None,
    }
}

/// A field-for-field copy of a PR response, with its value pinned
/// down (the derived `Clone` would leave the copy unspecified).
pub fn clone_pr_response(p: &PrStatusResponse) -> (r: PrStatusResponse)
    ensures
        r == *p,
{
    PrStatusResponse {
        number: p.number,
        state: p.state.clone(),
        checks_passing: p.checks_passing,
        url: match &p.url {
            Some(u) => Some(u.clone()),
            None => None,
        },
        merge_readiness: match &p.merge_readiness {
            Some(v) => Some(v.clone()),
            None => None,
        },
        checks_total: p.checks_total,
        checks_passed: p.checks_passed,
        checks_failed: p.checks_failed,
        checks_pending: p.checks_pending,
        checks_skipped: p.checks_skipped,
        mergeable: match &p.mergeable {
            Some(v) => Some(v.clone()),
            None => None,
        },
        review_decision: match &p.review_decision {
            Some(v) => Some(v.clone()),
            None => None,
        },
    }
}

/// A field-for-field copy of a workspace snapshot.
pub fn clone_status(s: &WorkspaceStatusResponse) -> (r: WorkspaceStatusResponse)
    ensures
        r == *s,
{
    WorkspaceStatusResponse {
        git_stats: clone_opt_git(&s.git_stats),
        pr_status: clone_opt_pr(&s.pr_status),
        updated_at: s.updated_at,
    }
}

/// When `spec_find_entry` finds nothing, no entry bears the id.
proof fn lemma_find_entry_none(s: Seq<WorkspaceEntry>, id: u128)
    requires
        spec_find_entry(s, id) is None,
    ensures
        forall|i: int| 0 <= i < s.len() ==> (#[trigger] s[i]).id.0 != id,
    decreases s.len(),
{
    if s.len() > 0 {
        lemma_find_entry_none(s.drop_first(), id);
        assert forall|i: int| 0 <= i < s.len() implies (#[trigger] s[i]).id.0 != id by {
            if i > 0 {
                assert(s.drop_first()[i - 1] == s[i]);
            }
        }
    }
}

proof fn lemma_find_entry_push(s: Seq<WorkspaceEntry>, x: WorkspaceEntry, id: u128)
    requires
        spec_find_entry(s, x.id.0) is None,
    ensures
        spec_find_entry(s.push(x), id) == if id == x.id.0 {
            Some(x)
        } else {
            spec_find_entry(s, id)
        },
    decreases s.len(),
{
    if s.len() == 0 {
        assert(s.push(x)[0] == x);
        assert(s.push(x).drop_first() =~= Seq::<WorkspaceEntry>::empty());
        assert(spec_find_entry(Seq::<WorkspaceEntry>::empty(), id) is None);
        if x.id.0 == id {
            assert(spec_find_entry(s.push(x), id) == Some(x));
        } else {
            assert(spec_find_entry(s.push(x), id) is None);
            assert(spec_find_entry(s, id) is None);
        }
    } else {
        assert(s.push(x)[0] == s[0]);
        assert(s.push(x).drop_first() =~= s.drop_first().push(x));
        lemma_find_entry_push(s.drop_first(), x, id);
    }
}

proof fn lemma_find_entry_push_all(s: Seq<WorkspaceEntry>, x: WorkspaceEntry)
    requires
        spec_find_entry(s, x.id.0) is None,
    ensures
        forall|q: u128|
            #![auto]
            spec_find_entry(s.push(x), q) == (if q == x.id.0 {
                Some(x)
            } else {
                spec_find_entry(s, q)
            }),
{
    assert forall|q: u128|
        #![auto]
        spec_find_entry(s.push(x), q) == (if q == x.id.0 {
            Some(x)
        } else {
            spec_find_entry(s, q)
        }) by {
        lemma_find_entry_push(s, x, q);
    }
}

proof fn lemma_find_entry_update(s: Seq<WorkspaceEntry>, i: int, x: WorkspaceEntry, id: u128)
    requires
        0 <= i < s.len(),
        s[i].id.0 == x.id.0,
        forall|j: int| 0 <= j < i ==> (#[trigger] s[j]).id.0 != x.id.0,
    ensures
        spec_find_entry(s.update(i, x), id) == if id == x.id.0 {
            Some(x)
        } else {
            spec_find_entry(s, id)
        },
    decreases s.len(),
{
    if i == 0 {
        assert(s.update(i, x)[0] == x);
        assert(s.update(i, x).drop_first() =~= s.drop_first());
    } else {
        assert(s.update(i, x)[0] == s[0]);
        assert(s.update(i, x).drop_first() =~= s.drop_first().update(i - 1, x));
        assert(forall|j: int| 0 <= j < i - 1 ==> (#[trigger] s.drop_first()[j]).id.0 != x.id.0);
        lemma_find_entry_update(s.drop_first(), i - 1, x, id);
    }
}

proof fn lemma_find_entry_update_all(s: Seq<WorkspaceEntry>, i: int, x: WorkspaceEntry)
    requires
        0 <= i < s.len(),
        s[i].id.0 == x.id.0,
        forall|j: int| 0 <= j < i ==> (#[trigger] s[j]).id.0 != x.id.0,
    ensures
        forall|q: u128|
            #![auto]
            spec_find_entry(s.update(i, x), q) == (if q == x.id.0 {
                Some(x)
            } else {
                spec_find_entry(s, q)
            }),
{
    assert forall|q: u128|
        #![auto]
        spec_find_entry(s.update(i, x), q) == (if q == x.id.0 {
            Some(x)
        } else {
            spec_find_entry(s, q)
        }) by {
        lemma_find_entry_update(s, i, x, q);
    }
}

proof fn lemma_entry_wf_update_same_id(s: Seq<WorkspaceEntry>, i: int, x: WorkspaceEntry)
    requires
        0 <= i < s.len(),
        s[i].id.0 == x.id.0,
        forall|a: int, b: int|
            0 <= a < b < s.len() ==> (#[trigger] s[a]).id.0 != (#[trigger] s[b]).id.0,
    ensures
        forall|a: int, b: int|
            0 <= a < b < s.len() ==> (#[trigger] s.update(i, x)[a]).id.0 != (
            #[trigger] s.update(i, x)[b]).id.0,
{
    assert forall|a: int, b: int|
        0 <= a < b < s.len() implies (#[trigger] s.update(i, x)[a]).id.0 != (
    #[trigger] s.update(i, x)[b]).id.0 by {
        assert(s.update(i, x)[a].id.0 == s[a].id.0);
        assert(s.update(i, x)[b].id.0 == s[b].id.0);
    }
}

proof fn lemma_find_entry_remove_frame(s: Seq<WorkspaceEntry>, i: int, id: u128, q: u128)
    requires
        0 <= i < s.len(),
        s[i].id.0 == id,
        forall|j: int| 0 <= j < i ==> (#[trigger] s[j]).id.0 != id,
        q != id,
    ensures
        spec_find_entry(s.remove(i), q) == spec_find_entry(s, q),
    decreases s.len(),
{
    if i == 0 {
        assert(s.remove(i) =~= s.drop_first());
    } else {
        assert(s.remove(i)[0] == s[0]);
        assert(s.remove(i).drop_first() =~= s.drop_first().remove(i - 1));
        if s[0].id.0 != q {
            assert(forall|j: int| 0 <= j < i - 1 ==> (#[trigger] s.drop_first()[j]).id.0 != id);
            lemma_find_entry_remove_frame(s.drop_first(), i - 1, id, q);
        }
    }
}

proof fn lemma_find_entry_none_when_absent(s: Seq<WorkspaceEntry>, id: u128)
    requires
        forall|j: int| 0 <= j < s.len() ==> (#[trigger] s[j]).id.0 != id,
    ensures
        spec_find_entry(s, id) is None,
    decreases s.len(),
{
    if s.len() > 0 {
        assert(forall|j: int|
            0 <= j < s.drop_first().len() ==> #[trigger] s.drop_first()[j] == s[j + 1]);
        lemma_find_entry_none_when_absent(s.drop_first(), id);
    }
}

proof fn lemma_find_entry_remove(s: Seq<WorkspaceEntry>, i: int, id: u128)
    requires
        0 <= i < s.len(),
        s[i].id.0 == id,
        forall|j: int| 0 <= j < i ==> (#[trigger] s[j]).id.0 != id,
        forall|j1: int, j2: int|
            0 <= j1 < j2 < s.len() ==> (#[trigger] s[j1]).id.0 != (#[trigger] s[j2]).id.0,
    ensures
        spec_find_entry(s.remove(i), id) is None,
        forall|id2: u128| id2 != id ==> spec_find_entry(s.remove(i), id2) == spec_find_entry(s, id2),
    decreases s.len(),
{
    if i == 0 {
        assert(s.remove(i) =~= s.drop_first());
        assert(forall|j: int|
            0 <= j < s.drop_first().len() ==> #[trigger] s.drop_first()[j] == s[j + 1]);
        assert(forall|j: int|
            0 <= j < s.drop_first().len() ==> (#[trigger] s.drop_first()[j]).id.0 != id);
        lemma_find_entry_none_when_absent(s.drop_first(), id);
    } else {
        assert(s.remove(i)[0] == s[0]);
        assert(s.remove(i).drop_first() =~= s.drop_first().remove(i - 1));
        assert(forall|j: int| 0 <= j < i - 1 ==> (#[trigger] s.drop_first()[j]).id.0 != id);
        assert(forall|j1: int, j2: int|
            0 <= j1 < j2 < s.drop_first().len() ==> (#[trigger] s.drop_first()[j1]).id.0 != (
            #[trigger] s.drop_first()[j2]).id.0);
        lemma_find_entry_remove(s.drop_first(), i - 1, id);
    }
    assert forall|id2: u128| id2 != id implies spec_find_entry(s.remove(i), id2) == spec_find_entry(
        s,
        id2,
    ) by {
        lemma_find_entry_remove_frame(s, i, id, id2);
    }
}

} // verus!
