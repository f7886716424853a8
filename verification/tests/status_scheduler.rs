//! The workspace status scheduler: due-ness, generations,
//! stale-write suppression, and the admission pool.

use conduit_core::status_manager::{
    AdmissionPool, RefreshPlan, StatusManager, StatusManagerConfig, WebStatusSettings, WorkspaceId,
};
use conduit_core::status_types::{
    ChecksSummary, GhStatus, GitDiffStats, MergeReadiness, MergeableStatus, PrState, PrStatus,
    PrStatusResponse, ReviewDecision, git_result_to_response, pr_result_to_response,
};

fn settings() -> WebStatusSettings {
    WebStatusSettings {
        initial_scan: true,
        status_scan_concurrency: 2,
        selected_refresh_interval_ms: 1_000,
        pr_refresh_interval_ms: 60_000,
    }
}

fn manager() -> StatusManager {
    StatusManager::new(StatusManagerConfig::from_config(&settings()))
}

fn git_response(adds: usize) -> conduit_core::status_types::GitDiffStatsResponse {
    git_result_to_response(Some(GitDiffStats { additions: adds, deletions: 0, files_changed: 1 }))
        .expect("changes present")
}

fn sample_pr() -> PrStatus {
    PrStatus {
        exists: true,
        number: Some(17),
        state: PrState::Open,
        url: Some("https://example.invalid/pr/17".to_string()),
        merge_readiness: MergeReadiness::Ready,
        checks: ChecksSummary { total: 5, passed: 5, failed: 0, pending: 0, skipped: 0 },
        mergeable: MergeableStatus::Mergeable,
        review_decision: ReviewDecision::Approved,
    }
}

fn pr_response() -> PrStatusResponse {
    PrStatusResponse::from_pr_status(&sample_pr()).expect("pr present")
}

#[test]
fn test_second_force_all_supersedes_first() {
    // Two force-all refreshes in rapid succession: only the second
    // dispatch's data commits; the late-resolving first dispatch is
    // discarded on its generation mismatch.
    let mut m = manager();
    let ws = WorkspaceId(1);
    m.register_workspace(ws, "/tmp/ws1".to_string());

    let first = m
        .schedule_refresh(ws, RefreshPlan::force_all(), 0)
        .expect("first dispatch");
    let second = m
        .schedule_refresh(ws, RefreshPlan::force_all(), 1)
        .expect("second dispatch");
    assert!(first.generation < second.generation);
    assert!(m.is_cancelled(&first));
    assert!(!m.is_cancelled(&second));

    // The second (newer) dispatch commits.
    let committed = m.commit_refresh(&second, Some(git_response(2)), Some(pr_response()), 10, 1_000);
    assert!(committed);

    // The first resolves late and is discarded.
    let stale = m.commit_refresh(&first, Some(git_response(99)), None, 11, 1_001);
    assert!(!stale);

    let status = m.get_status(ws).expect("status");
    assert_eq!(status.git_stats.expect("git").additions, 2);
    assert_eq!(status.pr_status.expect("pr").number, 17);
}

#[test]
fn test_force_all_on_fresh_workspace_commits_both_facets() {
    // On a never-refreshed workspace a force-all computes both
    // facets; the commit fills both caches and both timestamps.
    let mut m = manager();
    let ws = WorkspaceId(2);
    m.register_workspace(ws, "/tmp/ws2".to_string());

    let d = m
        .schedule_refresh(ws, RefreshPlan::force_all(), 5)
        .expect("dispatch");
    assert!(d.do_git);
    assert!(d.do_pr);

    assert!(m.commit_refresh(&d, Some(git_response(3)), Some(pr_response()), 6, 2_000));
    let status = m.get_status(ws).expect("status");
    assert!(status.git_stats.is_some());
    assert!(status.pr_status.is_some());
    assert_eq!(status.updated_at, Some(2_000));

    // Both timestamps were stamped: within both intervals nothing
    // is due, so an unforced dispatch has no work.
    let idle = m.schedule_refresh(
        ws,
        RefreshPlan { force_git: false, force_pr: false },
        7,
    );
    assert!(idle.is_none());
}

#[test]
fn test_active_ticks_within_pr_interval_leave_pr_untouched() {
    // Two active ticks after the git interval but within the PR
    // interval refresh git each time and never clobber the cached
    // PR status.
    let mut m = manager();
    let ws = WorkspaceId(3);
    m.register_workspace(ws, "/tmp/ws3".to_string());
    m.set_active_workspace(Some(ws), 0);
    let initial = m.active_tick_step(0).expect("initial dispatch");
    assert!(m.commit_refresh(&initial, Some(git_response(1)), None, 0, 100));
    // Give the PR facet a value through a forced refresh.
    let forced = m
        .schedule_refresh(ws, RefreshPlan::force_all(), 1)
        .expect("forced");
    assert!(m.commit_refresh(&forced, Some(git_response(1)), Some(pr_response()), 1, 101));

    // First tick: past the git interval (1s), inside the PR
    // interval (60s).
    let t1 = m.active_tick_step(2_000).expect("tick one");
    assert!(t1.do_git);
    assert!(!t1.do_pr);
    assert!(m.commit_refresh(&t1, Some(git_response(5)), None, 2_000, 102));
    let s1 = m.get_status(ws).expect("status");
    assert_eq!(s1.git_stats.expect("git").additions, 5);
    assert_eq!(s1.pr_status.expect("pr").number, 17);

    // Second tick, same shape.
    let t2 = m.active_tick_step(4_000).expect("tick two");
    assert!(t2.do_git);
    assert!(!t2.do_pr);
    assert!(m.commit_refresh(&t2, Some(git_response(6)), None, 4_000, 103));
    let s2 = m.get_status(ws).expect("status");
    assert_eq!(s2.git_stats.expect("git").additions, 6);
    assert_eq!(s2.pr_status.expect("pr").number, 17);
}

#[test]
fn test_admission_pool_of_one_admits_one_at_a_time() {
    // A pool sized to one admits exactly one computation; a second
    // must wait for the release.
    let mut pool = AdmissionPool::new(1);
    assert!(pool.try_acquire());
    assert!(!pool.try_acquire());
    assert!(!pool.try_acquire());
    pool.release();
    assert!(pool.try_acquire());
}

#[test]
fn test_concurrency_config_floor() {
    let cfg = StatusManagerConfig::from_config(&WebStatusSettings {
        initial_scan: false,
        status_scan_concurrency: 0,
        selected_refresh_interval_ms: 10,
        pr_refresh_interval_ms: 20,
    });
    assert_eq!(cfg.concurrency, 1);
}

#[test]
fn test_initial_scan_runs_once() {
    let mut m = manager();
    let entries = vec![
        (WorkspaceId(10), "/tmp/a".to_string()),
        (WorkspaceId(11), "/tmp/b".to_string()),
    ];
    let dispatches = m.kick_initial_scan(entries.clone(), 0);
    assert_eq!(dispatches.len(), 2);
    assert!(dispatches.iter().all(|d| d.do_git && d.do_pr));
    // Guarded by the one-shot flag: a second kick does nothing.
    let again = m.kick_initial_scan(entries, 1);
    assert!(again.is_empty());
}

#[test]
fn test_initial_scan_disabled_by_config() {
    let mut m = StatusManager::new(StatusManagerConfig::from_config(&WebStatusSettings {
        initial_scan: false,
        status_scan_concurrency: 1,
        selected_refresh_interval_ms: 10,
        pr_refresh_interval_ms: 20,
    }));
    let dispatches = m.kick_initial_scan(vec![(WorkspaceId(12), "/tmp/c".to_string())], 0);
    assert!(dispatches.is_empty());
    assert!(m.get_status(WorkspaceId(12)).is_none());
}

#[test]
fn test_removed_workspace_discards_in_flight_work() {
    let mut m = manager();
    let ws = WorkspaceId(20);
    m.register_workspace(ws, "/tmp/ws20".to_string());
    let d = m
        .schedule_refresh(ws, RefreshPlan::force_all(), 0)
        .expect("dispatch");
    m.remove_workspace(ws);
    assert!(m.is_cancelled(&d));
    assert!(!m.commit_refresh(&d, Some(git_response(1)), None, 1, 1));
    assert!(m.get_status(ws).is_none());
}

#[test]
fn test_schedule_without_entry_is_no_work() {
    let mut m = manager();
    assert!(m.schedule_refresh(WorkspaceId(30), RefreshPlan::force_all(), 0).is_none());
}

#[test]
fn test_get_status_never_schedules() {
    let mut m = manager();
    let ws = WorkspaceId(40);
    m.register_workspace(ws, "/tmp/ws40".to_string());
    let before = m.get_status(ws).expect("status");
    assert!(before.git_stats.is_none());
    assert!(before.pr_status.is_none());
    assert!(before.updated_at.is_none());
    // Reading did not dispatch anything: the entry's generation is
    // untouched, so a dispatch scheduled now is the first one.
    let d = m
        .schedule_refresh(ws, RefreshPlan::force_all(), 0)
        .expect("dispatch");
    assert_eq!(d.generation, 1);
}

#[test]
fn test_git_result_mapping() {
    // A failed invocation or an unchanged tree is no data.
    assert!(git_result_to_response(None).is_none());
    assert!(git_result_to_response(Some(GitDiffStats {
        additions: 0,
        deletions: 0,
        files_changed: 0
    }))
    .is_none());
    let r = git_result_to_response(Some(GitDiffStats {
        additions: 1,
        deletions: 2,
        files_changed: 3,
    }))
    .expect("changes");
    assert_eq!((r.additions, r.deletions, r.files_changed), (1, 2, 3));
}

#[test]
fn test_pr_result_mapping_gated_on_cli() {
    let pr = sample_pr();
    let not_installed = GhStatus { installed: false, authenticated: false };
    assert!(pr_result_to_response(not_installed, Some(&pr)).is_none());
    let not_authed = GhStatus { installed: true, authenticated: false };
    assert!(pr_result_to_response(not_authed, Some(&pr)).is_none());
    let ready = GhStatus { installed: true, authenticated: true };
    let resp = pr_result_to_response(ready, Some(&pr)).expect("response");
    assert_eq!(resp.number, 17);
    assert!(pr_result_to_response(ready, None).is_none());
}

#[test]
fn test_from_pr_status_fields() {
    let resp = PrStatusResponse::from_pr_status(&sample_pr()).expect("response");
    assert_eq!(resp.number, 17);
    assert_eq!(resp.state, "open");
    assert!(resp.checks_passing);
    assert_eq!(resp.url.as_deref(), Some("https://example.invalid/pr/17"));
    assert_eq!(resp.merge_readiness.as_deref(), Some("ready"));
    assert_eq!(resp.checks_total, Some(5));
    assert_eq!(resp.checks_passed, Some(5));
    assert_eq!(resp.checks_failed, Some(0));
    assert_eq!(resp.checks_pending, Some(0));
    assert_eq!(resp.checks_skipped, Some(0));
    assert_eq!(resp.mergeable.as_deref(), Some("mergeable"));
    assert_eq!(resp.review_decision.as_deref(), Some("approved"));
}

#[test]
fn test_from_pr_status_absent() {
    let mut pr = sample_pr();
    pr.exists = false;
    assert!(PrStatusResponse::from_pr_status(&pr).is_none());
    let mut unnumbered = sample_pr();
    unnumbered.number = None;
    assert!(PrStatusResponse::from_pr_status(&unnumbered).is_none());
}

#[test]
fn test_failing_checks_are_not_passing() {
    let mut pr = sample_pr();
    pr.checks = ChecksSummary { total: 3, passed: 1, failed: 1, pending: 1, skipped: 0 };
    let resp = PrStatusResponse::from_pr_status(&pr).expect("response");
    assert!(!resp.checks_passing);
}

#[test]
fn test_refresh_workspace_dispatches_for_registered_entry() {
    let mut m = manager();
    let ws = WorkspaceId(50);
    m.register_workspace(ws, "/tmp/ws50".to_string());
    let d = m.refresh_workspace(ws, 0).expect("a registered workspace is always dispatched");
    assert!(d.do_git && d.do_pr);
    assert_eq!(d.generation, 1);
    assert!(m.refresh_workspace(WorkspaceId(51), 0).is_none());
}

#[test]
fn test_focus_change_dispatches_immediately() {
    let mut m = manager();
    let ws = WorkspaceId(52);
    m.register_workspace(ws, "/tmp/ws52".to_string());
    let d = m
        .set_active_workspace(Some(ws), 0)
        .expect("focusing a registered workspace dispatches at once");
    assert_eq!(d.workspace, ws);
    assert!(d.do_git && d.do_pr);
    assert!(m.set_active_workspace(None, 1).is_none());
}
