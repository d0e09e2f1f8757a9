use access_window::clock::Instant;
use access_window::models::{
    AccessWindow, ActivationRecord, Application, ApprovalRecord, ExpirationRecord,
    RevocationRecord, SubmissionRecord,
};
use access_window::queries::{get_application_history, list_active_windows};

fn window(id: i64, app: i64, resource: &str, status: &str, start: &str, end: &str) -> AccessWindow {
    AccessWindow {
        id,
        application_id: app,
        target_resource: resource.to_string(),
        start_time: start.to_string(),
        end_time: end.to_string(),
        status: status.to_string(),
        created_at: "2026-08-25T10:00:00+00:00".to_string(),
    }
}

const S: &str = "2026-08-25T11:00:00+00:00";
const E: &str = "2026-08-25T14:00:00+00:00";

#[test]
fn active_windows_are_active_and_current_for_the_resource() {
    let windows = vec![
        window(1, 1, "test-env-1", "active", S, E),
        window(2, 2, "test-env-1", "approved", S, E),
        window(3, 3, "test-env-2", "active", S, E),
        window(4, 4, "test-env-1", "active", "2026-08-25T13:00:00+00:00", E),
        window(5, 5, "test-env-1", "active", S, "2026-08-25T11:30:00+00:00"),
        window(6, 6, "test-env-1", "revoked", S, E),
        window(7, 7, "test-env-1", "active", S, E),
    ];
    let now = Instant::new(1787659200, 0).unwrap(); // 2026-08-25T12:00:00Z
    let ids: Vec<i64> = list_active_windows(&windows, "test-env-1", &now).iter().map(|w| w.id).collect();
    assert_eq!(ids, vec![1, 7]);
    let ids: Vec<i64> = list_active_windows(&windows, "test-env-2", &now).iter().map(|w| w.id).collect();
    assert_eq!(ids, vec![3]);
    assert!(list_active_windows(&windows, "other", &now).is_empty());
    assert!(list_active_windows(&Vec::new(), "test-env-1", &now).is_empty());
}

#[test]
fn window_bounds_are_inclusive() {
    let windows = vec![window(1, 1, "r", "active", S, E)];
    let at_start = Instant::new(1787655600, 0).unwrap();
    let at_end = Instant::new(1787666400, 0).unwrap();
    let after_end = Instant::new(1787666400, 500_000_000).unwrap();
    let before = Instant::new(1787655599, 0).unwrap();
    assert_eq!(list_active_windows(&windows, "r", &at_start).len(), 1);
    assert_eq!(list_active_windows(&windows, "r", &at_end).len(), 1);
    assert_eq!(list_active_windows(&windows, "r", &after_end).len(), 0);
    assert_eq!(list_active_windows(&windows, "r", &before).len(), 0);
}

#[test]
fn window_times_are_compared_as_instants() {
    // 13:00 at +02:00 is 11:00 UTC and 16:00 at +02:00 is 14:00 UTC.
    let windows = vec![
        window(1, 1, "r", "active", "2026-08-25T13:00:00+02:00", "2026-08-25T16:00:00+02:00"),
        window(2, 2, "r", "active", "not a time", E),
        window(3, 3, "r", "active", S, "2026-08-25T14:00:00Z"),
    ];
    let noon = Instant::new(1787659200, 0).unwrap(); // 2026-08-25T12:00:00Z
    let ids: Vec<i64> = list_active_windows(&windows, "r", &noon).iter().map(|w| w.id).collect();
    assert_eq!(ids, vec![1, 3]);
    let late = Instant::new(1787666401, 0).unwrap(); // 2026-08-25T14:00:01Z
    assert!(list_active_windows(&windows, "r", &late).is_empty());
}

fn app(id: i64) -> Application {
    Application {
        id,
        applicant: "alice".to_string(),
        target_resource: "r".to_string(),
        reason: "why".to_string(),
        start_time: S.to_string(),
        end_time: E.to_string(),
        risk_level: "low".to_string(),
        status: "active".to_string(),
        created_at: S.to_string(),
        updated_at: S.to_string(),
    }
}

#[test]
fn history_keeps_only_the_applications_records_in_order() {
    let subs = vec![
        SubmissionRecord { id: 1, application_id: 1, created_at: "a".to_string() },
        SubmissionRecord { id: 2, application_id: 2, created_at: "b".to_string() },
        SubmissionRecord { id: 3, application_id: 1, created_at: "c".to_string() },
    ];
    let approvals = vec![ApprovalRecord {
        id: 1,
        application_id: 1,
        decision: "approved".to_string(),
        approver: "bob".to_string(),
        comment: None,
        created_at: "d".to_string(),
    }];
    let activations = vec![ActivationRecord { id: 1, window_id: 9, application_id: 2, created_at: "e".to_string() }];
    let expirations: Vec<ExpirationRecord> = Vec::new();
    let revocations = vec![RevocationRecord {
        id: 1,
        window_id: 9,
        application_id: 1,
        revoked_by: "admin".to_string(),
        reason: Some("done".to_string()),
        created_at: "f".to_string(),
    }];
    let h = get_application_history(
        Some(app(1)),
        Some(window(9, 1, "r", "revoked", S, E)),
        &subs,
        &approvals,
        &activations,
        &expirations,
        &revocations,
    )
    .ok()
    .unwrap();
    assert_eq!(h.application.id, 1);
    assert_eq!(h.window.as_ref().map(|w| w.id), Some(9));
    assert_eq!(h.submissions.iter().map(|s| s.id).collect::<Vec<_>>(), vec![1, 3]);
    assert_eq!(h.approvals.len(), 1);
    assert!(h.activations.is_empty());
    assert!(h.expirations.is_empty());
    assert_eq!(h.revocations[0].reason.as_deref(), Some("done"));

    let h = get_application_history(Some(app(1)), Some(window(9, 2, "r", "active", S, E)), &subs, &approvals, &activations, &expirations, &revocations)
        .ok()
        .unwrap();
    assert!(h.window.is_none());
}

#[test]
fn history_of_an_unknown_application_is_not_found() {
    let e = get_application_history(None, None, &Vec::new(), &Vec::new(), &Vec::new(), &Vec::new(), &Vec::new())
        .err()
        .unwrap();
    assert_eq!((e.status, e.message.as_str()), (404, "request not found"));
}

use access_window::models::ListApplicationsQuery;
use access_window::queries::list_applications;

fn app_of(id: i64, applicant: &str, resource: &str, status: &str) -> Application {
    Application { applicant: applicant.to_string(), target_resource: resource.to_string(), status: status.to_string(), ..app(id) }
}

#[test]
fn applications_are_listed_newest_first_by_filter() {
    let rows = vec![
        app_of(1, "alice", "db", "draft"),
        app_of(2, "bob", "db", "active"),
        app_of(3, "alice", "web", "active"),
        app_of(4, "alice", "db", "active"),
    ];
    let all = ListApplicationsQuery { status: None, applicant: None, resource: None };
    let ids: Vec<i64> = list_applications(&rows, &all).unwrap().iter().map(|a| a.id).collect();
    assert_eq!(ids, vec![4, 3, 2, 1]);
    let q = ListApplicationsQuery { status: Some("active".to_string()), applicant: Some("alice".to_string()), resource: None };
    let ids: Vec<i64> = list_applications(&rows, &q).unwrap().iter().map(|a| a.id).collect();
    assert_eq!(ids, vec![4, 3]);
    let q = ListApplicationsQuery { status: None, applicant: None, resource: Some("db".to_string()) };
    let ids: Vec<i64> = list_applications(&rows, &q).unwrap().iter().map(|a| a.id).collect();
    assert_eq!(ids, vec![4, 2, 1]);
}

#[test]
fn listing_by_an_unknown_status_is_refused() {
    let q = ListApplicationsQuery { status: Some("pending".to_string()), applicant: None, resource: None };
    let e = list_applications(&Vec::new(), &q).err().unwrap();
    assert_eq!(
        (e.status, e.message.as_str()),
        (400, "invalid status 'pending': must be one of draft, submitted, approved, active, expired, revoked, rejected")
    );
}
