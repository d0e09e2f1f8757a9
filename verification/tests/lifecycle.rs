use access_window::clock::Instant;
use access_window::lifecycle::{
    activate_window, approve_application, create_application, expire_window, try_activate_window,
    try_expire_window, try_revoke_window,
    reject_application,
    require_non_empty, revoke_window, submit_application, Action, LogEntry, NewApplication,
    Transition, WindowChange,
};
use access_window::models::{
    AccessWindow, Application, ApproveReq, CreateApplicationReq, RejectReq, RevokeReq,
};
use access_window::status::{AppStatus, WindowStatus};

const START: i64 = 1787655600; // 2026-08-25T11:00:00Z
const END: i64 = 1787666400; // 2026-08-25T14:00:00Z

fn at(secs: i64) -> Instant {
    Instant::new(secs, 0).unwrap()
}

fn create_req() -> CreateApplicationReq {
    CreateApplicationReq {
        applicant: "alice".to_string(),
        target_resource: "test-env-1".to_string(),
        reason: "debug issue".to_string(),
        start_time: at(START),
        end_time: at(END),
        risk_level: "high".to_string(),
    }
}

fn stored(id: i64, new: &NewApplication) -> Application {
    Application {
        id,
        applicant: new.applicant.clone(),
        target_resource: new.target_resource.clone(),
        reason: new.reason.clone(),
        start_time: new.start_time.clone(),
        end_time: new.end_time.clone(),
        risk_level: new.risk_level.clone(),
        status: new.status.as_str().to_string(),
        created_at: new.created_at.clone(),
        updated_at: new.updated_at.clone(),
    }
}

fn with_status(a: &Application, status: &str) -> Application {
    Application { status: status.to_string(), ..clone_app(a) }
}

fn clone_app(a: &Application) -> Application {
    Application {
        id: a.id,
        applicant: a.applicant.clone(),
        target_resource: a.target_resource.clone(),
        reason: a.reason.clone(),
        start_time: a.start_time.clone(),
        end_time: a.end_time.clone(),
        risk_level: a.risk_level.clone(),
        status: a.status.clone(),
        created_at: a.created_at.clone(),
        updated_at: a.updated_at.clone(),
    }
}

fn applied(a: &Application, t: &Transition) -> Application {
    Application { status: t.status.as_str().to_string(), updated_at: t.stamp.clone(), ..clone_app(a) }
}

fn window_for(a: &Application, id: i64, status: &str) -> AccessWindow {
    AccessWindow {
        id,
        application_id: a.id,
        target_resource: a.target_resource.clone(),
        start_time: a.start_time.clone(),
        end_time: a.end_time.clone(),
        status: status.to_string(),
        created_at: a.created_at.clone(),
    }
}

fn draft() -> Application {
    let new = create_application(&create_req(), &at(START - 3600)).ok().unwrap();
    stored(1, &new)
}

#[test]
fn creation_makes_a_draft_stamped_now() {
    let new = create_application(&create_req(), &at(START - 3600)).ok().unwrap();
    assert_eq!(new.status, AppStatus::Draft);
    assert_eq!(new.applicant, "alice");
    assert_eq!(new.target_resource, "test-env-1");
    assert_eq!(new.start_time, "2026-08-25T11:00:00+00:00");
    assert_eq!(new.end_time, "2026-08-25T14:00:00+00:00");
    assert_eq!(new.created_at, "2026-08-25T10:00:00+00:00");
    assert_eq!(new.updated_at, new.created_at);
}

#[test]
fn creation_refuses_blank_fields_in_order() {
    let now = at(START);
    let mut req = create_req();
    req.applicant = "  ".to_string();
    req.reason = String::new();
    let e = create_application(&req, &now).err().unwrap();
    assert_eq!((e.status, e.message.as_str()), (400, "applicant must not be empty"));

    let mut req = create_req();
    req.target_resource = "\t".to_string();
    let e = create_application(&req, &now).err().unwrap();
    assert_eq!((e.status, e.message.as_str()), (400, "resource must not be empty"));

    let mut req = create_req();
    req.reason = " ".to_string();
    let e = create_application(&req, &now).err().unwrap();
    assert_eq!((e.status, e.message.as_str()), (400, "reason must not be empty"));

    let mut req = create_req();
    req.risk_level = String::new();
    let e = create_application(&req, &now).err().unwrap();
    assert_eq!((e.status, e.message.as_str()), (400, "risk_level must not be empty"));
}

#[test]
fn creation_refuses_a_range_that_does_not_end_after_it_starts() {
    let mut req = create_req();
    req.end_time = at(START);
    let e = create_application(&req, &at(START)).err().unwrap();
    assert_eq!((e.status, e.message.as_str()), (400, "end_time must be after start_time"));
    let mut req = create_req();
    req.start_time = at(END);
    req.end_time = at(START);
    let e = create_application(&req, &at(START)).err().unwrap();
    assert_eq!((e.status, e.message.as_str()), (400, "end_time must be after start_time"));
    let mut req = create_req();
    req.end_time = Instant::new(START, 1).unwrap();
    assert!(create_application(&req, &at(START)).is_ok());
}

#[test]
fn require_non_empty_names_the_field() {
    assert!(require_non_empty("x", "approver").is_ok());
    let e = require_non_empty(" \n", "approver").err().unwrap();
    assert_eq!((e.status, e.message.as_str()), (400, "approver must not be empty"));
}

#[test]
fn full_lifecycle_to_revocation() {
    let a = draft();
    let t = submit_application(Some(&a), &at(START - 1800)).ok().unwrap();
    assert_eq!(t.action, Action::Submit);
    assert_eq!(t.status, AppStatus::Submitted);
    assert_eq!(t.stamp, "2026-08-25T10:30:00+00:00");
    assert!(matches!(t.window, WindowChange::Keep));
    assert!(matches!(&t.entry, LogEntry::Submission { application_id: 1, created_at } if created_at == "2026-08-25T10:30:00+00:00"));
    let a = applied(&a, &t);
    assert_eq!(a.status, "submitted");

    let approve = ApproveReq { approver: "bob".to_string(), comment: Some("ok".to_string()) };
    let t = approve_application(Some(&a), &approve, &at(START - 600)).ok().unwrap();
    assert_eq!(t.status, AppStatus::Approved);
    match &t.window {
        WindowChange::Open(w) => {
            assert_eq!(w.application_id, 1);
            assert_eq!(w.target_resource, "test-env-1");
            assert_eq!(w.start_time, a.start_time);
            assert_eq!(w.end_time, a.end_time);
            assert_eq!(w.created_at, t.stamp);
        }
        _ => panic!("approval must open a window"),
    }
    match &t.entry {
        LogEntry::Decision { application_id, outcome, approver, comment, .. } => {
            assert_eq!(*application_id, 1);
            assert_eq!(*outcome, AppStatus::Approved);
            assert_eq!(approver, "bob");
            assert_eq!(comment.as_deref(), Some("ok"));
        }
        _ => panic!("approval must record a decision"),
    }
    let a = applied(&a, &t);
    let w = window_for(&a, 7, "approved");

    let t = activate_window(Some(&a), Some(&w), &at(START + 60)).ok().unwrap();
    assert_eq!(t.status, AppStatus::Active);
    assert!(matches!(t.window, WindowChange::Mark(WindowStatus::Active)));
    assert!(matches!(t.entry, LogEntry::Activation { application_id: 1, window_id: 7, .. }));
    let a = applied(&a, &t);
    let w = window_for(&a, 7, "active");

    let revoke = RevokeReq { revoked_by: "admin".to_string(), reason: Some("done early".to_string()) };
    let t = revoke_window(Some(&a), Some(&w), &revoke, &at(START + 120)).ok().unwrap();
    assert_eq!(t.status, AppStatus::Revoked);
    assert!(matches!(t.window, WindowChange::Mark(WindowStatus::Revoked)));
    match &t.entry {
        LogEntry::Revocation { window_id, revoked_by, reason, .. } => {
            assert_eq!(*window_id, 7);
            assert_eq!(revoked_by, "admin");
            assert_eq!(reason.as_deref(), Some("done early"));
        }
        _ => panic!("revocation must be recorded"),
    }
    let a = applied(&a, &t);
    assert_eq!(a.status, "revoked");
    let w = window_for(&a, 7, "revoked");

    // A revoked application allows no further step.
    let e = submit_application(Some(&a), &at(START)).err().unwrap();
    assert_eq!(e.status, 409);
    let e = activate_window(Some(&a), Some(&w), &at(START + 180)).err().unwrap();
    assert_eq!((e.status, e.message.as_str()), (409, "only approved requests can be activated"));
    let e = revoke_window(Some(&a), Some(&w), &revoke, &at(START + 180)).err().unwrap();
    assert_eq!((e.status, e.message.as_str()), (409, "only approved or active windows can be revoked"));
    let e = expire_window(Some(&a), Some(&w), &at(END + 1)).err().unwrap();
    assert_eq!((e.status, e.message.as_str()), (409, "only approved or active windows can be expired"));
}

#[test]
fn unknown_applications_are_not_found() {
    let now = at(START);
    let approve = ApproveReq { approver: "bob".to_string(), comment: None };
    let reject = RejectReq { approver: "bob".to_string(), comment: None };
    let revoke = RevokeReq { revoked_by: "admin".to_string(), reason: None };
    for e in [
        submit_application(None, &now).err().unwrap(),
        approve_application(None, &approve, &now).err().unwrap(),
        reject_application(None, &reject, &now).err().unwrap(),
        activate_window(None, None, &now).err().unwrap(),
        revoke_window(None, None, &revoke, &now).err().unwrap(),
        expire_window(None, None, &now).err().unwrap(),
    ] {
        assert_eq!((e.status, e.message.as_str()), (404, "request not found"));
    }
}

#[test]
fn blank_actor_is_refused_before_lookup() {
    let now = at(START);
    let approve = ApproveReq { approver: " ".to_string(), comment: None };
    let e = approve_application(None, &approve, &now).err().unwrap();
    assert_eq!((e.status, e.message.as_str()), (400, "approver must not be empty"));
    let reject = RejectReq { approver: String::new(), comment: None };
    let e = reject_application(None, &reject, &now).err().unwrap();
    assert_eq!((e.status, e.message.as_str()), (400, "approver must not be empty"));
    let revoke = RevokeReq { revoked_by: "\t".to_string(), reason: None };
    let e = revoke_window(None, None, &revoke, &now).err().unwrap();
    assert_eq!((e.status, e.message.as_str()), (400, "revoked_by must not be empty"));
}

#[test]
fn steps_from_the_wrong_state_conflict() {
    let a = draft();
    let now = at(START);
    let approve = ApproveReq { approver: "bob".to_string(), comment: None };
    let e = approve_application(Some(&a), &approve, &now).err().unwrap();
    assert_eq!((e.status, e.message.as_str()), (409, "only submitted requests can be approved"));
    let reject = RejectReq { approver: "bob".to_string(), comment: None };
    let e = reject_application(Some(&a), &reject, &now).err().unwrap();
    assert_eq!((e.status, e.message.as_str()), (409, "only submitted requests can be rejected"));
    let sub = with_status(&a, "submitted");
    let e = submit_application(Some(&sub), &now).err().unwrap();
    assert_eq!((e.status, e.message.as_str()), (409, "only draft requests can be submitted"));
    let odd = with_status(&a, "unknown");
    assert_eq!(submit_application(Some(&odd), &now).err().unwrap().status, 409);
}

#[test]
fn rejection_records_the_decision_and_ends_the_application() {
    let a = with_status(&draft(), "submitted");
    let reject = RejectReq { approver: "carol".to_string(), comment: Some("no".to_string()) };
    let t = reject_application(Some(&a), &reject, &at(START)).ok().unwrap();
    assert_eq!(t.status, AppStatus::Rejected);
    assert!(matches!(t.window, WindowChange::Keep));
    assert!(matches!(&t.entry, LogEntry::Decision { outcome: AppStatus::Rejected, approver, .. } if approver == "carol"));
    let a = applied(&a, &t);
    let approve = ApproveReq { approver: "bob".to_string(), comment: None };
    assert_eq!(approve_application(Some(&a), &approve, &at(START)).err().unwrap().status, 409);
}

#[test]
fn activation_only_inside_the_window() {
    let a = with_status(&draft(), "approved");
    let w = window_for(&a, 3, "approved");
    let outside = "current time is outside the window range; cannot activate";
    let e = activate_window(Some(&a), Some(&w), &at(START - 1)).err().unwrap();
    assert_eq!((e.status, e.message.as_str()), (409, outside));
    let e = activate_window(Some(&a), Some(&w), &Instant::new(END, 1).unwrap()).err().unwrap();
    assert_eq!((e.status, e.message.as_str()), (409, outside));
    // Both ends of the range are inside it.
    assert!(activate_window(Some(&a), Some(&w), &at(START)).is_ok());
    assert!(activate_window(Some(&a), Some(&w), &at(END)).is_ok());
}

#[test]
fn activation_with_unreadable_stored_times_is_an_internal_error() {
    let mut a = with_status(&draft(), "approved");
    a.start_time = "yesterday".to_string();
    let w = window_for(&a, 3, "approved");
    let e = activate_window(Some(&a), Some(&w), &at(START)).err().unwrap();
    assert_eq!((e.status, e.message.as_str()), (500, "stored request times are not valid RFC 3339"));
}

#[test]
fn expiry_only_after_the_end() {
    for status in ["approved", "active"] {
        let a = with_status(&draft(), status);
        let w = window_for(&a, 4, status);
        let e = expire_window(Some(&a), Some(&w), &at(END)).err().unwrap();
        assert_eq!((e.status, e.message.as_str()), (409, "window end_time has not passed yet"));
        let t = expire_window(Some(&a), Some(&w), &Instant::new(END, 1).unwrap()).ok().unwrap();
        assert_eq!(t.status, AppStatus::Expired);
        assert!(matches!(t.window, WindowChange::Mark(WindowStatus::Expired)));
        assert!(matches!(t.entry, LogEntry::Expiration { application_id: 1, window_id: 4, .. }));
    }
}

#[test]
fn approved_windows_can_be_revoked_before_activation() {
    let a = with_status(&draft(), "approved");
    let w = window_for(&a, 5, "approved");
    let revoke = RevokeReq { revoked_by: "admin".to_string(), reason: None };
    let t = revoke_window(Some(&a), Some(&w), &revoke, &at(START - 10)).ok().unwrap();
    assert_eq!(t.status, AppStatus::Revoked);
}

#[test]
fn stored_state_stays_consistent_along_a_run() {
    // The window follows the application: same id, range and state.
    let a = draft();
    let t = submit_application(Some(&a), &at(START - 100)).ok().unwrap();
    let a = applied(&a, &t);
    let approve = ApproveReq { approver: "bob".to_string(), comment: None };
    let t = approve_application(Some(&a), &approve, &at(START - 50)).ok().unwrap();
    let a = applied(&a, &t);
    let w = match &t.window {
        WindowChange::Open(nw) => AccessWindow {
            id: 9,
            application_id: nw.application_id,
            target_resource: nw.target_resource.clone(),
            start_time: nw.start_time.clone(),
            end_time: nw.end_time.clone(),
            status: WindowStatus::Approved.as_str().to_string(),
            created_at: nw.created_at.clone(),
        },
        _ => panic!("approval opens a window"),
    };
    assert_eq!(w.status, a.status);
    assert_eq!((w.start_time.as_str(), w.end_time.as_str()), (a.start_time.as_str(), a.end_time.as_str()));
    let t = activate_window(Some(&a), Some(&w), &at(START + 1)).ok().unwrap();
    let a = applied(&a, &t);
    let w = match t.window {
        WindowChange::Mark(s) => AccessWindow { status: s.as_str().to_string(), ..w },
        _ => panic!("activation marks the window"),
    };
    assert_eq!(w.status, a.status);
    let t = expire_window(Some(&a), Some(&w), &at(END + 5)).ok().unwrap();
    let a = applied(&a, &t);
    let w = match t.window {
        WindowChange::Mark(s) => AccessWindow { status: s.as_str().to_string(), ..w },
        _ => panic!("expiry marks the window"),
    };
    assert_eq!(w.status, a.status);
    assert_eq!(a.status, "expired");
}

#[test]
fn a_missing_window_matters_only_where_the_step_reads_it() {
    let approved = with_status(&draft(), "approved");
    let active = with_status(&draft(), "active");
    // Out of range: refused before the window is read.
    let r = try_activate_window(Some(&approved), None, &at(START - 1)).unwrap();
    assert_eq!(r.err().unwrap().message, "current time is outside the window range; cannot activate");
    // In range: the step reads the window, which is missing.
    assert!(try_activate_window(Some(&approved), None, &at(START + 1)).is_none());
    // Not yet ended: refused before the window is read.
    let r = try_expire_window(Some(&active), None, &at(END)).unwrap();
    assert_eq!(r.err().unwrap().message, "window end_time has not passed yet");
    assert!(try_expire_window(Some(&active), None, &at(END + 1)).is_none());
    // Blank actor: refused before anything is read.
    let blank = RevokeReq { revoked_by: " ".to_string(), reason: None };
    let r = try_revoke_window(Some(&active), None, &blank, &at(START)).unwrap();
    assert_eq!(r.err().unwrap().status, 400);
    let named = RevokeReq { revoked_by: "admin".to_string(), reason: None };
    assert!(try_revoke_window(Some(&active), None, &named, &at(START)).is_none());
    // With the window present the steps go through.
    let w = window_for(&approved, 2, "approved");
    assert!(try_activate_window(Some(&approved), Some(&w), &at(START + 1)).unwrap().is_ok());
    assert!(try_revoke_window(Some(&approved), Some(&w), &named, &at(START)).unwrap().is_ok());
}

#[test]
fn a_range_beyond_year_9999_is_stored_but_cannot_be_read_back() {
    let mut req = create_req();
    req.end_time = at(253402300800); // 10000-01-01T00:00:00Z
    let new = create_application(&req, &at(START - 3600)).ok().unwrap();
    assert_eq!(new.end_time, "+10000-01-01T00:00:00+00:00");
    let a = with_status(&stored(1, &new), "approved");
    let w = window_for(&a, 3, "approved");
    let e = activate_window(Some(&a), Some(&w), &at(START)).err().unwrap();
    assert_eq!((e.status, e.message.as_str()), (500, "stored request times are not valid RFC 3339"));
}

#[test]
fn approving_twice_in_turn_is_refused_the_second_time() {
    let a = with_status(&draft(), "submitted");
    let approve = ApproveReq { approver: "bob".to_string(), comment: None };
    let t = approve_application(Some(&a), &approve, &at(START)).ok().unwrap();
    let a = applied(&a, &t);
    let e = approve_application(Some(&a), &approve, &at(START)).err().unwrap();
    assert_eq!((e.status, e.message.as_str()), (409, "only submitted requests can be approved"));
}
