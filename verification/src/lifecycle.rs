//! The lifecycle of an application and its access window:
//!
//! ```text
//! draft -> submitted -> approved -> active -> expired / revoked
//!                    \-> rejected \-> revoked / expired
//! ```
//!
//! Each operation looks at the stored application (and its window) and either
//! refuses with an [`ApiError`] or returns a [`Transition`]: the new state, the
//! change to the window, and the record to keep. Approving opens the window;
//! activating is allowed only while the current time lies inside the requested
//! range, and expiring only once its end has passed.

use vstd::prelude::*;

use crate::clock::{four_digit_year, instant_le, instant_lt, rendered, rfc3339_instant, Instant};
use crate::models::{
    copy_opt, refusal, refused, AccessWindow, ApiError, Application, ApplicationView,
    CreateApplicationReq, ApproveReq, RejectReq, RevokeReq, WindowView,
};
use crate::status::{
    app_status_named, app_status_names_round_trip, app_status_text, window_status_for,
    window_status_text, AppStatus, WindowStatus,
};
use crate::text::{blank, is_blank};

verus! {

/// The steps of the lifecycle.
#[derive(Debug, Clone, Copy, PartialEq, Eq, Structural)]
pub enum Action {
    Submit,
    Approve,
    Reject,
    Activate,
    Revoke,
    Expire,
}

/// The state a step leads to from a state, or `None` where the step is not
/// allowed from it.
pub open spec fn next_status(from: AppStatus, action: Action) -> Option<AppStatus> {
    match (from, action) {
        (AppStatus::Draft, Action::Submit) => Some(AppStatus::Submitted),
        (AppStatus::Submitted, Action::Approve) => Some(AppStatus::Approved),
        (AppStatus::Submitted, Action::Reject) => Some(AppStatus::Rejected),
        (AppStatus::Approved, Action::Activate) => Some(AppStatus::Active),
        (AppStatus::Approved, Action::Revoke) => Some(AppStatus::Revoked),
        (AppStatus::Active, Action::Revoke) => Some(AppStatus::Revoked),
        (AppStatus::Approved, Action::Expire) => Some(AppStatus::Expired),
        (AppStatus::Active, Action::Expire) => Some(AppStatus::Expired),
        _ => None,
    }
}

/// The state a stored application is in, `None` when its stored name is unknown.
pub open spec fn status_of(a: ApplicationView) -> Option<AppStatus> {
    app_status_named(a.status)
}

/// A new application to store; the store gives it its id.
pub struct NewApplication {
    pub applicant: String,
    pub target_resource: String,
    pub reason: String,
    pub start_time: String,
    pub end_time: String,
    pub risk_level: String,
    pub status: AppStatus,
    pub created_at: String,
    pub updated_at: String,
}

/// A window to open for an approved application, in state `approved`.
pub struct NewWindow {
    pub application_id: i64,
    pub target_resource: String,
    pub start_time: String,
    pub end_time: String,
    pub created_at: String,
}

/// What a step does to the application's window.
pub enum WindowChange {
    /// The window (if any) stays as it is.
    Keep,
    /// A window is opened.
    Open(NewWindow),
    /// The application's window moves to the given state.
    Mark(WindowStatus),
}

/// The record a step leaves in the application's history.
pub enum LogEntry {
    Submission { application_id: i64, created_at: String },
    Decision {
        application_id: i64,
        outcome: AppStatus,
        approver: String,
        comment: Option<String>,
        created_at: String,
    },
    Activation { application_id: i64, window_id: i64, created_at: String },
    Expiration { application_id: i64, window_id: i64, created_at: String },
    Revocation {
        application_id: i64,
        window_id: i64,
        revoked_by: String,
        reason: Option<String>,
        created_at: String,
    },
}

/// An allowed step: the application moves to `status`, stamped `stamp`, its window
/// changes as `window` says, and `entry` is recorded.
pub struct Transition {
    pub application_id: i64,
    pub action: Action,
    pub status: AppStatus,
    pub stamp: String,
    pub window: WindowChange,
    pub entry: LogEntry,
}

/// The window change that step `t` makes to application `a`.
pub open spec fn window_change_fits(a: ApplicationView, t: Transition) -> bool {
    match t.action {
        Action::Approve => t.window matches WindowChange::Open(nw) && nw.application_id == a.id
            && nw.target_resource@ == a.target_resource && nw.start_time@ == a.start_time
            && nw.end_time@ == a.end_time && nw.created_at@ == t.stamp@,
        Action::Activate => t.window matches WindowChange::Mark(ws) && ws == WindowStatus::Active,
        Action::Revoke => t.window matches WindowChange::Mark(ws) && ws == WindowStatus::Revoked,
        Action::Expire => t.window matches WindowChange::Mark(ws) && ws == WindowStatus::Expired,
        Action::Submit | Action::Reject => t.window matches WindowChange::Keep,
    }
}

/// The record that step `t` leaves for application `a` with window `w`.
pub open spec fn entry_fits(a: ApplicationView, w: Option<WindowView>, t: Transition) -> bool {
    match t.entry {
        LogEntry::Submission { application_id, created_at } => {
            &&& t.action == Action::Submit
            &&& application_id == a.id
            &&& created_at@ == t.stamp@
        },
        LogEntry::Decision { application_id, outcome, created_at, .. } => {
            &&& (t.action == Action::Approve && outcome == AppStatus::Approved) || (t.action
                == Action::Reject && outcome == AppStatus::Rejected)
            &&& application_id == a.id
            &&& created_at@ == t.stamp@
        },
        LogEntry::Activation { application_id, window_id, created_at } => {
            &&& t.action == Action::Activate
            &&& application_id == a.id
            &&& (w matches Some(x) && window_id == x.id)
            &&& created_at@ == t.stamp@
        },
        LogEntry::Expiration { application_id, window_id, created_at } => {
            &&& t.action == Action::Expire
            &&& application_id == a.id
            &&& (w matches Some(x) && window_id == x.id)
            &&& created_at@ == t.stamp@
        },
        LogEntry::Revocation { application_id, window_id, created_at, .. } => {
            &&& t.action == Action::Revoke
            &&& application_id == a.id
            &&& (w matches Some(x) && window_id == x.id)
            &&& created_at@ == t.stamp@
        },
    }
}

/// `t` is an allowed step of application `a` with window `w`, taken at `now`.
pub open spec fn valid_transition(
    a: ApplicationView,
    w: Option<WindowView>,
    t: Transition,
    now: (i64, u32),
) -> bool {
    &&& t.application_id == a.id
    &&& status_of(a) matches Some(s) && next_status(s, t.action) == Some(t.status)
    &&& t.stamp@ == rendered(now)
    &&& window_change_fits(a, t)
    &&& entry_fits(a, w, t)
}

/// The application after step `t`.
pub open spec fn applied(a: ApplicationView, t: Transition) -> ApplicationView {
    ApplicationView {
        id: a.id,
        applicant: a.applicant,
        target_resource: a.target_resource,
        reason: a.reason,
        start_time: a.start_time,
        end_time: a.end_time,
        risk_level: a.risk_level,
        status: app_status_text(t.status),
        created_at: a.created_at,
        updated_at: t.stamp@,
    }
}

/// The window after step `t`, where a newly opened window gets id `new_id`.
pub open spec fn window_after(w: Option<WindowView>, t: Transition, new_id: i64) -> Option<
    WindowView,
> {
    match t.window {
        WindowChange::Keep => w,
        WindowChange::Open(nw) => Some(
            WindowView {
                id: new_id,
                application_id: nw.application_id,
                target_resource: nw.target_resource@,
                start_time: nw.start_time@,
                end_time: nw.end_time@,
                status: window_status_text(WindowStatus::Approved),
                created_at: nw.created_at@,
            },
        ),
        WindowChange::Mark(ws) => match w {
            Some(x) => Some(
                WindowView {
                    id: x.id,
                    application_id: x.application_id,
                    target_resource: x.target_resource,
                    start_time: x.start_time,
                    end_time: x.end_time,
                    status: window_status_text(ws),
                    created_at: x.created_at,
                },
            ),
            None => None,
        },
    }
}

/// What the store holds of an application and its window agrees with the
/// lifecycle: the application is in a known state; it has a window exactly when
/// it has been approved; and that window is the application's own, covers the
/// application's resource and time range, and is in the same state.
pub open spec fn consistent(a: ApplicationView, w: Option<WindowView>) -> bool {
    match status_of(a) {
        None => false,
        Some(s) => match window_status_for(s) {
            None => w is None,
            Some(ws) => w matches Some(x) && x.application_id == a.id && x.status
                == window_status_text(ws) && x.target_resource == a.target_resource
                && x.start_time == a.start_time && x.end_time == a.end_time,
        },
    }
}

/// The stored view of a newly created application that gets id `id`.
pub open spec fn created(n: NewApplication, id: i64) -> ApplicationView {
    ApplicationView {
        id: id,
        applicant: n.applicant@,
        target_resource: n.target_resource@,
        reason: n.reason@,
        start_time: n.start_time@,
        end_time: n.end_time@,
        risk_level: n.risk_level@,
        status: app_status_text(n.status),
        created_at: n.created_at@,
        updated_at: n.updated_at@,
    }
}

/// How far along the lifecycle a state is.
pub open spec fn stage(s: AppStatus) -> nat {
    match s {
        AppStatus::Draft => 0,
        AppStatus::Submitted => 1,
        AppStatus::Approved => 2,
        AppStatus::Active => 3,
        AppStatus::Expired | AppStatus::Revoked | AppStatus::Rejected => 4,
    }
}

/// The creation request `req` at `now` gives the new application `n`.
pub open spec fn creation_fits(req: CreateApplicationReq, now: (i64, u32), n: NewApplication) -> bool {
    &&& n.applicant@ == req.applicant@
    &&& n.target_resource@ == req.target_resource@
    &&& n.reason@ == req.reason@
    &&& n.start_time@ == rendered(req.start_time@)
    &&& n.end_time@ == rendered(req.end_time@)
    &&& n.risk_level@ == req.risk_level@
    &&& n.status == AppStatus::Draft
    &&& n.created_at@ == rendered(now)
    &&& n.updated_at@ == rendered(now)
    &&& req.start_time@.1 < 1_000_000_000 && four_digit_year(req.start_time@.0) ==> rfc3339_instant(
        n.start_time@,
    ) == Some(req.start_time@)
    &&& req.end_time@.1 < 1_000_000_000 && four_digit_year(req.end_time@.0) ==> rfc3339_instant(
        n.end_time@,
    ) == Some(req.end_time@)
}

/// Refuses a blank `value` of the field named `field`.
pub fn require_non_empty(value: &str, field: &str) -> (r: Result<(), ApiError>)
    ensures
        blank(value@) ==> refused(r, 400, field@ + " must not be empty"@),
        !blank(value@) ==> r is Ok,
{
    if is_blank(value) {
        let mut msg = field.to_owned();
        msg.append(" must not be empty");
        Err(ApiError { status: 400, message: msg })
    } else {
        Ok(())
    }
}

/// Step `t` records the decision of `approver` with `comment`.
pub open spec fn decided_by(t: Transition, approver: Seq<char>, comment: Option<String>) -> bool {
    match t.entry {
        LogEntry::Decision { approver: by, comment: c, .. } => by@ == approver && c == comment,
        _ => false,
    }
}

/// Creates an application in state `draft`, stamped `now`. Applicant, resource,
/// reason and risk level must not be blank, checked in that order, and the range
/// must end after it starts.
pub fn create_application(req: &CreateApplicationReq, now: &Instant) -> (r: Result<
    NewApplication,
    ApiError,
>)
    ensures
        blank(req.applicant@) ==> refused(r, 400, "applicant"@ + " must not be empty"@),
        !blank(req.applicant@) && blank(req.target_resource@) ==> refused(
            r,
            400,
            "resource"@ + " must not be empty"@,
        ),
        !blank(req.applicant@) && !blank(req.target_resource@) && blank(req.reason@) ==> refused(
            r,
            400,
            "reason"@ + " must not be empty"@,
        ),
        !blank(req.applicant@) && !blank(req.target_resource@) && !blank(req.reason@) && blank(
            req.risk_level@,
        ) ==> refused(r, 400, "risk_level"@ + " must not be empty"@),
        !blank(req.applicant@) && !blank(req.target_resource@) && !blank(req.reason@) && !blank(
            req.risk_level@,
        ) && instant_le(req.end_time@, req.start_time@) ==> refused(
            r,
            400,
            "end_time must be after start_time"@,
        ),
        !blank(req.applicant@) && !blank(req.target_resource@) && !blank(req.reason@) && !blank(
            req.risk_level@,
        ) && instant_lt(req.start_time@, req.end_time@) ==> (r matches Ok(n) && creation_fits(
            *req,
            now@,
            n,
        )),
{
    if let Err(e) = require_non_empty(req.applicant.as_str(), "applicant") {
        return Err(e);
    }
    if let Err(e) = require_non_empty(req.target_resource.as_str(), "resource") {
        return Err(e);
    }
    if let Err(e) = require_non_empty(req.reason.as_str(), "reason") {
        return Err(e);
    }
    if let Err(e) = require_non_empty(req.risk_level.as_str(), "risk_level") {
        return Err(e);
    }
    if req.end_time.le(&req.start_time) {
        return Err(refusal(400, "end_time must be after start_time"));
    }
    let stamp = now.to_rfc3339();
    Ok(
        NewApplication {
            applicant: req.applicant.clone(),
            target_resource: req.target_resource.clone(),
            reason: req.reason.clone(),
            start_time: req.start_time.to_rfc3339(),
            end_time: req.end_time.to_rfc3339(),
            risk_level: req.risk_level.clone(),
            status: AppStatus::Draft,
            created_at: stamp.clone(),
            updated_at: stamp,
        },
    )
}

/// Submits a draft application for approval.
pub fn submit_application(current: Option<&Application>, now: &Instant) -> (r: Result<
    Transition,
    ApiError,
>)
    ensures
        match current {
            None => refused(r, 404, "request not found"@),
            Some(a) => if status_of(a@) == Some(AppStatus::Draft) {
                r matches Ok(t) && t.action == Action::Submit && valid_transition(a@, None, t, now@)
            } else {
                refused(r, 409, "only draft requests can be submitted"@)
            },
        },
{
    match current {
        None => Err(refusal(404, "request not found")),
        Some(a) => match AppStatus::parse(a.status.as_str()) {
            Some(AppStatus::Draft) => {
                let stamp = now.to_rfc3339();
                Ok(
                    Transition {
                        application_id: a.id,
                        action: Action::Submit,
                        status: AppStatus::Submitted,
                        stamp: stamp.clone(),
                        window: WindowChange::Keep,
                        entry: LogEntry::Submission { application_id: a.id, created_at: stamp },
                    },
                )
            },
            _ => Err(refusal(409, "only draft requests can be submitted")),
        },
    }
}

/// Approves a submitted application and opens its window over the requested
/// resource and time range.
pub fn approve_application(current: Option<&Application>, req: &ApproveReq, now: &Instant) -> (r:
    Result<Transition, ApiError>)
    ensures
        blank(req.approver@) ==> refused(r, 400, "approver"@ + " must not be empty"@),
        !blank(req.approver@) ==> match current {
            None => refused(r, 404, "request not found"@),
            Some(a) => if status_of(a@) == Some(AppStatus::Submitted) {
                r matches Ok(t) && t.action == Action::Approve && valid_transition(a@, None, t, now@)
                    && decided_by(t, req.approver@, req.comment)
            } else {
                refused(r, 409, "only submitted requests can be approved"@)
            },
        },
{
    if let Err(e) = require_non_empty(req.approver.as_str(), "approver") {
        return Err(e);
    }
    match current {
        None => Err(refusal(404, "request not found")),
        Some(a) => match AppStatus::parse(a.status.as_str()) {
            Some(AppStatus::Submitted) => {
                let stamp = now.to_rfc3339();
                Ok(
                    Transition {
                        application_id: a.id,
                        action: Action::Approve,
                        status: AppStatus::Approved,
                        stamp: stamp.clone(),
                        window: WindowChange::Open(
                            NewWindow {
                                application_id: a.id,
                                target_resource: a.target_resource.clone(),
                                start_time: a.start_time.clone(),
                                end_time: a.end_time.clone(),
                                created_at: stamp.clone(),
                            },
                        ),
                        entry: LogEntry::Decision {
                            application_id: a.id,
                            outcome: AppStatus::Approved,
                            approver: req.approver.clone(),
                            comment: copy_opt(&req.comment),
                            created_at: stamp,
                        },
                    },
                )
            },
            _ => Err(refusal(409, "only submitted requests can be approved")),
        },
    }
}

/// Rejects a submitted application.
pub fn reject_application(current: Option<&Application>, req: &RejectReq, now: &Instant) -> (r:
    Result<Transition, ApiError>)
    ensures
        blank(req.approver@) ==> refused(r, 400, "approver"@ + " must not be empty"@),
        !blank(req.approver@) ==> match current {
            None => refused(r, 404, "request not found"@),
            Some(a) => if status_of(a@) == Some(AppStatus::Submitted) {
                r matches Ok(t) && t.action == Action::Reject && valid_transition(a@, None, t, now@)
                    && decided_by(t, req.approver@, req.comment)
            } else {
                refused(r, 409, "only submitted requests can be rejected"@)
            },
        },
{
    if let Err(e) = require_non_empty(req.approver.as_str(), "approver") {
        return Err(e);
    }
    match current {
        None => Err(refusal(404, "request not found")),
        Some(a) => match AppStatus::parse(a.status.as_str()) {
            Some(AppStatus::Submitted) => {
                let stamp = now.to_rfc3339();
                Ok(
                    Transition {
                        application_id: a.id,
                        action: Action::Reject,
                        status: AppStatus::Rejected,
                        stamp: stamp.clone(),
                        window: WindowChange::Keep,
                        entry: LogEntry::Decision {
                            application_id: a.id,
                            outcome: AppStatus::Rejected,
                            approver: req.approver.clone(),
                            comment: copy_opt(&req.comment),
                            created_at: stamp,
                        },
                    },
                )
            },
            _ => Err(refusal(409, "only submitted requests can be rejected")),
        },
    }
}


/// The view of an optional borrowed window.
pub open spec fn ref_view(w: Option<&AccessWindow>) -> Option<WindowView> {
    match w {
        Some(x) => Some(x@),
        None => None,
    }
}

/// The stored application is present and in state `s`.
pub open spec fn in_state(current: Option<&Application>, s: AppStatus) -> bool {
    match current {
        Some(a) => status_of(a@) == Some(s),
        None => false,
    }
}

/// `now` lies inside the application's requested time range, ends included.
pub open spec fn within_range(a: ApplicationView, now: (i64, u32)) -> bool {
    match (rfc3339_instant(a.start_time), rfc3339_instant(a.end_time)) {
        (Some(s), Some(e)) => instant_le(s, now) && instant_le(now, e),
        _ => false,
    }
}

/// The application's requested time range has ended before `now`.
pub open spec fn past_end(a: ApplicationView, now: (i64, u32)) -> bool {
    match rfc3339_instant(a.end_time) {
        Some(e) => instant_lt(e, now),
        None => false,
    }
}

/// Step `t` records the revocation by `by` for `reason`.
pub open spec fn revoked_by(t: Transition, by: Seq<char>, reason: Option<String>) -> bool {
    match t.entry {
        LogEntry::Revocation { revoked_by: b, reason: why, .. } => b@ == by && why == reason,
        _ => false,
    }
}

/// The requested range has ended before `now` exactly when the stored end reads as
/// RFC 3339 and that instant is strictly earlier than `now`; `now` lies in the
/// range exactly when both stored ends read as RFC 3339 and `now` is no earlier
/// than the start and no later than the end.
pub proof fn range_checks_compare_instants(a: ApplicationView, now: (i64, u32))
    ensures
        past_end(a, now) <==> (rfc3339_instant(a.end_time) matches Some(e) && (e.0 < now.0 || (e.0
            == now.0 && e.1 < now.1))),
        within_range(a, now) <==> ((rfc3339_instant(a.start_time) matches Some(s) && (s.0 < now.0
            || (s.0 == now.0 && s.1 <= now.1))) && (rfc3339_instant(a.end_time) matches Some(e) && (
        now.0 < e.0 || (now.0 == e.0 && now.1 <= e.1)))),
{
}

/// What activating the stored application's window at `now` gives.
pub open spec fn activation_outcome(
    current: Option<&Application>,
    window: Option<&AccessWindow>,
    now: (i64, u32),
    r: Result<Transition, ApiError>,
) -> bool {
    &&& match current {
        None => refused(r, 404, "request not found"@),
        Some(a) => if status_of(a@) != Some(AppStatus::Approved) {
            refused(r, 409, "only approved requests can be activated"@)
        } else if rfc3339_instant(a.start_time@) is None || rfc3339_instant(a.end_time@) is None {
            refused(r, 500, "stored request times are not valid RFC 3339"@)
        } else if within_range(a@, now) {
            r matches Ok(t) && t.action == Action::Activate && valid_transition(
                a@,
                ref_view(window),
                t,
                now,
            )
        } else {
            refused(r, 409, "current time is outside the window range; cannot activate"@)
        },
    }
    &&& r is Ok ==> (current matches Some(a) && within_range(a@, now))
}

/// Activating at `now` reads the application's window: the application is
/// approved and `now` lies inside its requested range.
pub open spec fn activation_reads_window(current: Option<&Application>, now: (i64, u32)) -> bool {
    match current {
        Some(a) => status_of(a@) == Some(AppStatus::Approved) && within_range(a@, now),
        None => false,
    }
}

/// Whether `now` lies inside the stored application's requested range.
fn in_range_now(a: &Application, now: &Instant) -> (r: bool)
    ensures
        r == within_range(a@, now@),
{
    match (Instant::parse_rfc3339(a.start_time.as_str()), Instant::parse_rfc3339(a.end_time.as_str())) {
        (Some(start), Some(end)) => start.le(now) && now.le(&end),
        _ => false,
    }
}

/// Whether `now` lies after the end of the stored application's requested range.
fn ended_before(a: &Application, now: &Instant) -> (r: bool)
    ensures
        r == past_end(a@, now@),
{
    match Instant::parse_rfc3339(a.end_time.as_str()) {
        Some(end) => end.lt(now),
        None => false,
    }
}

/// Activates the window of an approved application, which is allowed only while
/// the current time lies inside the requested range (its ends included).
pub fn activate_window(current: Option<&Application>, window: Option<&AccessWindow>, now: &Instant)
    -> (r: Result<Transition, ApiError>)
    requires
        activation_reads_window(current, now@) ==> window is Some,
    ensures
        activation_outcome(current, window, now@, r),
        r is Ok <==> (current matches Some(a) && status_of(a@) == Some(AppStatus::Approved) && (rfc3339_instant(
            a.start_time@,
        ) matches Some(s) && instant_le(s, now@)) && (rfc3339_instant(a.end_time@) matches Some(e)
            && instant_le(now@, e))),
{
    match current {
        None => Err(refusal(404, "request not found")),
        Some(a) => match AppStatus::parse(a.status.as_str()) {
            Some(AppStatus::Approved) => {
                let start = Instant::parse_rfc3339(a.start_time.as_str());
                let end = Instant::parse_rfc3339(a.end_time.as_str());
                match (start, end) {
                    (Some(start), Some(end)) => {
                        if now.lt(&start) || end.lt(now) {
                            return Err(
                                refusal(
                                    409,
                                    "current time is outside the window range; cannot activate",
                                ),
                            );
                        }
                        let w = window.unwrap();
                        let stamp = now.to_rfc3339();
                        Ok(
                            Transition {
                                application_id: a.id,
                                action: Action::Activate,
                                status: AppStatus::Active,
                                stamp: stamp.clone(),
                                window: WindowChange::Mark(WindowStatus::Active),
                                entry: LogEntry::Activation {
                                    application_id: a.id,
                                    window_id: w.id,
                                    created_at: stamp,
                                },
                            },
                        )
                    },
                    _ => Err(refusal(500, "stored request times are not valid RFC 3339")),
                }
            },
            _ => Err(refusal(409, "only approved requests can be activated")),
        },
    }
}

/// What revoking the stored application's window at `now` gives.
pub open spec fn revocation_outcome(
    current: Option<&Application>,
    window: Option<&AccessWindow>,
    req: RevokeReq,
    now: (i64, u32),
    r: Result<Transition, ApiError>,
) -> bool {
    &&& blank(req.revoked_by@) ==> refused(r, 400, "revoked_by"@ + " must not be empty"@)
    &&& !blank(req.revoked_by@) ==> match current {
        None => refused(r, 404, "request not found"@),
        Some(a) => if status_of(a@) == Some(AppStatus::Approved) || status_of(a@) == Some(
            AppStatus::Active,
        ) {
            r matches Ok(t) && t.action == Action::Revoke && valid_transition(
                a@,
                ref_view(window),
                t,
                now,
            ) && revoked_by(t, req.revoked_by@, req.reason)
        } else {
            refused(r, 409, "only approved or active windows can be revoked"@)
        },
    }
}

/// Revoking reads the application's window: the revoking actor is named and the
/// application is approved or active.
pub open spec fn revocation_reads_window(current: Option<&Application>, req: RevokeReq) -> bool {
    !blank(req.revoked_by@) && (in_state(current, AppStatus::Approved) || in_state(
        current,
        AppStatus::Active,
    ))
}

/// Revokes the window of an approved or active application.
pub fn revoke_window(
    current: Option<&Application>,
    window: Option<&AccessWindow>,
    req: &RevokeReq,
    now: &Instant,
) -> (r: Result<Transition, ApiError>)
    requires
        revocation_reads_window(current, *req) ==> window is Some,
    ensures
        revocation_outcome(current, window, *req, now@, r),
        r is Ok <==> (!blank(req.revoked_by@) && (current matches Some(a) && (status_of(a@) == Some(
            AppStatus::Approved,
        ) || status_of(a@) == Some(AppStatus::Active)))),
        r matches Ok(t) ==> (t.entry matches LogEntry::Revocation { revoked_by: b, reason: why, .. }
            && b@ == req.revoked_by@ && why == req.reason),
{
    if let Err(e) = require_non_empty(req.revoked_by.as_str(), "revoked_by") {
        return Err(e);
    }
    match current {
        None => Err(refusal(404, "request not found")),
        Some(a) => match AppStatus::parse(a.status.as_str()) {
            Some(AppStatus::Approved) | Some(AppStatus::Active) => {
                let w = window.unwrap();
                let stamp = now.to_rfc3339();
                Ok(
                    Transition {
                        application_id: a.id,
                        action: Action::Revoke,
                        status: AppStatus::Revoked,
                        stamp: stamp.clone(),
                        window: WindowChange::Mark(WindowStatus::Revoked),
                        entry: LogEntry::Revocation {
                            application_id: a.id,
                            window_id: w.id,
                            revoked_by: req.revoked_by.clone(),
                            reason: copy_opt(&req.reason),
                            created_at: stamp,
                        },
                    },
                )
            },
            _ => Err(refusal(409, "only approved or active windows can be revoked")),
        },
    }
}

/// What marking the stored application's window as expired at `now` gives.
pub open spec fn expiry_outcome(
    current: Option<&Application>,
    window: Option<&AccessWindow>,
    now: (i64, u32),
    r: Result<Transition, ApiError>,
) -> bool {
    &&& match current {
        None => refused(r, 404, "request not found"@),
        Some(a) => if status_of(a@) != Some(AppStatus::Approved) && status_of(a@) != Some(
            AppStatus::Active,
        ) {
            refused(r, 409, "only approved or active windows can be expired"@)
        } else if rfc3339_instant(a.end_time@) is None {
            refused(r, 500, "stored request times are not valid RFC 3339"@)
        } else if past_end(a@, now) {
            r matches Ok(t) && t.action == Action::Expire && valid_transition(
                a@,
                ref_view(window),
                t,
                now,
            )
        } else {
            refused(r, 409, "window end_time has not passed yet"@)
        },
    }
    &&& r is Ok ==> (current matches Some(a) && past_end(a@, now))
}

/// Expiring at `now` reads the application's window: the application is approved
/// or active and its requested range has ended before `now`.
pub open spec fn expiry_reads_window(current: Option<&Application>, now: (i64, u32)) -> bool {
    match current {
        Some(a) => (status_of(a@) == Some(AppStatus::Approved) || status_of(a@) == Some(
            AppStatus::Active,
        )) && past_end(a@, now),
        None => false,
    }
}

/// Marks the window of an approved or active application as expired, which is
/// allowed only once the end of the requested range has passed.
pub fn expire_window(current: Option<&Application>, window: Option<&AccessWindow>, now: &Instant)
    -> (r: Result<Transition, ApiError>)
    requires
        expiry_reads_window(current, now@) ==> window is Some,
    ensures
        expiry_outcome(current, window, now@, r),
        r is Ok <==> (current matches Some(a) && (status_of(a@) == Some(AppStatus::Approved) || status_of(a@)
            == Some(AppStatus::Active)) && (rfc3339_instant(a.end_time@) matches Some(e)
            && instant_lt(e, now@))),
{
    match current {
        None => Err(refusal(404, "request not found")),
        Some(a) => match AppStatus::parse(a.status.as_str()) {
            Some(AppStatus::Approved) | Some(AppStatus::Active) => {
                match Instant::parse_rfc3339(a.end_time.as_str()) {
                    Some(end) => {
                        if now.le(&end) {
                            return Err(refusal(409, "window end_time has not passed yet"));
                        }
                        let w = window.unwrap();
                        let stamp = now.to_rfc3339();
                        Ok(
                            Transition {
                                application_id: a.id,
                                action: Action::Expire,
                                status: AppStatus::Expired,
                                stamp: stamp.clone(),
                                window: WindowChange::Mark(WindowStatus::Expired),
                                entry: LogEntry::Expiration {
                                    application_id: a.id,
                                    window_id: w.id,
                                    created_at: stamp,
                                },
                            },
                        )
                    },
                    None => Err(refusal(500, "stored request times are not valid RFC 3339")),
                }
            },
            _ => Err(refusal(409, "only approved or active windows can be expired")),
        },
    }
}


/// Activates the window as [`activate_window`] does where the store holds what
/// the step reads; `None` where the step would read a window the store lacks.
pub fn try_activate_window(
    current: Option<&Application>,
    window: Option<&AccessWindow>,
    now: &Instant,
) -> (r: Option<Result<Transition, ApiError>>)
    ensures
        match r {
            None => activation_reads_window(current, now@) && window is None,
            Some(x) => activation_outcome(current, window, now@, x),
        },
        r matches Some(x) ==> (x is Ok <==> (current matches Some(a) && status_of(a@) == Some(AppStatus::Approved) && (rfc3339_instant(
            a.start_time@,
        ) matches Some(s) && instant_le(s, now@)) && (rfc3339_instant(a.end_time@) matches Some(e)
            && instant_le(now@, e)))),
{
    if window.is_none() {
        if let Some(a) = current {
            if AppStatus::parse(a.status.as_str()) == Some(AppStatus::Approved) && in_range_now(
                a,
                now,
            ) {
                return None;
            }
        }
    }
    Some(activate_window(current, window, now))
}

/// Revokes the window as [`revoke_window`] does where the store holds what the
/// step reads; `None` where the step would read a window the store lacks.
pub fn try_revoke_window(
    current: Option<&Application>,
    window: Option<&AccessWindow>,
    req: &RevokeReq,
    now: &Instant,
) -> (r: Option<Result<Transition, ApiError>>)
    ensures
        match r {
            None => revocation_reads_window(current, *req) && window is None,
            Some(x) => revocation_outcome(current, window, *req, now@, x),
        },
        r matches Some(x) ==> (x is Ok <==> (!blank(req.revoked_by@) && (current matches Some(a) && (status_of(a@) == Some(
            AppStatus::Approved,
        ) || status_of(a@) == Some(AppStatus::Active))))),
{
    if window.is_none() && !is_blank(req.revoked_by.as_str()) {
        if let Some(a) = current {
            let s = AppStatus::parse(a.status.as_str());
            if s == Some(AppStatus::Approved) || s == Some(AppStatus::Active) {
                return None;
            }
        }
    }
    Some(revoke_window(current, window, req, now))
}

/// Marks the window as expired as [`expire_window`] does where the store holds
/// what the step reads; `None` where the step would read a window the store lacks.
pub fn try_expire_window(
    current: Option<&Application>,
    window: Option<&AccessWindow>,
    now: &Instant,
) -> (r: Option<Result<Transition, ApiError>>)
    ensures
        match r {
            None => expiry_reads_window(current, now@) && window is None,
            Some(x) => expiry_outcome(current, window, now@, x),
        },
        r matches Some(x) ==> (x is Ok <==> (current matches Some(a) && (status_of(a@) == Some(AppStatus::Approved) || status_of(a@)
            == Some(AppStatus::Active)) && (rfc3339_instant(a.end_time@) matches Some(e)
            && instant_lt(e, now@)))),
{
    if window.is_none() {
        if let Some(a) = current {
            let s = AppStatus::parse(a.status.as_str());
            if (s == Some(AppStatus::Approved) || s == Some(AppStatus::Active)) && ended_before(
                a,
                now,
            ) {
                return None;
            }
        }
    }
    Some(expire_window(current, window, now))
}

/// Every allowed step keeps what the store holds consistent: the window exists
/// exactly from approval on, belongs to its application, covers its resource and
/// time range, and is in the same state as the application.
pub proof fn steps_keep_store_consistent(
    a: ApplicationView,
    w: Option<WindowView>,
    t: Transition,
    now: (i64, u32),
    new_window_id: i64,
)
    requires
        consistent(a, w),
        valid_transition(a, w, t, now),
    ensures
        consistent(applied(a, t), window_after(w, t, new_window_id)),
{
    app_status_names_round_trip(t.status);
}

/// A newly created application is a draft without a window, which is consistent.
pub proof fn created_applications_are_consistent(n: NewApplication, id: i64)
    requires
        n.status == AppStatus::Draft,
    ensures
        consistent(created(n, id), None),
{
    app_status_names_round_trip(AppStatus::Draft);
}

/// Expired, revoked and rejected applications allow no further step.
pub proof fn final_states_allow_no_step(s: AppStatus, action: Action)
    requires
        s == AppStatus::Expired || s == AppStatus::Revoked || s == AppStatus::Rejected,
    ensures
        next_status(s, action) is None,
{
}

/// Every step moves an application strictly forward, so no state is ever
/// entered twice and an application takes at most four steps.
pub proof fn steps_move_forward(s: AppStatus, action: Action)
    ensures
        next_status(s, action) matches Some(n) ==> stage(n) > stage(s),
        stage(s) <= 4,
{
}

/// A window cannot be both open for activation and past its end at one instant.
pub proof fn activation_and_expiry_exclude_each_other(a: ApplicationView, now: (i64, u32))
    ensures
        !(within_range(a, now) && past_end(a, now)),
{
}

/// In a consistent store the window is in the state that accompanies the
/// application's state, under the same name.
pub proof fn windows_follow_their_applications(a: ApplicationView, w: Option<WindowView>)
    requires
        consistent(a, w),
    ensures
        w matches Some(x) ==> x.status == a.status && x.application_id == a.id,
{
}


/// An application is activated against the range it was created with: for an
/// application whose stored range is the one its creation wrote, with both ends
/// in the years 0000 to 9999 and outside leap seconds, activation is
/// in range exactly when `now` lies between the requested start and end.
pub proof fn activation_uses_the_requested_range(
    req: CreateApplicationReq,
    created_at: (i64, u32),
    n: NewApplication,
    a: ApplicationView,
    now: (i64, u32),
)
    requires
        creation_fits(req, created_at, n),
        a.start_time == n.start_time@,
        a.end_time == n.end_time@,
        req.start_time@.1 < 1_000_000_000,
        req.end_time@.1 < 1_000_000_000,
        four_digit_year(req.start_time@.0),
        four_digit_year(req.end_time@.0),
    ensures
        within_range(a, now) <==> instant_le(req.start_time@, now) && instant_le(
            now,
            req.end_time@,
        ),
        past_end(a, now) <==> instant_lt(req.end_time@, now),
{
}

/// Steps never change an application's requested resource or time range.
pub proof fn steps_keep_the_requested_range(a: ApplicationView, t: Transition)
    ensures
        applied(a, t).target_resource == a.target_resource,
        applied(a, t).start_time == a.start_time,
        applied(a, t).end_time == a.end_time,
        applied(a, t).applicant == a.applicant,
{
}


/// A step that leads somewhere never leads there again: from the state it leads
/// to, the same step is not allowed. So of two approvals (or any two equal steps)
/// taken one after the other, the second is refused.
pub proof fn a_step_is_never_repeated(s: AppStatus, action: Action)
    ensures
        next_status(s, action) matches Some(n) ==> next_status(n, action) is None,
{
}

/// An application becomes active only by activation from `approved`, and leaves
/// `active` only by revocation or expiry.
pub proof fn active_is_entered_by_activation_and_left_by_revocation_or_expiry(
    s: AppStatus,
    action: Action,
)
    ensures
        next_status(s, action) == Some(AppStatus::Active) ==> s == AppStatus::Approved && action
            == Action::Activate,
        s == AppStatus::Active && next_status(s, action) is Some ==> (action == Action::Revoke
            && next_status(s, action) == Some(AppStatus::Revoked)) || (action == Action::Expire
            && next_status(s, action) == Some(AppStatus::Expired)),
{
}

/// What the store holds of one application: the application, its window, and
/// the records of its history in the order they were kept.
pub struct Ledger {
    pub application: ApplicationView,
    pub window: Option<WindowView>,
    pub entries: Seq<LogEntry>,
}

/// The application a record belongs to.
pub open spec fn entry_owner(e: LogEntry) -> i64 {
    match e {
        LogEntry::Submission { application_id, .. } => application_id,
        LogEntry::Decision { application_id, .. } => application_id,
        LogEntry::Activation { application_id, .. } => application_id,
        LogEntry::Expiration { application_id, .. } => application_id,
        LogEntry::Revocation { application_id, .. } => application_id,
    }
}

/// The state a step leads to, wherever it is allowed.
pub open spec fn step_result(action: Action) -> AppStatus {
    match action {
        Action::Submit => AppStatus::Submitted,
        Action::Approve => AppStatus::Approved,
        Action::Reject => AppStatus::Rejected,
        Action::Activate => AppStatus::Active,
        Action::Revoke => AppStatus::Revoked,
        Action::Expire => AppStatus::Expired,
    }
}

/// The step whose record `e` is.
pub open spec fn entry_action(e: LogEntry) -> Action {
    match e {
        LogEntry::Submission { .. } => Action::Submit,
        LogEntry::Decision { outcome, .. } => if outcome == AppStatus::Approved {
            Action::Approve
        } else {
            Action::Reject
        },
        LogEntry::Activation { .. } => Action::Activate,
        LogEntry::Expiration { .. } => Action::Expire,
        LogEntry::Revocation { .. } => Action::Revoke,
    }
}

/// The store after step `t` is written, a newly opened window getting id
/// `new_window_id`.
pub open spec fn after_step(l: Ledger, t: Transition, new_window_id: i64) -> Ledger {
    Ledger {
        application: applied(l.application, t),
        window: window_after(l.window, t, new_window_id),
        entries: l.entries.push(t.entry),
    }
}

/// Where the steps `ts`, taken at the times `nows` with new windows getting the
/// ids `ids`, lead from `l`; `None` when one of them is not an allowed step.
pub open spec fn run(l: Ledger, ts: Seq<Transition>, nows: Seq<(i64, u32)>, ids: Seq<i64>) -> Option<
    Ledger,
>
    decreases ts.len(),
{
    if ts.len() == 0 {
        Some(l)
    } else if valid_transition(l.application, l.window, ts[0], nows[0]) {
        run(after_step(l, ts[0], ids[0]), ts.drop_first(), nows.drop_first(), ids.drop_first())
    } else {
        None
    }
}

/// A run of allowed steps from a consistent store ends in a consistent store
/// whose history holds, after the records kept before, one record per step in
/// the order taken, each the application's own and of the kind of its step; the application ends in the
/// state of the last step; and a run has at most as many steps as the states
/// still ahead (four from a draft).
pub proof fn runs_keep_the_store_consistent_and_record_every_step(
    l: Ledger,
    ts: Seq<Transition>,
    nows: Seq<(i64, u32)>,
    ids: Seq<i64>,
)
    requires
        consistent(l.application, l.window),
        nows.len() == ts.len(),
        ids.len() == ts.len(),
        run(l, ts, nows, ids) is Some,
    ensures
        ({
            let e = run(l, ts, nows, ids).unwrap();
            &&& consistent(e.application, e.window)
            &&& e.application.id == l.application.id
            &&& e.entries == l.entries + ts.map_values(|t: Transition| t.entry)
            &&& forall|i: int|
                0 <= i < ts.len() ==> entry_owner(#[trigger] ts[i].entry) == l.application.id
                    && entry_action(ts[i].entry) == ts[i].action && ts[i].status == step_result(
                    ts[i].action,
                )
            &&& ts.len() > 0 ==> status_of(e.application) == Some(ts.last().status)
            &&& ts.len() + stage(status_of(l.application).unwrap()) <= 4
        }),
    decreases ts.len(),
{
    if ts.len() > 0 {
        let t = ts[0];
        let a = l.application;
        let n = after_step(l, t, ids[0]);
        steps_keep_store_consistent(a, l.window, t, nows[0], ids[0]);
        app_status_names_round_trip(t.status);
        assert(status_of(n.application) == Some(t.status));
        steps_move_forward(status_of(a).unwrap(), t.action);
        runs_keep_the_store_consistent_and_record_every_step(
            n,
            ts.drop_first(),
            nows.drop_first(),
            ids.drop_first(),
        );
        let e = run(l, ts, nows, ids).unwrap();
        assert(e == run(n, ts.drop_first(), nows.drop_first(), ids.drop_first()).unwrap());
        assert(ts.map_values(|t: Transition| t.entry) =~= seq![t.entry] + ts.drop_first().map_values(
            |t: Transition| t.entry,
        ));
        assert(e.entries =~= l.entries + ts.map_values(|t: Transition| t.entry));
        assert forall|i: int| 0 <= i < ts.len() implies entry_owner(#[trigger] ts[i].entry)
            == l.application.id && entry_action(ts[i].entry) == ts[i].action && ts[i].status
            == step_result(ts[i].action) by {
            if i > 0 {
                assert(ts[i] == ts.drop_first()[i - 1]);
            }
        }
        if ts.len() > 1 {
            assert(ts.last() == ts.drop_first().last());
        }
    } else {
        assert(l.entries + ts.map_values(|t: Transition| t.entry) =~= l.entries);
        let s = status_of(l.application).unwrap();
        steps_move_forward(s, Action::Submit);
    }
}


/// The records of kind `action` among `entries`, in their order.
pub open spec fn records_of(entries: Seq<LogEntry>, action: Action) -> Seq<LogEntry> {
    entries.filter(|e: LogEntry| entry_action(e) == action)
}

/// The walk-through of the service: a draft that is submitted, approved by
/// `approver`, activated and revoked by `revoker` ends revoked with a revoked
/// window, and its history holds exactly one submission, one approval (by
/// `approver`), one activation and one revocation (by `revoker`), in that order,
/// and no expiry or rejection.
pub proof fn walk_through_to_revocation(
    l: Ledger,
    ts: Seq<Transition>,
    nows: Seq<(i64, u32)>,
    ids: Seq<i64>,
    approver: Seq<char>,
    comment: Option<String>,
    revoker: Seq<char>,
    reason: Option<String>,
)
    requires
        status_of(l.application) == Some(AppStatus::Draft),
        l.window is None,
        l.entries.len() == 0,
        nows.len() == ts.len(),
        ids.len() == ts.len(),
        ts.len() == 4,
        ts[0].action == Action::Submit,
        ts[1].action == Action::Approve,
        decided_by(ts[1], approver, comment),
        ts[2].action == Action::Activate,
        ts[3].action == Action::Revoke,
        revoked_by(ts[3], revoker, reason),
        run(l, ts, nows, ids) is Some,
    ensures
        ({
            let e = run(l, ts, nows, ids).unwrap();
            &&& e.application.status == app_status_text(AppStatus::Revoked)
            &&& e.window is Some
            &&& e.window.unwrap().status == window_status_text(WindowStatus::Revoked)
            &&& e.entries.len() == 4
            &&& entry_action(e.entries[0]) == Action::Submit
            &&& entry_action(e.entries[1]) == Action::Approve
            &&& entry_action(e.entries[2]) == Action::Activate
            &&& entry_action(e.entries[3]) == Action::Revoke
            &&& records_of(e.entries, Action::Submit).len() == 1
            &&& records_of(e.entries, Action::Approve).len() == 1
            &&& records_of(e.entries, Action::Activate).len() == 1
            &&& records_of(e.entries, Action::Revoke).len() == 1
            &&& records_of(e.entries, Action::Expire).len() == 0
            &&& records_of(e.entries, Action::Reject).len() == 0
            &&& (e.entries[1] matches LogEntry::Decision { approver: by, comment: c, .. } && by@
                == approver && c == comment)
            &&& (e.entries[3] matches LogEntry::Revocation { revoked_by: by, reason: why, .. }
                && by@ == revoker && why == reason)
            &&& forall|i: int|
                0 <= i < e.entries.len() ==> entry_owner(#[trigger] e.entries[i])
                    == l.application.id
        }),
{
    runs_keep_the_store_consistent_and_record_every_step(l, ts, nows, ids);
    let e = run(l, ts, nows, ids).unwrap();
    assert(e.entries =~= ts.map_values(|t: Transition| t.entry));
    assert(ts.last() == ts[3]);
    assert(ts[3].status == AppStatus::Revoked);
    assert(status_of(e.application) == Some(AppStatus::Revoked));
    assert(e.application.status == app_status_text(AppStatus::Revoked));
    assert(e.entries[1] == ts[1].entry);
    assert(e.entries[3] == ts[3].entry);
    assert forall|i: int| 0 <= i < e.entries.len() implies entry_owner(#[trigger] e.entries[i])
        == l.application.id by {
        assert(e.entries[i] == ts[i].entry);
    }
    let x = e.entries;
    assert(x =~= seq![x[0], x[1], x[2], x[3]]);
    reveal_with_fuel(Seq::<_>::filter, 5);
    assert(x.drop_last() =~= seq![x[0], x[1], x[2]]);
    assert(x.drop_last().drop_last() =~= seq![x[0], x[1]]);
    assert(x.drop_last().drop_last().drop_last() =~= seq![x[0]]);
    assert(x.drop_last().drop_last().drop_last().drop_last() =~= Seq::<LogEntry>::empty());
    assert(records_of(x, Action::Submit) =~= seq![x[0]]);
    assert(records_of(x, Action::Approve) =~= seq![x[1]]);
    assert(records_of(x, Action::Activate) =~= seq![x[2]]);
    assert(records_of(x, Action::Revoke) =~= seq![x[3]]);
    assert(records_of(x, Action::Expire) =~= Seq::<LogEntry>::empty());
    assert(records_of(x, Action::Reject) =~= Seq::<LogEntry>::empty());
}

} // verus!
