//! Read-only views of the store: the windows in effect for a resource, and the
//! full history of an application.

use vstd::prelude::*;

use crate::clock::{instant_le, rfc3339_instant, Instant};
use crate::models::{
    refusal, refused, AccessWindow, ActivationRecord, ApiError, Application, ApplicationHistory,
    ApprovalRecord, ApplicationView, ExpirationRecord, ListApplicationsQuery, Owned, RevocationRecord, SubmissionRecord, WindowView,
    rows_of,
};
use crate::lifecycle::{
    consistent, status_of, steps_keep_store_consistent, valid_transition, window_after,
    windows_follow_their_applications, within_range, Action, Transition,
};
use crate::status::{
    app_status_named, app_status_names_round_trip, window_status_text, AppStatus, WindowStatus,
};
use crate::text::same_text;

verus! {

/// `now` lies between the start and the end of window `w`, ends included, the
/// stored times read as RFC 3339 and compared as instants; a window whose times do
/// not read as RFC 3339 has no range.
pub open spec fn window_in_range(w: WindowView, now: (i64, u32)) -> bool {
    match (rfc3339_instant(w.start_time), rfc3339_instant(w.end_time)) {
        (Some(s), Some(e)) => instant_le(s, now) && instant_le(now, e),
        _ => false,
    }
}

/// Window `w` is in effect for `resource` at `now`: it is the resource's, it is
/// active, and `now` lies in its range.
pub open spec fn in_effect(w: WindowView, resource: Seq<char>, now: (i64, u32)) -> bool {
    &&& w.target_resource == resource
    &&& w.status == window_status_text(WindowStatus::Active)
    &&& window_in_range(w, now)
}

/// Whether `now` lies in the range of the stored window `w`.
fn in_range_of(w: &AccessWindow, now: &Instant) -> (r: bool)
    ensures
        r == window_in_range(w@, now@),
{
    match (Instant::parse_rfc3339(w.start_time.as_str()), Instant::parse_rfc3339(w.end_time.as_str())) {
        (Some(start), Some(end)) => start.le(now) && now.le(&end),
        _ => false,
    }
}

/// The windows among `windows` that are in effect for `resource` at `now`, in
/// their order.
pub fn list_active_windows(windows: &Vec<AccessWindow>, resource: &str, now: &Instant) -> (r: Vec<
    AccessWindow,
>)
    ensures
        r@ == windows@.filter(|w: AccessWindow| in_effect(w@, resource@, now@)),
        forall|w: AccessWindow|
            #![trigger r@.contains(w)]
            #![trigger windows@.contains(w)]
            r@.contains(w) <==> (windows@.contains(w) && w.target_resource@ == resource@
                && w.status@ == window_status_text(WindowStatus::Active) && (rfc3339_instant(
                w.start_time@,
            ) matches Some(s) && instant_le(s, now@)) && (rfc3339_instant(w.end_time@) matches Some(
                e,
            ) && instant_le(now@, e))),
{
    let ghost pred = |w: AccessWindow| in_effect(w@, resource@, now@);
    let mut r: Vec<AccessWindow> = Vec::new();
    let n: usize = windows.len();
    let mut i: usize = 0;
    while i < n
        invariant
            n == windows@.len(),
            i <= n,
            pred == (|w: AccessWindow| in_effect(w@, resource@, now@)),
            r@ == windows@.take(i as int).filter(pred),
        decreases n - i,
    {
        proof {
            reveal_with_fuel(Seq::<_>::filter, 1);
            assert(windows@.take(i + 1).drop_last() =~= windows@.take(i as int));
        }
        let w = &windows[i];
        if same_text(w.target_resource.as_str(), resource) && same_text(
            w.status.as_str(),
            WindowStatus::Active.as_str(),
        ) && in_range_of(w, now) {
            r.push(w.duplicate());
        }
        i = i + 1;
    }
    assert(windows@.take(n as int) =~= windows@);
    proof {
        listed_windows_are_exactly_the_current_ones(windows@, resource@, now@, r@);
    }
    r
}

/// A window is listed for `resource` at `now` exactly when it is among the stored
/// windows, belongs to `resource` itself (not to another resource whose name merely
/// starts the same way), is active, and `now` lies between its start and its end,
/// both read as RFC 3339 and compared as instants, ends included.
pub proof fn listed_windows_are_exactly_the_current_ones(
    windows: Seq<AccessWindow>,
    resource: Seq<char>,
    now: (i64, u32),
    listed: Seq<AccessWindow>,
)
    requires
        listed == windows.filter(|w: AccessWindow| in_effect(w@, resource, now)),
    ensures
        forall|w: AccessWindow|
            #![trigger listed.contains(w)]
            #![trigger windows.contains(w)]
            listed.contains(w) <==> (windows.contains(w) && w.target_resource@ == resource
                && w.status@ == window_status_text(WindowStatus::Active) && (rfc3339_instant(
                w.start_time@,
            ) matches Some(s) && instant_le(s, now)) && (rfc3339_instant(w.end_time@) matches Some(
                e,
            ) && instant_le(now, e))),
{
    let pred = |w: AccessWindow| in_effect(w@, resource, now);
    assert forall|w: AccessWindow|
        #![trigger listed.contains(w)]
        #![trigger windows.contains(w)]
        listed.contains(w) <==> (windows.contains(w) && pred(w)) by {
        if listed.contains(w) {
            windows.lemma_filter_contains_rev(pred, w);
            let i = choose|i: int| 0 <= i < listed.len() && listed[i] == w;
            windows.lemma_filter_pred(pred, i);
        }
        if windows.contains(w) && pred(w) {
            let i = choose|i: int| 0 <= i < windows.len() && windows[i] == w;
            windows.lemma_filter_contains(pred, i);
        }
    }
}

/// The history of application `application` (as read from the store, if it was
/// found), keeping of its window and of each list of records only what belongs to
/// that application.
pub fn get_application_history(
    application: Option<Application>,
    window: Option<AccessWindow>,
    submissions: &Vec<SubmissionRecord>,
    approvals: &Vec<ApprovalRecord>,
    activations: &Vec<ActivationRecord>,
    expirations: &Vec<ExpirationRecord>,
    revocations: &Vec<RevocationRecord>,
) -> (r: Result<ApplicationHistory, ApiError>)
    ensures
        match application {
            None => refused(r, 404, "request not found"@),
            Some(a) => r matches Ok(h) && h.application == a && h.window == (match window {
                Some(w) => if w.application_id == a.id {
                    Some(w)
                } else {
                    None
                },
                None => None,
            }) && h.submissions@ == submissions@.filter(
                |x: SubmissionRecord| x.owner_spec() == a.id,
            ) && h.approvals@ == approvals@.filter(|x: ApprovalRecord| x.owner_spec() == a.id)
                && h.activations@ == activations@.filter(
                |x: ActivationRecord| x.owner_spec() == a.id,
            ) && h.expirations@ == expirations@.filter(
                |x: ExpirationRecord| x.owner_spec() == a.id,
            ) && h.revocations@ == revocations@.filter(
                |x: RevocationRecord| x.owner_spec() == a.id,
            ),
        },
        application matches Some(a) ==> (r matches Ok(h) && h.submissions@ == submissions@.filter(
            |x: SubmissionRecord| x.application_id == a.id,
        ) && h.approvals@ == approvals@.filter(|x: ApprovalRecord| x.application_id == a.id)
            && h.activations@ == activations@.filter(
            |x: ActivationRecord| x.application_id == a.id,
        ) && h.expirations@ == expirations@.filter(
            |x: ExpirationRecord| x.application_id == a.id,
        ) && h.revocations@ == revocations@.filter(
            |x: RevocationRecord| x.application_id == a.id,
        ) && (h.window matches Some(w) ==> w.application_id == a.id)),
{
    proof {
        if application is Some {
            let id = application.unwrap().id;
            assert((|x: SubmissionRecord| x.owner_spec() == id) =~= (|x: SubmissionRecord|
                x.application_id == id));
            assert((|x: ApprovalRecord| x.owner_spec() == id) =~= (|x: ApprovalRecord|
                x.application_id == id));
            assert((|x: ActivationRecord| x.owner_spec() == id) =~= (|x: ActivationRecord|
                x.application_id == id));
            assert((|x: ExpirationRecord| x.owner_spec() == id) =~= (|x: ExpirationRecord|
                x.application_id == id));
            assert((|x: RevocationRecord| x.owner_spec() == id) =~= (|x: RevocationRecord|
                x.application_id == id));
        }
    }
    match application {
        None => Err(refusal(404, "request not found")),
        Some(a) => {
            let id = a.id;
            let window = match window {
                Some(w) => if w.application_id == id {
                    Some(w)
                } else {
                    None
                },
                None => None,
            };
            Ok(
                ApplicationHistory {
                    application: a,
                    window,
                    submissions: rows_of(submissions, id),
                    approvals: rows_of(approvals, id),
                    activations: rows_of(activations, id),
                    expirations: rows_of(expirations, id),
                    revocations: rows_of(revocations, id),
                },
            )
        },
    }
}


/// Application `a` matches every field that `q` sets.
pub open spec fn listed(a: ApplicationView, q: ListApplicationsQuery) -> bool {
    &&& (q.status matches Some(s) ==> a.status == s@)
    &&& (q.applicant matches Some(x) ==> a.applicant == x@)
    &&& (q.resource matches Some(x) ==> a.target_resource == x@)
}

/// `r` lists the applications among `rows` that match `q`, in the reverse of
/// their order in `rows`.
pub open spec fn listing(r: Result<Vec<Application>, ApiError>, rows: Seq<Application>, q: ListApplicationsQuery) -> bool {
    r matches Ok(v) && v@ == rows.reverse().filter(|a: Application| listed(a@, q))
}

fn matches_filter(value: &String, wanted: &Option<String>) -> (r: bool)
    ensures
        r == (wanted matches Some(x) ==> value@ == x@),
{
    match wanted {
        Some(x) => same_text(value.as_str(), x.as_str()),
        None => true,
    }
}

/// The applications among `rows` that match `query`, newest first when `rows`
/// come oldest first. A status filter must name a known state.
pub fn list_applications(rows: &Vec<Application>, query: &ListApplicationsQuery) -> (r: Result<
    Vec<Application>,
    ApiError,
>)
    ensures
        match query.status {
            Some(s) => if app_status_named(s@) is None {
                refused(
                    r,
                    400,
                    "invalid status '"@ + s@
                        + "': must be one of draft, submitted, approved, active, expired, revoked, rejected"@,
                )
            } else {
                listing(r, rows@, *query)
            },
            None => listing(r, rows@, *query),
        },
        r matches Ok(v) ==> forall|a: Application|
            #![trigger v@.contains(a)]
            #![trigger rows@.contains(a)]
            v@.contains(a) <==> (rows@.contains(a) && (query.status matches Some(s) ==> a.status@
                == s@) && (query.applicant matches Some(x) ==> a.applicant@ == x@) && (
            query.resource matches Some(x) ==> a.target_resource@ == x@)),
{
    if let Some(s) = &query.status {
        if AppStatus::parse(s.as_str()).is_none() {
            let mut msg = "invalid status '".to_owned();
            msg.append(s.as_str());
            msg.append(
                "': must be one of draft, submitted, approved, active, expired, revoked, rejected",
            );
            return Err(ApiError { status: 400, message: msg });
        }
    }
    let ghost pred = |a: Application| listed(a@, *query);
    let ghost back = rows@.reverse();
    let n: usize = rows.len();
    let mut r: Vec<Application> = Vec::new();
    let mut k: usize = 0;
    while k < n
        invariant
            n == rows@.len(),
            back == rows@.reverse(),
            k <= n,
            pred == (|a: Application| listed(a@, *query)),
            r@ == back.take(k as int).filter(pred),
        decreases n - k,
    {
        proof {
            reveal_with_fuel(Seq::<_>::filter, 1);
            assert(back.take(k + 1).drop_last() =~= back.take(k as int));
        }
        let a = &rows[n - 1 - k];
        assert(back[k as int] == *a);
        if matches_filter(&a.status, &query.status) && matches_filter(&a.applicant, &query.applicant)
            && matches_filter(&a.target_resource, &query.resource) {
            r.push(a.duplicate());
        }
        k = k + 1;
    }
    assert(back.take(n as int) =~= back);
    proof {
        listed_applications_are_exactly_the_matching_ones(rows@, *query, r@);
    }
    Ok(r)
}

/// An application is listed for query `q` exactly when it is among the rows and
/// equals, field by field, each value that `q` sets: its state, its applicant and
/// its resource, each compared whole (an applicant `bob` does not list `bobby`).
pub proof fn listed_applications_are_exactly_the_matching_ones(
    rows: Seq<Application>,
    q: ListApplicationsQuery,
    shown: Seq<Application>,
)
    requires
        shown == rows.reverse().filter(|a: Application| listed(a@, q)),
    ensures
        forall|a: Application|
            #![trigger shown.contains(a)]
            #![trigger rows.contains(a)]
            shown.contains(a) <==> (rows.contains(a) && (q.status matches Some(s) ==> a.status@
                == s@) && (q.applicant matches Some(x) ==> a.applicant@ == x@) && (
            q.resource matches Some(x) ==> a.target_resource@ == x@)),
{
    let pred = |a: Application| listed(a@, q);
    let back = rows.reverse();
    assert forall|a: Application|
        #![trigger shown.contains(a)]
        #![trigger rows.contains(a)]
        shown.contains(a) <==> (rows.contains(a) && pred(a)) by {
        if shown.contains(a) {
            back.lemma_filter_contains_rev(pred, a);
            let i = choose|i: int| 0 <= i < shown.len() && shown[i] == a;
            back.lemma_filter_pred(pred, i);
            let j = choose|j: int| 0 <= j < back.len() && back[j] == a;
            assert(rows[rows.len() - 1 - j] == a);
        }
        if rows.contains(a) && pred(a) {
            let j = choose|j: int| 0 <= j < rows.len() && rows[j] == a;
            assert(back[rows.len() - 1 - j] == a);
            back.lemma_filter_contains(pred, rows.len() - 1 - j);
        }
    }
}


/// In a consistent store a window is listed as in effect only while its
/// application is active, that is after its activation and before its
/// revocation or expiry.
pub proof fn windows_in_effect_belong_to_active_applications(
    a: ApplicationView,
    w: WindowView,
    resource: Seq<char>,
    now: (i64, u32),
)
    requires
        consistent(a, Some(w)),
        in_effect(w, resource, now),
    ensures
        status_of(a) == Some(AppStatus::Active),
        w.application_id == a.id,
{
    windows_follow_their_applications(a, Some(w));
    app_status_names_round_trip(status_of(a).unwrap());
}


/// The listing follows the lifecycle: once a step activates an application, its
/// window is listed for the application's resource exactly while the current time
/// lies in the application's requested range (the activation itself took place in
/// it); once a step revokes or expires it, the window is no longer listed at any
/// time.
pub proof fn listing_follows_activation_revocation_and_expiry(
    a: ApplicationView,
    w: Option<WindowView>,
    t: Transition,
    now: (i64, u32),
    new_window_id: i64,
    resource: Seq<char>,
    later: (i64, u32),
)
    requires
        consistent(a, w),
        valid_transition(a, w, t, now),
    ensures
        t.action == Action::Activate ==> (window_after(w, t, new_window_id) matches Some(x) && x.id
            == w.unwrap().id && x.application_id == a.id && (in_effect(
            x,
            a.target_resource,
            later,
        ) <==> within_range(a, later))),
        t.action == Action::Revoke || t.action == Action::Expire ==> (window_after(
            w,
            t,
            new_window_id,
        ) matches Some(x) && x.application_id == a.id && !in_effect(x, resource, later)),
{
    steps_keep_store_consistent(a, w, t, now, new_window_id);
    let after = window_after(w, t, new_window_id);
    if t.action == Action::Revoke || t.action == Action::Expire {
        let x = after.unwrap();
        assert(x.status[0] != window_status_text(WindowStatus::Active)[0]);
    }
}

} // verus!
