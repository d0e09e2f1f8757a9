//! The stored rows of the service, the request payloads, and the error reply.
//!
//! Times are kept as the RFC 3339 text under which they are stored.

use vstd::prelude::*;

use crate::clock::Instant;

verus! {

/// A stored application for temporary access.
pub struct Application {
    pub id: i64,
    pub applicant: String,
    pub target_resource: String,
    pub reason: String,
    pub start_time: String,
    pub end_time: String,
    pub risk_level: String,
    pub status: String,
    pub created_at: String,
    pub updated_at: String,
}

/// The character view of an [`Application`].
pub struct ApplicationView {
    pub id: i64,
    pub applicant: Seq<char>,
    pub target_resource: Seq<char>,
    pub reason: Seq<char>,
    pub start_time: Seq<char>,
    pub end_time: Seq<char>,
    pub risk_level: Seq<char>,
    pub status: Seq<char>,
    pub created_at: Seq<char>,
    pub updated_at: Seq<char>,
}

impl View for Application {
    type V = ApplicationView;

    open spec fn view(&self) -> ApplicationView {
        ApplicationView {
            id: self.id,
            applicant: self.applicant@,
            target_resource: self.target_resource@,
            reason: self.reason@,
            start_time: self.start_time@,
            end_time: self.end_time@,
            risk_level: self.risk_level@,
            status: self.status@,
            created_at: self.created_at@,
            updated_at: self.updated_at@,
        }
    }
}

/// A stored access window, opened for an application when it is approved.
pub struct AccessWindow {
    pub id: i64,
    pub application_id: i64,
    pub target_resource: String,
    pub start_time: String,
    pub end_time: String,
    pub status: String,
    pub created_at: String,
}

/// The character view of an [`AccessWindow`].
pub struct WindowView {
    pub id: i64,
    pub application_id: i64,
    pub target_resource: Seq<char>,
    pub start_time: Seq<char>,
    pub end_time: Seq<char>,
    pub status: Seq<char>,
    pub created_at: Seq<char>,
}

impl View for AccessWindow {
    type V = WindowView;

    open spec fn view(&self) -> WindowView {
        WindowView {
            id: self.id,
            application_id: self.application_id,
            target_resource: self.target_resource@,
            start_time: self.start_time@,
            end_time: self.end_time@,
            status: self.status@,
            created_at: self.created_at@,
        }
    }
}

/// The view of an optional window.
pub open spec fn window_view(w: Option<AccessWindow>) -> Option<WindowView> {
    match w {
        Some(x) => Some(x@),
        None => None,
    }
}

/// A stored submission of an application for approval.
pub struct SubmissionRecord {
    pub id: i64,
    pub application_id: i64,
    pub created_at: String,
}

/// A stored approval decision; `decision` is `approved` or `rejected`.
pub struct ApprovalRecord {
    pub id: i64,
    pub application_id: i64,
    pub decision: String,
    pub approver: String,
    pub comment: Option<String>,
    pub created_at: String,
}

/// A stored activation of an application's window.
pub struct ActivationRecord {
    pub id: i64,
    pub window_id: i64,
    pub application_id: i64,
    pub created_at: String,
}

/// A stored expiry of an application's window.
pub struct ExpirationRecord {
    pub id: i64,
    pub window_id: i64,
    pub application_id: i64,
    pub created_at: String,
}

/// A stored revocation of an application's window.
pub struct RevocationRecord {
    pub id: i64,
    pub window_id: i64,
    pub application_id: i64,
    pub revoked_by: String,
    pub reason: Option<String>,
    pub created_at: String,
}

/// An application with its window and every record kept of it, oldest first.
pub struct ApplicationHistory {
    pub application: Application,
    pub window: Option<AccessWindow>,
    pub submissions: Vec<SubmissionRecord>,
    pub approvals: Vec<ApprovalRecord>,
    pub activations: Vec<ActivationRecord>,
    pub expirations: Vec<ExpirationRecord>,
    pub revocations: Vec<RevocationRecord>,
}

/// A request to create an application.
pub struct CreateApplicationReq {
    pub applicant: String,
    pub target_resource: String,
    pub reason: String,
    pub start_time: Instant,
    pub end_time: Instant,
    /// low | medium | high
    pub risk_level: String,
}

/// A request to approve a submitted application.
pub struct ApproveReq {
    pub approver: String,
    pub comment: Option<String>,
}

/// A request to reject a submitted application.
pub struct RejectReq {
    pub approver: String,
    pub comment: Option<String>,
}

/// A request to revoke an application's window.
pub struct RevokeReq {
    pub revoked_by: String,
    pub reason: Option<String>,
}

/// Which applications to list: each present field must match exactly.
pub struct ListApplicationsQuery {
    pub status: Option<String>,
    pub applicant: Option<String>,
    pub resource: Option<String>,
}

/// A refused request: the HTTP status code and the message shown to the caller.
#[derive(Debug)]
pub struct ApiError {
    pub status: u16,
    pub message: String,
}

/// Whether `r` is the refusal with `status` and `message`.
pub open spec fn refused<T>(r: Result<T, ApiError>, status: u16, message: Seq<char>) -> bool {
    r matches Err(e) && e.status == status && e.message@ == message
}

/// The refusal with `status` and `message`.
pub fn refusal(status: u16, message: &str) -> (r: ApiError)
    ensures
        r.status == status,
        r.message@ == message@,
{
    ApiError { status, message: message.to_owned() }
}

/// A copy of an optional text.
pub fn copy_opt(s: &Option<String>) -> (r: Option<String>)
    ensures
        r == *s,
{
    match s {
        Some(x) => Some(x.clone()),
        None => None,
    }
}

/// Rows that belong to one application, and can be copied.
pub trait Owned: Sized {
    /// The application the row belongs to.
    spec fn owner_spec(&self) -> i64;

    /// The application the row belongs to.
    fn owner(&self) -> (r: i64)
        ensures
            r == self.owner_spec(),
    ;

    /// An equal copy of the row.
    fn duplicate(&self) -> (r: Self)
        ensures
            r == *self,
    ;
}

impl Owned for AccessWindow {
    open spec fn owner_spec(&self) -> i64 {
        self.application_id
    }

    fn owner(&self) -> (r: i64) {
        self.application_id
    }

    fn duplicate(&self) -> (r: Self) {
        AccessWindow {
            id: self.id,
            application_id: self.application_id,
            target_resource: self.target_resource.clone(),
            start_time: self.start_time.clone(),
            end_time: self.end_time.clone(),
            status: self.status.clone(),
            created_at: self.created_at.clone(),
        }
    }
}

impl Owned for SubmissionRecord {
    open spec fn owner_spec(&self) -> i64 {
        self.application_id
    }

    fn owner(&self) -> (r: i64) {
        self.application_id
    }

    fn duplicate(&self) -> (r: Self) {
        SubmissionRecord {
            id: self.id,
            application_id: self.application_id,
            created_at: self.created_at.clone(),
        }
    }
}

impl Owned for ApprovalRecord {
    open spec fn owner_spec(&self) -> i64 {
        self.application_id
    }

    fn owner(&self) -> (r: i64) {
        self.application_id
    }

    fn duplicate(&self) -> (r: Self) {
        ApprovalRecord {
            id: self.id,
            application_id: self.application_id,
            decision: self.decision.clone(),
            approver: self.approver.clone(),
            comment: copy_opt(&self.comment),
            created_at: self.created_at.clone(),
        }
    }
}

impl Owned for ActivationRecord {
    open spec fn owner_spec(&self) -> i64 {
        self.application_id
    }

    fn owner(&self) -> (r: i64) {
        self.application_id
    }

    fn duplicate(&self) -> (r: Self) {
        ActivationRecord {
            id: self.id,
            window_id: self.window_id,
            application_id: self.application_id,
            created_at: self.created_at.clone(),
        }
    }
}

impl Owned for ExpirationRecord {
    open spec fn owner_spec(&self) -> i64 {
        self.application_id
    }

    fn owner(&self) -> (r: i64) {
        self.application_id
    }

    fn duplicate(&self) -> (r: Self) {
        ExpirationRecord {
            id: self.id,
            window_id: self.window_id,
            application_id: self.application_id,
            created_at: self.created_at.clone(),
        }
    }
}

impl Owned for RevocationRecord {
    open spec fn owner_spec(&self) -> i64 {
        self.application_id
    }

    fn owner(&self) -> (r: i64) {
        self.application_id
    }

    fn duplicate(&self) -> (r: Self) {
        RevocationRecord {
            id: self.id,
            window_id: self.window_id,
            application_id: self.application_id,
            revoked_by: self.revoked_by.clone(),
            reason: copy_opt(&self.reason),
            created_at: self.created_at.clone(),
        }
    }
}

impl Application {
    /// An equal copy of the application.
    pub fn duplicate(&self) -> (r: Application)
        ensures
            r == *self,
    {
        Application {
            id: self.id,
            applicant: self.applicant.clone(),
            target_resource: self.target_resource.clone(),
            reason: self.reason.clone(),
            start_time: self.start_time.clone(),
            end_time: self.end_time.clone(),
            risk_level: self.risk_level.clone(),
            status: self.status.clone(),
            created_at: self.created_at.clone(),
            updated_at: self.updated_at.clone(),
        }
    }
}

/// The rows of `rows` that belong to application `id`, in their order.
pub fn rows_of<T: Owned>(rows: &Vec<T>, id: i64) -> (r: Vec<T>)
    ensures
        r@ == rows@.filter(|x: T| x.owner_spec() == id),
{
    let ghost pred = |x: T| x.owner_spec() == id;
    let mut r: Vec<T> = Vec::new();
    let n: usize = rows.len();
    let mut i: usize = 0;
    while i < n
        invariant
            n == rows@.len(),
            i <= n,
            pred == (|x: T| x.owner_spec() == id),
            r@ == rows@.take(i as int).filter(pred),
        decreases n - i,
    {
        proof {
            reveal_with_fuel(Seq::<_>::filter, 1);
            assert(rows@.take(i + 1).drop_last() =~= rows@.take(i as int));
        }
        if rows[i].owner() == id {
            r.push(rows[i].duplicate());
        }
        i = i + 1;
    }
    assert(rows@.take(n as int) =~= rows@);
    r
}

} // verus!
