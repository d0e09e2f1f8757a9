//! The errors of the service and the replies they turn into.

use vstd::prelude::*;

use crate::models::ApiError;

verus! {

/// An error of the service. Errors of the store and of time parsing carry the
/// text that describes them.
pub enum AppError {
    Db(String),
    TimeParse(String),
    NotFound(String),
    InvalidTransition { from: String, to: String },
    NotStarted(String),
    AlreadyExpired(String),
    Validation(String),
    Forbidden(String),
    Unauthorized(String),
}

/// The HTTP status and message that an error is answered with.
pub open spec fn reply_of(e: AppError) -> (u16, Seq<char>) {
    match e {
        AppError::Db(m) => (500, "database error: "@ + m@),
        AppError::TimeParse(m) => (400, "invalid time format: "@ + m@),
        AppError::NotFound(m) => (404, m@),
        AppError::InvalidTransition { from, to } => (
            409,
            "invalid state transition: "@ + from@ + " -> "@ + to@,
        ),
        AppError::NotStarted(t) => (409, "window has not yet reached start time: "@ + t@),
        AppError::AlreadyExpired(t) => (409, "window has already expired: "@ + t@),
        AppError::Validation(m) => (400, m@),
        AppError::Forbidden(m) => (403, m@),
        AppError::Unauthorized(m) => (401, m@),
    }
}

/// The text that describes an error.
pub open spec fn description_of(e: AppError) -> Seq<char> {
    match e {
        AppError::Db(m) => "database error: "@ + m@,
        AppError::TimeParse(m) => "time parse error: "@ + m@,
        AppError::NotFound(m) => "not found: "@ + m@,
        AppError::InvalidTransition { from, to } => "invalid state transition: "@ + from@
            + " -> "@ + to@,
        AppError::NotStarted(t) => "window has not yet reached start time: "@ + t@,
        AppError::AlreadyExpired(t) => "window has already expired: "@ + t@,
        AppError::Validation(m) => "validation error: "@ + m@,
        AppError::Forbidden(m) => "forbidden: "@ + m@,
        AppError::Unauthorized(m) => "unauthorized: "@ + m@,
    }
}

fn prefixed(prefix: &str, text: &String) -> (r: String)
    ensures
        r@ == prefix@ + text@,
{
    let mut s = prefix.to_owned();
    s.append(text.as_str());
    s
}

fn transition_text(prefix: &str, from: &String, to: &String) -> (r: String)
    ensures
        r@ == prefix@ + from@ + " -> "@ + to@,
{
    let mut s = prefix.to_owned();
    s.append(from.as_str());
    s.append(" -> ");
    s.append(to.as_str());
    s
}

impl AppError {
    /// The reply to the caller: status and message.
    pub fn into_reply(self) -> (r: ApiError)
        ensures
            (r.status, r.message@) == reply_of(self),
    {
        match self {
            AppError::Db(m) => ApiError { status: 500, message: prefixed("database error: ", &m) },
            AppError::TimeParse(m) => ApiError {
                status: 400,
                message: prefixed("invalid time format: ", &m),
            },
            AppError::NotFound(m) => ApiError { status: 404, message: m },
            AppError::InvalidTransition { from, to } => ApiError {
                status: 409,
                message: transition_text("invalid state transition: ", &from, &to),
            },
            AppError::NotStarted(t) => ApiError {
                status: 409,
                message: prefixed("window has not yet reached start time: ", &t),
            },
            AppError::AlreadyExpired(t) => ApiError {
                status: 409,
                message: prefixed("window has already expired: ", &t),
            },
            AppError::Validation(m) => ApiError { status: 400, message: m },
            AppError::Forbidden(m) => ApiError { status: 403, message: m },
            AppError::Unauthorized(m) => ApiError { status: 401, message: m },
        }
    }

    /// The text that describes this error.
    pub fn describe(&self) -> (r: String)
        ensures
            r@ == description_of(*self),
    {
        match self {
            AppError::Db(m) => prefixed("database error: ", m),
            AppError::TimeParse(m) => prefixed("time parse error: ", m),
            AppError::NotFound(m) => prefixed("not found: ", m),
            AppError::InvalidTransition { from, to } => transition_text(
                "invalid state transition: ",
                from,
                to,
            ),
            AppError::NotStarted(t) => prefixed("window has not yet reached start time: ", t),
            AppError::AlreadyExpired(t) => prefixed("window has already expired: ", t),
            AppError::Validation(m) => prefixed("validation error: ", m),
            AppError::Forbidden(m) => prefixed("forbidden: ", m),
            AppError::Unauthorized(m) => prefixed("unauthorized: ", m),
        }
    }
}

} // verus!
