use access_window::error::AppError;

#[test]
fn errors_answer_with_status_and_message() {
    let cases = [
        (AppError::Db("disk full".to_string()), 500, "database error: disk full", "database error: disk full"),
        (AppError::TimeParse("bad".to_string()), 400, "invalid time format: bad", "time parse error: bad"),
        (AppError::NotFound("application 3 not found".to_string()), 404, "application 3 not found", "not found: application 3 not found"),
        (
            AppError::InvalidTransition { from: "draft".to_string(), to: "active".to_string() },
            409,
            "invalid state transition: draft -> active",
            "invalid state transition: draft -> active",
        ),
        (AppError::NotStarted("t0".to_string()), 409, "window has not yet reached start time: t0", "window has not yet reached start time: t0"),
        (AppError::AlreadyExpired("t1".to_string()), 409, "window has already expired: t1", "window has already expired: t1"),
        (AppError::Validation("reason is required".to_string()), 400, "reason is required", "validation error: reason is required"),
        (AppError::Forbidden("no".to_string()), 403, "no", "forbidden: no"),
        (AppError::Unauthorized("who".to_string()), 401, "who", "unauthorized: who"),
    ];
    for (e, status, message, description) in cases {
        assert_eq!(e.describe(), description);
        let r = e.into_reply();
        assert_eq!((r.status, r.message.as_str()), (status, message));
    }
}
