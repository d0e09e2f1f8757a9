use access_window::status::{AppStatus, WindowStatus};

#[test]
fn app_status_names_round_trip() {
    let all = [
        AppStatus::Draft,
        AppStatus::Submitted,
        AppStatus::Approved,
        AppStatus::Active,
        AppStatus::Expired,
        AppStatus::Revoked,
        AppStatus::Rejected,
    ];
    for s in all {
        assert_eq!(AppStatus::parse(s.as_str()), Some(s));
    }
    assert_eq!(AppStatus::Draft.as_str(), "draft");
    assert_eq!(AppStatus::Rejected.as_str(), "rejected");
    assert_eq!(AppStatus::parse("Draft"), None);
    assert_eq!(AppStatus::parse(""), None);
}

#[test]
fn window_status_names() {
    assert_eq!(WindowStatus::Approved.as_str(), "approved");
    assert_eq!(WindowStatus::Active.as_str(), "active");
    assert_eq!(WindowStatus::Expired.as_str(), "expired");
    assert_eq!(WindowStatus::Revoked.as_str(), "revoked");
}
