use access_window::lifecycle::Action;
use access_window::auth::{
    authenticate, parse_token_registry, require_role, token_from_headers, Principal, Role,
};

#[test]
fn role_names() {
    for r in [Role::Operator, Role::Approver, Role::Admin] {
        assert_eq!(Role::parse(r.as_str()), Some(r));
    }
    assert_eq!(Role::parse(" admin\t"), Some(Role::Admin));
    assert_eq!(Role::parse("Admin"), None);
    assert_eq!(Role::parse(""), None);
}

#[test]
fn registry_reads_triples() {
    let reg = parse_token_registry("s3cr3t-alice:alice:approver, s3cr3t-bob : bob : operator,,").ok().unwrap();
    let alice = reg.get("s3cr3t-alice").unwrap();
    assert_eq!((alice.username.as_str(), alice.role), ("alice", Role::Approver));
    let bob = reg.get("s3cr3t-bob").unwrap();
    assert_eq!((bob.username.as_str(), bob.role), ("bob", Role::Operator));
    assert!(reg.get("nobody").is_none());
    assert!(!reg.is_empty());
}

#[test]
fn later_credentials_replace_earlier_ones() {
    let reg = parse_token_registry("t:alice:operator,t:root:admin").ok().unwrap();
    let p = reg.get("t").unwrap();
    assert_eq!((p.username.as_str(), p.role), ("root", Role::Admin));
}

#[test]
fn registry_refusals() {
    assert_eq!(
        parse_token_registry("a:b:operator,bad").err().unwrap(),
        "token entry #2 malformed; expected 'token:username:role'"
    );
    assert_eq!(
        parse_token_registry(",,a:b:c:d").err().unwrap(),
        "token entry #3 malformed; expected 'token:username:role'"
    );
    assert_eq!(
        parse_token_registry("a:b: boss ").err().unwrap(),
        "token entry #1 has unknown role ' boss'"
    );
    assert_eq!(
        parse_token_registry("a: :admin").err().unwrap(),
        "token entry #1 has empty token or username"
    );
    assert_eq!(
        parse_token_registry(" , ").err().unwrap(),
        "ACCESS_WINDOW_TOKENS did not contain any valid credentials"
    );
    assert_eq!(
        parse_token_registry("").err().unwrap(),
        "ACCESS_WINDOW_TOKENS did not contain any valid credentials"
    );
}

#[test]
fn tokens_from_headers() {
    assert_eq!(token_from_headers(Some("Bearer abc"), None).as_deref(), Some("abc"));
    assert_eq!(token_from_headers(Some("bearer  abc  "), None).as_deref(), Some("abc"));
    assert_eq!(token_from_headers(Some("Basic abc"), Some(" key ")).as_deref(), Some("key"));
    assert_eq!(token_from_headers(Some("Bearer   "), Some("key")).as_deref(), Some("key"));
    assert_eq!(token_from_headers(Some("Bearer x"), Some("key")).as_deref(), Some("x"));
    assert_eq!(token_from_headers(None, Some("  ")), None);
    assert_eq!(token_from_headers(None, None), None);
}

#[test]
fn authentication() {
    let reg = parse_token_registry("tok:alice:approver").ok().unwrap();
    let p = authenticate(Some("Bearer tok"), None, &reg).ok().unwrap();
    assert_eq!((p.username.as_str(), p.role), ("alice", Role::Approver));
    let e = authenticate(None, None, &reg).err().unwrap();
    assert_eq!(
        (e.status, e.message.as_str()),
        (401, "missing credentials; provide 'Authorization: Bearer <token>' or 'X-Api-Key'")
    );
    let e = authenticate(None, Some("other"), &reg).err().unwrap();
    assert_eq!((e.status, e.message.as_str()), (401, "invalid token"));
}

#[test]
fn role_requirements() {
    let admin = Principal { username: "root".to_string(), role: Role::Admin };
    assert!(require_role(&admin, &[]).is_ok());
    let op = Principal { username: "eve".to_string(), role: Role::Operator };
    assert!(require_role(&op, &[Role::Approver, Role::Operator]).is_ok());
    let e = require_role(&op, &[Role::Approver, Role::Admin]).err().unwrap();
    assert_eq!(
        (e.status, e.message.as_str()),
        (403, "role 'operator' is not permitted; requires one of: approver, admin")
    );
    let e = require_role(&op, &[]).err().unwrap();
    assert_eq!(e.message, "role 'operator' is not permitted; requires one of: ");
}

#[test]
fn which_role_may_take_which_step() {
    let all = [Action::Submit, Action::Approve, Action::Reject, Action::Activate, Action::Revoke, Action::Expire];
    for a in all {
        assert!(Role::Admin.may_take(a));
    }
    let operator: Vec<Action> = all.iter().copied().filter(|a| Role::Operator.may_take(*a)).collect();
    assert_eq!(operator, vec![Action::Submit, Action::Activate]);
    let approver: Vec<Action> = all.iter().copied().filter(|a| Role::Approver.may_take(*a)).collect();
    assert_eq!(approver, vec![Action::Approve, Action::Reject, Action::Revoke]);
    assert!(Role::Operator.may_request());
    assert!(Role::Admin.may_request());
    assert!(!Role::Approver.may_request());
}
