//! Callers and their roles: the token registry read from its textual form,
//! bearer tokens taken from request headers, authentication against the registry,
//! and role checks.

use vstd::prelude::*;

use crate::lifecycle::Action;
use crate::models::{refusal, refused, ApiError};
use crate::text::{
    decimal, decimal_string, same_text, split_str, split_text, strip_prefix, trim, trim_str,
    views_of, without_prefix,
};

verus! {

/// Roles a principal can hold. `Admin` is allowed to perform any action.
#[derive(Debug, Clone, Copy, PartialEq, Eq, Structural)]
pub enum Role {
    /// Requests, submits and activates windows (e.g. the engineer).
    Operator,
    /// Approves / rejects applications and revokes windows.
    Approver,
    /// May perform any action.
    Admin,
}

/// The name of a role.
pub open spec fn role_text(r: Role) -> Seq<char> {
    match r {
        Role::Operator => seq!['o', 'p', 'e', 'r', 'a', 't', 'o', 'r'],
        Role::Approver => seq!['a', 'p', 'p', 'r', 'o', 'v', 'e', 'r'],
        Role::Admin => seq!['a', 'd', 'm', 'i', 'n'],
    }
}

/// The role a name denotes, if any.
pub open spec fn role_named(t: Seq<char>) -> Option<Role> {
    if t == role_text(Role::Operator) {
        Some(Role::Operator)
    } else if t == role_text(Role::Approver) {
        Some(Role::Approver)
    } else if t == role_text(Role::Admin) {
        Some(Role::Admin)
    } else {
        None
    }
}

impl Role {
    /// The role named by `s`, ignoring surrounding white space.
    pub fn parse(s: &str) -> (r: Option<Role>)
        ensures
            r == role_named(trim(s@)),
    {
        let t = trim_str(s);
        if same_text(t, Role::Operator.as_str()) {
            Some(Role::Operator)
        } else if same_text(t, Role::Approver.as_str()) {
            Some(Role::Approver)
        } else if same_text(t, Role::Admin.as_str()) {
            Some(Role::Admin)
        } else {
            None
        }
    }

    /// The name of this role.
    pub fn as_str(self) -> (r: &'static str)
        ensures
            r@ == role_text(self),
    {
        match self {
            Role::Operator => {
                proof { reveal_strlit("operator"); }
                assert("operator"@ =~= role_text(self));
                "operator"
            },
            Role::Approver => {
                proof { reveal_strlit("approver"); }
                assert("approver"@ =~= role_text(self));
                "approver"
            },
            Role::Admin => {
                proof { reveal_strlit("admin"); }
                assert("admin"@ =~= role_text(self));
                "admin"
            },
        }
    }
}

/// Which steps a role may take, as the roles are described: an operator submits
/// and activates, an approver approves, rejects and revokes, and an admin may take
/// any step (expiring is described for no other role).
pub open spec fn role_permits(role: Role, action: Action) -> bool {
    match role {
        Role::Admin => true,
        Role::Operator => action == Action::Submit || action == Action::Activate,
        Role::Approver => action == Action::Approve || action == Action::Reject || action
            == Action::Revoke,
    }
}

impl Role {
    /// Whether this role may take step `action`.
    pub fn may_take(self, action: Action) -> (r: bool)
        ensures
            r == role_permits(self, action),
    {
        match self {
            Role::Admin => true,
            Role::Operator => action == Action::Submit || action == Action::Activate,
            Role::Approver => action == Action::Approve || action == Action::Reject || action
                == Action::Revoke,
        }
    }

    /// Whether this role may request a new window: operators and admins.
    pub fn may_request(self) -> (r: bool)
        ensures
            r == (self == Role::Operator || self == Role::Admin),
    {
        self == Role::Operator || self == Role::Admin
    }
}

/// Each role's name parses back to it.
pub proof fn role_names_round_trip(r: Role)
    ensures
        role_named(role_text(r)) == Some(r),
{
    let t = role_text(r);
    match r {
        Role::Operator => {},
        Role::Approver => {
            assert(t[0] != 'o');
        },
        Role::Admin => {
            assert(t[0] != 'o');
            assert(t.len() != 8);
        },
    }
}

/// An authenticated caller resolved from an API token.
pub struct Principal {
    pub username: String,
    pub role: Role,
}

impl View for Principal {
    type V = (Seq<char>, Role);

    open spec fn view(&self) -> (Seq<char>, Role) {
        (self.username@, self.role)
    }
}

impl Principal {
    /// An equal copy of the principal.
    pub fn duplicate(&self) -> (r: Principal)
        ensures
            r@ == self@,
    {
        Principal { username: self.username.clone(), role: self.role }
    }
}

/// One credential: a token and the principal it identifies.
pub struct TokenEntry {
    pub token: String,
    pub principal: Principal,
}

/// The map from tokens to principals that a list of credentials gives, later
/// entries replacing earlier ones for the same token.
pub open spec fn credentials_map(s: Seq<TokenEntry>) -> Map<Seq<char>, (Seq<char>, Role)>
    decreases s.len(),
{
    if s.len() == 0 {
        Map::empty()
    } else {
        credentials_map(s.drop_last()).insert(s.last().token@, s.last().principal@)
    }
}

/// No two credentials share a token.
pub open spec fn distinct_tokens(s: Seq<TokenEntry>) -> bool {
    forall|i: int, j: int| 0 <= i < j < s.len() ==> s[i].token@ != s[j].token@
}

proof fn lemma_credentials_map(s: Seq<TokenEntry>)
    requires
        distinct_tokens(s),
    ensures
        forall|i: int|
            0 <= i < s.len() ==> #[trigger] credentials_map(s).contains_key(s[i].token@)
                && credentials_map(s)[s[i].token@] == s[i].principal@,
        forall|k: Seq<char>|
            credentials_map(s).contains_key(k) ==> exists|i: int|
                0 <= i < s.len() && #[trigger] s[i].token@ == k,
    decreases s.len(),
{
    if s.len() > 0 {
        let p = s.drop_last();
        assert(distinct_tokens(p)) by {
            assert forall|i: int, j: int| 0 <= i < j < p.len() implies p[i].token@
                != p[j].token@ by {
                assert(p[i] == s[i] && p[j] == s[j]);
            }
        }
        lemma_credentials_map(p);
        let last = s.last();
        assert(credentials_map(s) == credentials_map(p).insert(last.token@, last.principal@));
        assert forall|i: int| 0 <= i < s.len() implies #[trigger] credentials_map(
            s,
        ).contains_key(s[i].token@) && credentials_map(s)[s[i].token@] == s[i].principal@ by {
            if i < s.len() - 1 {
                assert(p[i] == s[i]);
                assert(credentials_map(p).contains_key(p[i].token@));
                assert(s[i].token@ != last.token@);
            }
        }
        assert forall|k: Seq<char>| credentials_map(s).contains_key(k) implies exists|i: int|
            0 <= i < s.len() && #[trigger] s[i].token@ == k by {
            if k != last.token@ {
                assert(credentials_map(p).contains_key(k));
                let i = choose|i: int| 0 <= i < p.len() && #[trigger] p[i].token@ == k;
                assert(s[i] == p[i]);
            } else {
                assert(s[s.len() - 1].token@ == k);
            }
        }
    }
}

/// The registry of credentials: which principal each token identifies.
pub struct TokenRegistry {
    entries: Vec<TokenEntry>,
}

impl View for TokenRegistry {
    type V = Map<Seq<char>, (Seq<char>, Role)>;

    closed spec fn view(&self) -> Map<Seq<char>, (Seq<char>, Role)> {
        credentials_map(self.entries@)
    }
}

impl TokenRegistry {
    #[verifier::type_invariant]
    spec fn tokens_distinct(self) -> bool {
        distinct_tokens(self.entries@)
    }

    /// The empty registry.
    pub fn new() -> (r: TokenRegistry)
        ensures
            r@ == Map::<Seq<char>, (Seq<char>, Role)>::empty(),
    {
        TokenRegistry { entries: Vec::new() }
    }

    /// Whether the registry holds no credential.
    pub fn is_empty(&self) -> (r: bool)
        ensures
            r == (self@ == Map::<Seq<char>, (Seq<char>, Role)>::empty()),
    {
        proof {
            use_type_invariant(self);
            lemma_credentials_map(self.entries@);
        }
        if self.entries.len() == 0 {
            assert(self@ =~= Map::<Seq<char>, (Seq<char>, Role)>::empty());
            true
        } else {
            assert(self@.contains_key(self.entries@[0].token@));
            false
        }
    }

    /// Makes `token` identify `principal`, replacing what it identified before.
    pub fn insert(&mut self, token: String, principal: Principal)
        ensures
            final(self)@ == old(self)@.insert(token@, principal@),
    {
        proof {
            use_type_invariant(&*self);
        }
        let n: usize = self.entries.len();
        let mut i: usize = 0;
        while i < n
            invariant
                n == self.entries@.len(),
                i <= n,
                self.entries@ == old(self).entries@,
                distinct_tokens(self.entries@),
                forall|k: int| 0 <= k < i ==> self.entries@[k].token@ != token@,
            decreases n - i,
        {
            if same_text(self.entries[i].token.as_str(), token.as_str()) {
                let ghost before = self.entries@;
                proof {
                    lemma_credentials_map(before);
                }
                let entry = TokenEntry { token, principal };
                let mut entries = Vec::new();
                std::mem::swap(&mut entries, &mut self.entries);
                entries.set(i, entry);
                proof {
                    assert(distinct_tokens(entries@)) by {
                        assert forall|a: int, b: int| 0 <= a < b < entries@.len() implies entries@[
                            a].token@ != entries@[b].token@ by {
                            if a == i {
                                assert(entries@[b] == before[b]);
                            } else if b == i {
                                assert(entries@[a] == before[a]);
                            } else {
                                assert(entries@[a] == before[a] && entries@[b] == before[b]);
                            }
                        }
                    }
                    lemma_credentials_map(entries@);
                    let m = credentials_map(entries@);
                    let m0 = credentials_map(before).insert(token@, principal@);
                    assert forall|k: Seq<char>| m.contains_key(k) <==> m0.contains_key(k) by {
                        if m.contains_key(k) {
                            let j = choose|j: int| 0 <= j < entries@.len() && #[trigger] entries@[
                                j].token@ == k;
                            if j != i {
                                assert(entries@[j] == before[j]);
                            }
                        }
                        if m0.contains_key(k) && k != token@ {
                            let j = choose|j: int| 0 <= j < before.len() && #[trigger] before[
                                j].token@ == k;
                            assert(entries@[j] == before[j]);
                        }
                    }
                    assert forall|k: Seq<char>| m.contains_key(k) implies m[k] == m0[k] by {
                        let j = choose|j: int| 0 <= j < entries@.len() && #[trigger] entries@[
                            j].token@ == k;
                        if j != i {
                            assert(entries@[j] == before[j]);
                        }
                    }
                    assert(m =~= m0);
                }
                self.entries = entries;
                return ;
            }
            i = i + 1;
        }
        let ghost before = self.entries@;
        let mut entries = Vec::new();
        std::mem::swap(&mut entries, &mut self.entries);
        entries.push(TokenEntry { token, principal });
        proof {
            assert(entries@.drop_last() =~= before);
            assert(credentials_map(entries@) == credentials_map(before).insert(token@, principal@));
            assert(distinct_tokens(entries@)) by {
                assert forall|a: int, b: int| 0 <= a < b < entries@.len() implies entries@[
                    a].token@ != entries@[b].token@ by {
                    if b < n {
                        assert(entries@[a] == before[a] && entries@[b] == before[b]);
                    } else {
                        assert(entries@[a] == before[a]);
                    }
                }
            }
        }
        self.entries = entries;
    }

    /// The principal that `token` identifies, if any.
    pub fn get(&self, token: &str) -> (r: Option<Principal>)
        ensures
            match r {
                Some(p) => self@.contains_key(token@) && self@[token@] == p@,
                None => !self@.contains_key(token@),
            },
    {
        proof {
            use_type_invariant(self);
            lemma_credentials_map(self.entries@);
        }
        let n: usize = self.entries.len();
        let mut i: usize = 0;
        while i < n
            invariant
                n == self.entries@.len(),
                i <= n,
                distinct_tokens(self.entries@),
                forall|k: int| 0 <= k < i ==> self.entries@[k].token@ != token@,
            decreases n - i,
        {
            if same_text(self.entries[i].token.as_str(), token) {
                proof {
                    lemma_credentials_map(self.entries@);
                }
                assert(credentials_map(self.entries@).contains_key(self.entries@[i as int].token@));
                return Some(self.entries[i].principal.duplicate());
            }
            i = i + 1;
        }
        None
    }
}


/// What one comma-separated piece of the credential list contributes.
pub enum CredentialOutcome {
    /// A blank piece, which is skipped.
    Skip,
    /// A piece that is not a valid credential, with the message that says so.
    Fail(Seq<char>),
    /// A credential: token, username and role.
    Grant(Seq<char>, Seq<char>, Role),
}

/// How the pieces of the credential list are numbered in messages.
pub open spec fn entry_label(n: nat) -> Seq<char> {
    "token entry #"@ + decimal(n)
}

/// What the `n`-th piece (counting from one) of a credential list contributes:
/// `token:username:role`, each part trimmed, with a known role and a token and
/// username that are not blank.
pub open spec fn credential_outcome(piece: Seq<char>, n: nat) -> CredentialOutcome {
    let e = trim(piece);
    if e.len() == 0 {
        CredentialOutcome::Skip
    } else {
        let parts = split_text(e, ':');
        if parts.len() != 3 {
            CredentialOutcome::Fail(
                entry_label(n) + " malformed; expected 'token:username:role'"@,
            )
        } else if role_named(trim(parts[2])) is None {
            CredentialOutcome::Fail(entry_label(n) + " has unknown role '"@ + parts[2] + "'"@)
        } else if trim(parts[0]).len() == 0 || trim(parts[1]).len() == 0 {
            CredentialOutcome::Fail(entry_label(n) + " has empty token or username"@)
        } else {
            CredentialOutcome::Grant(
                trim(parts[0]),
                trim(parts[1]),
                role_named(trim(parts[2])).unwrap(),
            )
        }
    }
}

/// The credentials that the first `i` pieces give, or the message of the first
/// piece among them that is not valid.
pub open spec fn credentials_read(pieces: Seq<Seq<char>>, i: nat) -> Result<
    Map<Seq<char>, (Seq<char>, Role)>,
    Seq<char>,
>
    decreases i,
{
    if i == 0 {
        Ok(Map::empty())
    } else {
        match credentials_read(pieces, (i - 1) as nat) {
            Err(m) => Err(m),
            Ok(m) => match credential_outcome(pieces[i - 1], i) {
                CredentialOutcome::Skip => Ok(m),
                CredentialOutcome::Fail(msg) => Err(msg),
                CredentialOutcome::Grant(t, u, r) => Ok(m.insert(t, (u, r))),
            },
        }
    }
}

/// The registry that the comma-separated credential list `raw` describes, or the
/// message of why it is refused. A list without any credential is refused, so
/// that the service never runs without credentials.
pub open spec fn registry_read(raw: Seq<char>) -> Result<Map<Seq<char>, (Seq<char>, Role)>, Seq<char>> {
    let pieces = split_text(raw, ',');
    match credentials_read(pieces, pieces.len()) {
        Err(m) => Err(m),
        Ok(m) => if m == Map::<Seq<char>, (Seq<char>, Role)>::empty() {
            Err("ACCESS_WINDOW_TOKENS did not contain any valid credentials"@)
        } else {
            Ok(m)
        },
    }
}

proof fn lemma_read_failure_sticks(pieces: Seq<Seq<char>>, i: nat, j: nat, msg: Seq<char>)
    requires
        i <= j,
        credentials_read(pieces, i) == Err::<Map<Seq<char>, (Seq<char>, Role)>, Seq<char>>(msg),
    ensures
        credentials_read(pieces, j) == Err::<Map<Seq<char>, (Seq<char>, Role)>, Seq<char>>(msg),
    decreases j - i,
{
    if i < j {
        lemma_read_failure_sticks(pieces, i, (j - 1) as nat, msg);
    }
}

fn entry_message(n: u64, tail: &str) -> (r: String)
    ensures
        r@ == entry_label(n as nat) + tail@,
{
    let mut s = "token entry #".to_owned();
    let d = decimal_string(n);
    s.append(d.as_str());
    s.append(tail);
    s
}

/// Reads the credential list: comma-separated `token:username:role` triples,
/// e.g. `s3cr3t-alice:alice:approver,s3cr3t-bob:bob:operator`. Blank pieces are
/// skipped; the first piece that is not a valid credential refuses the whole
/// list, as does a list without any credential.
pub fn parse_token_registry(raw: &str) -> (r: Result<TokenRegistry, String>)
    ensures
        match registry_read(raw@) {
            Ok(m) => r matches Ok(reg) && reg@ == m,
            Err(msg) => r matches Err(e) && e@ == msg,
        },
{
    let pieces = split_str(raw, ',');
    let ghost pv = split_text(raw@, ',');
    let mut reg = TokenRegistry::new();
    let n: usize = pieces.len();
    let mut idx: usize = 0;
    while idx < n
        invariant
            views_of(pieces@) == pv,
            pv == split_text(raw@, ','),
            n == pieces@.len(),
            idx <= n,
            credentials_read(pv, idx as nat) == Ok::<
                Map<Seq<char>, (Seq<char>, Role)>,
                Seq<char>,
            >(reg@),
        decreases n - idx,
    {
        let number: u64 = (idx + 1) as u64;
        let piece: &str = pieces[idx];
        assert(pv[idx as int] == piece@);
        let entry = trim_str(piece);
        if entry.unicode_len() == 0 {
            idx = idx + 1;
            continue ;
        }
        let parts = split_str(entry, ':');
        let ghost ps = split_text(trim(piece@), ':');
        assert(views_of(parts@) == ps);
        if parts.len() != 3 {
            let msg = entry_message(number, " malformed; expected 'token:username:role'");
            proof {
                lemma_read_failure_sticks(pv, (idx + 1) as nat, n as nat, msg@);
            }
            return Err(msg);
        }
        assert(ps[0] == parts@[0]@ && ps[1] == parts@[1]@ && ps[2] == parts@[2]@);
        let role = Role::parse(parts[2]);
        match role {
            None => {
                let mut msg = entry_message(number, " has unknown role '");
                msg.append(parts[2]);
                msg.append("'");
                proof {
                    lemma_read_failure_sticks(pv, (idx + 1) as nat, n as nat, msg@);
                }
                return Err(msg);
            },
            Some(role) => {
                let token = trim_str(parts[0]);
                let username = trim_str(parts[1]);
                if token.unicode_len() == 0 || username.unicode_len() == 0 {
                    let msg = entry_message(number, " has empty token or username");
                    proof {
                        lemma_read_failure_sticks(pv, (idx + 1) as nat, n as nat, msg@);
                    }
                    return Err(msg);
                }
                reg.insert(token.to_owned(), Principal { username: username.to_owned(), role });
            },
        }
        idx = idx + 1;
    }
    if reg.is_empty() {
        return Err("ACCESS_WINDOW_TOKENS did not contain any valid credentials".to_owned());
    }
    Ok(reg)
}

/// The view of an optional header value.
pub open spec fn header_view(h: Option<&str>) -> Option<Seq<char>> {
    match h {
        Some(v) => Some(v@),
        None => None,
    }
}

/// The token of an `Authorization: Bearer <token>` header (prefix `Bearer ` or
/// `bearer `), trimmed, unless it is blank.
pub open spec fn bearer_token(authorization: Option<Seq<char>>) -> Option<Seq<char>> {
    match authorization {
        Some(v) => {
            let rest = match without_prefix(v, "Bearer "@) {
                Some(x) => Some(x),
                None => without_prefix(v, "bearer "@),
            };
            match rest {
                Some(x) => if trim(x).len() > 0 {
                    Some(trim(x))
                } else {
                    None
                },
                None => None,
            }
        },
        None => None,
    }
}

/// The token a request presents: the bearer token of its `Authorization` header,
/// else its `X-Api-Key` header trimmed, unless that is blank.
pub open spec fn presented_token(authorization: Option<Seq<char>>, api_key: Option<Seq<char>>) -> Option<
    Seq<char>,
> {
    match bearer_token(authorization) {
        Some(t) => Some(t),
        None => match api_key {
            Some(v) => if trim(v).len() > 0 {
                Some(trim(v))
            } else {
                None
            },
            None => None,
        },
    }
}

/// The token presented by the `Authorization` and `X-Api-Key` header values of a
/// request (each absent when the header is missing or not visible ASCII).
pub fn token_from_headers(authorization: Option<&str>, api_key: Option<&str>) -> (r: Option<String>)
    ensures
        match r {
            Some(t) => presented_token(header_view(authorization), header_view(api_key)) == Some(
                t@,
            ),
            None => presented_token(header_view(authorization), header_view(api_key)) is None,
        },
{
    if let Some(v) = authorization {
        let rest = match strip_prefix(v, "Bearer ") {
            Some(x) => Some(x),
            None => strip_prefix(v, "bearer "),
        };
        if let Some(rest) = rest {
            let t = trim_str(rest);
            if t.unicode_len() > 0 {
                return Some(t.to_owned());
            }
        }
    }
    if let Some(v) = api_key {
        let t = trim_str(v);
        if t.unicode_len() > 0 {
            return Some(t.to_owned());
        }
    }
    None
}

/// Resolves the caller from the `Authorization` and `X-Api-Key` header values:
/// refused when no token is presented or the token is unknown. The identity is
/// never taken from a request body.
pub fn authenticate(authorization: Option<&str>, api_key: Option<&str>, registry: &TokenRegistry)
    -> (r: Result<Principal, ApiError>)
    ensures
        match presented_token(header_view(authorization), header_view(api_key)) {
            None => refused(
                r,
                401,
                "missing credentials; provide 'Authorization: Bearer <token>' or 'X-Api-Key'"@,
            ),
            Some(t) => if registry@.contains_key(t) {
                r matches Ok(p) && p@ == registry@[t]
            } else {
                refused(r, 401, "invalid token"@)
            },
        },
{
    match token_from_headers(authorization, api_key) {
        None => Err(
            refusal(
                401,
                "missing credentials; provide 'Authorization: Bearer <token>' or 'X-Api-Key'",
            ),
        ),
        Some(token) => match registry.get(token.as_str()) {
            Some(p) => Ok(p),
            None => Err(refusal(401, "invalid token")),
        },
    }
}

/// The names of `roles`, separated by `, `.
pub open spec fn role_list(roles: Seq<Role>) -> Seq<char>
    decreases roles.len(),
{
    if roles.len() == 0 {
        Seq::empty()
    } else if roles.len() == 1 {
        role_text(roles[0])
    } else {
        role_list(roles.drop_last()) + ", "@ + role_text(roles.last())
    }
}

/// Allows a principal holding one of `allowed` roles; an admin is always allowed.
pub fn require_role(principal: &Principal, allowed: &[Role]) -> (r: Result<(), ApiError>)
    ensures
        principal.role == Role::Admin || allowed@.contains(principal.role) ==> r is Ok,
        !(principal.role == Role::Admin || allowed@.contains(principal.role)) ==> refused(
            r,
            403,
            "role '"@ + role_text(principal.role) + "' is not permitted; requires one of: "@
                + role_list(allowed@),
        ),
{
    if principal.role == Role::Admin {
        return Ok(());
    }
    let n: usize = allowed.len();
    let mut i: usize = 0;
    while i < n
        invariant
            n == allowed@.len(),
            i <= n,
            forall|k: int| 0 <= k < i ==> allowed@[k] != principal.role,
        decreases n - i,
    {
        if allowed[i] == principal.role {
            return Ok(());
        }
        i = i + 1;
    }
    let mut names = String::new();
    let mut j: usize = 0;
    while j < n
        invariant
            n == allowed@.len(),
            j <= n,
            names@ == role_list(allowed@.take(j as int)),
        decreases n - j,
    {
        proof {
            assert(allowed@.take(j + 1).drop_last() =~= allowed@.take(j as int));
        }
        if j > 0 {
            names.append(", ");
        } else {
            assert(names@ =~= Seq::<char>::empty());
        }
        names.append(allowed[j].as_str());
        j = j + 1;
    }
    assert(allowed@.take(n as int) =~= allowed@);
    let mut msg = "role '".to_owned();
    msg.append(principal.role.as_str());
    msg.append("' is not permitted; requires one of: ");
    msg.append(names.as_str());
    Err(ApiError { status: 403, message: msg })
}

} // verus!
