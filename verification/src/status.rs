//! The lifecycle states of applications and of access windows, and their
//! lower-case names as they are stored and shown.

use vstd::prelude::*;

use crate::text::same_text;

verus! {

/// Lifecycle state of an application.
#[derive(Debug, Clone, Copy, PartialEq, Eq, Structural)]
pub enum AppStatus {
    Draft,
    Submitted,
    Approved,
    Active,
    Expired,
    Revoked,
    Rejected,
}

/// Lifecycle state of an access window.
#[derive(Debug, Clone, Copy, PartialEq, Eq, Structural)]
pub enum WindowStatus {
    Approved,
    Active,
    Expired,
    Revoked,
}

/// The stored name of an application state.
pub open spec fn app_status_text(s: AppStatus) -> Seq<char> {
    match s {
        AppStatus::Draft => seq!['d', 'r', 'a', 'f', 't'],
        AppStatus::Submitted => seq!['s', 'u', 'b', 'm', 'i', 't', 't', 'e', 'd'],
        AppStatus::Approved => seq!['a', 'p', 'p', 'r', 'o', 'v', 'e', 'd'],
        AppStatus::Active => seq!['a', 'c', 't', 'i', 'v', 'e'],
        AppStatus::Expired => seq!['e', 'x', 'p', 'i', 'r', 'e', 'd'],
        AppStatus::Revoked => seq!['r', 'e', 'v', 'o', 'k', 'e', 'd'],
        AppStatus::Rejected => seq!['r', 'e', 'j', 'e', 'c', 't', 'e', 'd'],
    }
}

/// The application state a stored name denotes, if any.
pub open spec fn app_status_named(t: Seq<char>) -> Option<AppStatus> {
    if t == app_status_text(AppStatus::Draft) {
        Some(AppStatus::Draft)
    } else if t == app_status_text(AppStatus::Submitted) {
        Some(AppStatus::Submitted)
    } else if t == app_status_text(AppStatus::Approved) {
        Some(AppStatus::Approved)
    } else if t == app_status_text(AppStatus::Active) {
        Some(AppStatus::Active)
    } else if t == app_status_text(AppStatus::Expired) {
        Some(AppStatus::Expired)
    } else if t == app_status_text(AppStatus::Revoked) {
        Some(AppStatus::Revoked)
    } else if t == app_status_text(AppStatus::Rejected) {
        Some(AppStatus::Rejected)
    } else {
        None
    }
}

/// The stored name of a window state.
pub open spec fn window_status_text(s: WindowStatus) -> Seq<char> {
    match s {
        WindowStatus::Approved => app_status_text(AppStatus::Approved),
        WindowStatus::Active => app_status_text(AppStatus::Active),
        WindowStatus::Expired => app_status_text(AppStatus::Expired),
        WindowStatus::Revoked => app_status_text(AppStatus::Revoked),
    }
}

/// The window state that accompanies an application state, for the states in
/// which an application holds a window.
pub open spec fn window_status_for(s: AppStatus) -> Option<WindowStatus> {
    match s {
        AppStatus::Approved => Some(WindowStatus::Approved),
        AppStatus::Active => Some(WindowStatus::Active),
        AppStatus::Expired => Some(WindowStatus::Expired),
        AppStatus::Revoked => Some(WindowStatus::Revoked),
        _ => None,
    }
}

impl AppStatus {
    /// The stored name of this state.
    pub fn as_str(self) -> (r: &'static str)
        ensures
            r@ == app_status_text(self),
    {
        match self {
            AppStatus::Draft => {
                proof { reveal_strlit("draft"); }
                assert("draft"@ =~= app_status_text(self));
                "draft"
            },
            AppStatus::Submitted => {
                proof { reveal_strlit("submitted"); }
                assert("submitted"@ =~= app_status_text(self));
                "submitted"
            },
            AppStatus::Approved => {
                proof { reveal_strlit("approved"); }
                assert("approved"@ =~= app_status_text(self));
                "approved"
            },
            AppStatus::Active => {
                proof { reveal_strlit("active"); }
                assert("active"@ =~= app_status_text(self));
                "active"
            },
            AppStatus::Expired => {
                proof { reveal_strlit("expired"); }
                assert("expired"@ =~= app_status_text(self));
                "expired"
            },
            AppStatus::Revoked => {
                proof { reveal_strlit("revoked"); }
                assert("revoked"@ =~= app_status_text(self));
                "revoked"
            },
            AppStatus::Rejected => {
                proof { reveal_strlit("rejected"); }
                assert("rejected"@ =~= app_status_text(self));
                "rejected"
            },
        }
    }

    /// The state a stored name denotes; `None` for any other text.
    pub fn parse(s: &str) -> (r: Option<Self>)
        ensures
            r == app_status_named(s@),
    {
        if same_text(s, AppStatus::Draft.as_str()) {
            Some(AppStatus::Draft)
        } else if same_text(s, AppStatus::Submitted.as_str()) {
            Some(AppStatus::Submitted)
        } else if same_text(s, AppStatus::Approved.as_str()) {
            Some(AppStatus::Approved)
        } else if same_text(s, AppStatus::Active.as_str()) {
            Some(AppStatus::Active)
        } else if same_text(s, AppStatus::Expired.as_str()) {
            Some(AppStatus::Expired)
        } else if same_text(s, AppStatus::Revoked.as_str()) {
            Some(AppStatus::Revoked)
        } else if same_text(s, AppStatus::Rejected.as_str()) {
            Some(AppStatus::Rejected)
        } else {
            None
        }
    }
}

impl WindowStatus {
    /// The stored name of this state.
    pub fn as_str(self) -> (r: &'static str)
        ensures
            r@ == window_status_text(self),
    {
        match self {
            WindowStatus::Approved => AppStatus::Approved.as_str(),
            WindowStatus::Active => AppStatus::Active.as_str(),
            WindowStatus::Expired => AppStatus::Expired.as_str(),
            WindowStatus::Revoked => AppStatus::Revoked.as_str(),
        }
    }
}

/// Each application state is named by a text that parses back to it, and no two
/// states share a name.
pub proof fn app_status_names_round_trip(s: AppStatus)
    ensures
        app_status_named(app_status_text(s)) == Some(s),
{
    let t = app_status_text(s);
    match s {
        AppStatus::Draft => {},
        AppStatus::Submitted => {
            assert(t[0] != 'd');
        },
        AppStatus::Approved => {
            assert(t[0] != 'd');
            assert(t.len() != 9);
        },
        AppStatus::Active => {
            assert(t[0] != 'd');
            assert(t.len() != 9);
            assert(t[1] != 'p');
        },
        AppStatus::Expired => {
            assert(t[0] != 'd');
            assert(t.len() != 9);
            assert(t[0] != 'a');
        },
        AppStatus::Revoked => {
            assert(t[0] != 'd');
            assert(t.len() != 9);
            assert(t[0] != 'a');
            assert(t[0] != 'e');
        },
        AppStatus::Rejected => {
            assert(t[0] != 'd');
            assert(t.len() != 9);
            assert(t[0] != 'a');
            assert(t[0] != 'e');
            assert(t[2] != 'v');
        },
    }
}

/// A window in a given state carries the same stored name as the application
/// state it accompanies.
pub proof fn window_names_follow_application_names(s: AppStatus)
    ensures
        window_status_for(s) matches Some(w) ==> window_status_text(w) == app_status_text(s),
{
}

} // verus!
