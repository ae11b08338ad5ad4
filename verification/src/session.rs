//! The rule that sends a visitor who is not signed in back to the login page.
use vstd::prelude::*;
use vstd::string::*;
use crate::http::{header, pairs_view};

verus! {

/// The key under which the session remembers whether the user is signed in.
pub open spec fn authenticated_key() -> Seq<char> {
    "isAuthenticated"@
}

/// The session-storage key of the signed-in flag, for reading it.
pub fn session_flag_key() -> (r: &'static str)
    ensures
        r@ == authenticated_key(),
{
    "isAuthenticated"
}

/// What the page is to do with the session and the browser history.
#[derive(Debug)]
pub struct AuthCheckPlan {
    /// session-storage entries to write, in order, as (key, value)
    pub storage_writes: Vec<(String, String)>,
    /// the route to go to, if any
    pub redirect_to: Option<String>,
}

/// The session counts as signed in only when its flag is exactly `true`.
pub open spec fn signed_in(is_authenticated: Option<String>) -> bool {
    is_authenticated matches Some(v) && v@ == "true"@
}

/// Decides the authentication check of a page at `current_route`, given the
/// session's `isAuthenticated` entry (`None` when absent or unreadable): the
/// requested route is always remembered; a session that is not signed in is
/// marked signed out and sent to `/`.
pub fn authentication_plan(current_route: &str, is_authenticated: Option<String>) -> (r: AuthCheckPlan)
    ensures
        signed_in(is_authenticated) ==> pairs_view(r.storage_writes@) == seq![("requested_route"@, current_route@)],
        signed_in(is_authenticated) ==> r.redirect_to is None,
        !signed_in(is_authenticated) ==> pairs_view(r.storage_writes@)
            == seq![("requested_route"@, current_route@), (authenticated_key(), "false"@)],
        !signed_in(is_authenticated) ==> (r.redirect_to matches Some(route) && route@ == "/"@),
{
    let mut writes: Vec<(String, String)> = Vec::new();
    writes.push(header("requested_route", current_route));
    let flag_true = String::from_str("true");
    let is_signed_in = match is_authenticated {
        Some(v) => v == flag_true,
        None => false,
    };
    if is_signed_in {
        assert(pairs_view(writes@) =~= seq![("requested_route"@, current_route@)]);
        AuthCheckPlan { storage_writes: writes, redirect_to: None }
    } else {
        writes.push(header("isAuthenticated", "false"));
        assert(pairs_view(writes@) =~= seq![("requested_route"@, current_route@), (authenticated_key(), "false"@)]);
        AuthCheckPlan { storage_writes: writes, redirect_to: Some(String::from_str("/")) }
    }
}

} // verus!
