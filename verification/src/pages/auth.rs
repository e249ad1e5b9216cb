//! The login page, `/login?to=`.
use vstd::prelude::*;
use vstd::string::StringExecFns;

verus! {

/// Where the login page sends the user once signed in: the page it was
/// opened for, or the home page.
pub fn login_redirect(to: Option<String>) -> (r: String)
    ensures
        to is Some ==> r == to->0,
        to is None ==> r@ == "/"@,
{
    match to {
        Some(t) => t,
        None => String::from_str("/"),
    }
}

/// The host the login form signs in at: the one typed, or `bsky.social`
/// where the form has no such field.
pub fn login_host(host: Option<String>) -> (r: String)
    ensures
        host is Some ==> r == host->0,
        host is None ==> r@ == "bsky.social"@,
{
    match host {
        Some(h) => h,
        None => String::from_str("bsky.social"),
    }
}

} // verus!
