//! The XRPC addresses of the session calls at the signed-in user's host.
use vstd::prelude::*;
use vstd::string::StringExecFns;

use crate::resources::auth::{auth_is_null, AuthData};
use crate::text::str_eq;

verus! {

/// The method names of the XRPC calls the site makes at the user's host.
pub struct BaseUrl {
    pub session_refresh: String,
    pub session_get: String,
}

impl BaseUrl {
    /// The atproto names of the session calls.
    pub fn default() -> (r: BaseUrl)
        ensures
            r.session_refresh@ == "com.atproto.server.refreshSession"@,
            r.session_get@ == "com.atproto.server.getSession"@,
    {
        BaseUrl {
            session_refresh: String::from_str("com.atproto.server.refreshSession"),
            session_get: String::from_str("com.atproto.server.getSession"),
        }
    }
}

/// The address of the call named `ty` at the host of `auth`; empty where no
/// one is signed in or the name is unknown.
pub open spec fn url_of(auth: AuthData, ty: Seq<char>) -> Seq<char> {
    let t = "https://"@ + auth.host@ + "/xrpc/"@;
    if auth_is_null(auth) {
        Seq::<char>::empty()
    } else if ty == "session_refresh"@ {
        t + "com.atproto.server.refreshSession"@
    } else if ty == "session_get"@ {
        t + "com.atproto.server.getSession"@
    } else {
        Seq::<char>::empty()
    }
}

/// The address of the session call `ty` for the stored credentials `auth`.
pub fn get_url(auth: &AuthData, ty: &str) -> (r: String)
    ensures
        r@ == url_of(*auth, ty@),
{
    if auth.is_null() {
        return String::new();
    }
    let mut t = String::from_str("https://");
    t.append(auth.host.as_str());
    t.append("/xrpc/");
    let baseurl = BaseUrl::default();
    if str_eq(ty, "session_refresh") {
        t.append(baseurl.session_refresh.as_str());
        t
    } else if str_eq(ty, "session_get") {
        t.append(baseurl.session_get.as_str());
        t
    } else {
        String::new()
    }
}

} // verus!
