//! Sessions: the stored credentials, the identity lookups and the refresh of
//! an expired session.
use vstd::prelude::*;
use vstd::string::StringExecFns;

use crate::text::{blank, is_blank, str_eq};

verus! {

/// The reply of `createSession` and `refreshSession`.
#[allow(non_snake_case)]
pub struct AuthToken {
    pub did: String,
    pub handle: String,
    pub accessJwt: String,
    pub refreshJwt: String,
}

/// The credentials the site keeps for the signed-in user.
pub struct AuthData {
    pub host: String,
    pub did: String,
    pub handle: String,
    pub access: String,
    pub refresh: String,
    pub service: String,
}

/// Some credential is missing.
pub open spec fn auth_is_null(a: AuthData) -> bool {
    ||| a.did@.len() == 0
    ||| a.handle@.len() == 0
    ||| a.access@.len() == 0
    ||| a.refresh@.len() == 0
    ||| a.host@.len() == 0
    ||| a.service@.len() == 0
}

impl AuthData {
    /// No one is signed in: some credential is empty.
    pub fn is_null(&self) -> (r: bool)
        ensures
            r == auth_is_null(*self),
    {
        self.did.as_str().is_empty() || self.handle.as_str().is_empty()
            || self.access.as_str().is_empty() || self.refresh.as_str().is_empty()
            || self.host.as_str().is_empty() || self.service.as_str().is_empty()
    }

    /// The credentials of a session opened at `host`, from the session's reply
    /// and the service endpoint of the user's did.
    pub fn new(host: &str, token: AuthToken, service: String) -> (r: AuthData)
        ensures
            r.host@ == host@,
            r.did == token.did,
            r.handle == token.handle,
            r.access == token.accessJwt,
            r.refresh == token.refreshJwt,
            r.service == service,
    {
        AuthData {
            host: String::from_str(host),
            did: token.did,
            handle: token.handle,
            access: token.accessJwt,
            refresh: token.refreshJwt,
            service,
        }
    }

    /// An empty set of credentials: no one is signed in.
    pub fn empty() -> (r: AuthData)
        ensures
            r.host@.len() == 0,
            r.did@.len() == 0,
            r.handle@.len() == 0,
            r.access@.len() == 0,
            r.refresh@.len() == 0,
            r.service@.len() == 0,
            auth_is_null(r),
    {
        AuthData {
            host: String::new(),
            did: String::new(),
            handle: String::new(),
            access: String::new(),
            refresh: String::new(),
            service: String::new(),
        }
    }
}

/// The address of `createSession` at a host.
pub fn login_url(host: &str) -> (r: String)
    ensures
        r@ == "https://"@ + host@ + "/xrpc/com.atproto.server.createSession"@,
{
    let mut r = String::from_str("https://");
    r.append(host);
    r.append("/xrpc/com.atproto.server.createSession");
    r
}

/// The reply the session calls give in place of a body when they fail.
pub const ERR_REPLY: &'static str = "err";

/// An address that a session call can use: one that is not blank.
pub fn usable_url(url: &str) -> (r: bool)
    ensures
        r == !blank(url@),
{
    !is_blank(url)
}

/// What a session call hands back: the body of a successful reply, or
/// `"err"` where the request failed, the status was an error, or the body
/// could not be read.
pub fn session_reply(sent: bool, status_ok: bool, body: Option<String>) -> (r: String)
    ensures
        (sent && status_ok && body is Some) ==> r == body.unwrap(),
        !(sent && status_ok && body is Some) ==> r@ == ERR_REPLY@,
{
    if sent && status_ok {
        match body {
            Some(b) => b,
            None => String::from_str(ERR_REPLY),
        }
    } else {
        String::from_str(ERR_REPLY)
    }
}

/// A reply of the session calls that stands for a failure.
pub fn is_err_reply(reply: &str) -> (r: bool)
    ensures
        r == (reply@ == ERR_REPLY@),
{
    str_eq(reply, ERR_REPLY)
}

/// The address of the login page that comes back to `to`.
pub open spec fn login_page_of(to: Seq<char>) -> Seq<char> {
    "/login?to="@ + to
}

/// The login page that brings the user back to `to`.
pub fn login_page(to: &str) -> (r: String)
    ensures
        r@ == login_page_of(to@),
{
    let mut r = String::from_str("/login?to=");
    r.append(to);
    r
}

/// What the refresh of a session has learnt so far.
pub enum RefreshEvent {
    /// the refresh begins
    Start,
    /// `getSession` answered
    SessionReply(String),
    /// `refreshSession` answered
    TokenReply(String),
}

/// What the refresh of a session asks for next.
pub enum RefreshAction {
    /// forget the stored credentials and open this login page
    Logout(String),
    /// ask `getSession` with this access token
    GetSession(String),
    /// ask `refreshSession` with this refresh token
    RefreshToken(String),
    /// store the credentials of this reply, opened at this host
    Store { host: String, reply: String },
    /// nothing more to do
    Done,
}

/// An action of the refresh, texts taken by their characters.
pub enum RefreshStep {
    Logout(Seq<char>),
    GetSession(Seq<char>),
    RefreshToken(Seq<char>),
    Store(Seq<char>, Seq<char>),
    Done,
}

impl View for RefreshAction {
    type V = RefreshStep;

    open spec fn view(&self) -> RefreshStep {
        match self {
            RefreshAction::Logout(p) => RefreshStep::Logout(p@),
            RefreshAction::GetSession(t) => RefreshStep::GetSession(t@),
            RefreshAction::RefreshToken(t) => RefreshStep::RefreshToken(t@),
            RefreshAction::Store { host, reply } => RefreshStep::Store(host@, reply@),
            RefreshAction::Done => RefreshStep::Done,
        }
    }
}

/// The views of a list of actions.
pub open spec fn steps_of(v: Seq<RefreshAction>) -> Seq<RefreshStep> {
    v.map_values(|a: RefreshAction| a@)
}

/// The actions that follow an event of the refresh, given the credentials
/// stored at that moment: at the start, a missing credential sends the user
/// to the login page and the session is checked in any case; a failed session
/// check asks for a new token; a failed token refresh sends the user to the
/// login page, and the reply is stored in any case.
pub open spec fn refresh_plan(auth: AuthData, to: Seq<char>, ev: RefreshEvent) -> Seq<RefreshStep> {
    match ev {
        RefreshEvent::Start => {
            let check = seq![RefreshStep::GetSession(auth.access@)];
            if auth_is_null(auth) {
                seq![RefreshStep::Logout(login_page_of(to))] + check
            } else {
                check
            }
        },
        RefreshEvent::SessionReply(s) => {
            if s@ == ERR_REPLY@ {
                seq![RefreshStep::RefreshToken(auth.refresh@)]
            } else {
                seq![RefreshStep::Done]
            }
        },
        RefreshEvent::TokenReply(t) => {
            let store = seq![RefreshStep::Store(auth.host@, t@)];
            if t@ == ERR_REPLY@ {
                seq![RefreshStep::Logout(login_page_of(to))] + store
            } else {
                store
            }
        },
    }
}

/// The next actions of the refresh of a session for the page `to`, given the
/// event and the credentials stored now.
pub fn refresh_step(auth: &AuthData, to: &str, ev: RefreshEvent) -> (r: Vec<RefreshAction>)
    ensures
        steps_of(r@) == refresh_plan(*auth, to@, ev),
{
    let ghost e = ev;
    let mut r: Vec<RefreshAction> = Vec::new();
    match ev {
        RefreshEvent::Start => {
            if auth.is_null() {
                r.push(RefreshAction::Logout(login_page(to)));
            }
            r.push(RefreshAction::GetSession(auth.access.clone()));
        },
        RefreshEvent::SessionReply(s) => {
            if is_err_reply(s.as_str()) {
                r.push(RefreshAction::RefreshToken(auth.refresh.clone()));
            } else {
                r.push(RefreshAction::Done);
            }
        },
        RefreshEvent::TokenReply(t) => {
            if is_err_reply(t.as_str()) {
                r.push(RefreshAction::Logout(login_page(to)));
            }
            r.push(RefreshAction::Store { host: auth.host.clone(), reply: t });
        },
    }
    assert(steps_of(r@) =~= refresh_plan(*auth, to@, e));
    r
}

/// The endpoint of a did document's first service, or an empty one.
pub struct ResolveDid {
    pub service: String,
}

/// A service entry of a did document.
#[allow(non_snake_case)]
pub struct ResolveService {
    pub serviceEndpoint: String,
}

/// The parts of a did document that the site reads.
pub struct ResolveRes {
    pub service: Vec<ResolveService>,
}

/// The address of a did's document in the PLC directory.
pub fn resolve_did_url(did: &str) -> (r: String)
    ensures
        r@ == "https://plc.directory/"@ + did@,
{
    let mut r = String::from_str("https://plc.directory/");
    r.append(did);
    r
}

/// What a did document says of the user's service: the endpoint of its first
/// service, or empty where it lists none.
pub fn resolved_service(res: &ResolveRes) -> (r: ResolveDid)
    ensures
        res.service@.len() > 0 ==> r.service == res.service@[0].serviceEndpoint,
        res.service@.len() == 0 ==> r.service@.len() == 0,
{
    if res.service.len() > 0 {
        ResolveDid { service: res.service[0].serviceEndpoint.clone() }
    } else {
        ResolveDid { service: String::new() }
    }
}

/// the typed return of `getProfile` as per atproto api
#[allow(non_snake_case)]
pub struct ProfileRes {
    pub did: String,
    pub handle: String,
    pub displayName: Option<String>,
    pub avatar: Option<String>,
    pub description: Option<String>,
}

/// The address of `app.bsky.actor.getProfile` for a did or handle.
pub fn profile_url(did: &str) -> (r: String)
    ensures
        r@ == "https://api.bsky.app/xrpc/app.bsky.actor.getProfile?actor="@ + did@,
{
    let mut r = String::from_str("https://api.bsky.app/xrpc/app.bsky.actor.getProfile?actor=");
    r.append(did);
    r
}

} // verus!
