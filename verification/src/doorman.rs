//! The login front end: it has the token store issue and check login
//! tokens, and hands out and takes back the session cookie.

use crate::api::{Body, BodyView, Method, Request, RequestView};
use crate::reply::{
    absent_status, status_is_not_found, status_is_success, success_status, RemoteFailure,
};
use crate::server::Status;
use vstd::prelude::*;
use vstd::slice::*;
use vstd::string::*;

verus! {

/// The client of the token store.
#[derive(Debug, PartialEq, Eq)]
pub struct TokenApi {
    pub gatekeeper_url: String,
}

/// What the token store answers when it issues a token.
#[derive(Debug, PartialEq, Eq)]
pub struct TokenResponse {
    pub token: String,
}

/// The address of the token store is not configured.
#[derive(Clone, Copy, Debug, PartialEq, Eq, Structural)]
pub struct MissingUrl;

/// What came back from the token store.
#[derive(Debug, PartialEq, Eq)]
pub enum TokenReply {
    /// No answer: the connection failed or timed out.
    Unreachable,
    /// The store answered with this status code, and with this token where
    /// its body held one.
    Response { status: u16, token: Option<TokenResponse> },
}

impl Clone for TokenApi {
    fn clone(&self) -> (r: Self)
        ensures
            r == *self,
    {
        TokenApi { gatekeeper_url: self.gatekeeper_url.clone() }
    }
}

impl TokenApi {
    /// The client of the token store at the configured address; none where
    /// no address is configured.
    pub fn new(gatekeeper_url: Option<String>) -> (r: Result<TokenApi, MissingUrl>)
        ensures
            match gatekeeper_url {
                Some(url) => r == Ok::<TokenApi, MissingUrl>(TokenApi { gatekeeper_url: url }),
                None => r is Err,
            },
    {
        match gatekeeper_url {
            Some(url) => Ok(TokenApi { gatekeeper_url: url }),
            None => Err(MissingUrl),
        }
    }

    /// The request that has a new login token issued.
    pub fn get_token(&self) -> (r: Request)
        ensures
            r@ == (RequestView {
                method: Method::Post,
                url: self.gatekeeper_url@ + "/login"@,
                body: BodyView::Empty,
            }),
    {
        let mut url = self.gatekeeper_url.clone();
        url.append("/login");
        Request { method: Method::Post, url, body: Body::Empty }
    }

    /// The request that asks whether a login token is known.
    pub fn check_token(&self, token: &str) -> (r: Request)
        ensures
            r@ == (RequestView {
                method: Method::Get,
                url: self.gatekeeper_url@ + "/login/"@ + token@,
                body: BodyView::Empty,
            }),
    {
        let mut url = self.gatekeeper_url.clone();
        url.append("/login/");
        url.append(token);
        Request { method: Method::Get, url, body: Body::Empty }
    }

    /// The request that has a session token forgotten.
    pub fn delete_session_token(&self, token: &str) -> (r: Request)
        ensures
            r@ == (RequestView {
                method: Method::Delete,
                url: self.gatekeeper_url@ + "/session/"@ + token@,
                body: BodyView::Empty,
            }),
    {
        let mut url = self.gatekeeper_url.clone();
        url.append("/session/");
        url.append(token);
        Request { method: Method::Delete, url, body: Body::Empty }
    }
}

/// The token that was issued, for what came back: a reply of 200 to 299
/// with a token in its body gives the token; anything else is a failure.
pub fn issued_token(reply: TokenReply) -> (r: Result<String, RemoteFailure>)
    ensures
        match reply {
            TokenReply::Unreachable => r == Err::<String, RemoteFailure>(
                RemoteFailure::Transport,
            ),
            TokenReply::Response { status, token } => if !success_status(status) {
                r == Err::<String, RemoteFailure>(RemoteFailure::Status(status))
            } else {
                match token {
                    Some(issued) => r == Ok::<String, RemoteFailure>(issued.token),
                    None => r == Err::<String, RemoteFailure>(RemoteFailure::Body),
                }
            },
        },
{
    match reply {
        TokenReply::Unreachable => Err(RemoteFailure::Transport),
        TokenReply::Response { status, token } => {
            if !status_is_success(status) {
                Err(RemoteFailure::Status(status))
            } else {
                match token {
                    Some(issued) => Ok(issued.token),
                    None => Err(RemoteFailure::Body),
                }
            }
        },
    }
}

/// Whether the token is known, for what came back: 404 says that it is
/// not, any other status outside 200 to 299 is a failure, and success says
/// that it is.
pub fn token_known(reply: &TokenReply) -> (r: Result<bool, RemoteFailure>)
    ensures
        r == match *reply {
            TokenReply::Unreachable => Err::<bool, RemoteFailure>(RemoteFailure::Transport),
            TokenReply::Response { status, .. } => if absent_status(status) {
                Ok(false)
            } else if !success_status(status) {
                Err(RemoteFailure::Status(status))
            } else {
                Ok(true)
            },
        },
{
    match reply {
        TokenReply::Unreachable => Err(RemoteFailure::Transport),
        TokenReply::Response { status, .. } => {
            if status_is_not_found(*status) {
                Ok(false)
            } else if !status_is_success(*status) {
                Err(RemoteFailure::Status(*status))
            } else {
                Ok(true)
            }
        },
    }
}

/// What the login page is asked with.
#[derive(Debug, PartialEq, Eq)]
pub struct LoginQuery {
    pub redirect: String,
}

/// What the login form sends.
#[derive(Debug, PartialEq, Eq)]
pub struct LoginData {
    pub token: String,
    pub redirect: String,
    pub username: String,
    pub password: String,
}

/// What the login page is rendered from.
#[derive(Debug, PartialEq, Eq)]
pub struct LoginPage {
    pub login_token: String,
    pub redirect: String,
}

/// The session cookie, as it is set on a reply.
#[derive(Debug, PartialEq, Eq)]
pub struct SessionCookie {
    pub name: String,
    pub value: String,
    pub domain: String,
    pub path: String,
    pub secure: bool,
    pub http_only: bool,
    /// Whether the cookie is sent with requests from other sites.
    pub cross_site: bool,
    /// Whether the cookie expires at once.
    pub expired: bool,
}

pub struct SessionCookieView {
    pub name: Seq<char>,
    pub value: Seq<char>,
    pub domain: Seq<char>,
    pub path: Seq<char>,
    pub secure: bool,
    pub http_only: bool,
    pub cross_site: bool,
    pub expired: bool,
}

impl View for SessionCookie {
    type V = SessionCookieView;

    open spec fn view(&self) -> SessionCookieView {
        SessionCookieView {
            name: self.name@,
            value: self.value@,
            domain: self.domain@,
            path: self.path@,
            secure: self.secure,
            http_only: self.http_only,
            cross_site: self.cross_site,
            expired: self.expired,
        }
    }
}

/// The session cookie with that value: for the whole domain, over secure
/// connections only, out of the reach of scripts, and sent from other sites
/// too.
pub open spec fn session_cookie_view(value: Seq<char>, expired: bool) -> SessionCookieView {
    SessionCookieView {
        name: "pongle_auth"@,
        value,
        domain: "ponglehub.co.uk"@,
        path: "/"@,
        secure: true,
        http_only: true,
        cross_site: true,
        expired,
    }
}

/// The name of the session cookie.
pub fn cookie_name() -> (r: &'static str)
    ensures
        r@ == "pongle_auth"@,
{
    "pongle_auth"
}

/// The session cookie with that value.
pub fn session_cookie(value: &str, expired: bool) -> (r: SessionCookie)
    ensures
        r@ == session_cookie_view(value@, expired),
{
    SessionCookie {
        name: cookie_name().to_owned(),
        value: value.to_owned(),
        domain: "ponglehub.co.uk".to_owned(),
        path: "/".to_owned(),
        secure: true,
        http_only: true,
        cross_site: true,
        expired,
    }
}

/// What the login page is rendered from, for the token that was issued:
/// the token and where to go after the login; 500 where no token could be
/// had.
pub fn login(query: &LoginQuery, token: Result<String, RemoteFailure>) -> (r: Result<
    LoginPage,
    Status,
>)
    ensures
        match token {
            Ok(issued) => r is Ok && r->Ok_0.login_token == issued && r->Ok_0.redirect@
                == query.redirect@,
            Err(_) => r == Err::<LoginPage, Status>(Status::InternalServerError),
        },
{
    match token {
        Ok(issued) => Ok(LoginPage { login_token: issued, redirect: query.redirect.clone() }),
        Err(_) => Err(Status::InternalServerError),
    }
}

/// The answer to a login or a logout.
#[derive(Debug, PartialEq, Eq)]
pub struct SessionAnswer {
    pub status: Status,
    /// Where the browser is sent.
    pub location: Option<String>,
    /// The cookie to set.
    pub cookie: Option<SessionCookie>,
    /// The session token that the token store is to forget.
    pub revoke: Option<String>,
}

pub struct SessionAnswerView {
    pub status: Status,
    pub location: Option<Seq<char>>,
    pub cookie: Option<SessionCookieView>,
    pub revoke: Option<Seq<char>>,
}

impl View for SessionAnswer {
    type V = SessionAnswerView;

    open spec fn view(&self) -> SessionAnswerView {
        SessionAnswerView {
            status: self.status,
            location: match self.location {
                Some(location) => Some(location@),
                None => None,
            },
            cookie: match self.cookie {
                Some(cookie) => Some(cookie@),
                None => None,
            },
            revoke: match self.revoke {
                Some(token) => Some(token@),
                None => None,
            },
        }
    }
}

/// An answer that is a status and nothing else.
pub open spec fn bare_view(status: Status) -> SessionAnswerView {
    SessionAnswerView { status, location: None, cookie: None, revoke: None }
}

/// The answer to a login, for what the check of the login token gave: 500
/// where the check failed; 401 where the token is not known; else the
/// browser is sent on to where it wanted to go, with the session cookie.
pub open spec fn login_api_view(redirect: Seq<char>, check: Result<bool, RemoteFailure>) -> SessionAnswerView {
    match check {
        Err(_) => bare_view(Status::InternalServerError),
        Ok(false) => bare_view(Status::Unauthorized),
        Ok(true) => SessionAnswerView {
            status: Status::Found,
            location: Some(redirect),
            cookie: Some(session_cookie_view("special_token"@, false)),
            revoke: None,
        },
    }
}

/// The answer to a logout, for the session cookie that the request
/// brought: 401 without one; else the session token is to be forgotten and
/// the cookie is taken back, emptied and expired.
pub open spec fn logout_api_view(cookie: Option<Seq<char>>) -> SessionAnswerView {
    match cookie {
        None => bare_view(Status::Unauthorized),
        Some(token) => SessionAnswerView {
            status: Status::Success,
            location: None,
            cookie: Some(session_cookie_view(""@, true)),
            revoke: Some(token),
        },
    }
}

/// The answer to a login, for what the check of the login token gave.
pub fn login_api(body: &LoginData, check: Result<bool, RemoteFailure>) -> (r: SessionAnswer)
    ensures
        r@ == login_api_view(body.redirect@, check),
{
    match check {
        Err(_) => SessionAnswer {
            status: Status::InternalServerError,
            location: None,
            cookie: None,
            revoke: None,
        },
        Ok(false) => SessionAnswer {
            status: Status::Unauthorized,
            location: None,
            cookie: None,
            revoke: None,
        },
        Ok(true) => SessionAnswer {
            status: Status::Found,
            location: Some(body.redirect.clone()),
            cookie: Some(session_cookie("special_token", false)),
            revoke: None,
        },
    }
}

/// The answer to a logout, for the session cookie that the request brought.
pub fn logout_api(cookie: Option<String>) -> (r: SessionAnswer)
    ensures
        r@ == logout_api_view(
            match cookie {
                Some(token) => Some(token@),
                None => None,
            },
        ),
{
    match cookie {
        None => SessionAnswer {
            status: Status::Unauthorized,
            location: None,
            cookie: None,
            revoke: None,
        },
        Some(token) => SessionAnswer {
            status: Status::Success,
            location: None,
            cookie: Some(session_cookie("", true)),
            revoke: Some(token),
        },
    }
}

/// Whether `text` ends with `suffix`.
pub open spec fn ends_with_view(text: Seq<u8>, suffix: Seq<u8>) -> bool {
    text.len() >= suffix.len() && text.subrange(text.len() - suffix.len(), text.len() as int)
        == suffix
}

/// Whether `text` ends with `suffix`.
pub fn ends_with(text: &[u8], suffix: &[u8]) -> (r: bool)
    ensures
        r == ends_with_view(text@, suffix@),
{
    if text.len() < suffix.len() {
        return false;
    }
    let start = text.len() - suffix.len();
    let ghost tail = text@.subrange(start as int, text.len() as int);
    let mut i: usize = 0;
    while i < suffix.len()
        invariant
            i <= suffix.len(),
            start + suffix.len() == text.len(),
            tail == text@.subrange(start as int, text.len() as int),
            forall|j: int| 0 <= j < i ==> tail[j] == suffix@[j],
        decreases suffix.len() - i,
    {
        if text[start + i] != suffix[i] {
            assert(tail[i as int] != suffix@[i as int]);
            return false;
        }
        i = i + 1;
    }
    assert(tail =~= suffix@);
    true
}

/// Whether requests from pages of that origin are let in: the local
/// origin, and every origin below the service's domain.
pub open spec fn origin_allowed_view(origin: Seq<u8>) -> bool {
    origin == "http://localhost".spec_bytes() || ends_with_view(
        origin,
        ".ponglehub.co.uk".spec_bytes(),
    )
}

/// Whether requests from pages of that origin are let in.
pub fn origin_allowed(origin: &[u8]) -> (r: bool)
    ensures
        r == origin_allowed_view(origin@),
{
    let local = "http://localhost".as_bytes();
    proof {
        if origin@.len() == local@.len() {
            assert(origin@.subrange(0, origin@.len() as int) =~= origin@);
        }
    }
    (origin.len() == local.len() && ends_with(origin, local)) || ends_with(
        origin,
        ".ponglehub.co.uk".as_bytes(),
    )
}

} // verus!
