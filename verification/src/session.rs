//! The session that a browser holds in a cookie: how it is made at login,
//! renewed shortly before it runs out, answered for, and ended.

use crate::cookie::{http_date, CookieModel, CookieSettings, SameSite};
use crate::credential::RENEWAL_THRESHOLD;
use crate::date::{has_rfc3339, is_date, rfc3339, rfc3339_text};
use crate::error::ResponseError;
use crate::json::{doc_of, doc_text, Doc};
use crate::reply::{Reply, ReplyModel, CONTENT_TYPE, JSON, LOCATION, SET_COOKIE};
use crate::text::{opt_str, opt_text};
use vstd::prelude::*;
use vstd::string::*;

verus! {

/// The start page.
pub const DEFAULT_INDEX: &'static str = "/";

/// The login page.
pub const LOGIN_INDEX: &'static str = "/auth/login";

/// The name of the cookie that holds the session.
pub const SESSION_ID: &'static str = "ninja_session";

/// The name of the cookie that holds the user's upstream id.
pub const PUID_ID: &'static str = "_puid";

/// The name of the upstream's own session cookie.
pub const API_AUTH_SESSION_COOKIE_KEY: &'static str = "__Secure-next-auth.session-token";

/// What a decoded access token says of its owner.
#[derive(Debug)]
pub struct Profile {
    /// The user's id.
    pub user_id: String,
    /// The user's e-mail address.
    pub email: String,
    /// When the token runs out, in seconds since the epoch.
    pub expires: i64,
}

/// The session of a browser.
#[derive(Debug)]
pub struct Session {
    /// The credential for the upstream.
    pub access_token: String,
    /// The user's id.
    pub user_id: String,
    /// The user's e-mail address.
    pub email: String,
    /// When the session runs out, in seconds since the epoch.
    pub expires: i64,
    /// The long-lived token that buys a new credential.
    pub refresh_token: Option<String>,
    /// The value of the upstream's own session cookie.
    pub auth_session: Option<String>,
}

/// A session as a value of mathematics.
pub struct SessionModel {
    /// The credential for the upstream.
    pub access_token: Seq<char>,
    /// The user's id.
    pub user_id: Seq<char>,
    /// The user's e-mail address.
    pub email: Seq<char>,
    /// When the session runs out.
    pub expires: int,
    /// The long-lived token that buys a new credential.
    pub refresh_token: Option<Seq<char>>,
    /// The value of the upstream's own session cookie.
    pub auth_session: Option<Seq<char>>,
}

impl View for Session {
    type V = SessionModel;

    open spec fn view(&self) -> SessionModel {
        SessionModel {
            access_token: self.access_token@,
            user_id: self.user_id@,
            email: self.email@,
            expires: self.expires as int,
            refresh_token: opt_text(self.refresh_token),
            auth_session: opt_text(self.auth_session),
        }
    }
}

/// What renews a session.
#[derive(Debug)]
pub enum Renewal {
    /// Nothing: the session is answered for as it is.
    Keep,
    /// The upstream's session cookie is exchanged for a new credential.
    ExchangeSession(String),
    /// The refresh token is exchanged for a new credential.
    Refresh(String),
}

/// What renews a session, as a value of mathematics.
pub enum RenewalModel {
    /// Nothing.
    Keep,
    /// The upstream's session cookie with this value.
    ExchangeSession(Seq<char>),
    /// This refresh token.
    Refresh(Seq<char>),
}

impl View for Renewal {
    type V = RenewalModel;

    open spec fn view(&self) -> RenewalModel {
        match *self {
            Renewal::Keep => RenewalModel::Keep,
            Renewal::ExchangeSession(c) => RenewalModel::ExchangeSession(c@),
            Renewal::Refresh(t) => RenewalModel::Refresh(t@),
        }
    }
}

impl SessionModel {
    /// The session has run out at `now`.
    pub open spec fn expired(self, now: int) -> bool {
        self.expires < now
    }

    /// The session is renewed at `now` if it can be: it still holds and has
    /// no more than the threshold left.
    pub open spec fn due(self, now: int) -> bool {
        !self.expired(now) && self.expires - now <= RENEWAL_THRESHOLD
    }

    /// What renews the session at `now`, given the upstream's session cookie
    /// that came with the request: the cookie before the refresh token, and
    /// nothing where the session is not due or neither is at hand.
    pub open spec fn renewal(self, cookie: Option<Seq<char>>, now: int) -> RenewalModel {
        if !self.due(now) {
            RenewalModel::Keep
        } else {
            match cookie {
                Some(c) => RenewalModel::ExchangeSession(c),
                None => match self.refresh_token {
                    Some(t) => RenewalModel::Refresh(t),
                    None => RenewalModel::Keep,
                },
            }
        }
    }

    /// The session's cookie: readable by scripts, sent on every path, over
    /// TLS only.
    pub open spec fn cookie(self, serialized: Seq<char>) -> CookieModel {
        CookieModel {
            name: SESSION_ID@,
            value: serialized,
            path: DEFAULT_INDEX@,
            same_site: SameSite::Lax,
            secure: true,
            http_only: false,
        }
    }

    /// The user of the session as answers describe it: named by the e-mail
    /// address, without image, picture or groups.
    pub open spec fn user(self) -> Doc {
        Doc::empty().with("id"@, Doc::Text(self.user_id)).with("name"@, Doc::Text(self.email)).with(
            "email"@,
            Doc::Text(self.email),
        ).with("image"@, Doc::Null).with("picture"@, Doc::Null).with(
            "groups"@,
            Doc::List(Seq::empty()),
        )
    }

    /// The body that answers for the session when the text of its end reads
    /// `expires`.
    pub open spec fn body_with(self, expires: Seq<char>) -> Doc {
        Doc::empty().with("user"@, self.user()).with("expires"@, Doc::Text(expires)).with(
            "accessToken"@,
            Doc::Text(self.access_token),
        ).with("authProvider"@, Doc::Text("auth0"@))
    }

    /// The body that answers for the session: its end as RFC 3339 text.
    pub open spec fn body(self) -> Doc {
        self.body_with(rfc3339_text(self.expires))
    }
}

/// The upstream's own session cookie as it is handed on to the browser: sent
/// on every path, over TLS only.
pub open spec fn auth_cookie(value: Seq<char>) -> CookieModel {
    CookieModel {
        name: API_AUTH_SESSION_COOKIE_KEY@,
        value,
        path: DEFAULT_INDEX@,
        same_site: SameSite::Lax,
        secure: true,
        http_only: false,
    }
}

/// A cookie that takes the cookie `name` away from the browser.
pub open spec fn clearing_cookie(name: Seq<char>) -> CookieModel {
    CookieModel {
        name,
        value: Seq::empty(),
        path: DEFAULT_INDEX@,
        same_site: SameSite::Lax,
        secure: false,
        http_only: false,
    }
}

fn lax_cookie(name: &str, value: &str, secure: bool) -> (cookie: CookieSettings)
    ensures
        cookie@ == (CookieModel {
            name: name@,
            value: value@,
            path: DEFAULT_INDEX@,
            same_site: SameSite::Lax,
            secure,
            http_only: false,
        }),
{
    CookieSettings {
        name: name.to_owned(),
        value: value.to_owned(),
        path: DEFAULT_INDEX.to_owned(),
        same_site: SameSite::Lax,
        secure,
        http_only: false,
    }
}

/// What is said of an instant that cannot be written as a date.
pub const OUT_OF_RANGE: &'static str = "timestamp out of range";

fn out_of_range() -> (error: ResponseError)
    ensures
        error matches ResponseError::InternalServerError(m) && m@ == OUT_OF_RANGE@,
{
    ResponseError::InternalServerError(OUT_OF_RANGE.to_owned())
}

impl Session {
    /// The session that a login with an access token alone gives: the
    /// token's owner and end, and nothing to renew it with.
    pub fn from_profile(access_token: &str, profile: &Profile) -> (session: Session)
        ensures
            session@ == (SessionModel {
                access_token: access_token@,
                user_id: profile.user_id@,
                email: profile.email@,
                expires: profile.expires as int,
                refresh_token: None,
                auth_session: None,
            }),
    {
        Session {
            access_token: access_token.to_owned(),
            user_id: profile.user_id.clone(),
            email: profile.email.clone(),
            expires: profile.expires,
            refresh_token: None,
            auth_session: None,
        }
    }

    /// Decides how a request for the session is answered at `now`, given the
    /// value of the upstream's session cookie where the request brought one.
    /// A session that has run out sends the browser to the login page. One
    /// that has more than the renewal threshold left is answered for as it
    /// is. Else it is renewed, by the cookie if there is one, else by the
    /// refresh token if there is one.
    pub fn renewal(&self, cookie: Option<&str>, now: i64) -> (plan: Result<Renewal, ResponseError>)
        ensures
            match plan {
                Ok(renewal) => !self@.expired(now as int) && renewal@ == self@.renewal(
                    opt_str(cookie),
                    now as int,
                ),
                Err(e) => self@.expired(now as int) && (e matches ResponseError::TemporaryRedirect(
                    place,
                ) && place@ == LOGIN_INDEX@),
            },
    {
        if self.expires < now {
            return Err(ResponseError::TemporaryRedirect(LOGIN_INDEX.to_owned()));
        }
        if self.expires as i128 - now as i128 <= RENEWAL_THRESHOLD as i128 {
            match cookie {
                Some(c) => Ok(Renewal::ExchangeSession(c.to_owned())),
                None => match &self.refresh_token {
                    Some(t) => Ok(Renewal::Refresh(t.clone())),
                    None => Ok(Renewal::Keep),
                },
            }
        } else {
            Ok(Renewal::Keep)
        }
    }

    /// The user of the session as a JSON value.
    pub fn user_value(&self) -> (value: serde_json::Value)
        ensures
            doc_of(value) == self@.user(),
    {
        let mut user = crate::json::object();
        crate::json::set(&mut user, "id", crate::json::text(self.user_id.as_str()));
        crate::json::set(&mut user, "name", crate::json::text(self.email.as_str()));
        crate::json::set(&mut user, "email", crate::json::text(self.email.as_str()));
        crate::json::set(&mut user, "image", crate::json::null());
        crate::json::set(&mut user, "picture", crate::json::null());
        let none: Vec<serde_json::Value> = Vec::new();
        assert(none@.map_values(|v: serde_json::Value| doc_of(v)) =~= Seq::<Doc>::empty());
        crate::json::set(&mut user, "groups", crate::json::list(none));
        user
    }

    /// The body that answers for the session as a JSON value, given the text
    /// of the session's end.
    pub fn body_value(&self, expires: &str) -> (value: serde_json::Value)
        ensures
            doc_of(value) == self@.body_with(expires@),
    {
        let mut props = crate::json::object();
        crate::json::set(&mut props, "user", self.user_value());
        crate::json::set(&mut props, "expires", crate::json::text(expires));
        crate::json::set(&mut props, "accessToken", crate::json::text(self.access_token.as_str()));
        crate::json::set(&mut props, "authProvider", crate::json::text("auth0"));
        props
    }

    /// The body that answers for the session, as JSON text. There is none
    /// where the end of the session has no RFC 3339 text.
    pub fn to_body(&self) -> (body: Option<String>)
        ensures
            body is Some <==> has_rfc3339(self@.expires),
            body matches Some(text) ==> text@ == doc_text(self@.body()),
    {
        match rfc3339(self.expires) {
            Some(expires) => Some(crate::json::render(&self.body_value(expires.as_str()))),
            None => None,
        }
    }

    /// The answer for a session from its parts: the text of its cookie and
    /// its body.
    pub fn reply_with(cookie: String, body: String) -> (reply: Reply)
        ensures
            reply@ == (ReplyModel {
                status: 200,
                headers: seq![
                    (LOCATION@, LOGIN_INDEX@),
                    (SET_COOKIE@, cookie@),
                    (CONTENT_TYPE@, JSON@),
                ],
                body: body@,
            }),
    {
        let mut reply = Reply::new(200);
        reply.header(LOCATION, LOGIN_INDEX.to_owned());
        reply.header(SET_COOKIE, cookie);
        reply.header(CONTENT_TYPE, JSON.to_owned());
        reply.body(body);
        assert(reply@.headers =~= seq![
            (LOCATION@, LOGIN_INDEX@),
            (SET_COOKIE@, cookie@),
            (CONTENT_TYPE@, JSON@),
        ]);
        reply
    }

    /// Answers for the session: its body as JSON, and the session issued
    /// anew in its cookie, which ends when the session does. `serialized` is
    /// the session as it stands in the cookie. There is no answer where the
    /// end of the session has no RFC 3339 text.
    pub fn reply(&self, serialized: &str) -> (answer: Result<Reply, ResponseError>)
        ensures
            answer is Ok <==> has_rfc3339(self@.expires),
            answer matches Ok(reply) ==> reply@ == (ReplyModel {
                status: 200,
                headers: seq![
                    (LOCATION@, LOGIN_INDEX@),
                    (
                        SET_COOKIE@,
                        self@.cookie(serialized@).text_until(http_date(self@.expires)),
                    ),
                    (CONTENT_TYPE@, JSON@),
                ],
                body: doc_text(self@.body()),
            }),
            answer matches Err(e) ==> (e matches ResponseError::InternalServerError(m) && m@
                == OUT_OF_RANGE@),
    {
        let body = match self.to_body() {
            Some(body) => body,
            None => {
                return Err(out_of_range());
            },
        };
        match lax_cookie(SESSION_ID, serialized, true).header_until(self.expires) {
            Some(cookie) => Ok(Session::reply_with(cookie, body)),
            None => Err(out_of_range()),
        }
    }

    /// The answer to a login from the form: the browser is sent to the start
    /// page with the session in a cookie that ends when the session does,
    /// and, where the login gave one, with the upstream's own session cookie
    /// before it. `serialized` is the session as it stands in the cookie.
    pub fn login_reply(&self, serialized: &str) -> (answer: Result<Reply, ResponseError>)
        ensures
            answer is Ok <==> is_date(self@.expires),
            answer matches Ok(reply) ==> reply@ == (ReplyModel {
                status: 303,
                headers: seq![(LOCATION@, DEFAULT_INDEX@)] + (match self@.auth_session {
                    Some(value) => seq![
                        (
                            SET_COOKIE@,
                            auth_cookie(value).text_until(http_date(self@.expires)),
                        ),
                    ],
                    None => Seq::empty(),
                }) + seq![
                    (
                        SET_COOKIE@,
                        self@.cookie(serialized@).text_until(http_date(self@.expires)),
                    ),
                ],
                body: Seq::empty(),
            }),
            answer matches Err(e) ==> (e matches ResponseError::InternalServerError(m) && m@
                == OUT_OF_RANGE@),
    {
        let cookie = match lax_cookie(SESSION_ID, serialized, true).header_until(self.expires) {
            Some(text) => text,
            None => {
                return Err(out_of_range());
            },
        };
        let mut reply = Reply::new(303);
        reply.header(LOCATION, DEFAULT_INDEX.to_owned());
        match &self.auth_session {
            Some(value) => {
                let auth = lax_cookie(API_AUTH_SESSION_COOKIE_KEY, value.as_str(), true);
                match auth.header_until(self.expires) {
                    Some(text) => {
                        reply.header(SET_COOKIE, text);
                    },
                    None => {
                        return Err(out_of_range());
                    },
                }
            },
            None => {},
        }
        reply.header(SET_COOKIE, cookie);
        assert(reply@.headers =~= seq![(LOCATION@, DEFAULT_INDEX@)] + (match self@.auth_session {
            Some(value) => seq![
                (SET_COOKIE@, auth_cookie(value).text_until(http_date(self@.expires))),
            ],
            None => Seq::empty(),
        }) + seq![
            (SET_COOKIE@, self@.cookie(serialized@).text_until(http_date(self@.expires))),
        ]);
        Ok(reply)
    }

    /// The answer to a login with an access token: the session in a cookie
    /// that ends when the session does, and the start page as the place to
    /// go on.
    pub fn token_login_reply(&self, serialized: &str) -> (answer: Result<Reply, ResponseError>)
        ensures
            answer is Ok <==> is_date(self@.expires),
            answer matches Ok(reply) ==> reply@ == (ReplyModel {
                status: 200,
                headers: seq![
                    (LOCATION@, DEFAULT_INDEX@),
                    (
                        SET_COOKIE@,
                        self@.cookie(serialized@).text_until(http_date(self@.expires)),
                    ),
                ],
                body: Seq::empty(),
            }),
            answer matches Err(e) ==> (e matches ResponseError::InternalServerError(m) && m@
                == OUT_OF_RANGE@),
    {
        let cookie = match lax_cookie(SESSION_ID, serialized, true).header_until(self.expires) {
            Some(text) => text,
            None => {
                return Err(out_of_range());
            },
        };
        let mut reply = Reply::new(200);
        reply.header(LOCATION, DEFAULT_INDEX.to_owned());
        reply.header(SET_COOKIE, cookie);
        assert(reply@.headers =~= seq![
            (LOCATION@, DEFAULT_INDEX@),
            (SET_COOKIE@, self@.cookie(serialized@).text_until(http_date(self@.expires))),
        ]);
        Ok(reply)
    }

    /// The refresh token to revoke when the session is ended, if it has one.
    pub fn to_revoke(&self) -> (token: Option<&str>)
        ensures
            opt_str(token) == self@.refresh_token,
    {
        match &self.refresh_token {
            Some(t) => Some(t.as_str()),
            None => None,
        }
    }
}

/// The session that answers after a renewal: the new one where the exchange
/// gave one, else the one that was there.
pub fn renewed(current: Session, fresh: Option<Session>) -> (session: Session)
    ensures
        session == (match fresh {
            Some(s) => s,
            None => current,
        }),
{
    match fresh {
        Some(s) => s,
        None => current,
    }
}

/// Checks the access token of a login with a token before it is decoded: an
/// empty one sends the browser to the login page.
pub fn check_bearer(access_token: &str) -> (checked: Result<(), ResponseError>)
    ensures
        checked is Ok <==> access_token@.len() > 0,
        checked matches Err(e) ==> e matches ResponseError::TemporaryRedirect(place) && place@
            == LOGIN_INDEX@,
{
    if access_token.unicode_len() == 0 {
        Err(ResponseError::TemporaryRedirect(LOGIN_INDEX.to_owned()))
    } else {
        Ok(())
    }
}

/// Makes the session of a login with an access token from what decoding the
/// token gave: a token that does not decode is unauthorized, and one that
/// names no owner is a failure of this process.
pub fn token_session(access_token: &str, decoded: Result<Option<Profile>, String>) -> (made: Result<
    Session,
    ResponseError,
>)
    ensures
        match decoded {
            Ok(Some(profile)) => made matches Ok(session) && session@ == (SessionModel {
                access_token: access_token@,
                user_id: profile.user_id@,
                email: profile.email@,
                expires: profile.expires as int,
                refresh_token: None,
                auth_session: None,
            }),
            Ok(None) => made matches Err(ResponseError::InternalServerError(m)) && m@
                == "Get Profile Erorr"@,
            Err(reason) => made matches Err(ResponseError::Unauthorized(m)) && m@ == reason@,
        },
{
    match decoded {
        Ok(Some(profile)) => Ok(Session::from_profile(access_token, &profile)),
        Ok(None) => Err(ResponseError::InternalServerError("Get Profile Erorr".to_owned())),
        Err(reason) => Err(ResponseError::Unauthorized(reason)),
    }
}

/// The answer to a logout: the browser is sent to the login page, and the
/// cookies of the session and of the user's upstream id are taken away.
pub fn logout_reply() -> (reply: Reply)
    ensures
        reply@ == (ReplyModel {
            status: 302,
            headers: seq![
                (LOCATION@, LOGIN_INDEX@),
                (SET_COOKIE@, clearing_cookie(SESSION_ID@).text_for(0)),
                (SET_COOKIE@, clearing_cookie(PUID_ID@).text_for(0)),
            ],
            body: Seq::empty(),
        }),
{
    let session_cookie = lax_cookie(SESSION_ID, "", false).header_for(0);
    let puid_cookie = lax_cookie(PUID_ID, "", false).header_for(0);
    let mut reply = Reply::new(302);
    reply.header(LOCATION, LOGIN_INDEX.to_owned());
    reply.header(SET_COOKIE, session_cookie);
    reply.header(SET_COOKIE, puid_cookie);
    proof {
        reveal_strlit("");
        assert(""@ =~= Seq::<char>::empty());
        assert(reply@.headers =~= seq![
            (LOCATION@, LOGIN_INDEX@),
            (SET_COOKIE@, clearing_cookie(SESSION_ID@).text_for(0)),
            (SET_COOKIE@, clearing_cookie(PUID_ID@).text_for(0)),
        ]);
    }
    reply
}

/// The upstream's session cookie as a login or an exchange gave it.
#[derive(Debug)]
pub struct SessionCookie {
    /// The cookie's value.
    pub value: String,
    /// When the cookie ends, in seconds since the epoch, where that is known.
    pub expires: Option<u64>,
}

/// The instant at which the cookie that is handed on ends: the cookie's own
/// end, or `now` where it has none.
pub open spec fn cookie_end(expires: Option<u64>, now: u64) -> int {
    match expires {
        Some(at) => at as int,
        None => now as int,
    }
}

/// The cookie that a request for a session token must bring: without it the
/// request is unauthorized.
pub fn required_session(cookie: Option<&str>) -> (found: Result<&str, ResponseError>)
    ensures
        match cookie {
            Some(value) => found == Ok::<&str, ResponseError>(value),
            None => found matches Err(ResponseError::Unauthorized(m)) && m@
                == "Session: __Secure-next-auth.session-token required!"@,
        },
{
    match cookie {
        Some(value) => Ok(value),
        None => Err(
            ResponseError::Unauthorized(
                "Session: __Secure-next-auth.session-token required!".to_owned(),
            ),
        ),
    }
}

/// Answers with a session token: `body`, the token as JSON, with the
/// upstream's session cookie handed on to the browser. The cookie ends when
/// the upstream said, or at `now` where it did not say. A token without a
/// session cookie, or with one that ends beyond the dates that can be
/// written, is a failure of this process.
pub fn session_token_reply(cookie: Option<&SessionCookie>, now: u64, body: String) -> (answer:
    Result<Reply, ResponseError>)
    ensures
        match cookie {
            None => answer matches Err(ResponseError::InternalServerError(m)) && m@
                == "Session error!"@,
            Some(c) => if is_date(cookie_end(c.expires, now)) {
                answer matches Ok(reply) && reply@ == (ReplyModel {
                    status: 200,
                    headers: seq![
                        (
                            SET_COOKIE@,
                            auth_cookie(c.value@).text_until(
                                http_date(cookie_end(c.expires, now)),
                            ),
                        ),
                        (CONTENT_TYPE@, JSON@),
                    ],
                    body: body@,
                })
            } else {
                answer matches Err(ResponseError::InternalServerError(m)) && m@ == OUT_OF_RANGE@
            },
        },
{
    let session = match cookie {
        Some(c) => c,
        None => {
            return Err(ResponseError::InternalServerError("Session error!".to_owned()));
        },
    };
    let end: u64 = match session.expires {
        Some(at) => at,
        None => now,
    };
    if end > i64::MAX as u64 {
        return Err(out_of_range());
    }
    let auth = lax_cookie(API_AUTH_SESSION_COOKIE_KEY, session.value.as_str(), true);
    let header = match auth.header_until(end as i64) {
        Some(text) => text,
        None => {
            return Err(out_of_range());
        },
    };
    let mut reply = Reply::new(200);
    reply.header(SET_COOKIE, header);
    reply.header(CONTENT_TYPE, JSON.to_owned());
    reply.body(body);
    assert(reply@.headers =~= seq![
        (
            SET_COOKIE@,
            auth_cookie(session.value@).text_until(http_date(cookie_end(session.expires, now))),
        ),
        (CONTENT_TYPE@, JSON@),
    ]);
    Ok(reply)
}

} // verus!
