use openai::error::{fault_error, ResponseError, UpstreamFault};
use openai::reply::Reply;
use openai::session::{
    check_bearer, logout_reply, renewed, required_session, session_token_reply, token_session,
    Profile, Renewal, Session, SessionCookie, API_AUTH_SESSION_COOKIE_KEY, LOGIN_INDEX, PUID_ID,
    SESSION_ID,
};

fn a_session(expires: i64, refresh: Option<&str>, auth: Option<&str>) -> Session {
    Session {
        access_token: "tok".to_string(),
        user_id: "user-1".to_string(),
        email: "a@b.c".to_string(),
        expires,
        refresh_token: refresh.map(|r| r.to_string()),
        auth_session: auth.map(|a| a.to_string()),
    }
}

fn headers_of(reply: &Reply) -> Vec<(String, String)> {
    reply.headers.iter().map(|h| (h.name.clone(), h.value.clone())).collect()
}

fn pair(name: &str, value: &str) -> (String, String) {
    (name.to_string(), value.to_string())
}

#[test]
fn cookie_names() {
    assert_eq!(SESSION_ID, "ninja_session");
    assert_eq!(PUID_ID, "_puid");
    assert_eq!(API_AUTH_SESSION_COOKIE_KEY, "__Secure-next-auth.session-token");
    assert_eq!(LOGIN_INDEX, "/auth/login");
}

#[test]
fn expired_session_is_sent_to_login() {
    let session = a_session(999, Some("r"), None);
    match session.renewal(Some("cookie"), 1000) {
        Err(ResponseError::TemporaryRedirect(place)) => assert_eq!(place, "/auth/login"),
        other => panic!("unexpected plan {:?}", other),
    }
    assert!(matches!(session.renewal(None, 999), Ok(Renewal::Refresh(_))));
}

#[test]
fn session_above_threshold_is_kept() {
    let now = 1_700_000_000;
    let session = a_session(now + 21601, Some("r"), Some("s"));
    assert!(matches!(session.renewal(Some("cookie"), now), Ok(Renewal::Keep)));
    assert!(matches!(session.renewal(None, now), Ok(Renewal::Keep)));
}

#[test]
fn session_at_threshold_is_renewed_by_cookie_first() {
    let now = 1_700_000_000;
    let session = a_session(now + 21600, Some("r"), None);
    match session.renewal(Some("cookie"), now) {
        Ok(Renewal::ExchangeSession(value)) => assert_eq!(value, "cookie"),
        other => panic!("unexpected plan {:?}", other),
    }
    match session.renewal(None, now) {
        Ok(Renewal::Refresh(token)) => assert_eq!(token, "r"),
        other => panic!("unexpected plan {:?}", other),
    }
    let bare = a_session(now + 21600, None, None);
    assert!(matches!(bare.renewal(None, now), Ok(Renewal::Keep)));
}

#[test]
fn renewal_does_not_overflow_at_the_ends_of_time() {
    let session = a_session(i64::MAX, Some("r"), None);
    assert!(matches!(session.renewal(None, i64::MIN), Ok(Renewal::Keep)));
    assert!(matches!(session.renewal(None, i64::MAX), Ok(Renewal::Refresh(_))));
    let early = a_session(i64::MIN, Some("r"), None);
    assert!(early.renewal(None, i64::MAX).is_err());
}

#[test]
fn renewed_session_takes_the_place_of_the_old_one() {
    let old = a_session(10, None, None);
    let new = a_session(20, None, None);
    assert_eq!(renewed(old, Some(new)).expires, 20);
    let old = a_session(10, None, None);
    assert_eq!(renewed(old, None).expires, 10);
}

#[test]
fn session_body_is_json_with_rfc3339_expiry() {
    let session = a_session(1_700_000_000, None, None);
    assert_eq!(
        session.to_body().unwrap(),
        "{\"accessToken\":\"tok\",\"authProvider\":\"auth0\",\"expires\":\"2023-11-14T22:13:20Z\",\
         \"user\":{\"email\":\"a@b.c\",\"groups\":[],\"id\":\"user-1\",\"image\":null,\
         \"name\":\"a@b.c\",\"picture\":null}}"
    );
}

#[test]
fn session_body_escapes_what_json_must_escape() {
    let mut session = a_session(0, None, None);
    session.user_id = "a\"b\\c\n".to_string();
    let body = session.to_body().unwrap();
    assert!(body.contains("\"id\":\"a\\\"b\\\\c\\n\""));
    let read: serde_json::Value = serde_json::from_str(&body).unwrap();
    assert_eq!(read["user"]["id"].as_str(), Some("a\"b\\c\n"));
}

#[test]
fn session_before_year_zero_has_no_body() {
    assert!(a_session(-62_167_219_201, None, None).to_body().is_none());
    assert!(a_session(-62_167_219_200, None, None).to_body().is_some());
    assert!(a_session(253_402_300_800, None, None).to_body().is_none());
    match a_session(253_402_300_800, None, None).reply("s") {
        Err(ResponseError::InternalServerError(m)) => assert_eq!(m, "timestamp out of range"),
        _ => panic!("a session without a body must fail"),
    }
}

#[test]
fn session_reply_carries_body_and_headers() {
    let session = a_session(1_700_000_000, None, None);
    let reply = session.reply("serialized").unwrap();
    assert_eq!(reply.status, 200);
    assert_eq!(
        headers_of(&reply),
        vec![
            pair("location", "/auth/login"),
            pair(
                "set-cookie",
                "ninja_session=serialized; SameSite=Lax; Secure; Path=/; \
                 Expires=Tue, 14 Nov 2023 22:13:20 GMT"
            ),
            pair("content-type", "application/json"),
        ]
    );
    assert_eq!(reply.body, session.to_body().unwrap());
}

#[test]
fn login_reply_sets_the_session_cookie() {
    let session = a_session(1_700_000_000, None, None);
    let reply = session.login_reply("S").unwrap();
    assert_eq!(reply.status, 303);
    assert_eq!(
        headers_of(&reply),
        vec![
            pair("location", "/"),
            pair(
                "set-cookie",
                "ninja_session=S; SameSite=Lax; Secure; Path=/; \
                 Expires=Tue, 14 Nov 2023 22:13:20 GMT"
            ),
        ]
    );
    assert_eq!(reply.body, "");
}

#[test]
fn login_reply_hands_on_the_upstream_cookie_first() {
    let session = a_session(1_700_000_000, None, Some("up"));
    let reply = session.login_reply("S").unwrap();
    assert_eq!(
        headers_of(&reply),
        vec![
            pair("location", "/"),
            pair(
                "set-cookie",
                "__Secure-next-auth.session-token=up; SameSite=Lax; Secure; Path=/; \
                 Expires=Tue, 14 Nov 2023 22:13:20 GMT"
            ),
            pair(
                "set-cookie",
                "ninja_session=S; SameSite=Lax; Secure; Path=/; \
                 Expires=Tue, 14 Nov 2023 22:13:20 GMT"
            ),
        ]
    );
}

#[test]
fn login_reply_fails_on_a_date_out_of_range() {
    for expires in [253_402_300_800, -377_705_116_801, i64::MAX, i64::MIN] {
        assert!(matches!(
            a_session(expires, None, Some("up")).login_reply("S"),
            Err(ResponseError::InternalServerError(_))
        ));
        assert!(matches!(
            a_session(expires, None, None).token_login_reply("S"),
            Err(ResponseError::InternalServerError(_))
        ));
    }
    assert!(a_session(-377_705_116_800, None, None).login_reply("S").is_ok());
}

#[test]
fn token_login_reply_is_ok_with_location() {
    let reply = a_session(0, None, None).token_login_reply("S").unwrap();
    assert_eq!(reply.status, 200);
    assert_eq!(
        headers_of(&reply),
        vec![
            pair("location", "/"),
            pair(
                "set-cookie",
                "ninja_session=S; SameSite=Lax; Secure; Path=/; \
                 Expires=Thu, 01 Jan 1970 00:00:00 GMT"
            ),
        ]
    );
}

#[test]
fn token_login_needs_a_token_and_a_profile() {
    assert!(check_bearer("x").is_ok());
    match check_bearer("") {
        Err(ResponseError::TemporaryRedirect(place)) => assert_eq!(place, "/auth/login"),
        other => panic!("unexpected outcome {:?}", other),
    }
    let profile =
        Profile { user_id: "u".to_string(), email: "e".to_string(), expires: 77 };
    let session = token_session("tok", Ok(Some(profile))).unwrap();
    assert_eq!(session.access_token, "tok");
    assert_eq!(session.user_id, "u");
    assert_eq!(session.email, "e");
    assert_eq!(session.expires, 77);
    assert_eq!(session.refresh_token, None);
    assert_eq!(session.auth_session, None);
    match token_session("tok", Ok(None)) {
        Err(ResponseError::InternalServerError(m)) => assert_eq!(m, "Get Profile Erorr"),
        other => panic!("unexpected outcome {:?}", other),
    }
    match token_session("tok", Err("bad signature".to_string())) {
        Err(ResponseError::Unauthorized(m)) => assert_eq!(m, "bad signature"),
        other => panic!("unexpected outcome {:?}", other),
    }
}

#[test]
fn logout_clears_both_cookies() {
    let reply = logout_reply();
    assert_eq!(reply.status, 302);
    assert_eq!(
        headers_of(&reply),
        vec![
            pair("location", "/auth/login"),
            pair("set-cookie", "ninja_session=; SameSite=Lax; Path=/; Max-Age=0"),
            pair("set-cookie", "_puid=; SameSite=Lax; Path=/; Max-Age=0"),
        ]
    );
    assert_eq!(a_session(0, Some("r"), None).to_revoke(), Some("r"));
    assert_eq!(a_session(0, None, None).to_revoke(), None);
}

#[test]
fn session_token_needs_the_upstream_cookie() {
    assert_eq!(required_session(Some("v")).unwrap(), "v");
    match required_session(None) {
        Err(ResponseError::Unauthorized(m)) => {
            assert_eq!(m, "Session: __Secure-next-auth.session-token required!")
        }
        other => panic!("unexpected outcome {:?}", other),
    }
}

#[test]
fn session_token_reply_hands_on_the_cookie() {
    let cookie = SessionCookie { value: "up".to_string(), expires: Some(1_700_000_000) };
    let reply = session_token_reply(Some(&cookie), 5, "{}".to_string()).unwrap();
    assert_eq!(reply.status, 200);
    assert_eq!(
        headers_of(&reply),
        vec![
            pair(
                "set-cookie",
                "__Secure-next-auth.session-token=up; SameSite=Lax; Secure; Path=/; \
                 Expires=Tue, 14 Nov 2023 22:13:20 GMT"
            ),
            pair("content-type", "application/json"),
        ]
    );
    assert_eq!(reply.body, "{}");
}

#[test]
fn session_token_reply_without_expiry_uses_now() {
    let cookie = SessionCookie { value: "up".to_string(), expires: None };
    let reply = session_token_reply(Some(&cookie), 0, String::new()).unwrap();
    assert_eq!(
        reply.headers[0].value,
        "__Secure-next-auth.session-token=up; SameSite=Lax; Secure; Path=/; \
         Expires=Thu, 01 Jan 1970 00:00:00 GMT"
    );
}

#[test]
fn session_token_reply_failures() {
    match session_token_reply(None, 0, String::new()) {
        Err(ResponseError::InternalServerError(m)) => assert_eq!(m, "Session error!"),
        _ => panic!("a token without a session cookie must fail"),
    }
    for end in [253_402_300_800u64, i64::MAX as u64, i64::MAX as u64 + 1, u64::MAX] {
        let cookie = SessionCookie { value: "up".to_string(), expires: Some(end) };
        assert!(matches!(
            session_token_reply(Some(&cookie), 0, String::new()),
            Err(ResponseError::InternalServerError(_))
        ));
        let cookie = SessionCookie { value: "up".to_string(), expires: None };
        assert!(session_token_reply(Some(&cookie), end, String::new()).is_err());
    }
    let cookie = SessionCookie { value: "up".to_string(), expires: Some(253_402_300_799) };
    assert!(session_token_reply(Some(&cookie), 0, String::new()).is_ok());
}

#[test]
fn error_kinds_have_their_status() {
    assert_eq!(ResponseError::Unauthorized("m".to_string()).status(), 401);
    assert_eq!(ResponseError::BadRequest("m".to_string()).status(), 400);
    assert_eq!(ResponseError::InternalServerError("m".to_string()).status(), 500);
    assert_eq!(ResponseError::TemporaryRedirect("/x".to_string()).status(), 307);
    assert_eq!(ResponseError::Timeout.status(), 408);
    assert_eq!(ResponseError::BadGateway.status(), 502);
    assert_eq!(ResponseError::Unauthorized("m".to_string()).detail(), "m");
    assert_eq!(ResponseError::TemporaryRedirect("/x".to_string()).detail(), "/x");
    assert_eq!(ResponseError::Timeout.detail(), "");
    assert!(matches!(fault_error(UpstreamFault::Unreachable), ResponseError::BadGateway));
    assert!(matches!(fault_error(UpstreamFault::TimedOut), ResponseError::Timeout));
}

#[test]
fn session_reply_is_built_from_cookie_and_body() {
    let reply = Session::reply_with("c=v".to_string(), "{}".to_string());
    assert_eq!(reply.status, 200);
    assert_eq!(
        headers_of(&reply),
        vec![
            pair("location", "/auth/login"),
            pair("set-cookie", "c=v"),
            pair("content-type", "application/json"),
        ]
    );
    assert_eq!(reply.body, "{}");
}

#[test]
fn session_body_takes_the_text_of_its_end() {
    let session = a_session(0, None, None);
    assert_eq!(
        session.body_value("whenever").to_string(),
        "{\"accessToken\":\"tok\",\"authProvider\":\"auth0\",\"expires\":\"whenever\",\
         \"user\":{\"email\":\"a@b.c\",\"groups\":[],\"id\":\"user-1\",\"image\":null,\
         \"name\":\"a@b.c\",\"picture\":null}}"
    );
    assert_eq!(
        session.user_value().to_string(),
        "{\"email\":\"a@b.c\",\"groups\":[],\"id\":\"user-1\",\"image\":null,\
         \"name\":\"a@b.c\",\"picture\":null}"
    );
}

#[test]
fn reissued_session_cookie_ends_with_the_renewed_session() {
    let old = a_session(1_000, Some("r"), None);
    let new = a_session(1_700_000_000, Some("r2"), None);
    let session = renewed(old, Some(new));
    let reply = session.reply("NEW").unwrap();
    assert_eq!(
        reply.headers[1].value,
        "ninja_session=NEW; SameSite=Lax; Secure; Path=/; Expires=Tue, 14 Nov 2023 22:13:20 GMT"
    );
}
