use openai::error::ResponseError;
use openai::route::{
    check_auth_key, dispatch, is_event_stream, is_hop_by_hop, is_written_anew, relay,
    request_headers, strip_hop_by_hop, Dispatch, Header, RouteClass, BODY_LIMIT, URL_CHATGPT_API,
    URL_PLATFORM_API,
};
use openai::serve::{ContextArgs, Serve};
use openai::limiter::{Strategy, TokenBucketLimitContext};
use openai::table::{route_table, Guard, Handler, Method};

fn args(strategy: &str) -> ContextArgs {
    ContextArgs {
        bind: Some("0.0.0.0:7999".to_string()),
        workers: 4,
        concurrent_limit: 65535,
        timeout: 600,
        connect_timeout: 60,
        tcp_keepalive: 75,
        tls_cert: None,
        tls_key: None,
        auth_key: None,
        cookie_store: true,
        disable_direct: false,
        interface: None,
        ipv6_subnet: None,
        arkose_solver: None,
        disable_ui: false,
        cf_site_key: None,
        arkose_endpoint: None,
        tb_enable: true,
        tb_store_strategy: strategy.to_string(),
        tb_redis_url: "redis://127.0.0.1:6379".to_string(),
        tb_capacity: 60,
        tb_fill_rate: 1,
        tb_expired: 86400,
        pbind: None,
        pupstream: None,
        pcert: "ca/cert.crt".to_string(),
        pkey: "ca/key.pem".to_string(),
    }
}

#[test]
fn classes_of_paths() {
    assert_eq!(RouteClass::classify("/dashboard/user/api_keys"), Some(RouteClass::OfficialDashboard));
    assert_eq!(RouteClass::classify("/v1/chat/completions"), Some(RouteClass::OfficialV1));
    assert_eq!(RouteClass::classify("/backend-api/me"), Some(RouteClass::UnofficialBackend));
    assert_eq!(RouteClass::classify("/public-api/x"), Some(RouteClass::UnofficialPublic));
    for path in ["/v1/", "/v1", "/dashboard/", "v1/x", "/V1/x", "/", "", "/auth/token", "/v2/x"] {
        assert_eq!(RouteClass::classify(path), None);
    }
}

#[test]
fn classes_have_their_upstream_and_guard() {
    assert_eq!(URL_PLATFORM_API, "https://api.openai.com");
    assert_eq!(URL_CHATGPT_API, "https://chat.openai.com");
    assert_eq!(RouteClass::OfficialDashboard.upstream(), "https://api.openai.com");
    assert_eq!(RouteClass::OfficialV1.upstream(), "https://api.openai.com");
    assert_eq!(RouteClass::UnofficialBackend.upstream(), "https://chat.openai.com");
    assert_eq!(RouteClass::UnofficialPublic.upstream(), "https://chat.openai.com");
    assert!(RouteClass::OfficialDashboard.guarded());
    assert!(RouteClass::OfficialV1.guarded());
    assert!(RouteClass::UnofficialBackend.guarded());
    assert!(!RouteClass::UnofficialPublic.guarded());
}

#[test]
fn dispatch_forwards_under_the_same_path() {
    match dispatch("/v1/models", 0) {
        Dispatch::Forward { class, guarded, url } => {
            assert_eq!(class, RouteClass::OfficialV1);
            assert!(guarded);
            assert_eq!(url, "https://api.openai.com/v1/models");
        }
        other => panic!("unexpected plan {:?}", other),
    }
    match dispatch("/public-api/conversation_limit", BODY_LIMIT) {
        Dispatch::Forward { class, guarded, url } => {
            assert_eq!(class, RouteClass::UnofficialPublic);
            assert!(!guarded);
            assert_eq!(url, "https://chat.openai.com/public-api/conversation_limit");
        }
        other => panic!("unexpected plan {:?}", other),
    }
}

#[test]
fn dispatch_refuses_oversized_bodies_and_unknown_paths() {
    assert_eq!(BODY_LIMIT, 200 * 1024 * 1024);
    assert!(matches!(dispatch("/v1/models", BODY_LIMIT + 1), Dispatch::BodyTooLarge));
    assert!(matches!(dispatch("/v1/models", usize::MAX), Dispatch::BodyTooLarge));
    assert!(matches!(dispatch("/other", 0), Dispatch::NotProxied));
    assert!(matches!(dispatch("/other", usize::MAX), Dispatch::NotProxied));
}

#[test]
fn hop_by_hop_headers_are_stripped_in_order() {
    for name in [
        "connection",
        "keep-alive",
        "proxy-authenticate",
        "proxy-authorization",
        "te",
        "trailer",
        "transfer-encoding",
        "upgrade",
    ] {
        assert!(is_hop_by_hop(name));
    }
    for name in ["host", "cookie", "authorization", "content-type", "", "Connection", "tee"] {
        assert!(!is_hop_by_hop(name));
    }
    let header = |n: &str, v: &str| Header { name: n.to_string(), value: v.to_string() };
    let inbound = vec![
        header("accept", "*/*"),
        header("connection", "keep-alive"),
        header("cookie", "a=b"),
        header("te", "trailers"),
        header("accept", "text/html"),
        header("upgrade", "h2c"),
    ];
    let kept: Vec<(String, String)> =
        strip_hop_by_hop(&inbound).into_iter().map(|h| (h.name, h.value)).collect();
    assert_eq!(
        kept,
        vec![
            ("accept".to_string(), "*/*".to_string()),
            ("cookie".to_string(), "a=b".to_string()),
            ("accept".to_string(), "text/html".to_string()),
        ]
    );
    assert!(strip_hop_by_hop(&Vec::new()).is_empty());
}

#[test]
fn event_streams_are_told_by_content_type() {
    assert!(is_event_stream("text/event-stream"));
    assert!(is_event_stream("text/event-stream; charset=utf-8"));
    assert!(!is_event_stream("application/json"));
    assert!(!is_event_stream("text/event"));
    assert!(!is_event_stream(""));
}

#[test]
fn auth_key_gate() {
    assert!(check_auth_key(None, None).is_ok());
    assert!(check_auth_key(None, Some("anything")).is_ok());
    assert!(check_auth_key(Some("k"), Some("k")).is_ok());
    match check_auth_key(Some("k"), None) {
        Err(ResponseError::Unauthorized(m)) => assert_eq!(m, "Login Authentication Key required!"),
        other => panic!("unexpected outcome {:?}", other),
    }
    match check_auth_key(Some("k"), Some("K")) {
        Err(ResponseError::Unauthorized(m)) => assert_eq!(m, "Authentication Key error!"),
        other => panic!("unexpected outcome {:?}", other),
    }
    assert!(check_auth_key(Some("k"), Some("")).is_err());
    assert!(check_auth_key(Some(""), Some("")).is_ok());
}

#[test]
fn table_without_pages_has_the_api_only() {
    let routes = route_table(true, false);
    let lines: Vec<(&str, Method, Handler, Guard)> =
        routes.iter().map(|r| (r.pattern.as_str(), r.method, r.handler, r.guard)).collect();
    assert_eq!(
        lines,
        vec![
            ("/dashboard/*path", Method::Any, Handler::OfficialProxy, Guard::Credential),
            ("/v1/*path", Method::Any, Handler::OfficialProxy, Guard::Credential),
            ("/backend-api/*path", Method::Any, Handler::UnofficialProxy, Guard::Credential),
            ("/public-api/*path", Method::Any, Handler::UnofficialProxy, Guard::Open),
            ("/auth/token", Method::Post, Handler::AccessToken, Guard::Open),
            ("/auth/refresh_token", Method::Post, Handler::RefreshToken, Guard::Open),
            ("/auth/revoke_token", Method::Post, Handler::RevokeToken, Guard::Open),
            ("/api/auth/session", Method::Get, Handler::ApiSession, Guard::Open),
        ]
    );
    assert_eq!(route_table(true, true).len(), 8);
}

#[test]
fn table_with_pages_has_the_key_page_only_without_a_key() {
    let open = route_table(false, false);
    let keyed = route_table(false, true);
    assert_eq!(open.len(), 8 + 7 + 12 + 5);
    assert_eq!(keyed.len(), open.len() - 1);
    assert_eq!(open[8].pattern, "/auth");
    assert_eq!(open[8].handler, Handler::AuthPage);
    assert_eq!(open[8].guard, Guard::CsrfIssue);
    assert!(keyed.iter().all(|r| r.handler != Handler::AuthPage));
    assert_eq!(keyed[8].pattern, "/auth/login");
    assert_eq!(keyed[8].method, Method::Post);
    assert_eq!(keyed[8].guard, Guard::CsrfCheck);
    assert_eq!(keyed[9].pattern, "/auth/login");
    assert_eq!(keyed[9].method, Method::Get);
    let last = open.last().unwrap();
    assert_eq!(last.pattern, "/sweetalert2/*path");
    assert_eq!(last.handler, Handler::StaticResource);
    assert!(open
        .iter()
        .any(|r| r.pattern == "/_next/data/eFlZtDCQUjuHAccnRY3au/share/:share_id/continue.json"
            && r.handler == Handler::ShareChatContinueInfo));
    assert_eq!(open.iter().filter(|r| r.handler == Handler::RedirectHome).count(), 2);
    assert_eq!(open.iter().filter(|r| r.guard == Guard::Credential).count(), 3);
}

#[test]
fn plan_follows_the_settings() {
    let serve = Serve::new(args("mem"));
    assert_eq!(serve.args().workers, 4);
    let plan = serve.plan().unwrap();
    assert_eq!(plan.workers, 4);
    assert_eq!(plan.concurrent_limit, 65535);
    assert_eq!(plan.timeout_secs, 600);
    assert_eq!(plan.keepalive_secs, 75);
    assert_eq!(plan.body_limit, 209_715_200);
    assert_eq!(plan.sweep_secs, 86400);
    assert_eq!(plan.listener.bind, "0.0.0.0:7999");
    assert!(plan.listener.tls.is_none());
    assert!(plan.preauth.is_none());
    assert_eq!(plan.routes.len(), 32);
    match plan.limiter {
        TokenBucketLimitContext::Mem(mut table) => {
            assert!(table.enabled());
            assert_eq!(table.len(), 0);
            for _ in 0..60 {
                assert!(table.acquire("k", 0));
            }
            assert!(!table.acquire("k", 0));
            assert!(!table.acquire("k", 999));
            assert!(table.acquire("k", 1000));
            assert!(table.acquire("k", 86_400_000 + 1000));
            assert_eq!(table.tokens_of("k"), Some(59_000));
        }
        TokenBucketLimitContext::Redis(_) => panic!("asked for the table of this process"),
    }
}

#[test]
fn plan_with_tls_preauth_and_shared_store() {
    let mut settings = args("redis");
    settings.tls_cert = Some("cert.pem".to_string());
    settings.tls_key = Some("key.pem".to_string());
    settings.pbind = Some("0.0.0.0:8888".to_string());
    settings.pupstream = Some("socks5://127.0.0.1:1080".to_string());
    settings.auth_key = Some("k".to_string());
    settings.disable_ui = true;
    let plan = Serve::new(settings).plan().unwrap();
    assert_eq!(plan.listener.tls, Some(("cert.pem".to_string(), "key.pem".to_string())));
    let preauth = plan.preauth.unwrap();
    assert_eq!(preauth.bind, "0.0.0.0:8888");
    assert_eq!(preauth.upstream.as_deref(), Some("socks5://127.0.0.1:1080"));
    assert_eq!(preauth.cert, "ca/cert.crt");
    assert_eq!(preauth.key, "ca/key.pem");
    assert_eq!(plan.routes.len(), 8);
    assert_eq!(plan.limiter.strategy(), Strategy::Redis);
    match plan.limiter {
        TokenBucketLimitContext::Redis(shared) => {
            assert!(shared.enabled);
            assert_eq!(shared.capacity, 60);
            assert_eq!(shared.fill_rate, 1);
            assert_eq!(shared.expired, 86400);
            assert_eq!(shared.url, "redis://127.0.0.1:6379");
        }
        TokenBucketLimitContext::Mem(_) => panic!("asked for the shared store"),
    }
}

#[test]
fn plan_speaks_tls_only_with_both_files() {
    let mut settings = args("mem");
    settings.tls_cert = Some("cert.pem".to_string());
    assert!(Serve::new(settings).plan().unwrap().listener.tls.is_none());
    let mut settings = args("mem");
    settings.tls_key = Some("key.pem".to_string());
    assert!(Serve::new(settings).plan().unwrap().listener.tls.is_none());
}

#[test]
fn plan_fails_fast_on_an_unknown_strategy() {
    match Serve::new(args("memcached")).plan() {
        Err(refused) => assert_eq!(refused.name, "memcached"),
        Ok(_) => panic!("an unknown strategy must be refused"),
    }
}

fn named(name: &str, value: &str) -> Header {
    Header { name: name.to_string(), value: value.to_string() }
}

fn flat(headers: Vec<Header>) -> Vec<(String, String)> {
    headers.into_iter().map(|h| (h.name, h.value)).collect()
}

#[test]
fn request_headers_drop_what_is_written_anew_and_add_the_cookie() {
    assert!(is_written_anew("host"));
    assert!(is_written_anew("content-length"));
    assert!(!is_written_anew("content-type"));
    let inbound = vec![
        named("host", "gateway.local"),
        named("accept", "*/*"),
        named("content-length", "12"),
        named("connection", "close"),
        named("cookie", "a=b"),
    ];
    assert_eq!(
        flat(request_headers(&inbound, "_check", Some("v1"))),
        vec![
            ("accept".to_string(), "*/*".to_string()),
            ("cookie".to_string(), "a=b".to_string()),
            ("cookie".to_string(), "_check=v1".to_string()),
        ]
    );
    assert_eq!(
        flat(request_headers(&inbound, "_check", None)),
        vec![
            ("accept".to_string(), "*/*".to_string()),
            ("cookie".to_string(), "a=b".to_string()),
        ]
    );
    assert_eq!(
        flat(request_headers(&Vec::new(), "n", Some(""))),
        vec![("cookie".to_string(), "n=".to_string())]
    );
}

#[test]
fn answer_keeps_status_and_headers_and_knows_a_stream() {
    let answered = vec![
        named("content-type", "application/json"),
        named("transfer-encoding", "chunked"),
        named("x-request-id", "7"),
        named("content-length", "2"),
    ];
    let plan = relay(418, &answered);
    assert_eq!(plan.status, 418);
    assert!(!plan.streaming);
    assert_eq!(
        flat(plan.headers),
        vec![
            ("content-type".to_string(), "application/json".to_string()),
            ("x-request-id".to_string(), "7".to_string()),
        ]
    );
    let stream = vec![named("x", "text/event-stream"), named("content-type", "text/event-stream")];
    assert!(relay(200, &stream).streaming);
    let other = vec![named("x", "text/event-stream"), named("content-type", "text/plain")];
    assert!(!relay(200, &other).streaming);
    let twice = vec![named("content-type", "text/plain"), named("content-type", "text/event-stream; q")];
    assert!(relay(200, &twice).streaming);
    assert!(!relay(200, &Vec::new()).streaming);
    assert!(relay(u16::MAX, &Vec::new()).headers.is_empty());
}

#[test]
fn plan_sweeps_every_expiry_and_at_least_every_second() {
    let mut settings = args("mem");
    settings.tb_expired = 0;
    assert_eq!(Serve::new(settings).plan().unwrap().sweep_secs, 1);
    let mut settings = args("mem");
    settings.tb_expired = 1;
    assert_eq!(Serve::new(settings).plan().unwrap().sweep_secs, 1);
    let mut settings = args("redis");
    settings.tb_expired = u32::MAX;
    assert_eq!(Serve::new(settings).plan().unwrap().sweep_secs, 4_294_967_295);
}
