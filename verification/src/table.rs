//! The table of routes that the server answers.

use vstd::prelude::*;

verus! {

/// The methods that a route answers.
#[derive(Clone, Copy, Debug, PartialEq, Eq, Structural)]
pub enum Method {
    /// Every method.
    Any,
    /// `GET` only.
    Get,
    /// `POST` only.
    Post,
}

/// What stands before a route's handler.
#[derive(Clone, Copy, Debug, PartialEq, Eq, Structural)]
pub enum Guard {
    /// Nothing.
    Open,
    /// The credential check, then the limiter.
    Credential,
    /// The issue of a CSRF token.
    CsrfIssue,
    /// The issue and the check of a CSRF token.
    CsrfCheck,
}

/// What answers a route.
#[derive(Clone, Copy, Debug, PartialEq, Eq, Structural)]
pub enum Handler {
    /// Forwards to the platform API.
    OfficialProxy,
    /// Forwards to the chat API.
    UnofficialProxy,
    /// Logs in and hands out an access token.
    AccessToken,
    /// Exchanges a refresh token.
    RefreshToken,
    /// Revokes a refresh token.
    RevokeToken,
    /// Exchanges the upstream's session cookie for a session token.
    ApiSession,
    /// The page that asks for the pre-shared key.
    AuthPage,
    /// The login form.
    LoginPage,
    /// Logs in from the login form.
    Login,
    /// Logs in with an access token.
    LoginToken,
    /// Logs out.
    Logout,
    /// The session of the page, renewed where it is close to its end.
    PageSession,
    /// The account of the session.
    AuthMe,
    /// The chat page.
    Chat,
    /// Sends the browser to the start page.
    RedirectHome,
    /// A shared conversation.
    ShareChat,
    /// Sends the browser to the shared conversation.
    ShareChatContinue,
    /// The data of the chat page.
    ChatInfo,
    /// The data of a shared conversation.
    ShareChatInfo,
    /// The data of a shared conversation that is continued.
    ShareChatContinueInfo,
    /// A file of the page.
    StaticResource,
}

/// One line of the table.
#[derive(Debug)]
pub struct Route {
    /// The path, where `*name` stands for the rest of a path and `:name` for
    /// one segment.
    pub pattern: String,
    /// The methods answered.
    pub method: Method,
    /// What answers.
    pub handler: Handler,
    /// What stands before the handler.
    pub guard: Guard,
}

/// One line of the table, as a value of mathematics.
pub struct RouteModel {
    /// The path pattern.
    pub pattern: Seq<char>,
    /// The methods answered.
    pub method: Method,
    /// What answers.
    pub handler: Handler,
    /// What stands before the handler.
    pub guard: Guard,
}

impl View for Route {
    type V = RouteModel;

    open spec fn view(&self) -> RouteModel {
        RouteModel {
            pattern: self.pattern@,
            method: self.method,
            handler: self.handler,
            guard: self.guard,
        }
    }
}

/// The lines of a table.
pub open spec fn lines(routes: Seq<Route>) -> Seq<RouteModel> {
    routes.map_values(|r: Route| r@)
}

/// One line.
pub open spec fn line(pattern: Seq<char>, method: Method, handler: Handler, guard: Guard)
    -> RouteModel {
    RouteModel { pattern, method, handler, guard }
}

/// The routes of the API: the four proxied groups, of which all but the
/// public one are guarded, and the endpoints for tokens and sessions.
pub open spec fn api_lines() -> Seq<RouteModel> {
    seq![
        line("/dashboard/*path"@, Method::Any, Handler::OfficialProxy, Guard::Credential),
        line("/v1/*path"@, Method::Any, Handler::OfficialProxy, Guard::Credential),
        line("/backend-api/*path"@, Method::Any, Handler::UnofficialProxy, Guard::Credential),
        line("/public-api/*path"@, Method::Any, Handler::UnofficialProxy, Guard::Open),
        line("/auth/token"@, Method::Post, Handler::AccessToken, Guard::Open),
        line("/auth/refresh_token"@, Method::Post, Handler::RefreshToken, Guard::Open),
        line("/auth/revoke_token"@, Method::Post, Handler::RevokeToken, Guard::Open),
        line("/api/auth/session"@, Method::Get, Handler::ApiSession, Guard::Open),
    ]
}

/// The routes of the login pages. The page that asks for the pre-shared key
/// exists only where no key is configured.
pub open spec fn login_lines(has_auth_key: bool) -> Seq<RouteModel> {
    (if has_auth_key {
        Seq::<RouteModel>::empty()
    } else {
        seq![line("/auth"@, Method::Get, Handler::AuthPage, Guard::CsrfIssue)]
    }) + seq![
        line("/auth/login"@, Method::Post, Handler::Login, Guard::CsrfCheck),
        line("/auth/login"@, Method::Get, Handler::LoginPage, Guard::CsrfIssue),
        line("/auth/login/token"@, Method::Post, Handler::LoginToken, Guard::Open),
        line("/auth/logout"@, Method::Get, Handler::Logout, Guard::Open),
        line("/auth/session"@, Method::Get, Handler::PageSession, Guard::Open),
        line("/auth/me"@, Method::Get, Handler::AuthMe, Guard::Open),
    ]
}

/// The routes of the chat pages and of their data.
pub open spec fn page_lines() -> Seq<RouteModel> {
    seq![
        line("/"@, Method::Get, Handler::Chat, Guard::Open),
        line("/c"@, Method::Get, Handler::Chat, Guard::Open),
        line("/c/:conversation_id"@, Method::Get, Handler::Chat, Guard::Open),
        line("/chat"@, Method::Any, Handler::RedirectHome, Guard::Open),
        line("/chat/:conversation_id"@, Method::Any, Handler::RedirectHome, Guard::Open),
        line("/share/e/:share_id"@, Method::Get, Handler::ShareChat, Guard::Open),
        line("/share/:share_id"@, Method::Get, Handler::ShareChat, Guard::Open),
        line("/share/:share_id/continue"@, Method::Get, Handler::ShareChatContinue, Guard::Open),
        line(
            "/_next/data/eFlZtDCQUjuHAccnRY3au/index.json"@,
            Method::Get,
            Handler::ChatInfo,
            Guard::Open,
        ),
        line(
            "/_next/data/eFlZtDCQUjuHAccnRY3au/c/:conversation_id"@,
            Method::Get,
            Handler::ChatInfo,
            Guard::Open,
        ),
        line(
            "/_next/data/eFlZtDCQUjuHAccnRY3au/share/:share_id"@,
            Method::Get,
            Handler::ShareChatInfo,
            Guard::Open,
        ),
        line(
            "/_next/data/eFlZtDCQUjuHAccnRY3au/share/:share_id/continue.json"@,
            Method::Get,
            Handler::ShareChatContinueInfo,
            Guard::Open,
        ),
    ]
}

/// The routes of the files that the pages load.
pub open spec fn file_lines() -> Seq<RouteModel> {
    seq![
        line("/resources/*path"@, Method::Get, Handler::StaticResource, Guard::Open),
        line("/_next/static/*path"@, Method::Get, Handler::StaticResource, Guard::Open),
        line("/fonts/*path"@, Method::Get, Handler::StaticResource, Guard::Open),
        line("/ulp/*path"@, Method::Get, Handler::StaticResource, Guard::Open),
        line("/sweetalert2/*path"@, Method::Get, Handler::StaticResource, Guard::Open),
    ]
}

/// The whole table: the API, and behind it the pages unless they are
/// switched off.
pub open spec fn table_lines(disable_ui: bool, has_auth_key: bool) -> Seq<RouteModel> {
    if disable_ui {
        api_lines()
    } else {
        api_lines() + login_lines(has_auth_key) + page_lines() + file_lines()
    }
}

fn add(routes: &mut Vec<Route>, pattern: &str, method: Method, handler: Handler, guard: Guard)
    ensures
        lines(final(routes)@) == lines(old(routes)@).push(line(pattern@, method, handler, guard)),
{
    let route = Route { pattern: pattern.to_owned(), method, handler, guard };
    routes.push(route);
    assert(lines(routes@) =~= lines(old(routes)@).push(route@));
}

fn api_routes(routes: &mut Vec<Route>)
    ensures
        lines(final(routes)@) == lines(old(routes)@) + api_lines(),
{
    self::add(routes, "/dashboard/*path", Method::Any, Handler::OfficialProxy, Guard::Credential);
    self::add(routes, "/v1/*path", Method::Any, Handler::OfficialProxy, Guard::Credential);
    self::add(
        routes,
        "/backend-api/*path",
        Method::Any,
        Handler::UnofficialProxy,
        Guard::Credential,
    );
    self::add(routes, "/public-api/*path", Method::Any, Handler::UnofficialProxy, Guard::Open);
    self::add(routes, "/auth/token", Method::Post, Handler::AccessToken, Guard::Open);
    self::add(routes, "/auth/refresh_token", Method::Post, Handler::RefreshToken, Guard::Open);
    self::add(routes, "/auth/revoke_token", Method::Post, Handler::RevokeToken, Guard::Open);
    self::add(routes, "/api/auth/session", Method::Get, Handler::ApiSession, Guard::Open);
    assert(lines(routes@) =~= lines(old(routes)@) + api_lines());
}

fn login_routes(routes: &mut Vec<Route>, has_auth_key: bool)
    ensures
        lines(final(routes)@) == lines(old(routes)@) + login_lines(has_auth_key),
{
    if !has_auth_key {
        self::add(routes, "/auth", Method::Get, Handler::AuthPage, Guard::CsrfIssue);
    }
    self::add(routes, "/auth/login", Method::Post, Handler::Login, Guard::CsrfCheck);
    self::add(routes, "/auth/login", Method::Get, Handler::LoginPage, Guard::CsrfIssue);
    self::add(routes, "/auth/login/token", Method::Post, Handler::LoginToken, Guard::Open);
    self::add(routes, "/auth/logout", Method::Get, Handler::Logout, Guard::Open);
    self::add(routes, "/auth/session", Method::Get, Handler::PageSession, Guard::Open);
    self::add(routes, "/auth/me", Method::Get, Handler::AuthMe, Guard::Open);
    assert(lines(routes@) =~= lines(old(routes)@) + login_lines(has_auth_key));
}

fn page_routes(routes: &mut Vec<Route>)
    ensures
        lines(final(routes)@) == lines(old(routes)@) + page_lines(),
{
    self::add(routes, "/", Method::Get, Handler::Chat, Guard::Open);
    self::add(routes, "/c", Method::Get, Handler::Chat, Guard::Open);
    self::add(routes, "/c/:conversation_id", Method::Get, Handler::Chat, Guard::Open);
    self::add(routes, "/chat", Method::Any, Handler::RedirectHome, Guard::Open);
    self::add(routes, "/chat/:conversation_id", Method::Any, Handler::RedirectHome, Guard::Open);
    self::add(routes, "/share/e/:share_id", Method::Get, Handler::ShareChat, Guard::Open);
    self::add(routes, "/share/:share_id", Method::Get, Handler::ShareChat, Guard::Open);
    self::add(
        routes,
        "/share/:share_id/continue",
        Method::Get,
        Handler::ShareChatContinue,
        Guard::Open,
    );
    self::add(
        routes,
        "/_next/data/eFlZtDCQUjuHAccnRY3au/index.json",
        Method::Get,
        Handler::ChatInfo,
        Guard::Open,
    );
    self::add(
        routes,
        "/_next/data/eFlZtDCQUjuHAccnRY3au/c/:conversation_id",
        Method::Get,
        Handler::ChatInfo,
        Guard::Open,
    );
    self::add(
        routes,
        "/_next/data/eFlZtDCQUjuHAccnRY3au/share/:share_id",
        Method::Get,
        Handler::ShareChatInfo,
        Guard::Open,
    );
    self::add(
        routes,
        "/_next/data/eFlZtDCQUjuHAccnRY3au/share/:share_id/continue.json",
        Method::Get,
        Handler::ShareChatContinueInfo,
        Guard::Open,
    );
    assert(lines(routes@) =~= lines(old(routes)@) + page_lines());
}

fn file_routes(routes: &mut Vec<Route>)
    ensures
        lines(final(routes)@) == lines(old(routes)@) + file_lines(),
{
    self::add(routes, "/resources/*path", Method::Get, Handler::StaticResource, Guard::Open);
    self::add(routes, "/_next/static/*path", Method::Get, Handler::StaticResource, Guard::Open);
    self::add(routes, "/fonts/*path", Method::Get, Handler::StaticResource, Guard::Open);
    self::add(routes, "/ulp/*path", Method::Get, Handler::StaticResource, Guard::Open);
    self::add(routes, "/sweetalert2/*path", Method::Get, Handler::StaticResource, Guard::Open);
    assert(lines(routes@) =~= lines(old(routes)@) + file_lines());
}

/// The table of routes for a server whose pages are switched off or on, and
/// whose login is guarded by a pre-shared key or not.
pub fn route_table(disable_ui: bool, has_auth_key: bool) -> (routes: Vec<Route>)
    ensures
        lines(routes@) == table_lines(disable_ui, has_auth_key),
{
    let mut routes: Vec<Route> = Vec::new();
    assert(lines(routes@) =~= Seq::<RouteModel>::empty());
    api_routes(&mut routes);
    if !disable_ui {
        login_routes(&mut routes, has_auth_key);
        page_routes(&mut routes);
        file_routes(&mut routes);
    }
    assert(lines(routes@) =~= table_lines(disable_ui, has_auth_key));
    routes
}

} // verus!
