//! The data behind the pages of the companion site.

use crate::json::{doc_of, doc_text, parsed, Doc};
use crate::reply::{Reply, ReplyModel, CONTENT_TYPE, JSON, LOCATION};
use crate::session::{Session, SessionModel};
use crate::text::{opt_str, replace, replaced};
use serde_json::Value;
use vstd::prelude::*;
use vstd::string::*;

verus! {

/// The build that the pages belong to.
pub const BUILD_ID: &'static str = "eFlZtDCQUjuHAccnRY3au";

/// Where the pages load their assets from.
pub const ASSET_PREFIX: &'static str = "https://cdn.oaistatic.com";

/// The address that links in upstream data point back to.
pub const CHAT_ORIGIN: &'static str = "https://chat.openai.com";

/// The member of a shared conversation that holds the link to continue it.
pub const CONTINUE_URL: &'static str = "continue_conversation_url";

/// The templates of the pages.
#[derive(Clone, Copy, Debug, PartialEq, Eq, Structural)]
pub enum Template {
    /// The page for what is not there.
    NotFound,
    /// The page that asks for the pre-shared key.
    Auth,
    /// The chat page.
    Chat,
    /// The chat page of one conversation.
    Detail,
    /// The login form.
    Login,
    /// The page of a shared conversation.
    Share,
}

impl Template {
    /// The name of the template's file.
    pub open spec fn name_of(self) -> Seq<char> {
        match self {
            Template::NotFound => "404.htm"@,
            Template::Auth => "auth.htm"@,
            Template::Chat => "chat.htm"@,
            Template::Detail => "detail.htm"@,
            Template::Login => "login.htm"@,
            Template::Share => "share.htm"@,
        }
    }

    /// The name of the template's file.
    pub fn name(self) -> (name: &'static str)
        ensures
            name@ == self.name_of(),
    {
        match self {
            Template::NotFound => "404.htm",
            Template::Auth => "auth.htm",
            Template::Chat => "chat.htm",
            Template::Detail => "detail.htm",
            Template::Login => "login.htm",
            Template::Share => "share.htm",
        }
    }
}

/// What every page is told of its user and of the service.
pub open spec fn page_props(session: SessionModel) -> Doc {
    Doc::empty().with("user"@, session.user()).with("serviceStatus"@, Doc::empty()).with(
        "userCountry"@,
        Doc::Text("US"@),
    ).with("geoOk"@, Doc::Bool(true)).with(
        "serviceAnnouncement"@,
        Doc::empty().with("paid"@, Doc::empty()).with("public"@, Doc::empty()),
    ).with("isUserInCanPayGroup"@, Doc::Bool(true))
}

/// The data of the chat page.
pub open spec fn chat_info(session: SessionModel) -> Doc {
    Doc::empty().with("pageProps"@, page_props(session)).with("__N_SSP"@, Doc::Bool(true))
}

/// What the frame of every page holds besides its own data.
pub open spec fn framed(doc: Doc) -> Doc {
    doc.with("buildId"@, Doc::Text(BUILD_ID@)).with("assetPrefix"@, Doc::Text(ASSET_PREFIX@)).with(
        "isFallback"@,
        Doc::Bool(false),
    ).with("scriptLoader"@, Doc::List(Seq::empty()))
}

/// The query of a page as an object of strings, later values of a name
/// taking the place of earlier ones.
pub open spec fn query_doc(query: Seq<(Seq<char>, Seq<char>)>) -> Doc
    decreases query.len(),
{
    if query.len() == 0 {
        Doc::empty()
    } else {
        query_doc(query.drop_last()).with(query.last().0, Doc::Text(query.last().1))
    }
}

/// The value of the query's `default` for a conversation.
pub open spec fn conversation_query(id: Seq<char>) -> Seq<char> {
    "[c, "@ + id + "]"@
}

/// What the chat page is rendered from: for one conversation the query also
/// names it.
pub open spec fn chat_page(
    session: SessionModel,
    conversation: Option<Seq<char>>,
    query: Seq<(Seq<char>, Seq<char>)>,
) -> Doc {
    framed(
        Doc::empty().with("props"@, chat_info(session)).with(
            "page"@,
            Doc::Text("/[[...default]]"@),
        ).with(
            "query"@,
            match conversation {
                Some(id) => query_doc(query).with("default"@, Doc::Text(conversation_query(id))),
                None => query_doc(query),
            },
        ).with("gssp"@, Doc::Bool(true)),
    )
}

/// What the page for what is not there is rendered from. `initial` says
/// whether the page came from a lookup that found nothing.
pub open spec fn not_found_page(initial: bool) -> Doc {
    framed(
        Doc::empty().with(
            "props"@,
            Doc::empty().with(
                "pageProps"@,
                Doc::empty().with("statusCode"@, Doc::Number("404"@)),
            ),
        ).with("page"@, Doc::Text("/_error"@)).with("query"@, Doc::empty()).with(
            "nextExport"@,
            Doc::Bool(true),
        ).with("gip"@, Doc::Bool(initial)),
    )
}

/// A shared conversation with the link to continue it made relative to this
/// site, where it has such a link.
pub open spec fn localized(share: Doc) -> Doc {
    match share.text_at(CONTINUE_URL@) {
        Some(url) => share.with(
            CONTINUE_URL@,
            Doc::Text(replaced(url, CHAT_ORIGIN@, Seq::empty())),
        ),
        None => share,
    }
}

/// What a page is told of a shared conversation.
pub open spec fn share_props(id: Seq<char>, share: Doc, continued: bool) -> Doc {
    Doc::empty().with("sharedConversationId"@, Doc::Text(id)).with(
        "serverResponse"@,
        Doc::empty().with("type"@, Doc::Text("data"@)).with("data"@, localized(share)),
    ).with("continueMode"@, Doc::Bool(continued)).with("moderationMode"@, Doc::Bool(false))
}

/// The data of the page of a shared conversation.
pub open spec fn share_info(id: Seq<char>, share: Doc) -> Doc {
    Doc::empty().with(
        "pageProps"@,
        share_props(id, share, false).with("chatPageProps"@, Doc::empty()),
    ).with("__N_SSP"@, Doc::Bool(true))
}

/// What the page of a shared conversation is rendered from.
pub open spec fn share_page(id: Seq<char>, share: Doc) -> Doc {
    framed(
        Doc::empty().with("props"@, share_info(id, share)).with(
            "page"@,
            Doc::Text("/share/[[...shareParams]]"@),
        ).with("query"@, Doc::empty().with("shareParams"@, Doc::List(seq![Doc::Text(id)]))).with(
            "gssp"@,
            Doc::Bool(true),
        ),
    )
}

/// The data of a shared conversation that its reader continues: what every
/// page is told, and with it what is told of the conversation.
pub open spec fn share_continue_info(session: SessionModel, id: Seq<char>, share: Doc) -> Doc {
    Doc::empty().with(
        "pageProps"@,
        page_props(session).with("sharedConversationId"@, Doc::Text(id)).with(
            "serverResponse"@,
            Doc::empty().with("type"@, Doc::Text("data"@)).with("data"@, localized(share)),
        ).with("continueMode"@, Doc::Bool(true)).with("moderationMode"@, Doc::Bool(false)).with(
            "chatPageProps"@,
            page_props(session),
        ),
    ).with("__N_SSP"@, Doc::Bool(true))
}

/// The answer for data that is not there.
pub open spec fn not_found_info() -> Doc {
    Doc::empty().with("notFound"@, Doc::Bool(true))
}

/// The account of a session as the page shows it: as the upstream gave it,
/// without a picture.
pub open spec fn account(me: Doc) -> Doc {
    me.with("picture"@, Doc::Null)
}

fn empty_list() -> (value: Value)
    ensures
        doc_of(value) == Doc::List(Seq::empty()),
{
    let none: Vec<Value> = Vec::new();
    assert(none@.map_values(|v: Value| doc_of(v)) =~= Seq::<Doc>::empty());
    crate::json::list(none)
}

/// What every page is told of its user and of the service, as a JSON value.
pub fn page_props_value(session: &Session) -> (value: Value)
    ensures
        doc_of(value) == page_props(session@),
{
    let mut announcement = crate::json::object();
    crate::json::set(&mut announcement, "paid", crate::json::object());
    crate::json::set(&mut announcement, "public", crate::json::object());
    let mut props = crate::json::object();
    crate::json::set(&mut props, "user", session.user_value());
    crate::json::set(&mut props, "serviceStatus", crate::json::object());
    crate::json::set(&mut props, "userCountry", crate::json::text("US"));
    crate::json::set(&mut props, "geoOk", crate::json::boolean(true));
    crate::json::set(&mut props, "serviceAnnouncement", announcement);
    crate::json::set(&mut props, "isUserInCanPayGroup", crate::json::boolean(true));
    props
}

/// The data of the chat page as a JSON value.
pub fn chat_info_value(session: &Session) -> (value: Value)
    ensures
        doc_of(value) == chat_info(session@),
{
    let mut info = crate::json::object();
    crate::json::set(&mut info, "pageProps", page_props_value(session));
    crate::json::set(&mut info, "__N_SSP", crate::json::boolean(true));
    info
}

fn frame(value: &mut Value)
    ensures
        doc_of(*final(value)) == framed(doc_of(*old(value))),
{
    crate::json::set(value, "buildId", crate::json::text(BUILD_ID));
    crate::json::set(value, "assetPrefix", crate::json::text(ASSET_PREFIX));
    crate::json::set(value, "isFallback", crate::json::boolean(false));
    crate::json::set(value, "scriptLoader", empty_list());
}

/// One entry of a query.
pub struct QueryEntry {
    /// The name.
    pub name: String,
    /// The value.
    pub value: String,
}

impl View for QueryEntry {
    type V = (Seq<char>, Seq<char>);

    open spec fn view(&self) -> (Seq<char>, Seq<char>) {
        (self.name@, self.value@)
    }
}

/// The names and values of a query.
pub open spec fn entries(query: Seq<QueryEntry>) -> Seq<(Seq<char>, Seq<char>)> {
    query.map_values(|e: QueryEntry| e@)
}

fn query_value(query: &Vec<QueryEntry>) -> (value: Value)
    ensures
        doc_of(value) == query_doc(entries(query@)),
{
    let mut value = crate::json::object();
    let mut i: usize = 0;
    assert(entries(query@).take(0) =~= Seq::empty());
    while i < query.len()
        invariant
            i <= query.len(),
            doc_of(value) == query_doc(entries(query@).take(i as int)),
        decreases query.len() - i,
    {
        proof {
            let next = entries(query@).take(i + 1);
            assert(next.drop_last() =~= entries(query@).take(i as int));
            assert(next.last() == query@[i as int]@);
        }
        crate::json::set(
            &mut value,
            query[i].name.as_str(),
            crate::json::text(query[i].value.as_str()),
        );
        i += 1;
    }
    assert(entries(query@).take(query.len() as int) =~= entries(query@));
    value
}

/// A page to render: its template, and the value of the variable `props`.
pub struct Page {
    /// The template.
    pub template: Template,
    /// The JSON text that the template is given as `props`.
    pub props: String,
}

/// The template of the chat page and the JSON value that it is rendered
/// from: the page of one conversation where the request names one, else the
/// page of all.
pub fn chat_value(session: &Session, conversation: Option<&str>, query: &Vec<QueryEntry>) -> (made:
    (Template, Value))
    ensures
        made.0 == (if conversation is Some {
            Template::Detail
        } else {
            Template::Chat
        }),
        doc_of(made.1) == chat_page(session@, opt_str(conversation), entries(query@)),
{
    let mut asked = query_value(query);
    let template = match conversation {
        Some(id) => {
            let named = "[c, ".to_owned().concat(id).concat("]");
            crate::json::set(&mut asked, "default", crate::json::text(named.as_str()));
            Template::Detail
        },
        None => Template::Chat,
    };
    let mut props = crate::json::object();
    crate::json::set(&mut props, "props", chat_info_value(session));
    crate::json::set(&mut props, "page", crate::json::text("/[[...default]]"));
    crate::json::set(&mut props, "query", asked);
    crate::json::set(&mut props, "gssp", crate::json::boolean(true));
    frame(&mut props);
    (template, props)
}

/// The chat page for a session: the page of one conversation where the
/// request names one, else the page of all.
pub fn chat(session: &Session, conversation: Option<&str>, query: &Vec<QueryEntry>) -> (page: Page)
    ensures
        page.template == (if conversation is Some {
            Template::Detail
        } else {
            Template::Chat
        }),
        page.props@ == doc_text(chat_page(session@, opt_str(conversation), entries(query@))),
{
    let (template, props) = chat_value(session, conversation, query);
    Page { template, props: crate::json::render(&props) }
}

/// The data of the chat page for a session.
pub fn chat_info_reply(session: &Session) -> (reply: Reply)
    ensures
        reply@ == (ReplyModel {
            status: 200,
            headers: seq![(CONTENT_TYPE@, JSON@)],
            body: doc_text(chat_info(session@)),
        }),
{
    json_reply(&chat_info_value(session), JSON)
}

fn json_reply(value: &Value, content_type: &str) -> (reply: Reply)
    ensures
        reply@ == (ReplyModel {
            status: 200,
            headers: seq![(CONTENT_TYPE@, content_type@)],
            body: doc_text(doc_of(*value)),
        }),
{
    let mut reply = Reply::new(200);
    reply.header(CONTENT_TYPE, content_type.to_owned());
    reply.body(crate::json::render(value));
    assert(reply@.headers =~= seq![(CONTENT_TYPE@, content_type@)]);
    reply
}

/// The JSON value that the page for what is not there is rendered from.
pub fn not_found_value(initial: bool) -> (value: Value)
    ensures
        doc_of(value) == not_found_page(initial),
{
    let mut status = crate::json::object();
    proof {
        reveal_strlit("404");
        assert(crate::text::digits(404) =~= "404"@) by {
            reveal_with_fuel(crate::text::digits, 4);
        }
    }
    crate::json::set(&mut status, "statusCode", crate::json::integer(404));
    let mut inner = crate::json::object();
    crate::json::set(&mut inner, "pageProps", status);
    let mut props = crate::json::object();
    crate::json::set(&mut props, "props", inner);
    crate::json::set(&mut props, "page", crate::json::text("/_error"));
    crate::json::set(&mut props, "query", crate::json::object());
    crate::json::set(&mut props, "nextExport", crate::json::boolean(true));
    crate::json::set(&mut props, "gip", crate::json::boolean(initial));
    frame(&mut props);
    props
}

/// The page for what is not there. `initial` says whether it answers a
/// lookup that found nothing, rather than a path that no route takes.
pub fn not_found(initial: bool) -> (page: Page)
    ensures
        page.template == Template::NotFound,
        page.props@ == doc_text(not_found_page(initial)),
{
    Page { template: Template::NotFound, props: crate::json::render(&not_found_value(initial)) }
}

/// Makes the link to continue a shared conversation relative to this site,
/// where the conversation is an object that holds such a link as a string.
pub fn localize(share: &mut Value)
    ensures
        doc_of(*final(share)) == localized(doc_of(*old(share))),
{
    match crate::json::text_at(share, CONTINUE_URL) {
        Some(url) => {
            proof {
                reveal_strlit("https://chat.openai.com");
                reveal_strlit("");
                assert(""@ =~= Seq::<char>::empty());
            }
            let local = replace(url.as_str(), CHAT_ORIGIN, "");
            crate::json::set(share, CONTINUE_URL, crate::json::text(local.as_str()));
        },
        None => {},
    }
}

/// Sets on `props` what a page is told of the shared conversation `id`: its
/// id, the conversation with its link made local, and whether it is
/// continued.
pub fn share_props_value(id: &str, share: Value, continued: bool, props: &mut Value)
    ensures
        doc_of(*final(props)) == doc_of(*old(props)).with(
            "sharedConversationId"@,
            Doc::Text(id@),
        ).with(
            "serverResponse"@,
            Doc::empty().with("type"@, Doc::Text("data"@)).with("data"@, localized(doc_of(share))),
        ).with("continueMode"@, Doc::Bool(continued)).with("moderationMode"@, Doc::Bool(false)),
{
    let mut share = share;
    localize(&mut share);
    let mut response = crate::json::object();
    crate::json::set(&mut response, "type", crate::json::text("data"));
    crate::json::set(&mut response, "data", share);
    crate::json::set(props, "sharedConversationId", crate::json::text(id));
    crate::json::set(props, "serverResponse", response);
    crate::json::set(props, "continueMode", crate::json::boolean(continued));
    crate::json::set(props, "moderationMode", crate::json::boolean(false));
}

/// The data of the page of the shared conversation `id` as a JSON value.
pub fn share_info_value(id: &str, share: Value) -> (value: Value)
    ensures
        doc_of(value) == share_info(id@, doc_of(share)),
{
    let mut props = crate::json::object();
    share_props_value(id, share, false, &mut props);
    crate::json::set(&mut props, "chatPageProps", crate::json::object());
    let mut info = crate::json::object();
    crate::json::set(&mut info, "pageProps", props);
    crate::json::set(&mut info, "__N_SSP", crate::json::boolean(true));
    info
}

/// The JSON value that the page of the shared conversation `id` is rendered
/// from, given the conversation as the upstream answered it.
pub fn share_page_value(id: &str, share: Value) -> (value: Value)
    ensures
        doc_of(value) == share_page(id@, doc_of(share)),
{
    let mut params: Vec<Value> = Vec::new();
    params.push(crate::json::text(id));
    assert(params@.map_values(|v: Value| doc_of(v)) =~= seq![Doc::Text(id@)]);
    let mut query = crate::json::object();
    crate::json::set(&mut query, "shareParams", crate::json::list(params));
    let mut props = crate::json::object();
    crate::json::set(&mut props, "props", share_info_value(id, share));
    crate::json::set(&mut props, "page", crate::json::text("/share/[[...shareParams]]"));
    crate::json::set(&mut props, "query", query);
    crate::json::set(&mut props, "gssp", crate::json::boolean(true));
    frame(&mut props);
    props
}

/// The page of the shared conversation `id`, from the body that the upstream
/// answered with: the page for what is not there where the body is no JSON.
pub fn share(id: &str, body: &[u8]) -> (page: Page)
    ensures
        match parsed(body@) {
            Some(share) => page.template == Template::Share && page.props@ == doc_text(
                share_page(id@, share),
            ),
            None => page.template == Template::NotFound && page.props@ == doc_text(
                not_found_page(true),
            ),
        },
{
    match crate::json::parse(body) {
        Some(share) => Page {
            template: Template::Share,
            props: crate::json::render(&share_page_value(id, share)),
        },
        None => not_found(true),
    }
}

/// The id of a shared conversation as the path of its data names it: the
/// last segment without `.json`.
pub fn share_id(segment: &str) -> (id: String)
    ensures
        id@ == replaced(segment@, ".json"@, Seq::empty()),
{
    proof {
        reveal_strlit(".json");
        reveal_strlit("");
        assert(""@ =~= Seq::<char>::empty());
    }
    replace(segment, ".json", "")
}

fn not_found_reply(content_type: &str) -> (reply: Reply)
    ensures
        reply@ == (ReplyModel {
            status: 200,
            headers: seq![(CONTENT_TYPE@, content_type@)],
            body: doc_text(not_found_info()),
        }),
{
    let mut info = crate::json::object();
    crate::json::set(&mut info, "notFound", crate::json::boolean(true));
    json_reply(&info, content_type)
}

/// The data of the shared conversation that the path segment names, from the
/// body that the upstream answered with.
pub fn share_info_reply(segment: &str, body: &[u8]) -> (reply: Reply)
    ensures
        reply@.status == 200,
        reply@.headers == seq![(CONTENT_TYPE@, JSON@)],
        reply@.body == doc_text(
            match parsed(body@) {
                Some(share) => share_info(replaced(segment@, ".json"@, Seq::empty()), share),
                None => not_found_info(),
            },
        ),
{
    let id = share_id(segment);
    match crate::json::parse(body) {
        Some(share) => json_reply(&share_info_value(id.as_str(), share), JSON),
        None => not_found_reply(JSON),
    }
}

/// Sends the browser from the link to continue a shared conversation to the
/// conversation itself.
pub fn share_continue_reply(id: &str) -> (reply: Reply)
    ensures
        reply@ == (ReplyModel {
            status: 308,
            headers: seq![(LOCATION@, "/share/"@ + id@)],
            body: Seq::empty(),
        }),
{
    let mut reply = Reply::new(308);
    reply.header(LOCATION, "/share/".to_owned().concat(id));
    assert(reply@.headers =~= seq![(LOCATION@, "/share/"@ + id@)]);
    reply
}

/// The data of the shared conversation `id` for the session that continues
/// it, as a JSON value, given the conversation as the upstream answered it.
pub fn share_continue_info_value(session: &Session, id: &str, share: Value) -> (value: Value)
    ensures
        doc_of(value) == share_continue_info(session@, id@, doc_of(share)),
{
    let mut props = page_props_value(session);
    share_props_value(id, share, true, &mut props);
    crate::json::set(&mut props, "chatPageProps", page_props_value(session));
    let mut info = crate::json::object();
    crate::json::set(&mut info, "pageProps", props);
    crate::json::set(&mut info, "__N_SSP", crate::json::boolean(true));
    info
}

/// The data of the shared conversation `id` for the session that continues
/// it, from the body that the upstream answered with. Data that is not there
/// is answered under the content type `same-origin`.
pub fn share_continue_info_reply(session: &Session, id: &str, body: &[u8]) -> (reply: Reply)
    ensures
        reply@.status == 200,
        match parsed(body@) {
            Some(share) => reply@.headers == seq![(CONTENT_TYPE@, JSON@)] && reply@.body
                == doc_text(share_continue_info(session@, id@, share)),
            None => reply@.headers == seq![(CONTENT_TYPE@, "same-origin"@)] && reply@.body
                == doc_text(not_found_info()),
        },
{
    match crate::json::parse(body) {
        Some(share) => json_reply(&share_continue_info_value(session, id, share), JSON),
        None => not_found_reply("same-origin"),
    }
}

/// The account of the session as the page shows it, given the account as the
/// upstream answered it: the same without its picture.
pub fn account_value(me: Value) -> (shown: Value)
    ensures
        doc_of(shown) == account(doc_of(me)),
{
    let mut me = me;
    crate::json::set(&mut me, "picture", crate::json::null());
    me
}

/// The account of the session from the body that the upstream answered with:
/// the JSON text of the account without its picture, or nothing where the
/// body is no JSON and is handed on as it came.
pub fn account_body(body: &[u8]) -> (text: Option<String>)
    ensures
        match parsed(body@) {
            Some(me) => text matches Some(t) && t@ == doc_text(account(me)),
            None => text is None,
        },
{
    match crate::json::parse(body) {
        Some(me) => Some(crate::json::render(&account_value(me))),
        None => None,
    }
}

/// A rendered page as an answer.
pub fn html_reply(html: String) -> (reply: Reply)
    ensures
        reply@ == (ReplyModel {
            status: 200,
            headers: seq![(CONTENT_TYPE@, "text/html; charset=utf-8"@)],
            body: html@,
        }),
{
    let mut reply = Reply::new(200);
    reply.header(CONTENT_TYPE, "text/html; charset=utf-8".to_owned());
    reply.body(html);
    assert(reply@.headers =~= seq![(CONTENT_TYPE@, "text/html; charset=utf-8"@)]);
    reply
}

/// Sends the browser to the start page.
pub fn home_reply() -> (reply: Reply)
    ensures
        reply@ == (ReplyModel {
            status: 302,
            headers: seq![(LOCATION@, "/"@)],
            body: Seq::empty(),
        }),
{
    let mut reply = Reply::new(302);
    reply.header(LOCATION, "/".to_owned());
    assert(reply@.headers =~= seq![(LOCATION@, "/"@)]);
    reply
}

/// What every template is told of the site's settings, as names and values.
pub open spec fn settings(
    has_auth_key: bool,
    has_preauth_cookie: bool,
    site_key: Option<Seq<char>>,
    arkose_endpoint: Option<Seq<char>>,
) -> Seq<(Seq<char>, Seq<char>)> {
    (if has_auth_key {
        Seq::<(Seq<char>, Seq<char>)>::empty()
    } else {
        seq![("auth_key"@, "false"@)]
    }) + (if has_preauth_cookie {
        seq![("support_apple"@, "true"@)]
    } else {
        Seq::<(Seq<char>, Seq<char>)>::empty()
    }) + (match site_key {
        Some(key) => seq![("site_key"@, key)],
        None => Seq::<(Seq<char>, Seq<char>)>::empty(),
    }) + (match arkose_endpoint {
        Some(endpoint) => seq![("arkose_endpoint"@, endpoint)],
        None => Seq::<(Seq<char>, Seq<char>)>::empty(),
    })
}

/// What every template is told of the site's settings: that no pre-shared
/// key guards the login, that a cookie of the intercepting proxy is at hand,
/// the site key of the challenge, and where the puzzle is fetched from.
pub fn template_settings(
    has_auth_key: bool,
    has_preauth_cookie: bool,
    site_key: Option<&str>,
    arkose_endpoint: Option<&str>,
) -> (told: Vec<QueryEntry>)
    ensures
        entries(told@) == settings(
            has_auth_key,
            has_preauth_cookie,
            opt_str(site_key),
            opt_str(arkose_endpoint),
        ),
{
    let mut told: Vec<QueryEntry> = Vec::new();
    assert(entries(told@) =~= Seq::empty());
    if !has_auth_key {
        let ghost before = entries(told@);
        let entry = QueryEntry { name: "auth_key".to_owned(), value: "false".to_owned() };
        told.push(entry);
        assert(entries(told@) =~= before.push(entry@));
    }
    if has_preauth_cookie {
        let ghost before = entries(told@);
        let entry = QueryEntry { name: "support_apple".to_owned(), value: "true".to_owned() };
        told.push(entry);
        assert(entries(told@) =~= before.push(entry@));
    }
    match site_key {
        Some(key) => {
            let ghost before = entries(told@);
            let entry = QueryEntry { name: "site_key".to_owned(), value: key.to_owned() };
            told.push(entry);
            assert(entries(told@) =~= before.push(entry@));
        },
        None => {},
    }
    match arkose_endpoint {
        Some(endpoint) => {
            let ghost before = entries(told@);
            let entry = QueryEntry {
                name: "arkose_endpoint".to_owned(),
                value: endpoint.to_owned(),
            };
            told.push(entry);
            assert(entries(told@) =~= before.push(entry@));
        },
        None => {},
    }
    assert(entries(told@) =~= settings(
        has_auth_key,
        has_preauth_cookie,
        opt_str(site_key),
        opt_str(arkose_endpoint),
    ));
    told
}

} // verus!
