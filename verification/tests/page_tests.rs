use openai::json::parse;
use openai::page::{
    account_body, account_value, chat, chat_info_reply, chat_info_value, chat_value, home_reply,
    html_reply, localize, not_found, not_found_value, page_props_value, share,
    share_continue_info_reply, share_continue_info_value, share_continue_reply, share_id,
    share_info_reply, share_info_value, share_page_value, share_props_value, template_settings,
    QueryEntry, Template, BUILD_ID,
};
use openai::session::Session;

const USER: &str = "{\"email\":\"a@b.c\",\"groups\":[],\"id\":\"user-1\",\"image\":null,\
                    \"name\":\"a@b.c\",\"picture\":null}";

fn page_session() -> Session {
    Session {
        access_token: "tok".to_string(),
        user_id: "user-1".to_string(),
        email: "a@b.c".to_string(),
        expires: 1_700_000_000,
        refresh_token: None,
        auth_session: None,
    }
}

fn page_props() -> String {
    format!(
        "{{\"geoOk\":true,\"isUserInCanPayGroup\":true,\
         \"serviceAnnouncement\":{{\"paid\":{{}},\"public\":{{}}}},\"serviceStatus\":{{}},\
         \"user\":{},\"userCountry\":\"US\"}}",
        USER
    )
}

fn entry(name: &str, value: &str) -> QueryEntry {
    QueryEntry { name: name.to_string(), value: value.to_string() }
}

#[test]
fn template_names() {
    assert_eq!(Template::NotFound.name(), "404.htm");
    assert_eq!(Template::Auth.name(), "auth.htm");
    assert_eq!(Template::Chat.name(), "chat.htm");
    assert_eq!(Template::Detail.name(), "detail.htm");
    assert_eq!(Template::Login.name(), "login.htm");
    assert_eq!(Template::Share.name(), "share.htm");
    assert_eq!(BUILD_ID, "eFlZtDCQUjuHAccnRY3au");
}

#[test]
fn chat_page_of_all_conversations() {
    let page = chat(&page_session(), None, &vec![entry("model", "gpt-4")]);
    assert_eq!(page.template, Template::Chat);
    assert_eq!(
        page.props,
        format!(
            "{{\"assetPrefix\":\"https://cdn.oaistatic.com\",\
             \"buildId\":\"eFlZtDCQUjuHAccnRY3au\",\"gssp\":true,\"isFallback\":false,\
             \"page\":\"/[[...default]]\",\
             \"props\":{{\"__N_SSP\":true,\"pageProps\":{}}},\
             \"query\":{{\"model\":\"gpt-4\"}},\"scriptLoader\":[]}}",
            page_props()
        )
    );
}

#[test]
fn chat_page_of_one_conversation_names_it_in_the_query() {
    let query = vec![entry("a", "1"), entry("default", "x"), entry("a", "2")];
    let page = chat(&page_session(), Some("c-42"), &query);
    assert_eq!(page.template, Template::Detail);
    let read: serde_json::Value = serde_json::from_str(&page.props).unwrap();
    assert_eq!(read["query"].to_string(), "{\"a\":\"2\",\"default\":\"[c, c-42]\"}");
    assert_eq!(read["props"]["pageProps"]["user"]["id"].as_str(), Some("user-1"));
    let bare = chat(&page_session(), Some(""), &Vec::new());
    let read: serde_json::Value = serde_json::from_str(&bare.props).unwrap();
    assert_eq!(read["query"].to_string(), "{\"default\":\"[c, ]\"}");
    let none = chat(&page_session(), None, &Vec::new());
    let read: serde_json::Value = serde_json::from_str(&none.props).unwrap();
    assert_eq!(read["query"].to_string(), "{}");
}

#[test]
fn chat_info_is_the_page_props() {
    let reply = chat_info_reply(&page_session());
    assert_eq!(reply.status, 200);
    assert_eq!(reply.headers.len(), 1);
    assert_eq!(reply.headers[0].name, "content-type");
    assert_eq!(reply.headers[0].value, "application/json");
    assert_eq!(reply.body, format!("{{\"__N_SSP\":true,\"pageProps\":{}}}", page_props()));
}

#[test]
fn not_found_page_props() {
    let page = not_found(true);
    assert_eq!(page.template, Template::NotFound);
    assert_eq!(
        page.props,
        "{\"assetPrefix\":\"https://cdn.oaistatic.com\",\"buildId\":\"eFlZtDCQUjuHAccnRY3au\",\
         \"gip\":true,\"isFallback\":false,\"nextExport\":true,\"page\":\"/_error\",\
         \"props\":{\"pageProps\":{\"statusCode\":404}},\"query\":{},\"scriptLoader\":[]}"
    );
    let fallback = not_found(false);
    assert!(fallback.props.contains("\"gip\":false"));
    assert!(fallback.props.contains("\"statusCode\":404"));
}

#[test]
fn share_page_makes_the_continue_link_local() {
    let body = b"{\"title\":\"t\",\"continue_conversation_url\":\
                 \"https://chat.openai.com/share/abc/continue\"}";
    let page = share("abc", body);
    assert_eq!(page.template, Template::Share);
    assert_eq!(
        page.props,
        "{\"assetPrefix\":\"https://cdn.oaistatic.com\",\"buildId\":\"eFlZtDCQUjuHAccnRY3au\",\
         \"gssp\":true,\"isFallback\":false,\"page\":\"/share/[[...shareParams]]\",\
         \"props\":{\"__N_SSP\":true,\"pageProps\":{\"chatPageProps\":{},\"continueMode\":false,\
         \"moderationMode\":false,\"serverResponse\":{\"data\":{\
         \"continue_conversation_url\":\"/share/abc/continue\",\"title\":\"t\"},\
         \"type\":\"data\"},\"sharedConversationId\":\"abc\"}},\
         \"query\":{\"shareParams\":[\"abc\"]},\"scriptLoader\":[]}"
    );
}

#[test]
fn share_page_of_what_is_no_json_is_not_found() {
    for body in [&b"<html>"[..], b"", b"{", b"{} {}"] {
        let page = share("abc", body);
        assert_eq!(page.template, Template::NotFound);
        assert_eq!(page.props, not_found(true).props);
    }
}

#[test]
fn share_data_that_is_no_object_is_left_alone() {
    let page = share("abc", b"[1, 2.5, \"https://chat.openai.com\"]");
    assert_eq!(page.template, Template::Share);
    let read: serde_json::Value = serde_json::from_str(&page.props).unwrap();
    assert_eq!(
        read["props"]["pageProps"]["serverResponse"]["data"].to_string(),
        "[1,2.5,\"https://chat.openai.com\"]"
    );
}

#[test]
fn continue_link_that_is_no_string_is_left_alone() {
    let reply = share_info_reply("abc", b"{\"continue_conversation_url\": 7}");
    assert!(reply.body.contains("\"continue_conversation_url\":7"));
}

#[test]
fn every_origin_in_the_continue_link_is_taken_out() {
    let body = b"{\"continue_conversation_url\":\
                 \"https://chat.openai.comhttps://chat.openai.com/x?u=https://chat.openai.com\"}";
    let reply = share_info_reply("abc", body);
    assert!(reply.body.contains("\"continue_conversation_url\":\"/x?u=\""));
}

#[test]
fn share_id_drops_the_json_suffix() {
    assert_eq!(share_id("abc.json"), "abc");
    assert_eq!(share_id("abc"), "abc");
    assert_eq!(share_id("a.json.json"), "a");
    assert_eq!(share_id(".jso.jsonn"), ".json");
    assert_eq!(share_id(""), "");
    assert_eq!(share_id("é.json✓"), "é✓");
}

#[test]
fn share_info_reply_of_data() {
    let reply = share_info_reply("abc.json", b"{\"title\":\"t\"}");
    assert_eq!(reply.status, 200);
    assert_eq!(reply.headers.len(), 1);
    assert_eq!(reply.headers[0].name, "content-type");
    assert_eq!(reply.headers[0].value, "application/json");
    assert_eq!(
        reply.body,
        "{\"__N_SSP\":true,\"pageProps\":{\"chatPageProps\":{},\"continueMode\":false,\
         \"moderationMode\":false,\"serverResponse\":{\"data\":{\"title\":\"t\"},\
         \"type\":\"data\"},\"sharedConversationId\":\"abc\"}}"
    );
}

#[test]
fn share_info_reply_of_nothing() {
    let reply = share_info_reply("abc.json", b"not json");
    assert_eq!(reply.status, 200);
    assert_eq!(reply.headers[0].value, "application/json");
    assert_eq!(reply.body, "{\"notFound\":true}");
}

#[test]
fn share_continue_redirects_to_the_share() {
    let reply = share_continue_reply("abc");
    assert_eq!(reply.status, 308);
    assert_eq!(reply.headers.len(), 1);
    assert_eq!(reply.headers[0].name, "location");
    assert_eq!(reply.headers[0].value, "/share/abc");
    assert_eq!(reply.body, "");
}

#[test]
fn share_continue_info_joins_page_and_share() {
    let reply = share_continue_info_reply(&page_session(), "abc", b"{\"title\":\"t\"}");
    assert_eq!(reply.status, 200);
    assert_eq!(reply.headers[0].value, "application/json");
    assert_eq!(
        reply.body,
        format!(
            "{{\"__N_SSP\":true,\"pageProps\":{{\"chatPageProps\":{props},\"continueMode\":true,\
             \"geoOk\":true,\"isUserInCanPayGroup\":true,\"moderationMode\":false,\
             \"serverResponse\":{{\"data\":{{\"title\":\"t\"}},\"type\":\"data\"}},\
             \"serviceAnnouncement\":{{\"paid\":{{}},\"public\":{{}}}},\"serviceStatus\":{{}},\
             \"sharedConversationId\":\"abc\",\"user\":{user},\"userCountry\":\"US\"}}}}",
            props = page_props(),
            user = USER
        )
    );
}

#[test]
fn share_continue_info_of_nothing_has_its_own_content_type() {
    let reply = share_continue_info_reply(&page_session(), "abc", b"");
    assert_eq!(reply.status, 200);
    assert_eq!(reply.headers[0].name, "content-type");
    assert_eq!(reply.headers[0].value, "same-origin");
    assert_eq!(reply.body, "{\"notFound\":true}");
}

#[test]
fn account_loses_its_picture() {
    assert_eq!(
        account_body(b"{\"picture\":\"http://x/y.png\",\"id\":\"u\"}").unwrap(),
        "{\"id\":\"u\",\"picture\":null}"
    );
    assert_eq!(account_body(b"{\"id\":\"u\"}").unwrap(), "{\"id\":\"u\",\"picture\":null}");
    assert_eq!(account_body(b"[1]").unwrap(), "[1]");
    assert_eq!(account_body(b"\"text\"").unwrap(), "\"text\"");
    assert_eq!(account_body(b" null ").unwrap(), "null");
    assert!(account_body(b"<html>").is_none());
    assert!(account_body(b"").is_none());
}

#[test]
fn plain_replies() {
    let reply = html_reply("<p>hi</p>".to_string());
    assert_eq!(reply.status, 200);
    assert_eq!(reply.headers[0].name, "content-type");
    assert_eq!(reply.headers[0].value, "text/html; charset=utf-8");
    assert_eq!(reply.body, "<p>hi</p>");
    let reply = home_reply();
    assert_eq!(reply.status, 302);
    assert_eq!(reply.headers[0].name, "location");
    assert_eq!(reply.headers[0].value, "/");
}

#[test]
fn templates_are_told_the_settings() {
    let told = |a, b, c, d| -> Vec<(String, String)> {
        template_settings(a, b, c, d).into_iter().map(|e| (e.name, e.value)).collect()
    };
    assert!(told(true, false, None, None).is_empty());
    assert_eq!(told(false, false, None, None), vec![("auth_key".to_string(), "false".to_string())]);
    assert_eq!(
        told(false, true, Some("site"), Some("https://arkose")),
        vec![
            ("auth_key".to_string(), "false".to_string()),
            ("support_apple".to_string(), "true".to_string()),
            ("site_key".to_string(), "site".to_string()),
            ("arkose_endpoint".to_string(), "https://arkose".to_string()),
        ]
    );
    assert_eq!(
        told(true, true, None, Some("e")),
        vec![
            ("support_apple".to_string(), "true".to_string()),
            ("arkose_endpoint".to_string(), "e".to_string()),
        ]
    );
}

#[test]
fn parsing_reads_one_document_or_nothing() {
    assert_eq!(parse(b" {\"a\": [1, true, null]} ").unwrap().to_string(), "{\"a\":[1,true,null]}");
    assert_eq!(parse(b"{\"a\":1,\"a\":2}").unwrap().to_string(), "{\"a\":2}");
    assert!(parse(b"").is_none());
    assert!(parse(b"{} x").is_none());
    assert!(parse(&[0xff]).is_none());
}

#[test]
fn link_is_made_local_on_the_value() {
    let mut share = parse(b"{\"continue_conversation_url\":\"https://chat.openai.com/s/1\"}").unwrap();
    localize(&mut share);
    assert_eq!(share.to_string(), "{\"continue_conversation_url\":\"/s/1\"}");
    let mut other = parse(b"{\"continue_conversation_url\":null,\"x\":\"https://chat.openai.com\"}").unwrap();
    localize(&mut other);
    assert_eq!(
        other.to_string(),
        "{\"continue_conversation_url\":null,\"x\":\"https://chat.openai.com\"}"
    );
    let mut list = parse(b"[\"https://chat.openai.com\"]").unwrap();
    localize(&mut list);
    assert_eq!(list.to_string(), "[\"https://chat.openai.com\"]");
}

#[test]
fn values_are_what_the_texts_are_rendered_from() {
    let session = page_session();
    assert_eq!(page_props_value(&session).to_string(), page_props());
    assert_eq!(chat_info_value(&session).to_string(), chat_info_reply(&session).body);
    let query = vec![entry("model", "gpt-4")];
    let (template, value) = chat_value(&session, Some("c1"), &query);
    assert_eq!(template, Template::Detail);
    assert_eq!(value.to_string(), chat(&session, Some("c1"), &query).props);
    assert_eq!(not_found_value(false).to_string(), not_found(false).props);
    let body = b"{\"title\":\"t\",\"continue_conversation_url\":\"https://chat.openai.com/x\"}";
    assert_eq!(
        share_page_value("abc", parse(body).unwrap()).to_string(),
        share("abc", body).props
    );
    assert_eq!(
        share_info_value("abc", parse(body).unwrap()).to_string(),
        share_info_reply("abc.json", body).body
    );
    assert_eq!(
        share_continue_info_value(&session, "abc", parse(body).unwrap()).to_string(),
        share_continue_info_reply(&session, "abc", body).body
    );
    assert_eq!(
        account_value(parse(b"{\"picture\":1}").unwrap()).to_string(),
        account_body(b"{\"picture\":1}").unwrap()
    );
}

#[test]
fn share_props_are_set_on_what_is_there() {
    let mut props = parse(b"{\"kept\":1,\"continueMode\":\"old\"}").unwrap();
    share_props_value("id-1", parse(b"{\"t\":2}").unwrap(), true, &mut props);
    assert_eq!(
        props.to_string(),
        "{\"continueMode\":true,\"kept\":1,\"moderationMode\":false,\
         \"serverResponse\":{\"data\":{\"t\":2},\"type\":\"data\"},\
         \"sharedConversationId\":\"id-1\"}"
    );
}
