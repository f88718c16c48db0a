use openai::preauth::{read_cookie, Action, Capture, CertCache, Event, Forging, Stage};
use openai::sni::{sniff, sniff_host};

fn hello(extensions: &[u8], session_id: &[u8]) -> Vec<u8> {
    let mut body = Vec::new();
    body.extend_from_slice(&[3, 3]);
    body.extend_from_slice(&[7u8; 32]);
    body.push(session_id.len() as u8);
    body.extend_from_slice(session_id);
    body.extend_from_slice(&[0, 4, 0x13, 0x01, 0x13, 0x02]);
    body.extend_from_slice(&[1, 0]);
    body.extend_from_slice(&(extensions.len() as u16).to_be_bytes());
    body.extend_from_slice(extensions);
    let mut message = vec![1u8];
    message.extend_from_slice(&(body.len() as u32).to_be_bytes()[1..]);
    message.extend_from_slice(&body);
    let mut record = vec![22u8, 3, 1];
    record.extend_from_slice(&(message.len() as u16).to_be_bytes());
    record.extend_from_slice(&message);
    record
}

fn extension(kind: u16, data: &[u8]) -> Vec<u8> {
    let mut out = kind.to_be_bytes().to_vec();
    out.extend_from_slice(&(data.len() as u16).to_be_bytes());
    out.extend_from_slice(data);
    out
}

fn server_name(host: &[u8]) -> Vec<u8> {
    let mut list = vec![0u8];
    list.extend_from_slice(&(host.len() as u16).to_be_bytes());
    list.extend_from_slice(host);
    let mut data = (list.len() as u16).to_be_bytes().to_vec();
    data.extend_from_slice(&list);
    extension(0, &data)
}

#[test]
fn connection_walks_through_its_stages() {
    let mut stage = Stage::Listening;
    let mut actions = Vec::new();
    for _ in 0..7 {
        let (next, action) = stage.advance(Event::Done);
        stage = next;
        actions.push(action);
    }
    assert_eq!(stage, Stage::Relaying);
    assert_eq!(
        actions,
        vec![
            Action::PeekSni,
            Action::Forge,
            Action::Handshake,
            Action::StartRelay,
            Action::Relay,
            Action::Relay,
            Action::Relay,
        ]
    );
    assert_eq!(stage.advance(Event::Eof), (Stage::Closed, Action::Close));
}

#[test]
fn failure_and_shutdown_close_at_every_stage() {
    let stages = [
        Stage::Listening,
        Stage::Accepted,
        Stage::SniSniffed,
        Stage::CertForged,
        Stage::TlsEstablished,
        Stage::Relaying,
    ];
    for stage in stages {
        for event in [Event::Failed, Event::Eof, Event::Shutdown] {
            assert_eq!(stage.advance(event), (Stage::Closed, Action::Close));
        }
    }
    for event in [Event::Done, Event::Failed, Event::Eof, Event::Shutdown] {
        assert_eq!(Stage::Closed.advance(event), (Stage::Closed, Action::Nothing));
    }
}

#[test]
fn cookie_value_is_read_up_to_the_first_semicolon() {
    assert_eq!(read_cookie("c=v; Path=/; Secure", "c").as_deref(), Some("v"));
    assert_eq!(read_cookie("c=v", "c").as_deref(), Some("v"));
    assert_eq!(read_cookie("c=", "c").as_deref(), Some(""));
    assert_eq!(read_cookie("c=;x", "c").as_deref(), Some(""));
    assert_eq!(read_cookie("c=a=b;x", "c").as_deref(), Some("a=b"));
    assert_eq!(read_cookie("cc=v", "c"), None);
    assert_eq!(read_cookie("c", "c"), None);
    assert_eq!(read_cookie(" c=v", "c"), None);
    assert_eq!(read_cookie("é=ü✓; x", "é").as_deref(), Some("ü✓"));
    assert_eq!(read_cookie("=v", "").as_deref(), Some("v"));
}

#[test]
fn cookie_is_captured_once() {
    let mut capture = Capture::new("_devicecheck".to_string());
    assert_eq!(capture.value(), None);
    assert_eq!(capture.observe("other=1; Path=/"), None);
    assert_eq!(capture.value(), None);
    assert_eq!(capture.observe("_devicecheck=first; Path=/").as_deref(), Some("first"));
    assert_eq!(capture.value(), Some("first"));
    assert_eq!(capture.observe("_devicecheck=second; Path=/"), None);
    assert_eq!(capture.observe("other=1"), None);
    assert_eq!(capture.value(), Some("first"));
}

#[test]
fn certificate_is_forged_once_per_host() {
    let mut cache = CertCache::new();
    assert_eq!(cache.plan("a.example"), Forging::Sign);
    assert!(cache.get("a.example").is_none());
    assert!(cache.store("a.example", vec![1, 2], vec![3]));
    assert_eq!(cache.plan("a.example"), Forging::Reuse);
    assert_eq!(cache.plan("b.example"), Forging::Sign);
    assert!(!cache.store("a.example", vec![9], vec![9]));
    let held = cache.get("a.example").unwrap();
    assert_eq!(held.certificate(), &vec![1, 2]);
    assert_eq!(held.private_key(), &vec![3]);
    assert!(cache.store("b.example", vec![5], vec![6]));
    assert_eq!(cache.get("b.example").unwrap().certificate(), &vec![5]);
    assert_eq!(cache.get("a.example").unwrap().certificate(), &vec![1, 2]);
    assert!(cache.get("A.example").is_none());
}

#[test]
fn server_name_is_read_from_a_hello() {
    let bytes = hello(&server_name(b"chat.example.com"), &[]);
    assert_eq!(sniff(&bytes), Some(b"chat.example.com".to_vec()));
    assert_eq!(sniff_host(&bytes).as_deref(), Some("chat.example.com"));
}

#[test]
fn server_name_is_found_behind_other_extensions() {
    let mut extensions = extension(10, &[0, 2, 0, 29]);
    extensions.extend_from_slice(&extension(0xff01, &[0]));
    extensions.extend_from_slice(&server_name(b"a.b"));
    extensions.extend_from_slice(&server_name(b"second"));
    let bytes = hello(&extensions, &[9u8; 32]);
    assert_eq!(sniff_host(&bytes).as_deref(), Some("a.b"));
    let mut longer = bytes.clone();
    longer.extend_from_slice(&[1, 2, 3, 4, 5]);
    assert_eq!(sniff_host(&longer).as_deref(), Some("a.b"));
}

#[test]
fn hello_without_server_name_gives_none() {
    assert_eq!(sniff(&hello(&[], &[])), None);
    assert_eq!(sniff(&hello(&extension(10, &[0, 2, 0, 29]), &[])), None);
    assert_eq!(sniff(&hello(&extension(0, &[]), &[])), None);
    assert_eq!(sniff(&hello(&extension(0, &[0, 3, 1, 0, 0]), &[])), None);
    assert_eq!(sniff(&hello(&extension(0, &[0, 4, 0, 0, 2, b'a']), &[])), None);
    assert_eq!(sniff(&hello(&extension(0, &[0, 3, 0, 0, 0]), &[])), Some(Vec::new()));
}

#[test]
fn truncated_hello_gives_none() {
    let bytes = hello(&server_name(b"chat.example.com"), &[1, 2, 3]);
    for cut in 0..bytes.len() {
        assert_eq!(sniff(&bytes[..cut]), None);
    }
    assert!(sniff(&bytes).is_some());
}

#[test]
fn other_records_give_none() {
    let mut bytes = hello(&server_name(b"h"), &[]);
    bytes[0] = 23;
    assert_eq!(sniff(&bytes), None);
    let mut bytes = hello(&server_name(b"h"), &[]);
    bytes[5] = 2;
    assert_eq!(sniff(&bytes), None);
    assert_eq!(sniff(&[]), None);
    assert_eq!(sniff(&[22u8; 44]), None);
    assert_eq!(sniff(&[255u8; 600]), None);
}

#[test]
fn server_name_that_is_no_text_gives_no_host() {
    let bytes = hello(&server_name(&[0xff, 0xfe]), &[]);
    assert_eq!(sniff(&bytes), Some(vec![0xff, 0xfe]));
    assert_eq!(sniff_host(&bytes), None);
    let bytes = hello(&server_name("ü.example".as_bytes()), &[]);
    assert_eq!(sniff_host(&bytes).as_deref(), Some("ü.example"));
}
