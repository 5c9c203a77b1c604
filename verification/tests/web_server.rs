use c9watch::web_server::assets::{embedded_response, serve_embedded_file, serve_static_fallback};
use c9watch::web_server::gate::{gate_remote, is_loopback_peer, GateDecision, PeerIp};
use c9watch::web_server::protocol::{
    handle_message, resume_message, value_or_null, Action, ActionOutcome, ClientMsg, Next,
    ServerMsg,
};
use c9watch::web_server::socket::{
    handle_socket, invalid_message, notification, sessions_updated, ws_handler, ClientFrame,
    SocketAction, SocketEvent, WsDecision, WsQuery,
};
use c9watch::web_server::{health, info, listen_address, Response, WS_PORT};
use serde_json::Value;

const LOCALHOST_V6: PeerIp = PeerIp::V6([0, 0, 0, 0, 0, 0, 0, 1]);

/// `::ffff:a.b.c.d`
fn mapped(a: u16, b: u16, c: u16, d: u16) -> PeerIp {
    PeerIp::V6([0, 0, 0, 0, 0, 0xffff, a << 8 | b, c << 8 | d])
}

#[test]
fn ipv4_loopback_is_loopback() {
    assert!(is_loopback_peer(PeerIp::V4([127, 0, 0, 1])));
    assert!(is_loopback_peer(PeerIp::V4([127, 0, 0, 5])));
}

#[test]
fn ipv6_loopback_is_loopback() {
    assert!(is_loopback_peer(LOCALHOST_V6));
}

#[test]
fn ipv4_mapped_loopback_is_loopback() {
    // Dual-stack [::] sockets surface localhost IPv4 clients as
    // ::ffff:127.0.0.1; these must still count as loopback.
    assert!(is_loopback_peer(mapped(127, 0, 0, 1)));
}

#[test]
fn lan_addresses_are_not_loopback() {
    assert!(!is_loopback_peer(PeerIp::V4([192, 168, 1, 50])));
    assert!(!is_loopback_peer(PeerIp::V4([10, 0, 0, 1])));
    assert!(!is_loopback_peer(mapped(192, 168, 1, 50)));
}

#[test]
fn other_ipv6_addresses_are_not_loopback() {
    // ::127.0.0.1 is IPv4-compatible, not IPv4-mapped.
    assert!(!is_loopback_peer(PeerIp::V6([0, 0, 0, 0, 0, 0, 0x7f00, 1])));
    assert!(!is_loopback_peer(PeerIp::V6([0; 8])));
    assert!(!is_loopback_peer(PeerIp::V6([1, 0, 0, 0, 0, 0, 0, 1])));
    assert!(!is_loopback_peer(PeerIp::V6([0xfe80, 0, 0, 0, 0, 0xffff, 0x7f00, 1])));
}

#[test]
fn gate_serves_loopback_and_enabled_remotes_only() {
    let lan = PeerIp::V4([192, 168, 1, 50]);
    assert!(matches!(gate_remote(LOCALHOST_V6, false), GateDecision::Forward));
    assert!(matches!(gate_remote(mapped(127, 0, 0, 1), false), GateDecision::Forward));
    assert!(matches!(gate_remote(LOCALHOST_V6, true), GateDecision::Forward));
    assert!(matches!(gate_remote(lan, true), GateDecision::Forward));
    match gate_remote(lan, false) {
        GateDecision::Refuse(Response::Text { status, body }) => {
            assert_eq!(status, 403);
            assert_eq!(body, "Remote access is disabled. Enable it in c9watch Settings.");
        }
        other => panic!("{:?}", other),
    }
}

fn query(token: Option<&str>) -> WsQuery {
    WsQuery { token: token.map(|t| t.to_string()) }
}

#[test]
fn only_the_auth_token_opens_a_socket() {
    let auth = "secret".to_string();
    assert!(matches!(ws_handler(&query(Some("secret")), &auth), WsDecision::Upgrade));
    for token in [None, Some(""), Some("Secret"), Some("secret ")] {
        match ws_handler(&query(token), &auth) {
            WsDecision::Refuse(Response::Text { status, body }) => {
                assert_eq!(status, 401);
                assert_eq!(body, "Invalid or missing token");
            }
            other => panic!("{:?}", other),
        }
    }
}

#[test]
fn server_describes_itself() {
    assert_eq!(health(), "ok");
    let about = info("1.2.3");
    assert_eq!(about.name, "c9watch");
    assert_eq!(about.version, "1.2.3");
    assert_eq!(listen_address(WS_PORT), "[::]:9210");
    assert_eq!(listen_address(0), "[::]:0");
    assert_eq!(listen_address(u16::MAX), "[::]:65535");
}

#[test]
fn static_paths_lose_leading_slashes() {
    assert_eq!(serve_static_fallback("/"), "index.html");
    assert_eq!(serve_static_fallback(""), "index.html");
    assert_eq!(serve_static_fallback("///"), "index.html");
    assert_eq!(serve_static_fallback("/_app/start.js"), "_app/start.js");
    assert_eq!(serve_static_fallback("//a//b/"), "a//b/");
    assert_eq!(serve_static_fallback("/\u{e9}/x"), "\u{e9}/x");
    assert_eq!(serve_static_fallback("index.html"), "index.html");
}

fn file(response: Response) -> (String, Vec<u8>) {
    match response {
        Response::File { content_type, data } => (content_type, data),
        other => panic!("{:?}", other),
    }
}

#[test]
fn assets_come_with_their_media_type() {
    let served = |path: &str| file(serve_embedded_file(path, Some(vec![1, 2]), Some(vec![3])));
    assert_eq!(served("index.html"), ("text/html".to_string(), vec![1, 2]));
    assert_eq!(served("img/logo.png"), ("image/png".to_string(), vec![1, 2]));
    assert_eq!(served("LICENSE"), ("application/octet-stream".to_string(), vec![1, 2]));
    assert_eq!(served("x.unknownext"), ("application/octet-stream".to_string(), vec![1, 2]));
}

#[test]
fn unmatched_routes_get_the_start_page() {
    let page = file(serve_embedded_file("some/route.css", None, Some(vec![3])));
    assert_eq!(page, ("text/html".to_string(), vec![3]));
    match serve_embedded_file("some/route", None, None) {
        Response::Text { status, body } => {
            assert_eq!(status, 404);
            assert_eq!(body, "Not found");
        }
        other => panic!("{:?}", other),
    }
    let given = file(embedded_response("a/b".to_string(), Some(vec![9]), None));
    assert_eq!(given, ("a/b".to_string(), vec![9]));
}

fn json(text: &str) -> Value {
    serde_json::from_str(text).unwrap()
}

fn reply(outcome: ActionOutcome) -> ServerMsg {
    match resume_message(outcome) {
        Next::Reply(msg) => msg,
        other => panic!("{:?}", other),
    }
}

fn text(s: &str) -> String {
    s.to_string()
}

#[test]
fn messages_ask_for_their_actions() {
    assert!(matches!(handle_message(ClientMsg::GetSessions), Action::DetectSessions));
    assert!(matches!(handle_message(ClientMsg::GetMemoryFiles), Action::ReadMemoryFiles));
    assert!(matches!(
        handle_message(ClientMsg::StopSession { pid: 7 }),
        Action::StopSession { pid: 7 }
    ));
    match handle_message(ClientMsg::GetConversation { session_id: text("s") }) {
        Action::ReadConversation { session_id } => assert_eq!(session_id, "s"),
        other => panic!("{:?}", other),
    }
    match handle_message(ClientMsg::OpenSession { pid: 8, project_path: text("/p") }) {
        Action::OpenSession { pid, project_path } => {
            assert_eq!(pid, 8);
            assert_eq!(project_path, "/p");
        }
        other => panic!("{:?}", other),
    }
}

#[test]
fn renaming_writes_both_titles() {
    let msg = ClientMsg::RenameSession { session_id: text("s"), new_name: text("n") };
    let (session_id, new_name) = match handle_message(msg) {
        Action::WriteNativeTitle { session_id, new_name } => (session_id, new_name),
        other => panic!("{:?}", other),
    };
    assert_eq!((session_id.as_str(), new_name.as_str()), ("s", "n"));
    match resume_message(ActionOutcome::NativeTitleWritten { session_id, new_name }) {
        Next::Perform(Action::SaveCustomTitle { session_id, new_name }) => {
            assert_eq!((session_id.as_str(), new_name.as_str()), ("s", "n"));
        }
        other => panic!("{:?}", other),
    }
    assert!(matches!(reply(ActionOutcome::CustomTitleSaved(Ok(()))), ServerMsg::Done));
}

#[test]
fn results_are_sent_back() {
    let found = || Ok(Some(json("[1]")));
    match reply(ActionOutcome::SessionsDetected(found())) {
        ServerMsg::Sessions { data } => assert_eq!(data, json("[1]")),
        other => panic!("{:?}", other),
    }
    match reply(ActionOutcome::ConversationRead(found())) {
        ServerMsg::Conversation { data } => assert_eq!(data, json("[1]")),
        other => panic!("{:?}", other),
    }
    match reply(ActionOutcome::MemoryFilesRead(Ok(None))) {
        ServerMsg::MemoryFiles { data } => assert_eq!(data, Value::Null),
        other => panic!("{:?}", other),
    }
    assert!(matches!(reply(ActionOutcome::SessionStopped(Ok(()))), ServerMsg::Done));
    assert!(matches!(reply(ActionOutcome::SessionOpened(Ok(()))), ServerMsg::Done));
}

#[test]
fn failures_reach_the_client() {
    let failures = vec![
        ActionOutcome::SessionsDetected(Err(text("why"))),
        ActionOutcome::ConversationRead(Err(text("why"))),
        ActionOutcome::MemoryFilesRead(Err(text("why"))),
        ActionOutcome::SessionStopped(Err(text("why"))),
        ActionOutcome::SessionOpened(Err(text("why"))),
        ActionOutcome::CustomTitleSaved(Err(text("why"))),
    ];
    for failure in failures {
        match reply(failure) {
            ServerMsg::Error { message } => assert_eq!(message, "why"),
            other => panic!("{:?}", other),
        }
    }
}

fn sent(event: SocketEvent) -> ServerMsg {
    match handle_socket(event) {
        SocketAction::Send(msg) => msg,
        other => panic!("{:?}", other),
    }
}

#[test]
fn published_json_is_pushed() {
    match sent(SocketEvent::SessionsPublished(text("{\"a\": [1, 2]}"))) {
        ServerMsg::SessionsUpdated { data } => assert_eq!(data, json("{\"a\":[1,2]}")),
        other => panic!("{:?}", other),
    }
    match sent(SocketEvent::NotificationPublished(text("\"hi\""))) {
        ServerMsg::Notification { data } => assert_eq!(data, Value::String(text("hi"))),
        other => panic!("{:?}", other),
    }
    match sent(SocketEvent::SessionsPublished(text("not json"))) {
        ServerMsg::SessionsUpdated { data } => assert_eq!(data, Value::Null),
        other => panic!("{:?}", other),
    }
    match sessions_updated(Some(json("3"))) {
        ServerMsg::SessionsUpdated { data } => assert_eq!(data, json("3")),
        other => panic!("{:?}", other),
    }
    match notification(None) {
        ServerMsg::Notification { data } => assert_eq!(data, json("null")),
        other => panic!("{:?}", other),
    }
    assert_eq!(value_or_null(None), json("null"));
}

#[test]
fn frames_are_answered() {
    match handle_socket(SocketEvent::Received(ClientFrame::Text(Ok(ClientMsg::GetSessions)))) {
        SocketAction::Act(Action::DetectSessions) => {}
        other => panic!("{:?}", other),
    }
    match sent(SocketEvent::Received(ClientFrame::Text(Err(text("bad"))))) {
        ServerMsg::Error { message } => assert_eq!(message, "Invalid message: bad"),
        other => panic!("{:?}", other),
    }
    match invalid_message("") {
        ServerMsg::Error { message } => assert_eq!(message, "Invalid message: "),
        other => panic!("{:?}", other),
    }
    match handle_socket(SocketEvent::Received(ClientFrame::Ping(vec![1, 2, 3]))) {
        SocketAction::Pong(data) => assert_eq!(data, vec![1, 2, 3]),
        other => panic!("{:?}", other),
    }
    assert!(matches!(
        handle_socket(SocketEvent::Received(ClientFrame::Other)),
        SocketAction::Wait
    ));
    assert!(matches!(sent(SocketEvent::Acted(ActionOutcome::SessionStopped(Ok(())))), ServerMsg::Done));
}

#[test]
fn closing_ends_and_failed_sends_stop_the_connection() {
    let stops = vec![
        SocketEvent::Received(ClientFrame::Close),
        SocketEvent::Received(ClientFrame::End),
        SocketEvent::Sent { delivered: false },
    ];
    for event in stops {
        assert!(matches!(handle_socket(event), SocketAction::Stop));
    }
    assert!(matches!(
        handle_socket(SocketEvent::Sent { delivered: true }),
        SocketAction::Wait
    ));
}
