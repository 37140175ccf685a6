use stock_aggregator::session::{stats_reply, ClientEvent, ClientJson, Session, SessionAction};

fn subs(session: &Session) -> Vec<String> {
    let mut v = session.subscriptions().clone();
    v.sort();
    v
}

fn text(session: &mut Session, t: &str) -> SessionAction {
    session.on_client_event(ClientEvent::Text(t.to_string()))
}

#[test]
fn new_session_receives_every_update() {
    let s = Session::new();
    assert!(s.subscriptions().is_empty());
    assert!(s.wants(&"AAPL".to_string()));
    assert!(s.wants(&"anything".to_string()));
}

#[test]
fn subscribe_message_sets_subscriptions() {
    let mut s = Session::new();
    let a = text(&mut s, r#"{"action":"subscribe","symbols":["AAPL","MSFT"]}"#);
    assert_eq!(a, SessionAction::Continue);
    assert_eq!(subs(&s), vec!["AAPL".to_string(), "MSFT".to_string()]);
    assert!(s.wants(&"AAPL".to_string()));
    assert!(s.wants(&"MSFT".to_string()));
    assert!(!s.wants(&"GOOGL".to_string()));
}

#[test]
fn subscribe_replaces_previous_subscriptions() {
    let mut s = Session::new();
    text(&mut s, r#"{"action":"subscribe","symbols":["AAPL","MSFT"]}"#);
    text(&mut s, r#"{"action":"subscribe","symbols":["GOOGL"]}"#);
    assert_eq!(subs(&s), vec!["GOOGL".to_string()]);
    assert!(!s.wants(&"AAPL".to_string()));
}

#[test]
fn subscribe_skips_non_strings_and_repeats() {
    let mut s = Session::new();
    text(&mut s, r#"{"action":"subscribe","symbols":["AAPL",3,null,"AAPL",{"x":1},"TSLA"]}"#);
    assert_eq!(s.subscriptions().len(), 2);
    assert_eq!(subs(&s), vec!["AAPL".to_string(), "TSLA".to_string()]);
}

#[test]
fn subscribe_with_empty_list_receives_everything() {
    let mut s = Session::new();
    text(&mut s, r#"{"action":"subscribe","symbols":["AAPL"]}"#);
    text(&mut s, r#"{"action":"subscribe","symbols":[]}"#);
    assert!(s.subscriptions().is_empty());
    assert!(s.wants(&"MSFT".to_string()));
}

#[test]
fn other_messages_keep_subscriptions() {
    let mut s = Session::new();
    text(&mut s, r#"{"action":"subscribe","symbols":["AAPL"]}"#);
    for msg in [
        "hello",
        "{not json",
        r#"{"action":"unsubscribe","symbols":["MSFT"]}"#,
        r#"{"action":"subscribe","symbols":"MSFT"}"#,
        r#"{"action":"subscribe"}"#,
        r#"["subscribe"]"#,
        r#"{"action":1,"symbols":["MSFT"]}"#,
    ] {
        assert_eq!(text(&mut s, msg), SessionAction::Continue);
        assert_eq!(subs(&s), vec!["AAPL".to_string()]);
    }
}

#[test]
fn stats_command_asks_for_report() {
    let mut s = Session::new();
    text(&mut s, r#"{"action":"subscribe","symbols":["AAPL"]}"#);
    assert_eq!(text(&mut s, "/stats"), SessionAction::ReportStats);
    assert_eq!(subs(&s), vec!["AAPL".to_string()]);
    assert_eq!(text(&mut s, "/stats "), SessionAction::Continue);
}

#[test]
fn closing_events_disconnect() {
    let mut s = Session::new();
    assert_eq!(s.on_client_event(ClientEvent::Close), SessionAction::Disconnect);
    assert_eq!(s.on_client_event(ClientEvent::StreamEnded), SessionAction::Disconnect);
    assert_eq!(s.on_client_event(ClientEvent::ReceiveError), SessionAction::Disconnect);
    assert_eq!(s.on_client_event(ClientEvent::Other), SessionAction::Continue);
}

#[test]
fn apply_client_json_directly() {
    let mut s = Session::new();
    s.apply_client_json(&ClientJson {
        action: Some("subscribe".to_string()),
        symbols: Some(vec![Some("MSFT".to_string()), None, Some("MSFT".to_string())]),
    });
    assert_eq!(subs(&s), vec!["MSFT".to_string()]);
    s.apply_client_json(&ClientJson { action: Some("subscribe".to_string()), symbols: None });
    assert_eq!(subs(&s), vec!["MSFT".to_string()]);
    s.apply_client_json(&ClientJson {
        action: Some("Subscribe".to_string()),
        symbols: Some(vec![Some("AAPL".to_string())]),
    });
    assert_eq!(subs(&s), vec!["MSFT".to_string()]);
    s.apply_client_json(&ClientJson { action: None, symbols: Some(vec![]) });
    assert_eq!(subs(&s), vec!["MSFT".to_string()]);
}

#[test]
fn repeated_subscribe_is_same_as_once() {
    let mut once = Session::new();
    let mut twice = Session::new();
    let msg = r#"{"action":"subscribe","symbols":["MSFT","AAPL"]}"#;
    text(&mut once, msg);
    text(&mut twice, msg);
    text(&mut twice, msg);
    assert_eq!(subs(&once), subs(&twice));
}

#[test]
fn stats_reply_text() {
    assert_eq!(stats_reply(0), "Active clients: 0");
    assert_eq!(stats_reply(3), "Active clients: 3");
    assert_eq!(stats_reply(1207), "Active clients: 1207");
}
