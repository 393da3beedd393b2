//! The dispatch pipeline: authorization, parsing, routing, logging.

use router_bot::{
    dispatch, log_line, AuthFilter, Command, DispatchDecision, InboundMessage, MessageSender,
    UserId, UserWhitelist,
};

fn msg(from: Option<u64>, text: Option<&str>) -> InboundMessage {
    InboundMessage {
        from: from.map(|id| MessageSender {
            id: UserId::new(id),
            username: None,
        }),
        text: text.map(|t| t.to_string()),
    }
}

#[test]
fn unauthorized_user_gets_no_response() {
    let auth = UserWhitelist::from_iter(vec![1, 2]);
    for text in [
        Some("/ping"),
        Some("/status"),
        Some("/wifi"),
        Some("/clients"),
        Some("/help"),
        Some("anything at all"),
        Some(""),
        None,
    ] {
        assert_eq!(dispatch(&msg(Some(99), text), &auth), DispatchDecision::Rejected);
    }
}

#[test]
fn message_without_sender_is_rejected() {
    let auth = UserWhitelist::from_iter(vec![1, 2]);
    assert_eq!(dispatch(&msg(None, Some("/ping")), &auth), DispatchDecision::Rejected);
    assert_eq!(dispatch(&msg(None, None), &auth), DispatchDecision::Rejected);
}

#[test]
fn authorized_commands_reach_their_handler() {
    let auth = UserWhitelist::from_iter(vec![7]);
    let cases = [
        ("/ping", Command::Ping),
        ("/status", Command::Status),
        ("/wifi", Command::Wifi),
        ("/clients", Command::Clients),
        ("/help", Command::Help),
        ("/PING", Command::Ping),
        ("/Status", Command::Status),
        ("/WiFi", Command::Wifi),
        ("/CLIENTS", Command::Clients),
        ("/hElP", Command::Help),
    ];
    for (text, cmd) in cases {
        assert_eq!(dispatch(&msg(Some(7), Some(text)), &auth), DispatchDecision::Dispatch(cmd));
    }
}

#[test]
fn authorized_non_command_is_ignored() {
    let auth = UserWhitelist::from_iter(vec![7]);
    for text in [
        Some("hello"),
        Some("/unknown"),
        Some("/ping extra"),
        Some("ping"),
        Some("//ping"),
        Some(""),
        Some("/"),
        None,
    ] {
        assert_eq!(dispatch(&msg(Some(7), text), &auth), DispatchDecision::Ignored);
    }
}

#[test]
fn whitelist_admits_exactly_its_users() {
    let auth = UserWhitelist::from_iter(vec![1, 2, 2]);
    assert!(auth.is_allowed(UserId::new(1)));
    assert!(auth.is_allowed(UserId::new(2)));
    assert!(!auth.is_allowed(UserId::new(3)));
    assert!(!auth.is_allowed(UserId::new(0)));
}

#[test]
fn whitelist_from_set() {
    let mut set = std::collections::HashSet::new();
    set.insert(5u64);
    let auth = UserWhitelist::new(set);
    assert!(auth.is_allowed(UserId::new(5)));
    assert!(!auth.is_allowed(UserId::new(6)));
}

#[test]
fn log_line_records_sender_and_text() {
    let m = InboundMessage {
        from: Some(MessageSender {
            id: UserId::new(42),
            username: Some("alice".to_string()),
        }),
        text: Some("/status".to_string()),
    };
    assert_eq!(log_line(&m).unwrap(), "user 42 (alice) Command: /status");
}

#[test]
fn log_line_defaults_for_missing_parts() {
    let m = msg(Some(42), None);
    assert_eq!(log_line(&m).unwrap(), "user 42 (unknown) Command: [no text]");
    assert!(log_line(&msg(None, Some("/ping"))).is_none());
}
