use kabaw_chat::client::submit;
use kabaw_chat::client::ChatView;
use kabaw_chat::message::classify;
use kabaw_chat::message::ServerEvent;
use kabaw_chat::message::ServerMessage;
use kabaw_chat::frame::assemble;
use kabaw_chat::frame::decode_frame;
use kabaw_chat::frame::encode_frame;
use kabaw_chat::frame::frame_around;
use kabaw_chat::frame::JsonMember;
use kabaw_chat::network::network_step;
use kabaw_chat::network::NetAction;
use kabaw_chat::network::NetEvent;
use kabaw_chat::render::relay_step;
use kabaw_chat::render::render_event;
use kabaw_chat::render::render_event_now;
use kabaw_chat::render::DisplayLine;
use kabaw_chat::render::LineStyle;
use kabaw_chat::render::RelayAction;
use kabaw_chat::render::RelayEvent;
use kabaw_chat::render::CLOCK_PATTERN;
use kabaw_chat::session::SessionController;

fn wire(kind: &str, content: &str) -> ServerMessage {
    ServerMessage {
        kind: kind.to_string(),
        username: None,
        user_id: None,
        content: content.to_string(),
        timestamp: None,
        channel: None,
    }
}

#[test]
fn classify_sorts_by_tag() {
    let mut m = wire("user_connected", "ignored");
    m.user_id = Some("7".to_string());
    m.channel = Some("rust".to_string());
    assert_eq!(
        classify(m),
        ServerEvent::Connected {
            user_id: Some("7".to_string()),
            channel: "rust".to_string()
        }
    );
    assert_eq!(
        classify(wire("user_connected", "")),
        ServerEvent::Connected {
            user_id: None,
            channel: "General".to_string()
        }
    );
    assert_eq!(
        classify(wire("system", "maintenance at noon")),
        ServerEvent::SystemNotice {
            text: "maintenance at noon".to_string()
        }
    );
    let mut m = wire("message", "hi");
    m.username = Some("bob".to_string());
    m.timestamp = Some("10:00:00".to_string());
    assert_eq!(
        classify(m),
        ServerEvent::ChatMessage {
            username: "bob".to_string(),
            timestamp: Some("10:00:00".to_string()),
            text: "hi".to_string()
        }
    );
    assert_eq!(
        classify(wire("message", "hi")),
        ServerEvent::ChatMessage {
            username: "Anon".to_string(),
            timestamp: None,
            text: "hi".to_string()
        }
    );
}

#[test]
fn classify_keeps_unknown_tags() {
    for tag in ["foo", "", "Message", "system ", "user_connected2"] {
        assert_eq!(
            classify(wire(tag, "payload")),
            ServerEvent::Unknown {
                raw: "payload".to_string()
            },
            "{}",
            tag
        );
    }
}

#[test]
fn chat_message_shows_its_content() {
    let mut m = wire("message", "hi");
    m.username = Some("bob".to_string());
    m.timestamp = Some("09:15:00".to_string());
    let lines = render_event(&classify(m), "alice", "00:00:00");
    assert_eq!(
        lines,
        vec![DisplayLine {
            style: LineStyle::Secondary,
            text: "bob [09:15:00] > hi\n".to_string()
        }]
    );
    assert!(lines[0].text.contains("hi"));
}

#[test]
fn own_chat_message_is_plain() {
    let mut m = wire("message", "hi");
    m.username = Some("alice".to_string());
    m.timestamp = Some("09:15:00".to_string());
    assert_eq!(
        render_event(&classify(m), "alice", "00:00:00"),
        vec![DisplayLine {
            style: LineStyle::Plain,
            text: "You [09:15:00] > hi\n".to_string()
        }]
    );
}

#[test]
fn missing_timestamp_takes_the_given_time() {
    let mut m = wire("message", "hi");
    m.username = Some("bob".to_string());
    assert_eq!(
        render_event(&classify(m), "alice", "23:59:59"),
        vec![DisplayLine {
            style: LineStyle::Secondary,
            text: "bob [23:59:59] > hi\n".to_string()
        }]
    );
    assert_eq!(
        render_event(&classify(wire("message", "hi")), "Anon", "23:59:59"),
        vec![DisplayLine {
            style: LineStyle::Plain,
            text: "You [23:59:59] > hi\n".to_string()
        }]
    );
}

#[test]
fn missing_timestamp_reads_the_clock() {
    let mut m = wire("message", "hi");
    m.username = Some("bob".to_string());
    let lines = render_event_now(&classify(m), "alice");
    assert_eq!(lines.len(), 1);
    assert_eq!(lines[0].style, LineStyle::Secondary);
    let text = &lines[0].text;
    assert!(text.starts_with("bob ["));
    assert!(text.ends_with("] > hi\n"));
    let stamp = &text["bob [".len()..text.len() - "] > hi\n".len()];
    assert_eq!(stamp.len(), 8);
    let bytes = stamp.as_bytes();
    for (i, b) in bytes.iter().enumerate() {
        if i == 2 || i == 5 {
            assert_eq!(*b, b':');
        } else {
            assert!(b.is_ascii_digit());
        }
    }
    assert_eq!(CLOCK_PATTERN, "%H:%M:%S");
}

#[test]
fn given_timestamp_needs_no_clock() {
    let mut m = wire("message", "hi");
    m.username = Some("bob".to_string());
    m.timestamp = Some("yesterday".to_string());
    assert_eq!(
        render_event_now(&classify(m), "alice"),
        vec![DisplayLine {
            style: LineStyle::Secondary,
            text: "bob [yesterday] > hi\n".to_string()
        }]
    );
    assert_eq!(
        render_event_now(&classify(wire("system", "welcome")), "alice"),
        vec![DisplayLine {
            style: LineStyle::Secondary,
            text: "[SYSTEM] welcome\n".to_string()
        }]
    );
}

#[test]
fn unknown_tag_is_marked_and_the_session_goes_on() {
    let action = network_step(NetEvent::TextFrame {
        payload: r#"{"type":"foo","content":"what is this"}"#.to_string(),
    });
    let event = match action {
        NetAction::Forward { event } => event,
        other => panic!("{:?}", other),
    };
    let lines = render_event(&event, "alice", "00:00:00");
    assert_eq!(
        lines,
        vec![DisplayLine {
            style: LineStyle::Secondary,
            text: "[UNKNOWN] what is this\n".to_string()
        }]
    );
    assert!(lines[0].text.starts_with("[UNKNOWN]"));
    assert_eq!(
        relay_step(RelayEvent::Arrived { event }, "alice"),
        RelayAction::Show { lines }
    );
}

#[test]
fn scenario_login_greeting() {
    let payload = r#"{"type":"user_connected","user_id":"42","channel":"general"}"#.to_string();
    let event = match network_step(NetEvent::TextFrame { payload }) {
        NetAction::Forward { event } => event,
        other => panic!("{:?}", other),
    };
    let lines = render_event(&event, "alice", "00:00:00");
    assert_eq!(
        lines,
        vec![
            DisplayLine {
                style: LineStyle::Title,
                text: "[SYSTEM] Connected as alice to general channel\n".to_string()
            },
            DisplayLine {
                style: LineStyle::Title,
                text: "[SYSTEM] Your assigned user ID: 42\n".to_string()
            },
        ]
    );
    assert!(lines[0].text.contains("Connected as alice to general"));
    assert!(lines[1].text.contains("Your assigned user ID: 42"));
}

#[test]
fn greeting_names_the_local_user_not_the_wire() {
    let mut m = wire("user_connected", "");
    m.username = Some("mallory".to_string());
    m.user_id = Some("1".to_string());
    let lines = render_event(&classify(m), "alice", "");
    assert_eq!(
        lines[0].text,
        "[SYSTEM] Connected as alice to General channel\n"
    );
    assert_eq!(lines[1].text, "[SYSTEM] Your assigned user ID: 1\n");
}

#[test]
fn greeting_without_id_shows_nothing() {
    let lines = render_event(&classify(wire("user_connected", "x")), "alice", "");
    assert!(lines.is_empty());
}

#[test]
fn scenario_help_sends_nothing() {
    let mut session = SessionController::new();
    session.start("alice".to_string(), "general".to_string()).unwrap();
    session.handshake_done(true);
    let mut view = ChatView::new();
    view.set_input("/help");
    submit(&mut session, &mut view);
    assert_eq!(view.messages().len(), 1);
    assert!(view.messages()[0].text.contains("/help - Show this help"));
    let mut frames: Vec<String> = Vec::new();
    while let Some(text) = session.next_outbound() {
        if let NetAction::Send { frame } = network_step(NetEvent::Outbound { text }) {
            frames.push(frame);
        }
    }
    assert!(frames.is_empty());
}

#[test]
fn scenario_hello_is_the_sole_frame() {
    let mut session = SessionController::new();
    session.start("alice".to_string(), "general".to_string()).unwrap();
    session.handshake_done(true);
    let mut view = ChatView::new();
    view.set_input("hello");
    submit(&mut session, &mut view);
    let mut frames: Vec<String> = Vec::new();
    while let Some(text) = session.next_outbound() {
        match network_step(NetEvent::Outbound { text }) {
            NetAction::Send { frame } => frames.push(frame),
            other => panic!("{:?}", other),
        }
    }
    assert_eq!(
        frames,
        vec![r#"{"type":"message","content":"hello"}"#.to_string()]
    );
}

#[test]
fn scenario_malformed_frame_is_dropped() {
    let payload = "this is not json".to_string();
    assert_eq!(decode_frame(&payload), None);
    assert_eq!(network_step(NetEvent::TextFrame { payload }), NetAction::Skip);
    let payload = r#"{"type":"system","content":"still here"}"#.to_string();
    assert_eq!(
        network_step(NetEvent::TextFrame { payload }),
        NetAction::Forward {
            event: ServerEvent::SystemNotice {
                text: "still here".to_string()
            }
        }
    );
}

#[test]
fn network_actor_stops_and_disconnects() {
    assert_eq!(network_step(NetEvent::ShutdownChanged), NetAction::Stop);
    assert_eq!(network_step(NetEvent::OtherFrame), NetAction::Disconnect);
    assert_eq!(network_step(NetEvent::ReadFailed), NetAction::Disconnect);
    assert_eq!(network_step(NetEvent::StreamEnded), NetAction::Disconnect);
}

#[test]
fn frame_escapes_what_json_must_escape() {
    let text = "say \"hi\"\\ \n\ttab \u{1} caf\u{e9} \u{1F600}";
    let frame = encode_frame(text);
    assert_eq!(
        frame,
        "{\"type\":\"message\",\"content\":\"say \\\"hi\\\"\\\\ \\n\\ttab \\u0001 caf\u{e9} \u{1F600}\"}"
    );
    let value: serde_json::Value = serde_json::from_str(&frame).unwrap();
    let object = value.as_object().unwrap();
    assert_eq!(object.len(), 2);
    assert_eq!(object["type"], serde_json::Value::String("message".to_string()));
    assert_eq!(object["content"], serde_json::Value::String(text.to_string()));
}

#[test]
fn frame_of_empty_text() {
    assert_eq!(encode_frame(""), r#"{"type":"message","content":""}"#);
}

#[test]
fn frame_around_adds_only_the_frame() {
    assert_eq!(frame_around("\"x\""), r#"{"type":"message","content":"x"}"#);
    assert_eq!(frame_around(""), r#"{"type":"message","content":}"#);
}

#[test]
fn relay_stops_on_shutdown_and_on_a_closed_queue() {
    assert_eq!(relay_step(RelayEvent::ShutdownChanged, "alice"), RelayAction::Stop);
    assert_eq!(relay_step(RelayEvent::QueueClosed, "alice"), RelayAction::Stop);
}

#[test]
fn relay_shows_events_in_arrival_order() {
    let mut shown: Vec<DisplayLine> = Vec::new();
    for content in ["first", "second", "third"] {
        let event = classify(wire("system", content));
        match relay_step(RelayEvent::Arrived { event }, "alice") {
            RelayAction::Show { mut lines } => shown.append(&mut lines),
            RelayAction::Stop => panic!("the relay stopped on an event"),
        }
    }
    let texts: Vec<&str> = shown.iter().map(|l| l.text.as_str()).collect();
    assert_eq!(
        texts,
        vec!["[SYSTEM] first\n", "[SYSTEM] second\n", "[SYSTEM] third\n"]
    );
}

fn text(s: &str) -> JsonMember {
    JsonMember::Text {
        text: s.to_string(),
    }
}

#[test]
fn decode_reads_all_six_members() {
    let payload = r#"{"type":"message","username":"bob","user_id":"7","content":"hi","timestamp":"10:00:00","channel":"rust"}"#;
    assert_eq!(
        decode_frame(payload),
        Some(ServerMessage {
            kind: "message".to_string(),
            username: Some("bob".to_string()),
            user_id: Some("7".to_string()),
            content: "hi".to_string(),
            timestamp: Some("10:00:00".to_string()),
            channel: Some("rust".to_string()),
        })
    );
}

#[test]
fn decode_takes_missing_and_null_members_as_absent() {
    assert_eq!(
        decode_frame(r#"{"type":"system","content":"x","username":null,"channel":null}"#),
        Some(wire("system", "x"))
    );
    assert_eq!(
        decode_frame(r#"{"content":"x","type":"system"}"#),
        Some(wire("system", "x"))
    );
}

#[test]
fn decode_lets_unknown_members_through() {
    assert_eq!(
        decode_frame(r#"{"type":"system","content":"x","extra":[1,2,{"a":null}],"n":1.5}"#),
        Some(wire("system", "x"))
    );
}

#[test]
fn decode_unescapes_strings() {
    assert_eq!(
        decode_frame(r#"{"type":"message","content":"a \"b\" \n \u00e9"}"#),
        Some(wire("message", "a \"b\" \n \u{e9}"))
    );
}

#[test]
fn decode_takes_missing_content_as_empty() {
    assert_eq!(
        decode_frame(r#"{"type":"user_connected"}"#),
        Some(wire("user_connected", ""))
    );
}

#[test]
fn decode_rejects_what_is_not_json() {
    for payload in ["", "hello", "{", r#"{"type":"system","content":"x""#, "{'type':'system'}"] {
        assert_eq!(decode_frame(payload), None, "{}", payload);
    }
}

#[test]
fn decode_rejects_json_that_is_no_record() {
    for payload in ["null", "42", r#""text""#, "[]", r#"["system","x"]"#, "{}"] {
        assert_eq!(decode_frame(payload), None, "{}", payload);
    }
}

#[test]
fn decode_rejects_members_of_the_wrong_kind() {
    for payload in [
        r#"{"content":"x"}"#,
        r#"{"type":null,"content":"x"}"#,
        r#"{"type":7,"content":"x"}"#,
        r#"{"type":"system","content":null}"#,
        r#"{"type":"system","content":7}"#,
        r#"{"type":"system","content":"x","username":7}"#,
        r#"{"type":"system","content":"x","user_id":["a"]}"#,
        r#"{"type":"system","content":"x","timestamp":true}"#,
        r#"{"type":"system","content":"x","channel":{}}"#,
    ] {
        assert_eq!(decode_frame(payload), None, "{}", payload);
    }
}

#[test]
fn assemble_checks_each_place() {
    let ok = assemble(
        text("message"),
        JsonMember::Null,
        JsonMember::Absent,
        JsonMember::Absent,
        text("now"),
        text("rust"),
    );
    assert_eq!(
        ok,
        Some(ServerMessage {
            kind: "message".to_string(),
            username: None,
            user_id: None,
            content: String::new(),
            timestamp: Some("now".to_string()),
            channel: Some("rust".to_string()),
        })
    );
    let absent = || JsonMember::Absent;
    for bad in [JsonMember::Invalid, JsonMember::Absent, JsonMember::Null, JsonMember::Other] {
        assert_eq!(
            assemble(bad, absent(), absent(), text("x"), absent(), absent()),
            None
        );
    }
    for bad in [JsonMember::Invalid, JsonMember::Other] {
        assert_eq!(
            assemble(text("system"), bad.clone(), absent(), text("x"), absent(), absent()),
            None
        );
        assert_eq!(
            assemble(text("system"), absent(), bad.clone(), text("x"), absent(), absent()),
            None
        );
        assert_eq!(
            assemble(text("system"), absent(), absent(), text("x"), bad.clone(), absent()),
            None
        );
        assert_eq!(
            assemble(text("system"), absent(), absent(), text("x"), absent(), bad.clone()),
            None
        );
    }
    for bad in [JsonMember::Invalid, JsonMember::Null, JsonMember::Other] {
        assert_eq!(
            assemble(text("system"), absent(), absent(), bad, absent(), absent()),
            None
        );
    }
}
