use personalparakeet_ui::channel::{drain_batch, process_events, take_received, BATCH_LIMIT};
use personalparakeet_ui::controller::{ControllerError, GuiController};
use personalparakeet_ui::events::GuiEvent;
use personalparakeet_ui::registry::CallbackRegistry;
use personalparakeet_ui::transport::{
    decode_frame, endpoint, transcription_from_fields, handshake_frame, step, LinkAction, LinkEvent, LinkState, TransportClient,
    BACKOFF_MS,
};
use personalparakeet_ui::ui_state::{merge_text, parse_color, Color, Effect, UiState};

fn s(x: &str) -> String {
    x.to_string()
}

#[test]
fn high_frequency_classification() {
    assert!(GuiEvent::UpdateStatus(s("a"), s("red")).is_high_frequency());
    assert!(GuiEvent::UpdateText(s("a"), s("REPLACE")).is_high_frequency());
    assert!(!GuiEvent::SetRecording(true).is_high_frequency());
    assert!(!GuiEvent::ShowError(s("x")).is_high_frequency());
    assert!(!GuiEvent::SetWindowProperties { transparent: true, always_on_top: false }
        .is_high_frequency());
    assert!(!GuiEvent::TriggerCallback(s("n"), s("p")).is_high_frequency());
}

#[test]
fn colors_parse_in_any_case() {
    assert_eq!(parse_color("red"), Color::Red);
    assert_eq!(parse_color("RED"), Color::Red);
    assert_eq!(parse_color("Green"), Color::Green);
    assert_eq!(parse_color("bLuE"), Color::Blue);
    assert_eq!(parse_color("YELLOW"), Color::Yellow);
    assert_eq!(parse_color("Orange"), Color::Orange);
    assert_eq!(parse_color("purple"), Color::White);
    assert_eq!(parse_color(""), Color::White);
    assert_eq!(Color::Orange.rgb(), (255, 165, 0));
    assert_eq!(Color::White.rgb(), (255, 255, 255));
}

#[test]
fn append_with_space_on_empty_text() {
    let mut text = String::new();
    merge_text(&mut text, &s("hello"), &s("APPEND_WITH_SPACE"));
    assert_eq!(text, "hello");
}

#[test]
fn append_with_space_on_existing_text() {
    let mut text = s("hello");
    merge_text(&mut text, &s("world"), &s("APPEND_WITH_SPACE"));
    assert_eq!(text, "hello world");
}

#[test]
fn replace_mode_substitutes() {
    let mut text = s("hello");
    merge_text(&mut text, &s("world"), &s("REPLACE"));
    assert_eq!(text, "world");
}

#[test]
fn unknown_mode_behaves_as_replace() {
    let mut a = s("hello");
    let mut b = s("hello");
    merge_text(&mut a, &s("world"), &s("SOMETHING_ELSE"));
    merge_text(&mut b, &s("world"), &s("REPLACE"));
    assert_eq!(a, b);
    assert_eq!(a, "world");
}

#[test]
fn initial_state_is_ready() {
    let st = UiState::new();
    assert_eq!(st.status_text, "Ready");
    assert_eq!(st.status_color, Color::White);
    assert_eq!(st.recognized_text, "");
    assert!(!st.is_recording);
}

#[test]
fn recording_overrides_earlier_status_in_batch() {
    let mut st = UiState::new();
    let batch = vec![GuiEvent::UpdateStatus(s("Busy"), s("blue")), GuiEvent::SetRecording(true)];
    st.apply_batch(&batch);
    assert_eq!(st.status_text, "Recording...");
    assert_eq!(st.status_color, Color::Red);
    assert!(st.is_recording);
    let batch = vec![GuiEvent::UpdateStatus(s("Busy"), s("blue")), GuiEvent::SetRecording(false)];
    st.apply_batch(&batch);
    assert_eq!(st.status_text, "Ready");
    assert_eq!(st.status_color, Color::Green);
    assert!(!st.is_recording);
}

#[test]
fn status_and_error_updates() {
    let mut st = UiState::new();
    assert!(st.apply(&GuiEvent::UpdateStatus(s("Listening"), s("YELLOW"))).is_none());
    assert_eq!(st.status_text, "Listening");
    assert_eq!(st.status_color, Color::Yellow);
    assert!(st.apply(&GuiEvent::ShowError(s("mic lost"))).is_none());
    assert_eq!(st.status_text, "Error: mic lost");
    assert_eq!(st.status_color, Color::Orange);
}

#[test]
fn callback_and_window_events_become_effects() {
    let mut st = UiState::new();
    let batch = vec![
        GuiEvent::TriggerCallback(s("on_click"), s("42")),
        GuiEvent::UpdateText(s("hi"), s("REPLACE")),
        GuiEvent::SetWindowProperties { transparent: true, always_on_top: false },
    ];
    let effects = st.apply_batch(&batch);
    assert_eq!(effects.len(), 2);
    match &effects[0] {
        Effect::Callback { name, payload } => {
            assert_eq!(name, "on_click");
            assert_eq!(payload, "42");
        }
        other => panic!("unexpected effect {:?}", other),
    }
    match &effects[1] {
        Effect::WindowHint { transparent, always_on_top } => {
            assert!(*transparent);
            assert!(!*always_on_top);
        }
        other => panic!("unexpected effect {:?}", other),
    }
    assert_eq!(st.recognized_text, "hi");
}

#[test]
fn start_twice_reports_already_running() {
    let mut c = GuiController::new();
    let rx = c.run().expect("first start succeeds");
    assert_eq!(c.run().err(), Some(ControllerError::AlreadyRunning));
    c.set_recording(true).unwrap();
    let batch = drain_batch(&rx, BATCH_LIMIT);
    assert_eq!(batch.len(), 1);
    assert_eq!(ControllerError::AlreadyRunning.message(), "GUI already running");
}

#[test]
fn emitting_after_consumer_dropped_reports_channel_closed() {
    let mut c = GuiController::new();
    let rx = c.run().unwrap();
    drop(rx);
    assert_eq!(c.show_error(s("x")), Err(ControllerError::ChannelClosed));
    assert_eq!(c.update_text(s("a"), s("REPLACE")), Err(ControllerError::ChannelClosed));
    assert_eq!(ControllerError::ChannelClosed.message(), "event channel closed");
}

#[test]
fn single_producer_order_is_kept() {
    let mut c = GuiController::new();
    let rx = c.run().unwrap();
    c.update_text(s("one"), s("APPEND_WITH_SPACE")).unwrap();
    c.update_text(s("two"), s("APPEND_WITH_SPACE")).unwrap();
    c.update_text(s("three"), s("APPEND_WITH_SPACE")).unwrap();
    let mut st = UiState::new();
    process_events(&mut st, &rx);
    assert_eq!(st.recognized_text, "one two three");
}

#[test]
fn batch_drain_stops_at_limit() {
    let mut c = GuiController::new();
    let rx = c.run().unwrap();
    for i in 0..15 {
        c.update_status(format!("s{}", i), s("white")).unwrap();
    }
    let mut st = UiState::new();
    process_events(&mut st, &rx);
    assert_eq!(st.status_text, "s9");
    let rest = drain_batch(&rx, BATCH_LIMIT);
    assert_eq!(rest.len(), 5);
    assert_eq!(drain_batch(&rx, BATCH_LIMIT).len(), 0);
}

#[test]
fn unregistered_callback_is_a_no_op() {
    let mut reg: CallbackRegistry<u32> = CallbackRegistry::new();
    assert!(reg.lookup(&s("missing")).is_none());
    reg.register_callback(s("a"), 1);
    reg.register_callback(s("b"), 2);
    reg.register_callback(s("a"), 3);
    assert_eq!(reg.lookup(&s("a")), Some(&3));
    assert_eq!(reg.lookup(&s("b")), Some(&2));
    assert!(reg.lookup(&s("c")).is_none());
}

#[test]
fn decode_transcription_frame() {
    let t = decode_frame(r#"{"type":"transcription","text":"hi there","mode":"APPEND","confidence":0.5}"#)
        .unwrap();
    assert_eq!(t.text, "hi there");
    assert_eq!(t.mode, "APPEND");
    let t = decode_frame(r#"{"type":"transcription"}"#).unwrap();
    assert_eq!(t.text, "");
    assert_eq!(t.mode, "standard");
    assert!(decode_frame(r#"{"type":"status","text":"x"}"#).is_none());
    assert!(decode_frame("not json").is_none());
    assert!(decode_frame(r#"["transcription"]"#).is_none());
}

#[test]
fn malformed_frame_keeps_session() {
    let (st, act) = step(LinkState::Connected, &LinkEvent::Text(s("{broken")));
    assert_eq!(st, LinkState::Connected);
    assert!(matches!(act, LinkAction::ReadNext));
    let (st, act) = step(st, &LinkEvent::Text(s(r#"{"type":"transcription","text":"ok"}"#)));
    assert_eq!(st, LinkState::Connected);
    match act {
        LinkAction::Forward(t) => assert_eq!(t.text, "ok"),
        other => panic!("unexpected action {:?}", other),
    }
}

#[test]
fn reconnects_once_after_drop() {
    let (st, act) = step(LinkState::Disconnected, &LinkEvent::Start);
    assert_eq!(st, LinkState::Connecting);
    assert!(matches!(act, LinkAction::Connect));
    let (st, act) = step(st, &LinkEvent::Connected);
    assert_eq!(st, LinkState::Connected);
    assert!(matches!(act, LinkAction::SendHandshake));
    let (st, act) = step(st, &LinkEvent::PeerClosed);
    assert_eq!(st, LinkState::BackingOff);
    assert!(matches!(act, LinkAction::Sleep(3000)));
    assert_eq!(BACKOFF_MS, 3000);
    let (st, act) = step(st, &LinkEvent::Connected);
    assert_eq!(st, LinkState::BackingOff);
    assert!(matches!(act, LinkAction::Ignore));
    let (st, act) = step(st, &LinkEvent::BackoffElapsed);
    assert_eq!(st, LinkState::Connecting);
    assert!(matches!(act, LinkAction::Connect));
    let (st, act) = step(st, &LinkEvent::ConnectFailed);
    assert_eq!(st, LinkState::BackingOff);
    assert!(matches!(act, LinkAction::Sleep(3000)));
    let (st, _) = step(st, &LinkEvent::BackoffElapsed);
    let (st, _) = step(st, &LinkEvent::Connected);
    let (st, act) = step(st, &LinkEvent::Text(s(r#"{"type":"transcription","text":"back"}"#)));
    assert_eq!(st, LinkState::Connected);
    assert!(matches!(act, LinkAction::Forward(_)));
    let (st, act) = step(st, &LinkEvent::ReadFailed);
    assert_eq!(st, LinkState::BackingOff);
    assert!(matches!(act, LinkAction::Sleep(3000)));
}

#[test]
fn endpoint_and_handshake() {
    assert_eq!(endpoint(), "ws://localhost:8765");
    assert_eq!(handshake_frame(), r#"{"type":"client_connected","client":"tauri"}"#);
}

#[test]
fn client_follows_session_lifecycle() {
    let mut c = TransportClient::new();
    assert_eq!(c.state(), LinkState::Disconnected);
    assert!(matches!(c.handle(&LinkEvent::Text(s("{}"))), LinkAction::Ignore));
    assert_eq!(c.state(), LinkState::Disconnected);
    assert!(matches!(c.handle(&LinkEvent::Start), LinkAction::Connect));
    assert!(matches!(c.handle(&LinkEvent::Connected), LinkAction::SendHandshake));
    assert!(matches!(c.handle(&LinkEvent::Other), LinkAction::ReadNext));
    assert!(matches!(c.handle(&LinkEvent::Text(s(r#"{"type":"ping"}"#))), LinkAction::ReadNext));
    assert!(matches!(c.handle(&LinkEvent::ReadFailed), LinkAction::Sleep(3000)));
    assert_eq!(c.state(), LinkState::BackingOff);
}

#[test]
fn take_received_appends_or_stops() {
    let mut batch = vec![GuiEvent::SetRecording(true)];
    assert!(take_received(&mut batch, Some(GuiEvent::ShowError(s("e")))));
    assert_eq!(batch.len(), 2);
    assert!(matches!(&batch[1], GuiEvent::ShowError(m) if m == "e"));
    assert!(!take_received(&mut batch, None));
    assert_eq!(batch.len(), 2);
}

#[test]
fn transcription_fields_and_defaults() {
    let t = transcription_from_fields(Some(s("transcription")), Some(s("hi")), Some(s("REPLACE")))
        .unwrap();
    assert_eq!(t.text, "hi");
    assert_eq!(t.mode, "REPLACE");
    let t = transcription_from_fields(Some(s("transcription")), None, None).unwrap();
    assert_eq!(t.text, "");
    assert_eq!(t.mode, "standard");
    assert!(transcription_from_fields(Some(s("status")), Some(s("hi")), None).is_none());
    assert!(transcription_from_fields(None, Some(s("hi")), None).is_none());
}

#[test]
fn emitted_events_arrive_as_sent() {
    let mut c = GuiController::new();
    let rx = c.run().unwrap();
    c.update_status(s("Busy"), s("red")).unwrap();
    c.set_window_properties(true, false).unwrap();
    c.trigger_callback(s("cb"), s("data")).unwrap();
    let batch = drain_batch(&rx, BATCH_LIMIT);
    assert_eq!(batch.len(), 3);
    assert!(matches!(&batch[0], GuiEvent::UpdateStatus(t, col) if t == "Busy" && col == "red"));
    assert!(matches!(&batch[1], GuiEvent::SetWindowProperties { transparent: true, always_on_top: false }));
    assert!(matches!(&batch[2], GuiEvent::TriggerCallback(n, p) if n == "cb" && p == "data"));
}
