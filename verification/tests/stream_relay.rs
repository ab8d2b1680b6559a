use std::collections::VecDeque;

use saydone_channels::repository::ConversationRoute;
use saydone_channels::stream_relay::{
    ChannelDeliveryReceipt, ChannelSender, ChannelStreamRelay, Heard, MessageRecorder, RelayAction, RelayConfig, RelayEvent, RelayTarget,
    StreamAction, throttle_ms_for_platform,
};
use saydone_channels::types::{ActionButton, PluginType, UnifiedOutgoingMessage, text_message};

/// The stream that a relay listens to, with a clock that runs one millisecond per event.
struct Stream {
    heard: VecDeque<Heard>,
    clock: u64,
}

fn final_message(text: &str) -> UnifiedOutgoingMessage {
    UnifiedOutgoingMessage {
        buttons: Some(vec![vec![ActionButton {
            label: "copy".to_owned(),
            action: "action.copy".to_owned(),
            params: None,
        }]]),
        ..text_message(text.to_owned())
    }
}

fn send(recorder: &mut MessageRecorder, to: &RelayTarget, message: UnifiedOutgoingMessage) -> RelayEvent {
    RelayEvent::Delivered(recorder.send_message(&to.owner_user_id, &to.plugin_id, &to.chat_id, message).ok())
}

fn edit(recorder: &mut MessageRecorder, to: &RelayTarget, message_id: &str, message: UnifiedOutgoingMessage) {
    recorder.edit_message(&to.owner_user_id, &to.plugin_id, &to.chat_id, message_id, message).unwrap();
}

/// Runs a relay to its end and hands out what it recorded.
fn run(relay: &mut ChannelStreamRelay, recorder: &mut MessageRecorder, heard: Vec<Heard>) -> Vec<ConversationRoute> {
    let mut stream = Stream { heard: heard.into(), clock: 0 };
    let mut routes = Vec::new();
    let mut action = relay.start();
    loop {
        let event = match action {
            RelayAction::Receive | RelayAction::TryReceive | RelayAction::AwaitTurn { .. } => {
                stream.clock += 1;
                let heard = stream.heard.pop_front().expect("the relay hears more than there is");
                RelayEvent::Heard { heard, now_ms: stream.clock }
            }
            RelayAction::Format { text, .. } => RelayEvent::Formatted(text),
            RelayAction::SendThinking { target } => {
                send(recorder, &target, text_message("⏳ 正在思考...".to_owned()))
            }
            RelayAction::SendFinal { target, text } => send(recorder, &target, final_message(&text)),
            RelayAction::Send { target, message } => send(recorder, &target, message),
            RelayAction::EditStreaming { target, message_id, text } => {
                edit(recorder, &target, &message_id, text_message(text));
                RelayEvent::Edited { now_ms: stream.clock }
            }
            RelayAction::EditFinal { target, message_id, text } => {
                edit(recorder, &target, &message_id, final_message(&text));
                RelayEvent::Edited { now_ms: stream.clock }
            }
            RelayAction::Edit { target, message_id, message } => {
                edit(recorder, &target, &message_id, message);
                RelayEvent::Edited { now_ms: stream.clock }
            }
            RelayAction::Record { route, .. } => {
                routes.push(route);
                RelayEvent::Recorded
            }
            RelayAction::Stop => return routes,
            RelayAction::Unexpected => panic!("the relay did not understand an answer"),
        };
        action = relay.advance(event);
    }
}

fn config(platform: PluginType, throttle_ms: u64) -> RelayConfig {
    RelayConfig {
        owner_user_id: "system_default_user".to_owned(),
        session_id: "session_1".to_owned(),
        conversation_id: "conversation_1".to_owned(),
        platform,
        plugin_id: platform.as_str().to_owned(),
        chat_id: "chat_1".into(),
        prompt_text: "Test question".into(),
        throttle_ms,
    }
}

fn target(platform: PluginType) -> RelayTarget {
    RelayTarget {
        owner_user_id: "system_default_user".to_owned(),
        plugin_id: platform.as_str().to_owned(),
        chat_id: "chat_1".to_owned(),
    }
}

fn text(content: &str) -> Heard {
    Heard::Event(Some(StreamAction::AppendText(content.to_owned())))
}

fn tool_call(name: &str) -> Heard {
    Heard::Event(Some(StreamAction::ToolCall { name: name.to_owned() }))
}

fn finish() -> Heard {
    Heard::Event(Some(StreamAction::Finish))
}

fn texts(messages: &[UnifiedOutgoingMessage]) -> Vec<&str> {
    messages.iter().map(|message| message.text.as_deref().unwrap()).collect()
}

// ── Configuration ────────────────────────────────────────────────

#[test]
fn slack_uses_larger_throttle_than_others() {
    assert_eq!(throttle_ms_for_platform(PluginType::Slack), 1200);
    assert_eq!(throttle_ms_for_platform(PluginType::Discord), 1000);
    assert_eq!(throttle_ms_for_platform(PluginType::Telegram), 500);
    assert_eq!(throttle_ms_for_platform(PluginType::Lark), 500);
    assert_eq!(throttle_ms_for_platform(PluginType::Dingtalk), 500);
    assert_eq!(throttle_ms_for_platform(PluginType::Weixin), 500);
}

#[test]
fn relay_config_fields() {
    let config = RelayConfig {
        owner_user_id: "system_default_user".to_owned(),
        session_id: "session_1".to_owned(),
        conversation_id: "conversation_1".to_owned(),
        platform: PluginType::Telegram,
        plugin_id: "telegram".into(),
        chat_id: "123".into(),
        prompt_text: "Test question".into(),
        throttle_ms: 500,
    };
    assert_eq!(config.throttle_ms, 500);
    assert_eq!(config.plugin_id, "telegram");
}

// ── Whole runs ───────────────────────────────────────────────────

#[test]
fn relay_sends_thinking_then_final_message() {
    let mut recorder = MessageRecorder::new();
    let mut relay = ChannelStreamRelay::new(config(PluginType::Telegram, 10));
    run(&mut relay, &mut recorder, vec![text("Hello"), text(" World"), finish()]);

    let sends = recorder.take_sends();
    assert!(!sends.is_empty());
    assert!(sends[0].text.as_deref().unwrap().contains("正在思考"));

    let edits = recorder.take_edits();
    let last = edits.last().unwrap();
    assert!(last.text.as_deref().unwrap().contains("Hello World"));
    assert!(last.buttons.is_some());
}

#[test]
fn relay_registers_sent_message_id_and_delivery_window_as_reply_routes() {
    let mut recorder = MessageRecorder::new();
    let mut relay = ChannelStreamRelay::with_session_manager(config(PluginType::Telegram, 10));
    let routes = run(&mut relay, &mut recorder, vec![text("Hello"), finish()]);

    let route = |preview: Option<&str>| ConversationRoute {
        conversation_id: "conversation_1".to_owned(),
        platform_type: "telegram".to_owned(),
        chat_id: "chat_1".to_owned(),
        message_id: "msg-1".to_owned(),
        preview_text: preview.map(String::from),
        sent_at: 2,
        delivery_started_at: Some(1),
        delivery_completed_at: Some(2),
    };
    assert_eq!(routes, vec![route(None), route(Some("你：Test question\n\nAI：Hello"))]);
    let params = routes[1].params();
    assert_eq!(params.preview_text, Some("你：Test question\n\nAI：Hello"));
    assert_eq!((params.message_id, params.delivery_started_at), ("msg-1", Some(1)));
}

#[test]
fn relay_handles_error_event() {
    let mut recorder = MessageRecorder::new();
    let mut relay = ChannelStreamRelay::new(config(PluginType::Telegram, 10));
    run(&mut relay, &mut recorder, vec![Heard::Event(Some(StreamAction::Error("timeout".to_owned())))]);

    let edits = recorder.take_edits();
    let last = edits.last().unwrap();
    assert!(last.text.as_deref().unwrap().contains("timeout"));
    assert_eq!(last.text.as_deref(), Some("❌ timeout"));
}

#[test]
fn weixin_sends_one_complete_answer_after_tool_call() {
    let mut recorder = MessageRecorder::new();
    let mut relay = ChannelStreamRelay::new(config(PluginType::Weixin, 10_000));
    run(
        &mut relay,
        &mut recorder,
        vec![text("Here is the plan:"), tool_call("read_file"), text(" Done."), finish()],
    );

    let sends = recorder.take_sends();
    assert_eq!(sends.len(), 1, "WeChat must send only the final answer: {sends:?}");
    assert_eq!(sends[0].text.as_deref(), Some("Here is the plan: Done."));
    assert!(recorder.take_edits().is_empty());
}

#[test]
fn weixin_waits_for_the_whole_turn_after_an_intermediate_finish() {
    let mut recorder = MessageRecorder::new();
    let mut relay = ChannelStreamRelay::new(config(PluginType::Weixin, 10_000)).with_runtime_state();
    run(
        &mut relay,
        &mut recorder,
        vec![
            text("Preparing. "),
            finish(),
            Heard::Empty,
            text("Final answer."),
            finish(),
            Heard::Lagged,
            Heard::Empty,
            Heard::Released,
        ],
    );

    let sends = recorder.take_sends();
    assert_eq!(sends.len(), 1);
    assert_eq!(sends[0].text.as_deref(), Some("Preparing. Final answer."));
}

#[test]
fn telegram_does_not_flush_text_before_tool_call() {
    let mut recorder = MessageRecorder::new();
    let mut relay = ChannelStreamRelay::new(config(PluginType::Telegram, 10_000));
    run(&mut relay, &mut recorder, vec![text("Here is the plan:"), tool_call("read_file"), finish()]);

    let sends = recorder.take_sends();
    // Only the placeholder is sent.
    assert_eq!(sends.len(), 1, "unexpected extra sends: {:?}", sends);
    assert_eq!(texts(&recorder.take_edits()), vec!["Here is the plan:", "⏳ read_file...", "Here is the plan:"]);
}

#[test]
fn weixin_skips_flush_when_buffer_is_empty() {
    let mut recorder = MessageRecorder::new();
    let mut relay = ChannelStreamRelay::new(config(PluginType::Weixin, 10_000));
    run(&mut relay, &mut recorder, vec![tool_call("read_file"), finish()]);

    let sends = recorder.take_sends();
    assert_eq!(sends.len(), 0, "no sends expected for empty buffer: {:?}", sends);
}

#[test]
fn relay_handles_channel_closed() {
    let mut recorder = MessageRecorder::new();
    let mut relay = ChannelStreamRelay::with_session_manager(config(PluginType::Telegram, 10));
    let routes = run(&mut relay, &mut recorder, vec![text("partial"), Heard::Closed]);

    let edits = recorder.take_edits();
    assert!(!edits.is_empty());
    assert!(edits.last().unwrap().text.as_deref().unwrap().contains("partial"));
    // An answer that breaks off is not recorded again.
    assert_eq!(routes.len(), 1);
}

// ── Edge cases ───────────────────────────────────────────────────

#[test]
fn edits_keep_the_throttle() {
    let mut recorder = MessageRecorder::new();
    let mut relay = ChannelStreamRelay::new(config(PluginType::Telegram, 2));
    run(&mut relay, &mut recorder, vec![text("a"), text("b"), text("c"), text("d"), finish()]);
    assert_eq!(texts(&recorder.take_edits()), vec!["a", "abc", "abcd"]);
}

#[test]
fn blank_answer_is_not_sent_where_nothing_is_edited() {
    let mut recorder = MessageRecorder::new();
    let mut relay = ChannelStreamRelay::with_session_manager(config(PluginType::Wecom, 0));
    let routes = run(
        &mut relay,
        &mut recorder,
        vec![
            Heard::Event(Some(StreamAction::Thinking("hm".to_owned()))),
            Heard::Event(None),
            Heard::Lagged,
            text("  \n"),
            Heard::Closed,
        ],
    );
    assert!(recorder.take_sends().is_empty());
    assert!(routes.is_empty());
}

#[test]
fn closed_weixin_stream_sends_and_records_what_there_is() {
    let mut recorder = MessageRecorder::new();
    let mut relay = ChannelStreamRelay::with_session_manager(config(PluginType::Weixin, 0));
    let routes = run(&mut relay, &mut recorder, vec![text("partial "), Heard::Closed]);
    assert_eq!(texts(&recorder.take_sends()), vec!["partial "]);
    assert_eq!(routes[0].preview_text.as_deref(), Some("你：Test question\n\nAI：partial"));
}

#[test]
fn weixin_error_is_sent_once_and_recorded() {
    let mut recorder = MessageRecorder::new();
    let mut relay = ChannelStreamRelay::with_session_manager(config(PluginType::Weixin, 0));
    let routes = run(
        &mut relay,
        &mut recorder,
        vec![text("never seen"), Heard::Event(Some(StreamAction::Error("boom".to_owned())))],
    );
    assert_eq!(texts(&recorder.take_sends()), vec!["❌ boom"]);
    assert_eq!(routes[0].preview_text.as_deref(), Some("你：Test question\n\nAI：❌ boom"));
}

#[test]
fn undelivered_messages_end_the_relay() {
    let mut relay = ChannelStreamRelay::with_session_manager(config(PluginType::Telegram, 0));
    assert_eq!(relay.start(), RelayAction::SendThinking { target: target(PluginType::Telegram) });
    assert_eq!(relay.advance(RelayEvent::Delivered(None)), RelayAction::Stop);

    let mut relay = ChannelStreamRelay::with_session_manager(config(PluginType::Weixin, 0));
    assert_eq!(relay.start(), RelayAction::Receive);
    relay.advance(RelayEvent::Heard { heard: text("x"), now_ms: 0 });
    relay.advance(RelayEvent::Heard { heard: finish(), now_ms: 0 });
    assert_eq!(
        relay.advance(RelayEvent::Formatted("X".to_owned())),
        RelayAction::SendFinal { target: target(PluginType::Weixin), text: "X".to_owned() }
    );
    assert_eq!(relay.advance(RelayEvent::Delivered(None)), RelayAction::Stop);
}

#[test]
fn answer_to_nothing_is_unexpected() {
    let mut relay = ChannelStreamRelay::new(config(PluginType::Telegram, 0));
    relay.start();
    assert_eq!(relay.advance(RelayEvent::Recorded), RelayAction::Unexpected);
    assert_eq!(
        relay.advance(RelayEvent::Heard { heard: Heard::Empty, now_ms: 0 }),
        RelayAction::Unexpected
    );
}

#[test]
fn preview_is_cut_after_its_characters() {
    let relay = ChannelStreamRelay::new(config(PluginType::Telegram, 0));
    let preview = relay.route_preview(&"答".repeat(500));
    assert_eq!(preview.chars().count(), 240);
    assert!(preview.starts_with("你：Test question\n\nAI：答答"));
    assert_eq!(relay.route_preview("  x \n"), "你：Test question\n\nAI：x");
    assert_eq!(relay.config().chat_id, "chat_1");
}

#[test]
fn recorder_hands_out_everything_once() {
    let mut recorder = MessageRecorder::default();
    let receipt = recorder.send_message("o", "p", "c", text_message("one".to_owned())).unwrap();
    assert_eq!((receipt.message_id.as_str(), receipt.started_at, receipt.completed_at), ("msg-1", 1, 2));
    recorder.send_message("o", "p", "c", text_message("two".to_owned())).unwrap();
    recorder.edit_message("o", "p", "c", "msg-1", text_message("three".to_owned())).unwrap();
    assert_eq!(texts(&recorder.take_sends()), vec!["one", "two"]);
    assert!(recorder.take_sends().is_empty());
    assert_eq!(texts(&recorder.take_edits()), vec!["three"]);
    assert!(recorder.take_edits().is_empty());
}

#[test]
fn every_action_names_the_configured_chat() {
    let here = || target(PluginType::Telegram);
    let message_id = || "m-7".to_owned();
    let heard = |heard: Heard| RelayEvent::Heard { heard, now_ms: 0 };
    let mut relay =
        ChannelStreamRelay::with_session_manager(config(PluginType::Telegram, 0)).with_runtime_state();
    assert_eq!(relay.start(), RelayAction::SendThinking { target: here() });
    let receipt = ChannelDeliveryReceipt { message_id: message_id(), started_at: 1, completed_at: 2 };
    let RelayAction::Record { owner_user_id, route } = relay.advance(RelayEvent::Delivered(Some(receipt))) else {
        panic!("the placeholder is recorded");
    };
    assert_eq!((owner_user_id.as_str(), route.chat_id.as_str()), ("system_default_user", "chat_1"));
    assert_eq!(relay.advance(RelayEvent::Recorded), RelayAction::Receive);
    assert_eq!(
        relay.advance(heard(text("a"))),
        RelayAction::Format { text: "a".to_owned(), platform: PluginType::Telegram }
    );
    assert_eq!(
        relay.advance(RelayEvent::Formatted("A".to_owned())),
        RelayAction::EditStreaming { target: here(), message_id: message_id(), text: "A".to_owned() }
    );
    relay.advance(RelayEvent::Edited { now_ms: 0 });
    assert_eq!(relay.advance(heard(finish())), RelayAction::TryReceive);
    assert_eq!(
        relay.advance(heard(Heard::Empty)),
        RelayAction::AwaitTurn { conversation_id: "conversation_1".to_owned() }
    );
    relay.advance(heard(Heard::Released));
    assert_eq!(
        relay.advance(RelayEvent::Formatted("A".to_owned())),
        RelayAction::EditFinal { target: here(), message_id: message_id(), text: "A".to_owned() }
    );

    let error = || heard(Heard::Event(Some(StreamAction::Error("boom".to_owned()))));
    let mut relay = ChannelStreamRelay::new(config(PluginType::Weixin, 0));
    relay.start();
    assert_eq!(
        relay.advance(error()),
        RelayAction::Send {
            target: target(PluginType::Weixin),
            message: text_message("❌ boom".to_owned()),
        }
    );
}
