use std::time::Duration;

use saydone_channels::json::{Json, read_json};
use saydone_channels::poll::{PollLogAction, PollResponse, WeixinPoll, backoff_delay, poll_log_action};
use saydone_channels::types::{
    ChannelError, MessageContentType, OutgoingMessageType, PluginConfig, PluginCredentials, PluginStatus, PluginType,
    UnifiedOutgoingMessage,
};
use saydone_channels::weixin::{
    CONTEXT_TOKENS_CONFIG_KEY, ITEM_TYPE_TEXT, ITEM_TYPE_VOICE, MediaEncryptInfo, MediaItemData, POLL_CURSOR_ENTRY_KEY,
    POLL_STATE_CONFIG_KEY, TextItem, VoiceItem, WeixinPlugin, WeixinRawItem, WeixinRawMessage, WeixinRefMessage,
    WeixinRefMessageItem, WeixinSend, WeixinUpdates, configured_context_tokens, configured_poll_cursor,
    extract_content, extract_quoted_reply_text, extract_reply_to_message_id, persist_poll_cursor,
};

// -- backoff_delay ---------------------------------------------------------

fn delay(consecutive_failures: u32) -> Duration {
    Duration::from_secs(backoff_delay(consecutive_failures))
}

#[test]
fn backoff_delay_exponential_curve() {
    assert_eq!(delay(1), Duration::from_secs(2));
    assert_eq!(delay(2), Duration::from_secs(4));
    assert_eq!(delay(3), Duration::from_secs(8));
    assert_eq!(delay(4), Duration::from_secs(16));
    assert_eq!(delay(5), Duration::from_secs(32));
    assert_eq!(delay(9), Duration::from_secs(512));
}

#[test]
fn backoff_delay_caps_at_ten_minutes() {
    assert_eq!(delay(10), Duration::from_secs(600));
    assert_eq!(delay(20), Duration::from_secs(600));
    // Must not overflow on large counts.
    assert_eq!(delay(u32::MAX), Duration::from_secs(600));
}

#[test]
fn backoff_delay_never_shrinks() {
    assert_eq!(backoff_delay(0), 1);
    for failures in 0..30 {
        assert!(backoff_delay(failures) <= backoff_delay(failures + 1));
    }
}

// -- poll_log_action -------------------------------------------------------

#[test]
fn log_action_silent_when_healthy_success() {
    assert_eq!(poll_log_action(0, true), PollLogAction::Silent);
}

#[test]
fn log_action_started_failing_on_first_failure() {
    assert_eq!(poll_log_action(0, false), PollLogAction::StartedFailing);
}

#[test]
fn log_action_still_failing_on_repeat_failure() {
    assert_eq!(poll_log_action(1, false), PollLogAction::StillFailing);
    assert_eq!(poll_log_action(9, false), PollLogAction::StillFailing);
}

#[test]
fn log_action_recovered_after_failures() {
    assert_eq!(poll_log_action(1, true), PollLogAction::Recovered);
    assert_eq!(poll_log_action(5, true), PollLogAction::Recovered);
}

// -- extract_content -------------------------------------------------------

#[test]
fn extract_text_only() {
    let items = vec![make_text_item("Hello world")];
    let (ct, text, has_media) = extract_content(&items);
    assert_eq!(ct, MessageContentType::Text);
    assert_eq!(text, "Hello world");
    assert!(!has_media);
}

#[test]
fn extract_command() {
    let items = vec![make_text_item("/start")];
    let (ct, text, _) = extract_content(&items);
    assert_eq!(ct, MessageContentType::Command);
    assert_eq!(text, "/start");
}

#[test]
fn extract_voice_text() {
    let items = vec![WeixinRawItem {
        item_type: Some(ITEM_TYPE_VOICE),
        voice_item: Some(VoiceItem { text: Some("transcribed text".into()) }),
        ..Default::default()
    }];
    let (ct, text, _) = extract_content(&items);
    assert_eq!(ct, MessageContentType::Text);
    assert_eq!(text, "transcribed text");
}

#[test]
fn extract_mixed_text_and_voice() {
    let items = vec![
        make_text_item("Hello"),
        WeixinRawItem {
            item_type: Some(ITEM_TYPE_VOICE),
            voice_item: Some(VoiceItem { text: Some("voice part".into()) }),
            ..Default::default()
        },
    ];
    let (_, text, _) = extract_content(&items);
    assert_eq!(text, "Hello\n\nvoice part");
}

#[test]
fn extract_media_items_detected() {
    let items = vec![WeixinRawItem {
        item_type: Some(2),
        image_item: Some(MediaItemData {
            media: Some(MediaEncryptInfo {
                encrypt_query_param: Some("enc".into()),
                aes_key: Some("key".into()),
            }),
        }),
        ..Default::default()
    }];
    let (_, text, has_media) = extract_content(&items);
    assert!(text.is_empty());
    assert!(has_media);
}

#[test]
fn extract_empty_items() {
    let items: Vec<WeixinRawItem> = vec![];
    let (_, text, has_media) = extract_content(&items);
    assert!(text.is_empty());
    assert!(!has_media);
}

#[test]
fn blank_and_unknown_items_say_nothing() {
    let items = vec![
        make_text_item("  \n"),
        WeixinRawItem { item_type: Some(9), text_item: Some(TextItem { text: Some("no".into()) }), ..Default::default() },
        WeixinRawItem { item_type: None, text_item: Some(TextItem { text: Some("no".into()) }), ..Default::default() },
        WeixinRawItem { item_type: Some(4), ..Default::default() },
        make_text_item(" b "),
    ];
    let (ct, text, has_media) = extract_content(&items);
    assert_eq!((ct, text.as_str(), has_media), (MessageContentType::Text, "b", true));
}

// -- quoted replies ----------------------------------------------------------

fn quoting(msg_id: Option<&str>, text: Option<&str>, title: Option<&str>) -> WeixinRawItem {
    WeixinRawItem {
        ref_msg: Some(WeixinRefMessage {
            message_item: Some(WeixinRefMessageItem {
                msg_id: msg_id.map(String::from),
                text_item: text.map(|text| TextItem { text: Some(text.into()) }),
            }),
            title: title.map(String::from),
        }),
        ..Default::default()
    }
}

#[test]
fn extract_quoted_reply_message_id() {
    let items = vec![WeixinRawItem {
        ref_msg: Some(WeixinRefMessage {
            message_item: Some(WeixinRefMessageItem {
                msg_id: Some("  bot-route-42  ".into()),
                text_item: None,
            }),
            title: None,
        }),
        ..Default::default()
    }];
    assert_eq!(extract_reply_to_message_id(&items).as_deref(), Some("bot-route-42"));
}

#[test]
fn extract_quoted_reply_ignores_blank_ids() {
    let items = vec![WeixinRawItem {
        ref_msg: Some(WeixinRefMessage {
            message_item: Some(WeixinRefMessageItem {
                msg_id: Some("   ".into()),
                text_item: None,
            }),
            title: None,
        }),
        ..Default::default()
    }];
    assert_eq!(extract_reply_to_message_id(&items), None);
}

#[test]
fn extract_quoted_reply_text_prefers_nested_message_text() {
    let items = vec![WeixinRawItem {
        ref_msg: Some(WeixinRefMessage {
            message_item: Some(WeixinRefMessageItem {
                msg_id: Some("bot-route-42".into()),
                text_item: Some(TextItem { text: Some("  nested answer  ".into()) }),
            }),
            title: Some("fallback title".into()),
        }),
        ..Default::default()
    }];
    assert_eq!(extract_quoted_reply_text(&items).as_deref(), Some("nested answer"));
}

#[test]
fn extract_quoted_reply_text_falls_back_to_reference_title() {
    let items = vec![WeixinRawItem {
        ref_msg: Some(WeixinRefMessage {
            message_item: Some(WeixinRefMessageItem {
                msg_id: Some("bot-route-42".into()),
                text_item: None,
            }),
            title: Some("  quoted answer  ".into()),
        }),
        ..Default::default()
    }];
    assert_eq!(extract_quoted_reply_text(&items).as_deref(), Some("quoted answer"));
}

#[test]
fn first_quote_with_an_answer_counts() {
    let items = vec![
        make_text_item("x"),
        quoting(Some(" "), Some("  "), Some("title")),
        quoting(Some("one"), None, None),
        quoting(Some("two"), Some("said"), None),
    ];
    assert_eq!(extract_reply_to_message_id(&items).as_deref(), Some("one"));
    // A blank text of its own hides the title of the quoted message.
    assert_eq!(extract_quoted_reply_text(&items).as_deref(), Some("said"));
}

// -- WeixinPlugin ------------------------------------------------------------

#[test]
fn new_plugin_initial_state() {
    let plugin = WeixinPlugin::new();
    assert_eq!(plugin.status(), PluginStatus::Created);
    assert!(plugin.bot_info().is_none());
    assert!(plugin.last_error().is_none());
    assert_eq!(plugin.plugin_type(), PluginType::Weixin);
    assert_eq!(plugin.active_user_count(), 0);
}

#[test]
fn initialize_missing_bot_token_fails() {
    let mut plugin = WeixinPlugin::new();
    let config = make_config(None, Some("acc_1"));
    let result = plugin.initialize(&config);
    assert!(result.is_err());
    assert_eq!(plugin.status(), PluginStatus::Error);
    assert_eq!(plugin.last_error(), Some("Missing WeChat bot_token"));
}

#[test]
fn initialize_missing_account_id_fails() {
    let mut plugin = WeixinPlugin::new();
    let config = make_config(Some("tok_1"), None);
    let result = plugin.initialize(&config);
    assert!(result.is_err());
    assert_eq!(plugin.status(), PluginStatus::Error);
    assert_eq!(plugin.last_error(), Some("Missing WeChat account_id"));
}

#[test]
fn initialize_empty_bot_token_fails() {
    let mut plugin = WeixinPlugin::new();
    let config = make_config(Some(""), Some("acc_1"));
    let result = plugin.initialize(&config);
    assert!(result.is_err());
    assert_eq!(plugin.status(), PluginStatus::Error);
}

#[test]
fn initialize_says_how_to_connect() {
    let mut plugin = WeixinPlugin::new();
    let mut config = make_config(Some("tok_1"), Some("acc_1"));
    let connection = plugin.initialize(&config).unwrap();
    assert_eq!(plugin.status(), PluginStatus::Initializing);
    assert_eq!(connection.base_url, "https://ilinkai.weixin.qq.com");
    assert_eq!(connection.bot_token, "tok_1");
    assert_eq!(connection.poll_cursor, "");
    config.credentials.extra.push(("baseUrl".into(), Json::Text("http://here".into())));
    let connection = plugin.initialize(&config).unwrap();
    assert_eq!(connection.base_url, "http://here");

    plugin.connected(&connection);
    assert_eq!(plugin.status(), PluginStatus::Ready);
    assert_eq!(plugin.bot_info().unwrap().id, "acc_1");
    assert_eq!(plugin.bot_info().unwrap().display_name, "WeChat Bot (acc_1)");
    plugin.start().unwrap();
    assert_eq!(plugin.status(), PluginStatus::Running);
    plugin.stop().unwrap();
    assert_eq!(plugin.status(), PluginStatus::Stopped);
}

#[test]
fn failed_connection_is_reported() {
    let mut plugin = WeixinPlugin::new();
    assert_eq!(
        plugin.connection_failed("no TLS"),
        ChannelError::ConnectionFailed("HTTP client init failed: no TLS".into())
    );
    assert_eq!(plugin.status(), PluginStatus::Error);
    assert_eq!(plugin.last_error(), Some("HTTP client init failed: no TLS"));
}

#[test]
fn inbound_context_token_is_cached_and_emitted_for_encrypted_persistence() {
    let mut plugin = WeixinPlugin::new();
    let message = WeixinRawMessage {
        from_user_id: Some("chat-1".into()),
        context_token: Some("context-secret".into()),
        msg_id: Some("message-1".into()),
        item_list: Some(vec![make_text_item("你好")]),
    };

    let received = plugin.handle_message(&message, 7);

    assert_eq!(plugin.context_token("chat-1"), Some("context-secret".into()));
    let update = received.update.unwrap();
    assert_eq!(update.map_key, CONTEXT_TOKENS_CONFIG_KEY);
    assert_eq!(update.entry_key, "chat-1");
    assert_eq!(update.value, Json::Text("context-secret".into()));
    let incoming = received.incoming.unwrap();
    assert!(incoming.raw.is_none());
    assert_eq!(incoming.id, "message-1");
    assert_eq!(incoming.chat_id, "chat-1");
    assert_eq!(incoming.user.display_name, "chat-1");
    assert_eq!(incoming.timestamp, 7);
}

#[test]
fn received_message_carries_its_quote() {
    let mut plugin = WeixinPlugin::new();
    let message = WeixinRawMessage {
        from_user_id: Some("wx-user-123456".into()),
        context_token: Some("token".into()),
        msg_id: None,
        item_list: Some(vec![make_text_item("/new"), quoting(Some("bot-1"), Some("quoted"), None)]),
    };
    let incoming = plugin.handle_message(&message, 0).incoming.unwrap();
    assert_eq!(incoming.id, "token");
    assert_eq!(incoming.user.display_name, "123456");
    assert_eq!(incoming.content.content_type, MessageContentType::Command);
    assert_eq!(incoming.reply_to_message_id.as_deref(), Some("bot-1"));
    assert_eq!(incoming.raw, read_json(r#"{"quoted_text":"quoted"}"#));
}

#[test]
fn message_without_sender_or_text_is_dropped() {
    let mut plugin = WeixinPlugin::new();
    let mut message = WeixinRawMessage {
        from_user_id: Some(String::new()),
        context_token: Some("token".into()),
        msg_id: None,
        item_list: Some(vec![make_text_item("hi")]),
    };
    let received = plugin.handle_message(&message, 0);
    assert_eq!((received.update, received.incoming), (None, None));
    message.from_user_id = Some("u".into());
    message.item_list = None;
    let received = plugin.handle_message(&message, 0);
    assert!(received.update.is_some());
    assert_eq!(received.incoming, None);
    assert_eq!(plugin.context_token("u").as_deref(), Some("token"));
    message.context_token = Some(String::new());
    assert_eq!(plugin.handle_message(&message, 0).update, None);
    assert_eq!(plugin.context_token("u").as_deref(), Some("token"));
}

#[test]
fn proactive_send_without_context_stops_before_the_http_request() {
    let mut plugin = WeixinPlugin::new();
    let connection = plugin.initialize(&make_config(Some("token"), Some("account"))).unwrap();
    plugin.connected(&connection);
    let error = plugin.send_message("chat-without-context", &outgoing("桌面消息")).unwrap_err();
    assert!(error.message().contains("需要用户先向机器人发送一条消息"));
    assert!(matches!(error, ChannelError::MessageSendFailed(_)));
}

#[test]
fn answer_is_sent_with_the_last_token_of_the_chat() {
    let mut plugin = WeixinPlugin::new();
    assert_eq!(
        plugin.send_message("u", &outgoing("hi")),
        Err(ChannelError::PlatformApi("Plugin not initialized".into()))
    );
    let connection = plugin.initialize(&make_config(Some("token"), Some("account"))).unwrap();
    plugin.connected(&connection);
    for token in ["first", "second"] {
        plugin.handle_message(
            &WeixinRawMessage {
                from_user_id: Some("u".into()),
                context_token: Some(token.into()),
                msg_id: None,
                item_list: None,
            },
            0,
        );
    }
    let sent = WeixinSend { chat_id: "u".into(), text: "hi".into(), context_token: "second".into() };
    assert_eq!(plugin.send_message("u", &outgoing("hi")), Ok(sent.clone()));
    assert_eq!(plugin.edit_message("u", "ignored", &outgoing("hi")), Ok(sent));
    assert!(plugin.send_message("v", &outgoing("hi")).is_err());
    plugin.stop().unwrap();
    assert_eq!(plugin.context_token("u"), None);
    assert_eq!(
        plugin.send_message("u", &outgoing("hi")),
        Err(ChannelError::PlatformApi("Plugin not initialized".into()))
    );
}

#[test]
fn persisted_context_tokens_are_restored_from_plugin_config() {
    let mut config = make_config(Some("token"), Some("account"));
    config.credentials.extra.push((
        CONTEXT_TOKENS_CONFIG_KEY.into(),
        read_json(r#"{ "chat-1": "context-persisted", "empty": "" }"#).unwrap(),
    ));

    assert_eq!(
        configured_context_tokens(&config),
        vec![("chat-1".into(), "context-persisted".into())]
    );
}

#[test]
fn restored_tokens_replace_those_in_use() {
    let mut plugin = WeixinPlugin::new();
    plugin.handle_message(
        &WeixinRawMessage {
            from_user_id: Some("old".into()),
            context_token: Some("gone".into()),
            msg_id: None,
            item_list: None,
        },
        0,
    );
    let mut config = make_config(Some("token"), Some("account"));
    config.credentials.extra.push((
        CONTEXT_TOKENS_CONFIG_KEY.into(),
        read_json(r#"{ "chat-1": "kept", "number": 7 }"#).unwrap(),
    ));
    plugin.initialize(&config).unwrap();
    assert_eq!(plugin.context_token("old"), None);
    assert_eq!(plugin.context_token("chat-1").as_deref(), Some("kept"));
    assert_eq!(plugin.context_token("number"), None);
}

#[test]
fn later_entry_of_a_chat_is_the_one_restored() {
    let mut plugin = WeixinPlugin::new();
    let mut config = make_config(Some("token"), Some("account"));
    config.credentials.extra.push((
        CONTEXT_TOKENS_CONFIG_KEY.into(),
        Json::Object(vec![
            ("a".into(), Json::Text("first".into())),
            ("b".into(), Json::Text("other".into())),
            ("a".into(), Json::Text("second".into())),
            ("a".into(), Json::Text(String::new())),
        ]),
    ));
    plugin.initialize(&config).unwrap();
    assert_eq!(plugin.context_token("a").as_deref(), Some("second"));
    assert_eq!(plugin.context_token("b").as_deref(), Some("other"));
}

#[test]
fn persisted_poll_cursor_is_restored_from_plugin_config() {
    let mut config = make_config(Some("token"), Some("account"));
    config.credentials.extra.push((
        POLL_STATE_CONFIG_KEY.into(),
        Json::Object(vec![(POLL_CURSOR_ENTRY_KEY.into(), Json::Text("cursor-persisted".into()))]),
    ));

    assert_eq!(configured_poll_cursor(&config), "cursor-persisted");
}

#[test]
fn poll_cursor_update_uses_encrypted_credential_persistence_channel() {
    let update = persist_poll_cursor("cursor-next");
    assert_eq!(update.map_key, POLL_STATE_CONFIG_KEY);
    assert_eq!(update.entry_key, POLL_CURSOR_ENTRY_KEY);
    assert_eq!(update.value, Json::Text("cursor-next".into()));
}

// -- Polling -----------------------------------------------------------------

#[test]
fn new_cursor_is_kept_and_messages_are_handled() {
    let mut poll = WeixinPoll::new("a".into());
    let message = WeixinRawMessage { from_user_id: Some("u".into()), ..Default::default() };
    let step = poll.advance(PollResponse::Updates(WeixinUpdates {
        ret: Some(0),
        errcode: None,
        get_updates_buf: Some("b".into()),
        msgs: Some(vec![message.clone()]),
    }));
    assert_eq!(step.update, Some(persist_poll_cursor("b")));
    assert_eq!(step.messages, vec![message]);
    assert_eq!((step.log, step.failure, step.wait_secs), (PollLogAction::Silent, None, None));
    assert_eq!(poll.cursor(), "b");
    let step = poll.advance(PollResponse::Updates(WeixinUpdates {
        get_updates_buf: Some("b".into()),
        ..Default::default()
    }));
    assert_eq!(step.update, None);
    assert_eq!(step.messages, Vec::new());
}

#[test]
fn expired_cursor_starts_over() {
    for (ret, errcode) in [(Some(-14), None), (Some(0), Some(-14))] {
        let mut poll = WeixinPoll::new("a".into());
        let step = poll.advance(PollResponse::Updates(WeixinUpdates {
            ret,
            errcode,
            get_updates_buf: Some("b".into()),
            msgs: Some(vec![WeixinRawMessage::default()]),
        }));
        assert_eq!(step.update, Some(persist_poll_cursor("")));
        assert_eq!(step.messages, Vec::new());
        assert_eq!(step.failure, None);
        assert_eq!(poll.cursor(), "");
    }
}

#[test]
fn failures_are_waited_out_and_announced_once() {
    let mut poll = WeixinPoll::new("a".into());
    let step = poll.advance(PollResponse::Failed("down".into()));
    assert_eq!(step.failure.as_deref(), Some("down"));
    assert_eq!((step.log, step.wait_secs), (PollLogAction::StartedFailing, Some(2)));
    let step = poll.advance(PollResponse::Updates(WeixinUpdates {
        ret: Some(-3),
        errcode: None,
        get_updates_buf: Some("b".into()),
        msgs: Some(vec![WeixinRawMessage::default()]),
    }));
    assert_eq!(step.failure.as_deref(), Some("getupdates API error ret=Some(-3) errcode=None"));
    assert_eq!((step.log, step.wait_secs), (PollLogAction::StillFailing, Some(4)));
    assert_eq!(step.messages, Vec::new());
    assert_eq!(poll.cursor(), "a");
    assert_eq!(poll.failures(), 2);
    let step = poll.advance(PollResponse::Updates(WeixinUpdates::default()));
    assert_eq!((step.log, step.wait_secs), (PollLogAction::Recovered, None));
    assert_eq!(poll.failures(), 0);
}

#[test]
fn only_errors_are_failures() {
    let updates = |ret: Option<i64>, errcode: Option<i64>| {
        PollResponse::Updates(WeixinUpdates { ret, errcode, ..Default::default() })
    };
    assert!(PollResponse::Failed("down".into()).is_failure());
    assert!(updates(Some(-3), None).is_failure());
    assert!(updates(Some(0), Some(7)).is_failure());
    assert!(!updates(None, None).is_failure());
    assert!(!updates(Some(0), Some(0)).is_failure());
    assert!(!updates(Some(-3), Some(-14)).is_failure());
}

// -- Helpers -----------------------------------------------------------------

fn make_text_item(text: &str) -> WeixinRawItem {
    WeixinRawItem {
        item_type: Some(ITEM_TYPE_TEXT),
        text_item: Some(TextItem { text: Some(text.into()) }),
        ..Default::default()
    }
}

fn make_config(bot_token: Option<&str>, account_id: Option<&str>) -> PluginConfig {
    PluginConfig {
        credentials: PluginCredentials {
            token: None,
            app_id: None,
            app_secret: None,
            encrypt_key: None,
            verification_token: None,
            client_id: None,
            client_secret: None,
            account_id: account_id.map(String::from),
            bot_token: bot_token.map(String::from),
            app_token: None,
            extra: Vec::new(),
        },
        config: None,
    }
}

fn outgoing(text: &str) -> UnifiedOutgoingMessage {
    UnifiedOutgoingMessage {
        message_type: OutgoingMessageType::Text,
        text: Some(text.into()),
        parse_mode: None,
        buttons: None,
        keyboard: None,
        image_url: None,
        file_url: None,
        file_name: None,
        media_actions: None,
        reply_to_message_id: None,
        silent: None,
    }
}
