use saydone_channels::action::{ActionExecutor, MessageResult, Progress, Reply, Request};
use saydone_channels::json::{Json, read_json};
use saydone_channels::reply::RouteQuery;
use saydone_channels::response::{
    build_help_response, build_pairing_response, build_session_created_response, build_unknown_action_response,
    display_cli_name,
};
use saydone_channels::types::{
    ActionBehavior, ActionCategory, ActionContext, AgentConfig, ChannelError, ChannelSession, MessageContentType,
    ParseMode, PluginType, UnifiedAction, UnifiedIncomingMessage, UnifiedMessageContent, UnifiedUser,
};

const OWNER_ID: &str = "owner-test";
const NOW_MS: i64 = 1_750_000_000_000;

/// A recorded route of one owner.
struct Route {
    owner: String,
    conversation: String,
    platform: PluginType,
    chat: String,
    message: String,
    preview: String,
    sent_at: i64,
}

/// The services around the executor, in memory.
#[derive(Default)]
struct World {
    users: Vec<(String, PluginType)>,
    sessions: Vec<(String, String, String)>,
    routes: Vec<Route>,
    backend: Option<String>,
    codes: usize,
    asked: Vec<String>,
    failure: Option<ChannelError>,
}

impl World {
    fn authorize(&mut self, user: &str, platform: PluginType) {
        self.users.push((user.to_owned(), platform));
    }

    fn is_authorized(&self, user: &str, platform: PluginType) -> bool {
        self.users.iter().any(|(id, on)| id == user && *on == platform)
    }

    fn session(&mut self, user: &str, chat: &str) -> Reply {
        let id = format!("session-{}", self.sessions.len() + 1);
        self.sessions.push((id.clone(), user.to_owned(), chat.to_owned()));
        Reply::Session(ChannelSession {
            id,
            agent_type: "acp".to_owned(),
            conversation_id: None,
            created_at: 11,
            last_activity: -22,
        })
    }

    fn resolve(&self, owner: &str, platform: PluginType, query: &RouteQuery) -> Option<String> {
        let mut found: Vec<&Route> = Vec::new();
        let mut unique = false;
        for route in &self.routes {
            if route.owner != owner || route.platform != platform {
                continue;
            }
            let hit = match query {
                RouteQuery::Message { chat_id, message_id } => &route.chat == chat_id && &route.message == message_id,
                RouteQuery::Timestamp { chat_id, reply_timestamp, max_skew_ms } => {
                    &route.chat == chat_id && (route.sent_at - reply_timestamp).abs() <= *max_skew_ms
                }
                RouteQuery::Preview { chat_id, quoted_text, require_unique } => {
                    unique = *require_unique;
                    &route.chat == chat_id && route.preview.contains(quoted_text.as_str())
                }
            };
            if hit {
                found.push(route);
            }
        }
        if unique && found.len() != 1 {
            return None;
        }
        found.first().map(|route| route.conversation.clone())
    }

    fn answer(&mut self, request: &Request) -> Reply {
        if let Some(error) = &self.failure {
            return Reply::Failed(error.clone());
        }
        match request {
            Request::LookupUser { platform_user_id, platform, .. } => Reply::User(
                self.is_authorized(platform_user_id, *platform).then_some(format!("user_{platform_user_id}")),
            ),
            Request::RequestPairing { .. } => {
                self.codes += 1;
                Reply::PairingCode(format!("{:06}", self.codes))
            }
            Request::CheckAuthorized { platform_user_id, platform, .. } => {
                Reply::Authorized(self.is_authorized(platform_user_id, *platform))
            }
            Request::LoadAgentConfig { .. } => Reply::AgentConfig(AgentConfig {
                agent_type: "acp".to_owned(),
                backend: self.backend.clone(),
            }),
            Request::CreateSession { user_id, chat_id, .. } => {
                self.asked.push("create".to_owned());
                self.session(user_id, chat_id)
            }
            Request::ActivateConversation { user_id, chat_id, conversation_id, .. } => {
                self.asked.push(format!("activate {conversation_id}"));
                self.session(user_id, chat_id)
            }
            Request::ResolveRoute { owner_user_id, platform, query } => {
                self.asked.push(format!("{query:?}"));
                Reply::Route(self.resolve(owner_user_id, *platform, query))
            }
        }
    }
}

fn handle(
    executor: &ActionExecutor,
    world: &mut World,
    msg: &UnifiedIncomingMessage,
) -> Result<MessageResult, ChannelError> {
    let mut replies: Vec<Reply> = Vec::new();
    loop {
        match executor.handle_incoming_message(msg, NOW_MS, &replies) {
            Progress::Ask(request) => {
                let answer = world.answer(&request);
                replies.push(answer);
            }
            Progress::Done { value, used } => {
                assert_eq!(used, replies.len());
                return Ok(value);
            }
            Progress::Failed(error) => return Err(error),
            Progress::Unexpected => panic!("an answer was not understood: {replies:?}"),
        }
    }
}

fn setup() -> (ActionExecutor, World) {
    (ActionExecutor::new(Some(OWNER_ID.to_owned())), World::default())
}

fn make_text_message(user_id: &str, chat_id: &str, text: &str, platform: PluginType) -> UnifiedIncomingMessage {
    UnifiedIncomingMessage {
        owner_user_id: None,
        id: "msg_1".to_owned(),
        platform,
        chat_id: chat_id.to_owned(),
        user: UnifiedUser {
            id: user_id.to_owned(),
            username: None,
            display_name: "Test".to_owned(),
            avatar_url: None,
        },
        content: UnifiedMessageContent {
            content_type: MessageContentType::Text,
            text: text.to_owned(),
            attachments: None,
        },
        timestamp: NOW_MS,
        reply_to_message_id: None,
        action: None,
        raw: None,
    }
}

fn make_reply_message(user_id: &str, chat_id: &str, text: &str, reply_to_message_id: &str) -> UnifiedIncomingMessage {
    UnifiedIncomingMessage {
        reply_to_message_id: Some(reply_to_message_id.to_owned()),
        ..make_text_message(user_id, chat_id, text, PluginType::Telegram)
    }
}

fn make_action_message(
    user_id: &str,
    chat_id: &str,
    action_name: &str,
    category: ActionCategory,
    platform: PluginType,
    params: Option<Vec<(String, String)>>,
) -> UnifiedIncomingMessage {
    UnifiedIncomingMessage {
        content: UnifiedMessageContent {
            content_type: MessageContentType::Action,
            text: String::new(),
            attachments: None,
        },
        action: Some(UnifiedAction {
            action: action_name.to_owned(),
            category,
            params,
            context: ActionContext {
                platform,
                user_id: user_id.to_owned(),
                chat_id: chat_id.to_owned(),
                message_id: None,
                session_id: None,
            },
        }),
        ..make_text_message(user_id, chat_id, "", platform)
    }
}

fn system_action(name: &str) -> UnifiedIncomingMessage {
    make_action_message("tg_42", "chat_1", name, ActionCategory::System, PluginType::Telegram, None)
}

fn route(conversation: &str, platform: PluginType, chat: &str, message: &str, preview: &str, sent_at: i64) -> Route {
    Route {
        owner: OWNER_ID.to_owned(),
        conversation: conversation.to_owned(),
        platform,
        chat: chat.to_owned(),
        message: message.to_owned(),
        preview: preview.to_owned(),
        sent_at,
    }
}

fn response_text(result: MessageResult) -> String {
    match result {
        MessageResult::Action(response) => response.text.unwrap(),
        other => panic!("Expected Action result, got {other:?}"),
    }
}

// ── Authorization ──────────────────────────────────────────────────

#[test]
fn unauthorized_user_gets_pairing_response() {
    let (executor, mut world) = setup();
    let msg = make_text_message("tg_42", "chat_1", "Hello", PluginType::Telegram);

    let result = handle(&executor, &mut world, &msg).unwrap();
    match result {
        MessageResult::Action(resp) => {
            assert_eq!(resp.behavior, ActionBehavior::Send);
            let text = resp.text.unwrap();
            assert!(text.contains("配对码"));
            assert!(resp.buttons.is_some());
        }
        _ => panic!("Expected Action result for unauthorized user"),
    }
}

#[test]
fn missing_owner_user_id_is_rejected() {
    let executor = ActionExecutor::new(None);
    let mut world = World::default();
    let msg = make_text_message("tg_42", "chat_1", "Hello", PluginType::Telegram);

    let err = handle(&executor, &mut world, &msg).unwrap_err();
    assert!(matches!(err, ChannelError::InvalidConfig(_)));
    assert!(err.message().contains("owner user"));
}

#[test]
fn authorized_user_text_without_reply_route_is_rejected() {
    let (executor, mut world) = setup();
    world.authorize("tg_42", PluginType::Telegram);

    let msg = make_text_message("tg_42", "chat_1", "Hello AI", PluginType::Telegram);
    let result = handle(&executor, &mut world, &msg).unwrap();

    let MessageResult::Action(response) = result else {
        panic!("Expected unbound-session instructions");
    };
    assert!(response.text.as_deref().is_some_and(|text| text.contains("/new")));
}

#[test]
fn owner_of_the_message_comes_before_the_executors() {
    let executor = ActionExecutor::new(Some(OWNER_ID.to_owned()));
    let mut msg = make_text_message("tg_42", "chat_1", "Hello", PluginType::Telegram);
    msg.owner_user_id = Some("someone".to_owned());
    let step = executor.handle_incoming_message(&msg, NOW_MS, &Vec::new());
    assert_eq!(
        step,
        Progress::Ask(Request::LookupUser {
            owner_user_id: "someone".to_owned(),
            platform_user_id: "tg_42".to_owned(),
            platform: PluginType::Telegram,
        })
    );
    assert_eq!(executor.owner_user_id(), Some(OWNER_ID));
    assert_eq!(ActionExecutor::new(None).owner_user_id(), None);
}

#[test]
fn failed_request_ends_the_flow() {
    let (executor, mut world) = setup();
    world.failure = Some(ChannelError::Database("gone".to_owned()));
    let msg = make_text_message("tg_42", "chat_1", "Hello", PluginType::Telegram);
    assert_eq!(
        handle(&executor, &mut world, &msg).unwrap_err(),
        ChannelError::Database("gone".to_owned())
    );
}

#[test]
fn wrong_answer_is_unexpected() {
    let (executor, _) = setup();
    let msg = make_text_message("tg_42", "chat_1", "Hello", PluginType::Telegram);
    let replies = vec![Reply::Authorized(true)];
    assert_eq!(executor.handle_incoming_message(&msg, NOW_MS, &replies), Progress::Unexpected);
}

#[test]
fn later_replies_do_not_change_a_decision() {
    let (executor, _) = setup();
    let msg = make_text_message("tg_42", "chat_1", "Hello", PluginType::Telegram);
    let short = vec![Reply::User(Some("user_tg_42".to_owned()))];
    let long = vec![Reply::User(Some("user_tg_42".to_owned())), Reply::Authorized(false)];
    assert_eq!(
        executor.handle_incoming_message(&msg, NOW_MS, &short),
        executor.handle_incoming_message(&msg, NOW_MS, &long)
    );
}

#[test]
fn pairing_request_carries_the_display_name() {
    let (executor, _) = setup();
    let msg = make_text_message("tg_42", "chat_1", "/new", PluginType::Telegram);
    let step = executor.handle_incoming_message(&msg, NOW_MS, &vec![Reply::User(None)]);
    assert_eq!(
        step,
        Progress::Ask(Request::RequestPairing {
            owner_user_id: OWNER_ID.to_owned(),
            platform_user_id: "tg_42".to_owned(),
            platform: PluginType::Telegram,
            display_name: Some("Test".to_owned()),
        })
    );
}

// ── Platform actions ───────────────────────────────────────────────

#[test]
fn pairing_show_generates_code() {
    let (executor, mut world) = setup();
    world.authorize("tg_42", PluginType::Telegram);

    let msg = make_action_message(
        "tg_42",
        "chat_1",
        "pairing.show",
        ActionCategory::Platform,
        PluginType::Telegram,
        None,
    );
    let result = handle(&executor, &mut world, &msg).unwrap();

    match result {
        MessageResult::Action(resp) => {
            let text = resp.text.unwrap();
            assert!(text.contains("配对码"));
        }
        _ => panic!("Expected Action result"),
    }
}

#[test]
fn pairing_check_authorized() {
    let (executor, mut world) = setup();
    world.authorize("tg_42", PluginType::Telegram);

    let msg = make_action_message(
        "tg_42",
        "chat_1",
        "pairing.check",
        ActionCategory::Platform,
        PluginType::Telegram,
        None,
    );
    let result = handle(&executor, &mut world, &msg).unwrap();

    match result {
        MessageResult::Action(resp) => {
            let text = resp.text.unwrap();
            assert!(text.contains("授权已通过"));
        }
        _ => panic!("Expected Action result"),
    }
}

#[test]
fn pairing_check_not_authorized() {
    let (executor, mut world) = setup();
    world.authorize("tg_42", PluginType::Telegram);

    let msg = make_action_message(
        "tg_99", // different user
        "chat_1",
        "pairing.check",
        ActionCategory::Platform,
        PluginType::Telegram,
        None,
    );
    world.authorize("tg_99", PluginType::Telegram);

    let result = handle(&executor, &mut world, &msg).unwrap();
    match result {
        MessageResult::Action(resp) => {
            let text = resp.text.unwrap();
            // tg_99 is authorized
            assert!(text.contains("授权已通过"));
        }
        _ => panic!("Expected Action result"),
    }
}

#[test]
fn pairing_check_while_waiting_offers_another_check() {
    let (executor, mut world) = setup();
    world.authorize("tg_42", PluginType::Telegram);
    let mut msg = make_action_message(
        "tg_42",
        "chat_1",
        "pairing.check",
        ActionCategory::Platform,
        PluginType::Telegram,
        None,
    );
    msg.action.as_mut().unwrap().context.user_id = "tg_99".to_owned();
    let MessageResult::Action(resp) = handle(&executor, &mut world, &msg).unwrap() else {
        panic!("Expected Action result");
    };
    assert_eq!(
        resp.text.as_deref(),
        Some("仍在等待授权。请让管理员前往 SayDoneAI → 远程连接 → Channels 处理。")
    );
    let buttons = resp.buttons.unwrap();
    assert_eq!(buttons.len(), 1);
    assert_eq!(buttons[0][0].action, "pairing.refresh");
    assert_eq!(buttons[0][1].action, "pairing.check");
}

#[test]
fn pairing_help_returns_instructions() {
    let (executor, mut world) = setup();
    world.authorize("tg_42", PluginType::Telegram);

    let msg = make_action_message(
        "tg_42",
        "chat_1",
        "pairing.help",
        ActionCategory::Platform,
        PluginType::Telegram,
        None,
    );
    let result = handle(&executor, &mut world, &msg).unwrap();
    match result {
        MessageResult::Action(resp) => {
            let text = resp.text.unwrap();
            assert!(text.contains("完成授权"));
        }
        _ => panic!("Expected Action result"),
    }
}

// ── System actions ─────────────────────────────────────────────────

#[test]
fn session_new_creates_session() {
    let (executor, mut world) = setup();
    world.authorize("tg_42", PluginType::Telegram);

    let result = handle(&executor, &mut world, &system_action("session.new")).unwrap();
    match result {
        MessageResult::RoutedAction { response: resp, session_id, .. } => {
            let text = resp.text.unwrap();
            assert!(text.contains("新会话已就绪"));
            assert!(!session_id.is_empty());
        }
        _ => panic!("Expected routed action result"),
    }
}

#[test]
fn session_new_preserves_existing_sessions() {
    let (executor, mut world) = setup();
    world.authorize("tg_42", PluginType::Telegram);

    let r1 = handle(&executor, &mut world, &system_action("session.new")).unwrap();
    let sid1 = match r1 {
        MessageResult::RoutedAction { session_id, .. } => session_id,
        _ => panic!("Expected routed action"),
    };

    let r2 = handle(&executor, &mut world, &system_action("session.new")).unwrap();
    let sid2 = match r2 {
        MessageResult::RoutedAction { session_id, .. } => session_id,
        _ => panic!("Expected routed action"),
    };
    assert_ne!(sid1, sid2);

    let user_chat_sessions: Vec<_> =
        world.sessions.iter().filter(|(_, user, chat)| user == "user_tg_42" && chat == "chat_1").collect();
    assert_eq!(user_chat_sessions.len(), 2);
    assert_eq!(world.asked, vec!["create", "create"]);
}

#[test]
fn session_status_without_reply_route_shows_instructions() {
    let (executor, mut world) = setup();
    world.authorize("tg_42", PluginType::Telegram);

    let result = handle(&executor, &mut world, &system_action("session.status")).unwrap();
    match result {
        MessageResult::Action(resp) => {
            let text = resp.text.unwrap();
            assert!(text.contains("/new"));
        }
        _ => panic!("Expected Action result"),
    }
}

#[test]
fn session_status_under_a_known_message_shows_the_session() {
    let (executor, mut world) = setup();
    world.authorize("tg_42", PluginType::Telegram);
    world.backend = Some("PI".to_owned());
    world.routes.push(route("desktop-a", PluginType::Telegram, "chat_1", "bot-a", "Answer", 0));
    let mut msg = system_action("session.status");
    msg.action.as_mut().unwrap().context.message_id = Some("bot-a".to_owned());

    let result = handle(&executor, &mut world, &msg).unwrap();
    match result {
        MessageResult::RoutedAction { response, session_id, conversation_id, follow_up_text } => {
            assert_eq!(
                response.text.as_deref(),
                Some("会话：session-\nCLI：SayDone CLI\n创建时间：11\n最后活跃时间：-22")
            );
            assert_eq!(session_id, "session-2");
            assert_eq!(conversation_id.as_deref(), Some("desktop-a"));
            assert_eq!(follow_up_text, None);
        }
        other => panic!("Expected routed action, got {other:?}"),
    }
}

#[test]
fn session_created_from_a_menu_names_its_tool() {
    let session = ChannelSession {
        id: "12345678-abcd".to_owned(),
        agent_type: "codex".to_owned(),
        conversation_id: None,
        created_at: 0,
        last_activity: 0,
    };
    let response = build_session_created_response(None, &session);
    assert_eq!(response.text.as_deref(), Some("新会话已创建。\nCLI：codex\n会话：12345678"));
    assert_eq!(response.buttons.unwrap()[0][0].action, "help.show");
}

#[test]
fn help_show_returns_menu() {
    let (executor, mut world) = setup();
    world.authorize("tg_42", PluginType::Telegram);

    let result = handle(&executor, &mut world, &system_action("help.show")).unwrap();
    match result {
        MessageResult::Action(resp) => {
            assert!(resp.text.is_some());
            assert!(resp.buttons.is_some());
            let buttons = resp.buttons.unwrap();
            assert!(buttons.len() >= 2); // at least 2 rows
            assert!(
                !buttons.iter().flatten().any(|button| button.action == "agent.show"),
                "help menu must not expose direct agent selection"
            );
        }
        _ => panic!("Expected Action result"),
    }
}

#[test]
fn agent_show_is_treated_as_unknown_action() {
    let (executor, mut world) = setup();
    world.authorize("tg_42", PluginType::Telegram);

    let result = handle(&executor, &mut world, &system_action("agent.show")).unwrap();
    match result {
        MessageResult::Action(resp) => {
            let text = resp.text.unwrap();
            assert!(text.contains("无法识别的操作"));
            assert!(text.contains("agent.show"));
        }
        _ => panic!("Expected Action result"),
    }
}

#[test]
fn agent_select_is_treated_as_unknown_action() {
    let (executor, mut world) = setup();
    world.authorize("tg_42", PluginType::Telegram);

    let params = vec![("agentType".to_owned(), "acp".to_owned())];
    let select_msg = make_action_message(
        "tg_42",
        "chat_1",
        "agent.select",
        ActionCategory::System,
        PluginType::Telegram,
        Some(params),
    );
    let result = handle(&executor, &mut world, &select_msg).unwrap();
    match result {
        MessageResult::Action(resp) => {
            let text = resp.text.unwrap();
            assert!(text.contains("无法识别的操作"));
            assert!(text.contains("agent.select"));
        }
        _ => panic!("Expected Action result"),
    }
}

#[test]
fn help_pages_and_settings_have_their_texts() {
    let (executor, mut world) = setup();
    world.authorize("tg_42", PluginType::Telegram);
    for (action, start) in [
        ("help.features", "功能：\n• 使用已配置的 CLI 和模型聊天"),
        ("help.pairing", "配对：\n发送任意消息 → 获取 6 位配对码"),
        ("help.tips", "使用提示：\n• 发送 /new 创建空白新会话"),
        ("settings.show", "渠道设置由 SayDoneAI 桌面应用管理。\n请前往远程连接"),
    ] {
        let text = response_text(handle(&executor, &mut world, &system_action(action)).unwrap());
        assert!(text.starts_with(start), "{action}: {text}");
    }
}

// ── Chat actions ───────────────────────────────────────────────────

#[test]
fn system_confirm_returns_answer() {
    let (executor, mut world) = setup();
    world.authorize("tg_42", PluginType::Telegram);

    let params = vec![
        ("callId".to_owned(), "call_123".to_owned()),
        ("value".to_owned(), "true".to_owned()),
    ];
    let msg = make_action_message(
        "tg_42",
        "chat_1",
        "system.confirm",
        ActionCategory::Chat,
        PluginType::Telegram,
        Some(params),
    );
    let result = handle(&executor, &mut world, &msg).unwrap();
    match result {
        MessageResult::Action(resp) => {
            assert_eq!(resp.behavior, ActionBehavior::Answer);
            assert_eq!(resp.toast.as_deref(), Some("已确认"));
        }
        _ => panic!("Expected Action result"),
    }
}

#[test]
fn action_copy_returns_answer() {
    let (executor, mut world) = setup();
    world.authorize("tg_42", PluginType::Telegram);

    let msg = make_action_message(
        "tg_42",
        "chat_1",
        "action.copy",
        ActionCategory::Chat,
        PluginType::Telegram,
        None,
    );
    let result = handle(&executor, &mut world, &msg).unwrap();
    match result {
        MessageResult::Action(resp) => {
            assert_eq!(resp.behavior, ActionBehavior::Answer);
            assert!(resp.toast.as_deref().unwrap().contains("已复制"));
        }
        _ => panic!("Expected Action result"),
    }
}

#[test]
fn chat_actions_are_toasted_or_unknown() {
    let (executor, mut world) = setup();
    world.authorize("tg_42", PluginType::Telegram);
    for name in ["chat.send", "chat.regenerate", "chat.continue"] {
        let msg = make_action_message("tg_42", "chat_1", name, ActionCategory::Chat, PluginType::Telegram, None);
        let MessageResult::Action(resp) = handle(&executor, &mut world, &msg).unwrap() else {
            panic!("Expected Action result");
        };
        assert_eq!(resp.behavior, ActionBehavior::Send);
        assert_eq!(resp.toast.as_deref(), Some("处理中…"));
        assert_eq!(resp.text, None);
    }
    let msg = make_action_message("tg_42", "chat_1", "chat.sing", ActionCategory::Chat, PluginType::Telegram, None);
    assert_eq!(response_text(handle(&executor, &mut world, &msg).unwrap()), "无法识别的操作：chat.sing");
}

#[test]
fn button_under_a_known_message_routes_its_response() {
    let (executor, mut world) = setup();
    world.authorize("tg_42", PluginType::Telegram);
    world.routes.push(route("desktop-a", PluginType::Telegram, "chat_1", "bot-a", "Answer", 0));
    let mut msg = system_action("help.show");
    msg.action.as_mut().unwrap().context.message_id = Some("bot-a".to_owned());
    match handle(&executor, &mut world, &msg).unwrap() {
        MessageResult::RoutedAction { response, conversation_id, .. } => {
            assert_eq!(response, build_help_response());
            assert_eq!(conversation_id.as_deref(), Some("desktop-a"));
        }
        other => panic!("Expected routed action, got {other:?}"),
    }
    msg.action.as_mut().unwrap().context.message_id = Some("elsewhere".to_owned());
    assert_eq!(
        handle(&executor, &mut world, &msg).unwrap(),
        MessageResult::Action(build_help_response())
    );
}

// ── Unknown actions ────────────────────────────────────────────────

#[test]
fn unknown_platform_action() {
    let (executor, mut world) = setup();
    world.authorize("tg_42", PluginType::Telegram);

    let msg = make_action_message(
        "tg_42",
        "chat_1",
        "unknown.action",
        ActionCategory::Platform,
        PluginType::Telegram,
        None,
    );
    let result = handle(&executor, &mut world, &msg).unwrap();
    match result {
        MessageResult::Action(resp) => {
            let text = resp.text.unwrap();
            assert!(text.contains("无法识别的操作"));
        }
        _ => panic!("Expected Action result"),
    }
}

// ── Responses ──────────────────────────────────────────────────────

#[test]
fn pairing_response_contains_code() {
    let resp = build_pairing_response("123456");
    let text = resp.text.unwrap();
    assert!(text.contains("123456"));
    assert!(text.contains("配对码"));
    assert_eq!(resp.behavior, ActionBehavior::Send);
    assert!(resp.buttons.is_some());
}

#[test]
fn pairing_response_has_its_exact_text() {
    assert_eq!(
        build_pairing_response("42").text.as_deref(),
        Some(
            "欢迎使用 SayDoneAI。首次使用需要完成授权。\n\n\
             你的配对码：*42*\n\n\
             请把配对码交给管理员，由管理员在 SayDoneAI → 远程连接 → Channels 中批准。\n\
             配对码将在 10 分钟后过期。"
        )
    );
}

#[test]
fn help_response_has_buttons() {
    let resp = build_help_response();
    assert!(resp.text.is_some());
    let buttons = resp.buttons.unwrap();
    assert!(!buttons.is_empty());
}

#[test]
fn unknown_action_response_includes_name() {
    let resp = build_unknown_action_response("foo.bar");
    let text = resp.text.unwrap();
    assert!(text.contains("foo.bar"));
}

#[test]
fn pi_backend_is_presented_as_saydone_cli() {
    assert_eq!(display_cli_name("pi"), "SayDone CLI");
    assert_eq!(display_cli_name("codex"), "codex");
}

#[test]
fn pi_backend_is_recognized_in_any_case() {
    assert_eq!(display_cli_name("Pi"), "SayDone CLI");
    assert_eq!(display_cli_name("pie"), "pie");
}

#[test]
fn only_unknown_names_are_answered_as_unknown() {
    let known = [
        (
            ActionCategory::System,
            vec![
                "session.new",
                "session.status",
                "help.show",
                "help.features",
                "help.pairing",
                "help.tips",
                "settings.show",
            ],
        ),
        (ActionCategory::Platform, vec!["pairing.show", "pairing.refresh", "pairing.check", "pairing.help"]),
        (
            ActionCategory::Chat,
            vec!["chat.send", "chat.regenerate", "chat.continue", "action.copy", "system.confirm"],
        ),
    ];
    let unknown = |category: ActionCategory, name: &str| {
        let (executor, mut world) = setup();
        world.authorize("tg_42", PluginType::Telegram);
        let msg = make_action_message("tg_42", "chat_1", name, category, PluginType::Telegram, None);
        match handle(&executor, &mut world, &msg).unwrap() {
            MessageResult::Action(response) | MessageResult::RoutedAction { response, .. } => {
                response == build_unknown_action_response(name)
            }
            other => panic!("an action is answered: {other:?}"),
        }
    };
    for (category, names) in &known {
        for (_, others) in &known {
            for name in others {
                assert_eq!(unknown(*category, name), !names.contains(name), "{category:?} {name}");
            }
        }
        assert!(unknown(*category, ""));
        assert!(unknown(*category, "help.show "));
    }
    for button in build_help_response().buttons.unwrap().iter().flatten() {
        assert!(!unknown(ActionCategory::System, &button.action));
    }
    for button in build_pairing_response("123456").buttons.unwrap().iter().flatten() {
        assert!(!unknown(ActionCategory::Platform, &button.action));
    }
}

// ── Commands and replies ───────────────────────────────────────────

#[test]
fn action_unauthorized_triggers_pairing() {
    let (executor, mut world) = setup();

    let msg = make_text_message("new_user", "chat1", "Hello", PluginType::Telegram);
    let result = handle(&executor, &mut world, &msg).unwrap();

    match result {
        MessageResult::Action(resp) => {
            assert_eq!(resp.behavior, ActionBehavior::Send);
            let text = resp.text.unwrap();
            assert!(text.contains("配对码"));
            assert!(resp.buttons.is_some());
        }
        _ => panic!("Expected Action (pairing) for unauthorized user"),
    }
}

#[test]
fn action_authorized_plain_text_requires_reply_route() {
    let (executor, mut world) = setup();
    world.authorize("tg_42", PluginType::Telegram);

    let msg = make_text_message("tg_42", "chat1", "Hello AI", PluginType::Telegram);
    let result = handle(&executor, &mut world, &msg).unwrap();

    match result {
        MessageResult::Action(response) => {
            assert!(response.text.as_deref().is_some_and(|text| text.contains("/new")));
        }
        other => panic!("expected reply-routing instructions, got {other:?}"),
    }
    assert!(world.asked.is_empty());
}

#[test]
fn action_help_show() {
    let (executor, mut world) = setup();
    world.authorize("tg_42", PluginType::Telegram);

    let msg =
        make_action_message("tg_42", "chat1", "help.show", ActionCategory::System, PluginType::Telegram, None);
    let result = handle(&executor, &mut world, &msg).unwrap();

    match result {
        MessageResult::Action(resp) => {
            assert!(resp.text.is_some());
            assert!(resp.buttons.is_some());
            let buttons = resp.buttons.unwrap();
            assert!(buttons.len() >= 2);
        }
        _ => panic!("Expected Action result"),
    }
}

#[test]
fn action_session_new() {
    let (executor, mut world) = setup();
    world.authorize("tg_42", PluginType::Telegram);

    let msg = make_text_message("tg_42", "chat1", "/new", PluginType::Telegram);
    let result = handle(&executor, &mut world, &msg).unwrap();

    match result {
        MessageResult::RoutedAction { response: resp, session_id, .. } => {
            assert_eq!(resp.parse_mode, Some(ParseMode::HTML));
            let text = resp.text.unwrap();
            assert!(text.contains("新会话已就绪"));
            assert!(text.contains("引用回复这条消息"));
            assert!(!session_id.is_empty());
        }
        _ => panic!("Expected routed action result"),
    }
}

#[test]
fn action_session_new_with_prompt_dispatches_prompt_without_ready_message() {
    let (executor, mut world) = setup();
    world.authorize("tg_42", PluginType::Telegram);

    let msg = make_text_message("tg_42", "chat1", "/new hello", PluginType::Telegram);
    let result = handle(&executor, &mut world, &msg).unwrap();

    match result {
        MessageResult::RoutedAction { follow_up_text, response, session_id, .. } => {
            assert_eq!(follow_up_text.as_deref(), Some("hello"));
            assert!(response.text.is_none());
            assert!(!session_id.is_empty());
        }
        _ => panic!("Expected routed action result"),
    }
}

#[test]
fn action_session_new_preserves_existing_sessions() {
    let (executor, mut world) = setup();
    world.authorize("tg_42", PluginType::Telegram);

    let new_message = || {
        make_action_message("tg_42", "chat1", "session.new", ActionCategory::System, PluginType::Telegram, None)
    };
    let first_session_id = match handle(&executor, &mut world, &new_message()).unwrap() {
        MessageResult::RoutedAction { session_id, .. } => session_id,
        _ => panic!("Expected routed action result"),
    };
    let second_session_id = match handle(&executor, &mut world, &new_message()).unwrap() {
        MessageResult::RoutedAction { session_id, .. } => session_id,
        _ => panic!("Expected routed action result"),
    };
    assert_ne!(first_session_id, second_session_id);

    let user_sessions: Vec<_> = world.sessions.iter().filter(|(_, _, chat)| chat == "chat1").collect();
    assert_eq!(user_sessions.len(), 2);
}

#[test]
fn action_replies_route_to_the_exact_desktop_conversation() {
    let (executor, mut world) = setup();
    world.authorize("tg_42", PluginType::Telegram);
    world.routes.push(route("desktop-a", PluginType::Telegram, "chat1", "bot-a", "Answer A", 100));
    world.routes.push(route("desktop-b", PluginType::Telegram, "chat1", "bot-b", "Answer B", 200));

    let reply_a = handle(&executor, &mut world, &make_reply_message("tg_42", "chat1", "Continue A", "bot-a")).unwrap();
    let reply_b = handle(&executor, &mut world, &make_reply_message("tg_42", "chat1", "Continue B", "bot-b")).unwrap();
    let routed_a = match reply_a {
        MessageResult::Dispatched { conversation_id, .. } => conversation_id,
        _ => panic!("Expected reply A to dispatch"),
    };
    let routed_b = match reply_b {
        MessageResult::Dispatched { conversation_id, .. } => conversation_id,
        _ => panic!("Expected reply B to dispatch"),
    };
    assert_eq!(routed_a.as_deref(), Some("desktop-a"));
    assert_eq!(routed_b.as_deref(), Some("desktop-b"));

    // A route counts for its own chat, platform and owner only.
    let elsewhere = make_reply_message("tg_42", "other-chat", "Continue A", "bot-a");
    assert!(matches!(handle(&executor, &mut world, &elsewhere).unwrap(), MessageResult::Action(_)));
    world.authorize("tg_42", PluginType::Lark);
    let mut on_lark = make_reply_message("tg_42", "chat1", "Continue A", "bot-a");
    on_lark.platform = PluginType::Lark;
    assert!(matches!(handle(&executor, &mut world, &on_lark).unwrap(), MessageResult::Action(_)));
    let mut of_other = make_reply_message("tg_42", "chat1", "Continue A", "bot-a");
    of_other.owner_user_id = Some("other-owner".to_owned());
    assert!(matches!(handle(&executor, &mut world, &of_other).unwrap(), MessageResult::Action(_)));

    let unknown = handle(&executor, &mut world, &make_reply_message("tg_42", "chat1", "Unknown", "missing")).unwrap();
    assert!(matches!(unknown, MessageResult::Action(_)));
}

#[test]
fn dispatched_reply_names_owner_and_session() {
    let (executor, mut world) = setup();
    world.authorize("tg_42", PluginType::Telegram);
    world.routes.push(route("desktop-a", PluginType::Telegram, "chat1", "bot-a", "Answer A", 100));
    let result = handle(&executor, &mut world, &make_reply_message("tg_42", "chat1", "Continue", "bot-a")).unwrap();
    assert_eq!(
        result,
        MessageResult::Dispatched {
            owner_user_id: OWNER_ID.to_owned(),
            session_id: "session-1".to_owned(),
            conversation_id: Some("desktop-a".to_owned()),
        }
    );
    assert_eq!(world.asked.last().map(String::as_str), Some("activate desktop-a"));
}

#[test]
fn lark_reply_falls_back_to_the_users_route() {
    let (executor, mut world) = setup();
    world.authorize("ou_1", PluginType::Lark);
    world.routes.push(route("desktop-a", PluginType::Lark, "ou_1", "bot-a", "Answer A", 100));
    let mut msg = make_reply_message("ou_1", "oc_group", "Continue", "bot-a");
    msg.platform = PluginType::Lark;
    match handle(&executor, &mut world, &msg).unwrap() {
        MessageResult::Dispatched { conversation_id, .. } => assert_eq!(conversation_id.as_deref(), Some("desktop-a")),
        other => panic!("Expected dispatch, got {other:?}"),
    }
}

#[test]
fn weixin_reply_falls_back_to_time_and_then_to_its_preview() {
    let (executor, mut world) = setup();
    world.authorize("wx_1", PluginType::Weixin);
    world.routes.push(route("by-time", PluginType::Weixin, "wx_1", "bot-a", "first", NOW_MS - 60_000));
    world.routes.push(route("by-text", PluginType::Weixin, "wx_1", "bot-b", "AI：answer line", NOW_MS - 900_000));

    let near = (NOW_MS - 61_000) as u128 * 4_194_304 + 7;
    let mut msg = make_reply_message("wx_1", "wx_1", "Continue", &near.to_string());
    msg.platform = PluginType::Weixin;
    match handle(&executor, &mut world, &msg).unwrap() {
        MessageResult::Dispatched { conversation_id, .. } => assert_eq!(conversation_id.as_deref(), Some("by-time")),
        other => panic!("Expected dispatch, got {other:?}"),
    }

    let mut msg = make_reply_message("wx_1", "wx_1", "Continue", "unknown");
    msg.platform = PluginType::Weixin;
    msg.raw = read_json(r#"{"quoted_text":"AI：  answer   line  \r\n"}"#);
    match handle(&executor, &mut world, &msg).unwrap() {
        MessageResult::Dispatched { conversation_id, .. } => assert_eq!(conversation_id.as_deref(), Some("by-text")),
        other => panic!("Expected dispatch, got {other:?}"),
    }
}

#[test]
fn message_of_an_action_kind_is_not_read_as_a_command() {
    let (executor, mut world) = setup();
    world.authorize("tg_42", PluginType::Telegram);
    let mut msg = make_text_message("tg_42", "chat_1", "/help", PluginType::Telegram);
    assert_eq!(
        handle(&executor, &mut world, &msg).unwrap(),
        MessageResult::Action(build_help_response())
    );
    msg.content.content_type = MessageContentType::Action;
    assert!(response_text(handle(&executor, &mut world, &msg).unwrap()).starts_with("我还不知道"));
    msg.raw = Some(Json::Null);
    assert!(response_text(handle(&executor, &mut world, &msg).unwrap()).starts_with("我还不知道"));
}
