use saydone_channels::action::MessageResult;
use saydone_channels::mirror::ChannelMirrorTargetRef;
use saydone_channels::orchestrator::{ChannelOrchestrator, Handling, Outcome, Task, send_action_response};
use saydone_channels::repository::ConversationRoute;
use saydone_channels::response::{build_help_response, build_session_ready_response};
use saydone_channels::stream_relay::ChannelDeliveryReceipt;
use saydone_channels::types::{
    ActionBehavior, ChannelSession, MessageContentType, ParseMode, PluginType, UnifiedIncomingMessage,
    UnifiedMessageContent, UnifiedUser, text_message,
};

fn message(text: &str) -> UnifiedIncomingMessage {
    UnifiedIncomingMessage {
        owner_user_id: None,
        id: "m".to_owned(),
        platform: PluginType::Telegram,
        chat_id: "chat".to_owned(),
        user: UnifiedUser {
            id: "tg_42".to_owned(),
            username: None,
            display_name: "Test".to_owned(),
            avatar_url: None,
        },
        content: UnifiedMessageContent {
            content_type: MessageContentType::Text,
            text: text.to_owned(),
            attachments: None,
        },
        timestamp: 0,
        reply_to_message_id: None,
        action: None,
        raw: None,
    }
}

fn session(conversation_id: Option<&str>) -> ChannelSession {
    ChannelSession {
        id: "s-1".to_owned(),
        agent_type: "acp".to_owned(),
        conversation_id: conversation_id.map(String::from),
        created_at: 0,
        last_activity: 0,
    }
}

fn receipt() -> ChannelDeliveryReceipt {
    ChannelDeliveryReceipt { message_id: "bot-1".to_owned(), started_at: 5, completed_at: 6 }
}

fn route(conversation: &str, preview: Option<&str>) -> ConversationRoute {
    ConversationRoute {
        conversation_id: conversation.to_owned(),
        platform_type: "telegram".to_owned(),
        chat_id: "chat".to_owned(),
        message_id: "bot-1".to_owned(),
        preview_text: preview.map(String::from),
        sent_at: 6,
        delivery_started_at: Some(5),
        delivery_completed_at: Some(6),
    }
}

/// Handles a message whose result is `result`; `agent` says what the agent answers.
fn handle(
    orchestrator: &ChannelOrchestrator,
    msg: &UnifiedIncomingMessage,
    result: &MessageResult,
    answer: impl Fn(&Task) -> Outcome,
) -> Vec<Task> {
    let mut outcomes: Vec<Outcome> = Vec::new();
    let mut tasks = Vec::new();
    loop {
        match orchestrator.handle_message(msg, result, &outcomes) {
            Handling::Do(task) => {
                outcomes.push(answer(&task));
                tasks.push(task);
            }
            Handling::Done { used, .. } => {
                assert_eq!(used, outcomes.len());
                return tasks;
            }
            Handling::Unexpected => panic!("an outcome was not understood: {outcomes:?}"),
        }
    }
}

fn usual(task: &Task) -> Outcome {
    match task {
        Task::Format { text, .. } => Outcome::Formatted(format!("<{text}>")),
        Task::Send { .. } => Outcome::Delivered(Some(receipt())),
        Task::Edit { .. } => Outcome::Edited(Some((7, 8))),
        Task::LoadSession { .. } => Outcome::Session(Some(session(None))),
        Task::EnsureConversation { .. } => Outcome::Conversation(Some("c-new".to_owned())),
        Task::BindConversation { .. } => Outcome::Bound(true),
        Task::RecordRoute { .. } | Task::RecordReplyRoute { .. } => Outcome::Recorded,
        Task::Lock { .. } => Outcome::Locked,
        Task::MarkTurn { .. } => Outcome::Marked,
        Task::SendToAgent { .. } => Outcome::Accepted { conversation_id: "c-agent".to_owned(), has_stream: true },
        Task::Relay { .. } => Outcome::Relayed,
    }
}

fn names(tasks: &[Task]) -> Vec<&'static str> {
    tasks
        .iter()
        .map(|task| match task {
            Task::Format { .. } => "format",
            Task::Send { .. } => "send",
            Task::Edit { .. } => "edit",
            Task::LoadSession { .. } => "session",
            Task::EnsureConversation { .. } => "ensure",
            Task::BindConversation { .. } => "bind",
            Task::RecordRoute { .. } => "route",
            Task::RecordReplyRoute { .. } => "reply route",
            Task::Lock { .. } => "lock",
            Task::MarkTurn { .. } => "mark",
            Task::SendToAgent { .. } => "agent",
            Task::Relay { .. } => "relay",
        })
        .collect()
}

fn orchestrator() -> ChannelOrchestrator {
    ChannelOrchestrator::new(Some("owner".to_owned()))
}

fn dispatched(conversation_id: Option<&str>) -> MessageResult {
    MessageResult::Dispatched {
        owner_user_id: "owner".to_owned(),
        session_id: "s-1".to_owned(),
        conversation_id: conversation_id.map(String::from),
    }
}

fn routed(conversation_id: Option<&str>, follow_up_text: Option<&str>) -> MessageResult {
    MessageResult::RoutedAction {
        response: build_session_ready_response(),
        session_id: "s-1".to_owned(),
        conversation_id: conversation_id.map(String::from),
        follow_up_text: follow_up_text.map(String::from),
    }
}

#[test]
fn response_is_formatted_and_sent() {
    let response = build_help_response();
    let tasks = handle(&orchestrator(), &message("x"), &MessageResult::Action(response.clone()), usual);
    assert_eq!(names(&tasks), vec!["format", "send"]);
    let Task::Send { owner_user_id, plugin_id, chat_id, message } = &tasks[1] else {
        panic!("the response is sent");
    };
    assert_eq!((owner_user_id.as_str(), plugin_id.as_str(), chat_id.as_str()), ("owner", "telegram", "chat"));
    assert_eq!(message.text, response.text.map(|text| format!("<{text}>")));
    assert_eq!(message.buttons, response.buttons);
}

#[test]
fn response_without_owner_or_text_is_dropped() {
    let nobody = ChannelOrchestrator::new(None);
    for result in [MessageResult::Action(build_help_response()), routed(None, None)] {
        assert!(handle(&nobody, &message("x"), &result, usual).is_empty());
    }
    let mut mute = build_help_response();
    mute.text = None;
    assert!(handle(&orchestrator(), &message("x"), &MessageResult::Action(mute), usual).is_empty());
    assert!(handle(&orchestrator(), &message("x"), &MessageResult::AlreadyProcessing, usual).is_empty());
}

#[test]
fn edit_gives_a_receipt_of_the_edited_message() {
    let mut response = build_session_ready_response();
    response.behavior = ActionBehavior::Edit;
    response.edit_message_id = Some("m-9".to_owned());
    let outcomes = vec![Outcome::Formatted("f".to_owned()), Outcome::Edited(Some((7, 8)))];
    let step = send_action_response("owner", "telegram", "chat", &response, &outcomes, 0);
    let expected = ChannelDeliveryReceipt { message_id: "m-9".to_owned(), started_at: 7, completed_at: 8 };
    assert_eq!(step, Handling::Done { value: Some(expected), used: 2 });
    let failed = vec![Outcome::Formatted("f".to_owned()), Outcome::Edited(None)];
    let step = send_action_response("owner", "telegram", "chat", &response, &failed, 0);
    assert_eq!(step, Handling::Done { value: None, used: 2 });
    response.edit_message_id = None;
    let step = send_action_response("owner", "telegram", "chat", &response, &outcomes, 0);
    assert_eq!(step, Handling::Done { value: None, used: 1 });
}

#[test]
fn unknown_plugin_gets_the_plain_text_without_markup() {
    let response = build_session_ready_response();
    let Handling::Do(Task::Send { message, .. }) =
        send_action_response("owner", "smoke-signals", "chat", &response, &Vec::new(), 0)
    else {
        panic!("the response is sent as it is");
    };
    assert_eq!(message.text, response.text);
    assert_eq!(message.parse_mode, None);
    let outcomes = vec![Outcome::Formatted("f".to_owned())];
    let Handling::Do(Task::Send { message, .. }) =
        send_action_response("owner", "telegram", "chat", &response, &outcomes, 0)
    else {
        panic!("the response is sent formatted");
    };
    assert_eq!(message.parse_mode, Some(ParseMode::HTML));
}

#[test]
fn new_session_is_bound_and_its_announcement_recorded() {
    let tasks = handle(&orchestrator(), &message("/new"), &routed(None, None), usual);
    assert_eq!(names(&tasks), vec!["session", "ensure", "bind", "format", "send", "route"]);
    let text = build_session_ready_response().text;
    assert_eq!(
        tasks[5],
        Task::RecordRoute { owner_user_id: "owner".to_owned(), route: route("c-new", text.as_deref()) }
    );
}

#[test]
fn routed_response_stops_where_a_step_fails() {
    let run = |failing: &'static str| {
        handle(&orchestrator(), &message("/new"), &routed(None, None), |task: &Task| match (failing, task) {
            ("session", Task::LoadSession { .. }) => Outcome::Session(None),
            ("ensure", Task::EnsureConversation { .. }) => Outcome::Conversation(None),
            ("bind", Task::BindConversation { .. }) => Outcome::Bound(false),
            ("send", Task::Send { .. }) => Outcome::Delivered(None),
            _ => usual(task),
        })
    };
    assert_eq!(names(&run("session")), vec!["session"]);
    assert_eq!(names(&run("ensure")), vec!["session", "ensure"]);
    assert_eq!(names(&run("bind")), vec!["session", "ensure", "bind"]);
    assert_eq!(names(&run("send")), vec!["session", "ensure", "bind", "format", "send"]);
}

#[test]
fn follow_up_text_goes_to_the_agent_without_announcement() {
    let tasks = handle(&orchestrator(), &message("/new hello"), &routed(None, Some("hello")), usual);
    assert_eq!(names(&tasks), vec!["session", "ensure", "bind", "session", "lock", "mark", "agent", "relay"]);
    let Task::SendToAgent { text, .. } = &tasks[6] else {
        panic!("the text goes to the agent");
    };
    assert_eq!(text, "hello");
}

#[test]
fn reply_is_marked_dispatched_and_relayed() {
    let tasks = handle(&orchestrator(), &message("go on"), &dispatched(Some("c-1")), usual);
    assert_eq!(names(&tasks), vec!["session", "lock", "mark", "agent", "relay"]);
    assert_eq!(tasks[1], Task::Lock { key: "owner:c-1".to_owned() });
    assert_eq!(
        tasks[2],
        Task::MarkTurn {
            owner_user_id: "owner".to_owned(),
            conversation_id: "c-1".to_owned(),
            text: "go on".to_owned(),
            target: ChannelMirrorTargetRef {
                platform: PluginType::Telegram,
                chat_id: "chat".to_owned(),
                platform_user_id: Some("tg_42".to_owned()),
            },
        }
    );
    let Task::Relay { config } = &tasks[4] else {
        panic!("the answer is relayed");
    };
    assert_eq!(config.conversation_id, "c-agent");
    assert_eq!(config.prompt_text, "go on");
    assert_eq!(config.throttle_ms, 500);
}

#[test]
fn dispatch_without_a_conversation_binds_the_agents() {
    let tasks = handle(&orchestrator(), &message("go on"), &dispatched(None), |task: &Task| match task {
        Task::LoadSession { .. } => Outcome::Session(Some(session(Some("c-old")))),
        Task::BindConversation { .. } => Outcome::Bound(false),
        Task::SendToAgent { .. } => Outcome::Accepted { conversation_id: "c-agent".to_owned(), has_stream: false },
        _ => usual(task),
    });
    assert_eq!(names(&tasks), vec!["session", "lock", "agent", "bind"]);
    assert_eq!(tasks[1], Task::Lock { key: "owner:c-old".to_owned() });
    let tasks = handle(&orchestrator(), &message("go on"), &dispatched(None), usual);
    assert_eq!(tasks[1], Task::Lock { key: "owner:s-1".to_owned() });
}

#[test]
fn refusal_of_the_agent_is_reported_and_recorded() {
    let refuse = |task: &Task| match task {
        Task::SendToAgent { .. } => Outcome::Refused("busy".to_owned()),
        _ => usual(task),
    };
    let tasks = handle(&orchestrator(), &message("go on"), &dispatched(Some("c-1")), refuse);
    assert_eq!(names(&tasks), vec!["session", "lock", "mark", "agent", "send", "route"]);
    let Task::Send { message: sent, .. } = &tasks[4] else {
        panic!("the failure is reported");
    };
    assert_eq!(sent, &text_message("❌ 处理失败：busy".to_owned()));
    assert_eq!(
        tasks[5],
        Task::RecordRoute { owner_user_id: "owner".to_owned(), route: route("c-1", Some("❌ 处理失败")) }
    );

    let tasks = handle(&orchestrator(), &message("go on"), &dispatched(None), refuse);
    assert_eq!(
        tasks.last(),
        Some(&Task::RecordReplyRoute {
            owner_user_id: "owner".to_owned(),
            session_id: "s-1".to_owned(),
            platform_type: "telegram".to_owned(),
            chat_id: "chat".to_owned(),
            message_id: "bot-1".to_owned(),
        })
    );
}

#[test]
fn vanished_session_ends_the_dispatch() {
    let tasks = handle(&orchestrator(), &message("go on"), &dispatched(Some("c-1")), |_: &Task| Outcome::Session(None));
    assert_eq!(names(&tasks), vec!["session"]);
    let outcomes = vec![Outcome::Relayed];
    assert_eq!(
        orchestrator().handle_message(&message("x"), &dispatched(None), &outcomes),
        Handling::Unexpected
    );
}
