use saydone_channels::json::{Json, read_json};
use saydone_channels::mirror::{
    ChannelMirrorService, ChannelMirrorTargetRef, MirrorReply, MirrorRequest, MirrorStep, MirrorTurnState,
    is_excluded_mirror_target, mirror_completed_turn, mirror_deliveries, mirror_route_chat_id, mirror_text,
    normalize_mirror_text,
};
use saydone_channels::reply::{RouteQuery, reply_route_queries};
use saydone_channels::repository::{AssistantUserRow, ChannelPluginRow, ConversationRoute};
use saydone_channels::stream_relay::ChannelDeliveryReceipt;
use saydone_channels::types::PluginType;

const OWNER: &str = "system_default_user";
const CONVERSATION: &str = "desktop-conversation";

/// What stands around the service.
struct World {
    service: ChannelMirrorService,
    plugins: Vec<ChannelPluginRow>,
    users: Vec<AssistantUserRow>,
    exists: bool,
    sends: Vec<(String, String, String)>,
    routes: Vec<ConversationRoute>,
}

fn plugin(id: &str, platform: &str) -> ChannelPluginRow {
    ChannelPluginRow {
        id: id.to_owned(),
        owner_user_id: OWNER.to_owned(),
        plugin_type: platform.to_owned(),
        name: platform.to_owned(),
        enabled: true,
        config: "encrypted".to_owned(),
        status: Some("running".to_owned()),
        last_connected: Some(1),
        created_at: 1,
        updated_at: 1,
    }
}

fn user(platform: &str, id: &str) -> AssistantUserRow {
    AssistantUserRow {
        id: format!("{platform}-internal"),
        owner_user_id: OWNER.to_owned(),
        platform_user_id: id.to_owned(),
        platform_type: platform.to_owned(),
        display_name: None,
        authorized_at: 1,
        last_active: None,
        session_id: None,
    }
}

fn setup_mirror() -> World {
    World {
        service: ChannelMirrorService::new(),
        plugins: vec![plugin("lark", "lark"), plugin("weixin", "weixin")],
        users: vec![user("lark", "lark-user"), user("weixin", "weixin-user")],
        exists: true,
        sends: Vec::new(),
        routes: Vec::new(),
    }
}

impl World {
    fn handle(&mut self, name: &str, data: Json) {
        if let Some((conversation, turn)) = self.service.handle_event(name, &data) {
            self.mirror(&conversation, &turn);
        }
    }

    fn mirror(&mut self, conversation: &str, turn: &MirrorTurnState) {
        let mut replies: Vec<MirrorReply> = Vec::new();
        loop {
            let reply = match mirror_completed_turn(conversation, turn, &replies) {
                MirrorStep::Ask(MirrorRequest::CheckConversation { .. }) => MirrorReply::Exists(self.exists),
                MirrorStep::Ask(MirrorRequest::ListPlugins { .. }) => MirrorReply::Plugins(Some(self.plugins.clone())),
                MirrorStep::Ask(MirrorRequest::ListUsers { .. }) => MirrorReply::Users(Some(self.users.clone())),
                MirrorStep::Ask(MirrorRequest::Send { plugin_id, chat_id, message, .. }) => {
                    let message_id = format!("{plugin_id}-{chat_id}");
                    self.sends.push((plugin_id, chat_id, message.text.unwrap()));
                    MirrorReply::Sent(Some(ChannelDeliveryReceipt { message_id, started_at: 1, completed_at: 2 }))
                }
                MirrorStep::Ask(MirrorRequest::Record { owner_user_id, route }) => {
                    assert_eq!(owner_user_id, OWNER);
                    self.routes.push(route);
                    MirrorReply::Recorded
                }
                MirrorStep::Done => return,
                MirrorStep::Unexpected => panic!("a reply was not understood: {replies:?}"),
            };
            replies.push(reply);
        }
    }

    fn resolve(&self, platform: &str, chat: &str, message: &str) -> Option<&str> {
        self.routes
            .iter()
            .find(|route| route.platform_type == platform && route.chat_id == chat && route.message_id == message)
            .map(|route| route.conversation_id.as_str())
    }
}

fn object(entries: Vec<(&str, Json)>) -> Json {
    Json::Object(entries.into_iter().map(|(key, value)| (key.to_owned(), value)).collect())
}

fn text(value: &str) -> Json {
    Json::Text(value.to_owned())
}

fn user_event(content: &str) -> Json {
    object(vec![
        ("user_id", text(OWNER)),
        ("conversation_id", text(CONVERSATION)),
        ("content", text(content)),
        ("hidden", Json::Bool(false)),
    ])
}

fn stream_event(kind: &str, content: Option<&str>) -> Json {
    let data = match content {
        Some(content) => object(vec![("content", text(content))]),
        None => object(Vec::new()),
    };
    object(vec![
        ("user_id", text(OWNER)),
        ("conversation_id", text(CONVERSATION)),
        ("type", text(kind)),
        ("data", data),
    ])
}

fn completed_event() -> Json {
    object(vec![
        ("user_id", text(OWNER)),
        ("conversation_id", text(CONVERSATION)),
        ("status", text("finished")),
    ])
}

#[test]
fn desktop_completion_is_mirrored_and_each_delivery_routes_back_to_the_conversation() {
    let mut world = setup_mirror();

    world.handle("message.userCreated", user_event("Question"));
    world.handle("message.stream", stream_event("text", Some("Answer")));
    world.handle("message.stream", stream_event("finish", None));
    world.handle("turn.completed", completed_event());

    assert_eq!(world.sends.len(), 2);
    assert!(world.sends.iter().all(|(_, _, text)| text == "你：Question\n\nAI：Answer"));
    assert_eq!(world.resolve("lark", "lark-user", "lark-lark-user"), Some("desktop-conversation"));
    assert_eq!(world.resolve("weixin", "weixin-user", "weixin-weixin-user"), Some("desktop-conversation"));
    assert_eq!(world.routes[0].preview_text.as_deref(), Some("你：Question\n\nAI：Answer"));
}

#[test]
fn channel_completion_is_not_mirrored_back_to_its_source_target() {
    let mut world = setup_mirror();
    world.service.mark_channel_turn(
        "system_default_user",
        "desktop-conversation",
        "Question",
        ChannelMirrorTargetRef {
            platform: PluginType::Lark,
            chat_id: "lark-chat".to_owned(),
            platform_user_id: Some("lark-user".to_owned()),
        },
    );

    world.handle("message.userCreated", user_event("Question"));
    world.handle("message.stream", stream_event("text", Some("Answer")));
    world.handle("message.stream", stream_event("finish", None));
    world.handle("turn.completed", completed_event());

    assert_eq!(world.sends.len(), 1);
    assert_eq!(world.sends[0].0, "weixin");
}

#[test]
fn final_content_replacement_is_mirrored_after_turn_completion() {
    let mut world = setup_mirror();

    world.handle("message.userCreated", user_event("Question"));
    world.handle("message.stream", stream_event("text", Some("Draft")));
    world.handle("message.stream", stream_event("finish", None));
    assert!(world.sends.is_empty());

    world.handle(
        "message.stream",
        object(vec![
            ("user_id", text(OWNER)),
            ("conversation_id", text(CONVERSATION)),
            ("type", text("content")),
            ("data", object(vec![("content", text("Final answer"))])),
            ("replace", Json::Bool(true)),
        ]),
    );
    world.handle("turn.completed", completed_event());

    assert_eq!(world.sends.len(), 2);
    assert!(world.sends.iter().all(|(_, _, text)| text == "你：Question\n\nAI：Final answer"));
}

#[test]
fn turn_is_completed_once_and_errors_drop_it() {
    let mut world = setup_mirror();
    world.handle("message.userCreated", user_event("Question"));
    world.handle("message.stream", stream_event("text", Some("Answer")));
    world.handle("turn.completed", completed_event());
    world.handle("turn.completed", completed_event());
    assert_eq!(world.sends.len(), 2);

    world.handle("message.userCreated", user_event("Question"));
    world.handle("message.stream", stream_event("text", Some("Answer")));
    world.handle("message.stream", stream_event("error", None));
    world.handle("turn.completed", completed_event());
    assert_eq!(world.sends.len(), 2);
}

#[test]
fn completed_turn_waits_for_a_new_question() {
    let mut world = setup_mirror();
    world.handle("message.userCreated", user_event("Question"));
    world.handle("message.stream", stream_event("text", Some("Answer")));
    world.handle("turn.completed", completed_event());
    assert_eq!(world.sends.len(), 2);
    let mut hidden = user_event("hidden");
    if let Json::Object(entries) = &mut hidden {
        entries[3].1 = Json::Bool(true);
    }
    world.handle("message.userCreated", hidden);
    world.handle("message.stream", stream_event("text", Some("late")));
    world.handle("message.stream", stream_event("finish", None));
    world.handle("turn.completed", completed_event());
    assert_eq!(world.sends.len(), 2);
    world.handle("message.userCreated", user_event("Again"));
    world.handle("message.stream", stream_event("text", Some("Yes")));
    world.handle("turn.completed", completed_event());
    assert_eq!(world.sends.len(), 4);
}

#[test]
fn events_that_do_not_count_change_nothing() {
    let mut world = setup_mirror();
    world.handle("message.stream", stream_event("text", Some("too early")));
    world.handle("message.userCreated", user_event("Question"));
    let mut hidden = user_event("secret");
    if let Json::Object(entries) = &mut hidden {
        entries[3].1 = Json::Bool(true);
    }
    world.handle("message.userCreated", hidden);
    world.handle("message.userCreated", read_json(r#"{"conversation_id":"desktop-conversation"}"#).unwrap());
    world.handle("message.stream", stream_event("status", Some("x")));
    world.handle("message.other", stream_event("text", Some("x")));
    world.handle("message.stream", stream_event("content", Some("A")));
    world.handle("message.stream", stream_event("text", Some("B")));
    world.handle(
        "turn.completed",
        read_json(r#"{"conversation_id":"another","user_id":"system_default_user"}"#).unwrap(),
    );
    assert!(world.sends.is_empty());
    world.handle("turn.completed", completed_event());
    assert_eq!(world.sends[0].2, "你：Question\n\nAI：AB");
}

#[test]
fn nothing_is_mirrored_without_answer_conversation_or_lists() {
    let mut world = setup_mirror();
    world.handle("message.userCreated", user_event("Question"));
    world.handle("message.stream", stream_event("text", Some(" \r\n")));
    world.handle("turn.completed", completed_event());
    assert!(world.sends.is_empty());

    world.exists = false;
    world.handle("message.userCreated", user_event("Question"));
    world.handle("message.stream", stream_event("text", Some("Answer")));
    world.handle("turn.completed", completed_event());
    assert!(world.sends.is_empty());

    let turn = turn("", "Answer", None);
    assert_eq!(
        mirror_completed_turn("c", &turn, &vec![MirrorReply::Exists(true), MirrorReply::Plugins(None)]),
        MirrorStep::Done
    );
    let replies = vec![MirrorReply::Exists(true), MirrorReply::Plugins(Some(Vec::new())), MirrorReply::Users(None)];
    assert_eq!(mirror_completed_turn("c", &turn, &replies), MirrorStep::Done);
    assert_eq!(mirror_completed_turn("c", &turn, &vec![MirrorReply::Recorded]), MirrorStep::Unexpected);
}

#[test]
fn failed_delivery_is_not_recorded_and_the_next_goes_on() {
    let world = setup_mirror();
    let turn = turn("Question", "Answer", None);
    let replies = vec![
        MirrorReply::Exists(true),
        MirrorReply::Plugins(Some(world.plugins.clone())),
        MirrorReply::Users(Some(world.users.clone())),
        MirrorReply::Sent(None),
    ];
    let MirrorStep::Ask(MirrorRequest::Send { plugin_id, chat_id, .. }) = mirror_completed_turn("c", &turn, &replies)
    else {
        panic!("the second delivery is due");
    };
    assert_eq!((plugin_id.as_str(), chat_id.as_str()), ("weixin", "weixin-user"));
}

fn turn(question: &str, answer: &str, excluded_target: Option<ChannelMirrorTargetRef>) -> MirrorTurnState {
    MirrorTurnState {
        owner_user_id: OWNER.to_owned(),
        latest_user_text: question.to_owned(),
        assistant_text: answer.to_owned(),
        excluded_target,
    }
}

#[test]
fn everybody_gets_a_turn_once_and_the_source_not_at_all() {
    let mut stopped = plugin("weixin-old", "weixin");
    stopped.status = Some("stopped".to_owned());
    let mut disabled = plugin("lark-off", "lark");
    disabled.enabled = false;
    let plugins = vec![plugin("lark-1", "lark"), plugin("lark-2", "lark"), stopped, disabled, plugin("tg", "telegram")];
    let users = vec![
        user("lark", "a"),
        user("lark", "a"),
        user("lark", "source"),
        user("weixin", "b"),
        user("telegram", "c"),
        user("smoke-signals", "d"),
        user("lark", "e"),
    ];
    let source = ChannelMirrorTargetRef {
        platform: PluginType::Lark,
        chat_id: "source".to_owned(),
        platform_user_id: None,
    };
    let deliveries = mirror_deliveries(&turn("q", "a", Some(source)), &plugins, &users);
    let targets: Vec<(&str, &str)> =
        deliveries.iter().map(|d| (d.plugin_id.as_str(), d.platform_user_id.as_str())).collect();
    assert_eq!(targets, vec![("lark-2", "a"), ("lark-2", "e")]);
}

#[test]
fn reply_to_a_mirrored_turn_asks_for_its_route() {
    let mut world = setup_mirror();
    world.handle("message.userCreated", user_event("Question"));
    world.handle("message.stream", stream_event("text", Some("Answer")));
    world.handle("turn.completed", completed_event());
    for (platform, chat_id, user_id, message_id) in [
        (PluginType::Lark, "any-lark-chat", "lark-user", "lark-lark-user"),
        (PluginType::Weixin, "weixin-user", "weixin-user", "weixin-weixin-user"),
    ] {
        let found = reply_route_queries(platform, chat_id, user_id, message_id, None, 0)
            .iter()
            .find_map(|query| match query {
                RouteQuery::Message { chat_id, message_id } => world.resolve(platform.as_str(), chat_id, message_id),
                _ => None,
            });
        assert_eq!(found, Some(CONVERSATION));
    }
}

#[test]
fn mirror_texts_are_normal() {
    assert_eq!(normalize_mirror_text(" a\r\nb \r\n"), "a\nb");
    assert_eq!(mirror_text(&turn("q", " a\r\n", None)).as_deref(), Some("你：q\n\nAI：a"));
    assert_eq!(mirror_text(&turn("", "a", None)).as_deref(), Some("a"));
    assert_eq!(mirror_text(&MirrorTurnState::default()), None);
}

#[test]
fn targets_and_route_chats() {
    assert_eq!(mirror_route_chat_id(PluginType::Dingtalk, "u"), "user:u");
    assert_eq!(mirror_route_chat_id(PluginType::Lark, "u"), "u");
    let target = ChannelMirrorTargetRef {
        platform: PluginType::Lark,
        chat_id: "c".to_owned(),
        platform_user_id: Some("u".to_owned()),
    };
    assert!(is_excluded_mirror_target(PluginType::Lark, "c", Some(&target)));
    assert!(is_excluded_mirror_target(PluginType::Lark, "u", Some(&target)));
    assert!(!is_excluded_mirror_target(PluginType::Lark, "v", Some(&target)));
    assert!(!is_excluded_mirror_target(PluginType::Weixin, "c", Some(&target)));
    assert!(!is_excluded_mirror_target(PluginType::Lark, "c", None));
}
