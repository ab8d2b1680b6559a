//! Incoming messages: authorization, then actions, then commands, then replies.
//!
//! What a message leads to depends on the services around the library: pairing, sessions, settings
//! and recorded routes. The decisions here are a function of the message and of the replies that
//! those services have given so far. It names the next request, or the result once there is
//! nothing left to ask.

use vstd::prelude::*;
use vstd::string::*;

use crate::command;
use crate::command::resolve_session_command;
use crate::reply;
use crate::reply::{quoted_text_from_raw, reply_route_queries, RouteQuery, RouteQueryView};
use crate::response;
use crate::response::{
    build_authorization_response, build_chat_response, build_help_response, build_page_response,
    build_pairing_help_response, build_pairing_response, build_session_created_response,
    build_session_ready_response, build_session_status_response, build_unbound_session_response,
    build_unknown_action_response,
};
use crate::text;
use crate::text::same_text;
use crate::types::{
    ActionBehavior, ActionCategory, ActionResponse, ActionResponseView, AgentConfig, AgentConfigView, ChannelError,
    ChannelErrorView, ChannelSession, ChannelSessionView, MessageContentType, PluginType, UnifiedAction,
    UnifiedActionView, UnifiedIncomingMessage, UnifiedIncomingMessageView,
};

verus! {

// ── Requests and replies ────────────────────────────────────────────

/// What the flow of a message asks of the services around it.
#[derive(Debug, PartialEq, Eq)]
pub enum Request {
    /// The internal id of a platform user, if the user is authorized.
    LookupUser {
        owner_user_id: String,
        platform_user_id: String,
        platform: PluginType,
    },
    /// A new pairing code for a platform user.
    RequestPairing {
        owner_user_id: String,
        platform_user_id: String,
        platform: PluginType,
        display_name: Option<String>,
    },
    /// Whether a platform user is authorized.
    CheckAuthorized {
        owner_user_id: String,
        platform_user_id: String,
        platform: PluginType,
    },
    /// The agent that answers on a platform.
    LoadAgentConfig {
        owner_user_id: String,
        platform: PluginType,
    },
    /// A new session, beside those that the user has.
    CreateSession {
        owner_user_id: String,
        user_id: String,
        chat_id: String,
        agent_type: String,
    },
    /// The session of an existing conversation.
    ActivateConversation {
        owner_user_id: String,
        user_id: String,
        chat_id: String,
        agent_type: String,
        conversation_id: String,
    },
    /// The conversation that a recorded route leads to, if any.
    ResolveRoute {
        owner_user_id: String,
        platform: PluginType,
        query: RouteQuery,
    },
}

/// The mathematical value of a [`Request`].
#[verifier::ext_equal]
pub enum RequestView {
    LookupUser {
        owner_user_id: Seq<char>,
        platform_user_id: Seq<char>,
        platform: PluginType,
    },
    RequestPairing {
        owner_user_id: Seq<char>,
        platform_user_id: Seq<char>,
        platform: PluginType,
        display_name: Option<Seq<char>>,
    },
    CheckAuthorized {
        owner_user_id: Seq<char>,
        platform_user_id: Seq<char>,
        platform: PluginType,
    },
    LoadAgentConfig {
        owner_user_id: Seq<char>,
        platform: PluginType,
    },
    CreateSession {
        owner_user_id: Seq<char>,
        user_id: Seq<char>,
        chat_id: Seq<char>,
        agent_type: Seq<char>,
    },
    ActivateConversation {
        owner_user_id: Seq<char>,
        user_id: Seq<char>,
        chat_id: Seq<char>,
        agent_type: Seq<char>,
        conversation_id: Seq<char>,
    },
    ResolveRoute {
        owner_user_id: Seq<char>,
        platform: PluginType,
        query: RouteQueryView,
    },
}

impl DeepView for Request {
    type V = RequestView;

    open spec fn deep_view(&self) -> RequestView {
        match self {
            Request::LookupUser { owner_user_id, platform_user_id, platform } => RequestView::LookupUser {
                owner_user_id: owner_user_id@,
                platform_user_id: platform_user_id@,
                platform: *platform,
            },
            Request::RequestPairing { owner_user_id, platform_user_id, platform, display_name } => RequestView::RequestPairing {
                owner_user_id: owner_user_id@,
                platform_user_id: platform_user_id@,
                platform: *platform,
                display_name: display_name.deep_view(),
            },
            Request::CheckAuthorized { owner_user_id, platform_user_id, platform } => RequestView::CheckAuthorized {
                owner_user_id: owner_user_id@,
                platform_user_id: platform_user_id@,
                platform: *platform,
            },
            Request::LoadAgentConfig { owner_user_id, platform } => RequestView::LoadAgentConfig {
                owner_user_id: owner_user_id@,
                platform: *platform,
            },
            Request::CreateSession { owner_user_id, user_id, chat_id, agent_type } => RequestView::CreateSession {
                owner_user_id: owner_user_id@,
                user_id: user_id@,
                chat_id: chat_id@,
                agent_type: agent_type@,
            },
            Request::ActivateConversation { owner_user_id, user_id, chat_id, agent_type, conversation_id } => RequestView::ActivateConversation {
                owner_user_id: owner_user_id@,
                user_id: user_id@,
                chat_id: chat_id@,
                agent_type: agent_type@,
                conversation_id: conversation_id@,
            },
            Request::ResolveRoute { owner_user_id, platform, query } => RequestView::ResolveRoute {
                owner_user_id: owner_user_id@,
                platform: *platform,
                query: query.deep_view(),
            },
        }
    }
}

/// What a service answers to a [`Request`].
#[derive(Debug, PartialEq, Eq)]
pub enum Reply {
    /// To `LookupUser`.
    User(Option<String>),
    /// To `RequestPairing`.
    PairingCode(String),
    /// To `CheckAuthorized`.
    Authorized(bool),
    /// To `LoadAgentConfig`.
    AgentConfig(AgentConfig),
    /// To `CreateSession` and `ActivateConversation`.
    Session(ChannelSession),
    /// To `ResolveRoute`.
    Route(Option<String>),
    /// To any request.
    Failed(ChannelError),
}

/// The mathematical value of a [`Reply`].
#[verifier::ext_equal]
pub enum ReplyView {
    User(Option<Seq<char>>),
    PairingCode(Seq<char>),
    Authorized(bool),
    AgentConfig(AgentConfigView),
    Session(ChannelSessionView),
    Route(Option<Seq<char>>),
    Failed(ChannelErrorView),
}

impl DeepView for Reply {
    type V = ReplyView;

    open spec fn deep_view(&self) -> ReplyView {
        match self {
            Reply::User(value) => ReplyView::User(value.deep_view()),
            Reply::PairingCode(value) => ReplyView::PairingCode(value@),
            Reply::Authorized(value) => ReplyView::Authorized(*value),
            Reply::AgentConfig(value) => ReplyView::AgentConfig(value.deep_view()),
            Reply::Session(value) => ReplyView::Session(value.deep_view()),
            Reply::Route(value) => ReplyView::Route(value.deep_view()),
            Reply::Failed(value) => ReplyView::Failed(value.deep_view()),
        }
    }
}

/// Result of processing an incoming message.
#[derive(Debug, Clone, PartialEq, Eq)]
pub enum MessageResult {
    /// A response to send or edit on the platform.
    Action(ActionResponse),
    /// A response whose platform message routes replies to a session.
    RoutedAction {
        response: ActionResponse,
        session_id: String,
        conversation_id: Option<String>,
        follow_up_text: Option<String>,
    },
    /// The message goes to the agent. A placeholder is due, and then the agent's stream.
    Dispatched {
        owner_user_id: String,
        session_id: String,
        conversation_id: Option<String>,
    },
    /// The user has an active agent stream already.
    AlreadyProcessing,
}

/// The mathematical value of a [`MessageResult`].
#[verifier::ext_equal]
pub enum MessageResultView {
    Action(ActionResponseView),
    RoutedAction {
        response: ActionResponseView,
        session_id: Seq<char>,
        conversation_id: Option<Seq<char>>,
        follow_up_text: Option<Seq<char>>,
    },
    Dispatched {
        owner_user_id: Seq<char>,
        session_id: Seq<char>,
        conversation_id: Option<Seq<char>>,
    },
    AlreadyProcessing,
}

impl DeepView for MessageResult {
    type V = MessageResultView;

    open spec fn deep_view(&self) -> MessageResultView {
        match self {
            MessageResult::Action(value) => MessageResultView::Action(value.deep_view()),
            MessageResult::RoutedAction { response, session_id, conversation_id, follow_up_text } => MessageResultView::RoutedAction {
                response: response.deep_view(),
                session_id: session_id@,
                conversation_id: conversation_id.deep_view(),
                follow_up_text: follow_up_text.deep_view(),
            },
            MessageResult::Dispatched { owner_user_id, session_id, conversation_id } => MessageResultView::Dispatched {
                owner_user_id: owner_user_id@,
                session_id: session_id@,
                conversation_id: conversation_id.deep_view(),
            },
            MessageResult::AlreadyProcessing => MessageResultView::AlreadyProcessing,
        }
    }
}

/// How far the flow of a message has come with the replies given so far.
#[derive(Debug, PartialEq, Eq)]
pub enum Progress<T> {
    /// It has to ask this next.
    Ask(Request),
    /// It has come to its end, `used` replies into those given.
    Done { value: T, used: usize },
    /// A request failed, or the message cannot be handled.
    Failed(ChannelError),
    /// A reply does not answer the request at its place.
    Unexpected,
}

/// The mathematical value of a [`Progress`].
#[verifier::ext_equal]
pub enum ProgressView<V> {
    Ask(RequestView),
    Done { value: V, used: int },
    Failed(ChannelErrorView),
    Unexpected,
}

impl<T: DeepView> DeepView for Progress<T> {
    type V = ProgressView<T::V>;

    open spec fn deep_view(&self) -> ProgressView<T::V> {
        match self {
            Progress::Ask(request) => ProgressView::Ask(request.deep_view()),
            Progress::Done { value, used } => ProgressView::Done {
                value: value.deep_view(),
                used: *used as int,
            },
            Progress::Failed(error) => ProgressView::Failed(error.deep_view()),
            Progress::Unexpected => ProgressView::Unexpected,
        }
    }
}

/// A flow that has not come to its end, as part of a longer one.
pub open spec fn stopped<A, B>(progress: ProgressView<A>) -> ProgressView<B> {
    match progress {
        ProgressView::Ask(request) => ProgressView::Ask(request),
        ProgressView::Failed(error) => ProgressView::Failed(error),
        _ => ProgressView::Unexpected,
    }
}

/// A reply that answers nothing that was asked: an error, or the wrong kind of answer.
pub open spec fn refused<V>(answer: ReplyView) -> ProgressView<V> {
    match answer {
        ReplyView::Failed(error) => ProgressView::Failed(error),
        _ => ProgressView::Unexpected,
    }
}

fn refuse<T: DeepView>(answer: &Reply) -> (r: Progress<T>)
    ensures
        r.deep_view() == refused::<T::V>(answer.deep_view()),
{
    match answer {
        Reply::Failed(error) => Progress::Failed(error.clone()),
        _ => Progress::Unexpected,
    }
}

// ── Parts of the flow ───────────────────────────────────────────────

/// Asks the questions in turn until one of them finds a conversation.
pub open spec fn resolve_flow(
    owner: Seq<char>,
    platform: PluginType,
    queries: Seq<RouteQueryView>,
    replies: Seq<ReplyView>,
    at: int,
) -> ProgressView<Option<Seq<char>>>
    decreases queries.len(),
{
    if queries.len() == 0 {
        ProgressView::Done { value: None, used: at }
    } else if at >= replies.len() {
        ProgressView::Ask(
            RequestView::ResolveRoute { owner_user_id: owner, platform, query: queries[0] },
        )
    } else {
        match replies[at] {
            ReplyView::Route(Some(found)) => ProgressView::Done { value: Some(found), used: at + 1 },
            ReplyView::Route(None) => resolve_flow(
                owner,
                platform,
                queries.drop_first(),
                replies,
                at + 1,
            ),
            other => refused(other),
        }
    }
}

/// The request for a session: a new one, or the one of a conversation.
pub open spec fn session_request(
    owner: Seq<char>,
    user: Seq<char>,
    chat_id: Seq<char>,
    agent_type: Seq<char>,
    conversation: Option<Seq<char>>,
) -> RequestView {
    match conversation {
        None => RequestView::CreateSession {
            owner_user_id: owner,
            user_id: user,
            chat_id,
            agent_type,
        },
        Some(conversation_id) => RequestView::ActivateConversation {
            owner_user_id: owner,
            user_id: user,
            chat_id,
            agent_type,
            conversation_id,
        },
    }
}

/// Loads the agent of `platform`, then opens a session with it.
pub open spec fn session_flow(
    owner: Seq<char>,
    user: Seq<char>,
    platform: PluginType,
    chat_id: Seq<char>,
    conversation: Option<Seq<char>>,
    replies: Seq<ReplyView>,
    at: int,
) -> ProgressView<(AgentConfigView, ChannelSessionView)> {
    if at >= replies.len() {
        ProgressView::Ask(RequestView::LoadAgentConfig { owner_user_id: owner, platform })
    } else {
        match replies[at] {
            ReplyView::AgentConfig(config) => if at + 1 >= replies.len() {
                ProgressView::Ask(
                    session_request(owner, user, chat_id, config.agent_type, conversation),
                )
            } else {
                match replies[at + 1] {
                    ReplyView::Session(session) => ProgressView::Done {
                        value: (config, session),
                        used: at + 2,
                    },
                    other => refused(other),
                }
            },
            other => refused(other),
        }
    }
}

/// Requests a pairing code and hands it out.
pub open spec fn pairing_flow(
    owner: Seq<char>,
    platform_user_id: Seq<char>,
    platform: PluginType,
    display_name: Option<Seq<char>>,
    replies: Seq<ReplyView>,
    at: int,
) -> ProgressView<ActionResponseView> {
    if at >= replies.len() {
        ProgressView::Ask(
            RequestView::RequestPairing {
                owner_user_id: owner,
                platform_user_id,
                platform,
                display_name,
            },
        )
    } else {
        match replies[at] {
            ReplyView::PairingCode(code) => ProgressView::Done {
                value: response::pairing_response(code),
                used: at + 1,
            },
            other => refused(other),
        }
    }
}

/// The questions for the conversation of the message that a button stands under.
pub open spec fn context_queries(
    action: UnifiedActionView,
    message_id: Seq<char>,
    now_ms: i64,
) -> Seq<RouteQueryView> {
    reply::route_queries(
        action.context.platform,
        action.context.chat_id,
        action.context.user_id,
        message_id,
        None,
        now_ms,
    )
}

/// Actions about pairing, which anybody on the platform may ask for.
pub open spec fn platform_flow(
    owner: Seq<char>,
    action: UnifiedActionView,
    replies: Seq<ReplyView>,
    at: int,
) -> ProgressView<ActionResponseView> {
    let context = action.context;
    if action.action == "pairing.show"@ || action.action == "pairing.refresh"@ {
        pairing_flow(owner, context.user_id, context.platform, None, replies, at)
    } else if action.action == "pairing.check"@ {
        if at >= replies.len() {
            ProgressView::Ask(
                RequestView::CheckAuthorized {
                    owner_user_id: owner,
                    platform_user_id: context.user_id,
                    platform: context.platform,
                },
            )
        } else {
            match replies[at] {
                ReplyView::Authorized(authorized) => ProgressView::Done {
                    value: response::authorization_response(authorized),
                    used: at + 1,
                },
                other => refused(other),
            }
        }
    } else if action.action == "pairing.help"@ {
        ProgressView::Done { value: response::pairing_help_response(), used: at }
    } else {
        ProgressView::Done { value: response::unknown_action_response(action.action), used: at }
    }
}

/// The session that a system action leads to: a new one, or the one of the message that the button
/// stands under, if there is one.
pub open spec fn system_session_flow(
    owner: Seq<char>,
    user: Seq<char>,
    action: UnifiedActionView,
    now_ms: i64,
    replies: Seq<ReplyView>,
    at: int,
) -> ProgressView<Option<(AgentConfigView, ChannelSessionView)>> {
    let context = action.context;
    if action.action == "session.new"@ {
        match session_flow(owner, user, context.platform, context.chat_id, None, replies, at) {
            ProgressView::Done { value, used } => ProgressView::Done { value: Some(value), used },
            other => stopped(other),
        }
    } else {
        match context.message_id {
            None => ProgressView::Done { value: None, used: at },
            Some(message_id) => match resolve_flow(
                owner,
                context.platform,
                context_queries(action, message_id, now_ms),
                replies,
                at,
            ) {
                ProgressView::Done { value: None, used } => ProgressView::Done { value: None, used },
                ProgressView::Done { value: Some(conversation), used } => match session_flow(
                    owner,
                    user,
                    context.platform,
                    context.chat_id,
                    Some(conversation),
                    replies,
                    used,
                ) {
                    ProgressView::Done { value, used } => ProgressView::Done {
                        value: Some(value),
                        used,
                    },
                    other => stopped(other),
                },
                other => stopped(other),
            },
        }
    }
}

/// Whether the id of the session that a system action leads to can be shown.
pub open spec fn system_session_can_be_shown(
    owner: Seq<char>,
    user: Seq<char>,
    action: UnifiedActionView,
    now_ms: i64,
    replies: Seq<ReplyView>,
    at: int,
) -> bool {
    (action.action == "session.new"@ || action.action == "session.status"@) ==> (
    system_session_flow(owner, user, action, now_ms, replies, at) matches ProgressView::Done {
        value: Some((_, session)),
        ..
    } ==> response::id_can_be_shown(session.id))
}

/// Actions about sessions, help and settings.
pub open spec fn system_flow(
    owner: Seq<char>,
    user: Seq<char>,
    action: UnifiedActionView,
    now_ms: i64,
    replies: Seq<ReplyView>,
    at: int,
) -> ProgressView<ActionResponseView> {
    if action.action == "session.new"@ || action.action == "session.status"@ {
        match system_session_flow(owner, user, action, now_ms, replies, at) {
            ProgressView::Done { value: Some((config, session)), used } => ProgressView::Done {
                value: if action.action == "session.new"@ {
                    response::session_created_response(config.backend, session)
                } else {
                    response::session_status_response(config.backend, session)
                },
                used,
            },
            ProgressView::Done { value: None, used } => ProgressView::Done {
                value: response::unbound_session_response(),
                used,
            },
            other => stopped(other),
        }
    } else if action.action == "help.show"@ {
        ProgressView::Done { value: response::help_response(), used: at }
    } else {
        match response::page_text(action.action) {
            Some(text) => ProgressView::Done { value: response::sent(text, None), used: at },
            None => ProgressView::Done {
                value: response::unknown_action_response(action.action),
                used: at,
            },
        }
    }
}

/// The response to an action, by its category.
pub open spec fn route_flow(
    owner: Seq<char>,
    user: Seq<char>,
    action: UnifiedActionView,
    now_ms: i64,
    replies: Seq<ReplyView>,
    at: int,
) -> ProgressView<ActionResponseView> {
    match action.category {
        ActionCategory::Platform => platform_flow(owner, action, replies, at),
        ActionCategory::System => system_flow(owner, user, action, now_ms, replies, at),
        ActionCategory::Chat => ProgressView::Done {
            value: response::chat_response(action.action),
            used: at,
        },
    }
}

// ── The flow of a message ───────────────────────────────────────────

/// The questions for the conversation of the message `message_id`, which `msg` quotes.
pub open spec fn message_queries(
    msg: UnifiedIncomingMessageView,
    message_id: Seq<char>,
    now_ms: i64,
) -> Seq<RouteQueryView> {
    reply::route_queries(
        msg.platform,
        msg.chat_id,
        msg.user.id,
        message_id,
        reply::quoted_text(msg.raw),
        now_ms,
    )
}

/// What quoting a message leads to: a conversation with its session, if there is one.
pub open spec fn quoted_session_flow(
    owner: Seq<char>,
    user: Seq<char>,
    msg: UnifiedIncomingMessageView,
    message_id: Seq<char>,
    now_ms: i64,
    replies: Seq<ReplyView>,
    at: int,
) -> ProgressView<Option<(Seq<char>, Seq<char>)>> {
    match resolve_flow(owner, msg.platform, message_queries(msg, message_id, now_ms), replies, at) {
        ProgressView::Done { value: None, used } => ProgressView::Done { value: None, used },
        ProgressView::Done { value: Some(conversation), used } => match session_flow(
            owner,
            user,
            msg.platform,
            msg.chat_id,
            Some(conversation),
            replies,
            used,
        ) {
            ProgressView::Done { value: (_, session), used } => ProgressView::Done {
                value: Some((conversation, session.id)),
                used,
            },
            other => stopped(other),
        },
        other => stopped(other),
    }
}

/// Whether a button asks for a new session.
pub open spec fn presses_new_session(action: UnifiedActionView) -> bool {
    action.category == ActionCategory::System && action.action == "session.new"@
}

/// A new session, announced unless a first message follows at once.
pub open spec fn new_session_flow(
    owner: Seq<char>,
    user: Seq<char>,
    platform: PluginType,
    chat_id: Seq<char>,
    follow_up: Option<Seq<char>>,
    replies: Seq<ReplyView>,
    at: int,
) -> ProgressView<MessageResultView> {
    match session_flow(owner, user, platform, chat_id, None, replies, at) {
        ProgressView::Done { value: (_, session), used } => ProgressView::Done {
            value: MessageResultView::RoutedAction {
                response: if follow_up is Some {
                    ActionResponseView { text: None, ..response::session_ready_response() }
                } else {
                    response::session_ready_response()
                },
                session_id: session.id,
                conversation_id: None,
                follow_up_text: follow_up,
            },
            used,
        },
        other => stopped(other),
    }
}

/// A pressed button: its response, bound to the conversation of the message it stands under.
pub open spec fn action_flow(
    owner: Seq<char>,
    user: Seq<char>,
    msg: UnifiedIncomingMessageView,
    action: UnifiedActionView,
    now_ms: i64,
    replies: Seq<ReplyView>,
    at: int,
) -> ProgressView<MessageResultView> {
    if presses_new_session(action) {
        new_session_flow(owner, user, action.context.platform, msg.chat_id, None, replies, at)
    } else {
        match route_flow(owner, user, action, now_ms, replies, at) {
            ProgressView::Done { value: response, used } => match action.context.message_id {
                None => ProgressView::Done { value: MessageResultView::Action(response), used },
                Some(message_id) => match quoted_session_flow(
                    owner,
                    user,
                    msg,
                    message_id,
                    now_ms,
                    replies,
                    used,
                ) {
                    ProgressView::Done { value: None, used } => ProgressView::Done {
                        value: MessageResultView::Action(response),
                        used,
                    },
                    ProgressView::Done { value: Some((conversation, session_id)), used } => {
                        ProgressView::Done {
                            value: MessageResultView::RoutedAction {
                                response,
                                session_id,
                                conversation_id: Some(conversation),
                                follow_up_text: None,
                            },
                            used,
                        }
                    },
                    other => stopped(other),
                },
            },
            other => stopped(other),
        }
    }
}

/// A text that is no command: it must reply to a message that leads to a conversation.
pub open spec fn reply_flow(
    owner: Seq<char>,
    user: Seq<char>,
    msg: UnifiedIncomingMessageView,
    now_ms: i64,
    replies: Seq<ReplyView>,
    at: int,
) -> ProgressView<MessageResultView> {
    let unbound = MessageResultView::Action(response::unbound_session_response());
    match msg.reply_to_message_id {
        None => ProgressView::Done { value: unbound, used: at },
        Some(message_id) => match quoted_session_flow(
            owner,
            user,
            msg,
            message_id,
            now_ms,
            replies,
            at,
        ) {
            ProgressView::Done { value: None, used } => ProgressView::Done { value: unbound, used },
            ProgressView::Done { value: Some((conversation, session_id)), used } => ProgressView::Done {
                value: MessageResultView::Dispatched {
                    owner_user_id: owner,
                    session_id,
                    conversation_id: Some(conversation),
                },
                used,
            },
            other => stopped(other),
        },
    }
}

/// The command in a message, if it is one that may hold a command.
pub open spec fn command_of(
    msg: UnifiedIncomingMessageView,
) -> Option<(Seq<char>, Option<Seq<char>>)> {
    if msg.content.content_type == MessageContentType::Action {
        None
    } else {
        command::session_command(msg.content.text)
    }
}

/// A message of an authorized user.
pub open spec fn authorized_flow(
    owner: Seq<char>,
    user: Seq<char>,
    msg: UnifiedIncomingMessageView,
    now_ms: i64,
    replies: Seq<ReplyView>,
    at: int,
) -> ProgressView<MessageResultView> {
    match msg.action {
        Some(action) => action_flow(owner, user, msg, action, now_ms, replies, at),
        None => match command_of(msg) {
            Some((name, follow_up)) => if name == "session.new"@ {
                new_session_flow(owner, user, msg.platform, msg.chat_id, follow_up, replies, at)
            } else {
                ProgressView::Done {
                    value: MessageResultView::Action(response::help_response()),
                    used: at,
                }
            },
            None => reply_flow(owner, user, msg, now_ms, replies, at),
        },
    }
}

/// The owner of the channel that a message came through.
pub open spec fn owner_of(
    executor_owner: Option<Seq<char>>,
    msg: UnifiedIncomingMessageView,
) -> Option<Seq<char>> {
    match msg.owner_user_id {
        Some(owner) => Some(owner),
        None => executor_owner,
    }
}

/// The flow of an incoming message: who sent it, then what it asks for.
pub open spec fn incoming_flow(
    executor_owner: Option<Seq<char>>,
    msg: UnifiedIncomingMessageView,
    now_ms: i64,
    replies: Seq<ReplyView>,
) -> ProgressView<MessageResultView> {
    match owner_of(executor_owner, msg) {
        None => ProgressView::Failed(
            ChannelErrorView::InvalidConfig("channel owner user is required"@),
        ),
        Some(owner) => if replies.len() == 0 {
            ProgressView::Ask(
                RequestView::LookupUser {
                    owner_user_id: owner,
                    platform_user_id: msg.user.id,
                    platform: msg.platform,
                },
            )
        } else {
            match replies[0] {
                ReplyView::User(None) => match pairing_flow(
                    owner,
                    msg.user.id,
                    msg.platform,
                    Some(msg.user.display_name),
                    replies,
                    1,
                ) {
                    ProgressView::Done { value, used } => ProgressView::Done {
                        value: MessageResultView::Action(value),
                        used,
                    },
                    other => stopped(other),
                },
                ReplyView::User(Some(user)) => authorized_flow(owner, user, msg, now_ms, replies, 1),
                other => refused(other),
            }
        },
    }
}

/// Whether the id of the session that the response to `msg` spells out can be shown.
pub open spec fn session_can_be_shown(
    executor_owner: Option<Seq<char>>,
    msg: UnifiedIncomingMessageView,
    now_ms: i64,
    replies: Seq<ReplyView>,
) -> bool {
    owner_of(executor_owner, msg) matches Some(owner) ==> msg.action matches Some(action) ==> (
    action.category == ActionCategory::System && replies.len() > 0 && !presses_new_session(action))
        ==> (replies[0] matches ReplyView::User(Some(user)) ==> system_session_can_be_shown(
        owner,
        user,
        action,
        now_ms,
        replies,
        1,
    ))
}

// ── The executor ────────────────────────────────────────────────────

fn resolve_conversation_by_reply(
    owner_user_id: &str,
    platform: PluginType,
    queries: &Vec<RouteQuery>,
    replies: &Vec<Reply>,
    at: usize,
) -> (r: Progress<Option<String>>)
    requires
        at <= replies@.len(),
    ensures
        r.deep_view() == resolve_flow(
            owner_user_id@,
            platform,
            queries.deep_view(),
            replies.deep_view(),
            at as int,
        ),
        r matches Progress::Done { used, .. } ==> at <= used <= replies@.len(),
{
    let ghost all = queries.deep_view();
    let ghost given = replies.deep_view();
    let mut asked: usize = 0;
    let mut used: usize = at;
    assert(all.skip(0) =~= all);
    while asked < queries.len()
        invariant
            asked <= queries@.len(),
            at <= used <= replies@.len(),
            all == queries.deep_view(),
            given == replies.deep_view(),
            resolve_flow(owner_user_id@, platform, all.skip(asked as int), given, used as int)
                == resolve_flow(owner_user_id@, platform, all, given, at as int),
        decreases queries@.len() - asked,
    {
        assert(all.skip(asked as int)[0] == queries@[asked as int].deep_view());
        assert(all.skip(asked as int).drop_first() =~= all.skip(asked as int + 1));
        if used >= replies.len() {
            return Progress::Ask(
                Request::ResolveRoute {
                    owner_user_id: owner_user_id.to_owned(),
                    platform,
                    query: queries[asked].clone(),
                },
            );
        }
        assert(given[used as int] == replies@[used as int].deep_view());
        match &replies[used] {
            Reply::Route(Some(found)) => {
                return Progress::Done { value: Some(found.clone()), used: used + 1 };
            },
            Reply::Route(None) => {},
            other => {
                return refuse(other);
            },
        }
        used = used + 1;
        asked = asked + 1;
    }
    assert(all.skip(asked as int) =~= Seq::empty());
    Progress::Done { value: None, used }
}

fn open_session<'a>(
    owner_user_id: &str,
    internal_user_id: &str,
    platform: PluginType,
    chat_id: &str,
    conversation_id: Option<&str>,
    replies: &'a Vec<Reply>,
    at: usize,
) -> (r: Progress<(&'a AgentConfig, &'a ChannelSession)>)
    requires
        at <= replies@.len(),
    ensures
        r.deep_view() == session_flow(
            owner_user_id@,
            internal_user_id@,
            platform,
            chat_id@,
            conversation_id.deep_view(),
            replies.deep_view(),
            at as int,
        ),
        r matches Progress::Done { used, .. } ==> at <= used <= replies@.len(),
{
    if at >= replies.len() {
        return Progress::Ask(
            Request::LoadAgentConfig { owner_user_id: owner_user_id.to_owned(), platform },
        );
    }
    assert(replies.deep_view()[at as int] == replies@[at as int].deep_view());
    match &replies[at] {
        Reply::AgentConfig(config) => {
            if at + 1 >= replies.len() {
                let request = match conversation_id {
                    None => Request::CreateSession {
                        owner_user_id: owner_user_id.to_owned(),
                        user_id: internal_user_id.to_owned(),
                        chat_id: chat_id.to_owned(),
                        agent_type: config.agent_type.clone(),
                    },
                    Some(conversation) => Request::ActivateConversation {
                        owner_user_id: owner_user_id.to_owned(),
                        user_id: internal_user_id.to_owned(),
                        chat_id: chat_id.to_owned(),
                        agent_type: config.agent_type.clone(),
                        conversation_id: conversation.to_owned(),
                    },
                };
                return Progress::Ask(request);
            }
            assert(replies.deep_view()[at as int + 1] == replies@[at as int + 1].deep_view());
            match &replies[at + 1] {
                Reply::Session(session) => Progress::Done { value: (config, session), used: at + 2 },
                other => refuse(other),
            }
        },
        other => refuse(other),
    }
}

fn request_pairing(
    owner_user_id: &str,
    platform_user_id: &str,
    platform: PluginType,
    display_name: Option<&str>,
    replies: &Vec<Reply>,
    at: usize,
) -> (r: Progress<ActionResponse>)
    requires
        at <= replies@.len(),
    ensures
        r.deep_view() == pairing_flow(
            owner_user_id@,
            platform_user_id@,
            platform,
            display_name.deep_view(),
            replies.deep_view(),
            at as int,
        ),
        r matches Progress::Done { used, .. } ==> at <= used <= replies@.len(),
{
    if at >= replies.len() {
        let shown = match display_name {
            Some(name) => Some(name.to_owned()),
            None => None,
        };
        return Progress::Ask(
            Request::RequestPairing {
                owner_user_id: owner_user_id.to_owned(),
                platform_user_id: platform_user_id.to_owned(),
                platform,
                display_name: shown,
            },
        );
    }
    assert(replies.deep_view()[at as int] == replies@[at as int].deep_view());
    match &replies[at] {
        Reply::PairingCode(code) => Progress::Done {
            value: build_pairing_response(code.as_str()),
            used: at + 1,
        },
        other => refuse(other),
    }
}

fn handle_platform_action(
    owner_user_id: &str,
    action: &UnifiedAction,
    replies: &Vec<Reply>,
    at: usize,
) -> (r: Progress<ActionResponse>)
    requires
        at <= replies@.len(),
    ensures
        r.deep_view() == platform_flow(
            owner_user_id@,
            action.deep_view(),
            replies.deep_view(),
            at as int,
        ),
        r matches Progress::Done { used, .. } ==> at <= used <= replies@.len(),
{
    let name = action.action.as_str();
    if same_text(name, "pairing.show") || same_text(name, "pairing.refresh") {
        request_pairing(
            owner_user_id,
            action.context.user_id.as_str(),
            action.context.platform,
            None,
            replies,
            at,
        )
    } else if same_text(name, "pairing.check") {
        if at >= replies.len() {
            return Progress::Ask(
                Request::CheckAuthorized {
                    owner_user_id: owner_user_id.to_owned(),
                    platform_user_id: action.context.user_id.clone(),
                    platform: action.context.platform,
                },
            );
        }
        assert(replies.deep_view()[at as int] == replies@[at as int].deep_view());
        match &replies[at] {
            Reply::Authorized(authorized) => Progress::Done {
                value: build_authorization_response(*authorized),
                used: at + 1,
            },
            other => refuse(other),
        }
    } else if same_text(name, "pairing.help") {
        Progress::Done { value: build_pairing_help_response(), used: at }
    } else {
        Progress::Done { value: build_unknown_action_response(name), used: at }
    }
}

fn system_session<'a>(
    owner_user_id: &str,
    internal_user_id: &str,
    action: &UnifiedAction,
    now_ms: i64,
    replies: &'a Vec<Reply>,
    at: usize,
) -> (r: Progress<Option<(&'a AgentConfig, &'a ChannelSession)>>)
    requires
        at <= replies@.len(),
        now_ms <= i64::MAX - reply::LATEST_MESSAGE_LEAD_MS,
    ensures
        r.deep_view() == system_session_flow(
            owner_user_id@,
            internal_user_id@,
            action.deep_view(),
            now_ms,
            replies.deep_view(),
            at as int,
        ),
        r matches Progress::Done { used, .. } ==> at <= used <= replies@.len(),
{
    let platform = action.context.platform;
    let chat_id = action.context.chat_id.as_str();
    if same_text(action.action.as_str(), "session.new") {
        return match open_session(
            owner_user_id,
            internal_user_id,
            platform,
            chat_id,
            None,
            replies,
            at,
        ) {
            Progress::Done { value, used } => Progress::Done { value: Some(value), used },
            Progress::Ask(request) => Progress::Ask(request),
            Progress::Failed(error) => Progress::Failed(error),
            Progress::Unexpected => Progress::Unexpected,
        };
    }
    let message_id = match &action.context.message_id {
        Some(message_id) => message_id.as_str(),
        None => {
            return Progress::Done { value: None, used: at };
        },
    };
    let queries = reply_route_queries(
        platform,
        chat_id,
        action.context.user_id.as_str(),
        message_id,
        None,
        now_ms,
    );
    match resolve_conversation_by_reply(owner_user_id, platform, &queries, replies, at) {
        Progress::Done { value: None, used } => Progress::Done { value: None, used },
        Progress::Done { value: Some(conversation), used } => match open_session(
            owner_user_id,
            internal_user_id,
            platform,
            chat_id,
            Some(conversation.as_str()),
            replies,
            used,
        ) {
            Progress::Done { value, used } => Progress::Done { value: Some(value), used },
            Progress::Ask(request) => Progress::Ask(request),
            Progress::Failed(error) => Progress::Failed(error),
            Progress::Unexpected => Progress::Unexpected,
        },
        Progress::Ask(request) => Progress::Ask(request),
        Progress::Failed(error) => Progress::Failed(error),
        Progress::Unexpected => Progress::Unexpected,
    }
}

fn backend_of(config: &AgentConfig) -> (r: Option<&str>)
    ensures
        r.deep_view() == config.deep_view().backend,
{
    match &config.backend {
        Some(backend) => Some(backend.as_str()),
        None => None,
    }
}

fn handle_system_action(
    owner_user_id: &str,
    internal_user_id: &str,
    action: &UnifiedAction,
    now_ms: i64,
    replies: &Vec<Reply>,
    at: usize,
) -> (r: Progress<ActionResponse>)
    requires
        at <= replies@.len(),
        now_ms <= i64::MAX - reply::LATEST_MESSAGE_LEAD_MS,
        system_session_can_be_shown(
            owner_user_id@,
            internal_user_id@,
            action.deep_view(),
            now_ms,
            replies.deep_view(),
            at as int,
        ),
    ensures
        r.deep_view() == system_flow(
            owner_user_id@,
            internal_user_id@,
            action.deep_view(),
            now_ms,
            replies.deep_view(),
            at as int,
        ),
        r matches Progress::Done { used, .. } ==> at <= used <= replies@.len(),
{
    let name = action.action.as_str();
    let is_new = same_text(name, "session.new");
    if is_new || same_text(name, "session.status") {
        match system_session(owner_user_id, internal_user_id, action, now_ms, replies, at) {
            Progress::Done { value: Some((config, session)), used } => {
                let value = if is_new {
                    build_session_created_response(backend_of(config), session)
                } else {
                    build_session_status_response(backend_of(config), session)
                };
                Progress::Done { value, used }
            },
            Progress::Done { value: None, used } => Progress::Done {
                value: build_unbound_session_response(),
                used,
            },
            Progress::Ask(request) => Progress::Ask(request),
            Progress::Failed(error) => Progress::Failed(error),
            Progress::Unexpected => Progress::Unexpected,
        }
    } else if same_text(name, "help.show") {
        Progress::Done { value: build_help_response(), used: at }
    } else {
        match build_page_response(name) {
            Some(page) => Progress::Done { value: page, used: at },
            None => Progress::Done { value: build_unknown_action_response(name), used: at },
        }
    }
}

fn route_action(
    owner_user_id: &str,
    internal_user_id: &str,
    action: &UnifiedAction,
    now_ms: i64,
    replies: &Vec<Reply>,
    at: usize,
) -> (r: Progress<ActionResponse>)
    requires
        at <= replies@.len(),
        now_ms <= i64::MAX - reply::LATEST_MESSAGE_LEAD_MS,
        action.category == ActionCategory::System ==> system_session_can_be_shown(
            owner_user_id@,
            internal_user_id@,
            action.deep_view(),
            now_ms,
            replies.deep_view(),
            at as int,
        ),
    ensures
        r.deep_view() == route_flow(
            owner_user_id@,
            internal_user_id@,
            action.deep_view(),
            now_ms,
            replies.deep_view(),
            at as int,
        ),
        r matches Progress::Done { used, .. } ==> at <= used <= replies@.len(),
{
    match action.category {
        ActionCategory::Platform => handle_platform_action(owner_user_id, action, replies, at),
        ActionCategory::System => handle_system_action(
            owner_user_id,
            internal_user_id,
            action,
            now_ms,
            replies,
            at,
        ),
        ActionCategory::Chat => Progress::Done {
            value: build_chat_response(action.action.as_str()),
            used: at,
        },
    }
}

fn create_new_session(
    owner_user_id: &str,
    internal_user_id: &str,
    platform: PluginType,
    chat_id: &str,
    follow_up_text: Option<String>,
    replies: &Vec<Reply>,
    at: usize,
) -> (r: Progress<MessageResult>)
    requires
        at <= replies@.len(),
    ensures
        r.deep_view() == new_session_flow(
            owner_user_id@,
            internal_user_id@,
            platform,
            chat_id@,
            follow_up_text.deep_view(),
            replies.deep_view(),
            at as int,
        ),
        r matches Progress::Done { used, .. } ==> at <= used <= replies@.len(),
{
    match open_session(owner_user_id, internal_user_id, platform, chat_id, None, replies, at) {
        Progress::Done { value: (_, session), used } => {
            let mut response = build_session_ready_response();
            if follow_up_text.is_some() {
                response.text = None;
            }
            Progress::Done {
                value: MessageResult::RoutedAction {
                    response,
                    session_id: session.id.clone(),
                    conversation_id: None,
                    follow_up_text,
                },
                used,
            }
        },
        Progress::Ask(request) => Progress::Ask(request),
        Progress::Failed(error) => Progress::Failed(error),
        Progress::Unexpected => Progress::Unexpected,
    }
}

fn open_quoted_session(
    owner_user_id: &str,
    internal_user_id: &str,
    msg: &UnifiedIncomingMessage,
    message_id: &str,
    now_ms: i64,
    replies: &Vec<Reply>,
    at: usize,
) -> (r: Progress<Option<(String, String)>>)
    requires
        at <= replies@.len(),
        now_ms <= i64::MAX - reply::LATEST_MESSAGE_LEAD_MS,
    ensures
        r.deep_view() == quoted_session_flow(
            owner_user_id@,
            internal_user_id@,
            msg.deep_view(),
            message_id@,
            now_ms,
            replies.deep_view(),
            at as int,
        ),
        r matches Progress::Done { used, .. } ==> at <= used <= replies@.len(),
{
    let raw = match &msg.raw {
        Some(value) => Some(value),
        None => None,
    };
    let queries = reply_route_queries(
        msg.platform,
        msg.chat_id.as_str(),
        msg.user.id.as_str(),
        message_id,
        quoted_text_from_raw(raw),
        now_ms,
    );
    match resolve_conversation_by_reply(owner_user_id, msg.platform, &queries, replies, at) {
        Progress::Done { value: None, used } => Progress::Done { value: None, used },
        Progress::Done { value: Some(conversation), used } => match open_session(
            owner_user_id,
            internal_user_id,
            msg.platform,
            msg.chat_id.as_str(),
            Some(conversation.as_str()),
            replies,
            used,
        ) {
            Progress::Done { value: (_, session), used } => Progress::Done {
                value: Some((conversation, session.id.clone())),
                used,
            },
            Progress::Ask(request) => Progress::Ask(request),
            Progress::Failed(error) => Progress::Failed(error),
            Progress::Unexpected => Progress::Unexpected,
        },
        Progress::Ask(request) => Progress::Ask(request),
        Progress::Failed(error) => Progress::Failed(error),
        Progress::Unexpected => Progress::Unexpected,
    }
}

fn handle_action(
    owner_user_id: &str,
    internal_user_id: &str,
    msg: &UnifiedIncomingMessage,
    action: &UnifiedAction,
    now_ms: i64,
    replies: &Vec<Reply>,
    at: usize,
) -> (r: Progress<MessageResult>)
    requires
        at <= replies@.len(),
        now_ms <= i64::MAX - reply::LATEST_MESSAGE_LEAD_MS,
        action.category == ActionCategory::System && !presses_new_session(action.deep_view())
            ==> system_session_can_be_shown(
            owner_user_id@,
            internal_user_id@,
            action.deep_view(),
            now_ms,
            replies.deep_view(),
            at as int,
        ),
    ensures
        r.deep_view() == action_flow(
            owner_user_id@,
            internal_user_id@,
            msg.deep_view(),
            action.deep_view(),
            now_ms,
            replies.deep_view(),
            at as int,
        ),
{
    if action.category == ActionCategory::System && same_text(action.action.as_str(), "session.new") {
        return create_new_session(
            owner_user_id,
            internal_user_id,
            action.context.platform,
            msg.chat_id.as_str(),
            None,
            replies,
            at,
        );
    }
    match route_action(owner_user_id, internal_user_id, action, now_ms, replies, at) {
        Progress::Done { value: response, used } => match &action.context.message_id {
            None => Progress::Done { value: MessageResult::Action(response), used },
            Some(message_id) => match open_quoted_session(
                owner_user_id,
                internal_user_id,
                msg,
                message_id.as_str(),
                now_ms,
                replies,
                used,
            ) {
                Progress::Done { value: None, used } => Progress::Done {
                    value: MessageResult::Action(response),
                    used,
                },
                Progress::Done { value: Some((conversation, session_id)), used } => Progress::Done {
                    value: MessageResult::RoutedAction {
                        response,
                        session_id,
                        conversation_id: Some(conversation),
                        follow_up_text: None,
                    },
                    used,
                },
                Progress::Ask(request) => Progress::Ask(request),
                Progress::Failed(error) => Progress::Failed(error),
                Progress::Unexpected => Progress::Unexpected,
            },
        },
        Progress::Ask(request) => Progress::Ask(request),
        Progress::Failed(error) => Progress::Failed(error),
        Progress::Unexpected => Progress::Unexpected,
    }
}

fn handle_text(
    owner_user_id: &str,
    internal_user_id: &str,
    msg: &UnifiedIncomingMessage,
    now_ms: i64,
    replies: &Vec<Reply>,
    at: usize,
) -> (r: Progress<MessageResult>)
    requires
        at <= replies@.len(),
        now_ms <= i64::MAX - reply::LATEST_MESSAGE_LEAD_MS,
        msg.action is None,
    ensures
        r.deep_view() == authorized_flow(
            owner_user_id@,
            internal_user_id@,
            msg.deep_view(),
            now_ms,
            replies.deep_view(),
            at as int,
        ),
{
    if msg.content.content_type != MessageContentType::Action {
        match resolve_session_command(msg.content.text.as_str()) {
            Some((name, follow_up_text)) => {
                if same_text(name, "session.new") {
                    return create_new_session(
                        owner_user_id,
                        internal_user_id,
                        msg.platform,
                        msg.chat_id.as_str(),
                        follow_up_text,
                        replies,
                        at,
                    );
                }
                return Progress::Done { value: MessageResult::Action(build_help_response()), used: at };
            },
            None => {},
        }
    }
    let message_id = match &msg.reply_to_message_id {
        Some(message_id) => message_id.as_str(),
        None => {
            return Progress::Done {
                value: MessageResult::Action(build_unbound_session_response()),
                used: at,
            };
        },
    };
    match open_quoted_session(
        owner_user_id,
        internal_user_id,
        msg,
        message_id,
        now_ms,
        replies,
        at,
    ) {
        Progress::Done { value: None, used } => Progress::Done {
            value: MessageResult::Action(build_unbound_session_response()),
            used,
        },
        Progress::Done { value: Some((conversation, session_id)), used } => Progress::Done {
            value: MessageResult::Dispatched {
                owner_user_id: owner_user_id.to_owned(),
                session_id,
                conversation_id: Some(conversation),
            },
            used,
        },
        Progress::Ask(request) => Progress::Ask(request),
        Progress::Failed(error) => Progress::Failed(error),
        Progress::Unexpected => Progress::Unexpected,
    }
}

/// Processes incoming messages: authorization, then actions, then the agent.
///
/// Each incoming message is either
/// 1. refused, where the sender is not authorized and gets a pairing code;
/// 2. answered, where it is a pressed button or a command; or
/// 3. dispatched to the agent, where it replies to a message of a conversation.
#[derive(Debug)]
pub struct ActionExecutor {
    owner_user_id: Option<String>,
}

impl ActionExecutor {
    /// The owner of messages that name none.
    pub closed spec fn owner(&self) -> Option<Seq<char>> {
        self.owner_user_id.deep_view()
    }

    /// An executor for the channels of `owner_user_id`.
    pub fn new(owner_user_id: Option<String>) -> (r: Self)
        ensures
            r.owner() == owner_user_id.deep_view(),
    {
        ActionExecutor { owner_user_id }
    }

    /// The owner of messages that name none.
    pub fn owner_user_id(&self) -> (r: Option<&str>)
        ensures
            r.deep_view() == self.owner(),
    {
        match &self.owner_user_id {
            Some(owner) => Some(owner.as_str()),
            None => None,
        }
    }

    /// What an incoming message leads to, with the replies given so far. `now_ms` is the time.
    pub fn handle_incoming_message(
        &self,
        msg: &UnifiedIncomingMessage,
        now_ms: i64,
        replies: &Vec<Reply>,
    ) -> (r: Progress<MessageResult>)
        requires
            now_ms <= i64::MAX - reply::LATEST_MESSAGE_LEAD_MS,
            session_can_be_shown(self.owner(), msg.deep_view(), now_ms, replies.deep_view()),
        ensures
            r.deep_view() == incoming_flow(
                self.owner(),
                msg.deep_view(),
                now_ms,
                replies.deep_view(),
            ),
    {
        let owner = match &msg.owner_user_id {
            Some(owner) => owner.as_str(),
            None => match &self.owner_user_id {
                Some(owner) => owner.as_str(),
                None => {
                    return Progress::Failed(
                        ChannelError::InvalidConfig("channel owner user is required".to_owned()),
                    );
                },
            },
        };
        if replies.len() == 0 {
            return Progress::Ask(
                Request::LookupUser {
                    owner_user_id: owner.to_owned(),
                    platform_user_id: msg.user.id.clone(),
                    platform: msg.platform,
                },
            );
        }
        assert(replies.deep_view()[0] == replies@[0].deep_view());
        match &replies[0] {
            Reply::User(None) => match request_pairing(
                owner,
                msg.user.id.as_str(),
                msg.platform,
                Some(msg.user.display_name.as_str()),
                replies,
                1,
            ) {
                Progress::Done { value, used } => Progress::Done {
                    value: MessageResult::Action(value),
                    used,
                },
                Progress::Ask(request) => Progress::Ask(request),
                Progress::Failed(error) => Progress::Failed(error),
                Progress::Unexpected => Progress::Unexpected,
            },
            Reply::User(Some(user)) => match &msg.action {
                Some(action) => handle_action(owner, user.as_str(), msg, action, now_ms, replies, 1),
                None => handle_text(owner, user.as_str(), msg, now_ms, replies, 1),
            },
            other => refuse(other),
        }
    }
}

// ── Laws ────────────────────────────────────────────────────────────

/// The questions are asked in order and the first answer wins: a conversation that is found was
/// answered to the last question asked, and every question before it found none.
pub proof fn first_answer_wins(
    owner: Seq<char>,
    platform: PluginType,
    queries: Seq<RouteQueryView>,
    replies: Seq<ReplyView>,
    at: int,
)
    requires
        0 <= at <= replies.len(),
    ensures
        match resolve_flow(owner, platform, queries, replies, at) {
            ProgressView::Done { value: Some(conversation), used } => {
                &&& at < used <= replies.len()
                &&& used - at <= queries.len()
                &&& replies[used - 1] == ReplyView::Route(Some(conversation))
                &&& forall|i: int| at <= i < used - 1 ==> replies[i] == ReplyView::Route(None)
            },
            ProgressView::Done { value: None, used } => {
                &&& used == at + queries.len() <= replies.len()
                &&& forall|i: int| at <= i < used ==> replies[i] == ReplyView::Route(None)
            },
            ProgressView::Ask(request) => {
                &&& replies.len() - at < queries.len()
                &&& request == RequestView::ResolveRoute {
                    owner_user_id: owner,
                    platform,
                    query: queries[replies.len() - at],
                }
                &&& forall|i: int| at <= i < replies.len() ==> replies[i] == ReplyView::Route(None)
            },
            _ => true,
        },
    decreases queries.len(),
{
    if queries.len() > 0 && at < replies.len() && replies[at] == ReplyView::Route(None) {
        let rest = queries.drop_first();
        first_answer_wins(owner, platform, rest, replies, at + 1);
        let n = replies.len() - at;
        assert(n >= 1 && n - 1 < rest.len() ==> rest[n - 1] == queries[n]);
    }
}

/// A sender who is not authorized gets a pairing code and nothing else.
pub proof fn unauthorized_sender_gets_only_a_code(
    executor_owner: Option<Seq<char>>,
    msg: UnifiedIncomingMessageView,
    now_ms: i64,
    replies: Seq<ReplyView>,
)
    requires
        replies.len() > 0,
        replies[0] == ReplyView::User(None),
    ensures
        match incoming_flow(executor_owner, msg, now_ms, replies) {
            ProgressView::Ask(request) => {
                &&& request is RequestPairing
                &&& request->RequestPairing_platform_user_id == msg.user.id
            },
            ProgressView::Done { value, .. } => {
                &&& replies.len() > 1
                &&& replies[1] matches ReplyView::PairingCode(code)
                &&& value == MessageResultView::Action(response::pairing_response(code))
            },
            _ => true,
        },
{
}

/// A message reaches the agent only where an authorized user quotes a message for which a recorded
/// route was found, and then it reaches the conversation of that route.
pub proof fn dispatch_follows_a_recorded_route(
    executor_owner: Option<Seq<char>>,
    msg: UnifiedIncomingMessageView,
    now_ms: i64,
    replies: Seq<ReplyView>,
)
    ensures
        incoming_flow(executor_owner, msg, now_ms, replies) matches ProgressView::Done {
            value: MessageResultView::Dispatched { owner_user_id, session_id, conversation_id },
            used,
        } ==> {
            &&& owner_of(executor_owner, msg) == Some(owner_user_id)
            &&& 4 <= used <= replies.len()
            &&& replies[0] matches ReplyView::User(Some(_))
            &&& msg.action is None
            &&& msg.reply_to_message_id is Some
            &&& conversation_id matches Some(conversation)
            &&& replies[used - 3] == ReplyView::Route(Some(conversation))
            &&& replies[used - 1] matches ReplyView::Session(session)
            &&& session.id == session_id
        },
{
    if let Some(owner) = owner_of(executor_owner, msg) {
        if let Some(message_id) = msg.reply_to_message_id {
            if replies.len() > 0 {
                first_answer_wins(
                    owner,
                    msg.platform,
                    message_queries(msg, message_id, now_ms),
                    replies,
                    1,
                );
            }
        }
    }
}

/// Quoting a recorded message leads to its conversation: the first question is for the quoted
/// message itself, and where it is found, the text reaches the agent in the conversation found,
/// with the session that was activated for it.
pub proof fn quoted_message_leads_to_its_conversation(
    executor_owner: Option<Seq<char>>,
    owner: Seq<char>,
    user: Seq<char>,
    msg: UnifiedIncomingMessageView,
    message_id: Seq<char>,
    conversation: Seq<char>,
    config: AgentConfigView,
    session: ChannelSessionView,
    now_ms: i64,
)
    requires
        owner_of(executor_owner, msg) == Some(owner),
        msg.action is None,
        command_of(msg) is None,
        msg.reply_to_message_id == Some(message_id),
    ensures
        incoming_flow(executor_owner, msg, now_ms, seq![ReplyView::User(Some(user))])
            == ProgressView::<MessageResultView>::Ask(
            RequestView::ResolveRoute {
                owner_user_id: owner,
                platform: msg.platform,
                query: RouteQueryView::Message { chat_id: msg.chat_id, message_id },
            },
        ),
        incoming_flow(
            executor_owner,
            msg,
            now_ms,
            seq![
                ReplyView::User(Some(user)),
                ReplyView::Route(Some(conversation)),
                ReplyView::AgentConfig(config),
                ReplyView::Session(session),
            ],
        ) == (ProgressView::Done {
            value: MessageResultView::Dispatched {
                owner_user_id: owner,
                session_id: session.id,
                conversation_id: Some(conversation),
            },
            used: 4,
        }),
{
    reply::quoted_message_is_asked_for(
        msg.platform,
        msg.chat_id,
        msg.user.id,
        message_id,
        reply::quoted_text(msg.raw),
        now_ms,
    );
}

/// A text that neither is a command nor quotes a message is answered by the hint how to continue a
/// conversation, without a single question.
pub proof fn plain_text_is_unbound(
    executor_owner: Option<Seq<char>>,
    msg: UnifiedIncomingMessageView,
    now_ms: i64,
    replies: Seq<ReplyView>,
)
    requires
        owner_of(executor_owner, msg) is Some,
        replies.len() > 0,
        replies[0] is User,
        replies[0]->User_0 is Some,
        msg.action is None,
        command_of(msg) is None,
        msg.reply_to_message_id is None,
    ensures
        incoming_flow(executor_owner, msg, now_ms, replies) == (ProgressView::Done {
            value: MessageResultView::Action(response::unbound_session_response()),
            used: 1,
        }),
{
}

/// Whether an authorized user's message asks for a new session, by button or by command.
pub open spec fn asks_for_new_session(msg: UnifiedIncomingMessageView) -> bool {
    match msg.action {
        Some(action) => presses_new_session(action),
        None => command_of(msg) matches Some((name, _)) && name == "session.new"@,
    }
}

/// Asking for a new session always creates one: no existing session or conversation is looked for,
/// and none is touched.
pub proof fn new_session_is_always_created(
    executor_owner: Option<Seq<char>>,
    msg: UnifiedIncomingMessageView,
    now_ms: i64,
    replies: Seq<ReplyView>,
)
    requires
        asks_for_new_session(msg),
        replies.len() > 0,
        replies[0] is User,
        replies[0]->User_0 is Some,
    ensures
        match incoming_flow(executor_owner, msg, now_ms, replies) {
            ProgressView::Ask(request) => request is LoadAgentConfig || request is CreateSession,
            ProgressView::Done { value, used } => {
                &&& used == 3
                &&& replies.len() >= 3
                &&& replies[2] matches ReplyView::Session(session)
                &&& value is RoutedAction
                &&& value->RoutedAction_session_id == session.id
                &&& value->RoutedAction_conversation_id is None
            },
            _ => true,
        },
{
}

/// The sessions that a run of the flow has had created, in order: those that answered a request for
/// a new one.
pub open spec fn created_sessions(
    executor_owner: Option<Seq<char>>,
    msg: UnifiedIncomingMessageView,
    now_ms: i64,
    replies: Seq<ReplyView>,
) -> Seq<ChannelSessionView>
    decreases replies.len(),
{
    if replies.len() == 0 {
        Seq::empty()
    } else {
        let earlier = created_sessions(executor_owner, msg, now_ms, replies.drop_last());
        match (incoming_flow(executor_owner, msg, now_ms, replies.drop_last()), replies.last()) {
            (ProgressView::Ask(RequestView::CreateSession { .. }), ReplyView::Session(session)) => {
                earlier.push(session)
            },
            _ => earlier,
        }
    }
}

/// Whether the services have answered a message of `user` that asks for a new session, up to the
/// session.
pub open spec fn answers_new_session(
    replies: Seq<ReplyView>,
    user: Seq<char>,
    config: AgentConfigView,
    session: ChannelSessionView,
) -> bool {
    replies == seq![
        ReplyView::User(Some(user)),
        ReplyView::AgentConfig(config),
        ReplyView::Session(session),
    ]
}

/// A message that asks for a new session has exactly one created, for its sender and its chat, and
/// leads to that one, which is bound to no conversation yet.
pub proof fn one_session_is_created(
    executor_owner: Option<Seq<char>>,
    owner: Seq<char>,
    msg: UnifiedIncomingMessageView,
    now_ms: i64,
    replies: Seq<ReplyView>,
    user: Seq<char>,
    config: AgentConfigView,
    session: ChannelSessionView,
)
    requires
        owner_of(executor_owner, msg) == Some(owner),
        asks_for_new_session(msg),
        answers_new_session(replies, user, config, session),
    ensures
        incoming_flow(executor_owner, msg, now_ms, replies.take(2)) == ProgressView::<
            MessageResultView,
        >::Ask(
            RequestView::CreateSession {
                owner_user_id: owner,
                user_id: user,
                chat_id: msg.chat_id,
                agent_type: config.agent_type,
            },
        ),
        incoming_flow(executor_owner, msg, now_ms, replies) matches ProgressView::Done {
            value: MessageResultView::RoutedAction {
                session_id,
                conversation_id,
                follow_up_text,
                ..
            },
            used,
        } && used == 3 && session_id == session.id && conversation_id is None && (msg.action is Some
            ==> follow_up_text is None),
        created_sessions(executor_owner, msg, now_ms, replies) == seq![session],
{
    let two = replies.drop_last();
    let one = two.drop_last();
    let none = one.drop_last();
    assert(replies.take(2) =~= two);
    assert(two =~= seq![ReplyView::User(Some(user)), ReplyView::AgentConfig(config)]);
    assert(one =~= seq![ReplyView::User(Some(user))]);
    assert(none =~= Seq::empty());
    assert(created_sessions(executor_owner, msg, now_ms, none) =~= Seq::empty());
    assert(created_sessions(executor_owner, msg, now_ms, one) =~= Seq::empty());
    assert(created_sessions(executor_owner, msg, now_ms, two) =~= Seq::empty());
    assert(created_sessions(executor_owner, msg, now_ms, replies) =~= seq![session]);
}

/// Asking for a new session twice has two created, one for each message: the second one neither
/// takes up the first session nor asks for anything to be done to it. Where the store gives each
/// session an id of its own, the two messages lead to different sessions.
pub proof fn second_new_session_leaves_the_first(
    executor_owner: Option<Seq<char>>,
    first: UnifiedIncomingMessageView,
    first_ms: i64,
    first_replies: Seq<ReplyView>,
    first_session: ChannelSessionView,
    second: UnifiedIncomingMessageView,
    second_ms: i64,
    second_replies: Seq<ReplyView>,
    second_session: ChannelSessionView,
    user: Seq<char>,
    first_config: AgentConfigView,
    second_config: AgentConfigView,
)
    requires
        owner_of(executor_owner, first) is Some,
        owner_of(executor_owner, second) is Some,
        asks_for_new_session(first),
        asks_for_new_session(second),
        answers_new_session(first_replies, user, first_config, first_session),
        answers_new_session(second_replies, user, second_config, second_session),
        first_session.id != second_session.id,
    ensures
        created_sessions(executor_owner, first, first_ms, first_replies) + created_sessions(
            executor_owner,
            second,
            second_ms,
            second_replies,
        ) == seq![first_session, second_session],
        forall|i: int|
            0 <= i < 3 ==> (#[trigger] incoming_flow(
                executor_owner,
                second,
                second_ms,
                second_replies.take(i),
            ) matches ProgressView::Ask(request) && (request is LookupUser || request
                is LoadAgentConfig || request is CreateSession)),
        (
            incoming_flow(executor_owner, first, first_ms, first_replies),
            incoming_flow(executor_owner, second, second_ms, second_replies),
        ) matches (
            ProgressView::Done { value: MessageResultView::RoutedAction { session_id: a, .. }, .. },
            ProgressView::Done { value: MessageResultView::RoutedAction { session_id: b, .. }, .. },
        ) && a == first_session.id && b == second_session.id && a != b,
{
    one_session_is_created(
        executor_owner,
        owner_of(executor_owner, first)->Some_0,
        first,
        first_ms,
        first_replies,
        user,
        first_config,
        first_session,
    );
    one_session_is_created(
        executor_owner,
        owner_of(executor_owner, second)->Some_0,
        second,
        second_ms,
        second_replies,
        user,
        second_config,
        second_session,
    );
    assert forall|i: int| 0 <= i < 3 implies (#[trigger] incoming_flow(
        executor_owner,
        second,
        second_ms,
        second_replies.take(i),
    ) matches ProgressView::Ask(request) && (request is LookupUser || request is LoadAgentConfig
        || request is CreateSession)) by {
        if i > 0 {
            assert(second_replies.take(i)[0] == second_replies[0]);
        }
        if i > 1 {
            assert(second_replies.take(i)[1] == second_replies[1]);
        }
    }
}

/// Whether `name` is a system action.
pub open spec fn is_system_action(name: Seq<char>) -> bool {
    name == "session.new"@ || name == "session.status"@ || name == "help.show"@ || name
        == "help.features"@ || name == "help.pairing"@ || name == "help.tips"@ || name
        == "settings.show"@
}

/// Whether `name` is a platform action.
pub open spec fn is_platform_action(name: Seq<char>) -> bool {
    name == "pairing.show"@ || name == "pairing.refresh"@ || name == "pairing.check"@ || name
        == "pairing.help"@
}

/// Whether `name` is a chat action.
pub open spec fn is_chat_action(name: Seq<char>) -> bool {
    name == "chat.send"@ || name == "chat.regenerate"@ || name == "chat.continue"@ || name
        == "action.copy"@ || name == "system.confirm"@
}

/// How the text of every answer to an unknown action begins, and that of no other answer without
/// buttons.
proof fn lemma_unknown_text(name: Seq<char>)
    ensures
        response::unknown_action_response(name).text matches Some(text) && text.len() > 0 && text[0]
            == '无',
        response::unbound_session_response().text->Some_0[0] != '无',
        response::pairing_help_response().text->Some_0[0] != '无',
        response::authorization_response(true).text->Some_0[0] != '无',
        forall|action: Seq<char>| #[trigger]
            response::page_text(action) matches Some(text) ==> text[0] != '无',
{
    reveal_strlit("无法识别的操作：");
    reveal_strlit("我还不知道你想继续哪个会话。\n请引用回复我之前的一条消息，或发送 /new 创建新会话。");
    reveal_strlit(
        "使用此机器人前需要完成授权：\n1. 发送任意消息获取 6 位配对码\n2. 把配对码交给管理员\n3. 管理员在 SayDoneAI → 远程连接 → Channels 中批准\n4. 授权通过后发送 /new 创建会话",
    );
    reveal_strlit("授权已通过。发送 /new 创建新会话。");
    reveal_strlit("功能：\n• 使用已配置的 CLI 和模型聊天\n• 在授权模式下执行工具\n• 通过引用回复精确进入指定会话");
    reveal_strlit("配对：\n发送任意消息 → 获取 6 位配对码 → 管理员批准 → 完成授权");
    reveal_strlit(
        "使用提示：\n• 发送 /new 创建空白新会话\n• 发送 /new 你的消息，创建会话并立即发送\n• 引用回复机器人消息，继续对应的会话\n• 使用 /help 查看帮助",
    );
    reveal_strlit(
        "渠道设置由 SayDoneAI 桌面应用管理。\n请前往远程连接 → Channels 配置渠道、CLI、模型和授权用户。",
    );
}

/// A system action is answered as unknown exactly where it is none of the known ones; and then it is
/// answered at once, without a single question.
pub proof fn only_unknown_system_actions_are_unknown(
    owner: Seq<char>,
    user: Seq<char>,
    action: UnifiedActionView,
    now_ms: i64,
    replies: Seq<ReplyView>,
    at: int,
)
    ensures
        system_flow(owner, user, action, now_ms, replies, at) matches ProgressView::Done { value, .. }
            ==> (value == response::unknown_action_response(action.action) <==> !is_system_action(
            action.action,
        )),
        !is_system_action(action.action) ==> system_flow(owner, user, action, now_ms, replies, at) == (
        ProgressView::Done {
            value: response::unknown_action_response(action.action),
            used: at,
        }),
{
    lemma_unknown_text(action.action);
}

/// A platform action is answered as unknown exactly where it is none of the known ones.
pub proof fn only_unknown_platform_actions_are_unknown(
    owner: Seq<char>,
    action: UnifiedActionView,
    replies: Seq<ReplyView>,
    at: int,
)
    ensures
        platform_flow(owner, action, replies, at) matches ProgressView::Done { value, .. } ==> (value
            == response::unknown_action_response(action.action) <==> !is_platform_action(
            action.action,
        )),
        !is_platform_action(action.action) ==> platform_flow(owner, action, replies, at) == (
        ProgressView::Done {
            value: response::unknown_action_response(action.action),
            used: at,
        }),
{
    lemma_unknown_text(action.action);
}

/// A chat action is answered as unknown exactly where it is none of the known ones.
pub proof fn only_unknown_chat_actions_are_unknown(name: Seq<char>)
    ensures
        response::chat_response(name) == response::unknown_action_response(name)
            <==> !is_chat_action(name),
{
}

/// Whether every button of a response asks for an action of which `known` is true.
pub open spec fn buttons_ask(
    response: ActionResponseView,
    known: spec_fn(Seq<char>) -> bool,
) -> bool {
    response.buttons matches Some(rows) ==> forall|i: int, j: int|
        0 <= i < rows.len() && 0 <= j < rows[i].len() ==> known(#[trigger] rows[i][j].action)
}

/// No button leads nowhere: those of the help menu and of what is said about sessions ask for system
/// actions, those about pairing for platform actions.
pub proof fn every_button_is_handled(
    code: Seq<char>,
    authorized: bool,
    backend: Option<Seq<char>>,
    session: ChannelSessionView,
)
    ensures
        buttons_ask(response::help_response(), |name: Seq<char>| is_system_action(name)),
        buttons_ask(response::session_ready_response(), |name: Seq<char>| is_system_action(name)),
        buttons_ask(
            response::session_created_response(backend, session),
            |name: Seq<char>| is_system_action(name),
        ),
        buttons_ask(
            response::session_status_response(backend, session),
            |name: Seq<char>| is_system_action(name),
        ),
        buttons_ask(
            response::pairing_response(code),
            |name: Seq<char>| is_platform_action(name),
        ),
        buttons_ask(
            response::authorization_response(authorized),
            |name: Seq<char>| is_platform_action(name),
        ),
{
}

proof fn lemma_resolve_is_stable(
    owner: Seq<char>,
    platform: PluginType,
    queries: Seq<RouteQueryView>,
    replies: Seq<ReplyView>,
    more: Seq<ReplyView>,
    at: int,
)
    requires
        0 <= at <= replies.len(),
    ensures
        resolve_flow(owner, platform, queries, replies, at) !is Ask ==> resolve_flow(
            owner,
            platform,
            queries,
            replies + more,
            at,
        ) == resolve_flow(owner, platform, queries, replies, at),
    decreases queries.len(),
{
    if queries.len() > 0 && at < replies.len() {
        assert((replies + more)[at] == replies[at]);
        if replies[at] == ReplyView::Route(None) {
            lemma_resolve_is_stable(
                owner,
                platform,
                queries.drop_first(),
                replies,
                more,
                at + 1,
            );
        }
    }
}

proof fn lemma_session_is_stable(
    owner: Seq<char>,
    user: Seq<char>,
    platform: PluginType,
    chat_id: Seq<char>,
    conversation: Option<Seq<char>>,
    replies: Seq<ReplyView>,
    more: Seq<ReplyView>,
    at: int,
)
    requires
        0 <= at <= replies.len(),
    ensures
        session_flow(owner, user, platform, chat_id, conversation, replies, at) !is Ask
            ==> session_flow(owner, user, platform, chat_id, conversation, replies + more, at)
            == session_flow(owner, user, platform, chat_id, conversation, replies, at),
{
    if at < replies.len() {
        assert((replies + more)[at] == replies[at]);
        if at + 1 < replies.len() {
            assert((replies + more)[at + 1] == replies[at + 1]);
        }
    }
}

proof fn lemma_quoted_session_is_stable(
    owner: Seq<char>,
    user: Seq<char>,
    msg: UnifiedIncomingMessageView,
    message_id: Seq<char>,
    now_ms: i64,
    replies: Seq<ReplyView>,
    more: Seq<ReplyView>,
    at: int,
)
    requires
        0 <= at <= replies.len(),
    ensures
        quoted_session_flow(owner, user, msg, message_id, now_ms, replies, at) !is Ask
            ==> quoted_session_flow(owner, user, msg, message_id, now_ms, replies + more, at)
            == quoted_session_flow(owner, user, msg, message_id, now_ms, replies, at),
{
    let queries = message_queries(msg, message_id, now_ms);
    lemma_resolve_is_stable(owner, msg.platform, queries, replies, more, at);
    first_answer_wins(owner, msg.platform, queries, replies, at);
    if let ProgressView::Done { value: Some(conversation), used } = resolve_flow(
        owner,
        msg.platform,
        queries,
        replies,
        at,
    ) {
        lemma_session_is_stable(
            owner,
            user,
            msg.platform,
            msg.chat_id,
            Some(conversation),
            replies,
            more,
            used,
        );
    }
}

proof fn lemma_route_is_stable(
    owner: Seq<char>,
    user: Seq<char>,
    action: UnifiedActionView,
    now_ms: i64,
    replies: Seq<ReplyView>,
    more: Seq<ReplyView>,
    at: int,
)
    requires
        0 <= at <= replies.len(),
    ensures
        route_flow(owner, user, action, now_ms, replies, at) !is Ask ==> route_flow(
            owner,
            user,
            action,
            now_ms,
            replies + more,
            at,
        ) == route_flow(owner, user, action, now_ms, replies, at),
        route_flow(owner, user, action, now_ms, replies, at) matches ProgressView::Done { used, .. }
            ==> at <= used <= replies.len(),
{
    let context = action.context;
    if at < replies.len() {
        assert((replies + more)[at] == replies[at]);
    }
    lemma_session_is_stable(
        owner,
        user,
        context.platform,
        context.chat_id,
        None,
        replies,
        more,
        at,
    );
    if let Some(message_id) = context.message_id {
        let queries = context_queries(action, message_id, now_ms);
        lemma_resolve_is_stable(owner, context.platform, queries, replies, more, at);
        first_answer_wins(owner, context.platform, queries, replies, at);
        if let ProgressView::Done { value: Some(conversation), used } = resolve_flow(
            owner,
            context.platform,
            queries,
            replies,
            at,
        ) {
            lemma_session_is_stable(
                owner,
                user,
                context.platform,
                context.chat_id,
                Some(conversation),
                replies,
                more,
                used,
            );
        }
    }
}

/// What the replies so far have decided stays decided, whatever is replied after them.
pub proof fn decision_is_stable(
    executor_owner: Option<Seq<char>>,
    msg: UnifiedIncomingMessageView,
    now_ms: i64,
    replies: Seq<ReplyView>,
    more: Seq<ReplyView>,
)
    ensures
        incoming_flow(executor_owner, msg, now_ms, replies) !is Ask ==> incoming_flow(
            executor_owner,
            msg,
            now_ms,
            replies + more,
        ) == incoming_flow(executor_owner, msg, now_ms, replies),
{
    if let Some(owner) = owner_of(executor_owner, msg) {
        if replies.len() > 0 {
            assert((replies + more)[0] == replies[0]);
            if replies.len() > 1 {
                assert((replies + more)[1] == replies[1]);
            }
            if let ReplyView::User(Some(user)) = replies[0] {
                if let Some(action) = msg.action {
                    lemma_session_is_stable(
                        owner,
                        user,
                        action.context.platform,
                        msg.chat_id,
                        None,
                        replies,
                        more,
                        1,
                    );
                    lemma_route_is_stable(owner, user, action, now_ms, replies, more, 1);
                    if let Some(message_id) = action.context.message_id {
                        if let ProgressView::Done { used, .. } = route_flow(
                            owner,
                            user,
                            action,
                            now_ms,
                            replies,
                            1,
                        ) {
                            lemma_quoted_session_is_stable(
                                owner,
                                user,
                                msg,
                                message_id,
                                now_ms,
                                replies,
                                more,
                                used,
                            );
                        }
                    }
                } else {
                    lemma_session_is_stable(
                        owner,
                        user,
                        msg.platform,
                        msg.chat_id,
                        None,
                        replies,
                        more,
                        1,
                    );
                    if let Some(message_id) = msg.reply_to_message_id {
                        lemma_quoted_session_is_stable(
                            owner,
                            user,
                            msg,
                            message_id,
                            now_ms,
                            replies,
                            more,
                            1,
                        );
                    }
                }
            }
        }
    }
}

/// Whether `owner` is whose channel a message came through: the owner that the message names, or else
/// the executor's own.
pub open spec fn belongs_to(
    executor_owner: Option<Seq<char>>,
    msg: UnifiedIncomingMessageView,
    owner: Seq<char>,
) -> bool {
    ||| msg.owner_user_id == Some(owner)
    ||| msg.owner_user_id is None && executor_owner == Some(owner)
}

/// The sender is looked up first, by the id and on the platform that the message came with. A stranger
/// is given a pairing code, asked for in the stranger's own name, and the code is told as it is. Where
/// there is no owner to ask for, the message is refused.
pub proof fn stranger_is_told_a_code(
    executor_owner: Option<Seq<char>>,
    owner: Seq<char>,
    msg: UnifiedIncomingMessageView,
    code: Seq<char>,
    now_ms: i64,
)
    ensures
        msg.owner_user_id is None && executor_owner is None ==> incoming_flow(
            executor_owner,
            msg,
            now_ms,
            Seq::empty(),
        ) == ProgressView::<MessageResultView>::Failed(
            ChannelErrorView::InvalidConfig("channel owner user is required"@),
        ),
        belongs_to(executor_owner, msg, owner) ==> {
            let next = |replies: Seq<ReplyView>| incoming_flow(executor_owner, msg, now_ms, replies);
            &&& next(Seq::empty()) == ProgressView::<MessageResultView>::Ask(
                RequestView::LookupUser {
                    owner_user_id: owner,
                    platform_user_id: msg.user.id,
                    platform: msg.platform,
                },
            )
            &&& next(seq![ReplyView::User(None)]) == ProgressView::<MessageResultView>::Ask(
                RequestView::RequestPairing {
                    owner_user_id: owner,
                    platform_user_id: msg.user.id,
                    platform: msg.platform,
                    display_name: Some(msg.user.display_name),
                },
            )
            &&& next(seq![ReplyView::User(None), ReplyView::PairingCode(code)])
                matches ProgressView::Done { value: MessageResultView::Action(told), used } && {
                &&& used == 2
                &&& told.behavior == ActionBehavior::Send
                &&& told.text matches Some(text) && exists|at: int|
                    #[trigger] text::occurs_at(text, code, at)
            }
        },
{
    response::code_is_told(code);
}

/// The button for a new session has one created for the user in the chat that it was pressed in, with
/// the agent that is set up for its platform, and leads to that session, without a text to send.
pub proof fn button_creates_a_session(
    executor_owner: Option<Seq<char>>,
    owner: Seq<char>,
    msg: UnifiedIncomingMessageView,
    action: UnifiedActionView,
    user: Seq<char>,
    config: AgentConfigView,
    session: ChannelSessionView,
    now_ms: i64,
)
    requires
        belongs_to(executor_owner, msg, owner),
        msg.action == Some(action),
        action.category == ActionCategory::System,
        action.action == "session.new"@,
    ensures
        ({
            let known = ReplyView::User(Some(user));
            let set_up = ReplyView::AgentConfig(config);
            let next = |replies: Seq<ReplyView>| incoming_flow(executor_owner, msg, now_ms, replies);
            &&& next(seq![known]) == ProgressView::<MessageResultView>::Ask(
                RequestView::LoadAgentConfig {
                    owner_user_id: owner,
                    platform: action.context.platform,
                },
            )
            &&& next(seq![known, set_up]) == ProgressView::<MessageResultView>::Ask(
                RequestView::CreateSession {
                    owner_user_id: owner,
                    user_id: user,
                    chat_id: msg.chat_id,
                    agent_type: config.agent_type,
                },
            )
            &&& next(seq![known, set_up, ReplyView::Session(session)]) matches ProgressView::Done {
                value: MessageResultView::RoutedAction {
                    response,
                    session_id,
                    conversation_id,
                    follow_up_text,
                },
                ..
            } && {
                &&& session_id == session.id
                &&& conversation_id is None
                &&& follow_up_text is None
                &&& response.text is Some
                &&& response.behavior == ActionBehavior::Send
            }
        }),
{
}

/// The command for a new session does the same on the platform that it came from; what was written
/// behind the command is to be sent in the new session, and then nothing is said about the session
/// itself.
pub proof fn command_creates_a_session(
    executor_owner: Option<Seq<char>>,
    owner: Seq<char>,
    msg: UnifiedIncomingMessageView,
    follow_up: Option<Seq<char>>,
    user: Seq<char>,
    config: AgentConfigView,
    session: ChannelSessionView,
    now_ms: i64,
)
    requires
        belongs_to(executor_owner, msg, owner),
        msg.action is None,
        msg.content.content_type != MessageContentType::Action,
        command::session_command(msg.content.text) == Some(("session.new"@, follow_up)),
    ensures
        ({
            let known = ReplyView::User(Some(user));
            let set_up = ReplyView::AgentConfig(config);
            let next = |replies: Seq<ReplyView>| incoming_flow(executor_owner, msg, now_ms, replies);
            &&& next(seq![known]) == ProgressView::<MessageResultView>::Ask(
                RequestView::LoadAgentConfig { owner_user_id: owner, platform: msg.platform },
            )
            &&& next(seq![known, set_up]) == ProgressView::<MessageResultView>::Ask(
                RequestView::CreateSession {
                    owner_user_id: owner,
                    user_id: user,
                    chat_id: msg.chat_id,
                    agent_type: config.agent_type,
                },
            )
            &&& next(seq![known, set_up, ReplyView::Session(session)]) matches ProgressView::Done {
                value: MessageResultView::RoutedAction {
                    response,
                    session_id,
                    conversation_id,
                    follow_up_text,
                },
                ..
            } && {
                &&& session_id == session.id
                &&& conversation_id is None
                &&& follow_up_text == follow_up
                &&& response.text is None <==> follow_up is Some
            }
        }),
{
}

/// A text that quotes a message goes to the conversation that is found for the quote: the questions are
/// asked one after another for the sender's platform, and when one of them finds a conversation, the
/// conversation is activated for the user in this chat, with the agent set up for the platform, and
/// the text is dispatched to the session that this gives. Where none finds one, the user is told how
/// to go on.
pub proof fn quote_is_followed(
    executor_owner: Option<Seq<char>>,
    owner: Seq<char>,
    msg: UnifiedIncomingMessageView,
    message_id: Seq<char>,
    user: Seq<char>,
    missed: Seq<ReplyView>,
    conversation: Seq<char>,
    config: AgentConfigView,
    session: ChannelSessionView,
    now_ms: i64,
)
    requires
        belongs_to(executor_owner, msg, owner),
        msg.action is None,
        msg.content.content_type == MessageContentType::Action || command::session_command(
            msg.content.text,
        ) is None,
        msg.reply_to_message_id == Some(message_id),
        forall|i: int| 0 <= i < missed.len() ==> #[trigger] missed[i] == ReplyView::Route(None),
    ensures
        ({
            let queries = reply::route_queries(
                msg.platform,
                msg.chat_id,
                msg.user.id,
                message_id,
                reply::quoted_text(msg.raw),
                now_ms,
            );
            let next = |replies: Seq<ReplyView>| incoming_flow(executor_owner, msg, now_ms, replies);
            let asked = seq![ReplyView::User(Some(user))] + missed;
            let found = asked.push(ReplyView::Route(Some(conversation)));
            let set_up = found.push(ReplyView::AgentConfig(config));
            &&& missed.len() < queries.len() ==> {
                &&& next(asked) == ProgressView::<MessageResultView>::Ask(
                    RequestView::ResolveRoute {
                        owner_user_id: owner,
                        platform: msg.platform,
                        query: queries[missed.len() as int],
                    },
                )
                &&& next(found) == ProgressView::<MessageResultView>::Ask(
                    RequestView::LoadAgentConfig { owner_user_id: owner, platform: msg.platform },
                )
                &&& next(set_up) == ProgressView::<MessageResultView>::Ask(
                    RequestView::ActivateConversation {
                        owner_user_id: owner,
                        user_id: user,
                        chat_id: msg.chat_id,
                        agent_type: config.agent_type,
                        conversation_id: conversation,
                    },
                )
                &&& next(set_up.push(ReplyView::Session(session))) matches ProgressView::Done {
                    value: MessageResultView::Dispatched {
                        owner_user_id,
                        session_id,
                        conversation_id,
                    },
                    ..
                } && {
                    &&& owner_user_id == owner
                    &&& session_id == session.id
                    &&& conversation_id == Some(conversation)
                }
            }
            &&& missed.len() == queries.len() ==> (next(asked) matches ProgressView::Done {
                value: MessageResultView::Action(told),
                ..
            } && told == response::unbound_session_response())
        }),
{
    let queries = message_queries(msg, message_id, now_ms);
    let asked = seq![ReplyView::User(Some(user))] + missed;
    let found = asked.push(ReplyView::Route(Some(conversation)));
    let set_up = found.push(ReplyView::AgentConfig(config));
    let all = set_up.push(ReplyView::Session(session));
    assert forall|i: int| 1 <= i < asked.len() implies #[trigger] asked[i] == ReplyView::Route(None) by {
        assert(asked[i] == missed[i - 1]);
    }
    if missed.len() <= queries.len() {
        lemma_missed_questions(owner, msg.platform, queries, asked, 1, missed.len() as int);
    }
    if missed.len() < queries.len() {
        lemma_missed_questions(owner, msg.platform, queries, found, 1, missed.len() as int);
        lemma_missed_questions(owner, msg.platform, queries, set_up, 1, missed.len() as int);
        lemma_missed_questions(owner, msg.platform, queries, all, 1, missed.len() as int);
    }
    assert(asked[0] == ReplyView::User(Some(user)));
    assert(found[0] == asked[0] && set_up[0] == asked[0] && all[0] == asked[0]);
}

proof fn lemma_missed_questions(
    owner: Seq<char>,
    platform: PluginType,
    queries: Seq<RouteQueryView>,
    replies: Seq<ReplyView>,
    at: int,
    missed: int,
)
    requires
        0 <= at,
        0 <= missed <= queries.len(),
        at + missed <= replies.len(),
        forall|i: int| at <= i < at + missed ==> #[trigger] replies[i] == ReplyView::Route(None),
    ensures
        resolve_flow(owner, platform, queries, replies, at) == resolve_flow(
            owner,
            platform,
            queries.skip(missed),
            replies,
            at + missed,
        ),
        missed < queries.len() ==> queries.skip(missed)[0] == queries[missed],
    decreases missed,
{
    if missed > 0 {
        assert(replies[at] == ReplyView::Route(None));
        lemma_missed_questions(owner, platform, queries.drop_first(), replies, at + 1, missed - 1);
        assert(queries.drop_first().skip(missed - 1) =~= queries.skip(missed));
    } else {
        assert(queries.skip(0) =~= queries);
    }
}

/// What the buttons about pairing lead to: a code for the one who pressed, in the chat's platform; the
/// state of the authorization as the store tells it; or the way to be paired.
pub proof fn pairing_buttons_are_answered(
    executor_owner: Option<Seq<char>>,
    owner: Seq<char>,
    msg: UnifiedIncomingMessageView,
    action: UnifiedActionView,
    user: Seq<char>,
    code: Seq<char>,
    authorized: bool,
    now_ms: i64,
)
    requires
        belongs_to(executor_owner, msg, owner),
        msg.action == Some(action),
        action.category == ActionCategory::Platform,
        action.context.message_id is None,
    ensures
        ({
            let known = ReplyView::User(Some(user));
            let context = action.context;
            let next = |replies: Seq<ReplyView>| incoming_flow(executor_owner, msg, now_ms, replies);
            let answered = |replies: Seq<ReplyView>, told: ActionResponseView|
                (next(replies) matches ProgressView::Done { value, used } && value
                    == MessageResultView::Action(told) && used == replies.len());
            &&& action.action == "pairing.show"@ || action.action == "pairing.refresh"@ ==> {
                &&& next(seq![known]) == ProgressView::<MessageResultView>::Ask(
                    RequestView::RequestPairing {
                        owner_user_id: owner,
                        platform_user_id: context.user_id,
                        platform: context.platform,
                        display_name: None,
                    },
                )
                &&& answered(
                    seq![known, ReplyView::PairingCode(code)],
                    response::pairing_response(code),
                )
            }
            &&& action.action == "pairing.check"@ ==> {
                &&& next(seq![known]) == ProgressView::<MessageResultView>::Ask(
                    RequestView::CheckAuthorized {
                        owner_user_id: owner,
                        platform_user_id: context.user_id,
                        platform: context.platform,
                    },
                )
                &&& answered(
                    seq![known, ReplyView::Authorized(authorized)],
                    response::authorization_response(authorized),
                )
            }
            &&& action.action == "pairing.help"@ ==> answered(
                seq![known],
                response::pairing_help_response(),
            )
        }),
{
    lemma_pairing_names();
}

proof fn lemma_pairing_names()
    ensures
        "pairing.show"@ != "pairing.check"@,
        "pairing.show"@ != "pairing.help"@,
        "pairing.refresh"@ != "pairing.check"@,
        "pairing.refresh"@ != "pairing.help"@,
        "pairing.check"@ != "pairing.help"@,
{
    reveal_strlit("pairing.show");
    reveal_strlit("pairing.refresh");
    reveal_strlit("pairing.check");
    reveal_strlit("pairing.help");
    assert("pairing.show"@[8] == 's');
    assert("pairing.refresh"@[8] == 'r');
    assert("pairing.check"@[8] == 'c');
    assert("pairing.help"@[8] == 'h');
}

/// The state of a session is shown where the button stands under a message of a known conversation: of
/// the session that is activated for that conversation. Elsewhere the user is told how to go on.
pub proof fn session_state_is_shown(
    executor_owner: Option<Seq<char>>,
    owner: Seq<char>,
    msg: UnifiedIncomingMessageView,
    action: UnifiedActionView,
    user: Seq<char>,
    conversation: Seq<char>,
    config: AgentConfigView,
    session: ChannelSessionView,
    now_ms: i64,
)
    requires
        belongs_to(executor_owner, msg, owner),
        msg.action == Some(action),
        action.category == ActionCategory::System,
        action.action == "session.status"@,
    ensures
        ({
            let known = ReplyView::User(Some(user));
            let found = ReplyView::Route(Some(conversation));
            let set_up = ReplyView::AgentConfig(config);
            let context = action.context;
            let next = |replies: Seq<ReplyView>| incoming_flow(executor_owner, msg, now_ms, replies);
            &&& context.message_id is None ==> (next(seq![known]) matches ProgressView::Done {
                value,
                ..
            } && value == MessageResultView::Action(response::unbound_session_response()))
            &&& context.message_id matches Some(message_id) ==> {
                &&& next(seq![known]) == ProgressView::<MessageResultView>::Ask(
                    RequestView::ResolveRoute {
                        owner_user_id: owner,
                        platform: context.platform,
                        query: RouteQueryView::Message { chat_id: context.chat_id, message_id },
                    },
                )
                &&& next(seq![known, found]) == ProgressView::<MessageResultView>::Ask(
                    RequestView::LoadAgentConfig {
                        owner_user_id: owner,
                        platform: context.platform,
                    },
                )
                &&& next(seq![known, found, set_up]) == ProgressView::<MessageResultView>::Ask(
                    RequestView::ActivateConversation {
                        owner_user_id: owner,
                        user_id: user,
                        chat_id: context.chat_id,
                        agent_type: config.agent_type,
                        conversation_id: conversation,
                    },
                )
                &&& system_flow(
                    owner,
                    user,
                    action,
                    now_ms,
                    seq![known, found, set_up, ReplyView::Session(session)],
                    1,
                ) == (ProgressView::Done {
                    value: response::session_status_response(config.backend, session),
                    used: 4,
                })
            }
        }),
{
    reveal_strlit("session.new");
    reveal_strlit("session.status");
    assert("session.new"@.len() != "session.status"@.len());
    if let Some(message_id) = action.context.message_id {
        reply::quoted_message_is_asked_for(
            action.context.platform,
            action.context.chat_id,
            action.context.user_id,
            message_id,
            None,
            now_ms,
        );
        let queries = context_queries(action, message_id, now_ms);
        let known = ReplyView::User(Some(user));
        let found = ReplyView::Route(Some(conversation));
        let set_up = ReplyView::AgentConfig(config);
        let replies = seq![known, found, set_up, ReplyView::Session(session)];
        assert(replies[1] == found && replies[2] == set_up && replies[3] == ReplyView::Session(session));
        assert(resolve_flow(owner, action.context.platform, queries, replies, 1)
            == (ProgressView::Done { value: Some(conversation), used: 2 }));
    }
}

/// The pages and the buttons of a chat need nobody to be asked: where the button stands under no
/// message, they are answered at once, by the response of their name.
pub proof fn pages_are_shown_at_once(
    executor_owner: Option<Seq<char>>,
    owner: Seq<char>,
    msg: UnifiedIncomingMessageView,
    action: UnifiedActionView,
    user: Seq<char>,
    now_ms: i64,
)
    requires
        belongs_to(executor_owner, msg, owner),
        msg.action == Some(action),
        action.context.message_id is None,
    ensures
        ({
            let told = |response: ActionResponseView|
                (incoming_flow(executor_owner, msg, now_ms, seq![ReplyView::User(Some(user))])
                    matches ProgressView::Done { value, used } && value == MessageResultView::Action(
                    response,
                ) && used == 1);
            &&& action.category == ActionCategory::Chat ==> told(response::chat_response(action.action))
            &&& action.category == ActionCategory::System && action.action == "help.show"@ ==> told(
                response::help_response(),
            )
            &&& action.category == ActionCategory::System && action.action != "session.new"@
                && action.action != "session.status"@ && action.action != "help.show"@ ==> (
            response::page_text(action.action) matches Some(page) ==> told(response::sent(page, None)))
        }),
{
    reveal_strlit("session.new");
    reveal_strlit("session.status");
    reveal_strlit("help.show");
    assert("session.new"@[0] != "help.show"@[0]);
    assert("session.status"@[0] != "help.show"@[0]);
}

/// The command for help is answered by the help, and by nothing else.
pub proof fn help_is_shown(
    executor_owner: Option<Seq<char>>,
    owner: Seq<char>,
    msg: UnifiedIncomingMessageView,
    user: Seq<char>,
    now_ms: i64,
)
    requires
        belongs_to(executor_owner, msg, owner),
        msg.action is None,
        msg.content.content_type != MessageContentType::Action,
        command::session_command(msg.content.text) == Some(("help.show"@, None::<Seq<char>>)),
    ensures
        incoming_flow(executor_owner, msg, now_ms, seq![ReplyView::User(Some(user))]) == (
        ProgressView::Done {
            value: MessageResultView::Action(response::help_response()),
            used: 1,
        }),
{
    reveal_strlit("session.new");
    reveal_strlit("help.show");
    assert("session.new"@[0] != "help.show"@[0]);
}

/// The response to a button under a message becomes part of the conversation of that message: once the
/// response is known, the message is asked for in the chat that the button was pressed in, the
/// conversation found is activated there, and the response is routed to it. Where no conversation is
/// found, the response is given alone.
pub proof fn button_under_a_message_belongs_to_its_conversation(
    executor_owner: Option<Seq<char>>,
    owner: Seq<char>,
    msg: UnifiedIncomingMessageView,
    action: UnifiedActionView,
    message_id: Seq<char>,
    user: Seq<char>,
    asked: Seq<ReplyView>,
    told: ActionResponseView,
    missed: Seq<ReplyView>,
    conversation: Seq<char>,
    config: AgentConfigView,
    session: ChannelSessionView,
    now_ms: i64,
)
    requires
        belongs_to(executor_owner, msg, owner),
        msg.action == Some(action),
        !(action.category == ActionCategory::System && action.action == "session.new"@),
        action.context.message_id == Some(message_id),
        asked.len() > 0,
        asked[0] == ReplyView::User(Some(user)),
        route_flow(owner, user, action, now_ms, asked, 1) == (ProgressView::Done {
            value: told,
            used: asked.len() as int,
        }),
        forall|i: int| 0 <= i < missed.len() ==> #[trigger] missed[i] == ReplyView::Route(None),
    ensures
        ({
            let queries = reply::route_queries(
                msg.platform,
                msg.chat_id,
                msg.user.id,
                message_id,
                reply::quoted_text(msg.raw),
                now_ms,
            );
            let next = |replies: Seq<ReplyView>| incoming_flow(executor_owner, msg, now_ms, replies);
            let searched = asked + missed;
            let found = searched.push(ReplyView::Route(Some(conversation)));
            let set_up = found.push(ReplyView::AgentConfig(config));
            &&& missed.len() < queries.len() ==> {
                &&& next(searched) == ProgressView::<MessageResultView>::Ask(
                    RequestView::ResolveRoute {
                        owner_user_id: owner,
                        platform: msg.platform,
                        query: queries[missed.len() as int],
                    },
                )
                &&& next(found) == ProgressView::<MessageResultView>::Ask(
                    RequestView::LoadAgentConfig { owner_user_id: owner, platform: msg.platform },
                )
                &&& next(set_up) == ProgressView::<MessageResultView>::Ask(
                    RequestView::ActivateConversation {
                        owner_user_id: owner,
                        user_id: user,
                        chat_id: msg.chat_id,
                        agent_type: config.agent_type,
                        conversation_id: conversation,
                    },
                )
                &&& next(set_up.push(ReplyView::Session(session))) matches ProgressView::Done {
                    value,
                    ..
                } && value == (MessageResultView::RoutedAction {
                    response: told,
                    session_id: session.id,
                    conversation_id: Some(conversation),
                    follow_up_text: None,
                })
            }
            &&& missed.len() == queries.len() ==> (next(searched) matches ProgressView::Done {
                value,
                ..
            } && value == MessageResultView::Action(told))
        }),
{
    let queries = message_queries(msg, message_id, now_ms);
    let n = asked.len() as int;
    let k = missed.len() as int;
    let searched = asked + missed;
    let found = searched.push(ReplyView::Route(Some(conversation)));
    let set_up = found.push(ReplyView::AgentConfig(config));
    let all = set_up.push(ReplyView::Session(session));
    assert forall|i: int| n <= i < searched.len() implies #[trigger] searched[i] == ReplyView::Route(
        None,
    ) by {
        assert(searched[i] == missed[i - n]);
    }
    lemma_route_is_stable(owner, user, action, now_ms, asked, missed, 1);
    lemma_route_is_stable(owner, user, action, now_ms, asked, found.skip(n), 1);
    lemma_route_is_stable(owner, user, action, now_ms, asked, set_up.skip(n), 1);
    lemma_route_is_stable(owner, user, action, now_ms, asked, all.skip(n), 1);
    assert(asked + found.skip(n) =~= found);
    assert(asked + set_up.skip(n) =~= set_up);
    assert(asked + all.skip(n) =~= all);
    if k <= queries.len() {
        lemma_missed_questions(owner, msg.platform, queries, searched, n, k);
    }
    if k < queries.len() {
        lemma_missed_questions(owner, msg.platform, queries, found, n, k);
        lemma_missed_questions(owner, msg.platform, queries, set_up, n, k);
        lemma_missed_questions(owner, msg.platform, queries, all, n, k);
    }
    assert(searched[0] == asked[0] && found[0] == asked[0] && set_up[0] == asked[0] && all[0]
        == asked[0]);
}

/// The menu's own button for a new session creates one in the chat of the menu and tells of it.
pub proof fn menu_creates_a_session(
    owner: Seq<char>,
    user: Seq<char>,
    action: UnifiedActionView,
    config: AgentConfigView,
    session: ChannelSessionView,
    now_ms: i64,
)
    requires
        action.action == "session.new"@,
    ensures
        ({
            let set_up = ReplyView::AgentConfig(config);
            let next = |replies: Seq<ReplyView>| system_flow(owner, user, action, now_ms, replies, 0);
            &&& next(Seq::empty()) == ProgressView::<ActionResponseView>::Ask(
                RequestView::LoadAgentConfig {
                    owner_user_id: owner,
                    platform: action.context.platform,
                },
            )
            &&& next(seq![set_up]) == ProgressView::<ActionResponseView>::Ask(
                RequestView::CreateSession {
                    owner_user_id: owner,
                    user_id: user,
                    chat_id: action.context.chat_id,
                    agent_type: config.agent_type,
                },
            )
            &&& next(seq![set_up, ReplyView::Session(session)]) == (ProgressView::Done {
                value: response::session_created_response(config.backend, session),
                used: 2,
            })
        }),
{
}

proof fn lemma_resolve_fails(
    owner: Seq<char>,
    platform: PluginType,
    queries: Seq<RouteQueryView>,
    replies: Seq<ReplyView>,
    error: ChannelErrorView,
    at: int,
)
    requires
        0 <= at <= replies.len(),
    ensures
        resolve_flow(owner, platform, queries, replies, at) is Ask ==> resolve_flow(
            owner,
            platform,
            queries,
            replies.push(ReplyView::Failed(error)),
            at,
        ) == ProgressView::<Option<Seq<char>>>::Failed(error),
    decreases queries.len(),
{
    if queries.len() > 0 && at < replies.len() {
        assert(replies.push(ReplyView::Failed(error))[at] == replies[at]);
        if replies[at] == ReplyView::Route(None) {
            lemma_resolve_fails(owner, platform, queries.drop_first(), replies, error, at + 1);
        }
    }
}

/// A service that fails ends the handling of a text with its error, wherever it was asked.
pub proof fn failure_is_passed_on(
    executor_owner: Option<Seq<char>>,
    msg: UnifiedIncomingMessageView,
    now_ms: i64,
    replies: Seq<ReplyView>,
    error: ChannelErrorView,
)
    requires
        msg.action is None,
        incoming_flow(executor_owner, msg, now_ms, replies) is Ask,
    ensures
        incoming_flow(executor_owner, msg, now_ms, replies.push(ReplyView::Failed(error)))
            == ProgressView::<MessageResultView>::Failed(error),
{
    let more = replies.push(ReplyView::Failed(error));
    assert(forall|i: int| 0 <= i < replies.len() ==> more[i] == replies[i]);
    assert(more =~= replies + seq![ReplyView::Failed(error)]);
    if let Some(owner) = owner_of(executor_owner, msg) {
        if let Some(message_id) = msg.reply_to_message_id {
            if replies.len() > 0 {
                let queries = message_queries(msg, message_id, now_ms);
                lemma_resolve_fails(owner, msg.platform, queries, replies, error, 1);
                lemma_resolve_is_stable(
                    owner,
                    msg.platform,
                    queries,
                    replies,
                    seq![ReplyView::Failed(error)],
                    1,
                );
                first_answer_wins(owner, msg.platform, queries, replies, 1);
            }
        }
    }
}

/// The session under a button is searched for by the message that the button stands under, with every
/// question about it, in the chat and for the user of the button; where none finds a conversation, the
/// user is told how to go on.
pub proof fn session_under_a_button_is_searched_for(
    owner: Seq<char>,
    user: Seq<char>,
    action: UnifiedActionView,
    message_id: Seq<char>,
    missed: Seq<ReplyView>,
    now_ms: i64,
)
    requires
        action.action == "session.status"@,
        action.context.message_id == Some(message_id),
        forall|i: int| 0 <= i < missed.len() ==> #[trigger] missed[i] == ReplyView::Route(None),
    ensures
        ({
            let queries = reply::route_queries(
                action.context.platform,
                action.context.chat_id,
                action.context.user_id,
                message_id,
                None,
                now_ms,
            );
            let next = system_flow(owner, user, action, now_ms, missed, 0);
            &&& missed.len() < queries.len() ==> next == ProgressView::<ActionResponseView>::Ask(
                RequestView::ResolveRoute {
                    owner_user_id: owner,
                    platform: action.context.platform,
                    query: queries[missed.len() as int],
                },
            )
            &&& missed.len() == queries.len() ==> next == (ProgressView::Done {
                value: response::unbound_session_response(),
                used: missed.len() as int,
            })
        }),
{
    reveal_strlit("session.new");
    reveal_strlit("session.status");
    assert("session.new"@.len() != "session.status"@.len());
    let queries = context_queries(action, message_id, now_ms);
    if missed.len() <= queries.len() {
        lemma_missed_questions(
            owner,
            action.context.platform,
            queries,
            missed,
            0,
            missed.len() as int,
        );
    }
}

} // verus!
