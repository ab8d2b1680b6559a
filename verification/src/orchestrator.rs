//! What becomes of an incoming message once it is known what it leads to.
//!
//! As in [`crate::action`], the decisions are a function of the message and of the replies that the
//! services around the library have given so far.

use vstd::prelude::*;
use vstd::string::*;

use crate::action;
use crate::action::{MessageResult, MessageResultView};
use crate::mirror::{ChannelMirrorTargetRef, ChannelMirrorTargetRefView};
use crate::repository::{ConversationRoute, ConversationRouteView};
use crate::stream_relay;
use crate::stream_relay::{
    throttle_ms_for_platform, ChannelDeliveryReceipt, ChannelDeliveryReceiptView, RelayConfig, RelayConfigView,
};
use crate::types;
use crate::types::{
    copy_buttons, text_message, ActionBehavior, ActionResponse, ActionResponseView, ChannelError,
    ChannelErrorView, ChannelSession, ChannelSessionView, OutgoingMessageType, PluginType,
    UnifiedIncomingMessage, UnifiedIncomingMessageView, UnifiedOutgoingMessage, UnifiedOutgoingMessageView,
};

verus! {

// ── Requests and replies ────────────────────────────────────────────

/// What handling a message asks of the services around it.
#[derive(Debug, PartialEq, Eq)]
pub enum Task {
    /// A text as a platform wants it.
    Format {
        text: String,
        platform: PluginType,
    },
    /// A message to be sent.
    Send {
        owner_user_id: String,
        plugin_id: String,
        chat_id: String,
        message: UnifiedOutgoingMessage,
    },
    /// A message to be put in place of another.
    Edit {
        owner_user_id: String,
        plugin_id: String,
        chat_id: String,
        message_id: String,
        message: UnifiedOutgoingMessage,
    },
    /// A session.
    LoadSession {
        owner_user_id: String,
        session_id: String,
    },
    /// The conversation of a session, created where it has none.
    EnsureConversation {
        owner_user_id: String,
        session_id: String,
        platform: PluginType,
    },
    /// A session to be bound to a conversation.
    BindConversation {
        owner_user_id: String,
        session_id: String,
        conversation_id: String,
    },
    /// A message to be recorded as a target for replies to a conversation.
    RecordRoute {
        owner_user_id: String,
        route: ConversationRoute,
    },
    /// A message to be recorded as a target for replies to a session.
    RecordReplyRoute {
        owner_user_id: String,
        session_id: String,
        platform_type: String,
        chat_id: String,
        message_id: String,
    },
    /// The lock of that name, held until the message is handled.
    Lock {
        key: String,
    },
    /// A turn to be marked as one that came from a channel.
    MarkTurn {
        owner_user_id: String,
        conversation_id: String,
        text: String,
        target: ChannelMirrorTargetRef,
    },
    /// A text for the agent.
    SendToAgent {
        owner_user_id: String,
        session_id: String,
        text: String,
        platform: PluginType,
    },
    /// The agent's stream to be relayed.
    Relay {
        config: RelayConfig,
    },
}

/// The mathematical value of a [`Task`].
#[verifier::ext_equal]
pub enum TaskView {
    Format {
        text: Seq<char>,
        platform: PluginType,
    },
    Send {
        owner_user_id: Seq<char>,
        plugin_id: Seq<char>,
        chat_id: Seq<char>,
        message: UnifiedOutgoingMessageView,
    },
    Edit {
        owner_user_id: Seq<char>,
        plugin_id: Seq<char>,
        chat_id: Seq<char>,
        message_id: Seq<char>,
        message: UnifiedOutgoingMessageView,
    },
    LoadSession {
        owner_user_id: Seq<char>,
        session_id: Seq<char>,
    },
    EnsureConversation {
        owner_user_id: Seq<char>,
        session_id: Seq<char>,
        platform: PluginType,
    },
    BindConversation {
        owner_user_id: Seq<char>,
        session_id: Seq<char>,
        conversation_id: Seq<char>,
    },
    RecordRoute {
        owner_user_id: Seq<char>,
        route: ConversationRouteView,
    },
    RecordReplyRoute {
        owner_user_id: Seq<char>,
        session_id: Seq<char>,
        platform_type: Seq<char>,
        chat_id: Seq<char>,
        message_id: Seq<char>,
    },
    Lock {
        key: Seq<char>,
    },
    MarkTurn {
        owner_user_id: Seq<char>,
        conversation_id: Seq<char>,
        text: Seq<char>,
        target: ChannelMirrorTargetRefView,
    },
    SendToAgent {
        owner_user_id: Seq<char>,
        session_id: Seq<char>,
        text: Seq<char>,
        platform: PluginType,
    },
    Relay {
        config: RelayConfigView,
    },
}

impl DeepView for Task {
    type V = TaskView;

    open spec fn deep_view(&self) -> TaskView {
        match self {
            Task::Format { text, platform } => TaskView::Format {
                text: text@,
                platform: *platform,
            },
            Task::Send { owner_user_id, plugin_id, chat_id, message } => TaskView::Send {
                owner_user_id: owner_user_id@,
                plugin_id: plugin_id@,
                chat_id: chat_id@,
                message: message.deep_view(),
            },
            Task::Edit { owner_user_id, plugin_id, chat_id, message_id, message } => TaskView::Edit {
                owner_user_id: owner_user_id@,
                plugin_id: plugin_id@,
                chat_id: chat_id@,
                message_id: message_id@,
                message: message.deep_view(),
            },
            Task::LoadSession { owner_user_id, session_id } => TaskView::LoadSession {
                owner_user_id: owner_user_id@,
                session_id: session_id@,
            },
            Task::EnsureConversation { owner_user_id, session_id, platform } => TaskView::EnsureConversation {
                owner_user_id: owner_user_id@,
                session_id: session_id@,
                platform: *platform,
            },
            Task::BindConversation { owner_user_id, session_id, conversation_id } => TaskView::BindConversation {
                owner_user_id: owner_user_id@,
                session_id: session_id@,
                conversation_id: conversation_id@,
            },
            Task::RecordRoute { owner_user_id, route } => TaskView::RecordRoute {
                owner_user_id: owner_user_id@,
                route: route.deep_view(),
            },
            Task::RecordReplyRoute { owner_user_id, session_id, platform_type, chat_id, message_id } => TaskView::RecordReplyRoute {
                owner_user_id: owner_user_id@,
                session_id: session_id@,
                platform_type: platform_type@,
                chat_id: chat_id@,
                message_id: message_id@,
            },
            Task::Lock { key } => TaskView::Lock {
                key: key@,
            },
            Task::MarkTurn { owner_user_id, conversation_id, text, target } => TaskView::MarkTurn {
                owner_user_id: owner_user_id@,
                conversation_id: conversation_id@,
                text: text@,
                target: target.deep_view(),
            },
            Task::SendToAgent { owner_user_id, session_id, text, platform } => TaskView::SendToAgent {
                owner_user_id: owner_user_id@,
                session_id: session_id@,
                text: text@,
                platform: *platform,
            },
            Task::Relay { config } => TaskView::Relay {
                config: config.deep_view(),
            },
        }
    }
}

/// What a service answers to a [`Task`].
#[derive(Debug, PartialEq, Eq)]
pub enum Outcome {
    /// To `Format`.
    Formatted(String),
    /// To `Send`; nothing where the message could not be sent.
    Delivered(Option<ChannelDeliveryReceipt>),
    /// To `Edit`: when it began and when it was done; nothing where it failed.
    Edited(Option<(i64, i64)>),
    /// To `LoadSession`; nothing where there is none or it cannot be loaded.
    Session(Option<ChannelSession>),
    /// To `EnsureConversation`; nothing where it failed.
    Conversation(Option<String>),
    /// To `BindConversation`: whether it was done.
    Bound(bool),
    /// To `RecordRoute` and `RecordReplyRoute`, whether it was done or not.
    Recorded,
    /// To `Lock`.
    Locked,
    /// To `MarkTurn`.
    Marked,
    /// To `SendToAgent`: where the text went, and whether there is a stream to relay.
    Accepted {
        conversation_id: String,
        has_stream: bool,
    },
    /// To `SendToAgent`: why it failed.
    Refused(String),
    /// To `Relay`.
    Relayed,
}

/// The mathematical value of an [`Outcome`].
#[verifier::ext_equal]
pub enum OutcomeView {
    Formatted(Seq<char>),
    Delivered(Option<ChannelDeliveryReceiptView>),
    Edited(Option<(i64, i64)>),
    Session(Option<ChannelSessionView>),
    Conversation(Option<Seq<char>>),
    Bound(bool),
    Recorded,
    Locked,
    Marked,
    Accepted {
        conversation_id: Seq<char>,
        has_stream: bool,
    },
    Refused(Seq<char>),
    Relayed,
}

impl DeepView for Outcome {
    type V = OutcomeView;

    open spec fn deep_view(&self) -> OutcomeView {
        match self {
            Outcome::Formatted(value) => OutcomeView::Formatted(value@),
            Outcome::Delivered(value) => OutcomeView::Delivered(value.deep_view()),
            Outcome::Edited(value) => OutcomeView::Edited(value.deep_view()),
            Outcome::Session(value) => OutcomeView::Session(value.deep_view()),
            Outcome::Conversation(value) => OutcomeView::Conversation(value.deep_view()),
            Outcome::Bound(value) => OutcomeView::Bound(*value),
            Outcome::Recorded => OutcomeView::Recorded,
            Outcome::Locked => OutcomeView::Locked,
            Outcome::Marked => OutcomeView::Marked,
            Outcome::Accepted { conversation_id, has_stream } => OutcomeView::Accepted {
                conversation_id: conversation_id@,
                has_stream: *has_stream,
            },
            Outcome::Refused(value) => OutcomeView::Refused(value@),
            Outcome::Relayed => OutcomeView::Relayed,
        }
    }
}

/// How far handling a message has come with the outcomes given so far.
#[derive(Debug, PartialEq, Eq)]
pub enum Handling<T> {
    /// This is to be done next.
    Do(Task),
    /// It has come to its end, `used` outcomes into those given.
    Done { value: T, used: usize },
    /// An outcome does not answer the task at its place.
    Unexpected,
}

/// The mathematical value of a [`Handling`].
#[verifier::ext_equal]
pub enum HandlingView<V> {
    Do(TaskView),
    Done { value: V, used: int },
    Unexpected,
}

impl<T: DeepView> DeepView for Handling<T> {
    type V = HandlingView<T::V>;

    open spec fn deep_view(&self) -> HandlingView<T::V> {
        match self {
            Handling::Do(task) => HandlingView::Do(task.deep_view()),
            Handling::Done { value, used } => HandlingView::Done {
                value: value.deep_view(),
                used: *used as int,
            },
            Handling::Unexpected => HandlingView::Unexpected,
        }
    }
}

/// Handling that has not come to its end, as part of a longer one.
pub open spec fn pending<A, B>(handling: HandlingView<A>) -> HandlingView<B> {
    match handling {
        HandlingView::Do(task) => HandlingView::Do(task),
        _ => HandlingView::Unexpected,
    }
}

/// Handling that is over.
pub open spec fn over(used: int) -> HandlingView<()> {
    HandlingView::Done { value: (), used }
}

fn finished(used: usize) -> (r: Handling<()>)
    ensures
        r.deep_view() == over(used as int),
{
    Handling::Done { value: (), used }
}

// ── Responses ───────────────────────────────────────────────────────

/// The message that carries a response, with its text formatted for the platform.
pub open spec fn outgoing(
    response: ActionResponseView,
    formatted: Seq<char>,
    known: bool,
) -> UnifiedOutgoingMessageView {
    UnifiedOutgoingMessageView {
        parse_mode: if known {
            response.parse_mode
        } else {
            None
        },
        buttons: response.buttons,
        keyboard: response.keyboard,
        ..types::text_message_view(formatted)
    }
}

/// Sends a message that carries a response, or puts it in place of another one.
pub open spec fn deliver_flow(
    owner: Seq<char>,
    plugin_id: Seq<char>,
    chat_id: Seq<char>,
    response: ActionResponseView,
    message: UnifiedOutgoingMessageView,
    outcomes: Seq<OutcomeView>,
    at: int,
) -> HandlingView<Option<ChannelDeliveryReceiptView>> {
    if response.behavior == ActionBehavior::Edit {
        match response.edit_message_id {
            None => HandlingView::Done { value: None, used: at },
            Some(message_id) => if at >= outcomes.len() {
                HandlingView::Do(
                    TaskView::Edit {
                        owner_user_id: owner,
                        plugin_id,
                        chat_id,
                        message_id,
                        message,
                    },
                )
            } else {
                match outcomes[at] {
                    OutcomeView::Edited(None) => HandlingView::Done { value: None, used: at + 1 },
                    OutcomeView::Edited(Some((started_at, completed_at))) => HandlingView::Done {
                        value: Some(
                            ChannelDeliveryReceiptView { message_id, started_at, completed_at },
                        ),
                        used: at + 1,
                    },
                    _ => HandlingView::Unexpected,
                }
            },
        }
    } else if at >= outcomes.len() {
        HandlingView::Do(TaskView::Send { owner_user_id: owner, plugin_id, chat_id, message })
    } else {
        match outcomes[at] {
            OutcomeView::Delivered(delivered) => HandlingView::Done { value: delivered, used: at + 1 },
            _ => HandlingView::Unexpected,
        }
    }
}

/// Gives a response, if it has a text, and comes back with the receipt.
pub open spec fn respond_flow(
    owner: Seq<char>,
    plugin_id: Seq<char>,
    chat_id: Seq<char>,
    response: ActionResponseView,
    outcomes: Seq<OutcomeView>,
    at: int,
) -> HandlingView<Option<ChannelDeliveryReceiptView>> {
    match response.text {
        None => HandlingView::Done { value: None, used: at },
        Some(text) => match types::platform_of(plugin_id) {
            None => deliver_flow(
                owner,
                plugin_id,
                chat_id,
                response,
                outgoing(response, text, false),
                outcomes,
                at,
            ),
            Some(platform) => if at >= outcomes.len() {
                HandlingView::Do(TaskView::Format { text, platform })
            } else {
                match outcomes[at] {
                    OutcomeView::Formatted(formatted) => deliver_flow(
                        owner,
                        plugin_id,
                        chat_id,
                        response,
                        outgoing(response, formatted, true),
                        outcomes,
                        at + 1,
                    ),
                    _ => HandlingView::Unexpected,
                }
            },
        },
    }
}

/// The route of a delivered message.
pub open spec fn delivered_route(
    conversation: Seq<char>,
    platform: PluginType,
    chat_id: Seq<char>,
    preview: Option<Seq<char>>,
    receipt: ChannelDeliveryReceiptView,
) -> ConversationRouteView {
    ConversationRouteView {
        conversation_id: conversation,
        platform_type: platform.name(),
        chat_id,
        message_id: receipt.message_id,
        preview_text: preview,
        sent_at: receipt.completed_at,
        delivery_started_at: Some(receipt.started_at),
        delivery_completed_at: Some(receipt.completed_at),
    }
}

/// Does `task` and goes on, whatever came of it.
pub open spec fn closing(task: TaskView, outcomes: Seq<OutcomeView>, at: int) -> HandlingView<()> {
    if at >= outcomes.len() {
        HandlingView::Do(task)
    } else if outcomes[at] is Recorded {
        over(at + 1)
    } else {
        HandlingView::Unexpected
    }
}

// ── Dispatching ─────────────────────────────────────────────────────

/// Where a text for the agent comes from and goes to.
#[verifier::ext_equal]
pub struct DispatchView {
    pub owner_user_id: Seq<char>,
    pub session_id: Seq<char>,
    /// The conversation that the text is known to belong to.
    pub conversation_id: Option<Seq<char>>,
    pub text: Seq<char>,
    pub platform: PluginType,
    pub plugin_id: Seq<char>,
    pub chat_id: Seq<char>,
    pub platform_user_id: Seq<char>,
}

/// The name of the lock under which the texts for one conversation reach the agent one by one.
pub open spec fn lock_key(
    owner: Seq<char>,
    conversation: Option<Seq<char>>,
    session_id: Seq<char>,
) -> Seq<char> {
    owner + ":"@ + match conversation {
        Some(id) => id,
        None => session_id,
    }
}

/// The conversation that replies to a text lead to.
pub open spec fn route_conversation(d: DispatchView, session: ChannelSessionView) -> Option<Seq<char>> {
    match d.conversation_id {
        Some(id) => Some(id),
        None => session.conversation_id,
    }
}

/// The text that reports that the agent could not be reached.
pub open spec fn failure_text(error: Seq<char>) -> Seq<char> {
    "\u{274c} 处理失败："@ + error
}

/// Reports that the agent could not be reached, and records the report as a target for replies.
pub open spec fn refused_flow(
    d: DispatchView,
    session: ChannelSessionView,
    error: Seq<char>,
    outcomes: Seq<OutcomeView>,
    at: int,
) -> HandlingView<()> {
    if at >= outcomes.len() {
        HandlingView::Do(
            TaskView::Send {
                owner_user_id: d.owner_user_id,
                plugin_id: d.plugin_id,
                chat_id: d.chat_id,
                message: types::text_message_view(failure_text(error)),
            },
        )
    } else {
        match outcomes[at] {
            OutcomeView::Delivered(None) => over(at + 1),
            OutcomeView::Delivered(Some(receipt)) => match route_conversation(d, session) {
                Some(conversation) => closing(
                    TaskView::RecordRoute {
                        owner_user_id: d.owner_user_id,
                        route: delivered_route(
                            conversation,
                            d.platform,
                            d.chat_id,
                            Some("❌ 处理失败"@),
                            receipt,
                        ),
                    },
                    outcomes,
                    at + 1,
                ),
                None => closing(
                    TaskView::RecordReplyRoute {
                        owner_user_id: d.owner_user_id,
                        session_id: d.session_id,
                        platform_type: d.platform.name(),
                        chat_id: d.chat_id,
                        message_id: receipt.message_id,
                    },
                    outcomes,
                    at + 1,
                ),
            },
            _ => HandlingView::Unexpected,
        }
    }
}

/// The relay of the agent's answer to a text.
pub open spec fn relay_config(d: DispatchView, conversation: Seq<char>) -> RelayConfigView {
    RelayConfigView {
        owner_user_id: d.owner_user_id,
        session_id: d.session_id,
        conversation_id: conversation,
        platform: d.platform,
        plugin_id: d.plugin_id,
        chat_id: d.chat_id,
        prompt_text: d.text,
        throttle_ms: stream_relay::throttle_ms(d.platform),
    }
}

/// Relays the agent's answer, if there is a stream.
pub open spec fn relay_flow(
    d: DispatchView,
    conversation: Seq<char>,
    has_stream: bool,
    outcomes: Seq<OutcomeView>,
    at: int,
) -> HandlingView<()> {
    if !has_stream {
        over(at)
    } else if at >= outcomes.len() {
        HandlingView::Do(TaskView::Relay { config: relay_config(d, conversation) })
    } else if outcomes[at] is Relayed {
        over(at + 1)
    } else {
        HandlingView::Unexpected
    }
}

/// Hands the text to the agent and relays its answer, or reports that it failed.
pub open spec fn agent_flow(
    d: DispatchView,
    session: ChannelSessionView,
    outcomes: Seq<OutcomeView>,
    at: int,
) -> HandlingView<()> {
    if at >= outcomes.len() {
        HandlingView::Do(
            TaskView::SendToAgent {
                owner_user_id: d.owner_user_id,
                session_id: session.id,
                text: d.text,
                platform: d.platform,
            },
        )
    } else {
        match outcomes[at] {
            OutcomeView::Refused(error) => refused_flow(d, session, error, outcomes, at + 1),
            OutcomeView::Accepted { conversation_id, has_stream } => if d.conversation_id is Some {
                relay_flow(d, conversation_id, has_stream, outcomes, at + 1)
            } else if at + 1 >= outcomes.len() {
                HandlingView::Do(
                    TaskView::BindConversation {
                        owner_user_id: d.owner_user_id,
                        session_id: d.session_id,
                        conversation_id,
                    },
                )
            } else if outcomes[at + 1] is Bound {
                relay_flow(d, conversation_id, has_stream, outcomes, at + 2)
            } else {
                HandlingView::Unexpected
            },
            _ => HandlingView::Unexpected,
        }
    }
}

/// Dispatches a text to the agent: the session, its lock, the mark of a turn from a channel, then
/// the agent.
pub open spec fn dispatch_flow(d: DispatchView, outcomes: Seq<OutcomeView>, at: int) -> HandlingView<
    (),
> {
    if at >= outcomes.len() {
        HandlingView::Do(
            TaskView::LoadSession { owner_user_id: d.owner_user_id, session_id: d.session_id },
        )
    } else {
        match outcomes[at] {
            OutcomeView::Session(None) => over(at + 1),
            OutcomeView::Session(Some(session)) => if at + 1 >= outcomes.len() {
                HandlingView::Do(
                    TaskView::Lock {
                        key: lock_key(
                            d.owner_user_id,
                            route_conversation(d, session),
                            d.session_id,
                        ),
                    },
                )
            } else if outcomes[at + 1] !is Locked {
                HandlingView::Unexpected
            } else {
                match d.conversation_id {
                    None => agent_flow(d, session, outcomes, at + 2),
                    Some(conversation_id) => if at + 2 >= outcomes.len() {
                        HandlingView::Do(
                            TaskView::MarkTurn {
                                owner_user_id: d.owner_user_id,
                                conversation_id,
                                text: d.text,
                                target: ChannelMirrorTargetRefView {
                                    platform: d.platform,
                                    chat_id: d.chat_id,
                                    platform_user_id: Some(d.platform_user_id),
                                },
                            },
                        )
                    } else if outcomes[at + 2] is Marked {
                        agent_flow(d, session, outcomes, at + 3)
                    } else {
                        HandlingView::Unexpected
                    },
                }
            },
            _ => HandlingView::Unexpected,
        }
    }
}

// ── Messages ────────────────────────────────────────────────────────

/// The dispatch of a text that came with `msg`.
pub open spec fn dispatch_of(
    msg: UnifiedIncomingMessageView,
    owner: Seq<char>,
    session_id: Seq<char>,
    conversation_id: Option<Seq<char>>,
    text: Seq<char>,
) -> DispatchView {
    DispatchView {
        owner_user_id: owner,
        session_id,
        conversation_id,
        text,
        platform: msg.platform,
        plugin_id: msg.platform.name(),
        chat_id: msg.chat_id,
        platform_user_id: msg.user.id,
    }
}

/// The conversation of a routed session: the known one, or a new one that the session is bound to.
pub open spec fn conversation_flow(
    owner: Seq<char>,
    session_id: Seq<char>,
    session: ChannelSessionView,
    platform: PluginType,
    known: Option<Seq<char>>,
    outcomes: Seq<OutcomeView>,
    at: int,
) -> HandlingView<Option<Seq<char>>> {
    match known {
        Some(conversation) => HandlingView::Done { value: Some(conversation), used: at },
        None => if at >= outcomes.len() {
            HandlingView::Do(
                TaskView::EnsureConversation {
                    owner_user_id: owner,
                    session_id: session.id,
                    platform,
                },
            )
        } else {
            match outcomes[at] {
                OutcomeView::Conversation(None) => HandlingView::Done { value: None, used: at + 1 },
                OutcomeView::Conversation(Some(conversation)) => if at + 1 >= outcomes.len() {
                    HandlingView::Do(
                        TaskView::BindConversation {
                            owner_user_id: owner,
                            session_id,
                            conversation_id: conversation,
                        },
                    )
                } else {
                    match outcomes[at + 1] {
                        OutcomeView::Bound(true) => HandlingView::Done {
                            value: Some(conversation),
                            used: at + 2,
                        },
                        OutcomeView::Bound(false) => HandlingView::Done { value: None, used: at + 2 },
                        _ => HandlingView::Unexpected,
                    }
                },
                _ => HandlingView::Unexpected,
            }
        },
    }
}

/// A response that routes replies to a session: its conversation is made sure of, then either the
/// text that follows goes to the agent, or the response is given and recorded.
pub open spec fn routed_flow(
    msg: UnifiedIncomingMessageView,
    owner: Seq<char>,
    response: ActionResponseView,
    session_id: Seq<char>,
    conversation_id: Option<Seq<char>>,
    follow_up_text: Option<Seq<char>>,
    outcomes: Seq<OutcomeView>,
) -> HandlingView<()> {
    if outcomes.len() == 0 {
        HandlingView::Do(TaskView::LoadSession { owner_user_id: owner, session_id })
    } else {
        match outcomes[0] {
            OutcomeView::Session(None) => over(1),
            OutcomeView::Session(Some(session)) => match conversation_flow(
                owner,
                session_id,
                session,
                msg.platform,
                conversation_id,
                outcomes,
                1,
            ) {
                HandlingView::Done { value: None, used } => over(used),
                HandlingView::Done { value: Some(conversation), used } => match follow_up_text {
                    Some(text) => dispatch_flow(
                        dispatch_of(msg, owner, session_id, Some(conversation), text),
                        outcomes,
                        used,
                    ),
                    None => match respond_flow(
                        owner,
                        msg.platform.name(),
                        msg.chat_id,
                        response,
                        outcomes,
                        used,
                    ) {
                        HandlingView::Done { value: None, used } => over(used),
                        HandlingView::Done { value: Some(receipt), used } => closing(
                            TaskView::RecordRoute {
                                owner_user_id: owner,
                                route: delivered_route(
                                    conversation,
                                    msg.platform,
                                    msg.chat_id,
                                    response.text,
                                    receipt,
                                ),
                            },
                            outcomes,
                            used,
                        ),
                        other => pending(other),
                    },
                },
                other => pending(other),
            },
            _ => HandlingView::Unexpected,
        }
    }
}

/// Handles a message that led to `result`. A response for which no owner is known is dropped.
pub open spec fn handle_flow(
    executor_owner: Option<Seq<char>>,
    msg: UnifiedIncomingMessageView,
    result: MessageResultView,
    outcomes: Seq<OutcomeView>,
) -> HandlingView<()> {
    match result {
        MessageResultView::Action(response) => match action::owner_of(executor_owner, msg) {
            None => over(0),
            Some(owner) => match respond_flow(
                owner,
                msg.platform.name(),
                msg.chat_id,
                response,
                outcomes,
                0,
            ) {
                HandlingView::Done { used, .. } => over(used),
                other => pending(other),
            },
        },
        MessageResultView::RoutedAction { response, session_id, conversation_id, follow_up_text } => {
            match action::owner_of(executor_owner, msg) {
                None => over(0),
                Some(owner) => routed_flow(
                    msg,
                    owner,
                    response,
                    session_id,
                    conversation_id,
                    follow_up_text,
                    outcomes,
                ),
            }
        },
        MessageResultView::Dispatched { owner_user_id, session_id, conversation_id } => dispatch_flow(
            dispatch_of(msg, owner_user_id, session_id, conversation_id, msg.content.text),
            outcomes,
            0,
        ),
        MessageResultView::AlreadyProcessing => over(0),
    }
}

// ── The orchestrator ────────────────────────────────────────────────

fn deliver_response(
    owner_user_id: &str,
    plugin_id: &str,
    chat_id: &str,
    response: &ActionResponse,
    message: UnifiedOutgoingMessage,
    outcomes: &Vec<Outcome>,
    at: usize,
) -> (r: Handling<Option<ChannelDeliveryReceipt>>)
    requires
        at <= outcomes@.len(),
    ensures
        r.deep_view() == deliver_flow(
            owner_user_id@,
            plugin_id@,
            chat_id@,
            response.deep_view(),
            message.deep_view(),
            outcomes.deep_view(),
            at as int,
        ),
        r matches Handling::Done { used, .. } ==> at <= used <= outcomes@.len(),
{
    assert(at < outcomes@.len() ==> outcomes.deep_view()[at as int]
        == outcomes@[at as int].deep_view());
    if response.behavior == ActionBehavior::Edit {
        match &response.edit_message_id {
            None => Handling::Done { value: None, used: at },
            Some(message_id) => {
                if at >= outcomes.len() {
                    return Handling::Do(
                        Task::Edit {
                            owner_user_id: owner_user_id.to_owned(),
                            plugin_id: plugin_id.to_owned(),
                            chat_id: chat_id.to_owned(),
                            message_id: message_id.clone(),
                            message,
                        },
                    );
                }
                match &outcomes[at] {
                    Outcome::Edited(None) => Handling::Done { value: None, used: at + 1 },
                    Outcome::Edited(Some((started_at, completed_at))) => Handling::Done {
                        value: Some(
                            ChannelDeliveryReceipt {
                                message_id: message_id.clone(),
                                started_at: *started_at,
                                completed_at: *completed_at,
                            },
                        ),
                        used: at + 1,
                    },
                    _ => Handling::Unexpected,
                }
            },
        }
    } else {
        if at >= outcomes.len() {
            return Handling::Do(
                Task::Send {
                    owner_user_id: owner_user_id.to_owned(),
                    plugin_id: plugin_id.to_owned(),
                    chat_id: chat_id.to_owned(),
                    message,
                },
            );
        }
        match &outcomes[at] {
            Outcome::Delivered(Some(receipt)) => Handling::Done {
                value: Some(receipt.clone()),
                used: at + 1,
            },
            Outcome::Delivered(None) => Handling::Done { value: None, used: at + 1 },
            _ => Handling::Unexpected,
        }
    }
}

fn outgoing_message(response: &ActionResponse, formatted: String, known: bool) -> (r: UnifiedOutgoingMessage)
    ensures
        r.deep_view() == outgoing(response.deep_view(), formatted@, known),
{
    UnifiedOutgoingMessage {
        message_type: OutgoingMessageType::Text,
        text: Some(formatted),
        parse_mode: if known {
            response.parse_mode
        } else {
            None
        },
        buttons: copy_buttons(&response.buttons),
        keyboard: copy_buttons(&response.keyboard),
        image_url: None,
        file_url: None,
        file_name: None,
        media_actions: None,
        reply_to_message_id: None,
        silent: None,
    }
}

/// Gives a response, if it has a text, and comes back with the receipt.
pub fn send_action_response(
    owner_user_id: &str,
    plugin_id: &str,
    chat_id: &str,
    response: &ActionResponse,
    outcomes: &Vec<Outcome>,
    at: usize,
) -> (r: Handling<Option<ChannelDeliveryReceipt>>)
    requires
        at <= outcomes@.len(),
    ensures
        r.deep_view() == respond_flow(
            owner_user_id@,
            plugin_id@,
            chat_id@,
            response.deep_view(),
            outcomes.deep_view(),
            at as int,
        ),
        r matches Handling::Done { used, .. } ==> at <= used <= outcomes@.len(),
{
    let text = match &response.text {
        Some(text) => text,
        None => {
            return Handling::Done { value: None, used: at };
        },
    };
    match PluginType::from_str_opt(plugin_id) {
        None => {
            let message = outgoing_message(response, text.clone(), false);
            deliver_response(owner_user_id, plugin_id, chat_id, response, message, outcomes, at)
        },
        Some(platform) => {
            if at >= outcomes.len() {
                return Handling::Do(Task::Format { text: text.clone(), platform });
            }
            assert(outcomes.deep_view()[at as int] == outcomes@[at as int].deep_view());
            match &outcomes[at] {
                Outcome::Formatted(formatted) => {
                    let message = outgoing_message(response, formatted.clone(), true);
                    deliver_response(
                        owner_user_id,
                        plugin_id,
                        chat_id,
                        response,
                        message,
                        outcomes,
                        at + 1,
                    )
                },
                _ => Handling::Unexpected,
            }
        },
    }
}

fn route_to(
    conversation_id: &str,
    platform: PluginType,
    chat_id: &str,
    preview_text: Option<String>,
    receipt: &ChannelDeliveryReceipt,
) -> (r: ConversationRoute)
    ensures
        r.deep_view() == delivered_route(
            conversation_id@,
            platform,
            chat_id@,
            preview_text.deep_view(),
            receipt.deep_view(),
        ),
{
    ConversationRoute {
        conversation_id: conversation_id.to_owned(),
        platform_type: platform.as_str().to_owned(),
        chat_id: chat_id.to_owned(),
        message_id: receipt.message_id.clone(),
        preview_text,
        sent_at: receipt.completed_at,
        delivery_started_at: Some(receipt.started_at),
        delivery_completed_at: Some(receipt.completed_at),
    }
}

fn close(task: Task, outcomes: &Vec<Outcome>, at: usize) -> (r: Handling<()>)
    requires
        at <= outcomes@.len(),
    ensures
        r.deep_view() == closing(task.deep_view(), outcomes.deep_view(), at as int),
{
    if at >= outcomes.len() {
        return Handling::Do(task);
    }
    assert(outcomes.deep_view()[at as int] == outcomes@[at as int].deep_view());
    match &outcomes[at] {
        Outcome::Recorded => finished(at + 1),
        _ => Handling::Unexpected,
    }
}

/// Where a text for the agent comes from and goes to.
#[derive(Debug, Clone, Copy)]
pub struct Dispatch<'a> {
    pub owner_user_id: &'a str,
    pub session_id: &'a str,
    /// The conversation that the text is known to belong to.
    pub conversation_id: Option<&'a str>,
    pub text: &'a str,
    pub platform: PluginType,
    pub plugin_id: &'a str,
    pub chat_id: &'a str,
    pub platform_user_id: &'a str,
}

impl<'a> DeepView for Dispatch<'a> {
    type V = DispatchView;

    open spec fn deep_view(&self) -> DispatchView {
        DispatchView {
            owner_user_id: self.owner_user_id@,
            session_id: self.session_id@,
            conversation_id: self.conversation_id.deep_view(),
            text: self.text@,
            platform: self.platform,
            plugin_id: self.plugin_id@,
            chat_id: self.chat_id@,
            platform_user_id: self.platform_user_id@,
        }
    }
}

fn report_refusal(
    d: &Dispatch<'_>,
    session: &ChannelSession,
    error: &str,
    outcomes: &Vec<Outcome>,
    at: usize,
) -> (r: Handling<()>)
    requires
        at <= outcomes@.len(),
    ensures
        r.deep_view() == refused_flow(
            d.deep_view(),
            session.deep_view(),
            error@,
            outcomes.deep_view(),
            at as int,
        ),
{
    if at >= outcomes.len() {
        return Handling::Do(
            Task::Send {
                owner_user_id: d.owner_user_id.to_owned(),
                plugin_id: d.plugin_id.to_owned(),
                chat_id: d.chat_id.to_owned(),
                message: text_message("\u{274c} 处理失败：".to_owned().concat(error)),
            },
        );
    }
    assert(outcomes.deep_view()[at as int] == outcomes@[at as int].deep_view());
    match &outcomes[at] {
        Outcome::Delivered(None) => finished(at + 1),
        Outcome::Delivered(Some(receipt)) => {
            let conversation = match d.conversation_id {
                Some(id) => Some(id),
                None => match &session.conversation_id {
                    Some(id) => Some(id.as_str()),
                    None => None,
                },
            };
            let task = match conversation {
                Some(id) => Task::RecordRoute {
                    owner_user_id: d.owner_user_id.to_owned(),
                    route: route_to(
                        id,
                        d.platform,
                        d.chat_id,
                        Some("❌ 处理失败".to_owned()),
                        receipt,
                    ),
                },
                None => Task::RecordReplyRoute {
                    owner_user_id: d.owner_user_id.to_owned(),
                    session_id: d.session_id.to_owned(),
                    platform_type: d.platform.as_str().to_owned(),
                    chat_id: d.chat_id.to_owned(),
                    message_id: receipt.message_id.clone(),
                },
            };
            close(task, outcomes, at + 1)
        },
        _ => Handling::Unexpected,
    }
}

fn relay_answer(
    d: &Dispatch<'_>,
    conversation_id: &str,
    has_stream: bool,
    outcomes: &Vec<Outcome>,
    at: usize,
) -> (r: Handling<()>)
    requires
        at <= outcomes@.len(),
    ensures
        r.deep_view() == relay_flow(
            d.deep_view(),
            conversation_id@,
            has_stream,
            outcomes.deep_view(),
            at as int,
        ),
{
    if !has_stream {
        return finished(at);
    }
    if at >= outcomes.len() {
        return Handling::Do(
            Task::Relay {
                config: RelayConfig {
                    owner_user_id: d.owner_user_id.to_owned(),
                    session_id: d.session_id.to_owned(),
                    conversation_id: conversation_id.to_owned(),
                    platform: d.platform,
                    plugin_id: d.plugin_id.to_owned(),
                    chat_id: d.chat_id.to_owned(),
                    prompt_text: d.text.to_owned(),
                    throttle_ms: throttle_ms_for_platform(d.platform),
                },
            },
        );
    }
    assert(outcomes.deep_view()[at as int] == outcomes@[at as int].deep_view());
    match &outcomes[at] {
        Outcome::Relayed => finished(at + 1),
        _ => Handling::Unexpected,
    }
}

fn reach_agent(d: &Dispatch<'_>, session: &ChannelSession, outcomes: &Vec<Outcome>, at: usize) -> (r: Handling<()>)
    requires
        at <= outcomes@.len(),
    ensures
        r.deep_view() == agent_flow(
            d.deep_view(),
            session.deep_view(),
            outcomes.deep_view(),
            at as int,
        ),
{
    if at >= outcomes.len() {
        return Handling::Do(
            Task::SendToAgent {
                owner_user_id: d.owner_user_id.to_owned(),
                session_id: session.id.clone(),
                text: d.text.to_owned(),
                platform: d.platform,
            },
        );
    }
    assert(outcomes.deep_view()[at as int] == outcomes@[at as int].deep_view());
    match &outcomes[at] {
        Outcome::Refused(error) => report_refusal(d, session, error.as_str(), outcomes, at + 1),
        Outcome::Accepted { conversation_id, has_stream } => {
            if d.conversation_id.is_some() {
                return relay_answer(d, conversation_id.as_str(), *has_stream, outcomes, at + 1);
            }
            if at + 1 >= outcomes.len() {
                return Handling::Do(
                    Task::BindConversation {
                        owner_user_id: d.owner_user_id.to_owned(),
                        session_id: d.session_id.to_owned(),
                        conversation_id: conversation_id.clone(),
                    },
                );
            }
            assert(outcomes.deep_view()[at as int + 1] == outcomes@[at as int + 1].deep_view());
            match &outcomes[at + 1] {
                Outcome::Bound(_) => relay_answer(
                    d,
                    conversation_id.as_str(),
                    *has_stream,
                    outcomes,
                    at + 2,
                ),
                _ => Handling::Unexpected,
            }
        },
        _ => Handling::Unexpected,
    }
}

/// Dispatches a text to the agent, with the outcomes given so far.
pub fn handle_dispatched(d: &Dispatch<'_>, outcomes: &Vec<Outcome>, at: usize) -> (r: Handling<()>)
    requires
        at <= outcomes@.len(),
    ensures
        r.deep_view() == dispatch_flow(d.deep_view(), outcomes.deep_view(), at as int),
{
    if at >= outcomes.len() {
        return Handling::Do(
            Task::LoadSession {
                owner_user_id: d.owner_user_id.to_owned(),
                session_id: d.session_id.to_owned(),
            },
        );
    }
    assert(outcomes.deep_view()[at as int] == outcomes@[at as int].deep_view());
    let session = match &outcomes[at] {
        Outcome::Session(Some(session)) => session,
        Outcome::Session(None) => {
            return finished(at + 1);
        },
        _ => {
            return Handling::Unexpected;
        },
    };
    if at + 1 >= outcomes.len() {
        let name = match d.conversation_id {
            Some(id) => id,
            None => match &session.conversation_id {
                Some(id) => id.as_str(),
                None => d.session_id,
            },
        };
        return Handling::Do(
            Task::Lock { key: d.owner_user_id.to_owned().concat(":").concat(name) },
        );
    }
    assert(outcomes.deep_view()[at as int + 1] == outcomes@[at as int + 1].deep_view());
    match &outcomes[at + 1] {
        Outcome::Locked => {},
        _ => {
            return Handling::Unexpected;
        },
    }
    match d.conversation_id {
        None => reach_agent(d, session, outcomes, at + 2),
        Some(conversation_id) => {
            if at + 2 >= outcomes.len() {
                return Handling::Do(
                    Task::MarkTurn {
                        owner_user_id: d.owner_user_id.to_owned(),
                        conversation_id: conversation_id.to_owned(),
                        text: d.text.to_owned(),
                        target: ChannelMirrorTargetRef {
                            platform: d.platform,
                            chat_id: d.chat_id.to_owned(),
                            platform_user_id: Some(d.platform_user_id.to_owned()),
                        },
                    },
                );
            }
            assert(outcomes.deep_view()[at as int + 2] == outcomes@[at as int + 2].deep_view());
            match &outcomes[at + 2] {
                Outcome::Marked => reach_agent(d, session, outcomes, at + 3),
                _ => Handling::Unexpected,
            }
        },
    }
}

fn ensure_conversation(
    owner_user_id: &str,
    session_id: &str,
    session: &ChannelSession,
    platform: PluginType,
    known: &Option<String>,
    outcomes: &Vec<Outcome>,
    at: usize,
) -> (r: Handling<Option<String>>)
    requires
        at <= outcomes@.len(),
    ensures
        r.deep_view() == conversation_flow(
            owner_user_id@,
            session_id@,
            session.deep_view(),
            platform,
            known.deep_view(),
            outcomes.deep_view(),
            at as int,
        ),
        r matches Handling::Done { used, .. } ==> at <= used <= outcomes@.len(),
{
    match known {
        Some(conversation) => {
            return Handling::Done { value: Some(conversation.clone()), used: at };
        },
        None => {},
    }
    if at >= outcomes.len() {
        return Handling::Do(
            Task::EnsureConversation {
                owner_user_id: owner_user_id.to_owned(),
                session_id: session.id.clone(),
                platform,
            },
        );
    }
    assert(outcomes.deep_view()[at as int] == outcomes@[at as int].deep_view());
    match &outcomes[at] {
        Outcome::Conversation(None) => Handling::Done { value: None, used: at + 1 },
        Outcome::Conversation(Some(conversation)) => {
            if at + 1 >= outcomes.len() {
                return Handling::Do(
                    Task::BindConversation {
                        owner_user_id: owner_user_id.to_owned(),
                        session_id: session_id.to_owned(),
                        conversation_id: conversation.clone(),
                    },
                );
            }
            assert(outcomes.deep_view()[at as int + 1] == outcomes@[at as int + 1].deep_view());
            match &outcomes[at + 1] {
                Outcome::Bound(bound) => {
                    if *bound {
                        Handling::Done { value: Some(conversation.clone()), used: at + 2 }
                    } else {
                        Handling::Done { value: None, used: at + 2 }
                    }
                },
                _ => Handling::Unexpected,
            }
        },
        _ => Handling::Unexpected,
    }
}

fn dispatch_from<'a>(
    msg: &'a UnifiedIncomingMessage,
    owner_user_id: &'a str,
    session_id: &'a str,
    conversation_id: Option<&'a str>,
    text: &'a str,
) -> (r: Dispatch<'a>)
    ensures
        r.deep_view() == dispatch_of(
            msg.deep_view(),
            owner_user_id@,
            session_id@,
            conversation_id.deep_view(),
            text@,
        ),
{
    Dispatch {
        owner_user_id,
        session_id,
        conversation_id,
        text,
        platform: msg.platform,
        plugin_id: msg.platform.as_str(),
        chat_id: msg.chat_id.as_str(),
        platform_user_id: msg.user.id.as_str(),
    }
}

fn handle_routed(
    msg: &UnifiedIncomingMessage,
    owner_user_id: &str,
    response: &ActionResponse,
    session_id: &str,
    conversation_id: &Option<String>,
    follow_up_text: &Option<String>,
    outcomes: &Vec<Outcome>,
) -> (r: Handling<()>)
    ensures
        r.deep_view() == routed_flow(
            msg.deep_view(),
            owner_user_id@,
            response.deep_view(),
            session_id@,
            conversation_id.deep_view(),
            follow_up_text.deep_view(),
            outcomes.deep_view(),
        ),
{
    if outcomes.len() == 0 {
        return Handling::Do(
            Task::LoadSession {
                owner_user_id: owner_user_id.to_owned(),
                session_id: session_id.to_owned(),
            },
        );
    }
    assert(outcomes.deep_view()[0] == outcomes@[0].deep_view());
    let session = match &outcomes[0] {
        Outcome::Session(Some(session)) => session,
        Outcome::Session(None) => {
            return finished(1);
        },
        _ => {
            return Handling::Unexpected;
        },
    };
    match ensure_conversation(
        owner_user_id,
        session_id,
        session,
        msg.platform,
        conversation_id,
        outcomes,
        1,
    ) {
        Handling::Done { value: None, used } => finished(used),
        Handling::Done { value: Some(conversation), used } => match follow_up_text {
            Some(text) => {
                let d = dispatch_from(
                    msg,
                    owner_user_id,
                    session_id,
                    Some(conversation.as_str()),
                    text.as_str(),
                );
                handle_dispatched(&d, outcomes, used)
            },
            None => match send_action_response(
                owner_user_id,
                msg.platform.as_str(),
                msg.chat_id.as_str(),
                response,
                outcomes,
                used,
            ) {
                Handling::Done { value: None, used } => finished(used),
                Handling::Done { value: Some(receipt), used } => {
                    let task = Task::RecordRoute {
                        owner_user_id: owner_user_id.to_owned(),
                        route: route_to(
                            conversation.as_str(),
                            msg.platform,
                            msg.chat_id.as_str(),
                            response.text.clone(),
                            &receipt,
                        ),
                    };
                    close(task, outcomes, used)
                },
                Handling::Do(task) => Handling::Do(task),
                Handling::Unexpected => Handling::Unexpected,
            },
        },
        Handling::Do(task) => Handling::Do(task),
        Handling::Unexpected => Handling::Unexpected,
    }
}

/// Drives incoming messages through the channel: responses go back to the chat, texts go to the
/// agent, and the agent's stream is relayed.
#[derive(Debug)]
pub struct ChannelOrchestrator {
    owner_user_id: Option<String>,
}

impl ChannelOrchestrator {
    /// The owner of messages that name none.
    pub closed spec fn owner(&self) -> Option<Seq<char>> {
        self.owner_user_id.deep_view()
    }

    /// An orchestrator for the channels of `owner_user_id`.
    pub fn new(owner_user_id: Option<String>) -> (r: Self)
        ensures
            r.owner() == owner_user_id.deep_view(),
    {
        ChannelOrchestrator { owner_user_id }
    }

    /// Handles a message that led to `result`, with the outcomes given so far.
    pub fn handle_message(
        &self,
        msg: &UnifiedIncomingMessage,
        result: &MessageResult,
        outcomes: &Vec<Outcome>,
    ) -> (r: Handling<()>)
        ensures
            r.deep_view() == handle_flow(
                self.owner(),
                msg.deep_view(),
                result.deep_view(),
                outcomes.deep_view(),
            ),
    {
        let owner = match &msg.owner_user_id {
            Some(owner) => Some(owner.as_str()),
            None => match &self.owner_user_id {
                Some(owner) => Some(owner.as_str()),
                None => None,
            },
        };
        match result {
            MessageResult::Action(response) => match owner {
                None => finished(0),
                Some(owner_user_id) => match send_action_response(
                    owner_user_id,
                    msg.platform.as_str(),
                    msg.chat_id.as_str(),
                    response,
                    outcomes,
                    0,
                ) {
                    Handling::Done { used, .. } => finished(used),
                    Handling::Do(task) => Handling::Do(task),
                    Handling::Unexpected => Handling::Unexpected,
                },
            },
            MessageResult::RoutedAction { response, session_id, conversation_id, follow_up_text } => {
                match owner {
                    None => finished(0),
                    Some(owner_user_id) => handle_routed(
                        msg,
                        owner_user_id,
                        response,
                        session_id.as_str(),
                        conversation_id,
                        follow_up_text,
                        outcomes,
                    ),
                }
            },
            MessageResult::Dispatched { owner_user_id, session_id, conversation_id } => {
                let conversation = match conversation_id {
                    Some(id) => Some(id.as_str()),
                    None => None,
                };
                let d = dispatch_from(
                    msg,
                    owner_user_id.as_str(),
                    session_id.as_str(),
                    conversation,
                    msg.content.text.as_str(),
                );
                handle_dispatched(&d, outcomes, 0)
            },
            MessageResult::AlreadyProcessing => finished(0),
        }
    }
}

// ── Laws ────────────────────────────────────────────────────────────

/// The agent is reached only while the lock of the conversation is held, and a turn of a known
/// conversation is marked before the agent can answer it.
pub proof fn agent_is_reached_under_the_lock(d: DispatchView, outcomes: Seq<OutcomeView>, at: int)
    requires
        0 <= at <= outcomes.len(),
    ensures
        dispatch_flow(d, outcomes, at) matches HandlingView::Do(task) && (task is SendToAgent || task
            is Relay || task is Send) ==> {
            &&& at + 1 < outcomes.len()
            &&& outcomes[at] matches OutcomeView::Session(Some(_))
            &&& outcomes[at + 1] is Locked
            &&& d.conversation_id is Some ==> at + 2 < outcomes.len() && outcomes[at + 2] is Marked
        },
{
}

/// Texts for one conversation wait for one another, whatever session they come through.
pub proof fn one_lock_for_a_conversation(
    d: DispatchView,
    first: ChannelSessionView,
    e: DispatchView,
    second: ChannelSessionView,
)
    requires
        d.owner_user_id == e.owner_user_id,
        route_conversation(d, first) is Some,
        route_conversation(d, first) == route_conversation(e, second),
    ensures
        lock_key(d.owner_user_id, route_conversation(d, first), d.session_id) == lock_key(
            e.owner_user_id,
            route_conversation(e, second),
            e.session_id,
        ),
{
}

/// What is relayed is the answer to the text that was dispatched, in the conversation that the
/// agent took it into, and only where there is a stream.
pub proof fn accepted_text_is_relayed(d: DispatchView, outcomes: Seq<OutcomeView>, at: int)
    requires
        0 <= at <= outcomes.len(),
    ensures
        dispatch_flow(d, outcomes, at) matches HandlingView::Do(TaskView::Relay { config }) ==> {
            &&& config.prompt_text == d.text
            &&& config.chat_id == d.chat_id
            &&& config.throttle_ms == stream_relay::throttle_ms(d.platform)
            &&& outcomes.contains(
                OutcomeView::Accepted { conversation_id: config.conversation_id, has_stream: true },
            )
        },
{
    if at + 2 < outcomes.len() {
        assert(outcomes.contains(outcomes[at + 2]));
    }
    if at + 3 < outcomes.len() {
        assert(outcomes.contains(outcomes[at + 3]));
    }
}

/// A response for which no owner is known is dropped without a single task.
pub proof fn ownerless_response_is_dropped(
    executor_owner: Option<Seq<char>>,
    msg: UnifiedIncomingMessageView,
    result: MessageResultView,
    outcomes: Seq<OutcomeView>,
)
    requires
        action::owner_of(executor_owner, msg) is None,
        result !is Dispatched,
    ensures
        handle_flow(executor_owner, msg, result, outcomes) == over(0),
{
}

proof fn lemma_respond_receipt(
    owner: Seq<char>,
    plugin_id: Seq<char>,
    chat_id: Seq<char>,
    response: ActionResponseView,
    outcomes: Seq<OutcomeView>,
    at: int,
)
    requires
        0 <= at <= outcomes.len(),
    ensures
        respond_flow(owner, plugin_id, chat_id, response, outcomes, at) matches HandlingView::Do(
            task,
        ) ==> task !is RecordRoute,
        respond_flow(owner, plugin_id, chat_id, response, outcomes, at) matches HandlingView::Done {
            value,
            used,
        } ==> at <= used <= outcomes.len() && (value matches Some(receipt) ==> at < used && match outcomes[used
            - 1] {
            OutcomeView::Delivered(delivered) => delivered == Some(receipt),
            OutcomeView::Edited(edited) => edited == Some((receipt.started_at, receipt.completed_at))
                && response.edit_message_id == Some(receipt.message_id),
            _ => false,
        }),
{
}

/// Whether a route is that of the message that an outcome reports delivered or edited.
pub open spec fn records(route: ConversationRouteView, outcome: OutcomeView) -> bool {
    match outcome {
        OutcomeView::Delivered(Some(receipt)) => route.message_id == receipt.message_id
            && route.delivery_started_at == Some(receipt.started_at) && route.delivery_completed_at
            == Some(receipt.completed_at),
        OutcomeView::Edited(Some((started_at, completed_at))) => route.delivery_started_at == Some(
            started_at,
        ) && route.delivery_completed_at == Some(completed_at),
        _ => false,
    }
}

/// A message is recorded as a target for replies only once it was delivered: the outcome before the
/// record reports it, and the route names its chat and platform.
pub proof fn only_delivered_messages_are_recorded(
    executor_owner: Option<Seq<char>>,
    msg: UnifiedIncomingMessageView,
    result: MessageResultView,
    outcomes: Seq<OutcomeView>,
)
    ensures
        handle_flow(executor_owner, msg, result, outcomes) matches HandlingView::Do(
            TaskView::RecordRoute { route, .. },
        ) ==> {
            &&& outcomes.len() > 0
            &&& records(route, outcomes.last())
            &&& route.chat_id == msg.chat_id
            &&& route.platform_type == msg.platform.name()
        },
{
    let plugin_id = msg.platform.name();
    match result {
        MessageResultView::Action(response) => {
            if let Some(owner) = action::owner_of(executor_owner, msg) {
                lemma_respond_receipt(owner, plugin_id, msg.chat_id, response, outcomes, 0);
            }
        },
        MessageResultView::RoutedAction { response, session_id, conversation_id, follow_up_text } => {
            if let Some(owner) = action::owner_of(executor_owner, msg) {
                if outcomes.len() > 0 {
                    if let OutcomeView::Session(Some(session)) = outcomes[0] {
                        if let HandlingView::Done { value: Some(_), used } = conversation_flow(
                            owner,
                            session_id,
                            session,
                            msg.platform,
                            conversation_id,
                            outcomes,
                            1,
                        ) {
                            lemma_respond_receipt(
                                owner,
                                plugin_id,
                                msg.chat_id,
                                response,
                                outcomes,
                                used,
                            );
                        }
                    }
                }
            }
        },
        _ => {},
    }
}

proof fn lemma_respond_is_stable(
    owner: Seq<char>,
    plugin_id: Seq<char>,
    chat_id: Seq<char>,
    response: ActionResponseView,
    outcomes: Seq<OutcomeView>,
    more: Seq<OutcomeView>,
    at: int,
)
    requires
        0 <= at <= outcomes.len(),
    ensures
        respond_flow(owner, plugin_id, chat_id, response, outcomes, at) !is Do ==> respond_flow(
            owner,
            plugin_id,
            chat_id,
            response,
            outcomes + more,
            at,
        ) == respond_flow(owner, plugin_id, chat_id, response, outcomes, at),
        respond_flow(owner, plugin_id, chat_id, response, outcomes, at) matches HandlingView::Done {
            used,
            ..
        } ==> at <= used <= outcomes.len(),
{
    assert(forall|i: int| 0 <= i < outcomes.len() ==> (outcomes + more)[i] == outcomes[i]);
}

proof fn lemma_agent_is_stable(
    d: DispatchView,
    session: ChannelSessionView,
    outcomes: Seq<OutcomeView>,
    more: Seq<OutcomeView>,
    at: int,
)
    requires
        0 <= at <= outcomes.len(),
    ensures
        agent_flow(d, session, outcomes, at) !is Do ==> agent_flow(d, session, outcomes + more, at)
            == agent_flow(d, session, outcomes, at),
{
    assert(forall|i: int| 0 <= i < outcomes.len() ==> (outcomes + more)[i] == outcomes[i]);
}

proof fn lemma_dispatch_is_stable(
    d: DispatchView,
    outcomes: Seq<OutcomeView>,
    more: Seq<OutcomeView>,
    at: int,
)
    requires
        0 <= at <= outcomes.len(),
    ensures
        dispatch_flow(d, outcomes, at) !is Do ==> dispatch_flow(d, outcomes + more, at)
            == dispatch_flow(d, outcomes, at),
{
    assert(forall|i: int| 0 <= i < outcomes.len() ==> (outcomes + more)[i] == outcomes[i]);
    if at < outcomes.len() {
        if let OutcomeView::Session(Some(session)) = outcomes[at] {
            if at + 2 <= outcomes.len() {
                lemma_agent_is_stable(d, session, outcomes, more, at + 2);
            }
            if at + 3 <= outcomes.len() {
                lemma_agent_is_stable(d, session, outcomes, more, at + 3);
            }
        }
    }
}

/// What the outcomes so far have decided stays decided, whatever comes after them.
pub proof fn handling_is_stable(
    executor_owner: Option<Seq<char>>,
    msg: UnifiedIncomingMessageView,
    result: MessageResultView,
    outcomes: Seq<OutcomeView>,
    more: Seq<OutcomeView>,
)
    ensures
        handle_flow(executor_owner, msg, result, outcomes) !is Do ==> handle_flow(
            executor_owner,
            msg,
            result,
            outcomes + more,
        ) == handle_flow(executor_owner, msg, result, outcomes),
{
    assert(forall|i: int| 0 <= i < outcomes.len() ==> (outcomes + more)[i] == outcomes[i]);
    let plugin_id = msg.platform.name();
    match result {
        MessageResultView::Action(response) => {
            if let Some(owner) = action::owner_of(executor_owner, msg) {
                lemma_respond_is_stable(owner, plugin_id, msg.chat_id, response, outcomes, more, 0);
            }
        },
        MessageResultView::RoutedAction { response, session_id, conversation_id, follow_up_text } => {
            if let Some(owner) = action::owner_of(executor_owner, msg) {
                if outcomes.len() > 0 {
                    if let OutcomeView::Session(Some(session)) = outcomes[0] {
                        if let HandlingView::Done { value: Some(conversation), used } = conversation_flow(
                            owner,
                            session_id,
                            session,
                            msg.platform,
                            conversation_id,
                            outcomes,
                            1,
                        ) {
                            match follow_up_text {
                                Some(text) => lemma_dispatch_is_stable(
                                    dispatch_of(msg, owner, session_id, Some(conversation), text),
                                    outcomes,
                                    more,
                                    used,
                                ),
                                None => lemma_respond_is_stable(
                                    owner,
                                    plugin_id,
                                    msg.chat_id,
                                    response,
                                    outcomes,
                                    more,
                                    used,
                                ),
                            }
                        }
                    }
                }
            }
        },
        MessageResultView::Dispatched { owner_user_id, session_id, conversation_id } => {
            lemma_dispatch_is_stable(
                dispatch_of(msg, owner_user_id, session_id, conversation_id, msg.content.text),
                outcomes,
                more,
                0,
            );
        },
        MessageResultView::AlreadyProcessing => {},
    }
}

/// A message that says `text`, with nothing else to it.
pub open spec fn says(message: UnifiedOutgoingMessageView, text: Seq<char>) -> bool {
    &&& message.message_type == types::OutgoingMessageType::Text
    &&& message.text == Some(text)
    &&& message.image_url is None
    &&& message.file_url is None
    &&& message.file_name is None
    &&& message.media_actions is None
    &&& message.reply_to_message_id is None
    &&& message.silent is None
}

/// A text for the agent takes its way. It is sent for the session that was loaded, by its owner, as it
/// stands and from its platform, once the lock of its conversation is held; a text of a known
/// conversation is marked first, with the chat and the user that it came from.
pub proof fn dispatched_text_reaches_the_agent(
    executor_owner: Option<Seq<char>>,
    msg: UnifiedIncomingMessageView,
    owner: Seq<char>,
    session_id: Seq<char>,
    conversation_id: Option<Seq<char>>,
    session: ChannelSessionView,
)
    ensures
        ({
            let result = MessageResultView::Dispatched {
                owner_user_id: owner,
                session_id,
                conversation_id,
            };
            let next = |outcomes: Seq<OutcomeView>|
                handle_flow(executor_owner, msg, result, outcomes);
            let loaded = OutcomeView::Session(Some(session));
            let reaching = HandlingView::<()>::Do(
                TaskView::SendToAgent {
                    owner_user_id: owner,
                    session_id: session.id,
                    text: msg.content.text,
                    platform: msg.platform,
                },
            );
            let room = match (conversation_id, session.conversation_id) {
                (Some(id), _) => id,
                (None, Some(id)) => id,
                (None, None) => session_id,
            };
            &&& next(Seq::empty()) == HandlingView::<()>::Do(
                TaskView::LoadSession { owner_user_id: owner, session_id },
            )
            &&& next(seq![OutcomeView::Session(None)]) is Done
            &&& next(seq![loaded]) == HandlingView::<()>::Do(
                TaskView::Lock { key: owner + ":"@ + room },
            )
            &&& match conversation_id {
                None => next(seq![loaded, OutcomeView::Locked]) == reaching,
                Some(id) => {
                    &&& next(seq![loaded, OutcomeView::Locked]) == HandlingView::<()>::Do(
                        TaskView::MarkTurn {
                            owner_user_id: owner,
                            conversation_id: id,
                            text: msg.content.text,
                            target: ChannelMirrorTargetRefView {
                                platform: msg.platform,
                                chat_id: msg.chat_id,
                                platform_user_id: Some(msg.user.id),
                            },
                        },
                    )
                    &&& next(seq![loaded, OutcomeView::Locked, OutcomeView::Marked]) == reaching
                },
            }
        }),
{
}

/// The outcomes of a dispatched text up to the agent's answer.
pub open spec fn up_to_the_agent(
    session: ChannelSessionView,
    conversation_id: Option<Seq<char>>,
    answer: OutcomeView,
) -> Seq<OutcomeView> {
    if conversation_id is Some {
        seq![
            OutcomeView::Session(Some(session)),
            OutcomeView::Locked,
            OutcomeView::Marked,
            answer,
        ]
    } else {
        seq![OutcomeView::Session(Some(session)), OutcomeView::Locked, answer]
    }
}

/// A text that the agent took is answered in its chat: a session without a conversation is bound to
/// the one that the agent took the text into, and the agent's stream is relayed from that
/// conversation to the chat that the text came from, at the pace of its platform.
pub proof fn accepted_text_is_answered_in_its_chat(
    executor_owner: Option<Seq<char>>,
    msg: UnifiedIncomingMessageView,
    owner: Seq<char>,
    session_id: Seq<char>,
    conversation_id: Option<Seq<char>>,
    session: ChannelSessionView,
    taken_into: Seq<char>,
    has_stream: bool,
    bound: bool,
)
    ensures
        ({
            let result = MessageResultView::Dispatched {
                owner_user_id: owner,
                session_id,
                conversation_id,
            };
            let next = |outcomes: Seq<OutcomeView>|
                handle_flow(executor_owner, msg, result, outcomes);
            let taken = up_to_the_agent(
                session,
                conversation_id,
                OutcomeView::Accepted { conversation_id: taken_into, has_stream },
            );
            let ready = if conversation_id is None {
                taken.push(OutcomeView::Bound(bound))
            } else {
                taken
            };
            &&& conversation_id is None ==> next(taken) == HandlingView::<()>::Do(
                TaskView::BindConversation {
                    owner_user_id: owner,
                    session_id,
                    conversation_id: taken_into,
                },
            )
            &&& !has_stream ==> next(ready) is Done
            &&& has_stream ==> next(ready) == HandlingView::<()>::Do(
                TaskView::Relay {
                    config: RelayConfigView {
                        owner_user_id: owner,
                        session_id,
                        conversation_id: taken_into,
                        platform: msg.platform,
                        plugin_id: msg.platform.name(),
                        chat_id: msg.chat_id,
                        prompt_text: msg.content.text,
                        throttle_ms: match msg.platform {
                            PluginType::Slack => 1200,
                            PluginType::Discord => 1000,
                            _ => 500,
                        },
                    },
                },
            )
            &&& has_stream ==> next(ready.push(OutcomeView::Relayed)) is Done
        }),
{
}

/// A text that the agent refused is answered with the reason, in the chat that it came from. The
/// answer becomes a target for replies to the conversation that the text was for, or to the session
/// where there is no conversation.
pub proof fn refusal_is_reported_in_its_chat(
    executor_owner: Option<Seq<char>>,
    msg: UnifiedIncomingMessageView,
    owner: Seq<char>,
    session_id: Seq<char>,
    conversation_id: Option<Seq<char>>,
    session: ChannelSessionView,
    reason: Seq<char>,
    receipt: ChannelDeliveryReceiptView,
)
    ensures
        ({
            let result = MessageResultView::Dispatched {
                owner_user_id: owner,
                session_id,
                conversation_id,
            };
            let next = |outcomes: Seq<OutcomeView>|
                handle_flow(executor_owner, msg, result, outcomes);
            let refused = up_to_the_agent(session, conversation_id, OutcomeView::Refused(reason));
            let delivered = refused.push(OutcomeView::Delivered(Some(receipt)));
            &&& next(refused) matches HandlingView::Do(
                TaskView::Send { owner_user_id, plugin_id, chat_id, message },
            ) && {
                &&& owner_user_id == owner
                &&& plugin_id == msg.platform.name()
                &&& chat_id == msg.chat_id
                &&& says(message, "\u{274c} 处理失败："@ + reason)
                &&& message.buttons is None
                &&& message.keyboard is None
                &&& message.parse_mode is None
            }
            &&& next(refused.push(OutcomeView::Delivered(None))) is Done
            &&& match (conversation_id, session.conversation_id) {
                (None, None) => next(delivered) == HandlingView::<()>::Do(
                    TaskView::RecordReplyRoute {
                        owner_user_id: owner,
                        session_id,
                        platform_type: msg.platform.name(),
                        chat_id: msg.chat_id,
                        message_id: receipt.message_id,
                    },
                ),
                (known, other) => next(delivered) == HandlingView::<()>::Do(
                    TaskView::RecordRoute {
                        owner_user_id: owner,
                        route: ConversationRouteView {
                            conversation_id: if known is Some {
                                known->Some_0
                            } else {
                                other->Some_0
                            },
                            platform_type: msg.platform.name(),
                            chat_id: msg.chat_id,
                            message_id: receipt.message_id,
                            preview_text: Some("❌ 处理失败"@),
                            sent_at: receipt.completed_at,
                            delivery_started_at: Some(receipt.started_at),
                            delivery_completed_at: Some(receipt.completed_at),
                        },
                    },
                ),
            }
            &&& next(delivered.push(OutcomeView::Recorded)) is Done
        }),
{
}

/// A response goes back to the chat that its message came from: its text as the platform wants it, its
/// buttons and keyboard as they are, as a new message or in place of the one that it is to edit, for
/// the owner that the message names or else the orchestrator's own. A response without a text is not
/// sent.
pub proof fn response_goes_back_to_its_chat(
    executor_owner: Option<Seq<char>>,
    msg: UnifiedIncomingMessageView,
    owner: Seq<char>,
    response: ActionResponseView,
    said: Seq<char>,
    formatted: Seq<char>,
    delivered: Option<ChannelDeliveryReceiptView>,
    edited: Option<(i64, i64)>,
)
    requires
        msg.owner_user_id == Some(owner) || (msg.owner_user_id is None && executor_owner == Some(owner)),
    ensures
        ({
            let next = |outcomes: Seq<OutcomeView>|
                handle_flow(executor_owner, msg, MessageResultView::Action(response), outcomes);
            let shown = seq![OutcomeView::Formatted(formatted)];
            &&& response.text is None ==> next(Seq::empty()) is Done
            &&& response.text == Some(said) ==> {
                &&& next(Seq::empty()) == HandlingView::<()>::Do(
                    TaskView::Format { text: said, platform: msg.platform },
                )
                &&& response.behavior != ActionBehavior::Edit ==> (next(shown) matches HandlingView::Do(
                    TaskView::Send { owner_user_id, plugin_id, chat_id, message },
                ) && {
                    &&& owner_user_id == owner
                    &&& plugin_id == msg.platform.name()
                    &&& chat_id == msg.chat_id
                    &&& says(message, formatted)
                    &&& message.buttons == response.buttons
                    &&& message.keyboard == response.keyboard
                    &&& message.parse_mode == response.parse_mode
                })
                &&& response.behavior != ActionBehavior::Edit ==> next(
                    shown.push(OutcomeView::Delivered(delivered)),
                ) is Done
                &&& response.behavior == ActionBehavior::Edit && response.edit_message_id is None
                    ==> next(shown) is Done
                &&& response.behavior == ActionBehavior::Edit && response.edit_message_id is Some
                    ==> (next(shown) matches HandlingView::Do(
                    TaskView::Edit { owner_user_id, plugin_id, chat_id, message_id, message },
                ) && {
                    &&& owner_user_id == owner
                    &&& plugin_id == msg.platform.name()
                    &&& chat_id == msg.chat_id
                    &&& Some(message_id) == response.edit_message_id
                    &&& says(message, formatted)
                    &&& message.buttons == response.buttons
                    &&& message.keyboard == response.keyboard
                    &&& message.parse_mode == response.parse_mode
                })
                &&& response.behavior == ActionBehavior::Edit && response.edit_message_id is Some
                    ==> next(shown.push(OutcomeView::Edited(edited))) is Done
            }
        }),
{
    types::platform_of_its_name(msg.platform);
}

/// A routed response or text belongs to a session: the session is loaded first, and where its
/// conversation is not known yet, one is had for that session and bound to it. Where that fails,
/// nothing more is done.
pub proof fn routed_message_gets_its_conversation(
    executor_owner: Option<Seq<char>>,
    msg: UnifiedIncomingMessageView,
    owner: Seq<char>,
    response: ActionResponseView,
    session_id: Seq<char>,
    follow_up_text: Option<Seq<char>>,
    session: ChannelSessionView,
    conversation: Seq<char>,
)
    requires
        msg.owner_user_id == Some(owner) || (msg.owner_user_id is None && executor_owner == Some(owner)),
    ensures
        ({
            let unbound = |outcomes: Seq<OutcomeView>|
                handle_flow(
                    executor_owner,
                    msg,
                    MessageResultView::RoutedAction {
                        response,
                        session_id,
                        conversation_id: None,
                        follow_up_text,
                    },
                    outcomes,
                );
            let loaded = OutcomeView::Session(Some(session));
            let had = OutcomeView::Conversation(Some(conversation));
            &&& unbound(Seq::empty()) == HandlingView::<()>::Do(
                TaskView::LoadSession { owner_user_id: owner, session_id },
            )
            &&& unbound(seq![OutcomeView::Session(None)]) is Done
            &&& unbound(seq![loaded]) == HandlingView::<()>::Do(
                TaskView::EnsureConversation {
                    owner_user_id: owner,
                    session_id: session.id,
                    platform: msg.platform,
                },
            )
            &&& unbound(seq![loaded, OutcomeView::Conversation(None)]) is Done
            &&& unbound(seq![loaded, had]) == HandlingView::<()>::Do(
                TaskView::BindConversation {
                    owner_user_id: owner,
                    session_id,
                    conversation_id: conversation,
                },
            )
            &&& unbound(seq![loaded, had, OutcomeView::Bound(false)]) is Done
        }),
{
}

/// What a routed message does once its conversation is there: a text that came with it is dispatched
/// to the session in that conversation; else its response is given, and what was delivered becomes a
/// target for replies to the conversation.
pub proof fn routed_message_goes_on_in_its_conversation(
    executor_owner: Option<Seq<char>>,
    msg: UnifiedIncomingMessageView,
    owner: Seq<char>,
    response: ActionResponseView,
    session_id: Seq<char>,
    known: bool,
    conversation: Seq<char>,
    session: ChannelSessionView,
    again: ChannelSessionView,
    follow_up: Seq<char>,
    said: Seq<char>,
    formatted: Seq<char>,
    receipt: ChannelDeliveryReceiptView,
)
    requires
        msg.owner_user_id == Some(owner) || (msg.owner_user_id is None && executor_owner == Some(owner)),
    ensures
        ({
            let next = |follow_up_text: Option<Seq<char>>, outcomes: Seq<OutcomeView>|
                handle_flow(
                    executor_owner,
                    msg,
                    MessageResultView::RoutedAction {
                        response,
                        session_id,
                        conversation_id: if known {
                            Some(conversation)
                        } else {
                            None
                        },
                        follow_up_text,
                    },
                    outcomes,
                );
            let ready = if known {
                seq![OutcomeView::Session(Some(session))]
            } else {
                seq![
                    OutcomeView::Session(Some(session)),
                    OutcomeView::Conversation(Some(conversation)),
                    OutcomeView::Bound(true),
                ]
            };
            let reloaded = ready.push(OutcomeView::Session(Some(again)));
            let locked = reloaded.push(OutcomeView::Locked);
            &&& next(Some(follow_up), ready) == HandlingView::<()>::Do(
                TaskView::LoadSession { owner_user_id: owner, session_id },
            )
            &&& next(Some(follow_up), reloaded) == HandlingView::<()>::Do(
                TaskView::Lock { key: owner + ":"@ + conversation },
            )
            &&& next(Some(follow_up), locked) == HandlingView::<()>::Do(
                TaskView::MarkTurn {
                    owner_user_id: owner,
                    conversation_id: conversation,
                    text: follow_up,
                    target: ChannelMirrorTargetRefView {
                        platform: msg.platform,
                        chat_id: msg.chat_id,
                        platform_user_id: Some(msg.user.id),
                    },
                },
            )
            &&& next(Some(follow_up), locked.push(OutcomeView::Marked)) == HandlingView::<()>::Do(
                TaskView::SendToAgent {
                    owner_user_id: owner,
                    session_id: again.id,
                    text: follow_up,
                    platform: msg.platform,
                },
            )
            &&& response.text is None ==> next(None, ready) is Done
            &&& response.text == Some(said) ==> next(None, ready) == HandlingView::<()>::Do(
                TaskView::Format { text: said, platform: msg.platform },
            )
            &&& response.text == Some(said) && response.behavior != ActionBehavior::Edit ==> {
                let shown = ready.push(OutcomeView::Formatted(formatted));
                let delivered = shown.push(OutcomeView::Delivered(Some(receipt)));
                &&& next(None, shown) matches HandlingView::Do(
                    TaskView::Send { owner_user_id, plugin_id, chat_id, message },
                ) && {
                    &&& owner_user_id == owner
                    &&& plugin_id == msg.platform.name()
                    &&& chat_id == msg.chat_id
                    &&& says(message, formatted)
                    &&& message.buttons == response.buttons
                }
                &&& next(None, shown.push(OutcomeView::Delivered(None))) is Done
                &&& next(None, delivered) == HandlingView::<()>::Do(
                    TaskView::RecordRoute {
                        owner_user_id: owner,
                        route: ConversationRouteView {
                            conversation_id: conversation,
                            platform_type: msg.platform.name(),
                            chat_id: msg.chat_id,
                            message_id: receipt.message_id,
                            preview_text: Some(said),
                            sent_at: receipt.completed_at,
                            delivery_started_at: Some(receipt.started_at),
                            delivery_completed_at: Some(receipt.completed_at),
                        },
                    },
                )
                &&& next(None, delivered.push(OutcomeView::Recorded)) is Done
            }
            &&& response.text == Some(said) && response.behavior == ActionBehavior::Edit ==> {
                let shown = ready.push(OutcomeView::Formatted(formatted));
                let times = (receipt.started_at, receipt.completed_at);
                let edited = shown.push(OutcomeView::Edited(Some(times)));
                &&& response.edit_message_id is None ==> next(None, shown) is Done
                &&& response.edit_message_id == Some(receipt.message_id) ==> {
                    &&& next(None, shown) matches HandlingView::Do(
                        TaskView::Edit { owner_user_id, plugin_id, chat_id, message_id, message },
                    ) && {
                        &&& owner_user_id == owner
                        &&& plugin_id == msg.platform.name()
                        &&& chat_id == msg.chat_id
                        &&& message_id == receipt.message_id
                        &&& says(message, formatted)
                        &&& message.buttons == response.buttons
                    }
                    &&& next(None, shown.push(OutcomeView::Edited(None))) is Done
                    &&& next(None, edited) == HandlingView::<()>::Do(
                        TaskView::RecordRoute {
                            owner_user_id: owner,
                            route: ConversationRouteView {
                                conversation_id: conversation,
                                platform_type: msg.platform.name(),
                                chat_id: msg.chat_id,
                                message_id: receipt.message_id,
                                preview_text: Some(said),
                                sent_at: receipt.completed_at,
                                delivery_started_at: Some(receipt.started_at),
                                delivery_completed_at: Some(receipt.completed_at),
                            },
                        },
                    )
                }
            }
        }),
{
    types::platform_of_its_name(msg.platform);
}

/// Whenever the agent is to get a text, it gets it for the session that was loaded last, with the
/// owner, the text and the platform that were dispatched.
pub proof fn agent_gets_the_text_for_the_loaded_session(
    d: DispatchView,
    outcomes: Seq<OutcomeView>,
    at: int,
)
    requires
        0 <= at <= outcomes.len(),
    ensures
        dispatch_flow(d, outcomes, at) matches HandlingView::Do(
            TaskView::SendToAgent { owner_user_id, session_id, text, platform },
        ) ==> {
            &&& at < outcomes.len()
            &&& outcomes[at] matches OutcomeView::Session(Some(session))
            &&& session_id == session.id
            &&& owner_user_id == d.owner_user_id
            &&& text == d.text
            &&& platform == d.platform
        },
{
}

/// A message that is already being handled asks for nothing.
pub proof fn nothing_is_done_twice(
    executor_owner: Option<Seq<char>>,
    msg: UnifiedIncomingMessageView,
    outcomes: Seq<OutcomeView>,
)
    ensures
        handle_flow(executor_owner, msg, MessageResultView::AlreadyProcessing, outcomes) is Done,
{
}

/// A response for a plugin whose platform is not known is sent as it stands, without a way to parse it.
pub proof fn unknown_plugin_gets_the_text_as_it_stands(
    owner: Seq<char>,
    plugin_id: Seq<char>,
    chat_id: Seq<char>,
    response: ActionResponseView,
    said: Seq<char>,
)
    requires
        forall|platform: PluginType| #[trigger] platform.name() != plugin_id,
        response.text == Some(said),
        response.behavior != ActionBehavior::Edit,
    ensures
        respond_flow(owner, plugin_id, chat_id, response, Seq::empty(), 0) matches HandlingView::Do(
            TaskView::Send { owner_user_id, plugin_id: through, chat_id: to, message },
        ) && {
            &&& owner_user_id == owner
            &&& through == plugin_id
            &&& to == chat_id
            &&& says(message, said)
            &&& message.buttons == response.buttons
            &&& message.keyboard == response.keyboard
            &&& message.parse_mode is None
        },
{
}

/// A dispatched text keeps to where it came from and goes to: whatever is asked on its way, it is asked
/// for its owner and its session; what is sent goes to its plugin and its chat; what is recorded leads
/// from its chat; and what is marked, relayed or given to the agent is its text.
pub proof fn dispatch_keeps_to_its_text(d: DispatchView, outcomes: Seq<OutcomeView>, at: int)
    requires
        0 <= at <= outcomes.len(),
    ensures
        dispatch_flow(d, outcomes, at) matches HandlingView::Do(task) ==> match task {
            TaskView::LoadSession { owner_user_id, session_id } => owner_user_id == d.owner_user_id
                && session_id == d.session_id,
            TaskView::Lock { key } => key.len() > d.owner_user_id.len() && key.take(
                d.owner_user_id.len() as int,
            ) == d.owner_user_id && (d.conversation_id matches Some(id) ==> key == d.owner_user_id
                + ":"@ + id),
            TaskView::MarkTurn { owner_user_id, conversation_id, text, target } => {
                &&& owner_user_id == d.owner_user_id
                &&& d.conversation_id == Some(conversation_id)
                &&& text == d.text
                &&& target.platform == d.platform
                &&& target.chat_id == d.chat_id
                &&& target.platform_user_id == Some(d.platform_user_id)
            },
            TaskView::SendToAgent { owner_user_id, text, platform, .. } => owner_user_id
                == d.owner_user_id && text == d.text && platform == d.platform,
            TaskView::BindConversation { owner_user_id, session_id, conversation_id } => {
                &&& owner_user_id == d.owner_user_id
                &&& session_id == d.session_id
                &&& d.conversation_id is None
                &&& outcomes.last() matches OutcomeView::Accepted { conversation_id: taken_into, .. }
                    && taken_into == conversation_id
            },
            TaskView::Relay { config } => {
                &&& config.owner_user_id == d.owner_user_id
                &&& config.session_id == d.session_id
                &&& config.platform == d.platform
                &&& config.plugin_id == d.plugin_id
                &&& config.chat_id == d.chat_id
                &&& config.prompt_text == d.text
            },
            TaskView::Send { owner_user_id, plugin_id, chat_id, message } => {
                &&& owner_user_id == d.owner_user_id
                &&& plugin_id == d.plugin_id
                &&& chat_id == d.chat_id
                &&& outcomes.last() matches OutcomeView::Refused(reason) && says(
                    message,
                    "\u{274c} 处理失败："@ + reason,
                )
            },
            TaskView::RecordRoute { owner_user_id, route } => {
                &&& owner_user_id == d.owner_user_id
                &&& route.platform_type == d.platform.name()
                &&& route.chat_id == d.chat_id
                &&& d.conversation_id matches Some(id) ==> route.conversation_id == id
                &&& outcomes.last() matches OutcomeView::Delivered(Some(receipt)) && route.message_id
                    == receipt.message_id
            },
            TaskView::RecordReplyRoute {
                owner_user_id,
                session_id,
                platform_type,
                chat_id,
                message_id,
            } => {
                &&& owner_user_id == d.owner_user_id
                &&& session_id == d.session_id
                &&& platform_type == d.platform.name()
                &&& chat_id == d.chat_id
                &&& d.conversation_id is None
                &&& outcomes.last() matches OutcomeView::Delivered(Some(receipt)) && message_id
                    == receipt.message_id
            },
            _ => false,
        },
{
    reveal_strlit(":");
    if let HandlingView::Do(TaskView::Lock { key }) = dispatch_flow(d, outcomes, at) {
        assert(key.take(d.owner_user_id.len() as int) =~= d.owner_user_id);
    }
}

/// A response keeps to the plugin and the chat that it is for: what is sent or edited goes there, says
/// the response's text or what the platform made of it, and has the response's buttons and keyboard.
pub proof fn response_keeps_to_its_chat(
    owner: Seq<char>,
    plugin_id: Seq<char>,
    chat_id: Seq<char>,
    response: ActionResponseView,
    outcomes: Seq<OutcomeView>,
    at: int,
)
    requires
        0 <= at <= outcomes.len(),
    ensures
        respond_flow(owner, plugin_id, chat_id, response, outcomes, at) matches HandlingView::Do(task)
            ==> match task {
            TaskView::Format { text, platform } => response.text == Some(text) && platform.name()
                == plugin_id,
            TaskView::Send { owner_user_id, plugin_id: through, chat_id: to, message } => {
                &&& response.behavior != ActionBehavior::Edit
                &&& owner_user_id == owner
                &&& through == plugin_id
                &&& to == chat_id
                &&& message.buttons == response.buttons
                &&& message.keyboard == response.keyboard
                &&& message.text == response.text || (at < outcomes.len() && outcomes.last()
                    == OutcomeView::Formatted(message.text->Some_0) && message.text is Some)
            },
            TaskView::Edit { owner_user_id, plugin_id: through, chat_id: to, message_id, message } => {
                &&& response.behavior == ActionBehavior::Edit
                &&& response.edit_message_id == Some(message_id)
                &&& owner_user_id == owner
                &&& through == plugin_id
                &&& to == chat_id
                &&& message.buttons == response.buttons
                &&& message.keyboard == response.keyboard
                &&& message.text == response.text || (at < outcomes.len() && outcomes.last()
                    == OutcomeView::Formatted(message.text->Some_0) && message.text is Some)
            },
            _ => false,
        },
{
}

} // verus!
