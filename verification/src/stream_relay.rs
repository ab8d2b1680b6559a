//! Relaying an agent's stream to a chat.
//!
//! A relay is a state machine. It names the next thing to do, is told how that went, and names the
//! next one, until there is nothing left to do. Platforms that can edit a message get a placeholder
//! that grows; the others get the whole answer at the end.

use vstd::prelude::*;
use vstd::string::*;

use crate::repository::{ConversationRoute, ConversationRouteView};
use crate::text;
use crate::text::{leading_chars, trimmed};
use crate::types::{
    text_message, text_message_view, ChannelError, OutgoingMessageType, PluginType, UnifiedOutgoingMessage,
    UnifiedOutgoingMessageView,
};

verus! {

// ── Configuration ───────────────────────────────────────────────────

/// Configuration of a stream relay.
#[derive(Debug, Clone, PartialEq, Eq)]
pub struct RelayConfig {
    pub owner_user_id: String,
    pub session_id: String,
    pub conversation_id: String,
    pub platform: PluginType,
    pub plugin_id: String,
    pub chat_id: String,
    /// What the user asked.
    pub prompt_text: String,
    /// The least time between two edits of a growing text.
    pub throttle_ms: u64,
}

/// The mathematical value of a [`RelayConfig`].
#[verifier::ext_equal]
pub struct RelayConfigView {
    pub owner_user_id: Seq<char>,
    pub session_id: Seq<char>,
    pub conversation_id: Seq<char>,
    pub platform: PluginType,
    pub plugin_id: Seq<char>,
    pub chat_id: Seq<char>,
    pub prompt_text: Seq<char>,
    pub throttle_ms: u64,
}

impl DeepView for RelayConfig {
    type V = RelayConfigView;

    open spec fn deep_view(&self) -> RelayConfigView {
        RelayConfigView {
            owner_user_id: self.owner_user_id@,
            session_id: self.session_id@,
            conversation_id: self.conversation_id@,
            platform: self.platform,
            plugin_id: self.plugin_id@,
            chat_id: self.chat_id@,
            prompt_text: self.prompt_text@,
            throttle_ms: self.throttle_ms,
        }
    }
}

/// The least time between two edits of a growing text, which a platform's rate limit decides.
pub open spec fn throttle_ms(platform: PluginType) -> u64 {
    match platform {
        PluginType::Slack => 1200,
        PluginType::Discord => 1000,
        _ => 500,
    }
}

/// The least time between two edits of a growing text.
///
/// Slack and Discord limit edits harder than the other platforms that have them.
pub fn throttle_ms_for_platform(platform: PluginType) -> (r: u64)
    ensures
        r == throttle_ms(platform),
{
    match platform {
        PluginType::Slack => 1200,
        PluginType::Discord => 1000,
        _ => 500,
    }
}

/// Whether a platform cannot edit a message, so that its relay sends one final answer.
pub open spec fn sends_once(platform: PluginType) -> bool {
    platform == PluginType::Weixin || platform == PluginType::Wecom
}

/// Whether a platform cannot edit a message, so that its relay sends one final answer.
pub fn is_weixin_platform(platform: PluginType) -> (r: bool)
    ensures
        r == sends_once(platform),
{
    match platform {
        PluginType::Weixin => true,
        PluginType::Wecom => true,
        _ => false,
    }
}

// ── Sending ─────────────────────────────────────────────────────────

/// What a platform says of a delivered message.
#[derive(Debug, PartialEq, Eq)]
pub struct ChannelDeliveryReceipt {
    pub message_id: String,
    pub started_at: i64,
    pub completed_at: i64,
}

/// The mathematical value of a [`ChannelDeliveryReceipt`].
#[verifier::ext_equal]
pub struct ChannelDeliveryReceiptView {
    pub message_id: Seq<char>,
    pub started_at: i64,
    pub completed_at: i64,
}

impl DeepView for ChannelDeliveryReceipt {
    type V = ChannelDeliveryReceiptView;

    open spec fn deep_view(&self) -> ChannelDeliveryReceiptView {
        ChannelDeliveryReceiptView {
            message_id: self.message_id@,
            started_at: self.started_at,
            completed_at: self.completed_at,
        }
    }
}

impl Clone for ChannelDeliveryReceipt {
    fn clone(&self) -> (r: Self)
        ensures
            r.deep_view() == self.deep_view(),
    {
        ChannelDeliveryReceipt {
            message_id: self.message_id.clone(),
            started_at: self.started_at,
            completed_at: self.completed_at,
        }
    }
}

/// Sends and edits messages through a channel plugin.
pub trait ChannelSender {
    /// Sends a new message to a chat.
    fn send_message(
        &mut self,
        owner_user_id: &str,
        plugin_id: &str,
        chat_id: &str,
        message: UnifiedOutgoingMessage,
    ) -> Result<ChannelDeliveryReceipt, ChannelError>;

    /// Puts a message in place of an earlier one.
    fn edit_message(
        &mut self,
        owner_user_id: &str,
        plugin_id: &str,
        chat_id: &str,
        message_id: &str,
        message: UnifiedOutgoingMessage,
    ) -> Result<(), ChannelError>;
}

/// Records what is sent and edited.
#[derive(Debug)]
pub struct MessageRecorder {
    sends: Vec<UnifiedOutgoingMessage>,
    edits: Vec<UnifiedOutgoingMessage>,
}

impl MessageRecorder {
    /// The messages sent since they were last taken, in order.
    pub closed spec fn sent(&self) -> Seq<UnifiedOutgoingMessageView> {
        self.sends.deep_view()
    }

    /// The edits made since they were last taken, in order.
    pub closed spec fn edited(&self) -> Seq<UnifiedOutgoingMessageView> {
        self.edits.deep_view()
    }

    /// A recorder of nothing yet.
    pub fn new() -> (r: Self)
        ensures
            r.sent() == Seq::<UnifiedOutgoingMessageView>::empty(),
            r.edited() == Seq::<UnifiedOutgoingMessageView>::empty(),
    {
        let r = MessageRecorder { sends: Vec::new(), edits: Vec::new() };
        assert(r.sent() =~= Seq::empty());
        assert(r.edited() =~= Seq::empty());
        r
    }

    /// Hands out the recorded messages and forgets them.
    pub fn take_sends(&mut self) -> (r: Vec<UnifiedOutgoingMessage>)
        ensures
            r.deep_view() == old(self).sent(),
            final(self).sent() == Seq::<UnifiedOutgoingMessageView>::empty(),
            final(self).edited() == old(self).edited(),
    {
        let mut taken: Vec<UnifiedOutgoingMessage> = Vec::new();
        std::mem::swap(&mut taken, &mut self.sends);
        assert(self.sent() =~= Seq::empty());
        taken
    }

    /// Hands out the recorded edits and forgets them.
    pub fn take_edits(&mut self) -> (r: Vec<UnifiedOutgoingMessage>)
        ensures
            r.deep_view() == old(self).edited(),
            final(self).edited() == Seq::<UnifiedOutgoingMessageView>::empty(),
            final(self).sent() == old(self).sent(),
    {
        let mut taken: Vec<UnifiedOutgoingMessage> = Vec::new();
        std::mem::swap(&mut taken, &mut self.edits);
        assert(self.edited() =~= Seq::empty());
        taken
    }
}

impl Default for MessageRecorder {
    fn default() -> (r: Self)
        ensures
            r.sent() == Seq::<UnifiedOutgoingMessageView>::empty(),
            r.edited() == Seq::<UnifiedOutgoingMessageView>::empty(),
    {
        MessageRecorder::new()
    }
}

/// The receipt that a recorder gives for every message.
pub open spec fn recorder_receipt() -> ChannelDeliveryReceiptView {
    ChannelDeliveryReceiptView { message_id: "msg-1"@, started_at: 1, completed_at: 2 }
}

impl ChannelSender for MessageRecorder {
    fn send_message(
        &mut self,
        _owner_user_id: &str,
        _plugin_id: &str,
        _chat_id: &str,
        message: UnifiedOutgoingMessage,
    ) -> (r: Result<ChannelDeliveryReceipt, ChannelError>)
        ensures
            r matches Ok(receipt) && receipt.deep_view() == recorder_receipt(),
            final(self).sent() == old(self).sent().push(message.deep_view()),
            final(self).edited() == old(self).edited(),
    {
        self.sends.push(message);
        assert(self.sent() =~= old(self).sent().push(message.deep_view()));
        Ok(ChannelDeliveryReceipt { message_id: "msg-1".to_owned(), started_at: 1, completed_at: 2 })
    }

    fn edit_message(
        &mut self,
        _owner_user_id: &str,
        _plugin_id: &str,
        _chat_id: &str,
        _message_id: &str,
        message: UnifiedOutgoingMessage,
    ) -> (r: Result<(), ChannelError>)
        ensures
            r is Ok,
            final(self).edited() == old(self).edited().push(message.deep_view()),
            final(self).sent() == old(self).sent(),
    {
        self.edits.push(message);
        assert(self.edited() =~= old(self).edited().push(message.deep_view()));
        Ok(())
    }
}

// ── What a relay hears and does ─────────────────────────────────────

/// What an event of the agent's stream means to a chat.
#[derive(Debug, Clone, PartialEq, Eq)]
pub enum StreamAction {
    /// More of the answer.
    AppendText(String),
    /// The agent is thinking.
    Thinking(String),
    /// The agent calls a tool.
    ToolCall {
        name: String,
    },
    /// The agent has finished, though its turn may go on.
    Finish,
    /// The agent has failed.
    Error(String),
}

/// The mathematical value of a [`StreamAction`].
#[verifier::ext_equal]
pub enum StreamActionView {
    AppendText(Seq<char>),
    Thinking(Seq<char>),
    ToolCall {
        name: Seq<char>,
    },
    Finish,
    Error(Seq<char>),
}

impl DeepView for StreamAction {
    type V = StreamActionView;

    open spec fn deep_view(&self) -> StreamActionView {
        match self {
            StreamAction::AppendText(value) => StreamActionView::AppendText(value@),
            StreamAction::Thinking(value) => StreamActionView::Thinking(value@),
            StreamAction::ToolCall { name } => StreamActionView::ToolCall {
                name: name@,
            },
            StreamAction::Finish => StreamActionView::Finish,
            StreamAction::Error(value) => StreamActionView::Error(value@),
        }
    }
}

/// What listening to the agent's stream brought.
#[derive(Debug, Clone, PartialEq, Eq)]
pub enum Heard {
    /// An event, which may mean nothing to a chat.
    Event(Option<StreamAction>),
    /// Events were lost.
    Lagged,
    /// The stream is closed.
    Closed,
    /// There is no event yet.
    Empty,
    /// The turn is over.
    Released,
}

/// The mathematical value of a [`Heard`].
#[verifier::ext_equal]
pub enum HeardView {
    Event(Option<StreamActionView>),
    Lagged,
    Closed,
    Empty,
    Released,
}

impl DeepView for Heard {
    type V = HeardView;

    open spec fn deep_view(&self) -> HeardView {
        match self {
            Heard::Event(value) => HeardView::Event(value.deep_view()),
            Heard::Lagged => HeardView::Lagged,
            Heard::Closed => HeardView::Closed,
            Heard::Empty => HeardView::Empty,
            Heard::Released => HeardView::Released,
        }
    }
}

/// How the last action of a relay went.
#[derive(Debug, Clone, PartialEq, Eq)]
pub enum RelayEvent {
    /// A message was sent, unless there is no receipt.
    Delivered(Option<ChannelDeliveryReceipt>),
    /// An edit was made or failed. Now it is `now_ms`.
    Edited {
        now_ms: u64,
    },
    /// A route was recorded or was not.
    Recorded,
    /// The text as the platform wants it.
    Formatted(String),
    /// Listening brought something. Now it is `now_ms`.
    Heard {
        heard: Heard,
        now_ms: u64,
    },
}

/// The mathematical value of a [`RelayEvent`].
#[verifier::ext_equal]
pub enum RelayEventView {
    Delivered(Option<ChannelDeliveryReceiptView>),
    Edited {
        now_ms: u64,
    },
    Recorded,
    Formatted(Seq<char>),
    Heard {
        heard: HeardView,
        now_ms: u64,
    },
}

impl DeepView for RelayEvent {
    type V = RelayEventView;

    open spec fn deep_view(&self) -> RelayEventView {
        match self {
            RelayEvent::Delivered(value) => RelayEventView::Delivered(value.deep_view()),
            RelayEvent::Edited { now_ms } => RelayEventView::Edited {
                now_ms: *now_ms,
            },
            RelayEvent::Recorded => RelayEventView::Recorded,
            RelayEvent::Formatted(value) => RelayEventView::Formatted(value@),
            RelayEvent::Heard { heard, now_ms } => RelayEventView::Heard {
                heard: heard.deep_view(),
                now_ms: *now_ms,
            },
        }
    }
}

/// Where a relay delivers to: a chat of an owner's plugin.
#[derive(Debug, Clone, PartialEq, Eq)]
pub struct RelayTarget {
    pub owner_user_id: String,
    pub plugin_id: String,
    pub chat_id: String,
}

/// The mathematical value of a [`RelayTarget`].
#[verifier::ext_equal]
pub struct RelayTargetView {
    pub owner_user_id: Seq<char>,
    pub plugin_id: Seq<char>,
    pub chat_id: Seq<char>,
}

impl DeepView for RelayTarget {
    type V = RelayTargetView;

    open spec fn deep_view(&self) -> RelayTargetView {
        RelayTargetView {
            owner_user_id: self.owner_user_id@,
            plugin_id: self.plugin_id@,
            chat_id: self.chat_id@,
        }
    }
}

/// What a relay wants done next.
#[derive(Debug, Clone, PartialEq, Eq)]
pub enum RelayAction {
    /// Wait for the next event of the stream.
    Receive,
    /// Take the next event of the stream if there is one.
    TryReceive,
    /// Wait for the next event of the stream or the end of the turn.
    AwaitTurn {
        conversation_id: String,
    },
    /// Format a text for the platform.
    Format {
        text: String,
        platform: PluginType,
    },
    /// Send the placeholder.
    SendThinking {
        target: RelayTarget,
    },
    /// Send the finished answer.
    SendFinal {
        target: RelayTarget,
        text: String,
    },
    /// Send a message as it is.
    Send {
        target: RelayTarget,
        message: UnifiedOutgoingMessage,
    },
    /// Put a text that still grows into a message.
    EditStreaming {
        target: RelayTarget,
        message_id: String,
        text: String,
    },
    /// Put the finished answer into a message.
    EditFinal {
        target: RelayTarget,
        message_id: String,
        text: String,
    },
    /// Put a message as it is in place of another.
    Edit {
        target: RelayTarget,
        message_id: String,
        message: UnifiedOutgoingMessage,
    },
    /// Record a delivered message as a target for replies.
    Record {
        owner_user_id: String,
        route: ConversationRoute,
    },
    /// Nothing: the relay has ended.
    Stop,
    /// Nothing: what the relay was told does not answer what it wanted.
    Unexpected,
}

/// The mathematical value of a [`RelayAction`].
#[verifier::ext_equal]
pub enum RelayActionView {
    Receive,
    TryReceive,
    AwaitTurn {
        conversation_id: Seq<char>,
    },
    Format {
        text: Seq<char>,
        platform: PluginType,
    },
    SendThinking {
        target: RelayTargetView,
    },
    SendFinal {
        target: RelayTargetView,
        text: Seq<char>,
    },
    Send {
        target: RelayTargetView,
        message: UnifiedOutgoingMessageView,
    },
    EditStreaming {
        target: RelayTargetView,
        message_id: Seq<char>,
        text: Seq<char>,
    },
    EditFinal {
        target: RelayTargetView,
        message_id: Seq<char>,
        text: Seq<char>,
    },
    Edit {
        target: RelayTargetView,
        message_id: Seq<char>,
        message: UnifiedOutgoingMessageView,
    },
    Record {
        owner_user_id: Seq<char>,
        route: ConversationRouteView,
    },
    Stop,
    Unexpected,
}

impl DeepView for RelayAction {
    type V = RelayActionView;

    open spec fn deep_view(&self) -> RelayActionView {
        match self {
            RelayAction::Receive => RelayActionView::Receive,
            RelayAction::TryReceive => RelayActionView::TryReceive,
            RelayAction::AwaitTurn { conversation_id } => RelayActionView::AwaitTurn {
                conversation_id: conversation_id@,
            },
            RelayAction::Format { text, platform } => RelayActionView::Format {
                text: text@,
                platform: *platform,
            },
            RelayAction::SendThinking { target } => RelayActionView::SendThinking {
                target: target.deep_view(),
            },
            RelayAction::SendFinal { target, text } => RelayActionView::SendFinal {
                target: target.deep_view(),
                text: text@,
            },
            RelayAction::Send { target, message } => RelayActionView::Send {
                target: target.deep_view(),
                message: message.deep_view(),
            },
            RelayAction::EditStreaming { target, message_id, text } => RelayActionView::EditStreaming {
                target: target.deep_view(),
                message_id: message_id@,
                text: text@,
            },
            RelayAction::EditFinal { target, message_id, text } => RelayActionView::EditFinal {
                target: target.deep_view(),
                message_id: message_id@,
                text: text@,
            },
            RelayAction::Edit { target, message_id, message } => RelayActionView::Edit {
                target: target.deep_view(),
                message_id: message_id@,
                message: message.deep_view(),
            },
            RelayAction::Record { owner_user_id, route } => RelayActionView::Record {
                owner_user_id: owner_user_id@,
                route: route.deep_view(),
            },
            RelayAction::Stop => RelayActionView::Stop,
            RelayAction::Unexpected => RelayActionView::Unexpected,
        }
    }
}

/// What a relay is waiting for.
#[derive(Debug, PartialEq, Eq)]
pub enum Phase {
    /// The placeholder to be sent.
    Opening,
    /// The placeholder's route to be recorded.
    RecordingOpening,
    /// The next event.
    Receiving,
    /// The next event, after the agent has finished.
    Polling,
    /// The next event or the end of the turn, after the agent has finished.
    Awaiting,
    /// A growing text to be formatted.
    FormattingStream,
    /// An edit, whose time counts for the throttle where it is `timed`.
    Editing {
        timed: bool,
    },
    /// The answer to be formatted.
    FormattingFinal {
        record: bool,
    },
    /// The last message, which is to be recorded with the preview.
    Concluding {
        preview: Option<String>,
    },
    /// The last message's route to be recorded.
    RecordingEnd,
    /// Nothing.
    Finished,
}

/// The mathematical value of a [`Phase`].
#[verifier::ext_equal]
pub enum PhaseView {
    Opening,
    RecordingOpening,
    Receiving,
    Polling,
    Awaiting,
    FormattingStream,
    Editing {
        timed: bool,
    },
    FormattingFinal {
        record: bool,
    },
    Concluding {
        preview: Option<Seq<char>>,
    },
    RecordingEnd,
    Finished,
}

impl DeepView for Phase {
    type V = PhaseView;

    open spec fn deep_view(&self) -> PhaseView {
        match self {
            Phase::Opening => PhaseView::Opening,
            Phase::RecordingOpening => PhaseView::RecordingOpening,
            Phase::Receiving => PhaseView::Receiving,
            Phase::Polling => PhaseView::Polling,
            Phase::Awaiting => PhaseView::Awaiting,
            Phase::FormattingStream => PhaseView::FormattingStream,
            Phase::Editing { timed } => PhaseView::Editing {
                timed: *timed,
            },
            Phase::FormattingFinal { record } => PhaseView::FormattingFinal {
                record: *record,
            },
            Phase::Concluding { preview } => PhaseView::Concluding {
                preview: preview.deep_view(),
            },
            Phase::RecordingEnd => PhaseView::RecordingEnd,
            Phase::Finished => PhaseView::Finished,
        }
    }
}

// ── The model ───────────────────────────────────────────────────────

/// The state of a relay.
#[verifier::ext_equal]
pub struct RelayView {
    pub config: RelayConfigView,
    /// Whether delivered messages are recorded as targets for replies.
    pub records: bool,
    /// Whether a turn is waited out after the agent has finished.
    pub awaits: bool,
    pub phase: PhaseView,
    /// The answer so far.
    pub text: Seq<char>,
    pub has_content: bool,
    pub last_edit: Option<u64>,
    /// The receipt of the placeholder.
    pub receipt: Option<ChannelDeliveryReceiptView>,
}

/// A relay before its first action.
pub open spec fn fresh(config: RelayConfigView, records: bool, awaits: bool) -> RelayView {
    RelayView {
        config,
        records,
        awaits,
        phase: PhaseView::Finished,
        text: Seq::empty(),
        has_content: false,
        last_edit: None,
        receipt: None,
    }
}

/// How a quoted message of the relay's conversation begins: the question and the answer, cut.
pub open spec fn route_preview(prompt: Seq<char>, answer: Seq<char>) -> Seq<char> {
    text::first_chars("你："@ + text::trim(prompt) + "\n\nAI："@ + text::trim(answer), 240)
}

/// The text that reports an error.
pub open spec fn error_text(message: Seq<char>) -> Seq<char> {
    "\u{274c} "@ + message
}

/// The text that reports a tool call.
pub open spec fn tool_text(name: Seq<char>) -> Seq<char> {
    "\u{23f3} "@ + name + "..."@
}

impl RelayView {
    /// Whether the relay sends one final answer instead of editing a placeholder.
    pub open spec fn once(self) -> bool {
        sends_once(self.config.platform)
    }

    /// The chat that the relay delivers to.
    pub open spec fn target(self) -> RelayTargetView {
        RelayTargetView {
            owner_user_id: self.config.owner_user_id,
            plugin_id: self.config.plugin_id,
            chat_id: self.config.chat_id,
        }
    }

    /// Formats the answer so far for the relay's platform.
    pub open spec fn formatting(self) -> RelayActionView {
        RelayActionView::Format { text: self.text, platform: self.config.platform }
    }

    /// Records the route of a delivered message.
    pub open spec fn recording(
        self,
        receipt: ChannelDeliveryReceiptView,
        preview: Option<Seq<char>>,
    ) -> RelayActionView {
        RelayActionView::Record {
            owner_user_id: self.config.owner_user_id,
            route: self.route(receipt, preview),
        }
    }

    /// The relay waiting for something else.
    pub open spec fn in_phase(self, phase: PhaseView) -> RelayView {
        RelayView { phase, ..self }
    }

    /// The id of the placeholder.
    pub open spec fn placeholder(self) -> Seq<char> {
        match self.receipt {
            Some(receipt) => receipt.message_id,
            None => Seq::empty(),
        }
    }

    /// Whether there is a placeholder wherever the relay needs one, and no thought of one where it
    /// has none.
    pub open spec fn well_formed(self) -> bool {
        if self.once() {
            self.phase !is Opening && self.phase !is RecordingOpening && self.phase
                !is FormattingStream && self.phase !is Editing
        } else {
            self.receipt is Some || self.phase is Opening || self.phase is Finished
        }
    }

    /// The route of a delivered message.
    pub open spec fn route(
        self,
        receipt: ChannelDeliveryReceiptView,
        preview: Option<Seq<char>>,
    ) -> ConversationRouteView {
        ConversationRouteView {
            conversation_id: self.config.conversation_id,
            platform_type: self.config.platform.name(),
            chat_id: self.config.chat_id,
            message_id: receipt.message_id,
            preview_text: preview,
            sent_at: receipt.completed_at,
            delivery_started_at: Some(receipt.started_at),
            delivery_completed_at: Some(receipt.completed_at),
        }
    }

    /// Whether enough time has gone by since the last edit of a growing text.
    pub open spec fn is_due(self, now_ms: u64) -> bool {
        match self.last_edit {
            None => true,
            Some(last) => self.config.throttle_ms == 0 || now_ms - last >= self.config.throttle_ms,
        }
    }

    /// Whether there is an answer to end with.
    pub open spec fn has_answer(self) -> bool {
        self.has_content && (self.once() ==> text::trim(self.text).len() > 0)
    }
}

/// Waits for the next event.
pub open spec fn receiving(relay: RelayView) -> (RelayView, RelayActionView) {
    (relay.in_phase(PhaseView::Receiving), RelayActionView::Receive)
}

/// Ends.
pub open spec fn stopping(relay: RelayView) -> (RelayView, RelayActionView) {
    (relay.in_phase(PhaseView::Finished), RelayActionView::Stop)
}

/// Begins: with a placeholder where it can be edited later.
pub open spec fn starting(relay: RelayView) -> (RelayView, RelayActionView) {
    if relay.once() {
        receiving(relay)
    } else {
        (
            relay.in_phase(PhaseView::Opening),
            RelayActionView::SendThinking { target: relay.target() },
        )
    }
}

/// Ends with the answer, if there is one.
pub open spec fn concluding(relay: RelayView, record: bool) -> (RelayView, RelayActionView) {
    if relay.has_answer() {
        (
            relay.in_phase(PhaseView::FormattingFinal { record }),
            relay.formatting(),
        )
    } else {
        stopping(relay)
    }
}

/// Ends, with the last message recorded.
pub open spec fn recording_end(
    relay: RelayView,
    receipt: ChannelDeliveryReceiptView,
    preview: Option<Seq<char>>,
) -> (RelayView, RelayActionView) {
    if relay.records && preview is Some {
        (
            relay.in_phase(PhaseView::RecordingEnd),
            relay.recording(receipt, preview),
        )
    } else {
        stopping(relay)
    }
}

/// What an event of the stream leads to.
pub open spec fn on_stream(
    relay: RelayView,
    action: Option<StreamActionView>,
    now_ms: u64,
) -> (RelayView, RelayActionView) {
    match action {
        None => receiving(relay),
        Some(StreamActionView::Thinking(_)) => receiving(relay),
        Some(StreamActionView::AppendText(chunk)) => {
            let grown = RelayView { text: relay.text + chunk, has_content: true, ..relay };
            if !relay.once() && relay.is_due(now_ms) {
                (grown.in_phase(PhaseView::FormattingStream), grown.formatting())
            } else {
                receiving(grown)
            }
        },
        Some(StreamActionView::ToolCall { name }) => if relay.once() {
            receiving(relay)
        } else {
            (
                relay.in_phase(PhaseView::Editing { timed: false }),
                RelayActionView::EditStreaming {
                    target: relay.target(),
                    message_id: relay.placeholder(),
                    text: tool_text(name),
                },
            )
        },
        Some(StreamActionView::Finish) => if relay.awaits {
            (relay.in_phase(PhaseView::Polling), RelayActionView::TryReceive)
        } else {
            concluding(relay, true)
        },
        Some(StreamActionView::Error(message)) => {
            let preview = Some(route_preview(relay.config.prompt_text, error_text(message)));
            let reported = text_message_view(error_text(message));
            (
                relay.in_phase(PhaseView::Concluding { preview }),
                if relay.once() {
                    RelayActionView::Send { target: relay.target(), message: reported }
                } else {
                    RelayActionView::Edit {
                        target: relay.target(),
                        message_id: relay.placeholder(),
                        message: reported,
                    }
                },
            )
        },
    }
}

/// What listening to the stream leads to.
pub open spec fn on_heard(relay: RelayView, heard: HeardView, now_ms: u64) -> (
    RelayView,
    RelayActionView,
) {
    match (relay.phase, heard) {
        (PhaseView::Receiving, HeardView::Event(action)) => on_stream(relay, action, now_ms),
        (PhaseView::Receiving, HeardView::Lagged) => receiving(relay),
        (PhaseView::Receiving, HeardView::Closed) => concluding(relay, relay.once()),
        (PhaseView::Polling, HeardView::Event(action)) => on_stream(relay, action, now_ms),
        (PhaseView::Polling, HeardView::Lagged) => (relay, RelayActionView::TryReceive),
        (PhaseView::Polling, HeardView::Closed) => concluding(relay, true),
        (PhaseView::Polling, HeardView::Empty) => (
            relay.in_phase(PhaseView::Awaiting),
            RelayActionView::AwaitTurn { conversation_id: relay.config.conversation_id },
        ),
        (PhaseView::Awaiting, HeardView::Event(action)) => on_stream(relay, action, now_ms),
        (PhaseView::Awaiting, HeardView::Lagged) => (
            relay.in_phase(PhaseView::Polling),
            RelayActionView::TryReceive,
        ),
        (PhaseView::Awaiting, HeardView::Closed) => concluding(relay, true),
        (PhaseView::Awaiting, HeardView::Released) => concluding(relay, true),
        _ => (relay, RelayActionView::Unexpected),
    }
}

/// What a relay ends with once its answer is formatted: the one message, or an edit of the
/// placeholder.
pub open spec fn final_delivery(relay: RelayView, formatted: Seq<char>) -> RelayActionView {
    if relay.once() {
        RelayActionView::SendFinal { target: relay.target(), text: formatted }
    } else {
        RelayActionView::EditFinal {
            target: relay.target(),
            message_id: relay.placeholder(),
            text: formatted,
        }
    }
}

/// What the outcome of the last action leads to.
#[verifier::opaque]
pub open spec fn advanced(relay: RelayView, event: RelayEventView) -> (RelayView, RelayActionView) {
    match (relay.phase, event) {
        (_, RelayEventView::Heard { heard, now_ms }) => on_heard(relay, heard, now_ms),
        (PhaseView::Opening, RelayEventView::Delivered(None)) => stopping(relay),
        (PhaseView::Opening, RelayEventView::Delivered(Some(receipt))) => {
            let opened = RelayView { receipt: Some(receipt), ..relay };
            if relay.records {
                (opened.in_phase(PhaseView::RecordingOpening), relay.recording(receipt, None))
            } else {
                receiving(opened)
            }
        },
        (PhaseView::RecordingOpening, RelayEventView::Recorded) => receiving(relay),
        (PhaseView::FormattingStream, RelayEventView::Formatted(formatted)) => (
            relay.in_phase(PhaseView::Editing { timed: true }),
            RelayActionView::EditStreaming {
                target: relay.target(),
                message_id: relay.placeholder(),
                text: formatted,
            },
        ),
        (PhaseView::Editing { timed }, RelayEventView::Edited { now_ms }) => receiving(
            RelayView {
                last_edit: if timed {
                    Some(now_ms)
                } else {
                    relay.last_edit
                },
                ..relay
            },
        ),
        (PhaseView::FormattingFinal { record }, RelayEventView::Formatted(formatted)) => {
            let preview = if record {
                Some(route_preview(relay.config.prompt_text, formatted))
            } else {
                None
            };
            (
                relay.in_phase(PhaseView::Concluding { preview }),
                final_delivery(relay, formatted),
            )
        },
        (PhaseView::Concluding { preview }, RelayEventView::Delivered(delivered)) => {
            if !relay.once() {
                (relay, RelayActionView::Unexpected)
            } else {
                match delivered {
                    Some(receipt) => recording_end(relay, receipt, preview),
                    None => stopping(relay),
                }
            }
        },
        (PhaseView::Concluding { preview }, RelayEventView::Edited { .. }) => {
            match relay.receipt {
                Some(receipt) => if relay.once() {
                    (relay, RelayActionView::Unexpected)
                } else {
                    recording_end(relay, receipt, preview)
                },
                None => (relay, RelayActionView::Unexpected),
            }
        },
        (PhaseView::RecordingEnd, RelayEventView::Recorded) => stopping(relay),
        _ => (relay, RelayActionView::Unexpected),
    }
}

// ── The relay ───────────────────────────────────────────────────────

/// Relays the events of an agent's stream to a chat.
///
/// On a platform that can edit, it sends a placeholder, puts the growing answer into it no faster
/// than the throttle allows, and ends with the whole answer or an error in it. On the others it
/// sends the whole answer, or an error, once.
#[derive(Debug)]
pub struct ChannelStreamRelay {
    config: RelayConfig,
    records: bool,
    awaits: bool,
    phase: Phase,
    text_buffer: String,
    has_content: bool,
    last_edit: Option<u64>,
    receipt: Option<ChannelDeliveryReceipt>,
}

impl View for ChannelStreamRelay {
    type V = RelayView;

    closed spec fn view(&self) -> RelayView {
        RelayView {
            config: self.config.deep_view(),
            records: self.records,
            awaits: self.awaits,
            phase: self.phase.deep_view(),
            text: self.text_buffer@,
            has_content: self.has_content,
            last_edit: self.last_edit,
            receipt: self.receipt.deep_view(),
        }
    }
}

impl ChannelStreamRelay {
    /// A relay that records no routes and does not wait for the end of a turn.
    pub fn new(config: RelayConfig) -> (r: Self)
        ensures
            r@ == fresh(config.deep_view(), false, false),
    {
        ChannelStreamRelay {
            config,
            records: false,
            awaits: false,
            phase: Phase::Finished,
            text_buffer: String::new(),
            has_content: false,
            last_edit: None,
            receipt: None,
        }
    }

    /// A relay that records what it delivers as targets for replies.
    pub fn with_session_manager(config: RelayConfig) -> (r: Self)
        ensures
            r@ == fresh(config.deep_view(), true, false),
    {
        ChannelStreamRelay {
            config,
            records: true,
            awaits: false,
            phase: Phase::Finished,
            text_buffer: String::new(),
            has_content: false,
            last_edit: None,
            receipt: None,
        }
    }

    /// The relay, waiting for the end of the turn after the agent has finished.
    pub fn with_runtime_state(self) -> (r: Self)
        ensures
            r@ == (RelayView { awaits: true, ..self@ }),
    {
        let mut relay = self;
        relay.awaits = true;
        relay
    }

    /// The configuration.
    pub fn config(&self) -> (r: &RelayConfig)
        ensures
            r.deep_view() == self@.config,
    {
        &self.config
    }

    /// How a quoted message of the conversation begins: the question and the answer, cut.
    pub fn route_preview(&self, assistant_text: &str) -> (r: String)
        ensures
            r@ == route_preview(self@.config.prompt_text, assistant_text@),
    {
        let prompt = trimmed(self.config.prompt_text.as_str());
        let answer = trimmed(assistant_text);
        let whole = "你：".to_owned().concat(prompt.as_str()).concat("\n\nAI：").concat(answer.as_str());
        leading_chars(whole.as_str(), 240)
    }

    fn route(&self, receipt: &ChannelDeliveryReceipt, preview_text: Option<String>) -> (r: ConversationRoute)
        ensures
            r.deep_view() == self@.route(receipt.deep_view(), preview_text.deep_view()),
    {
        ConversationRoute {
            conversation_id: self.config.conversation_id.clone(),
            platform_type: self.config.platform.as_str().to_owned(),
            chat_id: self.config.chat_id.clone(),
            message_id: receipt.message_id.clone(),
            preview_text,
            sent_at: receipt.completed_at,
            delivery_started_at: Some(receipt.started_at),
            delivery_completed_at: Some(receipt.completed_at),
        }
    }

    fn target(&self) -> (r: RelayTarget)
        ensures
            r.deep_view() == self@.target(),
    {
        RelayTarget {
            owner_user_id: self.config.owner_user_id.clone(),
            plugin_id: self.config.plugin_id.clone(),
            chat_id: self.config.chat_id.clone(),
        }
    }

    fn format(&self) -> (r: RelayAction)
        ensures
            r.deep_view() == self@.formatting(),
    {
        RelayAction::Format { text: self.text_buffer.clone(), platform: self.config.platform }
    }

    fn record(&self, receipt: &ChannelDeliveryReceipt, preview: Option<String>) -> (r: RelayAction)
        ensures
            r.deep_view() == self@.recording(receipt.deep_view(), preview.deep_view()),
    {
        RelayAction::Record {
            owner_user_id: self.config.owner_user_id.clone(),
            route: self.route(receipt, preview),
        }
    }

    fn placeholder(&self) -> (r: String)
        ensures
            r@ == self@.placeholder(),
    {
        match &self.receipt {
            Some(receipt) => receipt.message_id.clone(),
            None => String::new(),
        }
    }

    fn is_due(&self, now_ms: u64) -> (r: bool)
        ensures
            r == self@.is_due(now_ms),
    {
        match self.last_edit {
            None => true,
            Some(last) => {
                self.config.throttle_ms == 0 || (now_ms >= last && now_ms - last
                    >= self.config.throttle_ms)
            },
        }
    }

    fn receive(&mut self) -> (r: RelayAction)
        ensures
            (final(self)@, r.deep_view()) == receiving(old(self)@),
    {
        self.phase = Phase::Receiving;
        RelayAction::Receive
    }

    fn stop(&mut self) -> (r: RelayAction)
        ensures
            (final(self)@, r.deep_view()) == stopping(old(self)@),
    {
        self.phase = Phase::Finished;
        RelayAction::Stop
    }

    fn conclude(&mut self, record: bool) -> (r: RelayAction)
        ensures
            (final(self)@, r.deep_view()) == concluding(old(self)@, record),
    {
        let once = is_weixin_platform(self.config.platform);
        let blank = trimmed(self.text_buffer.as_str()).as_str().is_empty();
        if self.has_content && !(once && blank) {
            self.phase = Phase::FormattingFinal { record };
            self.format()
        } else {
            self.stop()
        }
    }

    fn record_end(&mut self, receipt: &ChannelDeliveryReceipt, preview: Option<String>) -> (r: RelayAction)
        ensures
            (final(self)@, r.deep_view()) == recording_end(
                old(self)@,
                receipt.deep_view(),
                preview.deep_view(),
            ),
    {
        if self.records && preview.is_some() {
            let action = self.record(receipt, preview);
            self.phase = Phase::RecordingEnd;
            action
        } else {
            self.stop()
        }
    }

    fn hear_event(&mut self, action: Option<StreamAction>, now_ms: u64) -> (r: RelayAction)
        ensures
            (final(self)@, r.deep_view()) == on_stream(old(self)@, action.deep_view(), now_ms),
    {
        let once = is_weixin_platform(self.config.platform);
        match action {
            None => self.receive(),
            Some(StreamAction::Thinking(_)) => self.receive(),
            Some(StreamAction::AppendText(chunk)) => {
                let due = self.is_due(now_ms);
                self.text_buffer.append(chunk.as_str());
                self.has_content = true;
                if !once && due {
                    self.phase = Phase::FormattingStream;
                    self.format()
                } else {
                    self.receive()
                }
            },
            Some(StreamAction::ToolCall { name }) => {
                if once {
                    return self.receive();
                }
                let message_id = self.placeholder();
                self.phase = Phase::Editing { timed: false };
                RelayAction::EditStreaming {
                    target: self.target(),
                    message_id,
                    text: "\u{23f3} ".to_owned().concat(name.as_str()).concat("..."),
                }
            },
            Some(StreamAction::Finish) => {
                if self.awaits {
                    self.phase = Phase::Polling;
                    RelayAction::TryReceive
                } else {
                    self.conclude(true)
                }
            },
            Some(StreamAction::Error(message)) => {
                let reported = "\u{274c} ".to_owned().concat(message.as_str());
                let preview = self.route_preview(reported.as_str());
                let message_id = self.placeholder();
                self.phase = Phase::Concluding { preview: Some(preview) };
                if once {
                    RelayAction::Send { target: self.target(), message: text_message(reported) }
                } else {
                    RelayAction::Edit {
                        target: self.target(),
                        message_id,
                        message: text_message(reported),
                    }
                }
            },
        }
    }

    fn hear(&mut self, heard: Heard, now_ms: u64) -> (r: RelayAction)
        ensures
            (final(self)@, r.deep_view()) == on_heard(old(self)@, heard.deep_view(), now_ms),
    {
        match (&self.phase, heard) {
            (Phase::Receiving, Heard::Event(action)) => self.hear_event(action, now_ms),
            (Phase::Receiving, Heard::Lagged) => self.receive(),
            (Phase::Receiving, Heard::Closed) => {
                let record = is_weixin_platform(self.config.platform);
                self.conclude(record)
            },
            (Phase::Polling, Heard::Event(action)) => self.hear_event(action, now_ms),
            (Phase::Polling, Heard::Lagged) => RelayAction::TryReceive,
            (Phase::Polling, Heard::Closed) => self.conclude(true),
            (Phase::Polling, Heard::Empty) => {
                self.phase = Phase::Awaiting;
                RelayAction::AwaitTurn { conversation_id: self.config.conversation_id.clone() }
            },
            (Phase::Awaiting, Heard::Event(action)) => self.hear_event(action, now_ms),
            (Phase::Awaiting, Heard::Lagged) => {
                self.phase = Phase::Polling;
                RelayAction::TryReceive
            },
            (Phase::Awaiting, Heard::Closed) => self.conclude(true),
            (Phase::Awaiting, Heard::Released) => self.conclude(true),
            _ => RelayAction::Unexpected,
        }
    }

    /// Begins the relay.
    pub fn start(&mut self) -> (r: RelayAction)
        ensures
            (final(self)@, r.deep_view()) == starting(old(self)@),
    {
        if is_weixin_platform(self.config.platform) {
            self.receive()
        } else {
            self.phase = Phase::Opening;
            RelayAction::SendThinking { target: self.target() }
        }
    }

    /// Tells the relay how its last action went.
    pub fn advance(&mut self, event: RelayEvent) -> (r: RelayAction)
        ensures
            (final(self)@, r.deep_view()) == advanced(old(self)@, event.deep_view()),
    {
        proof {
            reveal(advanced);
        }
        let once = is_weixin_platform(self.config.platform);
        match event {
            RelayEvent::Heard { heard, now_ms } => self.hear(heard, now_ms),
            RelayEvent::Delivered(delivered) => match &self.phase {
                Phase::Opening => match delivered {
                    None => self.stop(),
                    Some(receipt) => {
                        let action = self.record(&receipt, None);
                        self.receipt = Some(receipt);
                        if self.records {
                            self.phase = Phase::RecordingOpening;
                            action
                        } else {
                            self.receive()
                        }
                    },
                },
                Phase::Concluding { preview } => {
                    if !once {
                        return RelayAction::Unexpected;
                    }
                    let preview = preview.clone();
                    match delivered {
                        Some(receipt) => self.record_end(&receipt, preview),
                        None => self.stop(),
                    }
                },
                _ => RelayAction::Unexpected,
            },
            RelayEvent::Edited { now_ms } => match &self.phase {
                Phase::Editing { timed } => {
                    if *timed {
                        self.last_edit = Some(now_ms);
                    }
                    self.receive()
                },
                Phase::Concluding { preview } => {
                    let preview = preview.clone();
                    match &self.receipt {
                        Some(receipt) => {
                            if once {
                                return RelayAction::Unexpected;
                            }
                            let receipt = receipt.clone();
                            self.record_end(&receipt, preview)
                        },
                        None => RelayAction::Unexpected,
                    }
                },
                _ => RelayAction::Unexpected,
            },
            RelayEvent::Recorded => match &self.phase {
                Phase::RecordingOpening => self.receive(),
                Phase::RecordingEnd => self.stop(),
                _ => RelayAction::Unexpected,
            },
            RelayEvent::Formatted(formatted) => match &self.phase {
                Phase::FormattingStream => {
                    let message_id = self.placeholder();
                    self.phase = Phase::Editing { timed: true };
                    RelayAction::EditStreaming {
                        target: self.target(),
                        message_id,
                        text: formatted,
                    }
                },
                Phase::FormattingFinal { record } => {
                    let preview = if *record {
                        Some(self.route_preview(formatted.as_str()))
                    } else {
                        None
                    };
                    let message_id = self.placeholder();
                    self.phase = Phase::Concluding { preview };
                    if once {
                        RelayAction::SendFinal { target: self.target(), text: formatted }
                    } else {
                        RelayAction::EditFinal { target: self.target(), message_id, text: formatted }
                    }
                },
                _ => RelayAction::Unexpected,
            },
        }
    }
}

// ── Laws ────────────────────────────────────────────────────────────

/// Whether `action` is what a relay in its phase has asked for.
pub open spec fn has_asked(relay: RelayView, action: RelayActionView) -> bool {
    match relay.phase {
        PhaseView::Opening => action is SendThinking,
        PhaseView::RecordingOpening => action is Record,
        PhaseView::Receiving => action is Receive,
        PhaseView::Polling => action is TryReceive,
        PhaseView::Awaiting => action is AwaitTurn,
        PhaseView::FormattingStream => action is Format,
        PhaseView::Editing { .. } => action is EditStreaming,
        PhaseView::FormattingFinal { .. } => action is Format,
        PhaseView::Concluding { .. } => if relay.once() {
            action is SendFinal || action is Send
        } else {
            action is EditFinal || action is Edit
        },
        PhaseView::RecordingEnd => action is Record,
        PhaseView::Finished => action is Stop,
    }
}

/// Whether `event` tells how `action` went.
pub open spec fn answers(action: RelayActionView, event: RelayEventView) -> bool {
    match event {
        RelayEventView::Delivered(_) => action is SendThinking || action is SendFinal || action is Send,
        RelayEventView::Edited { .. } => action is EditStreaming || action is EditFinal || action is Edit,
        RelayEventView::Recorded => action is Record,
        RelayEventView::Formatted(_) => action is Format,
        RelayEventView::Heard { heard, .. } => match heard {
            HeardView::Empty => action is TryReceive,
            HeardView::Released => action is AwaitTurn,
            _ => action is Receive || action is TryReceive || action is AwaitTurn,
        },
    }
}

/// A relay understands every answer to what it asked, and knows what to ask next.
pub proof fn every_answer_is_understood(
    relay: RelayView,
    action: RelayActionView,
    event: RelayEventView,
)
    requires
        relay.well_formed(),
        has_asked(relay, action),
        answers(action, event),
    ensures
        advanced(relay, event).0.well_formed(),
        has_asked(advanced(relay, event).0, advanced(relay, event).1),
        advanced(relay, event).1 !is Unexpected,
{
    reveal(advanced);
}

/// A relay begins well formed, with a question of its own.
pub proof fn relay_begins_well_formed(config: RelayConfigView, records: bool, awaits: bool)
    ensures
        starting(fresh(config, records, awaits)).0.well_formed(),
        has_asked(
            starting(fresh(config, records, awaits)).0,
            starting(fresh(config, records, awaits)).1,
        ),
{
}

/// The state of a relay and its last action, after it began and was told `events`.
pub open spec fn run(relay: RelayView, events: Seq<RelayEventView>) -> (RelayView, RelayActionView)
    decreases events.len(),
{
    if events.len() == 0 {
        starting(relay)
    } else {
        advanced(run(relay, events.drop_last()).0, events.last())
    }
}

/// Whether each of `events` answers what the relay had asked before it.
pub open spec fn conforms(relay: RelayView, events: Seq<RelayEventView>) -> bool
    decreases events.len(),
{
    events.len() == 0 || (conforms(relay, events.drop_last()) && answers(
        run(relay, events.drop_last()).1,
        events.last(),
    ))
}

/// The pieces of the answer in `events`, put together.
pub open spec fn streamed_text(events: Seq<RelayEventView>) -> Seq<char>
    decreases events.len(),
{
    if events.len() == 0 {
        Seq::empty()
    } else {
        streamed_text(events.drop_last()) + chunk_of(events.last())
    }
}

/// Whether an action sends a new message.
pub open spec fn is_send(action: RelayActionView) -> bool {
    action is SendThinking || action is SendFinal || action is Send
}

/// Whether an action edits a message.
pub open spec fn is_edit(action: RelayActionView) -> bool {
    action is EditStreaming || action is EditFinal || action is Edit
}

/// The number of new messages that a relay asked for in a run.
pub open spec fn send_count(relay: RelayView, events: Seq<RelayEventView>) -> nat
    decreases events.len(),
{
    let before = if events.len() == 0 {
        0
    } else {
        send_count(relay, events.drop_last())
    };
    if is_send(run(relay, events).1) {
        before + 1
    } else {
        before
    }
}

/// The piece of the answer in an event.
pub open spec fn chunk_of(event: RelayEventView) -> Seq<char> {
    match event {
        RelayEventView::Heard {
            heard: HeardView::Event(Some(StreamActionView::AppendText(chunk))),
            ..
        } => chunk,
        _ => Seq::empty(),
    }
}

proof fn lemma_step(relay: RelayView, event: RelayEventView)
    ensures
        advanced(relay, event).0.config == relay.config,
        advanced(relay, event).0.records == relay.records,
        advanced(relay, event).0.awaits == relay.awaits,
        relay.well_formed() ==> advanced(relay, event).0.well_formed(),
        advanced(relay, event).1 matches RelayActionView::Format { text, .. } ==> text == advanced(
            relay,
            event,
        ).0.text,
{
    reveal(advanced);
}

proof fn lemma_step_text(relay: RelayView, action: RelayActionView, event: RelayEventView)
    requires
        has_asked(relay, action),
        answers(action, event),
    ensures
        advanced(relay, event).0.text == relay.text + chunk_of(event),
{
    reveal(advanced);
    assert(relay.text + Seq::<char>::empty() =~= relay.text);
}

proof fn lemma_run_invariant(
    config: RelayConfigView,
    records: bool,
    awaits: bool,
    events: Seq<RelayEventView>,
)
    requires
        conforms(fresh(config, records, awaits), events),
    ensures
        ({
            let (state, action) = run(fresh(config, records, awaits), events);
            &&& state.well_formed()
            &&& has_asked(state, action)
            &&& state.config == config
            &&& state.text == streamed_text(events)
            &&& action matches RelayActionView::Format { text, .. } ==> text == state.text
        }),
    decreases events.len(),
{
    if events.len() > 0 {
        lemma_run_invariant(config, records, awaits, events.drop_last());
        let (state, action) = run(fresh(config, records, awaits), events.drop_last());
        every_answer_is_understood(state, action, events.last());
        lemma_step(state, events.last());
        lemma_step_text(state, action, events.last());
    }
}

/// Whatever a relay formats, it formats the whole answer heard so far: no piece is lost, doubled or
/// put elsewhere.
pub proof fn whole_answer_is_formatted(
    config: RelayConfigView,
    records: bool,
    awaits: bool,
    events: Seq<RelayEventView>,
)
    requires
        conforms(fresh(config, records, awaits), events),
    ensures
        run(fresh(config, records, awaits), events).0.text == streamed_text(events),
        run(fresh(config, records, awaits), events).1 matches RelayActionView::Format { text, .. }
            ==> text == streamed_text(events),
{
    lemma_run_invariant(config, records, awaits, events);
}

/// A relay for a platform that cannot edit never edits and sends at most one message.
pub proof fn one_message_where_nothing_is_edited(
    config: RelayConfigView,
    records: bool,
    awaits: bool,
    events: Seq<RelayEventView>,
)
    requires
        sends_once(config.platform),
    ensures
        !is_edit(run(fresh(config, records, awaits), events).1),
        send_count(fresh(config, records, awaits), events) <= 1,
{
    lemma_sends(config, records, awaits, events);
}

/// A relay for a platform that can edit sends one message, its placeholder, and edits no other.
pub proof fn only_the_placeholder_is_sent(
    config: RelayConfigView,
    records: bool,
    awaits: bool,
    events: Seq<RelayEventView>,
)
    requires
        !sends_once(config.platform),
    ensures
        send_count(fresh(config, records, awaits), events) == 1,
        is_send(run(fresh(config, records, awaits), events).1) ==> events.len() == 0,
        match run(fresh(config, records, awaits), events).1 {
            RelayActionView::EditStreaming { message_id, .. } => is_placeholder(events, message_id),
            RelayActionView::EditFinal { message_id, .. } => is_placeholder(events, message_id),
            RelayActionView::Edit { message_id, .. } => is_placeholder(events, message_id),
            _ => true,
        },
{
    lemma_sends(config, records, awaits, events);
    lemma_placeholder(config, records, awaits, events);
}

/// Whether `message_id` is the id under which a placeholder was reported delivered.
pub open spec fn is_placeholder(events: Seq<RelayEventView>, message_id: Seq<char>) -> bool {
    exists|i: int|
        0 <= i < events.len() && (#[trigger] events[i] matches RelayEventView::Delivered(
            Some(receipt),
        ) && receipt.message_id == message_id)
}

/// Whether a relay has given its last message away.
spec fn is_over(relay: RelayView) -> bool {
    relay.phase is Concluding || relay.phase is RecordingEnd || relay.phase is Finished
}

proof fn lemma_step_sends(relay: RelayView, event: RelayEventView)
    requires
        relay.well_formed(),
    ensures
        relay.once() ==> !is_edit(advanced(relay, event).1),
        relay.once() && is_over(relay) ==> is_over(advanced(relay, event).0) && !is_send(
            advanced(relay, event).1,
        ),
        relay.once() && is_send(advanced(relay, event).1) ==> is_over(advanced(relay, event).0),
        !relay.once() ==> !is_send(advanced(relay, event).1),
{
    reveal(advanced);
}

proof fn lemma_sends(
    config: RelayConfigView,
    records: bool,
    awaits: bool,
    events: Seq<RelayEventView>,
)
    ensures
        ({
            let relay = fresh(config, records, awaits);
            let (state, action) = run(relay, events);
            &&& state.config == config
            &&& state.well_formed()
            &&& sends_once(config.platform) ==> !is_edit(action) && send_count(relay, events) <= 1
                && (send_count(relay, events) == 1 ==> is_over(state))
            &&& !sends_once(config.platform) ==> send_count(relay, events) == 1 && (is_send(action)
                ==> events.len() == 0)
        }),
    decreases events.len(),
{
    if events.len() > 0 {
        let state = run(fresh(config, records, awaits), events.drop_last()).0;
        lemma_sends(config, records, awaits, events.drop_last());
        lemma_step(state, events.last());
        lemma_step_sends(state, events.last());
    }
}

proof fn lemma_step_placeholder(relay: RelayView, event: RelayEventView)
    requires
        relay.well_formed(),
        !relay.once(),
    ensures
        advanced(relay, event).0.receipt == relay.receipt || (event matches RelayEventView::Delivered(
            Some(receipt),
        ) && advanced(relay, event).0.receipt == Some(receipt)),
        match advanced(relay, event).1 {
            RelayActionView::EditStreaming { message_id, .. } => relay.receipt matches Some(receipt)
                && message_id == receipt.message_id && advanced(relay, event).0.receipt
                == relay.receipt,
            RelayActionView::EditFinal { message_id, .. } => relay.receipt matches Some(receipt)
                && message_id == receipt.message_id && advanced(relay, event).0.receipt
                == relay.receipt,
            RelayActionView::Edit { message_id, .. } => relay.receipt matches Some(receipt)
                && message_id == receipt.message_id && advanced(relay, event).0.receipt
                == relay.receipt,
            _ => true,
        },
{
    reveal(advanced);
}

proof fn lemma_placeholder(
    config: RelayConfigView,
    records: bool,
    awaits: bool,
    events: Seq<RelayEventView>,
)
    requires
        !sends_once(config.platform),
    ensures
        ({
            let (state, action) = run(fresh(config, records, awaits), events);
            &&& state.config == config
            &&& state.well_formed()
            &&& state.receipt matches Some(receipt) ==> is_placeholder(events, receipt.message_id)
            &&& match action {
                RelayActionView::EditStreaming { message_id, .. } => is_placeholder(
                    events,
                    message_id,
                ),
                RelayActionView::EditFinal { message_id, .. } => is_placeholder(events, message_id),
                RelayActionView::Edit { message_id, .. } => is_placeholder(events, message_id),
                _ => true,
            }
        }),
    decreases events.len(),
{
    if events.len() > 0 {
        let earlier = events.drop_last();
        lemma_placeholder(config, records, awaits, earlier);
        let before = run(fresh(config, records, awaits), earlier).0;
        lemma_step(before, events.last());
        lemma_step_placeholder(before, events.last());
        if let Some(receipt) = before.receipt {
            let i = choose|i: int|
                0 <= i < earlier.len() && (#[trigger] earlier[i] matches RelayEventView::Delivered(
                    Some(held),
                ) && held.message_id == receipt.message_id);
            assert(events[i] == earlier[i]);
            assert(is_placeholder(events, receipt.message_id));
        }
        assert(events[events.len() - 1] == events.last());
    }
}

/// A relay that waits for the end of the turn gives no answer before it: what ends the listening
/// is the end of the turn, the end of the stream or an error, never the agent's finishing alone.
pub proof fn whole_turn_is_awaited(relay: RelayView, heard: HeardView, now_ms: u64)
    requires
        relay.awaits,
        relay.phase is Receiving || relay.phase is Polling || relay.phase is Awaiting,
        heard !is Released,
        heard !is Closed,
        heard matches HeardView::Event(Some(action)) ==> action !is Error,
    ensures
        ({
            let next = advanced(relay, RelayEventView::Heard { heard, now_ms });
            &&& !is_send(next.1)
            &&& next.1 !is EditFinal
            &&& next.1 !is Edit
            &&& next.1 !is Stop
            &&& next.0.phase !is FormattingFinal
        }),
{
    reveal(advanced);
}

/// What is recorded is the message that was delivered, with the owner, the conversation and
/// the chat of the relay; and a relay that records nothing never asks to.
pub proof fn delivered_message_is_recorded(relay: RelayView, event: RelayEventView)
    ensures
        advanced(relay, event).1 matches RelayActionView::Record { owner_user_id, route } ==> {
            &&& relay.records
            &&& owner_user_id == relay.config.owner_user_id
            &&& route.conversation_id == relay.config.conversation_id
            &&& route.platform_type == relay.config.platform.name()
            &&& route.chat_id == relay.config.chat_id
            &&& match event {
                RelayEventView::Delivered(Some(receipt)) => route.message_id == receipt.message_id,
                _ => route.message_id == relay.placeholder(),
            }
        },
{
    reveal(advanced);
}

/// Whether an action stays within a configuration: what is sent or edited goes to its owner,
/// plugin and chat, what is recorded to its owner, conversation and chat, a text is formatted for
/// its platform, and the turn waited for is that of its conversation.
pub open spec fn stays_within(action: RelayActionView, config: RelayConfigView) -> bool {
    let home = RelayTargetView {
        owner_user_id: config.owner_user_id,
        plugin_id: config.plugin_id,
        chat_id: config.chat_id,
    };
    match action {
        RelayActionView::SendThinking { target } => target == home,
        RelayActionView::SendFinal { target, .. } => target == home,
        RelayActionView::Send { target, .. } => target == home,
        RelayActionView::EditStreaming { target, .. } => target == home,
        RelayActionView::EditFinal { target, .. } => target == home,
        RelayActionView::Edit { target, .. } => target == home,
        RelayActionView::Record { owner_user_id, route } => {
            &&& owner_user_id == config.owner_user_id
            &&& route.conversation_id == config.conversation_id
            &&& route.platform_type == config.platform.name()
            &&& route.chat_id == config.chat_id
        },
        RelayActionView::Format { platform, .. } => platform == config.platform,
        RelayActionView::AwaitTurn { conversation_id } => conversation_id == config.conversation_id,
        _ => true,
    }
}

proof fn lemma_step_stays(relay: RelayView, event: RelayEventView)
    ensures
        stays_within(advanced(relay, event).1, relay.config),
{
    reveal(advanced);
}

proof fn lemma_config_stays(relay: RelayView, events: Seq<RelayEventView>)
    ensures
        run(relay, events).0.config == relay.config,
    decreases events.len(),
{
    if events.len() > 0 {
        lemma_config_stays(relay, events.drop_last());
        lemma_step(run(relay, events.drop_last()).0, events.last());
    }
}

/// Whatever a relay is told, it stays within its configuration: everything that it sends, edits and
/// records goes to the owner, the plugin and the chat that it was configured with.
pub proof fn every_action_stays_within_the_configuration(
    relay: RelayView,
    events: Seq<RelayEventView>,
)
    ensures
        stays_within(run(relay, events).1, relay.config),
{
    if events.len() > 0 {
        let before = run(relay, events.drop_last()).0;
        lemma_config_stays(relay, events.drop_last());
        lemma_step_stays(before, events.last());
    }
}

/// The time at which the last edit of a growing text in a run was done.
pub open spec fn last_growing_edit(relay: RelayView, events: Seq<RelayEventView>) -> Option<u64>
    decreases events.len(),
{
    if events.len() == 0 {
        None
    } else {
        let earlier = events.drop_last();
        match events.last() {
            RelayEventView::Edited { now_ms } => if run(relay, earlier).0.phase
                == (PhaseView::Editing { timed: true }) {
                Some(now_ms)
            } else {
                last_growing_edit(relay, earlier)
            },
            _ => last_growing_edit(relay, earlier),
        }
    }
}

proof fn lemma_step_edit(relay: RelayView, event: RelayEventView)
    ensures
        advanced(relay, event).0.last_edit == (match event {
            RelayEventView::Edited { now_ms } => if relay.phase == (PhaseView::Editing {
                timed: true,
            }) {
                Some(now_ms)
            } else {
                relay.last_edit
            },
            _ => relay.last_edit,
        }),
        advanced(relay, event).0.phase is FormattingStream && relay.phase !is FormattingStream ==> {
            &&& event matches RelayEventView::Heard { now_ms, .. }
            &&& relay.is_due(now_ms)
        },
{
    reveal(advanced);
}

proof fn lemma_last_edit(
    config: RelayConfigView,
    records: bool,
    awaits: bool,
    events: Seq<RelayEventView>,
)
    ensures
        ({
            let relay = fresh(config, records, awaits);
            &&& run(relay, events).0.config == config
            &&& run(relay, events).0.last_edit == last_growing_edit(relay, events)
        }),
    decreases events.len(),
{
    if events.len() > 0 {
        let before = run(fresh(config, records, awaits), events.drop_last()).0;
        lemma_last_edit(config, records, awaits, events.drop_last());
        lemma_step(before, events.last());
        lemma_step_edit(before, events.last());
    }
}

/// Between two edits of a growing text lies at least the throttle: the next one is prepared only by
/// a piece of the answer that is heard that long after the last one was done.
pub proof fn growing_text_is_throttled(
    config: RelayConfigView,
    records: bool,
    awaits: bool,
    events: Seq<RelayEventView>,
)
    requires
        events.len() > 0,
    ensures
        ({
            let relay = fresh(config, records, awaits);
            let earlier = events.drop_last();
            run(relay, events).0.phase is FormattingStream && run(relay, earlier).0.phase
                !is FormattingStream ==> {
                &&& events.last() matches RelayEventView::Heard { now_ms, .. }
                &&& last_growing_edit(relay, earlier) matches Some(last) ==> config.throttle_ms == 0
                    || now_ms - last >= config.throttle_ms
            }
        }),
{
    lemma_last_edit(config, records, awaits, events.drop_last());
    lemma_step_edit(run(fresh(config, records, awaits), events.drop_last()).0, events.last());
}

/// A finished answer is delivered: the whole of it is formatted, and the formatted text is sent, or
/// put into the placeholder.
pub proof fn finished_answer_is_delivered(relay: RelayView, now_ms: u64, formatted: Seq<char>)
    requires
        relay.phase is Receiving,
        !relay.awaits,
        relay.has_answer(),
    ensures
        ({
            let finish = RelayEventView::Heard {
                heard: HeardView::Event(Some(StreamActionView::Finish)),
                now_ms,
            };
            let formatting = advanced(relay, finish);
            &&& formatting.1 == relay.formatting()
            &&& advanced(formatting.0, RelayEventView::Formatted(formatted)).1 == final_delivery(
                relay,
                formatted,
            )
        }),
{
    reveal(advanced);
}

/// An awaited turn that ends is delivered in the same way.
pub proof fn awaited_answer_is_delivered(
    relay: RelayView,
    heard: HeardView,
    now_ms: u64,
    formatted: Seq<char>,
)
    requires
        relay.phase is Awaiting,
        heard is Released || heard is Closed,
        relay.has_answer(),
    ensures
        ({
            let formatting = advanced(relay, RelayEventView::Heard { heard, now_ms });
            &&& formatting.1 == relay.formatting()
            &&& advanced(formatting.0, RelayEventView::Formatted(formatted)).1 == final_delivery(
                relay,
                formatted,
            )
        }),
{
    reveal(advanced);
}

/// An error of the agent is reported in the chat at once, in place of any answer.
pub proof fn error_is_reported(relay: RelayView, message: Seq<char>, now_ms: u64)
    requires
        relay.phase is Receiving || relay.phase is Polling || relay.phase is Awaiting,
    ensures
        ({
            let error = RelayEventView::Heard {
                heard: HeardView::Event(Some(StreamActionView::Error(message))),
                now_ms,
            };
            let reported = text_message_view(error_text(message));
            advanced(relay, error).1 == if relay.once() {
                RelayActionView::Send { target: relay.target(), message: reported }
            } else {
                RelayActionView::Edit {
                    target: relay.target(),
                    message_id: relay.placeholder(),
                    message: reported,
                }
            }
        }),
{
    reveal(advanced);
}

/// Exactly WeChat and WeCom begin by listening: on every other platform the first thing that a relay
/// does is to send the placeholder, to the chat that it was configured with.
pub proof fn only_wechat_and_wecom_begin_without_a_placeholder(
    config: RelayConfigView,
    records: bool,
    awaits: bool,
)
    ensures
        ({
            let first = run(fresh(config, records, awaits), Seq::empty()).1;
            &&& first is Receive <==> (config.platform == PluginType::Weixin || config.platform
                == PluginType::Wecom)
            &&& first !is Receive ==> first == RelayActionView::SendThinking {
                target: RelayTargetView {
                    owner_user_id: config.owner_user_id,
                    plugin_id: config.plugin_id,
                    chat_id: config.chat_id,
                },
            }
        }),
{
}

/// WeChat and WeCom never see an edit or a placeholder, and the other platforms never see any new
/// message but the placeholder.
pub proof fn platforms_get_their_kind_of_message(
    config: RelayConfigView,
    records: bool,
    awaits: bool,
    events: Seq<RelayEventView>,
)
    ensures
        ({
            let action = run(fresh(config, records, awaits), events).1;
            if config.platform == PluginType::Weixin || config.platform == PluginType::Wecom {
                &&& action !is SendThinking
                &&& action !is EditStreaming
                &&& action !is EditFinal
                &&& action !is Edit
                &&& send_count(fresh(config, records, awaits), events) <= 1
            } else {
                &&& action !is SendFinal
                &&& action !is Send
                &&& action is SendThinking <==> events.len() == 0
                &&& send_count(fresh(config, records, awaits), events) == 1
            }
        }),
{
    lemma_sends(config, records, awaits, events);
    lemma_no_later_placeholder(fresh(config, records, awaits), events);
}

proof fn lemma_no_later_placeholder(relay: RelayView, events: Seq<RelayEventView>)
    ensures
        events.len() > 0 ==> run(relay, events).1 !is SendThinking,
{
    reveal(advanced);
}

/// Whether an event brings a piece of the answer.
pub open spec fn is_piece(event: RelayEventView) -> bool {
    event matches RelayEventView::Heard {
        heard: HeardView::Event(Some(StreamActionView::AppendText(_))),
        ..
    }
}

proof fn lemma_step_pieces(relay: RelayView, action: RelayActionView, event: RelayEventView)
    requires
        has_asked(relay, action),
        answers(action, event),
    ensures
        ({
            let next = advanced(relay, event).0;
            &&& next.has_content == (relay.has_content || is_piece(event))
            &&& next.records == relay.records
            &&& next.awaits == relay.awaits
            &&& !relay.once() && next.phase !is Finished && relay.phase !is Opening ==> next.receipt
                == relay.receipt && relay.phase !is Finished && next.phase !is Opening
            &&& !relay.once() && next.phase !is Finished && relay.phase is Opening ==> event
                == RelayEventView::Delivered(next.receipt) && next.phase !is Opening
        }),
{
    reveal(advanced);
}

proof fn lemma_heard_pieces(
    config: RelayConfigView,
    records: bool,
    awaits: bool,
    events: Seq<RelayEventView>,
)
    requires
        conforms(fresh(config, records, awaits), events),
    ensures
        ({
            let state = run(fresh(config, records, awaits), events).0;
            &&& state.has_content <==> exists|i: int|
                0 <= i < events.len() && is_piece(#[trigger] events[i])
            &&& state.records == records
            &&& state.awaits == awaits
            &&& events.len() > 0 && !sends_once(config.platform) && state.phase !is Finished
                ==> events[0] == RelayEventView::Delivered(state.receipt) && state.phase !is Opening
        }),
    decreases events.len(),
{
    if events.len() > 0 {
        let earlier = events.drop_last();
        lemma_heard_pieces(config, records, awaits, earlier);
        lemma_run_invariant(config, records, awaits, earlier);
        let (state, action) = run(fresh(config, records, awaits), earlier);
        let next = advanced(state, events.last()).0;
        lemma_step_pieces(state, action, events.last());
        assert(forall|i: int| 0 <= i < earlier.len() ==> earlier[i] == events[i]);
        assert(events[events.len() - 1] == events.last());
        if next.has_content {
            if is_piece(events.last()) {
                assert(is_piece(events[events.len() - 1]));
            } else {
                let i = choose|i: int| 0 <= i < earlier.len() && is_piece(#[trigger] earlier[i]);
                assert(is_piece(events[i]));
            }
        } else {
            assert forall|i: int| 0 <= i < events.len() implies !is_piece(#[trigger] events[i]) by {
                if i < earlier.len() {
                    assert(!is_piece(earlier[i]));
                }
            }
        }
        if earlier.len() > 0 {
            assert(events[0] == earlier[0]);
        }
    }
}

/// The answer to a question arrives whole: when the agent finishes, everything heard is formatted for
/// the platform, and the formatted text is sent as one new message on WeChat and WeCom, and put into
/// the placeholder everywhere else. Where nothing was heard, nothing is sent or edited.
pub proof fn finished_answer_arrives_whole(
    config: RelayConfigView,
    records: bool,
    events: Seq<RelayEventView>,
    now_ms: u64,
    formatted: Seq<char>,
)
    requires
        conforms(fresh(config, records, false), events),
        run(fresh(config, records, false), events).1 is Receive,
    ensures
        ({
            let relay = fresh(config, records, false);
            let once = config.platform == PluginType::Weixin || config.platform == PluginType::Wecom;
            let target = RelayTargetView {
                owner_user_id: config.owner_user_id,
                plugin_id: config.plugin_id,
                chat_id: config.chat_id,
            };
            let finish = RelayEventView::Heard {
                heard: HeardView::Event(Some(StreamActionView::Finish)),
                now_ms,
            };
            let finished = events.push(finish);
            let answered = (exists|i: int| 0 <= i < events.len() && is_piece(#[trigger] events[i]))
                && (once ==> text::trim(streamed_text(events)).len() > 0);
            &&& !answered ==> run(relay, finished).1 is Stop
            &&& answered ==> {
                &&& run(relay, finished).1 == RelayActionView::Format {
                    text: streamed_text(events),
                    platform: config.platform,
                }
                &&& once ==> run(relay, finished.push(RelayEventView::Formatted(formatted))).1
                    == RelayActionView::SendFinal { target, text: formatted }
                &&& !once ==> (events[0] matches RelayEventView::Delivered(Some(receipt)) && run(
                    relay,
                    finished.push(RelayEventView::Formatted(formatted)),
                ).1 == RelayActionView::EditFinal {
                    target,
                    message_id: receipt.message_id,
                    text: formatted,
                })
            }
        }),
{
    let relay = fresh(config, records, false);
    lemma_run_invariant(config, records, false, events);
    lemma_heard_pieces(config, records, false, events);
    let finish = RelayEventView::Heard {
        heard: HeardView::Event(Some(StreamActionView::Finish)),
        now_ms,
    };
    let finished = events.push(finish);
    assert(finished.drop_last() =~= events);
    assert(finished.push(RelayEventView::Formatted(formatted)).drop_last() =~= finished);
    reveal(advanced);
}

/// What a relay that listens makes of the stream. A piece of the answer is put behind what was heard
/// before, and shown at once on a platform that can edit if the last showing is long enough ago; a
/// tool call is shown there in the placeholder; an error ends the relay with its report; thoughts and
/// events that mean nothing change nothing.
pub proof fn stream_is_followed(
    relay: RelayView,
    receipt: ChannelDeliveryReceiptView,
    words: Seq<char>,
    now_ms: u64,
)
    requires
        relay.phase is Receiving || relay.phase is Polling || relay.phase is Awaiting,
        relay.receipt == Some(receipt),
    ensures
        ({
            let config = relay.config;
            let once = config.platform == PluginType::Weixin || config.platform == PluginType::Wecom;
            let target = RelayTargetView {
                owner_user_id: config.owner_user_id,
                plugin_id: config.plugin_id,
                chat_id: config.chat_id,
            };
            let message_id = receipt.message_id;
            let told = |action: Option<StreamActionView>|
                advanced(relay, RelayEventView::Heard { heard: HeardView::Event(action), now_ms });
            let piece = told(Some(StreamActionView::AppendText(words)));
            let due = relay.last_edit matches Some(last) ==> config.throttle_ms == 0 || now_ms - last
                >= config.throttle_ms;
            let report = UnifiedOutgoingMessageView {
                message_type: OutgoingMessageType::Text,
                text: Some("\u{274c} "@ + words),
                parse_mode: None,
                buttons: None,
                keyboard: None,
                image_url: None,
                file_url: None,
                file_name: None,
                media_actions: None,
                reply_to_message_id: None,
                silent: None,
            };
            &&& piece.0.text == relay.text + words
            &&& piece.0.has_content
            &&& piece.1 == if !once && due {
                RelayActionView::Format { text: relay.text + words, platform: config.platform }
            } else {
                RelayActionView::Receive
            }
            &&& told(Some(StreamActionView::ToolCall { name: words })).1 == if once {
                RelayActionView::Receive
            } else {
                RelayActionView::EditStreaming {
                    target,
                    message_id,
                    text: "\u{23f3} "@ + words + "..."@,
                }
            }
            &&& told(Some(StreamActionView::Error(words))).1 == if once {
                RelayActionView::Send { target, message: report }
            } else {
                RelayActionView::Edit { target, message_id, message: report }
            }
            &&& told(Some(StreamActionView::Thinking(words))).1 is Receive
            &&& told(Some(StreamActionView::Thinking(words))).0.text == relay.text
            &&& told(None).1 is Receive
            &&& told(None).0.text == relay.text
            &&& told(Some(StreamActionView::Finish)).0.text == relay.text
            &&& relay.awaits ==> told(Some(StreamActionView::Finish)).1 is TryReceive
        }),
{
    reveal(advanced);
}

/// A text that was formatted while the answer grows is put into the placeholder, and the time at which
/// that was done is the one that the next showing is measured from.
pub proof fn growing_text_is_put_into_the_placeholder(
    relay: RelayView,
    receipt: ChannelDeliveryReceiptView,
    formatted: Seq<char>,
    now_ms: u64,
)
    requires
        relay.phase is FormattingStream,
        relay.receipt == Some(receipt),
    ensures
        ({
            let shown = advanced(relay, RelayEventView::Formatted(formatted));
            let edited = advanced(shown.0, RelayEventView::Edited { now_ms });
            &&& shown.1 == RelayActionView::EditStreaming {
                target: RelayTargetView {
                    owner_user_id: relay.config.owner_user_id,
                    plugin_id: relay.config.plugin_id,
                    chat_id: relay.config.chat_id,
                },
                message_id: receipt.message_id,
                text: formatted,
            }
            &&& edited.1 is Receive
            &&& edited.0.last_edit == Some(now_ms)
            &&& edited.0.text == relay.text
            &&& edited.0.has_content == relay.has_content
        }),
{
    reveal(advanced);
}

/// A relay that waits out the turn asks for what is already there, then for the end of the turn of its
/// conversation; lost events are passed over.
pub proof fn turn_is_waited_out(relay: RelayView, now_ms: u64)
    requires
        relay.phase is Receiving,
    ensures
        ({
            let told = |state: RelayView, heard: HeardView|
                advanced(state, RelayEventView::Heard { heard, now_ms });
            let polled = told(relay, HeardView::Event(Some(StreamActionView::Finish)));
            &&& relay.awaits ==> polled.1 is TryReceive
            &&& relay.awaits ==> told(polled.0, HeardView::Lagged).1 is TryReceive
            &&& relay.awaits ==> told(polled.0, HeardView::Empty).1 == RelayActionView::AwaitTurn {
                conversation_id: relay.config.conversation_id,
            }
            &&& relay.awaits ==> told(told(polled.0, HeardView::Empty).0, HeardView::Lagged).1
                is TryReceive
            &&& told(relay, HeardView::Lagged) == (relay, RelayActionView::Receive)
        }),
{
    reveal(advanced);
}

/// A stream that closes is answered with what there is, as if the agent had finished; so is the end of
/// a turn that was waited for.
pub proof fn closed_stream_ends_with_what_there_is(relay: RelayView, now_ms: u64)
    requires
        relay.phase is Receiving || relay.phase is Polling || relay.phase is Awaiting,
    ensures
        ({
            let closed = advanced(
                relay,
                RelayEventView::Heard { heard: HeardView::Closed, now_ms },
            ).1;
            let released = advanced(
                relay,
                RelayEventView::Heard { heard: HeardView::Released, now_ms },
            ).1;
            let once = relay.config.platform == PluginType::Weixin || relay.config.platform
                == PluginType::Wecom;
            &&& relay.phase is Awaiting ==> released == closed
            &&& if relay.has_content && (once ==> text::trim(relay.text).len() > 0) {
                closed == RelayActionView::Format {
                    text: relay.text,
                    platform: relay.config.platform,
                }
            } else {
                closed is Stop
            }
        }),
{
    reveal(advanced);
}

/// What becomes a target for replies. A relay that records does so with the placeholder, without a
/// preview; and with the answer once it was delivered, with the question and the answer as preview,
/// cut to its first characters. An answer that breaks off before the agent has finished is recorded
/// only where it is a message of its own. A relay that does not record never asks to.
pub proof fn delivered_answer_becomes_a_target(
    relay: RelayView,
    heard: HeardView,
    receipt: ChannelDeliveryReceiptView,
    formatted: Seq<char>,
    now_ms: u64,
)
    requires
        match heard {
            HeardView::Event(Some(StreamActionView::Finish)) => relay.phase is Receiving
                && !relay.awaits,
            HeardView::Closed => relay.phase is Receiving || relay.phase is Polling || relay.phase
                is Awaiting,
            HeardView::Released => relay.phase is Awaiting,
            _ => false,
        },
        relay.has_content,
        text::trim(relay.text).len() > 0,
        !(relay.config.platform == PluginType::Weixin || relay.config.platform == PluginType::Wecom)
            ==> relay.receipt == Some(receipt),
    ensures
        ({
            let config = relay.config;
            let once = config.platform == PluginType::Weixin || config.platform == PluginType::Wecom;
            let finished = heard !is Closed || relay.phase !is Receiving;
            let ended = advanced(relay, RelayEventView::Heard { heard, now_ms }).0;
            let delivering = advanced(ended, RelayEventView::Formatted(formatted)).0;
            let done = if once {
                RelayEventView::Delivered(Some(receipt))
            } else {
                RelayEventView::Edited { now_ms }
            };
            let whole = "你："@ + text::trim(config.prompt_text) + "\n\nAI："@ + text::trim(formatted);
            let last = advanced(delivering, done);
            if relay.records && (once || finished) {
                &&& last.1 == RelayActionView::Record {
                    owner_user_id: config.owner_user_id,
                    route: ConversationRouteView {
                        conversation_id: config.conversation_id,
                        platform_type: config.platform.name(),
                        chat_id: config.chat_id,
                        message_id: receipt.message_id,
                        preview_text: Some(
                            if whole.len() <= 240 {
                                whole
                            } else {
                                whole.take(240)
                            },
                        ),
                        sent_at: receipt.completed_at,
                        delivery_started_at: Some(receipt.started_at),
                        delivery_completed_at: Some(receipt.completed_at),
                    },
                }
                &&& advanced(last.0, RelayEventView::Recorded).1 is Stop
            } else {
                last.1 is Stop
            }
        }),
{
    reveal(advanced);
}

/// A placeholder that was delivered is recorded without a preview where the relay records, and then
/// the stream is listened to; one that was not ends the relay.
pub proof fn placeholder_opens_the_relay(
    config: RelayConfigView,
    records: bool,
    awaits: bool,
    receipt: ChannelDeliveryReceiptView,
)
    requires
        config.platform != PluginType::Weixin,
        config.platform != PluginType::Wecom,
    ensures
        ({
            let relay = fresh(config, records, awaits);
            let opened = seq![RelayEventView::Delivered(Some(receipt))];
            let route = ConversationRouteView {
                conversation_id: config.conversation_id,
                platform_type: config.platform.name(),
                chat_id: config.chat_id,
                message_id: receipt.message_id,
                preview_text: None,
                sent_at: receipt.completed_at,
                delivery_started_at: Some(receipt.started_at),
                delivery_completed_at: Some(receipt.completed_at),
            };
            &&& run(relay, seq![RelayEventView::Delivered(None)]).1 is Stop
            &&& run(relay, opened).0.receipt == Some(receipt)
            &&& !records ==> run(relay, opened).1 is Receive
            &&& records ==> run(relay, opened).1 == RelayActionView::Record {
                owner_user_id: config.owner_user_id,
                route,
            }
            &&& records ==> run(relay, opened.push(RelayEventView::Recorded)).1 is Receive
        }),
{
    let relay = fresh(config, records, awaits);
    let opened = seq![RelayEventView::Delivered(Some(receipt))];
    let failed = seq![RelayEventView::Delivered(None)];
    assert(opened.drop_last() =~= Seq::empty());
    assert(failed.drop_last() =~= Seq::empty());
    assert(opened.push(RelayEventView::Recorded).drop_last() =~= opened);
    reveal_with_fuel(run, 3);
    reveal(advanced);
}

/// Slack is edited at most every 1200 milliseconds and Discord every 1000; the platforms with softer
/// limits every 500.
pub proof fn harder_limits_are_kept(platform: PluginType)
    ensures
        platform == PluginType::Slack ==> throttle_ms(platform) == 1200,
        platform == PluginType::Discord ==> throttle_ms(platform) == 1000,
        platform != PluginType::Slack && platform != PluginType::Discord ==> throttle_ms(platform)
            == 500,
{
}

/// A tool call that was shown does not count as a showing of the answer.
pub proof fn shown_tool_call_leaves_the_pace(relay: RelayView, name: Seq<char>, now_ms: u64, done_ms: u64)
    requires
        relay.phase is Receiving,
        relay.config.platform != PluginType::Weixin,
        relay.config.platform != PluginType::Wecom,
    ensures
        ({
            let called = advanced(
                relay,
                RelayEventView::Heard {
                    heard: HeardView::Event(Some(StreamActionView::ToolCall { name })),
                    now_ms,
                },
            ).0;
            let edited = advanced(called, RelayEventView::Edited { now_ms: done_ms });
            &&& edited.1 is Receive
            &&& edited.0 == relay
        }),
{
    reveal(advanced);
}

/// An error that was reported ends the relay, and the report becomes a target for replies where the
/// relay records, with the question and the report as preview. A report that could not be sent is not
/// recorded.
pub proof fn reported_error_becomes_a_target(
    relay: RelayView,
    receipt: ChannelDeliveryReceiptView,
    message: Seq<char>,
    now_ms: u64,
)
    requires
        relay.phase is Receiving || relay.phase is Polling || relay.phase is Awaiting,
        !(relay.config.platform == PluginType::Weixin || relay.config.platform == PluginType::Wecom)
            ==> relay.receipt == Some(receipt),
    ensures
        ({
            let config = relay.config;
            let once = config.platform == PluginType::Weixin || config.platform == PluginType::Wecom;
            let reporting = advanced(
                relay,
                RelayEventView::Heard {
                    heard: HeardView::Event(Some(StreamActionView::Error(message))),
                    now_ms,
                },
            ).0;
            let done = if once {
                RelayEventView::Delivered(Some(receipt))
            } else {
                RelayEventView::Edited { now_ms }
            };
            let last = advanced(reporting, done);
            let whole = "你："@ + text::trim(config.prompt_text) + "\n\nAI："@ + text::trim(
                "\u{274c} "@ + message,
            );
            &&& !relay.records ==> last.1 is Stop
            &&& relay.records ==> last.1 == RelayActionView::Record {
                owner_user_id: config.owner_user_id,
                route: ConversationRouteView {
                    conversation_id: config.conversation_id,
                    platform_type: config.platform.name(),
                    chat_id: config.chat_id,
                    message_id: receipt.message_id,
                    preview_text: Some(
                        if whole.len() <= 240 {
                            whole
                        } else {
                            whole.take(240)
                        },
                    ),
                    sent_at: receipt.completed_at,
                    delivery_started_at: Some(receipt.started_at),
                    delivery_completed_at: Some(receipt.completed_at),
                },
            }
            &&& relay.records ==> advanced(last.0, RelayEventView::Recorded).1 is Stop
            &&& once ==> advanced(reporting, RelayEventView::Delivered(None)).1 is Stop
        }),
{
    reveal(advanced);
}

/// The preview of a delivered message: the question and the answer without white space around them, cut
/// to 240 characters.
pub proof fn preview_begins_with_the_question(prompt: Seq<char>, answer: Seq<char>)
    ensures
        ({
            let whole = "你："@ + text::trim(prompt) + "\n\nAI："@ + text::trim(answer);
            &&& route_preview(prompt, answer).len() <= 240
            &&& whole.len() <= 240 ==> route_preview(prompt, answer) == whole
            &&& whole.len() > 240 ==> route_preview(prompt, answer) == whole.take(240)
        }),
{
}

} // verus!
