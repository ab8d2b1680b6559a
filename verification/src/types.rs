//! What passes between a messaging platform, the library and the services around it.

use vstd::prelude::*;

use crate::json::{Json, JsonView};
use crate::text::same_text;

verus! {

// ── Platforms and plugins ───────────────────────────────────────────

/// A messaging platform.
#[derive(Debug, Clone, Copy, PartialEq, Eq, Structural)]
pub enum PluginType {
    Telegram,
    Lark,
    Dingtalk,
    Slack,
    Discord,
    Weixin,
    Wecom,
}

impl DeepView for PluginType {
    type V = PluginType;

    open spec fn deep_view(&self) -> PluginType {
        *self
    }
}

impl PluginType {
    /// The platform's name, which is also the id of its plugin.
    pub open spec fn name(self) -> Seq<char> {
        match self {
            PluginType::Telegram => "telegram"@,
            PluginType::Lark => "lark"@,
            PluginType::Dingtalk => "dingtalk"@,
            PluginType::Slack => "slack"@,
            PluginType::Discord => "discord"@,
            PluginType::Weixin => "weixin"@,
            PluginType::Wecom => "wecom"@,
        }
    }

    /// The platform's name, which is also the id of its plugin.
    pub fn as_str(self) -> (r: &'static str)
        ensures
            r@ == self.name(),
    {
        match self {
            PluginType::Telegram => "telegram",
            PluginType::Lark => "lark",
            PluginType::Dingtalk => "dingtalk",
            PluginType::Slack => "slack",
            PluginType::Discord => "discord",
            PluginType::Weixin => "weixin",
            PluginType::Wecom => "wecom",
        }
    }

    /// The platform of that name, if there is one.
    pub fn from_str_opt(name: &str) -> (r: Option<PluginType>)
        ensures
            r == platform_of(name@),
    {
        proof {
            if let Some(platform) = platform_of(name@) {
                assert(platform.name() == name@);
            }
            platform_of_its_name(PluginType::Telegram);
            platform_of_its_name(PluginType::Lark);
            platform_of_its_name(PluginType::Dingtalk);
            platform_of_its_name(PluginType::Slack);
            platform_of_its_name(PluginType::Discord);
            platform_of_its_name(PluginType::Weixin);
            platform_of_its_name(PluginType::Wecom);
        }
        if same_text(name, "telegram") {
            Some(PluginType::Telegram)
        } else if same_text(name, "lark") {
            Some(PluginType::Lark)
        } else if same_text(name, "dingtalk") {
            Some(PluginType::Dingtalk)
        } else if same_text(name, "slack") {
            Some(PluginType::Slack)
        } else if same_text(name, "discord") {
            Some(PluginType::Discord)
        } else if same_text(name, "weixin") {
            Some(PluginType::Weixin)
        } else if same_text(name, "wecom") {
            Some(PluginType::Wecom)
        } else {
            None
        }
    }
}

/// No two platforms share a name.
pub proof fn platform_names_are_distinct(a: PluginType, b: PluginType)
    ensures
        a.name() == b.name() ==> a == b,
{
    reveal_strlit("telegram");
    reveal_strlit("lark");
    reveal_strlit("dingtalk");
    reveal_strlit("slack");
    reveal_strlit("discord");
    reveal_strlit("weixin");
    reveal_strlit("wecom");
    if a != b && a.name() == b.name() {
        assert(a.name()[0] == b.name()[0]);
        assert(a.name()[1] == b.name()[1]);
        assert(a.name().len() == b.name().len());
    }
}

/// The platform of that name, if there is one.
pub open spec fn platform_of(name: Seq<char>) -> Option<PluginType> {
    if exists|platform: PluginType| #[trigger] platform.name() == name {
        Some(choose|platform: PluginType| #[trigger] platform.name() == name)
    } else {
        None
    }
}

/// What [`PluginType::from_str_opt`] gives for a platform's own name is that platform.
pub proof fn platform_of_its_name(platform: PluginType)
    ensures
        platform_of(platform.name()) == Some(platform),
{
    let found = choose|p: PluginType| #[trigger] p.name() == platform.name();
    platform_names_are_distinct(found, platform);
}

/// Where a plugin stands in its life.
#[derive(Debug, Clone, Copy, PartialEq, Eq, Structural)]
pub enum PluginStatus {
    Created,
    Initializing,
    Ready,
    Starting,
    Running,
    Stopping,
    Stopped,
    Error,
}

impl DeepView for PluginStatus {
    type V = PluginStatus;

    open spec fn deep_view(&self) -> PluginStatus {
        *self
    }
}

/// The account that a plugin speaks for.
#[derive(Debug, Clone, PartialEq, Eq)]
pub struct BotInfo {
    pub id: String,
    pub username: Option<String>,
    pub display_name: String,
}

/// The mathematical value of a [`BotInfo`].
#[verifier::ext_equal]
pub struct BotInfoView {
    pub id: Seq<char>,
    pub username: Option<Seq<char>>,
    pub display_name: Seq<char>,
}

impl DeepView for BotInfo {
    type V = BotInfoView;

    open spec fn deep_view(&self) -> BotInfoView {
        BotInfoView {
            id: self.id@,
            username: self.username.deep_view(),
            display_name: self.display_name@,
        }
    }
}

/// What a plugin was given to sign in with.
#[derive(Debug, PartialEq, Eq)]
pub struct PluginCredentials {
    pub token: Option<String>,
    pub app_id: Option<String>,
    pub app_secret: Option<String>,
    pub encrypt_key: Option<String>,
    pub verification_token: Option<String>,
    pub client_id: Option<String>,
    pub client_secret: Option<String>,
    pub account_id: Option<String>,
    pub bot_token: Option<String>,
    pub app_token: Option<String>,
    /// Anything else, by key.
    pub extra: Vec<(String, Json)>,
}

/// The mathematical value of a [`PluginCredentials`].
#[verifier::ext_equal]
pub struct PluginCredentialsView {
    pub token: Option<Seq<char>>,
    pub app_id: Option<Seq<char>>,
    pub app_secret: Option<Seq<char>>,
    pub encrypt_key: Option<Seq<char>>,
    pub verification_token: Option<Seq<char>>,
    pub client_id: Option<Seq<char>>,
    pub client_secret: Option<Seq<char>>,
    pub account_id: Option<Seq<char>>,
    pub bot_token: Option<Seq<char>>,
    pub app_token: Option<Seq<char>>,
    pub extra: Seq<(Seq<char>, JsonView)>,
}

impl DeepView for PluginCredentials {
    type V = PluginCredentialsView;

    open spec fn deep_view(&self) -> PluginCredentialsView {
        PluginCredentialsView {
            token: self.token.deep_view(),
            app_id: self.app_id.deep_view(),
            app_secret: self.app_secret.deep_view(),
            encrypt_key: self.encrypt_key.deep_view(),
            verification_token: self.verification_token.deep_view(),
            client_id: self.client_id.deep_view(),
            client_secret: self.client_secret.deep_view(),
            account_id: self.account_id.deep_view(),
            bot_token: self.bot_token.deep_view(),
            app_token: self.app_token.deep_view(),
            extra: self.extra.deep_view(),
        }
    }
}

/// The configuration of a plugin.
#[derive(Debug, PartialEq, Eq)]
pub struct PluginConfig {
    pub credentials: PluginCredentials,
    pub config: Option<Json>,
}

/// The mathematical value of a [`PluginConfig`].
#[verifier::ext_equal]
pub struct PluginConfigView {
    pub credentials: PluginCredentialsView,
    pub config: Option<JsonView>,
}

impl DeepView for PluginConfig {
    type V = PluginConfigView;

    open spec fn deep_view(&self) -> PluginConfigView {
        PluginConfigView {
            credentials: self.credentials.deep_view(),
            config: self.config.deep_view(),
        }
    }
}

/// One entry to keep with a plugin's credentials.
#[derive(Debug, PartialEq, Eq)]
pub struct PluginCredentialUpdate {
    /// The object under which the entry is kept.
    pub map_key: String,
    pub entry_key: String,
    pub value: Json,
}

/// The mathematical value of a [`PluginCredentialUpdate`].
#[verifier::ext_equal]
pub struct PluginCredentialUpdateView {
    pub map_key: Seq<char>,
    pub entry_key: Seq<char>,
    pub value: JsonView,
}

impl DeepView for PluginCredentialUpdate {
    type V = PluginCredentialUpdateView;

    open spec fn deep_view(&self) -> PluginCredentialUpdateView {
        PluginCredentialUpdateView {
            map_key: self.map_key@,
            entry_key: self.entry_key@,
            value: self.value.deep_view(),
        }
    }
}

// ── Actions ─────────────────────────────────────────────────────────

/// Who answers an action.
#[derive(Debug, Clone, Copy, PartialEq, Eq, Structural)]
pub enum ActionCategory {
    Platform,
    System,
    Chat,
}

impl DeepView for ActionCategory {
    type V = ActionCategory;

    open spec fn deep_view(&self) -> ActionCategory {
        *self
    }
}

/// How a response reaches the chat.
#[derive(Debug, Clone, Copy, PartialEq, Eq, Structural)]
pub enum ActionBehavior {
    /// As a new message.
    Send,
    /// In place of an earlier message.
    Edit,
    /// As an answer to the button press.
    Answer,
}

impl DeepView for ActionBehavior {
    type V = ActionBehavior;

    open spec fn deep_view(&self) -> ActionBehavior {
        *self
    }
}

/// How a platform reads markup in a text.
#[derive(Debug, Clone, Copy, PartialEq, Eq, Structural)]
pub enum ParseMode {
    HTML,
}

impl DeepView for ParseMode {
    type V = ParseMode;

    open spec fn deep_view(&self) -> ParseMode {
        *self
    }
}

/// A button under a message.
#[derive(Debug, PartialEq, Eq)]
pub struct ActionButton {
    pub label: String,
    /// The action that pressing the button asks for.
    pub action: String,
    pub params: Option<Vec<(String, String)>>,
}

/// The mathematical value of an [`ActionButton`].
#[verifier::ext_equal]
pub struct ActionButtonView {
    pub label: Seq<char>,
    pub action: Seq<char>,
    pub params: Option<Seq<(Seq<char>, Seq<char>)>>,
}

impl DeepView for ActionButton {
    type V = ActionButtonView;

    open spec fn deep_view(&self) -> ActionButtonView {
        ActionButtonView {
            label: self.label@,
            action: self.action@,
            params: self.params.deep_view(),
        }
    }
}

/// A copy of a list of pairs.
fn copy_pairs(pairs: &Vec<(String, String)>) -> (r: Vec<(String, String)>)
    ensures
        r.deep_view() == pairs.deep_view(),
{
    let mut out: Vec<(String, String)> = Vec::new();
    let mut i: usize = 0;
    while i < pairs.len()
        invariant
            i <= pairs@.len(),
            out@.len() == i,
            forall|k: int| 0 <= k < i ==> (#[trigger] out@[k]).deep_view() == pairs@[k].deep_view(),
        decreases pairs@.len() - i,
    {
        out.push((pairs[i].0.clone(), pairs[i].1.clone()));
        i = i + 1;
    }
    assert(out.deep_view() =~= pairs.deep_view());
    out
}

impl Clone for ActionButton {
    fn clone(&self) -> (r: Self)
        ensures
            r.deep_view() == self.deep_view(),
    {
        let params = match &self.params {
            Some(pairs) => Some(copy_pairs(pairs)),
            None => None,
        };
        ActionButton { label: self.label.clone(), action: self.action.clone(), params }
    }
}

/// A copy of a row of buttons.
fn copy_row(row: &Vec<ActionButton>) -> (r: Vec<ActionButton>)
    ensures
        r.deep_view() == row.deep_view(),
{
    let mut out: Vec<ActionButton> = Vec::new();
    let mut i: usize = 0;
    while i < row.len()
        invariant
            i <= row@.len(),
            out@.len() == i,
            forall|k: int| 0 <= k < i ==> (#[trigger] out@[k]).deep_view() == row@[k].deep_view(),
        decreases row@.len() - i,
    {
        out.push(row[i].clone());
        i = i + 1;
    }
    assert(out.deep_view() =~= row.deep_view());
    out
}

/// A copy of rows of buttons.
pub fn copy_buttons(buttons: &Option<Vec<Vec<ActionButton>>>) -> (r: Option<Vec<Vec<ActionButton>>>)
    ensures
        r.deep_view() == buttons.deep_view(),
{
    match buttons {
        None => None,
        Some(rows) => {
            let mut out: Vec<Vec<ActionButton>> = Vec::new();
            let mut i: usize = 0;
            while i < rows.len()
                invariant
                    i <= rows@.len(),
                    out@.len() == i,
                    forall|k: int|
                        0 <= k < i ==> (#[trigger] out@[k]).deep_view() == rows@[k].deep_view(),
                decreases rows@.len() - i,
            {
                out.push(copy_row(&rows[i]));
                i = i + 1;
            }
            assert(out.deep_view() =~= rows.deep_view());
            Some(out)
        },
    }
}

/// What an action is answered with.
#[derive(Debug, Clone, PartialEq, Eq)]
pub struct ActionResponse {
    pub text: Option<String>,
    pub parse_mode: Option<ParseMode>,
    /// Rows of buttons.
    pub buttons: Option<Vec<Vec<ActionButton>>>,
    pub keyboard: Option<Vec<Vec<ActionButton>>>,
    pub behavior: ActionBehavior,
    pub toast: Option<String>,
    /// The message to put the text into.
    pub edit_message_id: Option<String>,
}

/// The mathematical value of an [`ActionResponse`].
#[verifier::ext_equal]
pub struct ActionResponseView {
    pub text: Option<Seq<char>>,
    pub parse_mode: Option<ParseMode>,
    pub buttons: Option<Seq<Seq<ActionButtonView>>>,
    pub keyboard: Option<Seq<Seq<ActionButtonView>>>,
    pub behavior: ActionBehavior,
    pub toast: Option<Seq<char>>,
    pub edit_message_id: Option<Seq<char>>,
}

impl DeepView for ActionResponse {
    type V = ActionResponseView;

    open spec fn deep_view(&self) -> ActionResponseView {
        ActionResponseView {
            text: self.text.deep_view(),
            parse_mode: self.parse_mode.deep_view(),
            buttons: self.buttons.deep_view(),
            keyboard: self.keyboard.deep_view(),
            behavior: self.behavior,
            toast: self.toast.deep_view(),
            edit_message_id: self.edit_message_id.deep_view(),
        }
    }
}

/// Where a button was pressed.
#[derive(Debug, Clone, PartialEq, Eq)]
pub struct ActionContext {
    pub platform: PluginType,
    pub user_id: String,
    pub chat_id: String,
    pub message_id: Option<String>,
    pub session_id: Option<String>,
}

/// The mathematical value of an [`ActionContext`].
#[verifier::ext_equal]
pub struct ActionContextView {
    pub platform: PluginType,
    pub user_id: Seq<char>,
    pub chat_id: Seq<char>,
    pub message_id: Option<Seq<char>>,
    pub session_id: Option<Seq<char>>,
}

impl DeepView for ActionContext {
    type V = ActionContextView;

    open spec fn deep_view(&self) -> ActionContextView {
        ActionContextView {
            platform: self.platform,
            user_id: self.user_id@,
            chat_id: self.chat_id@,
            message_id: self.message_id.deep_view(),
            session_id: self.session_id.deep_view(),
        }
    }
}

/// A pressed button.
#[derive(Debug, Clone, PartialEq, Eq)]
pub struct UnifiedAction {
    pub action: String,
    pub category: ActionCategory,
    pub params: Option<Vec<(String, String)>>,
    pub context: ActionContext,
}

/// The mathematical value of a [`UnifiedAction`].
#[verifier::ext_equal]
pub struct UnifiedActionView {
    pub action: Seq<char>,
    pub category: ActionCategory,
    pub params: Option<Seq<(Seq<char>, Seq<char>)>>,
    pub context: ActionContextView,
}

impl DeepView for UnifiedAction {
    type V = UnifiedActionView;

    open spec fn deep_view(&self) -> UnifiedActionView {
        UnifiedActionView {
            action: self.action@,
            category: self.category,
            params: self.params.deep_view(),
            context: self.context.deep_view(),
        }
    }
}

// ── Messages ────────────────────────────────────────────────────────

/// What an incoming message is.
#[derive(Debug, Clone, Copy, PartialEq, Eq, Structural)]
pub enum MessageContentType {
    Text,
    Command,
    Action,
}

impl DeepView for MessageContentType {
    type V = MessageContentType;

    open spec fn deep_view(&self) -> MessageContentType {
        *self
    }
}

/// The sender of a message.
#[derive(Debug, Clone, PartialEq, Eq)]
pub struct UnifiedUser {
    pub id: String,
    pub username: Option<String>,
    pub display_name: String,
    pub avatar_url: Option<String>,
}

/// The mathematical value of a [`UnifiedUser`].
#[verifier::ext_equal]
pub struct UnifiedUserView {
    pub id: Seq<char>,
    pub username: Option<Seq<char>>,
    pub display_name: Seq<char>,
    pub avatar_url: Option<Seq<char>>,
}

impl DeepView for UnifiedUser {
    type V = UnifiedUserView;

    open spec fn deep_view(&self) -> UnifiedUserView {
        UnifiedUserView {
            id: self.id@,
            username: self.username.deep_view(),
            display_name: self.display_name@,
            avatar_url: self.avatar_url.deep_view(),
        }
    }
}

/// The content of a message.
#[derive(Debug, Clone, PartialEq, Eq)]
pub struct UnifiedMessageContent {
    pub content_type: MessageContentType,
    pub text: String,
    pub attachments: Option<Vec<String>>,
}

/// The mathematical value of a [`UnifiedMessageContent`].
#[verifier::ext_equal]
pub struct UnifiedMessageContentView {
    pub content_type: MessageContentType,
    pub text: Seq<char>,
    pub attachments: Option<Seq<Seq<char>>>,
}

impl DeepView for UnifiedMessageContent {
    type V = UnifiedMessageContentView;

    open spec fn deep_view(&self) -> UnifiedMessageContentView {
        UnifiedMessageContentView {
            content_type: self.content_type,
            text: self.text@,
            attachments: self.attachments.deep_view(),
        }
    }
}

/// A message from any platform.
#[derive(Debug, PartialEq, Eq)]
pub struct UnifiedIncomingMessage {
    /// The desktop user whose channel the message came through.
    pub owner_user_id: Option<String>,
    pub id: String,
    pub platform: PluginType,
    pub chat_id: String,
    pub user: UnifiedUser,
    pub content: UnifiedMessageContent,
    pub timestamp: i64,
    /// The message that this one quotes.
    pub reply_to_message_id: Option<String>,
    pub action: Option<UnifiedAction>,
    /// What the platform said besides.
    pub raw: Option<Json>,
}

/// The mathematical value of a [`UnifiedIncomingMessage`].
#[verifier::ext_equal]
pub struct UnifiedIncomingMessageView {
    pub owner_user_id: Option<Seq<char>>,
    pub id: Seq<char>,
    pub platform: PluginType,
    pub chat_id: Seq<char>,
    pub user: UnifiedUserView,
    pub content: UnifiedMessageContentView,
    pub timestamp: i64,
    pub reply_to_message_id: Option<Seq<char>>,
    pub action: Option<UnifiedActionView>,
    pub raw: Option<JsonView>,
}

impl DeepView for UnifiedIncomingMessage {
    type V = UnifiedIncomingMessageView;

    open spec fn deep_view(&self) -> UnifiedIncomingMessageView {
        UnifiedIncomingMessageView {
            owner_user_id: self.owner_user_id.deep_view(),
            id: self.id@,
            platform: self.platform,
            chat_id: self.chat_id@,
            user: self.user.deep_view(),
            content: self.content.deep_view(),
            timestamp: self.timestamp,
            reply_to_message_id: self.reply_to_message_id.deep_view(),
            action: self.action.deep_view(),
            raw: self.raw.deep_view(),
        }
    }
}

/// What an outgoing message is.
#[derive(Debug, Clone, Copy, PartialEq, Eq, Structural)]
pub enum OutgoingMessageType {
    Text,
}

impl DeepView for OutgoingMessageType {
    type V = OutgoingMessageType;

    open spec fn deep_view(&self) -> OutgoingMessageType {
        *self
    }
}

/// A message to any platform.
#[derive(Debug, Clone, PartialEq, Eq)]
pub struct UnifiedOutgoingMessage {
    pub message_type: OutgoingMessageType,
    pub text: Option<String>,
    pub parse_mode: Option<ParseMode>,
    pub buttons: Option<Vec<Vec<ActionButton>>>,
    pub keyboard: Option<Vec<Vec<ActionButton>>>,
    pub image_url: Option<String>,
    pub file_url: Option<String>,
    pub file_name: Option<String>,
    pub media_actions: Option<Vec<String>>,
    pub reply_to_message_id: Option<String>,
    pub silent: Option<bool>,
}

/// The mathematical value of a [`UnifiedOutgoingMessage`].
#[verifier::ext_equal]
pub struct UnifiedOutgoingMessageView {
    pub message_type: OutgoingMessageType,
    pub text: Option<Seq<char>>,
    pub parse_mode: Option<ParseMode>,
    pub buttons: Option<Seq<Seq<ActionButtonView>>>,
    pub keyboard: Option<Seq<Seq<ActionButtonView>>>,
    pub image_url: Option<Seq<char>>,
    pub file_url: Option<Seq<char>>,
    pub file_name: Option<Seq<char>>,
    pub media_actions: Option<Seq<Seq<char>>>,
    pub reply_to_message_id: Option<Seq<char>>,
    pub silent: Option<bool>,
}

impl DeepView for UnifiedOutgoingMessage {
    type V = UnifiedOutgoingMessageView;

    open spec fn deep_view(&self) -> UnifiedOutgoingMessageView {
        UnifiedOutgoingMessageView {
            message_type: self.message_type,
            text: self.text.deep_view(),
            parse_mode: self.parse_mode.deep_view(),
            buttons: self.buttons.deep_view(),
            keyboard: self.keyboard.deep_view(),
            image_url: self.image_url.deep_view(),
            file_url: self.file_url.deep_view(),
            file_name: self.file_name.deep_view(),
            media_actions: self.media_actions.deep_view(),
            reply_to_message_id: self.reply_to_message_id.deep_view(),
            silent: self.silent.deep_view(),
        }
    }
}

/// A message of nothing but text.
pub open spec fn text_message_view(text: Seq<char>) -> UnifiedOutgoingMessageView {
    UnifiedOutgoingMessageView {
        message_type: OutgoingMessageType::Text,
        text: Some(text),
        parse_mode: None,
        buttons: None,
        keyboard: None,
        image_url: None,
        file_url: None,
        file_name: None,
        media_actions: None,
        reply_to_message_id: None,
        silent: None,
    }
}

/// A message of nothing but text.
pub fn text_message(text: String) -> (r: UnifiedOutgoingMessage)
    ensures
        r.deep_view() == text_message_view(text@),
{
    UnifiedOutgoingMessage {
        message_type: OutgoingMessageType::Text,
        text: Some(text),
        parse_mode: None,
        buttons: None,
        keyboard: None,
        image_url: None,
        file_url: None,
        file_name: None,
        media_actions: None,
        reply_to_message_id: None,
        silent: None,
    }
}

// ── Sessions ────────────────────────────────────────────────────────

/// Which agent answers on a platform.
#[derive(Debug, Clone, PartialEq, Eq)]
pub struct AgentConfig {
    pub agent_type: String,
    /// The command-line tool behind the agent.
    pub backend: Option<String>,
}

/// The mathematical value of an [`AgentConfig`].
#[verifier::ext_equal]
pub struct AgentConfigView {
    pub agent_type: Seq<char>,
    pub backend: Option<Seq<char>>,
}

impl DeepView for AgentConfig {
    type V = AgentConfigView;

    open spec fn deep_view(&self) -> AgentConfigView {
        AgentConfigView {
            agent_type: self.agent_type@,
            backend: self.backend.deep_view(),
        }
    }
}

/// A channel session.
#[derive(Debug, Clone, PartialEq, Eq)]
pub struct ChannelSession {
    pub id: String,
    pub agent_type: String,
    /// The conversation that the session is bound to.
    pub conversation_id: Option<String>,
    pub created_at: i64,
    pub last_activity: i64,
}

/// The mathematical value of a [`ChannelSession`].
#[verifier::ext_equal]
pub struct ChannelSessionView {
    pub id: Seq<char>,
    pub agent_type: Seq<char>,
    pub conversation_id: Option<Seq<char>>,
    pub created_at: i64,
    pub last_activity: i64,
}

impl DeepView for ChannelSession {
    type V = ChannelSessionView;

    open spec fn deep_view(&self) -> ChannelSessionView {
        ChannelSessionView {
            id: self.id@,
            agent_type: self.agent_type@,
            conversation_id: self.conversation_id.deep_view(),
            created_at: self.created_at,
            last_activity: self.last_activity,
        }
    }
}

// ── Errors ──────────────────────────────────────────────────────────

/// What can go wrong on a channel, with a text for the reader.
#[derive(Debug, PartialEq, Eq)]
pub enum ChannelError {
    InvalidConfig(String),
    ConnectionFailed(String),
    PlatformApi(String),
    MessageSendFailed(String),
    Database(String),
}

/// The mathematical value of a [`ChannelError`].
#[verifier::ext_equal]
pub enum ChannelErrorView {
    InvalidConfig(Seq<char>),
    ConnectionFailed(Seq<char>),
    PlatformApi(Seq<char>),
    MessageSendFailed(Seq<char>),
    Database(Seq<char>),
}

impl DeepView for ChannelError {
    type V = ChannelErrorView;

    open spec fn deep_view(&self) -> ChannelErrorView {
        match self {
            ChannelError::InvalidConfig(value) => ChannelErrorView::InvalidConfig(value@),
            ChannelError::ConnectionFailed(value) => ChannelErrorView::ConnectionFailed(value@),
            ChannelError::PlatformApi(value) => ChannelErrorView::PlatformApi(value@),
            ChannelError::MessageSendFailed(value) => ChannelErrorView::MessageSendFailed(value@),
            ChannelError::Database(value) => ChannelErrorView::Database(value@),
        }
    }
}

impl Clone for ChannelError {
    fn clone(&self) -> (r: Self)
        ensures
            r.deep_view() == self.deep_view(),
    {
        match self {
            ChannelError::InvalidConfig(text) => ChannelError::InvalidConfig(text.clone()),
            ChannelError::ConnectionFailed(text) => ChannelError::ConnectionFailed(text.clone()),
            ChannelError::PlatformApi(text) => ChannelError::PlatformApi(text.clone()),
            ChannelError::MessageSendFailed(text) => ChannelError::MessageSendFailed(text.clone()),
            ChannelError::Database(text) => ChannelError::Database(text.clone()),
        }
    }
}

impl ChannelError {
    /// The text for the reader.
    pub fn message(&self) -> (r: &str)
        ensures
            self.deep_view() == (match self {
                ChannelError::InvalidConfig(_) => ChannelErrorView::InvalidConfig(r@),
                ChannelError::ConnectionFailed(_) => ChannelErrorView::ConnectionFailed(r@),
                ChannelError::PlatformApi(_) => ChannelErrorView::PlatformApi(r@),
                ChannelError::MessageSendFailed(_) => ChannelErrorView::MessageSendFailed(r@),
                ChannelError::Database(_) => ChannelErrorView::Database(r@),
            }),
    {
        match self {
            ChannelError::InvalidConfig(text) => text.as_str(),
            ChannelError::ConnectionFailed(text) => text.as_str(),
            ChannelError::PlatformApi(text) => text.as_str(),
            ChannelError::MessageSendFailed(text) => text.as_str(),
            ChannelError::Database(text) => text.as_str(),
        }
    }
}

/// The names of the platforms, which are stored and sent: each its own.
pub proof fn platforms_have_their_names(platform: PluginType)
    ensures
        platform == PluginType::Telegram ==> platform.name() == "telegram"@,
        platform == PluginType::Lark ==> platform.name() == "lark"@,
        platform == PluginType::Dingtalk ==> platform.name() == "dingtalk"@,
        platform == PluginType::Slack ==> platform.name() == "slack"@,
        platform == PluginType::Discord ==> platform.name() == "discord"@,
        platform == PluginType::Weixin ==> platform.name() == "weixin"@,
        platform == PluginType::Wecom ==> platform.name() == "wecom"@,
{
}

/// A text is sent as it is, and with nothing else.
pub proof fn text_is_sent_as_it_is(text: Seq<char>)
    ensures
        ({
            let message = text_message_view(text);
            &&& message.message_type == OutgoingMessageType::Text
            &&& message.text == Some(text)
            &&& message.parse_mode is None
            &&& message.buttons is None
            &&& message.keyboard is None
            &&& message.image_url is None
            &&& message.file_url is None
            &&& message.file_name is None
            &&& message.media_actions is None
            &&& message.reply_to_message_id is None
            &&& message.silent is None
        }),
{
}

} // verus!
