//! What the library asks of the store behind the channels.

use vstd::prelude::*;
use vstd::string::*;

verus! {

// ── Rows ────────────────────────────────────────────────────────────

/// A registered plugin.
#[derive(Debug, Clone, PartialEq, Eq)]
pub struct ChannelPluginRow {
    pub id: String,
    pub owner_user_id: String,
    /// The name of its platform.
    pub plugin_type: String,
    pub name: String,
    pub enabled: bool,
    pub config: String,
    pub status: Option<String>,
    pub last_connected: Option<i64>,
    pub created_at: i64,
    pub updated_at: i64,
}

/// The mathematical value of a [`ChannelPluginRow`].
#[verifier::ext_equal]
pub struct ChannelPluginRowView {
    pub id: Seq<char>,
    pub owner_user_id: Seq<char>,
    pub plugin_type: Seq<char>,
    pub name: Seq<char>,
    pub enabled: bool,
    pub config: Seq<char>,
    pub status: Option<Seq<char>>,
    pub last_connected: Option<i64>,
    pub created_at: i64,
    pub updated_at: i64,
}

impl DeepView for ChannelPluginRow {
    type V = ChannelPluginRowView;

    open spec fn deep_view(&self) -> ChannelPluginRowView {
        ChannelPluginRowView {
            id: self.id@,
            owner_user_id: self.owner_user_id@,
            plugin_type: self.plugin_type@,
            name: self.name@,
            enabled: self.enabled,
            config: self.config@,
            status: self.status.deep_view(),
            last_connected: self.last_connected.deep_view(),
            created_at: self.created_at,
            updated_at: self.updated_at,
        }
    }
}

/// An authorized platform user.
#[derive(Debug, Clone, PartialEq, Eq)]
pub struct AssistantUserRow {
    pub id: String,
    pub owner_user_id: String,
    pub platform_user_id: String,
    pub platform_type: String,
    pub display_name: Option<String>,
    pub authorized_at: i64,
    pub last_active: Option<i64>,
    pub session_id: Option<String>,
}

/// The mathematical value of an [`AssistantUserRow`].
#[verifier::ext_equal]
pub struct AssistantUserRowView {
    pub id: Seq<char>,
    pub owner_user_id: Seq<char>,
    pub platform_user_id: Seq<char>,
    pub platform_type: Seq<char>,
    pub display_name: Option<Seq<char>>,
    pub authorized_at: i64,
    pub last_active: Option<i64>,
    pub session_id: Option<Seq<char>>,
}

impl DeepView for AssistantUserRow {
    type V = AssistantUserRowView;

    open spec fn deep_view(&self) -> AssistantUserRowView {
        AssistantUserRowView {
            id: self.id@,
            owner_user_id: self.owner_user_id@,
            platform_user_id: self.platform_user_id@,
            platform_type: self.platform_type@,
            display_name: self.display_name.deep_view(),
            authorized_at: self.authorized_at,
            last_active: self.last_active.deep_view(),
            session_id: self.session_id.deep_view(),
        }
    }
}

/// A session of a platform user.
#[derive(Debug, Clone, PartialEq, Eq)]
pub struct AssistantSessionRow {
    pub id: String,
    pub user_id: String,
    pub agent_type: String,
    pub conversation_id: Option<String>,
    pub chat_id: Option<String>,
    pub created_at: i64,
    pub last_activity: i64,
}

/// The mathematical value of an [`AssistantSessionRow`].
#[verifier::ext_equal]
pub struct AssistantSessionRowView {
    pub id: Seq<char>,
    pub user_id: Seq<char>,
    pub agent_type: Seq<char>,
    pub conversation_id: Option<Seq<char>>,
    pub chat_id: Option<Seq<char>>,
    pub created_at: i64,
    pub last_activity: i64,
}

impl DeepView for AssistantSessionRow {
    type V = AssistantSessionRowView;

    open spec fn deep_view(&self) -> AssistantSessionRowView {
        AssistantSessionRowView {
            id: self.id@,
            user_id: self.user_id@,
            agent_type: self.agent_type@,
            conversation_id: self.conversation_id.deep_view(),
            chat_id: self.chat_id.deep_view(),
            created_at: self.created_at,
            last_activity: self.last_activity,
        }
    }
}

/// A pairing code and what became of it.
#[derive(Debug, Clone, PartialEq, Eq)]
pub struct PairingCodeRow {
    pub code: String,
    pub platform_user_id: String,
    pub platform_type: String,
    pub display_name: Option<String>,
    pub requested_at: i64,
    pub expires_at: i64,
    pub status: String,
}

/// The mathematical value of a [`PairingCodeRow`].
#[verifier::ext_equal]
pub struct PairingCodeRowView {
    pub code: Seq<char>,
    pub platform_user_id: Seq<char>,
    pub platform_type: Seq<char>,
    pub display_name: Option<Seq<char>>,
    pub requested_at: i64,
    pub expires_at: i64,
    pub status: Seq<char>,
}

impl DeepView for PairingCodeRow {
    type V = PairingCodeRowView;

    open spec fn deep_view(&self) -> PairingCodeRowView {
        PairingCodeRowView {
            code: self.code@,
            platform_user_id: self.platform_user_id@,
            platform_type: self.platform_type@,
            display_name: self.display_name.deep_view(),
            requested_at: self.requested_at,
            expires_at: self.expires_at,
            status: self.status@,
        }
    }
}

// ── Parameters ──────────────────────────────────────────────────────

/// Parameters for updating a plugin's runtime status. What is `None` stays.
#[derive(Debug, Clone, PartialEq, Eq)]
pub struct UpdatePluginStatusParams {
    pub status: Option<String>,
    pub last_connected: Option<i64>,
    pub enabled: Option<bool>,
}

/// The mathematical value of an [`UpdatePluginStatusParams`].
#[verifier::ext_equal]
pub struct UpdatePluginStatusParamsView {
    pub status: Option<Seq<char>>,
    pub last_connected: Option<i64>,
    pub enabled: Option<bool>,
}

impl DeepView for UpdatePluginStatusParams {
    type V = UpdatePluginStatusParamsView;

    open spec fn deep_view(&self) -> UpdatePluginStatusParamsView {
        UpdatePluginStatusParamsView {
            status: self.status.deep_view(),
            last_connected: self.last_connected.deep_view(),
            enabled: self.enabled.deep_view(),
        }
    }
}

impl Default for UpdatePluginStatusParams {
    fn default() -> (r: Self)
        ensures
            r.status is None,
            r.last_connected is None,
            r.enabled is None,
    {
        UpdatePluginStatusParams { status: None, last_connected: None, enabled: None }
    }
}

/// One outgoing channel message as a target for replies.
#[derive(Debug, Clone, PartialEq, Eq)]
pub struct ConversationRoute {
    pub conversation_id: String,
    pub platform_type: String,
    pub chat_id: String,
    pub message_id: String,
    pub preview_text: Option<String>,
    pub sent_at: i64,
    pub delivery_started_at: Option<i64>,
    pub delivery_completed_at: Option<i64>,
}

/// Parameters for recording one outgoing channel message as a target for replies.
#[derive(Debug, Clone, PartialEq, Eq)]
pub struct UpsertChannelConversationRouteParams<'a> {
    pub conversation_id: &'a str,
    pub platform_type: &'a str,
    pub chat_id: &'a str,
    pub message_id: &'a str,
    pub preview_text: Option<&'a str>,
    pub sent_at: i64,
    pub delivery_started_at: Option<i64>,
    pub delivery_completed_at: Option<i64>,
}

/// The mathematical value of a [`ConversationRoute`] and of its parameters.
#[verifier::ext_equal]
pub struct ConversationRouteView {
    pub conversation_id: Seq<char>,
    pub platform_type: Seq<char>,
    pub chat_id: Seq<char>,
    pub message_id: Seq<char>,
    pub preview_text: Option<Seq<char>>,
    pub sent_at: i64,
    pub delivery_started_at: Option<i64>,
    pub delivery_completed_at: Option<i64>,
}

impl DeepView for ConversationRoute {
    type V = ConversationRouteView;

    open spec fn deep_view(&self) -> ConversationRouteView {
        ConversationRouteView {
            conversation_id: self.conversation_id@,
            platform_type: self.platform_type@,
            chat_id: self.chat_id@,
            message_id: self.message_id@,
            preview_text: self.preview_text.deep_view(),
            sent_at: self.sent_at,
            delivery_started_at: self.delivery_started_at,
            delivery_completed_at: self.delivery_completed_at,
        }
    }
}

impl<'a> DeepView for UpsertChannelConversationRouteParams<'a> {
    type V = ConversationRouteView;

    open spec fn deep_view(&self) -> ConversationRouteView {
        ConversationRouteView {
            conversation_id: self.conversation_id@,
            platform_type: self.platform_type@,
            chat_id: self.chat_id@,
            message_id: self.message_id@,
            preview_text: self.preview_text.deep_view(),
            sent_at: self.sent_at,
            delivery_started_at: self.delivery_started_at,
            delivery_completed_at: self.delivery_completed_at,
        }
    }
}

impl ConversationRoute {
    /// The route as the store takes it.
    pub fn params(&self) -> (r: UpsertChannelConversationRouteParams<'_>)
        ensures
            r.deep_view() == self.deep_view(),
    {
        let preview_text = match &self.preview_text {
            Some(text) => Some(text.as_str()),
            None => None,
        };
        UpsertChannelConversationRouteParams {
            conversation_id: self.conversation_id.as_str(),
            platform_type: self.platform_type.as_str(),
            chat_id: self.chat_id.as_str(),
            message_id: self.message_id.as_str(),
            preview_text,
            sent_at: self.sent_at,
            delivery_started_at: self.delivery_started_at,
            delivery_completed_at: self.delivery_completed_at,
        }
    }
}

// ── The store ───────────────────────────────────────────────────────

/// What a store reports.
#[derive(Debug, Clone, PartialEq, Eq)]
pub enum DbError {
    /// Nothing has this id.
    NotFound(String),
    /// The store is not able to do this.
    Init(String),
    /// The schema could not be brought up to date.
    Migration(String),
}

/// The mathematical value of a [`DbError`].
#[verifier::ext_equal]
pub enum DbErrorView {
    NotFound(Seq<char>),
    Init(Seq<char>),
    Migration(Seq<char>),
}

impl DeepView for DbError {
    type V = DbErrorView;

    open spec fn deep_view(&self) -> DbErrorView {
        match self {
            DbError::NotFound(value) => DbErrorView::NotFound(value@),
            DbError::Init(value) => DbErrorView::Init(value@),
            DbError::Migration(value) => DbErrorView::Migration(value@),
        }
    }
}

/// The refusal of a store that does not offer `operation`.
pub open spec fn not_implemented_error(operation: Seq<char>) -> DbErrorView {
    DbErrorView::Init(operation + " is not implemented"@)
}

/// The refusal of a store that does not offer `operation`.
pub fn not_implemented(operation: &str) -> (r: DbError)
    ensures
        r.deep_view() == not_implemented_error(operation@),
{
    DbError::Init(operation.to_owned().concat(" is not implemented"))
}

/// Data access for the channel tables: plugins, users, sessions and pairing codes, and the routes
/// by which replies find their conversation.
pub trait IChannelRepository {
    // ── Plugins ─────────────────────────────────────────────────────

    /// Returns all registered plugins of an owner.
    fn get_all_plugins(
        &self,
        owner_user_id: &str,
    ) -> Result<Vec<ChannelPluginRow>, DbError>;

    /// Returns a single plugin by id, or `None` if not found.
    fn get_plugin(
        &self,
        owner_user_id: &str,
        id: &str,
    ) -> Result<Option<ChannelPluginRow>, DbError>;

    /// Inserts a new plugin or updates an existing one (by id).
    fn upsert_plugin(
        &self,
        owner_user_id: &str,
        row: &ChannelPluginRow,
    ) -> Result<(), DbError>;

    /// Updates only the `status` and `last_connected` of a plugin.
    fn update_plugin_status(
        &self,
        owner_user_id: &str,
        id: &str,
        params: &UpdatePluginStatusParams,
    ) -> Result<(), DbError>;

    /// Deletes a plugin by id. Returns `DbError::NotFound` if absent.
    fn delete_plugin(
        &self,
        owner_user_id: &str,
        id: &str,
    ) -> Result<(), DbError>;

    // ── Users ───────────────────────────────────────────────────────

    /// Returns all authorized users of an owner.
    fn get_all_users(
        &self,
        owner_user_id: &str,
    ) -> Result<Vec<AssistantUserRow>, DbError>;

    /// Finds a user by platform identity. Returns `None` if not found.
    fn get_user_by_platform(
        &self,
        owner_user_id: &str,
        platform_user_id: &str,
        platform_type: &str,
    ) -> Result<Option<AssistantUserRow>, DbError>;

    /// Creates a new authorized user record.
    fn create_user(
        &self,
        owner_user_id: &str,
        row: &AssistantUserRow,
    ) -> Result<(), DbError>;

    /// Updates the `last_active` timestamp of a user.
    fn update_user_last_active(
        &self,
        owner_user_id: &str,
        id: &str,
        last_active: i64,
    ) -> Result<(), DbError>;

    /// Deletes a user by id, and the sessions with it. Returns `DbError::NotFound` if absent.
    fn delete_user(
        &self,
        owner_user_id: &str,
        id: &str,
    ) -> Result<(), DbError>;

    // ── Sessions ────────────────────────────────────────────────────

    /// Returns all sessions of an owner.
    fn get_all_sessions(
        &self,
        owner_user_id: &str,
    ) -> Result<Vec<AssistantSessionRow>, DbError>;

    /// Returns a single session by id.
    fn get_session(
        &self,
        owner_user_id: &str,
        id: &str,
    ) -> Result<Option<AssistantSessionRow>, DbError>;

    /// Finds an existing session by user and chat, or creates a new one.
    /// If found, updates `last_activity` and returns the existing row.
    /// If not found, inserts `new_row` and returns it.
    fn get_or_create_session(
        &self,
        owner_user_id: &str,
        channel_user_id: &str,
        chat_id: &str,
        new_row: &AssistantSessionRow,
    ) -> Result<AssistantSessionRow, DbError>;

    /// Inserts a new session even when the same user and chat already have sessions.
    fn create_session(
        &self,
        owner_user_id: &str,
        channel_user_id: &str,
        new_row: &AssistantSessionRow,
    ) -> (r: Result<AssistantSessionRow, DbError>)
        default_ensures
            r matches Err(error) && error.deep_view() == not_implemented_error("create_session"@),
    {
        Err(not_implemented("create_session"))
    }

    /// Resolves a platform reply target to its exact channel session.
    fn get_session_by_route(
        &self,
        owner_user_id: &str,
        channel_user_id: &str,
        platform_type: &str,
        chat_id: &str,
        message_id: &str,
    ) -> (r: Result<Option<AssistantSessionRow>, DbError>)
        default_ensures
            r matches Err(error) && error.deep_view() == not_implemented_error("get_session_by_route"@),
    {
        Err(not_implemented("get_session_by_route"))
    }

    /// Binds a platform message to a session and keeps recent route history bounded.
    fn upsert_session_route(
        &self,
        owner_user_id: &str,
        session_id: &str,
        platform_type: &str,
        chat_id: &str,
        message_id: &str,
        created_at: i64,
    ) -> (r: Result<(), DbError>)
        default_ensures
            r matches Err(error) && error.deep_view() == not_implemented_error("upsert_session_route"@),
    {
        Err(not_implemented("upsert_session_route"))
    }

    // ── Conversation reply routes ───────────────────────────────────

    /// Binds an outgoing platform message to any desktop conversation.
    fn upsert_conversation_route(
        &self,
        owner_user_id: &str,
        params: &UpsertChannelConversationRouteParams<'_>,
    ) -> (r: Result<(), DbError>)
        default_ensures
            r matches Err(error) && error.deep_view() == not_implemented_error("upsert_conversation_route"@),
    {
        Err(not_implemented("upsert_conversation_route"))
    }

    /// Resolves an exact quoted platform message to its desktop conversation.
    fn resolve_conversation_route(
        &self,
        owner_user_id: &str,
        platform_type: &str,
        chat_id: &str,
        message_id: &str,
    ) -> (r: Result<Option<String>, DbError>)
        default_ensures
            r matches Err(error) && error.deep_view() == not_implemented_error("resolve_conversation_route"@),
    {
        Err(not_implemented("resolve_conversation_route"))
    }

    /// Resolves quoted preview text. When `require_unique` is true, ambiguous
    /// matches intentionally return `None`.
    fn resolve_conversation_route_by_preview(
        &self,
        owner_user_id: &str,
        platform_type: &str,
        chat_id: &str,
        quoted_text: &str,
        require_unique: bool,
    ) -> (r: Result<Option<String>, DbError>)
        default_ensures
            r matches Err(error) && error.deep_view() == not_implemented_error("resolve_conversation_route_by_preview"@),
    {
        Err(not_implemented("resolve_conversation_route_by_preview"))
    }

    /// Resolves a WeChat snowflake timestamp against recorded send and delivery times.
    fn resolve_conversation_route_by_timestamp(
        &self,
        owner_user_id: &str,
        platform_type: &str,
        chat_id: &str,
        reply_timestamp: i64,
        max_skew_ms: i64,
    ) -> (r: Result<Option<String>, DbError>)
        default_ensures
            r matches Err(error) && error.deep_view() == not_implemented_error("resolve_conversation_route_by_timestamp"@),
    {
        Err(not_implemented("resolve_conversation_route_by_timestamp"))
    }

    /// Updates the `last_activity` timestamp of a session.
    fn update_session_activity(
        &self,
        owner_user_id: &str,
        id: &str,
        last_activity: i64,
    ) -> Result<(), DbError>;

    /// Updates the `conversation_id` of a session.
    fn update_session_conversation(
        &self,
        owner_user_id: &str,
        id: &str,
        conversation_id: &str,
    ) -> Result<(), DbError>;

    /// Updates the `agent_type` of a session.
    fn update_session_agent_type(
        &self,
        owner_user_id: &str,
        id: &str,
        agent_type: &str,
    ) -> Result<(), DbError>;

    /// Deletes all sessions belonging to a user.
    fn delete_sessions_by_user(
        &self,
        owner_user_id: &str,
        channel_user_id: &str,
    ) -> Result<(), DbError>;

    /// Deletes the session of a specific user and chat pair.
    fn delete_session_by_user_chat(
        &self,
        owner_user_id: &str,
        channel_user_id: &str,
        chat_id: &str,
    ) -> Result<(), DbError>;

    // ── Pairing codes ───────────────────────────────────────────────

    /// Creates a new pairing code record.
    fn create_pairing(
        &self,
        owner_user_id: &str,
        row: &PairingCodeRow,
    ) -> Result<(), DbError>;

    /// Returns all pairing codes with status `pending`.
    fn get_pending_pairings(
        &self,
        owner_user_id: &str,
    ) -> Result<Vec<PairingCodeRow>, DbError>;

    /// Retrieves a single pairing code, or `None` if not found.
    fn get_pairing_by_code(
        &self,
        owner_user_id: &str,
        code: &str,
    ) -> Result<Option<PairingCodeRow>, DbError>;

    /// Updates the status of a pairing code.
    /// Returns `DbError::NotFound` if the code doesn't exist.
    fn update_pairing_status(
        &self,
        owner_user_id: &str,
        code: &str,
        status: &str,
    ) -> Result<(), DbError>;

    /// Marks all expired but still pending pairing codes as `expired`.
    /// `now` is the current timestamp in milliseconds.
    fn cleanup_expired_pairings(
        &self,
        owner_user_id: &str,
        now: i64,
    ) -> Result<u64, DbError>;
}

/// An operation that a store does not have is reported by its name.
pub proof fn missing_operation_is_named(operation: Seq<char>)
    ensures
        not_implemented_error(operation) == DbErrorView::Init(operation + " is not implemented"@),
{
}

} // verus!
