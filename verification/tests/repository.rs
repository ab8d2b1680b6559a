use saydone_channels::repository::{
    AssistantSessionRow, AssistantUserRow, ChannelPluginRow, ConversationRoute, DbError, IChannelRepository,
    PairingCodeRow, UpdatePluginStatusParams, not_implemented,
};
use saydone_channels::types::PluginType;

/// A store that offers only what every store must.
struct Bare;

impl IChannelRepository for Bare {
    fn get_all_plugins(&self, _: &str) -> Result<Vec<ChannelPluginRow>, DbError> {
        Ok(Vec::new())
    }
    fn get_plugin(&self, _: &str, _: &str) -> Result<Option<ChannelPluginRow>, DbError> {
        Ok(None)
    }
    fn upsert_plugin(&self, _: &str, _: &ChannelPluginRow) -> Result<(), DbError> {
        Ok(())
    }
    fn update_plugin_status(&self, _: &str, _: &str, _: &UpdatePluginStatusParams) -> Result<(), DbError> {
        Ok(())
    }
    fn delete_plugin(&self, _: &str, id: &str) -> Result<(), DbError> {
        Err(DbError::NotFound(id.to_owned()))
    }
    fn get_all_users(&self, _: &str) -> Result<Vec<AssistantUserRow>, DbError> {
        Ok(Vec::new())
    }
    fn get_user_by_platform(&self, _: &str, _: &str, _: &str) -> Result<Option<AssistantUserRow>, DbError> {
        Ok(None)
    }
    fn create_user(&self, _: &str, _: &AssistantUserRow) -> Result<(), DbError> {
        Ok(())
    }
    fn update_user_last_active(&self, _: &str, _: &str, _: i64) -> Result<(), DbError> {
        Ok(())
    }
    fn delete_user(&self, _: &str, id: &str) -> Result<(), DbError> {
        Err(DbError::NotFound(id.to_owned()))
    }
    fn get_all_sessions(&self, _: &str) -> Result<Vec<AssistantSessionRow>, DbError> {
        Ok(Vec::new())
    }
    fn get_session(&self, _: &str, _: &str) -> Result<Option<AssistantSessionRow>, DbError> {
        Ok(None)
    }
    fn get_or_create_session(
        &self,
        _: &str,
        _: &str,
        _: &str,
        new_row: &AssistantSessionRow,
    ) -> Result<AssistantSessionRow, DbError> {
        Ok(new_row.clone())
    }
    fn update_session_activity(&self, _: &str, _: &str, _: i64) -> Result<(), DbError> {
        Ok(())
    }
    fn update_session_conversation(&self, _: &str, _: &str, _: &str) -> Result<(), DbError> {
        Ok(())
    }
    fn update_session_agent_type(&self, _: &str, _: &str, _: &str) -> Result<(), DbError> {
        Ok(())
    }
    fn delete_sessions_by_user(&self, _: &str, _: &str) -> Result<(), DbError> {
        Ok(())
    }
    fn delete_session_by_user_chat(&self, _: &str, _: &str, _: &str) -> Result<(), DbError> {
        Ok(())
    }
    fn create_pairing(&self, _: &str, _: &PairingCodeRow) -> Result<(), DbError> {
        Ok(())
    }
    fn get_pending_pairings(&self, _: &str) -> Result<Vec<PairingCodeRow>, DbError> {
        Ok(Vec::new())
    }
    fn get_pairing_by_code(&self, _: &str, _: &str) -> Result<Option<PairingCodeRow>, DbError> {
        Ok(None)
    }
    fn update_pairing_status(&self, _: &str, code: &str, _: &str) -> Result<(), DbError> {
        Err(DbError::NotFound(code.to_owned()))
    }
    fn cleanup_expired_pairings(&self, _: &str, _: i64) -> Result<u64, DbError> {
        Ok(0)
    }
}

fn refused(operation: &str) -> DbError {
    DbError::Init(format!("{operation} is not implemented"))
}

#[test]
fn store_refuses_what_it_does_not_offer() {
    let row = AssistantSessionRow {
        id: "s".to_owned(),
        user_id: "u".to_owned(),
        agent_type: "acp".to_owned(),
        conversation_id: None,
        chat_id: None,
        created_at: 0,
        last_activity: 0,
    };
    let route = ConversationRoute {
        conversation_id: "c".to_owned(),
        platform_type: "lark".to_owned(),
        chat_id: "chat".to_owned(),
        message_id: "m".to_owned(),
        preview_text: None,
        sent_at: 0,
        delivery_started_at: None,
        delivery_completed_at: None,
    };
    assert_eq!(Bare.create_session("o", "u", &row), Err(refused("create_session")));
    assert_eq!(Bare.get_session_by_route("o", "u", "p", "c", "m"), Err(refused("get_session_by_route")));
    assert_eq!(Bare.upsert_session_route("o", "s", "p", "c", "m", 0), Err(refused("upsert_session_route")));
    assert_eq!(
        Bare.upsert_conversation_route("o", &route.params()),
        Err(refused("upsert_conversation_route"))
    );
    assert_eq!(
        Bare.resolve_conversation_route("o", "p", "c", "m"),
        Err(refused("resolve_conversation_route"))
    );
    assert_eq!(
        Bare.resolve_conversation_route_by_preview("o", "p", "c", "t", true),
        Err(refused("resolve_conversation_route_by_preview"))
    );
    assert_eq!(
        Bare.resolve_conversation_route_by_timestamp("o", "p", "c", 0, 0),
        Err(refused("resolve_conversation_route_by_timestamp"))
    );
    assert_eq!(not_implemented("x"), refused("x"));
}

#[test]
fn status_update_begins_with_no_change() {
    assert_eq!(
        UpdatePluginStatusParams::default(),
        UpdatePluginStatusParams { status: None, last_connected: None, enabled: None }
    );
}

#[test]
fn platform_names_lead_back_to_their_platforms() {
    for platform in [
        PluginType::Telegram,
        PluginType::Lark,
        PluginType::Dingtalk,
        PluginType::Slack,
        PluginType::Discord,
        PluginType::Weixin,
        PluginType::Wecom,
    ] {
        assert_eq!(PluginType::from_str_opt(platform.as_str()), Some(platform));
    }
    assert_eq!(PluginType::from_str_opt("Telegram"), None);
    assert_eq!(PluginType::from_str_opt(""), None);
}
