//! Mirroring completed desktop conversations to the channels.
//!
//! The service follows the events of the desktop's conversations. When a turn is completed, its
//! question and answer go to every authorized user on a channel, except to the chat that the
//! question came from.

use vstd::prelude::*;
use vstd::hash_map::StringHashMap;
use vstd::string::*;

use crate::json;
use crate::json::{Json, JsonView};
use crate::reply;
use crate::reply::RouteQueryView;
use crate::repository::{
    AssistantUserRow, AssistantUserRowView, ChannelPluginRow, ChannelPluginRowView, ConversationRoute,
    ConversationRouteView,
};
use crate::stream_relay::{ChannelDeliveryReceipt, ChannelDeliveryReceiptView};
use crate::text;
use crate::text::{same_text, trimmed, unified_newlines};
use crate::types;
use crate::types::{text_message, PluginType, UnifiedOutgoingMessage, UnifiedOutgoingMessageView};

verus! {

// ── Turns ───────────────────────────────────────────────────────────

/// A chat on a channel.
#[derive(Debug, PartialEq, Eq)]
pub struct ChannelMirrorTargetRef {
    pub platform: PluginType,
    pub chat_id: String,
    pub platform_user_id: Option<String>,
}

/// The mathematical value of a [`ChannelMirrorTargetRef`].
#[verifier::ext_equal]
pub struct ChannelMirrorTargetRefView {
    pub platform: PluginType,
    pub chat_id: Seq<char>,
    pub platform_user_id: Option<Seq<char>>,
}

impl DeepView for ChannelMirrorTargetRef {
    type V = ChannelMirrorTargetRefView;

    open spec fn deep_view(&self) -> ChannelMirrorTargetRefView {
        ChannelMirrorTargetRefView {
            platform: self.platform,
            chat_id: self.chat_id@,
            platform_user_id: self.platform_user_id.deep_view(),
        }
    }
}

impl Clone for ChannelMirrorTargetRef {
    fn clone(&self) -> (r: Self)
        ensures
            r.deep_view() == self.deep_view(),
    {
        ChannelMirrorTargetRef {
            platform: self.platform,
            chat_id: self.chat_id.clone(),
            platform_user_id: self.platform_user_id.clone(),
        }
    }
}

/// A turn of a conversation that is not completed yet.
#[derive(Debug, PartialEq, Eq)]
pub struct MirrorTurnState {
    pub owner_user_id: String,
    pub latest_user_text: String,
    pub assistant_text: String,
    /// The chat that the question came from.
    pub excluded_target: Option<ChannelMirrorTargetRef>,
}

/// The mathematical value of a [`MirrorTurnState`].
#[verifier::ext_equal]
pub struct MirrorTurnStateView {
    pub owner_user_id: Seq<char>,
    pub latest_user_text: Seq<char>,
    pub assistant_text: Seq<char>,
    pub excluded_target: Option<ChannelMirrorTargetRefView>,
}

impl DeepView for MirrorTurnState {
    type V = MirrorTurnStateView;

    open spec fn deep_view(&self) -> MirrorTurnStateView {
        MirrorTurnStateView {
            owner_user_id: self.owner_user_id@,
            latest_user_text: self.latest_user_text@,
            assistant_text: self.assistant_text@,
            excluded_target: self.excluded_target.deep_view(),
        }
    }
}

impl Default for MirrorTurnState {
    fn default() -> (r: Self)
        ensures
            r.deep_view() == (MirrorTurnStateView {
                owner_user_id: Seq::empty(),
                latest_user_text: Seq::empty(),
                assistant_text: Seq::empty(),
                excluded_target: None,
            }),
    {
        MirrorTurnState {
            owner_user_id: String::new(),
            latest_user_text: String::new(),
            assistant_text: String::new(),
            excluded_target: None,
        }
    }
}

/// A text with plain line ends and nothing around it.
pub open spec fn mirrored(s: Seq<char>) -> Seq<char> {
    text::trim(text::unify_newlines(s))
}

/// A text with plain line ends and nothing around it.
pub fn normalize_mirror_text(text: &str) -> (r: String)
    ensures
        r@ == mirrored(text@),
{
    let unified = unified_newlines(text);
    trimmed(unified.as_str())
}

/// The turns in progress, by conversation.
pub type Turns = Map<Seq<char>, MirrorTurnStateView>;

/// A new turn of a conversation.
pub open spec fn begun(
    owner: Seq<char>,
    question: Seq<char>,
    excluded_target: Option<ChannelMirrorTargetRefView>,
) -> MirrorTurnStateView {
    MirrorTurnStateView {
        owner_user_id: owner,
        latest_user_text: mirrored(question),
        assistant_text: Seq::empty(),
        excluded_target,
    }
}

/// The chat to leave out of the next turn of a conversation.
pub open spec fn exclusion(turns: Turns, conversation: Seq<char>) -> Option<
    ChannelMirrorTargetRefView,
> {
    if turns.contains_key(conversation) {
        turns[conversation].excluded_target
    } else {
        None
    }
}

/// The text that a stream event carries.
pub open spec fn stream_chunk(data: JsonView) -> Seq<char> {
    match json::text_of(json::entry(json::entry(Some(data), "data"@), "content"@)) {
        Some(chunk) => chunk,
        None => Seq::empty(),
    }
}

/// The turns after a stream event of `conversation`.
pub open spec fn after_stream(turns: Turns, conversation: Seq<char>, data: JsonView) -> Turns {
    let kind = json::text_entry(data, "type"@);
    if (kind == Some("text"@) || kind == Some("content"@)) && turns.contains_key(conversation) {
        let turn = turns[conversation];
        turns.insert(
            conversation,
            MirrorTurnStateView {
                assistant_text: if json::true_entry(data, "replace"@) {
                    stream_chunk(data)
                } else {
                    turn.assistant_text + stream_chunk(data)
                },
                ..turn
            },
        )
    } else if kind == Some("error"@) {
        turns.remove(conversation)
    } else {
        turns
    }
}

/// The turns after an event, and the conversation with its turn that the event completed.
pub open spec fn after_event(turns: Turns, name: Seq<char>, data: JsonView) -> (
    Turns,
    Option<(Seq<char>, MirrorTurnStateView)>,
) {
    match (json::text_entry(data, "conversation_id"@), json::text_entry(data, "user_id"@)) {
        (Some(conversation), Some(owner)) => {
            if name == "message.userCreated"@ {
                if json::true_entry(data, "hidden"@) {
                    (turns, None)
                } else {
                    let question = match json::text_entry(data, "content"@) {
                        Some(content) => content,
                        None => Seq::empty(),
                    };
                    (
                        turns.insert(
                            conversation,
                            begun(owner, question, exclusion(turns, conversation)),
                        ),
                        None,
                    )
                }
            } else if name == "message.stream"@ {
                (after_stream(turns, conversation, data), None)
            } else if name == "turn.completed"@ {
                (
                    turns.remove(conversation),
                    if turns.contains_key(conversation) {
                        Some((conversation, turns[conversation]))
                    } else {
                        None
                    },
                )
            } else {
                (turns, None)
            }
        },
        _ => (turns, None),
    }
}

/// Mirrors completed desktop conversations to every authorized channel.
pub struct ChannelMirrorService {
    turns: StringHashMap<MirrorTurnState>,
}

impl View for ChannelMirrorService {
    type V = Turns;

    closed spec fn view(&self) -> Turns {
        self.turns@.map_values(|turn: MirrorTurnState| turn.deep_view())
    }
}

impl ChannelMirrorService {
    /// A service that follows no turn yet.
    pub fn new() -> (r: Self)
        ensures
            r@ == Turns::empty(),
    {
        let r = ChannelMirrorService { turns: StringHashMap::new() };
        assert(r@ =~= Turns::empty());
        r
    }

    fn put(&mut self, conversation_id: &str, turn: MirrorTurnState)
        ensures
            final(self)@ == old(self)@.insert(conversation_id@, turn.deep_view()),
    {
        self.turns.insert(conversation_id.to_owned(), turn);
        assert(self@ =~= old(self)@.insert(conversation_id@, turn.deep_view()));
    }

    fn drop_turn(&mut self, conversation_id: &str)
        ensures
            final(self)@ == old(self)@.remove(conversation_id@),
    {
        self.turns.remove(conversation_id);
        assert(self@ =~= old(self)@.remove(conversation_id@));
    }

    /// Begins a turn whose question came from a chat, which is not to get the answer again.
    pub fn mark_channel_turn(
        &mut self,
        owner_user_id: &str,
        conversation_id: &str,
        text: &str,
        excluded_target: ChannelMirrorTargetRef,
    )
        ensures
            final(self)@ == old(self)@.insert(
                conversation_id@,
                begun(owner_user_id@, text@, Some(excluded_target.deep_view())),
            ),
    {
        let turn = MirrorTurnState {
            owner_user_id: owner_user_id.to_owned(),
            latest_user_text: normalize_mirror_text(text),
            assistant_text: String::new(),
            excluded_target: Some(excluded_target),
        };
        assert(turn.deep_view() == begun(owner_user_id@, text@, Some(excluded_target.deep_view())));
        self.put(conversation_id, turn);
    }

    fn handle_stream(&mut self, conversation_id: &str, data: &Json)
        ensures
            final(self)@ == after_stream(old(self)@, conversation_id@, data.deep_view()),
    {
        let kind = match data.text_at("type") {
            Some(kind) => kind,
            None => {
                return ;
            },
        };
        if same_text(kind, "text") || same_text(kind, "content") {
            let chunk = match data.get("data") {
                Some(inner) => match inner.text_at("content") {
                    Some(content) => content,
                    None => "",
                },
                None => "",
            };
            proof {
                reveal_strlit("");
                assert(""@ =~= Seq::empty());
            }
            let replace = data.is_true_at("replace");
            let next = match self.turns.get(conversation_id) {
                Some(turn) => {
                    let assistant_text = if replace {
                        chunk.to_owned()
                    } else {
                        turn.assistant_text.clone().concat(chunk)
                    };
                    Some(
                        MirrorTurnState {
                            owner_user_id: turn.owner_user_id.clone(),
                            latest_user_text: turn.latest_user_text.clone(),
                            assistant_text,
                            excluded_target: turn.excluded_target.clone(),
                        },
                    )
                },
                None => None,
            };
            match next {
                Some(turn) => self.put(conversation_id, turn),
                None => {},
            }
        } else if same_text(kind, "error") {
            self.drop_turn(conversation_id);
        }
    }

    /// Follows an event. A turn that it completes is handed out, with its conversation, and
    /// forgotten.
    pub fn handle_event(&mut self, name: &str, data: &Json) -> (r: Option<(String, MirrorTurnState)>)
        ensures
            (final(self)@, r.deep_view()) == after_event(old(self)@, name@, data.deep_view()),
    {
        let conversation_id = match data.text_at("conversation_id") {
            Some(id) => id,
            None => {
                return None;
            },
        };
        let owner_user_id = match data.text_at("user_id") {
            Some(id) => id,
            None => {
                return None;
            },
        };
        if same_text(name, "message.userCreated") {
            if data.is_true_at("hidden") {
                return None;
            }
            let content = match data.text_at("content") {
                Some(content) => content,
                None => "",
            };
            proof {
                reveal_strlit("");
                assert(""@ =~= Seq::empty());
            }
            let excluded_target = match self.turns.get(conversation_id) {
                Some(turn) => turn.excluded_target.clone(),
                None => None,
            };
            let turn = MirrorTurnState {
                owner_user_id: owner_user_id.to_owned(),
                latest_user_text: normalize_mirror_text(content),
                assistant_text: String::new(),
                excluded_target,
            };
            assert(turn.deep_view() == begun(
                owner_user_id@,
                content@,
                exclusion(self@, conversation_id@),
            ));
            self.put(conversation_id, turn);
            None
        } else if same_text(name, "message.stream") {
            self.handle_stream(conversation_id, data);
            None
        } else if same_text(name, "turn.completed") {
            let completed = match self.turns.get(conversation_id) {
                Some(turn) => Some(
                    (
                        conversation_id.to_owned(),
                        MirrorTurnState {
                            owner_user_id: turn.owner_user_id.clone(),
                            latest_user_text: turn.latest_user_text.clone(),
                            assistant_text: turn.assistant_text.clone(),
                            excluded_target: turn.excluded_target.clone(),
                        },
                    ),
                ),
                None => None,
            };
            self.drop_turn(conversation_id);
            completed
        } else {
            None
        }
    }
}

// ── Deliveries ──────────────────────────────────────────────────────

/// What a completed turn looks like on a channel: nothing where there is no answer.
pub open spec fn mirror_text_of(turn: MirrorTurnStateView) -> Option<Seq<char>> {
    let answer = mirrored(turn.assistant_text);
    if answer.len() == 0 {
        None
    } else if turn.latest_user_text.len() == 0 {
        Some(answer)
    } else {
        Some("你："@ + turn.latest_user_text + "\n\nAI："@ + answer)
    }
}

/// What a completed turn looks like on a channel: nothing where there is no answer.
pub fn mirror_text(turn: &MirrorTurnState) -> (r: Option<String>)
    ensures
        r.deep_view() == mirror_text_of(turn.deep_view()),
{
    let answer = normalize_mirror_text(turn.assistant_text.as_str());
    if answer.as_str().is_empty() {
        None
    } else if turn.latest_user_text.as_str().is_empty() {
        Some(answer)
    } else {
        Some(
            "你：".to_owned().concat(turn.latest_user_text.as_str()).concat("\n\nAI：").concat(
                answer.as_str(),
            ),
        )
    }
}

/// The chat under which a message to a user is recorded.
pub open spec fn route_chat_id(platform: PluginType, user: Seq<char>) -> Seq<char> {
    if platform == PluginType::Dingtalk {
        "user:"@ + user
    } else {
        user
    }
}

/// The chat under which a message to a user is recorded.
pub fn mirror_route_chat_id(platform: PluginType, platform_user_id: &str) -> (r: String)
    ensures
        r@ == route_chat_id(platform, platform_user_id@),
{
    if platform == PluginType::Dingtalk {
        "user:".to_owned().concat(platform_user_id)
    } else {
        platform_user_id.to_owned()
    }
}

/// Whether a user is the one whose chat the question came from.
pub open spec fn is_excluded(
    platform: PluginType,
    user: Seq<char>,
    excluded_target: Option<ChannelMirrorTargetRefView>,
) -> bool {
    excluded_target matches Some(target) && target.platform == platform && (target.chat_id == user
        || target.platform_user_id == Some(user))
}

/// Whether a user is the one whose chat the question came from.
pub fn is_excluded_mirror_target(
    platform: PluginType,
    receive_id: &str,
    excluded_target: Option<&ChannelMirrorTargetRef>,
) -> (r: bool)
    ensures
        r == is_excluded(platform, receive_id@, excluded_target.deep_view()),
{
    match excluded_target {
        Some(target) => {
            let is_user = match &target.platform_user_id {
                Some(id) => same_text(id.as_str(), receive_id),
                None => false,
            };
            target.platform == platform && (same_text(target.chat_id.as_str(), receive_id) || is_user)
        },
        None => false,
    }
}

/// Whether a plugin can deliver.
pub open spec fn is_running(plugin: ChannelPluginRowView) -> bool {
    plugin.enabled && plugin.status == Some("running"@)
}

/// The plugin that delivers on a platform: the last running one of that type.
pub open spec fn running_plugin(
    plugins: Seq<ChannelPluginRowView>,
    platform_type: Seq<char>,
) -> Option<Seq<char>>
    decreases plugins.len(),
{
    if plugins.len() == 0 {
        None
    } else if is_running(plugins.last()) && plugins.last().plugin_type == platform_type {
        Some(plugins.last().id)
    } else {
        running_plugin(plugins.drop_last(), platform_type)
    }
}

fn running_plugin_id<'a>(plugins: &'a Vec<ChannelPluginRow>, platform_type: &str) -> (r: Option<&'a str>)
    ensures
        r.deep_view() == running_plugin(plugins.deep_view(), platform_type@),
{
    let ghost all = plugins.deep_view();
    let mut i: usize = plugins.len();
    assert(all.take(all.len() as int) =~= all);
    while i > 0
        invariant
            i <= plugins@.len(),
            all == plugins.deep_view(),
            running_plugin(all.take(i as int), platform_type@) == running_plugin(all, platform_type@),
        decreases i,
    {
        let plugin = &plugins[i - 1];
        assert(all.take(i as int).last() == plugin.deep_view());
        assert(all.take(i as int).drop_last() =~= all.take(i as int - 1));
        let running = match &plugin.status {
            Some(status) => same_text(status.as_str(), "running"),
            None => false,
        };
        if plugin.enabled && running && same_text(plugin.plugin_type.as_str(), platform_type) {
            return Some(plugin.id.as_str());
        }
        i = i - 1;
    }
    None
}

/// A message to mirror a turn by.
#[derive(Debug, Clone, PartialEq, Eq)]
pub struct MirrorDelivery {
    pub plugin_id: String,
    pub platform: PluginType,
    pub platform_type: String,
    /// Whom it goes to.
    pub platform_user_id: String,
}

/// The mathematical value of a [`MirrorDelivery`].
#[verifier::ext_equal]
pub struct MirrorDeliveryView {
    pub plugin_id: Seq<char>,
    pub platform: PluginType,
    pub platform_type: Seq<char>,
    pub platform_user_id: Seq<char>,
}

impl DeepView for MirrorDelivery {
    type V = MirrorDeliveryView;

    open spec fn deep_view(&self) -> MirrorDeliveryView {
        MirrorDeliveryView {
            plugin_id: self.plugin_id@,
            platform: self.platform,
            platform_type: self.platform_type@,
            platform_user_id: self.platform_user_id@,
        }
    }
}

/// Where a user is to get the mirrored turn, if anywhere.
pub open spec fn delivery_for(
    user: AssistantUserRowView,
    plugins: Seq<ChannelPluginRowView>,
    excluded_target: Option<ChannelMirrorTargetRefView>,
) -> Option<MirrorDeliveryView> {
    match (types::platform_of(user.platform_type), running_plugin(plugins, user.platform_type)) {
        (Some(platform), Some(plugin_id)) => {
            if (platform == PluginType::Lark || platform == PluginType::Weixin) && !is_excluded(
                platform,
                user.platform_user_id,
                excluded_target,
            ) {
                Some(
                    MirrorDeliveryView {
                        plugin_id,
                        platform,
                        platform_type: user.platform_type,
                        platform_user_id: user.platform_user_id,
                    },
                )
            } else {
                None
            }
        },
        _ => None,
    }
}

/// Whether two deliveries go to the same user through the same plugin.
pub open spec fn same_target(a: MirrorDeliveryView, b: MirrorDeliveryView) -> bool {
    a.plugin_id == b.plugin_id && a.platform_user_id == b.platform_user_id
}

/// Whether `deliveries` has one to the same user through the same plugin.
pub open spec fn has_target(deliveries: Seq<MirrorDeliveryView>, d: MirrorDeliveryView) -> bool {
    exists|i: int| 0 <= i < deliveries.len() && same_target(#[trigger] deliveries[i], d)
}

/// The messages that mirror a turn: one to each user that is to get it, in the users' order.
pub open spec fn deliveries(
    users: Seq<AssistantUserRowView>,
    plugins: Seq<ChannelPluginRowView>,
    excluded_target: Option<ChannelMirrorTargetRefView>,
) -> Seq<MirrorDeliveryView>
    decreases users.len(),
{
    if users.len() == 0 {
        Seq::empty()
    } else {
        let earlier = deliveries(users.drop_last(), plugins, excluded_target);
        match delivery_for(users.last(), plugins, excluded_target) {
            Some(d) => if has_target(earlier, d) {
                earlier
            } else {
                earlier.push(d)
            },
            None => earlier,
        }
    }
}

fn user_delivery(
    user: &AssistantUserRow,
    plugins: &Vec<ChannelPluginRow>,
    excluded_target: Option<&ChannelMirrorTargetRef>,
) -> (r: Option<MirrorDelivery>)
    ensures
        r.deep_view() == delivery_for(
            user.deep_view(),
            plugins.deep_view(),
            excluded_target.deep_view(),
        ),
{
    let platform = match PluginType::from_str_opt(user.platform_type.as_str()) {
        Some(platform) => platform,
        None => {
            return None;
        },
    };
    if platform != PluginType::Lark && platform != PluginType::Weixin {
        return None;
    }
    if is_excluded_mirror_target(platform, user.platform_user_id.as_str(), excluded_target) {
        return None;
    }
    match running_plugin_id(plugins, user.platform_type.as_str()) {
        Some(plugin_id) => Some(
            MirrorDelivery {
                plugin_id: plugin_id.to_owned(),
                platform,
                platform_type: user.platform_type.clone(),
                platform_user_id: user.platform_user_id.clone(),
            },
        ),
        None => None,
    }
}

fn already_delivered(list: &Vec<MirrorDelivery>, d: &MirrorDelivery) -> (r: bool)
    ensures
        r == has_target(list.deep_view(), d.deep_view()),
{
    let mut i: usize = 0;
    while i < list.len()
        invariant
            i <= list@.len(),
            forall|k: int| 0 <= k < i ==> !same_target(#[trigger] list.deep_view()[k], d.deep_view()),
        decreases list@.len() - i,
    {
        assert(list.deep_view()[i as int] == list@[i as int].deep_view());
        if same_text(list[i].plugin_id.as_str(), d.plugin_id.as_str()) && same_text(
            list[i].platform_user_id.as_str(),
            d.platform_user_id.as_str(),
        ) {
            return true;
        }
        i = i + 1;
    }
    false
}

/// The messages that mirror a turn: one to each user that is to get it, in the users' order.
pub fn mirror_deliveries(
    turn: &MirrorTurnState,
    plugins: &Vec<ChannelPluginRow>,
    users: &Vec<AssistantUserRow>,
) -> (r: Vec<MirrorDelivery>)
    ensures
        r.deep_view() == deliveries(
            users.deep_view(),
            plugins.deep_view(),
            turn.deep_view().excluded_target,
        ),
{
    let excluded_target = match &turn.excluded_target {
        Some(target) => Some(target),
        None => None,
    };
    let ghost all = users.deep_view();
    let mut out: Vec<MirrorDelivery> = Vec::new();
    let mut i: usize = 0;
    assert(all.take(0) =~= Seq::empty());
    assert(out.deep_view() =~= Seq::empty());
    while i < users.len()
        invariant
            i <= users@.len(),
            all == users.deep_view(),
            excluded_target.deep_view() == turn.deep_view().excluded_target,
            out.deep_view() == deliveries(
                all.take(i as int),
                plugins.deep_view(),
                turn.deep_view().excluded_target,
            ),
        decreases users@.len() - i,
    {
        assert(all.take(i as int + 1).drop_last() =~= all.take(i as int));
        assert(all.take(i as int + 1).last() == users@[i as int].deep_view());
        let ghost held = out.deep_view();
        match user_delivery(&users[i], plugins, excluded_target) {
            Some(d) => {
                if !already_delivered(&out, &d) {
                    out.push(d);
                    assert(out.deep_view() =~= held.push(d.deep_view()));
                }
            },
            None => {},
        }
        i = i + 1;
    }
    assert(all.take(all.len() as int) =~= all);
    out
}

/// The route by which a reply to a mirrored turn finds its conversation.
pub open spec fn route_of(
    conversation: Seq<char>,
    d: MirrorDeliveryView,
    mirror_text: Seq<char>,
    receipt: ChannelDeliveryReceiptView,
) -> ConversationRouteView {
    ConversationRouteView {
        conversation_id: conversation,
        platform_type: d.platform_type,
        chat_id: route_chat_id(d.platform, d.platform_user_id),
        message_id: receipt.message_id,
        preview_text: Some(mirror_text),
        sent_at: receipt.completed_at,
        delivery_started_at: Some(receipt.started_at),
        delivery_completed_at: Some(receipt.completed_at),
    }
}

/// The route by which a reply to a mirrored turn finds its conversation.
pub fn mirror_route(
    conversation_id: &str,
    delivery: &MirrorDelivery,
    mirror_text: &str,
    receipt: &ChannelDeliveryReceipt,
) -> (r: ConversationRoute)
    ensures
        r.deep_view() == route_of(
            conversation_id@,
            delivery.deep_view(),
            mirror_text@,
            receipt.deep_view(),
        ),
{
    ConversationRoute {
        conversation_id: conversation_id.to_owned(),
        platform_type: delivery.platform_type.clone(),
        chat_id: mirror_route_chat_id(delivery.platform, delivery.platform_user_id.as_str()),
        message_id: receipt.message_id.clone(),
        preview_text: Some(mirror_text.to_owned()),
        sent_at: receipt.completed_at,
        delivery_started_at: Some(receipt.started_at),
        delivery_completed_at: Some(receipt.completed_at),
    }
}

// ── Mirroring a completed turn ──────────────────────────────────────

/// What mirroring a turn asks of the services around it.
#[derive(Debug, Clone, PartialEq, Eq)]
pub enum MirrorRequest {
    /// Whether the conversation still exists.
    CheckConversation {
        owner_user_id: String,
        conversation_id: String,
    },
    /// The registered plugins.
    ListPlugins {
        owner_user_id: String,
    },
    /// The authorized users.
    ListUsers {
        owner_user_id: String,
    },
    /// A message to be sent.
    Send {
        owner_user_id: String,
        plugin_id: String,
        chat_id: String,
        message: UnifiedOutgoingMessage,
    },
    /// A route to be recorded.
    Record {
        owner_user_id: String,
        route: ConversationRoute,
    },
}

/// The mathematical value of a [`MirrorRequest`].
#[verifier::ext_equal]
pub enum MirrorRequestView {
    CheckConversation {
        owner_user_id: Seq<char>,
        conversation_id: Seq<char>,
    },
    ListPlugins {
        owner_user_id: Seq<char>,
    },
    ListUsers {
        owner_user_id: Seq<char>,
    },
    Send {
        owner_user_id: Seq<char>,
        plugin_id: Seq<char>,
        chat_id: Seq<char>,
        message: UnifiedOutgoingMessageView,
    },
    Record {
        owner_user_id: Seq<char>,
        route: ConversationRouteView,
    },
}

impl DeepView for MirrorRequest {
    type V = MirrorRequestView;

    open spec fn deep_view(&self) -> MirrorRequestView {
        match self {
            MirrorRequest::CheckConversation { owner_user_id, conversation_id } => MirrorRequestView::CheckConversation {
                owner_user_id: owner_user_id@,
                conversation_id: conversation_id@,
            },
            MirrorRequest::ListPlugins { owner_user_id } => MirrorRequestView::ListPlugins {
                owner_user_id: owner_user_id@,
            },
            MirrorRequest::ListUsers { owner_user_id } => MirrorRequestView::ListUsers {
                owner_user_id: owner_user_id@,
            },
            MirrorRequest::Send { owner_user_id, plugin_id, chat_id, message } => MirrorRequestView::Send {
                owner_user_id: owner_user_id@,
                plugin_id: plugin_id@,
                chat_id: chat_id@,
                message: message.deep_view(),
            },
            MirrorRequest::Record { owner_user_id, route } => MirrorRequestView::Record {
                owner_user_id: owner_user_id@,
                route: route.deep_view(),
            },
        }
    }
}

/// What a service answers to a [`MirrorRequest`].
#[derive(Debug, Clone, PartialEq, Eq)]
pub enum MirrorReply {
    /// To `CheckConversation`.
    Exists(bool),
    /// To `ListPlugins`; nothing where they cannot be listed.
    Plugins(Option<Vec<ChannelPluginRow>>),
    /// To `ListUsers`; nothing where they cannot be listed.
    Users(Option<Vec<AssistantUserRow>>),
    /// To `Send`; nothing where the message could not be sent.
    Sent(Option<ChannelDeliveryReceipt>),
    /// To `Record`, whether the route was recorded or not.
    Recorded,
}

/// The mathematical value of a [`MirrorReply`].
#[verifier::ext_equal]
pub enum MirrorReplyView {
    Exists(bool),
    Plugins(Option<Seq<ChannelPluginRowView>>),
    Users(Option<Seq<AssistantUserRowView>>),
    Sent(Option<ChannelDeliveryReceiptView>),
    Recorded,
}

impl DeepView for MirrorReply {
    type V = MirrorReplyView;

    open spec fn deep_view(&self) -> MirrorReplyView {
        match self {
            MirrorReply::Exists(value) => MirrorReplyView::Exists(*value),
            MirrorReply::Plugins(value) => MirrorReplyView::Plugins(value.deep_view()),
            MirrorReply::Users(value) => MirrorReplyView::Users(value.deep_view()),
            MirrorReply::Sent(value) => MirrorReplyView::Sent(value.deep_view()),
            MirrorReply::Recorded => MirrorReplyView::Recorded,
        }
    }
}

/// How far mirroring a turn has come with the replies given so far.
#[derive(Debug, Clone, PartialEq, Eq)]
pub enum MirrorStep {
    /// It has to ask this next.
    Ask(MirrorRequest),
    /// It has come to its end.
    Done,
    /// A reply does not answer the request at its place.
    Unexpected,
}

/// The mathematical value of a [`MirrorStep`].
#[verifier::ext_equal]
pub enum MirrorStepView {
    Ask(MirrorRequestView),
    Done,
    Unexpected,
}

impl DeepView for MirrorStep {
    type V = MirrorStepView;

    open spec fn deep_view(&self) -> MirrorStepView {
        match self {
            MirrorStep::Ask(value) => MirrorStepView::Ask(value.deep_view()),
            MirrorStep::Done => MirrorStepView::Done,
            MirrorStep::Unexpected => MirrorStepView::Unexpected,
        }
    }
}

/// Sends the turn to each of `list` in turn, and records what was delivered.
pub open spec fn delivery_flow(
    owner: Seq<char>,
    conversation: Seq<char>,
    mirror_text: Seq<char>,
    list: Seq<MirrorDeliveryView>,
    replies: Seq<MirrorReplyView>,
    at: int,
) -> MirrorStepView
    decreases list.len(),
{
    if list.len() == 0 {
        MirrorStepView::Done
    } else if at >= replies.len() {
        MirrorStepView::Ask(
            MirrorRequestView::Send {
                owner_user_id: owner,
                plugin_id: list[0].plugin_id,
                chat_id: list[0].platform_user_id,
                message: types::text_message_view(mirror_text),
            },
        )
    } else {
        match replies[at] {
            MirrorReplyView::Sent(None) => delivery_flow(
                owner,
                conversation,
                mirror_text,
                list.drop_first(),
                replies,
                at + 1,
            ),
            MirrorReplyView::Sent(Some(receipt)) => if at + 1 >= replies.len() {
                MirrorStepView::Ask(
                    MirrorRequestView::Record {
                        owner_user_id: owner,
                        route: route_of(conversation, list[0], mirror_text, receipt),
                    },
                )
            } else {
                match replies[at + 1] {
                    MirrorReplyView::Recorded => delivery_flow(
                        owner,
                        conversation,
                        mirror_text,
                        list.drop_first(),
                        replies,
                        at + 2,
                    ),
                    _ => MirrorStepView::Unexpected,
                }
            },
            _ => MirrorStepView::Unexpected,
        }
    }
}

/// Mirrors a completed turn: where there is an answer and the conversation still exists, it goes to
/// everybody who is to get it.
pub open spec fn mirror_flow(
    conversation: Seq<char>,
    turn: MirrorTurnStateView,
    replies: Seq<MirrorReplyView>,
) -> MirrorStepView {
    let owner = turn.owner_user_id;
    match mirror_text_of(turn) {
        None => MirrorStepView::Done,
        Some(mirror_text) => if replies.len() == 0 {
            MirrorStepView::Ask(
                MirrorRequestView::CheckConversation {
                    owner_user_id: owner,
                    conversation_id: conversation,
                },
            )
        } else {
            match replies[0] {
                MirrorReplyView::Exists(false) => MirrorStepView::Done,
                MirrorReplyView::Exists(true) => if replies.len() == 1 {
                    MirrorStepView::Ask(MirrorRequestView::ListPlugins { owner_user_id: owner })
                } else {
                    match replies[1] {
                        MirrorReplyView::Plugins(None) => MirrorStepView::Done,
                        MirrorReplyView::Plugins(Some(plugins)) => if replies.len() == 2 {
                            MirrorStepView::Ask(
                                MirrorRequestView::ListUsers { owner_user_id: owner },
                            )
                        } else {
                            match replies[2] {
                                MirrorReplyView::Users(None) => MirrorStepView::Done,
                                MirrorReplyView::Users(Some(users)) => delivery_flow(
                                    owner,
                                    conversation,
                                    mirror_text,
                                    deliveries(users, plugins, turn.excluded_target),
                                    replies,
                                    3,
                                ),
                                _ => MirrorStepView::Unexpected,
                            }
                        },
                        _ => MirrorStepView::Unexpected,
                    }
                },
                _ => MirrorStepView::Unexpected,
            }
        },
    }
}

fn deliver(
    owner_user_id: &str,
    conversation_id: &str,
    mirror_text: &str,
    list: &Vec<MirrorDelivery>,
    replies: &Vec<MirrorReply>,
    at: usize,
) -> (r: MirrorStep)
    requires
        at <= replies@.len(),
    ensures
        r.deep_view() == delivery_flow(
            owner_user_id@,
            conversation_id@,
            mirror_text@,
            list.deep_view(),
            replies.deep_view(),
            at as int,
        ),
{
    let ghost all = list.deep_view();
    let ghost given = replies.deep_view();
    let mut i: usize = 0;
    let mut used: usize = at;
    assert(all.skip(0) =~= all);
    while i < list.len()
        invariant
            i <= list@.len(),
            used <= replies@.len(),
            all == list.deep_view(),
            given == replies.deep_view(),
            delivery_flow(
                owner_user_id@,
                conversation_id@,
                mirror_text@,
                all.skip(i as int),
                given,
                used as int,
            ) == delivery_flow(
                owner_user_id@,
                conversation_id@,
                mirror_text@,
                all,
                given,
                at as int,
            ),
        decreases list@.len() - i,
    {
        assert(all.skip(i as int)[0] == list@[i as int].deep_view());
        assert(all.skip(i as int).drop_first() =~= all.skip(i as int + 1));
        if used >= replies.len() {
            return MirrorStep::Ask(
                MirrorRequest::Send {
                    owner_user_id: owner_user_id.to_owned(),
                    plugin_id: list[i].plugin_id.clone(),
                    chat_id: list[i].platform_user_id.clone(),
                    message: text_message(mirror_text.to_owned()),
                },
            );
        }
        assert(given[used as int] == replies@[used as int].deep_view());
        match &replies[used] {
            MirrorReply::Sent(None) => {
                used = used + 1;
            },
            MirrorReply::Sent(Some(receipt)) => {
                if used + 1 >= replies.len() {
                    return MirrorStep::Ask(
                        MirrorRequest::Record {
                            owner_user_id: owner_user_id.to_owned(),
                            route: mirror_route(conversation_id, &list[i], mirror_text, receipt),
                        },
                    );
                }
                assert(given[used as int + 1] == replies@[used as int + 1].deep_view());
                match &replies[used + 1] {
                    MirrorReply::Recorded => {},
                    _ => {
                        return MirrorStep::Unexpected;
                    },
                }
                used = used + 2;
            },
            _ => {
                return MirrorStep::Unexpected;
            },
        }
        i = i + 1;
    }
    assert(all.skip(i as int) =~= Seq::empty());
    MirrorStep::Done
}

/// Mirrors a completed turn, with the replies given so far.
pub fn mirror_completed_turn(
    conversation_id: &str,
    turn: &MirrorTurnState,
    replies: &Vec<MirrorReply>,
) -> (r: MirrorStep)
    ensures
        r.deep_view() == mirror_flow(conversation_id@, turn.deep_view(), replies.deep_view()),
{
    let text = match mirror_text(turn) {
        Some(text) => text,
        None => {
            return MirrorStep::Done;
        },
    };
    let ghost given = replies.deep_view();
    if replies.len() == 0 {
        return MirrorStep::Ask(
            MirrorRequest::CheckConversation {
                owner_user_id: turn.owner_user_id.clone(),
                conversation_id: conversation_id.to_owned(),
            },
        );
    }
    assert(given[0] == replies@[0].deep_view());
    match &replies[0] {
        MirrorReply::Exists(exists) => {
            if !*exists {
                return MirrorStep::Done;
            }
        },
        _ => {
            return MirrorStep::Unexpected;
        },
    }
    if replies.len() == 1 {
        return MirrorStep::Ask(
            MirrorRequest::ListPlugins { owner_user_id: turn.owner_user_id.clone() },
        );
    }
    assert(given[1] == replies@[1].deep_view());
    let plugins = match &replies[1] {
        MirrorReply::Plugins(Some(plugins)) => plugins,
        MirrorReply::Plugins(None) => {
            return MirrorStep::Done;
        },
        _ => {
            return MirrorStep::Unexpected;
        },
    };
    if replies.len() == 2 {
        return MirrorStep::Ask(MirrorRequest::ListUsers { owner_user_id: turn.owner_user_id.clone() });
    }
    assert(given[2] == replies@[2].deep_view());
    match &replies[2] {
        MirrorReply::Users(Some(users)) => {
            let list = mirror_deliveries(turn, plugins, users);
            deliver(
                turn.owner_user_id.as_str(),
                conversation_id,
                text.as_str(),
                &list,
                replies,
                3,
            )
        },
        MirrorReply::Users(None) => MirrorStep::Done,
        _ => MirrorStep::Unexpected,
    }
}

// ── Laws ────────────────────────────────────────────────────────────

/// Nobody gets a turn twice, nobody on another platform gets it, and the chat that the question
/// came from does not get it back.
pub proof fn nobody_gets_a_turn_twice_or_back(
    users: Seq<AssistantUserRowView>,
    plugins: Seq<ChannelPluginRowView>,
    excluded_target: Option<ChannelMirrorTargetRefView>,
)
    ensures
        ({
            let all = deliveries(users, plugins, excluded_target);
            &&& forall|i: int, j: int|
                0 <= i < j < all.len() ==> !same_target(#[trigger] all[i], #[trigger] all[j])
            &&& forall|i: int|
                0 <= i < all.len() ==> !is_excluded(
                    (#[trigger] all[i]).platform,
                    all[i].platform_user_id,
                    excluded_target,
                ) && (all[i].platform == PluginType::Lark || all[i].platform == PluginType::Weixin)
                    && running_plugin(plugins, all[i].platform_type) == Some(all[i].plugin_id)
        }),
    decreases users.len(),
{
    if users.len() > 0 {
        let earlier = deliveries(users.drop_last(), plugins, excluded_target);
        nobody_gets_a_turn_twice_or_back(users.drop_last(), plugins, excluded_target);
        let all = deliveries(users, plugins, excluded_target);
        assert forall|i: int, j: int| 0 <= i < j < all.len() implies !same_target(
            #[trigger] all[i],
            #[trigger] all[j],
        ) by {
            assert(all[i] == earlier[i]);
            if j < earlier.len() {
                assert(all[j] == earlier[j]);
            }
        }
        assert forall|i: int| 0 <= i < all.len() implies !is_excluded(
            (#[trigger] all[i]).platform,
            all[i].platform_user_id,
            excluded_target,
        ) && (all[i].platform == PluginType::Lark || all[i].platform == PluginType::Weixin)
            && running_plugin(plugins, all[i].platform_type) == Some(all[i].plugin_id) by {
            if i < earlier.len() {
                assert(all[i] == earlier[i]);
            }
        }
    }
}

/// Everybody who is to get a turn gets it.
pub proof fn everybody_gets_a_turn(
    users: Seq<AssistantUserRowView>,
    plugins: Seq<ChannelPluginRowView>,
    excluded_target: Option<ChannelMirrorTargetRefView>,
    k: int,
)
    requires
        0 <= k < users.len(),
    ensures
        delivery_for(users[k], plugins, excluded_target) matches Some(d) ==> has_target(
            deliveries(users, plugins, excluded_target),
            d,
        ),
    decreases users.len(),
{
    let earlier = deliveries(users.drop_last(), plugins, excluded_target);
    let all = deliveries(users, plugins, excluded_target);
    if let Some(d) = delivery_for(users[k], plugins, excluded_target) {
        if k < users.len() - 1 {
            everybody_gets_a_turn(users.drop_last(), plugins, excluded_target, k);
            assert(users.drop_last()[k] == users[k]);
            let i = choose|i: int| 0 <= i < earlier.len() && same_target(#[trigger] earlier[i], d);
            assert(all[i] == earlier[i]);
        } else if has_target(earlier, d) {
            assert(all == earlier);
        } else {
            assert(all[all.len() - 1] == d);
        }
    }
}

/// What is sent is always the whole mirrored turn, and what is recorded is the message that the
/// last reply reported delivered, with the conversation of the turn.
pub proof fn mirrored_turn_leads_back(
    owner: Seq<char>,
    conversation: Seq<char>,
    mirror_text: Seq<char>,
    list: Seq<MirrorDeliveryView>,
    replies: Seq<MirrorReplyView>,
    at: int,
)
    requires
        0 <= at <= replies.len(),
    ensures
        match delivery_flow(owner, conversation, mirror_text, list, replies, at) {
            MirrorStepView::Ask(MirrorRequestView::Send { message, plugin_id, chat_id, .. }) => {
                &&& message == types::text_message_view(mirror_text)
                &&& exists|k: int|
                    0 <= k < list.len() && (#[trigger] list[k]).plugin_id == plugin_id
                        && list[k].platform_user_id == chat_id
            },
            MirrorStepView::Ask(MirrorRequestView::Record { route, .. }) => {
                &&& at < replies.len()
                &&& replies.last() matches MirrorReplyView::Sent(Some(receipt))
                &&& route.message_id == receipt.message_id
                &&& route.conversation_id == conversation
                &&& route.preview_text == Some(mirror_text)
            },
            MirrorStepView::Ask(_) => false,
            _ => true,
        },
    decreases list.len(),
{
    if list.len() > 0 {
        assert(list[0] == list[0]);
        if at < replies.len() {
            let rest = list.drop_first();
            if replies[at] == MirrorReplyView::Sent(None) {
                mirrored_turn_leads_back(owner, conversation, mirror_text, rest, replies, at + 1);
            } else if at + 1 < replies.len() {
                mirrored_turn_leads_back(owner, conversation, mirror_text, rest, replies, at + 2);
            }
            assert forall|k: int| 0 <= k < rest.len() implies #[trigger] rest[k] == list[k + 1] by {
            }
        }
    }
}

/// The number of messages that the replies from `at` on report as sent or as failed.
pub open spec fn sends_from(replies: Seq<MirrorReplyView>, at: int) -> nat
    decreases replies.len() - at,
{
    if at >= replies.len() {
        0
    } else if replies[at] is Sent {
        1 + sends_from(replies, at + 1)
    } else {
        sends_from(replies, at + 1)
    }
}

/// Every delivery has its turn, in order and whatever became of those before it: the next message is
/// the one after those that were sent or failed, a route is that of the last message, and the end
/// comes when all have had their turn.
pub proof fn every_delivery_has_its_turn(
    owner: Seq<char>,
    conversation: Seq<char>,
    mirror_text: Seq<char>,
    list: Seq<MirrorDeliveryView>,
    replies: Seq<MirrorReplyView>,
    at: int,
)
    requires
        0 <= at <= replies.len(),
    ensures
        match delivery_flow(owner, conversation, mirror_text, list, replies, at) {
            MirrorStepView::Ask(MirrorRequestView::Send { owner_user_id, plugin_id, chat_id, .. }) => {
                let k = sends_from(replies, at) as int;
                &&& k < list.len()
                &&& owner_user_id == owner
                &&& plugin_id == list[k].plugin_id
                &&& chat_id == list[k].platform_user_id
            },
            MirrorStepView::Ask(MirrorRequestView::Record { owner_user_id, route }) => {
                let k = sends_from(replies, at) as int;
                &&& 1 <= k <= list.len()
                &&& owner_user_id == owner
                &&& replies.last() matches MirrorReplyView::Sent(Some(receipt))
                &&& route == route_of(conversation, list[k - 1], mirror_text, receipt)
            },
            MirrorStepView::Done => sends_from(replies, at) >= list.len(),
            _ => true,
        },
    decreases list.len(),
{
    if list.len() > 0 && at < replies.len() {
        let rest = list.drop_first();
        assert(sends_from(replies, replies.len() as int) == 0);
        if replies[at] == MirrorReplyView::Sent(None) {
            every_delivery_has_its_turn(owner, conversation, mirror_text, rest, replies, at + 1);
        } else if at + 1 < replies.len() {
            every_delivery_has_its_turn(owner, conversation, mirror_text, rest, replies, at + 2);
            assert(sends_from(replies, at + 1) == (if replies[at + 1] is Sent {
                1 + sends_from(replies, at + 2)
            } else {
                sends_from(replies, at + 2)
            }));
        }
        assert(forall|k: int| 0 <= k < rest.len() ==> rest[k] == list[k + 1]);
    }
}

/// Whoever gets a mirrored turn can continue its conversation: where the user quotes the message
/// that was delivered, the recorded route is asked for. On Lark the user may reply in any chat; on
/// WeChat the chat is the user.
pub proof fn reply_to_a_mirrored_turn_finds_its_route(
    users: Seq<AssistantUserRowView>,
    plugins: Seq<ChannelPluginRowView>,
    excluded_target: Option<ChannelMirrorTargetRefView>,
    i: int,
    conversation: Seq<char>,
    mirror_text: Seq<char>,
    receipt: ChannelDeliveryReceiptView,
    chat_id: Seq<char>,
    quoted: Option<Seq<char>>,
    now_ms: i64,
)
    requires
        0 <= i < deliveries(users, plugins, excluded_target).len(),
        deliveries(users, plugins, excluded_target)[i].platform == PluginType::Weixin ==> chat_id
            == deliveries(users, plugins, excluded_target)[i].platform_user_id,
    ensures
        ({
            let d = deliveries(users, plugins, excluded_target)[i];
            let route = route_of(conversation, d, mirror_text, receipt);
            &&& route.platform_type == d.platform.name()
            &&& route.conversation_id == conversation
            &&& reply::route_queries(
                d.platform,
                chat_id,
                d.platform_user_id,
                receipt.message_id,
                quoted,
                now_ms,
            ).contains(
                RouteQueryView::Message { chat_id: route.chat_id, message_id: route.message_id },
            )
        }),
{
    let d = deliveries(users, plugins, excluded_target)[i];
    nobody_gets_a_turn_twice_or_back(users, plugins, excluded_target);
    lemma_delivery_platform(users, plugins, excluded_target, i);
    let queries = reply::route_queries(
        d.platform,
        chat_id,
        d.platform_user_id,
        receipt.message_id,
        quoted,
        now_ms,
    );
    let wanted = RouteQueryView::Message {
        chat_id: d.platform_user_id,
        message_id: receipt.message_id,
    };
    if d.platform_user_id == chat_id {
        assert(queries[0] == wanted);
    } else {
        assert(queries[1] == wanted);
    }
}

proof fn lemma_delivery_platform(
    users: Seq<AssistantUserRowView>,
    plugins: Seq<ChannelPluginRowView>,
    excluded_target: Option<ChannelMirrorTargetRefView>,
    i: int,
)
    requires
        0 <= i < deliveries(users, plugins, excluded_target).len(),
    ensures
        ({
            let d = deliveries(users, plugins, excluded_target)[i];
            d.platform_type == d.platform.name()
        }),
    decreases users.len(),
{
    let earlier = deliveries(users.drop_last(), plugins, excluded_target);
    let d = deliveries(users, plugins, excluded_target)[i];
    if i < earlier.len() {
        lemma_delivery_platform(users.drop_last(), plugins, excluded_target, i);
        assert(d == earlier[i]);
    } else {
        let name = d.platform_type;
        assert(types::platform_of(name) == Some(d.platform));
        assert(exists|p: PluginType| #[trigger] p.name() == name);
    }
}

/// What the service can be told.
pub enum MirrorInput {
    /// An event of the desktop.
    Event { name: Seq<char>, data: JsonView },
    /// A question came from a chat.
    Mark {
        owner: Seq<char>,
        conversation: Seq<char>,
        question: Seq<char>,
        target: ChannelMirrorTargetRefView,
    },
}

/// The turns after an input, and the conversation with its turn that the input completed.
pub open spec fn after_input(turns: Turns, input: MirrorInput) -> (
    Turns,
    Option<(Seq<char>, MirrorTurnStateView)>,
) {
    match input {
        MirrorInput::Event { name, data } => after_event(turns, name, data),
        MirrorInput::Mark { owner, conversation, question, target } => (
            turns.insert(conversation, begun(owner, question, Some(target))),
            None,
        ),
    }
}

/// The turns after inputs, one after another.
pub open spec fn after_inputs(turns: Turns, inputs: Seq<MirrorInput>) -> Turns
    decreases inputs.len(),
{
    if inputs.len() == 0 {
        turns
    } else {
        after_input(after_inputs(turns, inputs.drop_last()), inputs.last()).0
    }
}

/// What the input at position `i` completes.
pub open spec fn completed_by(turns: Turns, inputs: Seq<MirrorInput>, i: int) -> Option<
    (Seq<char>, MirrorTurnStateView),
> {
    after_input(after_inputs(turns, inputs.take(i)), inputs[i]).1
}

/// Whether an input begins a turn of a conversation: a visible question, or a mark.
pub open spec fn begins_turn(input: MirrorInput, conversation: Seq<char>) -> bool {
    match input {
        MirrorInput::Event { name, data } => {
            &&& name == "message.userCreated"@
            &&& json::text_entry(data, "conversation_id"@) == Some(conversation)
            &&& json::text_entry(data, "user_id"@) is Some
            &&& !json::true_entry(data, "hidden"@)
        },
        MirrorInput::Mark { conversation: marked, .. } => marked == conversation,
    }
}

proof fn lemma_no_turn_begins(turns: Turns, inputs: Seq<MirrorInput>, conversation: Seq<char>)
    requires
        !turns.contains_key(conversation),
        forall|i: int| 0 <= i < inputs.len() ==> !begins_turn(#[trigger] inputs[i], conversation),
    ensures
        !after_inputs(turns, inputs).contains_key(conversation),
    decreases inputs.len(),
{
    if inputs.len() > 0 {
        let earlier = inputs.drop_last();
        assert forall|i: int| 0 <= i < earlier.len() implies !begins_turn(
            #[trigger] earlier[i],
            conversation,
        ) by {
            assert(earlier[i] == inputs[i]);
        }
        lemma_no_turn_begins(turns, earlier, conversation);
        assert(!begins_turn(inputs[inputs.len() - 1], conversation));
    }
}

/// A completed turn is handed out once: whatever the service is told after it, nothing completes a
/// turn of that conversation again before a visible question or a mark has begun one.
pub proof fn turn_completes_once(
    turns: Turns,
    name: Seq<char>,
    data: JsonView,
    inputs: Seq<MirrorInput>,
    conversation: Seq<char>,
    i: int,
)
    requires
        after_event(turns, name, data).1 matches Some((completed, _)) && completed == conversation,
        0 <= i < inputs.len(),
        forall|k: int| 0 <= k < i ==> !begins_turn(#[trigger] inputs[k], conversation),
    ensures
        !after_event(turns, name, data).0.contains_key(conversation),
        completed_by(after_event(turns, name, data).0, inputs, i) matches Some((completed, _))
            ==> completed != conversation,
{
    let left = after_event(turns, name, data).0;
    let earlier = inputs.take(i);
    assert forall|k: int| 0 <= k < earlier.len() implies !begins_turn(
        #[trigger] earlier[k],
        conversation,
    ) by {
        assert(earlier[k] == inputs[k]);
    }
    lemma_no_turn_begins(left, earlier, conversation);
}

/// The chat that a question came from stays left out when the desktop reports the question, and
/// through every piece of the answer.
pub proof fn source_chat_stays_excluded(
    turns: Turns,
    conversation: Seq<char>,
    name: Seq<char>,
    data: JsonView,
)
    requires
        turns.contains_key(conversation),
        after_event(turns, name, data).0.contains_key(conversation),
    ensures
        after_event(turns, name, data).0[conversation].excluded_target
            == turns[conversation].excluded_target,
{
}

/// A replacement that arrives before a turn is completed is what gets mirrored: the whole of it and
/// nothing that was streamed before it.
pub proof fn replacement_is_mirrored(
    turns: Turns,
    conversation: Seq<char>,
    replacement: JsonView,
    completion: JsonView,
)
    requires
        turns.contains_key(conversation),
        json::text_entry(replacement, "conversation_id"@) == Some(conversation),
        json::text_entry(replacement, "user_id"@) is Some,
        json::text_entry(replacement, "type"@) == Some("content"@),
        json::true_entry(replacement, "replace"@),
        json::text_entry(completion, "conversation_id"@) == Some(conversation),
        json::text_entry(completion, "user_id"@) is Some,
    ensures
        after_event(
            after_event(turns, "message.stream"@, replacement).0,
            "turn.completed"@,
            completion,
        ).1 matches Some((completed, turn)) && completed == conversation && turn.assistant_text
            == stream_chunk(replacement),
{
    reveal_strlit("message.userCreated");
    reveal_strlit("message.stream");
    reveal_strlit("turn.completed");
    assert("message.userCreated"@.len() != "message.stream"@.len());
    assert("message.userCreated"@.len() != "turn.completed"@.len());
    assert("message.stream"@[0] != "turn.completed"@[0]);
}

/// An event of one conversation leaves the turns of the others alone.
pub proof fn other_conversations_are_untouched(
    turns: Turns,
    name: Seq<char>,
    data: JsonView,
    other: Seq<char>,
)
    requires
        json::text_entry(data, "conversation_id"@) != Some(other),
    ensures
        after_event(turns, name, data).0.contains_key(other) == turns.contains_key(other),
        turns.contains_key(other) ==> after_event(turns, name, data).0[other] == turns[other],
{
}

/// The asker, who has the answer already, does not get the turn back: on the platform that the
/// question came from, no delivery goes to the chat or to the user that it came from.
pub proof fn asker_gets_nothing_back(
    users: Seq<AssistantUserRowView>,
    plugins: Seq<ChannelPluginRowView>,
    source: ChannelMirrorTargetRefView,
    i: int,
)
    requires
        0 <= i < deliveries(users, plugins, Some(source)).len(),
    ensures
        ({
            let d = deliveries(users, plugins, Some(source))[i];
            d.platform == source.platform ==> {
                &&& d.platform_user_id != source.chat_id
                &&& Some(d.platform_user_id) != source.platform_user_id
            }
        }),
{
    nobody_gets_a_turn_twice_or_back(users, plugins, Some(source));
}

/// Whether a plugin of a platform can deliver: it is switched on and running.
pub open spec fn can_deliver(plugin: ChannelPluginRowView, platform_type: Seq<char>) -> bool {
    plugin.enabled && plugin.status == Some("running"@) && plugin.plugin_type == platform_type
}

proof fn lemma_running_plugin(plugins: Seq<ChannelPluginRowView>, platform_type: Seq<char>)
    ensures
        match running_plugin(plugins, platform_type) {
            Some(id) => exists|k: int|
                0 <= k < plugins.len() && can_deliver(#[trigger] plugins[k], platform_type)
                    && plugins[k].id == id && forall|j: int|
                    k < j < plugins.len() ==> !can_deliver(#[trigger] plugins[j], platform_type),
            None => forall|k: int|
                0 <= k < plugins.len() ==> !can_deliver(#[trigger] plugins[k], platform_type),
        },
    decreases plugins.len(),
{
    if plugins.len() > 0 {
        let earlier = plugins.drop_last();
        lemma_running_plugin(earlier, platform_type);
        assert(plugins[plugins.len() - 1] == plugins.last());
        assert(forall|k: int| 0 <= k < earlier.len() ==> earlier[k] == plugins[k]);
        if !can_deliver(plugins.last(), platform_type) {
            if let Some(id) = running_plugin(earlier, platform_type) {
                let k = choose|k: int|
                    0 <= k < earlier.len() && can_deliver(#[trigger] earlier[k], platform_type)
                        && earlier[k].id == id && forall|j: int|
                        k < j < earlier.len() ==> !can_deliver(#[trigger] earlier[j], platform_type);
                assert(can_deliver(plugins[k], platform_type));
                assert forall|j: int| k < j < plugins.len() implies !can_deliver(
                    #[trigger] plugins[j],
                    platform_type,
                ) by {
                    if j < earlier.len() {
                        assert(!can_deliver(earlier[j], platform_type));
                    }
                }
            } else {
                assert forall|k: int| 0 <= k < plugins.len() implies !can_deliver(
                    #[trigger] plugins[k],
                    platform_type,
                ) by {
                    if k < earlier.len() {
                        assert(!can_deliver(earlier[k], platform_type));
                    }
                }
            }
        }
    }
}

proof fn lemma_mirrored_platform(name: Seq<char>)
    ensures
        name == "lark"@ ==> types::platform_of(name) == Some(PluginType::Lark),
        name == "weixin"@ ==> types::platform_of(name) == Some(PluginType::Weixin),
        types::platform_of(name) == Some(PluginType::Lark) ==> name == "lark"@,
        types::platform_of(name) == Some(PluginType::Weixin) ==> name == "weixin"@,
{
    types::platform_of_its_name(PluginType::Lark);
    types::platform_of_its_name(PluginType::Weixin);
    assert(PluginType::Lark.name() == "lark"@);
    assert(PluginType::Weixin.name() == "weixin"@);
}

/// A turn goes to users and to nobody else: every delivery is for one of the users, by the id that
/// the user has on Lark or WeChat, through a plugin of that platform that is on and running.
pub proof fn deliveries_go_to_users(
    users: Seq<AssistantUserRowView>,
    plugins: Seq<ChannelPluginRowView>,
    source: Option<ChannelMirrorTargetRefView>,
    i: int,
)
    requires
        0 <= i < deliveries(users, plugins, source).len(),
    ensures
        ({
            let d = deliveries(users, plugins, source)[i];
            &&& exists|k: int|
                0 <= k < users.len() && (#[trigger] users[k]).platform_user_id == d.platform_user_id
                    && users[k].platform_type == d.platform_type
            &&& exists|k: int|
                0 <= k < plugins.len() && (#[trigger] plugins[k]).id == d.plugin_id
                    && plugins[k].enabled && plugins[k].status == Some("running"@)
                    && plugins[k].plugin_type == d.platform_type
            &&& (d.platform_type == "lark"@ && d.platform == PluginType::Lark) || (d.platform_type
                == "weixin"@ && d.platform == PluginType::Weixin)
        }),
    decreases users.len(),
{
    let earlier = deliveries(users.drop_last(), plugins, source);
    let d = deliveries(users, plugins, source)[i];
    if i < earlier.len() {
        deliveries_go_to_users(users.drop_last(), plugins, source, i);
        assert(d == earlier[i]);
        let k = choose|k: int|
            0 <= k < users.drop_last().len() && (#[trigger] users.drop_last()[k]).platform_user_id
                == d.platform_user_id && users.drop_last()[k].platform_type == d.platform_type;
        assert(users[k] == users.drop_last()[k]);
    } else {
        assert(users[users.len() - 1] == users.last());
        lemma_mirrored_platform(d.platform_type);
        lemma_running_plugin(plugins, d.platform_type);
        let k = choose|k: int|
            0 <= k < plugins.len() && can_deliver(#[trigger] plugins[k], d.platform_type)
                && plugins[k].id == d.plugin_id && forall|j: int|
                k < j < plugins.len() ==> !can_deliver(#[trigger] plugins[j], d.platform_type);
        assert(plugins[k].id == d.plugin_id);
    }
}

/// Nobody is left out: a user on Lark or WeChat whose platform has a running plugin gets the turn
/// through it, unless the question came from that user on that platform. Of several running plugins
/// of a platform the last one delivers.
pub proof fn every_other_user_gets_the_turn(
    users: Seq<AssistantUserRowView>,
    plugins: Seq<ChannelPluginRowView>,
    source: Option<ChannelMirrorTargetRefView>,
    k: int,
    p: int,
)
    requires
        0 <= k < users.len(),
        users[k].platform_type == "lark"@ || users[k].platform_type == "weixin"@,
        0 <= p < plugins.len(),
        can_deliver(plugins[p], users[k].platform_type),
        forall|j: int|
            p < j < plugins.len() ==> !can_deliver(#[trigger] plugins[j], users[k].platform_type),
        source matches Some(target) ==> {
            ||| target.platform.name() != users[k].platform_type
            ||| (target.chat_id != users[k].platform_user_id && target.platform_user_id != Some(
                users[k].platform_user_id,
            ))
        },
    ensures
        exists|i: int|
            0 <= i < deliveries(users, plugins, source).len() && (#[trigger] deliveries(
                users,
                plugins,
                source,
            )[i]).platform_user_id == users[k].platform_user_id && deliveries(
                users,
                plugins,
                source,
            )[i].plugin_id == plugins[p].id,
{
    let user = users[k];
    lemma_mirrored_platform(user.platform_type);
    lemma_running_plugin(plugins, user.platform_type);
    let id = running_plugin(plugins, user.platform_type)->Some_0;
    let q = choose|q: int|
        0 <= q < plugins.len() && can_deliver(#[trigger] plugins[q], user.platform_type)
            && plugins[q].id == id && forall|j: int|
            q < j < plugins.len() ==> !can_deliver(#[trigger] plugins[j], user.platform_type);
    assert(q == p);
    everybody_gets_a_turn(users, plugins, source, k);
    let d = delivery_for(user, plugins, source)->Some_0;
    let all = deliveries(users, plugins, source);
    let i = choose|i: int| 0 <= i < all.len() && same_target(#[trigger] all[i], d);
    assert(all[i].platform_user_id == user.platform_user_id);
}

/// What is mirrored of a turn: its answer with nothing around it, behind the question where there is
/// one; nothing of a turn without an answer.
pub proof fn question_and_answer_are_mirrored(turn: MirrorTurnStateView)
    ensures
        ({
            let answer = text::trim(text::unify_newlines(turn.assistant_text));
            match mirror_text_of(turn) {
                None => answer.len() == 0,
                Some(said) => {
                    &&& answer.len() > 0
                    &&& said.len() >= answer.len()
                    &&& said.skip(said.len() - answer.len()) == answer
                    &&& turn.latest_user_text.len() == 0 ==> said == answer
                    &&& turn.latest_user_text.len() > 0 ==> said == "你："@ + turn.latest_user_text
                        + "\n\nAI："@ + answer
                },
            }
        }),
{
    let answer = text::trim(text::unify_newlines(turn.assistant_text));
    if let Some(said) = mirror_text_of(turn) {
        assert(said.skip(said.len() - answer.len()) =~= answer);
    }
}

/// Whether an event brings a piece of the answer to a conversation.
pub open spec fn is_piece_of(data: JsonView, conversation: Seq<char>, words: Seq<char>) -> bool {
    &&& json::text_entry(data, "conversation_id"@) == Some(conversation)
    &&& json::text_entry(data, "user_id"@) is Some
    &&& json::text_entry(data, "type"@) == Some("text"@) || json::text_entry(data, "type"@) == Some(
        "content"@,
    )
    &&& !json::true_entry(data, "replace"@)
    &&& json::text_of(json::entry(json::entry(Some(data), "data"@), "content"@)) == Some(words)
}

/// Texts put together.
pub open spec fn put_together(pieces: Seq<Seq<char>>) -> Seq<char>
    decreases pieces.len(),
{
    if pieces.len() == 0 {
        Seq::empty()
    } else {
        put_together(pieces.drop_last()) + pieces.last()
    }
}

/// The turns after events of the stream, one after another.
pub open spec fn after_stream_events(turns: Turns, events: Seq<JsonView>) -> Turns
    decreases events.len(),
{
    if events.len() == 0 {
        turns
    } else {
        after_event(after_stream_events(turns, events.drop_last()), "message.stream"@, events.last()).0
    }
}

proof fn lemma_event_names()
    ensures
        "message.userCreated"@ != "message.stream"@,
        "message.userCreated"@ != "turn.completed"@,
        "message.stream"@ != "turn.completed"@,
{
    reveal_strlit("message.userCreated");
    reveal_strlit("message.stream");
    reveal_strlit("turn.completed");
    assert("message.userCreated"@.len() != "message.stream"@.len());
    assert("message.userCreated"@.len() != "turn.completed"@.len());
    assert("message.stream"@[0] != "turn.completed"@[0]);
}

proof fn lemma_pieces_gather(
    turns: Turns,
    conversation: Seq<char>,
    events: Seq<JsonView>,
    pieces: Seq<Seq<char>>,
)
    requires
        turns.contains_key(conversation),
        events.len() == pieces.len(),
        forall|i: int|
            0 <= i < events.len() ==> is_piece_of(#[trigger] events[i], conversation, pieces[i]),
    ensures
        ({
            let after = after_stream_events(turns, events);
            &&& after.contains_key(conversation)
            &&& after[conversation] == MirrorTurnStateView {
                assistant_text: turns[conversation].assistant_text + put_together(pieces),
                ..turns[conversation]
            }
        }),
    decreases events.len(),
{
    if events.len() > 0 {
        let earlier = events.drop_last();
        assert forall|i: int| 0 <= i < earlier.len() implies is_piece_of(
            #[trigger] earlier[i],
            conversation,
            pieces.drop_last()[i],
        ) by {
            assert(is_piece_of(events[i], conversation, pieces[i]));
        }
        lemma_pieces_gather(turns, conversation, earlier, pieces.drop_last());
        assert(is_piece_of(events[events.len() - 1], conversation, pieces[pieces.len() - 1]));
        lemma_event_names();
        assert(turns[conversation].assistant_text + put_together(pieces) =~= (
        turns[conversation].assistant_text + put_together(pieces.drop_last())) + pieces.last());
    } else {
        assert(turns[conversation].assistant_text + put_together(pieces)
            =~= turns[conversation].assistant_text);
    }
}

/// A turn on the desktop is handed out as it happened: with the owner who asked, the question, and all
/// the pieces of the answer in their order; and with the chat that the question was marked to come
/// from, if it was.
pub proof fn desktop_turn_is_handed_out(
    turns: Turns,
    conversation: Seq<char>,
    owner: Seq<char>,
    question: Seq<char>,
    asked: JsonView,
    events: Seq<JsonView>,
    pieces: Seq<Seq<char>>,
    completion: JsonView,
)
    requires
        json::text_entry(asked, "conversation_id"@) == Some(conversation),
        json::text_entry(asked, "user_id"@) == Some(owner),
        json::text_entry(asked, "content"@) == Some(question),
        !json::true_entry(asked, "hidden"@),
        events.len() == pieces.len(),
        forall|i: int|
            0 <= i < events.len() ==> is_piece_of(#[trigger] events[i], conversation, pieces[i]),
        json::text_entry(completion, "conversation_id"@) == Some(conversation),
        json::text_entry(completion, "user_id"@) is Some,
    ensures
        ({
            let begun = after_event(turns, "message.userCreated"@, asked).0;
            after_event(
                after_stream_events(begun, events),
                "turn.completed"@,
                completion,
            ).1 == Some(
                (
                    conversation,
                    MirrorTurnStateView {
                        owner_user_id: owner,
                        latest_user_text: text::trim(text::unify_newlines(question)),
                        assistant_text: put_together(pieces),
                        excluded_target: if turns.contains_key(conversation) {
                            turns[conversation].excluded_target
                        } else {
                            None
                        },
                    },
                ),
            )
        }),
{
    lemma_event_names();
    let begun = after_event(turns, "message.userCreated"@, asked).0;
    lemma_pieces_gather(begun, conversation, events, pieces);
    assert(Seq::<char>::empty() + put_together(pieces) =~= put_together(pieces));
}

/// A question that came from a chat begins a turn of its own: with its owner and its text, without any
/// answer yet, and with the chat as the one to leave out.
pub proof fn marked_turn_is_begun(
    turns: Turns,
    owner: Seq<char>,
    conversation: Seq<char>,
    question: Seq<char>,
    source: ChannelMirrorTargetRefView,
)
    ensures
        ({
            let marked = after_input(
                turns,
                MirrorInput::Mark { owner, conversation, question, target: source },
            ).0;
            &&& marked.contains_key(conversation)
            &&& marked[conversation] == MirrorTurnStateView {
                owner_user_id: owner,
                latest_user_text: text::trim(text::unify_newlines(question)),
                assistant_text: Seq::empty(),
                excluded_target: Some(source),
            }
            &&& forall|other: Seq<char>|
                other != conversation ==> #[trigger] marked.contains_key(other) == turns.contains_key(
                    other,
                ) && (turns.contains_key(other) ==> marked[other] == turns[other])
            &&& begun(owner, question, Some(source)) == marked[conversation]
        }),
{
}

/// What says nothing about a turn changes none: hidden questions, events without a conversation or a
/// user, and events of another kind. An error of the agent drops the turn; a completion of a
/// conversation without a turn completes nothing.
pub proof fn idle_events_change_nothing(turns: Turns, name: Seq<char>, data: JsonView)
    ensures
        json::text_entry(data, "conversation_id"@) is None || json::text_entry(data, "user_id"@) is None
            ==> after_event(turns, name, data) == (
            turns,
            None::<(Seq<char>, MirrorTurnStateView)>,
        ),
        name == "message.userCreated"@ && json::true_entry(data, "hidden"@) ==> after_event(
            turns,
            name,
            data,
        ) == (turns, None::<(Seq<char>, MirrorTurnStateView)>),
        name != "message.userCreated"@ && name != "message.stream"@ && name != "turn.completed"@
            ==> after_event(turns, name, data) == (turns, None::<(Seq<char>, MirrorTurnStateView)>),
        name != "turn.completed"@ ==> after_event(turns, name, data).1 is None,
        name == "message.stream"@ && json::text_entry(data, "user_id"@) is Some && json::text_entry(
            data,
            "type"@,
        ) == Some("error"@) ==> (json::text_entry(data, "conversation_id"@) matches Some(conversation)
            ==> !after_event(turns, name, data).0.contains_key(conversation)),
        name == "turn.completed"@ ==> (after_event(turns, name, data).1 matches Some((completed, turn))
            ==> turns.contains_key(completed) && turns[completed] == turn && json::text_entry(
            data,
            "conversation_id"@,
        ) == Some(completed)),
{
    lemma_event_names();
    reveal_strlit("error");
    reveal_strlit("text");
    reveal_strlit("content");
    assert("error"@.len() != "text"@.len());
    assert("error"@.len() != "content"@.len());
}

/// Mirroring asks one thing after another: whether the owner's conversation still exists, the plugins,
/// the users. It stops where the conversation is gone, where the store fails, and where there is
/// nothing to say; else every message is the whole turn, to a user other than the asker, for the
/// owner of the turn.
pub proof fn mirroring_goes_step_by_step(
    conversation: Seq<char>,
    turn: MirrorTurnStateView,
    said: Seq<char>,
    plugins: Seq<ChannelPluginRowView>,
    users: Seq<AssistantUserRowView>,
    rest: Seq<MirrorReplyView>,
)
    requires
        mirror_text_of(turn) == Some(said),
    ensures
        ({
            let owner = turn.owner_user_id;
            let there = MirrorReplyView::Exists(true);
            let listed = MirrorReplyView::Plugins(Some(plugins));
            let known = MirrorReplyView::Users(Some(users));
            &&& mirror_flow(conversation, turn, Seq::empty()) == MirrorStepView::Ask(
                MirrorRequestView::CheckConversation {
                    owner_user_id: owner,
                    conversation_id: conversation,
                },
            )
            &&& mirror_flow(conversation, turn, seq![MirrorReplyView::Exists(false)])
                == MirrorStepView::Done
            &&& mirror_flow(conversation, turn, seq![there]) == MirrorStepView::Ask(
                MirrorRequestView::ListPlugins { owner_user_id: owner },
            )
            &&& mirror_flow(conversation, turn, seq![there, MirrorReplyView::Plugins(None)])
                == MirrorStepView::Done
            &&& mirror_flow(conversation, turn, seq![there, listed]) == MirrorStepView::Ask(
                MirrorRequestView::ListUsers { owner_user_id: owner },
            )
            &&& mirror_flow(conversation, turn, seq![there, listed, MirrorReplyView::Users(None)])
                == MirrorStepView::Done
            &&& match mirror_flow(conversation, turn, seq![there, listed, known] + rest) {
                MirrorStepView::Ask(
                    MirrorRequestView::Send { owner_user_id, plugin_id, chat_id, message },
                ) => {
                    let k = sends_from(seq![there, listed, known] + rest, 3) as int;
                    let all = deliveries(users, plugins, turn.excluded_target);
                    &&& owner_user_id == owner
                    &&& k < all.len()
                    &&& plugin_id == all[k].plugin_id
                    &&& chat_id == all[k].platform_user_id
                    &&& message == UnifiedOutgoingMessageView {
                        message_type: types::OutgoingMessageType::Text,
                        text: Some(said),
                        parse_mode: None,
                        buttons: None,
                        keyboard: None,
                        image_url: None,
                        file_url: None,
                        file_name: None,
                        media_actions: None,
                        reply_to_message_id: None,
                        silent: None,
                    }
                },
                MirrorStepView::Ask(MirrorRequestView::Record { owner_user_id, route }) => {
                    let k = sends_from(seq![there, listed, known] + rest, 3) as int;
                    let all = deliveries(users, plugins, turn.excluded_target);
                    &&& owner_user_id == owner
                    &&& 1 <= k <= all.len()
                    &&& (seq![there, listed, known] + rest).last() matches MirrorReplyView::Sent(
                        Some(receipt),
                    )
                    &&& route == ConversationRouteView {
                        conversation_id: conversation,
                        platform_type: all[k - 1].platform_type,
                        chat_id: all[k - 1].platform_user_id,
                        message_id: receipt.message_id,
                        preview_text: Some(said),
                        sent_at: receipt.completed_at,
                        delivery_started_at: Some(receipt.started_at),
                        delivery_completed_at: Some(receipt.completed_at),
                    }
                },
                MirrorStepView::Ask(_) => false,
                MirrorStepView::Done => sends_from(seq![there, listed, known] + rest, 3)
                    >= deliveries(users, plugins, turn.excluded_target).len(),
                MirrorStepView::Unexpected => true,
            }
        }),
{
    let replies = seq![
        MirrorReplyView::Exists(true),
        MirrorReplyView::Plugins(Some(plugins)),
        MirrorReplyView::Users(Some(users)),
    ] + rest;
    let all = deliveries(users, plugins, turn.excluded_target);
    assert(replies[0] == MirrorReplyView::Exists(true));
    assert(replies[1] == MirrorReplyView::Plugins(Some(plugins)));
    assert(replies[2] == MirrorReplyView::Users(Some(users)));
    every_delivery_has_its_turn(turn.owner_user_id, conversation, said, all, replies, 3);
    mirrored_turn_leads_back(turn.owner_user_id, conversation, said, all, replies, 3);
    nobody_gets_a_turn_twice_or_back(users, plugins, turn.excluded_target);
}

/// A turn without anything to say is not mirrored, whatever the replies.
pub proof fn turn_without_an_answer_is_not_mirrored(
    conversation: Seq<char>,
    turn: MirrorTurnStateView,
    replies: Seq<MirrorReplyView>,
)
    requires
        text::trim(text::unify_newlines(turn.assistant_text)).len() == 0,
    ensures
        mirror_flow(conversation, turn, replies) == MirrorStepView::Done,
{
}

/// Replies on DingTalk come from a chat that is named after the user; elsewhere the user is the chat.
pub proof fn reply_chat_of_a_user(platform: PluginType, user: Seq<char>)
    ensures
        platform == PluginType::Dingtalk ==> route_chat_id(platform, user) == "user:"@ + user,
        platform != PluginType::Dingtalk ==> route_chat_id(platform, user) == user,
{
}

/// Whether replies from `at` on answer deliveries in kind: each message is reported as failed, or as
/// sent and then recorded.
pub open spec fn answers_deliveries(replies: Seq<MirrorReplyView>, at: int) -> bool
    decreases replies.len() - at,
{
    if at >= replies.len() {
        true
    } else {
        match replies[at] {
            MirrorReplyView::Sent(None) => answers_deliveries(replies, at + 1),
            MirrorReplyView::Sent(Some(_)) => at + 1 >= replies.len() || (replies[at + 1] is Recorded
                && answers_deliveries(replies, at + 2)),
            _ => false,
        }
    }
}

/// A message that could not be sent stops nothing: as long as messages are answered in kind, the
/// deliveries go on to their end.
pub proof fn failed_message_stops_nothing(
    owner: Seq<char>,
    conversation: Seq<char>,
    said: Seq<char>,
    list: Seq<MirrorDeliveryView>,
    replies: Seq<MirrorReplyView>,
    at: int,
)
    requires
        0 <= at <= replies.len(),
        answers_deliveries(replies, at),
    ensures
        delivery_flow(owner, conversation, said, list, replies, at) !is Unexpected,
    decreases list.len(),
{
    if list.len() > 0 && at < replies.len() {
        if replies[at] == MirrorReplyView::Sent(None) {
            failed_message_stops_nothing(
                owner,
                conversation,
                said,
                list.drop_first(),
                replies,
                at + 1,
            );
        } else if at + 1 < replies.len() {
            failed_message_stops_nothing(
                owner,
                conversation,
                said,
                list.drop_first(),
                replies,
                at + 2,
            );
        }
    }
}

/// Who is left out of a turn: on the platform that its question came from, the chat and the user that
/// it came from; and nobody else, nor anybody where the question did not come from a chat.
pub proof fn only_the_source_is_left_out(
    platform: PluginType,
    receiver: Seq<char>,
    source: ChannelMirrorTargetRefView,
)
    ensures
        is_excluded(platform, receiver, Some(source)) <==> source.platform == platform && (source.chat_id
            == receiver || source.platform_user_id == Some(receiver)),
        !is_excluded(platform, receiver, None),
{
}

/// The turn goes to the users in their order: another user at the end changes nothing about those
/// before, and adds one delivery at most, the last one, to that user.
pub proof fn deliveries_follow_the_users(
    users: Seq<AssistantUserRowView>,
    user: AssistantUserRowView,
    plugins: Seq<ChannelPluginRowView>,
    source: Option<ChannelMirrorTargetRefView>,
)
    ensures
        ({
            let before = deliveries(users, plugins, source);
            let after = deliveries(users.push(user), plugins, source);
            ||| after == before
            ||| after.len() == before.len() + 1 && after.drop_last() == before
                && after.last().platform_user_id == user.platform_user_id
                && after.last().platform_type == user.platform_type
        }),
        deliveries(Seq::empty(), plugins, source).len() == 0,
{
    let before = deliveries(users, plugins, source);
    let after = deliveries(users.push(user), plugins, source);
    assert(users.push(user).drop_last() =~= users);
    if after.len() == before.len() + 1 {
        assert(after.drop_last() =~= before);
    }
}

} // verus!
