//! The WeChat (iLink Bot) plugin.
//!
//! It polls for updates, turns them into incoming messages, and keeps for every chat the token
//! without which the platform accepts no message to it. WeChat cannot edit a message: an edit is a
//! new message.

use dashmap::DashMap;
use vstd::prelude::*;
use vstd::string::*;

use crate::json;
use crate::json::{json_object, json_text, lookup, Json, JsonView};
use crate::text;
use crate::text::{last_bytes, trimmed};
use crate::types::{
    BotInfo, BotInfoView, ChannelError, ChannelErrorView, MessageContentType, PluginConfig, PluginConfigView,
    PluginCredentialUpdate, PluginCredentialUpdateView, PluginStatus, PluginType, UnifiedIncomingMessage,
    UnifiedIncomingMessageView, UnifiedMessageContent, UnifiedMessageContentView, UnifiedOutgoingMessage,
    UnifiedUser, UnifiedUserView,
};

verus! {

// ── Updates ─────────────────────────────────────────────────────────

/// An item that is text.
pub const ITEM_TYPE_TEXT: i64 = 1;

/// An item that is an image.
pub const ITEM_TYPE_IMAGE: i64 = 2;

/// An item that is speech, which the platform may have turned into text.
pub const ITEM_TYPE_VOICE: i64 = 3;

/// An item that is a file.
pub const ITEM_TYPE_FILE: i64 = 4;

/// The text of an item.
#[derive(Debug, Clone, PartialEq, Eq)]
pub struct TextItem {
    pub text: Option<String>,
}

/// The mathematical value of a [`TextItem`].
#[verifier::ext_equal]
pub struct TextItemView {
    pub text: Option<Seq<char>>,
}

impl DeepView for TextItem {
    type V = TextItemView;

    open spec fn deep_view(&self) -> TextItemView {
        TextItemView {
            text: self.text.deep_view(),
        }
    }
}

impl Default for TextItem {
    fn default() -> (r: Self)
        ensures
            r.text is None,
    {
        TextItem { text: None }
    }
}

/// What was said in an item.
#[derive(Debug, Clone, PartialEq, Eq)]
pub struct VoiceItem {
    pub text: Option<String>,
}

/// The mathematical value of a [`VoiceItem`].
#[verifier::ext_equal]
pub struct VoiceItemView {
    pub text: Option<Seq<char>>,
}

impl DeepView for VoiceItem {
    type V = VoiceItemView;

    open spec fn deep_view(&self) -> VoiceItemView {
        VoiceItemView {
            text: self.text.deep_view(),
        }
    }
}

impl Default for VoiceItem {
    fn default() -> (r: Self)
        ensures
            r.text is None,
    {
        VoiceItem { text: None }
    }
}

/// How to fetch and read encrypted media.
#[derive(Debug, Clone, PartialEq, Eq)]
pub struct MediaEncryptInfo {
    pub encrypt_query_param: Option<String>,
    pub aes_key: Option<String>,
}

/// The mathematical value of a [`MediaEncryptInfo`].
#[verifier::ext_equal]
pub struct MediaEncryptInfoView {
    pub encrypt_query_param: Option<Seq<char>>,
    pub aes_key: Option<Seq<char>>,
}

impl DeepView for MediaEncryptInfo {
    type V = MediaEncryptInfoView;

    open spec fn deep_view(&self) -> MediaEncryptInfoView {
        MediaEncryptInfoView {
            encrypt_query_param: self.encrypt_query_param.deep_view(),
            aes_key: self.aes_key.deep_view(),
        }
    }
}

impl Default for MediaEncryptInfo {
    fn default() -> (r: Self)
        ensures
            r.encrypt_query_param is None,
            r.aes_key is None,
    {
        MediaEncryptInfo { encrypt_query_param: None, aes_key: None }
    }
}

/// The media of an item.
#[derive(Debug, Clone, PartialEq, Eq)]
pub struct MediaItemData {
    pub media: Option<MediaEncryptInfo>,
}

/// The mathematical value of a [`MediaItemData`].
#[verifier::ext_equal]
pub struct MediaItemDataView {
    pub media: Option<MediaEncryptInfoView>,
}

impl DeepView for MediaItemData {
    type V = MediaItemDataView;

    open spec fn deep_view(&self) -> MediaItemDataView {
        MediaItemDataView {
            media: self.media.deep_view(),
        }
    }
}

impl Default for MediaItemData {
    fn default() -> (r: Self)
        ensures
            r.media is None,
    {
        MediaItemData { media: None }
    }
}

/// A quoted item.
#[derive(Debug, Clone, PartialEq, Eq)]
pub struct WeixinRefMessageItem {
    pub msg_id: Option<String>,
    pub text_item: Option<TextItem>,
}

/// The mathematical value of a [`WeixinRefMessageItem`].
#[verifier::ext_equal]
pub struct WeixinRefMessageItemView {
    pub msg_id: Option<Seq<char>>,
    pub text_item: Option<TextItemView>,
}

impl DeepView for WeixinRefMessageItem {
    type V = WeixinRefMessageItemView;

    open spec fn deep_view(&self) -> WeixinRefMessageItemView {
        WeixinRefMessageItemView {
            msg_id: self.msg_id.deep_view(),
            text_item: self.text_item.deep_view(),
        }
    }
}

impl Default for WeixinRefMessageItem {
    fn default() -> (r: Self)
        ensures
            r.msg_id is None,
            r.text_item is None,
    {
        WeixinRefMessageItem { msg_id: None, text_item: None }
    }
}

/// A quoted message.
#[derive(Debug, Clone, PartialEq, Eq)]
pub struct WeixinRefMessage {
    pub message_item: Option<WeixinRefMessageItem>,
    pub title: Option<String>,
}

/// The mathematical value of a [`WeixinRefMessage`].
#[verifier::ext_equal]
pub struct WeixinRefMessageView {
    pub message_item: Option<WeixinRefMessageItemView>,
    pub title: Option<Seq<char>>,
}

impl DeepView for WeixinRefMessage {
    type V = WeixinRefMessageView;

    open spec fn deep_view(&self) -> WeixinRefMessageView {
        WeixinRefMessageView {
            message_item: self.message_item.deep_view(),
            title: self.title.deep_view(),
        }
    }
}

impl Default for WeixinRefMessage {
    fn default() -> (r: Self)
        ensures
            r.message_item is None,
            r.title is None,
    {
        WeixinRefMessage { message_item: None, title: None }
    }
}

/// A part of a message.
#[derive(Debug, Clone, PartialEq, Eq)]
pub struct WeixinRawItem {
    pub item_type: Option<i64>,
    pub text_item: Option<TextItem>,
    pub voice_item: Option<VoiceItem>,
    pub image_item: Option<MediaItemData>,
    pub file_item: Option<MediaItemData>,
    /// The message that is quoted.
    pub ref_msg: Option<WeixinRefMessage>,
}

/// The mathematical value of a [`WeixinRawItem`].
#[verifier::ext_equal]
pub struct WeixinRawItemView {
    pub item_type: Option<i64>,
    pub text_item: Option<TextItemView>,
    pub voice_item: Option<VoiceItemView>,
    pub image_item: Option<MediaItemDataView>,
    pub file_item: Option<MediaItemDataView>,
    pub ref_msg: Option<WeixinRefMessageView>,
}

impl DeepView for WeixinRawItem {
    type V = WeixinRawItemView;

    open spec fn deep_view(&self) -> WeixinRawItemView {
        WeixinRawItemView {
            item_type: self.item_type.deep_view(),
            text_item: self.text_item.deep_view(),
            voice_item: self.voice_item.deep_view(),
            image_item: self.image_item.deep_view(),
            file_item: self.file_item.deep_view(),
            ref_msg: self.ref_msg.deep_view(),
        }
    }
}

impl Default for WeixinRawItem {
    fn default() -> (r: Self)
        ensures
            r.item_type is None,
            r.text_item is None,
            r.voice_item is None,
            r.image_item is None,
            r.file_item is None,
            r.ref_msg is None,
    {
        WeixinRawItem { item_type: None, text_item: None, voice_item: None, image_item: None, file_item: None, ref_msg: None }
    }
}

/// A message as the platform hands it over.
#[derive(Debug, Clone, PartialEq, Eq)]
pub struct WeixinRawMessage {
    pub from_user_id: Option<String>,
    /// The token for answers to the sender.
    pub context_token: Option<String>,
    pub msg_id: Option<String>,
    pub item_list: Option<Vec<WeixinRawItem>>,
}

/// The mathematical value of a [`WeixinRawMessage`].
#[verifier::ext_equal]
pub struct WeixinRawMessageView {
    pub from_user_id: Option<Seq<char>>,
    pub context_token: Option<Seq<char>>,
    pub msg_id: Option<Seq<char>>,
    pub item_list: Option<Seq<WeixinRawItemView>>,
}

impl DeepView for WeixinRawMessage {
    type V = WeixinRawMessageView;

    open spec fn deep_view(&self) -> WeixinRawMessageView {
        WeixinRawMessageView {
            from_user_id: self.from_user_id.deep_view(),
            context_token: self.context_token.deep_view(),
            msg_id: self.msg_id.deep_view(),
            item_list: self.item_list.deep_view(),
        }
    }
}

impl Default for WeixinRawMessage {
    fn default() -> (r: Self)
        ensures
            r.from_user_id is None,
            r.context_token is None,
            r.msg_id is None,
            r.item_list is None,
    {
        WeixinRawMessage { from_user_id: None, context_token: None, msg_id: None, item_list: None }
    }
}

/// What a poll brings.
#[derive(Debug, Clone, PartialEq, Eq)]
pub struct WeixinUpdates {
    pub ret: Option<i64>,
    pub errcode: Option<i64>,
    /// Where the next poll is to go on.
    pub get_updates_buf: Option<String>,
    pub msgs: Option<Vec<WeixinRawMessage>>,
}

/// The mathematical value of a [`WeixinUpdates`].
#[verifier::ext_equal]
pub struct WeixinUpdatesView {
    pub ret: Option<i64>,
    pub errcode: Option<i64>,
    pub get_updates_buf: Option<Seq<char>>,
    pub msgs: Option<Seq<WeixinRawMessageView>>,
}

impl DeepView for WeixinUpdates {
    type V = WeixinUpdatesView;

    open spec fn deep_view(&self) -> WeixinUpdatesView {
        WeixinUpdatesView {
            ret: self.ret.deep_view(),
            errcode: self.errcode.deep_view(),
            get_updates_buf: self.get_updates_buf.deep_view(),
            msgs: self.msgs.deep_view(),
        }
    }
}

impl Default for WeixinUpdates {
    fn default() -> (r: Self)
        ensures
            r.ret is None,
            r.errcode is None,
            r.get_updates_buf is None,
            r.msgs is None,
    {
        WeixinUpdates { ret: None, errcode: None, get_updates_buf: None, msgs: None }
    }
}

// ── Content ─────────────────────────────────────────────────────────

/// A text without white space around it, if there is anything left.
pub open spec fn bare_text(text: Option<Seq<char>>) -> Option<Seq<char>> {
    match text {
        Some(s) => if text::trim(s).len() > 0 {
            Some(text::trim(s))
        } else {
            None
        },
        None => None,
    }
}

/// What an item says in words.
pub open spec fn item_text(item: WeixinRawItemView) -> Option<Seq<char>> {
    if item.item_type == Some(ITEM_TYPE_TEXT) {
        match item.text_item {
            Some(inner) => bare_text(inner.text),
            None => None,
        }
    } else if item.item_type == Some(ITEM_TYPE_VOICE) {
        match item.voice_item {
            Some(inner) => bare_text(inner.text),
            None => None,
        }
    } else {
        None
    }
}

/// Whether an item is an image or a file.
pub open spec fn is_media(item: WeixinRawItemView) -> bool {
    item.item_type == Some(ITEM_TYPE_IMAGE) || item.item_type == Some(ITEM_TYPE_FILE)
}

/// What the items say in words, in order.
pub open spec fn item_texts(items: Seq<WeixinRawItemView>) -> Seq<Seq<char>>
    decreases items.len(),
{
    if items.len() == 0 {
        Seq::empty()
    } else {
        match item_text(items.last()) {
            Some(said) => item_texts(items.drop_last()).push(said),
            None => item_texts(items.drop_last()),
        }
    }
}

/// The text of a message: what its items say, a blank line between them.
pub open spec fn content_text(items: Seq<WeixinRawItemView>) -> Seq<char> {
    text::join(item_texts(items), seq!['\n', '\n'])
}

/// What a text is: a command where it begins with a slash.
pub open spec fn content_type_of(s: Seq<char>) -> MessageContentType {
    if s.len() > 0 && s[0] == '/' {
        MessageContentType::Command
    } else {
        MessageContentType::Text
    }
}

/// Whether there is an image or a file among the items.
pub open spec fn has_media(items: Seq<WeixinRawItemView>) -> bool {
    exists|i: int| 0 <= i < items.len() && is_media(#[trigger] items[i])
}

fn bare(text: &Option<String>) -> (r: Option<String>)
    ensures
        r.deep_view() == bare_text(text.deep_view()),
{
    match text {
        Some(s) => {
            let t = trimmed(s.as_str());
            if t.as_str().is_empty() {
                None
            } else {
                Some(t)
            }
        },
        None => None,
    }
}

fn text_of_item(item: &WeixinRawItem) -> (r: Option<String>)
    ensures
        r.deep_view() == item_text(item.deep_view()),
{
    match item.item_type {
        Some(kind) => if kind == ITEM_TYPE_TEXT {
            match &item.text_item {
                Some(inner) => bare(&inner.text),
                None => None,
            }
        } else if kind == ITEM_TYPE_VOICE {
            match &item.voice_item {
                Some(inner) => bare(&inner.text),
                None => None,
            }
        } else {
            None
        },
        None => None,
    }
}

fn begins_with_slash(s: &str) -> (r: bool)
    ensures
        r == (s@.len() > 0 && s@[0] == '/'),
{
    if s.is_empty() {
        false
    } else {
        s.get_char(0) == '/'
    }
}

/// What a message is, its text, and whether there is an image or a file in it.
pub fn extract_content(items: &[WeixinRawItem]) -> (r: (MessageContentType, String, bool))
    ensures
        r.1@ == content_text(items.deep_view()),
        r.0 == content_type_of(r.1@),
        r.2 == has_media(items.deep_view()),
{
    let ghost all = items.deep_view();
    let mut out = String::new();
    let mut any: bool = false;
    let mut media: bool = false;
    let mut i: usize = 0;
    assert(all.take(0) =~= Seq::empty());
    while i < items.len()
        invariant
            i <= items@.len(),
            all == items.deep_view(),
            out@ == content_text(all.take(i as int)),
            any == (item_texts(all.take(i as int)).len() > 0),
            media == (exists|k: int| 0 <= k < i && is_media(#[trigger] all[k])),
        decreases items@.len() - i,
    {
        let ghost before = item_texts(all.take(i as int));
        let ghost held = out@;
        proof {
            assert(all.take(i as int + 1).drop_last() =~= all.take(i as int));
            assert(all.take(i as int + 1).last() == items@[i as int].deep_view());
            assert(all[i as int] == items@[i as int].deep_view());
        }
        match text_of_item(&items[i]) {
            Some(said) => {
                if any {
                    out.push('\n');
                    out.push('\n');
                }
                out.append(said.as_str());
                proof {
                    text::join_of_push(before, seq!['\n', '\n'], said@);
                    if before.len() > 0 {
                        assert(out@ =~= held + seq!['\n', '\n'] + said@);
                    } else {
                        assert(out@ =~= said@);
                    }
                }
                any = true;
            },
            None => {},
        }
        match items[i].item_type {
            Some(kind) => {
                if kind == ITEM_TYPE_IMAGE || kind == ITEM_TYPE_FILE {
                    assert(is_media(all[i as int]));
                    media = true;
                }
            },
            None => {},
        }
        i = i + 1;
    }
    assert(all.take(all.len() as int) =~= all);
    let content_type = if begins_with_slash(out.as_str()) {
        MessageContentType::Command
    } else {
        MessageContentType::Text
    };
    (content_type, out, media)
}

/// The id of the message that an item quotes.
pub open spec fn quoted_id(item: WeixinRawItemView) -> Option<Seq<char>> {
    match item.ref_msg {
        Some(reference) => match reference.message_item {
            Some(quoted) => bare_text(quoted.msg_id),
            None => None,
        },
        None => None,
    }
}

/// The text of the message that an item quotes: its own, or its title where it has none.
pub open spec fn quoted_words(item: WeixinRawItemView) -> Option<Seq<char>> {
    match item.ref_msg {
        Some(reference) => {
            let own = match reference.message_item {
                Some(quoted) => match quoted.text_item {
                    Some(inner) => inner.text,
                    None => None,
                },
                None => None,
            };
            bare_text(
                match own {
                    Some(s) => Some(s),
                    None => reference.title,
                },
            )
        },
        None => None,
    }
}

/// The id of the first quoted message that has one.
pub open spec fn reply_id(items: Seq<WeixinRawItemView>) -> Option<Seq<char>>
    decreases items.len(),
{
    if items.len() == 0 {
        None
    } else {
        match quoted_id(items[0]) {
            Some(id) => Some(id),
            None => reply_id(items.drop_first()),
        }
    }
}

/// The text of the first quoted message that has one.
pub open spec fn reply_words(items: Seq<WeixinRawItemView>) -> Option<Seq<char>>
    decreases items.len(),
{
    if items.len() == 0 {
        None
    } else {
        match quoted_words(items[0]) {
            Some(words) => Some(words),
            None => reply_words(items.drop_first()),
        }
    }
}

/// The id of the message that a reply quotes, by which its conversation is found.
pub fn extract_reply_to_message_id(items: &[WeixinRawItem]) -> (r: Option<String>)
    ensures
        r.deep_view() == reply_id(items.deep_view()),
{
    let ghost all = items.deep_view();
    let mut i: usize = 0;
    assert(all.skip(0) =~= all);
    while i < items.len()
        invariant
            i <= items@.len(),
            all == items.deep_view(),
            reply_id(all.skip(i as int)) == reply_id(all),
        decreases items@.len() - i,
    {
        assert(all.skip(i as int)[0] == items@[i as int].deep_view());
        assert(all.skip(i as int).drop_first() =~= all.skip(i as int + 1));
        match &items[i].ref_msg {
            Some(reference) => match &reference.message_item {
                Some(quoted) => match bare(&quoted.msg_id) {
                    Some(id) => {
                        return Some(id);
                    },
                    None => {},
                },
                None => {},
            },
            None => {},
        }
        i = i + 1;
    }
    None
}

fn words_of_reference(reference: &WeixinRefMessage) -> (r: Option<String>)
    ensures
        forall|item: WeixinRawItemView|
            item.ref_msg == Some(reference.deep_view()) ==> r.deep_view() == #[trigger] quoted_words(
                item,
            ),
{
    match &reference.message_item {
        Some(quoted) => match &quoted.text_item {
            Some(inner) => if inner.text.is_some() {
                bare(&inner.text)
            } else {
                bare(&reference.title)
            },
            None => bare(&reference.title),
        },
        None => bare(&reference.title),
    }
}

/// The text of the message that a reply quotes.
pub fn extract_quoted_reply_text(items: &[WeixinRawItem]) -> (r: Option<String>)
    ensures
        r.deep_view() == reply_words(items.deep_view()),
{
    let ghost all = items.deep_view();
    let mut i: usize = 0;
    assert(all.skip(0) =~= all);
    while i < items.len()
        invariant
            i <= items@.len(),
            all == items.deep_view(),
            reply_words(all.skip(i as int)) == reply_words(all),
        decreases items@.len() - i,
    {
        assert(all.skip(i as int)[0] == items@[i as int].deep_view());
        assert(all.skip(i as int).drop_first() =~= all.skip(i as int + 1));
        match &items[i].ref_msg {
            Some(reference) => match words_of_reference(reference) {
                Some(words) => {
                    assert(quoted_words(all.skip(i as int)[0]) == Some(words@));
                    return Some(words);
                },
                None => {
                    assert(quoted_words(all.skip(i as int)[0]) is None);
                },
            },
            None => {},
        }
        i = i + 1;
    }
    None
}

// ── Context tokens ──────────────────────────────────────────────────

/// `dashmap::DashMap`, which keeps the token of every chat.
#[verifier::external_type_specification]
#[verifier::external_body]
#[verifier::reject_recursive_types(K)]
#[verifier::reject_recursive_types(V)]
#[verifier::reject_recursive_types(S)]
pub struct ExDashMap<K, V, S>(DashMap<K, V, S>);

/// The token of every chat that a map of tokens holds.
pub uninterp spec fn token_entries(tokens: DashMap<String, String>) -> Map<Seq<char>, Seq<char>>;

/// Calls `DashMap::new`, which creates an empty map.
#[verifier::external_body]
fn tokens_new() -> (r: DashMap<String, String>)
    ensures
        token_entries(r).dom() == Set::<Seq<char>>::empty(),
{
    DashMap::new()
}

/// Calls `DashMap::insert`, which puts the value under the key, in place of one that was there.
#[verifier::external_body]
fn tokens_insert(tokens: &mut DashMap<String, String>, chat_id: String, token: String)
    ensures
        token_entries(*final(tokens)) == token_entries(*old(tokens)).insert(chat_id@, token@),
{
    tokens.insert(chat_id, token);
}

/// Calls `DashMap::get`, which finds the value under the key, and copies it out.
#[verifier::external_body]
fn tokens_get(tokens: &DashMap<String, String>, chat_id: &str) -> (r: Option<String>)
    ensures
        r.deep_view() == (if token_entries(*tokens).contains_key(chat_id@) {
            Some(token_entries(*tokens)[chat_id@])
        } else {
            None
        }),
{
    tokens.get(chat_id).map(|token| token.clone())
}

/// Calls `DashMap::clear`, which removes every entry.
#[verifier::external_body]
fn tokens_clear(tokens: &mut DashMap<String, String>)
    ensures
        token_entries(*final(tokens)).dom() == Set::<Seq<char>>::empty(),
{
    tokens.clear();
}

// ── Kept credentials ────────────────────────────────────────────────

/// The object under which context tokens are kept.
pub const CONTEXT_TOKENS_CONFIG_KEY: &'static str = "context_tokens";

/// The object under which the state of polling is kept.
pub const POLL_STATE_CONFIG_KEY: &'static str = "poll_state";

/// The entry under which the cursor of polling is kept.
pub const POLL_CURSOR_ENTRY_KEY: &'static str = "get_updates_buf";

/// Where the iLink Bot API is, unless the configuration says otherwise.
pub const DEFAULT_BASE_URL: &'static str = "https://ilinkai.weixin.qq.com";

/// The tokens among kept entries: the texts that are not empty, by chat.
pub open spec fn kept_tokens(entries: Seq<(Seq<char>, JsonView)>) -> Seq<(Seq<char>, Seq<char>)>
    decreases entries.len(),
{
    if entries.len() == 0 {
        Seq::empty()
    } else {
        match entries.last().1 {
            JsonView::Text(token) => if token.len() > 0 {
                kept_tokens(entries.drop_last()).push((entries.last().0, token))
            } else {
                kept_tokens(entries.drop_last())
            },
            _ => kept_tokens(entries.drop_last()),
        }
    }
}

/// The tokens that a configuration holds, by chat, in the order in which they are kept.
pub open spec fn configured_tokens(config: PluginConfigView) -> Seq<(Seq<char>, Seq<char>)> {
    match json::entries_of(json::find_entry(config.credentials.extra, CONTEXT_TOKENS_CONFIG_KEY@)) {
        Some(entries) => kept_tokens(entries),
        None => Seq::empty(),
    }
}

/// The tokens that a configuration holds, by chat, in the order in which they are kept.
pub fn configured_context_tokens(config: &PluginConfig) -> (r: Vec<(String, String)>)
    ensures
        r.deep_view() == configured_tokens(config.deep_view()),
{
    let mut out: Vec<(String, String)> = Vec::new();
    assert(out.deep_view() =~= Seq::empty());
    match lookup(&config.credentials.extra, CONTEXT_TOKENS_CONFIG_KEY) {
        Some(Json::Object(entries)) => {
            let ghost all = Json::Object(*entries).deep_view()->Object_0;
            assert(all =~= entries.deep_view());
            let mut i: usize = 0;
            assert(all.take(0) =~= Seq::empty());
            while i < entries.len()
                invariant
                    i <= entries@.len(),
                    all == entries.deep_view(),
                    out.deep_view() == kept_tokens(all.take(i as int)),
                decreases entries@.len() - i,
            {
                let ghost held = out.deep_view();
                assert(all.take(i as int + 1).drop_last() =~= all.take(i as int));
                assert(all.take(i as int + 1).last() == entries@[i as int].deep_view());
                match &entries[i].1 {
                    Json::Text(token) => {
                        if !token.as_str().is_empty() {
                            out.push((entries[i].0.clone(), token.clone()));
                            assert(out.deep_view() =~= held.push((entries@[i as int].0@, token@)));
                        }
                    },
                    _ => {},
                }
                i = i + 1;
            }
            assert(all.take(all.len() as int) =~= all);
        },
        _ => {},
    }
    out
}

/// Where polling is to go on, as a configuration holds it.
pub open spec fn configured_cursor(config: PluginConfigView) -> Seq<char> {
    match json::text_of(
        json::entry(
            json::find_entry(config.credentials.extra, POLL_STATE_CONFIG_KEY@),
            POLL_CURSOR_ENTRY_KEY@,
        ),
    ) {
        Some(cursor) => cursor,
        None => Seq::empty(),
    }
}

/// Where polling is to go on, as a configuration holds it.
pub fn configured_poll_cursor(config: &PluginConfig) -> (r: String)
    ensures
        r@ == configured_cursor(config.deep_view()),
{
    match lookup(&config.credentials.extra, POLL_STATE_CONFIG_KEY) {
        Some(state) => match state.text_at(POLL_CURSOR_ENTRY_KEY) {
            Some(cursor) => cursor.to_owned(),
            None => String::new(),
        },
        None => String::new(),
    }
}

/// The entry that keeps the cursor of polling.
pub open spec fn cursor_update(cursor: Seq<char>) -> PluginCredentialUpdateView {
    PluginCredentialUpdateView {
        map_key: POLL_STATE_CONFIG_KEY@,
        entry_key: POLL_CURSOR_ENTRY_KEY@,
        value: JsonView::Text(cursor),
    }
}

/// The entry that keeps the cursor of polling.
pub fn persist_poll_cursor(cursor: &str) -> (r: PluginCredentialUpdate)
    ensures
        r.deep_view() == cursor_update(cursor@),
{
    PluginCredentialUpdate {
        map_key: POLL_STATE_CONFIG_KEY.to_owned(),
        entry_key: POLL_CURSOR_ENTRY_KEY.to_owned(),
        value: Json::Text(cursor.to_owned()),
    }
}

/// The entry that keeps the token of a chat.
pub open spec fn token_update(chat_id: Seq<char>, token: Seq<char>) -> PluginCredentialUpdateView {
    PluginCredentialUpdateView {
        map_key: CONTEXT_TOKENS_CONFIG_KEY@,
        entry_key: chat_id,
        value: JsonView::Text(token),
    }
}

// ── The plugin ──────────────────────────────────────────────────────

/// What is needed to connect to the platform.
#[derive(Debug, Clone, PartialEq, Eq)]
pub struct WeixinConnection {
    pub account_id: String,
    pub base_url: String,
    pub bot_token: String,
    pub poll_cursor: String,
}

/// The mathematical value of a [`WeixinConnection`].
#[verifier::ext_equal]
pub struct WeixinConnectionView {
    pub account_id: Seq<char>,
    pub base_url: Seq<char>,
    pub bot_token: Seq<char>,
    pub poll_cursor: Seq<char>,
}

impl DeepView for WeixinConnection {
    type V = WeixinConnectionView;

    open spec fn deep_view(&self) -> WeixinConnectionView {
        WeixinConnectionView {
            account_id: self.account_id@,
            base_url: self.base_url@,
            bot_token: self.bot_token@,
            poll_cursor: self.poll_cursor@,
        }
    }
}

/// A text for a chat, with the token that opens the chat.
#[derive(Debug, Clone, PartialEq, Eq)]
pub struct WeixinSend {
    pub chat_id: String,
    pub text: String,
    pub context_token: String,
}

/// The mathematical value of a [`WeixinSend`].
#[verifier::ext_equal]
pub struct WeixinSendView {
    pub chat_id: Seq<char>,
    pub text: Seq<char>,
    pub context_token: Seq<char>,
}

impl DeepView for WeixinSend {
    type V = WeixinSendView;

    open spec fn deep_view(&self) -> WeixinSendView {
        WeixinSendView {
            chat_id: self.chat_id@,
            text: self.text@,
            context_token: self.context_token@,
        }
    }
}

/// What a raw message comes to.
#[derive(Debug, PartialEq, Eq)]
pub struct ReceivedMessage {
    /// An entry to keep with the credentials.
    pub update: Option<PluginCredentialUpdate>,
    /// The message to hand on.
    pub incoming: Option<UnifiedIncomingMessage>,
}

/// The mathematical value of a [`ReceivedMessage`].
#[verifier::ext_equal]
pub struct ReceivedMessageView {
    pub update: Option<PluginCredentialUpdateView>,
    pub incoming: Option<UnifiedIncomingMessageView>,
}

impl DeepView for ReceivedMessage {
    type V = ReceivedMessageView;

    open spec fn deep_view(&self) -> ReceivedMessageView {
        ReceivedMessageView {
            update: self.update.deep_view(),
            incoming: self.incoming.deep_view(),
        }
    }
}

/// The state of a plugin.
#[verifier::ext_equal]
pub struct WeixinPluginView {
    pub status: PluginStatus,
    pub bot_info: Option<BotInfoView>,
    pub last_error: Option<Seq<char>>,
    pub connected: bool,
    pub tokens: Map<Seq<char>, Seq<char>>,
}

/// A text that is there and not empty.
pub open spec fn given(text: Option<Seq<char>>) -> Option<Seq<char>> {
    match text {
        Some(s) => if s.len() > 0 {
            Some(s)
        } else {
            None
        },
        None => None,
    }
}

/// Where the platform's API is.
pub open spec fn base_url(config: PluginConfigView) -> Seq<char> {
    match json::text_of(json::find_entry(config.credentials.extra, "baseUrl"@)) {
        Some(url) => url,
        None => DEFAULT_BASE_URL@,
    }
}

/// `map` with each of `tokens` put in, in order.
pub open spec fn with_tokens(
    map: Map<Seq<char>, Seq<char>>,
    tokens: Seq<(Seq<char>, Seq<char>)>,
) -> Map<Seq<char>, Seq<char>>
    decreases tokens.len(),
{
    if tokens.len() == 0 {
        map
    } else {
        with_tokens(map, tokens.drop_last()).insert(tokens.last().0, tokens.last().1)
    }
}

/// A plugin whose configuration is refused.
pub open spec fn refused(plugin: WeixinPluginView, reason: Seq<char>) -> WeixinPluginView {
    WeixinPluginView { status: PluginStatus::Error, last_error: Some(reason), ..plugin }
}

/// A plugin that has read its configuration: the kept tokens replace those that it had.
pub open spec fn initializing(plugin: WeixinPluginView, config: PluginConfigView) -> WeixinPluginView {
    WeixinPluginView {
        status: PluginStatus::Initializing,
        tokens: with_tokens(Map::empty(), configured_tokens(config)),
        ..plugin
    }
}

/// A plugin after its configuration was read and checked.
pub open spec fn initialized(plugin: WeixinPluginView, config: PluginConfigView) -> WeixinPluginView {
    let read = initializing(plugin, config);
    if given(config.credentials.bot_token) is None {
        refused(read, "Missing WeChat bot_token"@)
    } else if given(config.credentials.account_id) is None {
        refused(read, "Missing WeChat account_id"@)
    } else {
        read
    }
}

/// What a configuration comes to: how to connect, or what is missing.
pub open spec fn connection_of(config: PluginConfigView) -> Result<
    WeixinConnectionView,
    ChannelErrorView,
> {
    match (given(config.credentials.bot_token), given(config.credentials.account_id)) {
        (None, _) => Err(ChannelErrorView::InvalidConfig("Missing WeChat bot_token"@)),
        (_, None) => Err(ChannelErrorView::InvalidConfig("Missing WeChat account_id"@)),
        (Some(bot_token), Some(account_id)) => Ok(
            WeixinConnectionView {
                account_id,
                base_url: base_url(config),
                bot_token,
                poll_cursor: configured_cursor(config),
            },
        ),
    }
}

/// The tokens after a raw message: its own one is kept for its sender.
pub open spec fn tokens_after(
    tokens: Map<Seq<char>, Seq<char>>,
    msg: WeixinRawMessageView,
) -> Map<Seq<char>, Seq<char>> {
    match (given(msg.from_user_id), given(msg.context_token)) {
        (Some(sender), Some(token)) => tokens.insert(sender, token),
        _ => tokens,
    }
}

/// The items of a raw message.
pub open spec fn items_of(msg: WeixinRawMessageView) -> Seq<WeixinRawItemView> {
    match msg.item_list {
        Some(items) => items,
        None => Seq::empty(),
    }
}

/// The name under which a sender is shown: the last six bytes of the id.
pub open spec fn shown_name(id: Seq<char>) -> Seq<char> {
    text::byte_tail(id, 6)
}

/// Whether a sender can be shown: the id can be cut before its last six bytes.
pub open spec fn sender_can_be_shown(id: Seq<char>) -> bool {
    text::byte_len(id) > 6 ==> text::is_boundary(id, text::byte_len(id) - 6)
}

/// The message that a raw message comes to, if it has a sender and says anything.
pub open spec fn incoming_of(msg: WeixinRawMessageView, timestamp: i64) -> Option<
    UnifiedIncomingMessageView,
> {
    match given(msg.from_user_id) {
        None => None,
        Some(sender) => {
            let said = content_text(items_of(msg));
            if said.len() == 0 {
                None
            } else {
                Some(
                    UnifiedIncomingMessageView {
                        owner_user_id: None,
                        id: match msg.msg_id {
                            Some(id) => id,
                            None => match msg.context_token {
                                Some(token) => token,
                                None => Seq::empty(),
                            },
                        },
                        platform: PluginType::Weixin,
                        chat_id: sender,
                        user: UnifiedUserView {
                            id: sender,
                            username: None,
                            display_name: shown_name(sender),
                            avatar_url: None,
                        },
                        content: UnifiedMessageContentView {
                            content_type: content_type_of(said),
                            text: said,
                            attachments: None,
                        },
                        timestamp,
                        reply_to_message_id: reply_id(items_of(msg)),
                        action: None,
                        raw: match reply_words(items_of(msg)) {
                            Some(words) => Some(
                                JsonView::Object(seq![("quoted_text"@, JsonView::Text(words))]),
                            ),
                            None => None,
                        },
                    },
                )
            }
        },
    }
}

/// What a raw message comes to.
pub open spec fn received(msg: WeixinRawMessageView, timestamp: i64) -> ReceivedMessageView {
    ReceivedMessageView {
        update: match (given(msg.from_user_id), given(msg.context_token)) {
            (Some(sender), Some(token)) => Some(token_update(sender, token)),
            _ => None,
        },
        incoming: incoming_of(msg, timestamp),
    }
}

/// What sending to a chat comes to: the text with the chat's token, or why it cannot be sent.
pub open spec fn sending(
    plugin: WeixinPluginView,
    chat_id: Seq<char>,
    text: Option<Seq<char>>,
) -> Result<WeixinSendView, ChannelErrorView> {
    if !plugin.connected {
        Err(ChannelErrorView::PlatformApi("Plugin not initialized"@))
    } else if !plugin.tokens.contains_key(chat_id) {
        Err(ChannelErrorView::MessageSendFailed("微信主动发送需要用户先向机器人发送一条消息。"@))
    } else {
        Ok(
            WeixinSendView {
                chat_id,
                text: match text {
                    Some(said) => said,
                    None => Seq::empty(),
                },
                context_token: plugin.tokens[chat_id],
            },
        )
    }
}

fn given_text(text: &Option<String>) -> (r: Option<&str>)
    ensures
        r.deep_view() == given(text.deep_view()),
{
    match text {
        Some(s) => if s.as_str().is_empty() {
            None
        } else {
            Some(s.as_str())
        },
        None => None,
    }
}

/// WeChat (iLink Bot) platform plugin.
///
/// It does not support editing messages; [`WeixinPlugin::edit_message`] sends a new one instead.
pub struct WeixinPlugin {
    status: PluginStatus,
    bot_info: Option<BotInfo>,
    last_error: Option<String>,
    connected: bool,
    context_tokens: DashMap<String, String>,
}

impl View for WeixinPlugin {
    type V = WeixinPluginView;

    closed spec fn view(&self) -> WeixinPluginView {
        WeixinPluginView {
            status: self.status,
            bot_info: self.bot_info.deep_view(),
            last_error: self.last_error.deep_view(),
            connected: self.connected,
            tokens: token_entries(self.context_tokens),
        }
    }
}

/// A plugin that was just created.
pub open spec fn created() -> WeixinPluginView {
    WeixinPluginView {
        status: PluginStatus::Created,
        bot_info: None,
        last_error: None,
        connected: false,
        tokens: Map::empty(),
    }
}

impl Default for WeixinPlugin {
    fn default() -> (r: Self)
        ensures
            r@ == created(),
    {
        let r = WeixinPlugin {
            status: PluginStatus::Created,
            bot_info: None,
            last_error: None,
            connected: false,
            context_tokens: tokens_new(),
        };
        assert(r@.tokens =~= Map::empty());
        r
    }
}

impl WeixinPlugin {
    /// A plugin that was just created.
    pub fn new() -> (r: Self)
        ensures
            r@ == created(),
    {
        WeixinPlugin::default()
    }

    fn refuse(&mut self, reason: &str) -> (r: ChannelError)
        ensures
            final(self)@ == refused(old(self)@, reason@),
            r.deep_view() == ChannelErrorView::InvalidConfig(reason@),
    {
        self.status = PluginStatus::Error;
        self.last_error = Some(reason.to_owned());
        ChannelError::InvalidConfig(reason.to_owned())
    }

    fn restore_tokens(&mut self, config: &PluginConfig)
        ensures
            final(self)@ == (WeixinPluginView {
                tokens: with_tokens(Map::empty(), configured_tokens(config.deep_view())),
                ..old(self)@
            }),
    {
        tokens_clear(&mut self.context_tokens);
        let tokens = configured_context_tokens(config);
        let ghost all = tokens.deep_view();
        let mut i: usize = 0;
        assert(self@.tokens =~= Map::empty());
        assert(all.take(0) =~= Seq::empty());
        while i < tokens.len()
            invariant
                i <= tokens@.len(),
                all == tokens.deep_view(),
                self@ == (WeixinPluginView {
                    tokens: with_tokens(Map::empty(), all.take(i as int)),
                    ..old(self)@
                }),
            decreases tokens@.len() - i,
        {
            assert(all.take(i as int + 1).drop_last() =~= all.take(i as int));
            assert(all.take(i as int + 1).last() == tokens@[i as int].deep_view());
            tokens_insert(&mut self.context_tokens, tokens[i].0.clone(), tokens[i].1.clone());
            i = i + 1;
        }
        assert(all.take(all.len() as int) =~= all);
    }

    /// Reads and checks the configuration. With what comes back, a connection is to be opened, and
    /// [`WeixinPlugin::connected`] or [`WeixinPlugin::connection_failed`] called.
    pub fn initialize(&mut self, config: &PluginConfig) -> (r: Result<WeixinConnection, ChannelError>)
        ensures
            final(self)@ == initialized(old(self)@, config.deep_view()),
            match r {
                Ok(connection) => connection_of(config.deep_view()) == Ok::<_, ChannelErrorView>(
                    connection.deep_view(),
                ),
                Err(error) => connection_of(config.deep_view()) == Err::<WeixinConnectionView, _>(
                    error.deep_view(),
                ),
            },
    {
        self.status = PluginStatus::Initializing;
        let poll_cursor = configured_poll_cursor(config);
        self.restore_tokens(config);
        let bot_token = match given_text(&config.credentials.bot_token) {
            Some(token) => token.to_owned(),
            None => {
                return Err(self.refuse("Missing WeChat bot_token"));
            },
        };
        let account_id = match given_text(&config.credentials.account_id) {
            Some(account) => account.to_owned(),
            None => {
                return Err(self.refuse("Missing WeChat account_id"));
            },
        };
        let base_url = match lookup(&config.credentials.extra, "baseUrl") {
            Some(value) => match value.as_str() {
                Some(url) => url.to_owned(),
                None => DEFAULT_BASE_URL.to_owned(),
            },
            None => DEFAULT_BASE_URL.to_owned(),
        };
        Ok(WeixinConnection { account_id, base_url, bot_token, poll_cursor })
    }

    /// Notes that no connection could be opened.
    pub fn connection_failed(&mut self, reason: &str) -> (r: ChannelError)
        ensures
            final(self)@ == refused(old(self)@, "HTTP client init failed: "@ + reason@),
            r.deep_view() == ChannelErrorView::ConnectionFailed("HTTP client init failed: "@ + reason@),
    {
        let text = "HTTP client init failed: ".to_owned().concat(reason);
        self.status = PluginStatus::Error;
        self.last_error = Some(text.clone());
        ChannelError::ConnectionFailed(text)
    }

    /// Notes that a connection was opened.
    pub fn connected(&mut self, connection: &WeixinConnection)
        ensures
            final(self)@ == (WeixinPluginView {
                status: PluginStatus::Ready,
                bot_info: Some(
                    BotInfoView {
                        id: connection.account_id@,
                        username: None,
                        display_name: "WeChat Bot ("@ + connection.account_id@ + ")"@,
                    },
                ),
                connected: true,
                ..old(self)@
            }),
    {
        self.bot_info = Some(
            BotInfo {
                id: connection.account_id.clone(),
                username: None,
                display_name: "WeChat Bot (".to_owned().concat(
                    connection.account_id.as_str(),
                ).concat(")"),
            },
        );
        self.connected = true;
        self.status = PluginStatus::Ready;
    }

    /// Starts the plugin.
    pub fn start(&mut self) -> (r: Result<(), ChannelError>)
        ensures
            r is Ok,
            final(self)@ == (WeixinPluginView { status: PluginStatus::Running, ..old(self)@ }),
    {
        self.status = PluginStatus::Running;
        Ok(())
    }

    /// Stops the plugin: the connection and the tokens are gone.
    pub fn stop(&mut self) -> (r: Result<(), ChannelError>)
        ensures
            r is Ok,
            final(self)@ == (WeixinPluginView {
                status: PluginStatus::Stopped,
                connected: false,
                tokens: Map::empty(),
                ..old(self)@
            }),
    {
        self.connected = false;
        tokens_clear(&mut self.context_tokens);
        self.status = PluginStatus::Stopped;
        assert(self@.tokens =~= Map::empty());
        Ok(())
    }

    /// The token of a chat.
    pub fn context_token(&self, chat_id: &str) -> (r: Option<String>)
        ensures
            r.deep_view() == (if self@.tokens.contains_key(chat_id@) {
                Some(self@.tokens[chat_id@])
            } else {
                None
            }),
    {
        tokens_get(&self.context_tokens, chat_id)
    }

    /// What is to be sent for a message to a chat. Without a token for the chat nothing can be sent:
    /// the user has to write first.
    pub fn send_message(&self, chat_id: &str, message: &UnifiedOutgoingMessage) -> (r: Result<
        WeixinSend,
        ChannelError,
    >)
        ensures
            match r {
                Ok(send) => sending(self@, chat_id@, message.deep_view().text) == Ok::<
                    _,
                    ChannelErrorView,
                >(send.deep_view()),
                Err(error) => sending(self@, chat_id@, message.deep_view().text) == Err::<
                    WeixinSendView,
                    _,
                >(error.deep_view()),
            },
    {
        if !self.connected {
            return Err(ChannelError::PlatformApi("Plugin not initialized".to_owned()));
        }
        let text = match &message.text {
            Some(text) => text.clone(),
            None => String::new(),
        };
        match self.context_token(chat_id) {
            Some(context_token) => Ok(
                WeixinSend { chat_id: chat_id.to_owned(), text, context_token },
            ),
            None => Err(
                ChannelError::MessageSendFailed("微信主动发送需要用户先向机器人发送一条消息。".to_owned()),
            ),
        }
    }

    /// What is to be sent for an edit of a message: WeChat cannot edit, so the message is sent anew.
    pub fn edit_message(&self, chat_id: &str, _message_id: &str, message: &UnifiedOutgoingMessage) -> (r:
        Result<WeixinSend, ChannelError>)
        ensures
            match r {
                Ok(send) => sending(self@, chat_id@, message.deep_view().text) == Ok::<
                    _,
                    ChannelErrorView,
                >(send.deep_view()),
                Err(error) => sending(self@, chat_id@, message.deep_view().text) == Err::<
                    WeixinSendView,
                    _,
                >(error.deep_view()),
            },
    {
        self.send_message(chat_id, message)
    }

    /// What a raw message comes to. The token in it is kept for answers to its sender.
    pub fn handle_message(&mut self, msg: &WeixinRawMessage, timestamp: i64) -> (r: ReceivedMessage)
        requires
            given(msg.deep_view().from_user_id) matches Some(sender) ==> content_text(
                items_of(msg.deep_view()),
            ).len() > 0 ==> sender_can_be_shown(sender),
        ensures
            r.deep_view() == received(msg.deep_view(), timestamp),
            final(self)@ == (WeixinPluginView {
                tokens: tokens_after(old(self)@.tokens, msg.deep_view()),
                ..old(self)@
            }),
    {
        let sender = match given_text(&msg.from_user_id) {
            Some(id) => id.to_owned(),
            None => {
                return ReceivedMessage { update: None, incoming: None };
            },
        };
        let update = match given_text(&msg.context_token) {
            Some(token) => {
                tokens_insert(&mut self.context_tokens, sender.clone(), token.to_owned());
                Some(
                    PluginCredentialUpdate {
                        map_key: CONTEXT_TOKENS_CONFIG_KEY.to_owned(),
                        entry_key: sender.clone(),
                        value: Json::Text(token.to_owned()),
                    },
                )
            },
            None => None,
        };
        let empty: Vec<WeixinRawItem> = Vec::new();
        let items = match &msg.item_list {
            Some(items) => items,
            None => &empty,
        };
        assert(items.deep_view() =~= items_of(msg.deep_view()));
        let slice = items.as_slice();
        assert(slice.deep_view() =~= items.deep_view());
        let (content_type, text, _) = extract_content(slice);
        if text.as_str().is_empty() {
            return ReceivedMessage { update, incoming: None };
        }
        let display_name = last_bytes(sender.as_str(), 6);
        let id = match &msg.msg_id {
            Some(id) => id.clone(),
            None => match &msg.context_token {
                Some(token) => token.clone(),
                None => String::new(),
            },
        };
        let raw = match extract_quoted_reply_text(slice) {
            Some(words) => {
                let mut entries: Vec<(String, Json)> = Vec::new();
                entries.push(("quoted_text".to_owned(), json_text(words.as_str())));
                assert(entries.deep_view() =~= seq![("quoted_text"@, JsonView::Text(words@))]);
                Some(json_object(entries))
            },
            None => None,
        };
        let incoming = UnifiedIncomingMessage {
            owner_user_id: None,
            id,
            platform: PluginType::Weixin,
            chat_id: sender.clone(),
            user: UnifiedUser { id: sender, username: None, display_name, avatar_url: None },
            content: UnifiedMessageContent { content_type, text, attachments: None },
            timestamp,
            reply_to_message_id: extract_reply_to_message_id(slice),
            action: None,
            raw,
        };
        ReceivedMessage { update, incoming: Some(incoming) }
    }

    /// The number of users that are active: the platform does not tell.
    pub fn active_user_count(&self) -> (r: usize)
        ensures
            r == 0,
    {
        0
    }

    /// The account that the plugin speaks for.
    pub fn bot_info(&self) -> (r: Option<&BotInfo>)
        ensures
            r.deep_view() == self@.bot_info,
    {
        match &self.bot_info {
            Some(info) => Some(info),
            None => None,
        }
    }

    /// The platform.
    pub fn plugin_type(&self) -> (r: PluginType)
        ensures
            r == PluginType::Weixin,
    {
        PluginType::Weixin
    }

    /// Where the plugin stands in its life.
    pub fn status(&self) -> (r: PluginStatus)
        ensures
            r == self@.status,
    {
        self.status
    }

    /// What went wrong last.
    pub fn last_error(&self) -> (r: Option<&str>)
        ensures
            r.deep_view() == self@.last_error,
    {
        match &self.last_error {
            Some(text) => Some(text.as_str()),
            None => None,
        }
    }
}

// ── Laws ────────────────────────────────────────────────────────────

/// The token that a message brought is the one that answers to its sender are sent with.
pub proof fn token_of_the_last_message_is_used(
    plugin: WeixinPluginView,
    msg: WeixinRawMessageView,
    sender: Seq<char>,
    token: Seq<char>,
    text: Option<Seq<char>>,
)
    requires
        plugin.connected,
        given(msg.from_user_id) == Some(sender),
        given(msg.context_token) == Some(token),
    ensures
        sending(
            WeixinPluginView { tokens: tokens_after(plugin.tokens, msg), ..plugin },
            sender,
            text,
        ) matches Ok(send) && send.context_token == token && send.chat_id == sender,
{
}

/// A message brings a token to its sender's chat alone.
pub proof fn other_tokens_are_untouched(
    tokens: Map<Seq<char>, Seq<char>>,
    msg: WeixinRawMessageView,
    chat_id: Seq<char>,
)
    requires
        given(msg.from_user_id) != Some(chat_id),
    ensures
        tokens_after(tokens, msg).contains_key(chat_id) == tokens.contains_key(chat_id),
        tokens.contains_key(chat_id) ==> tokens_after(tokens, msg)[chat_id] == tokens[chat_id],
{
}

/// A chat from which nothing was ever heard cannot be written to.
pub proof fn unknown_chat_is_refused(
    plugin: WeixinPluginView,
    chat_id: Seq<char>,
    text: Option<Seq<char>>,
)
    requires
        !plugin.tokens.contains_key(chat_id),
    ensures
        sending(plugin, chat_id, text) is Err,
{
}

/// A kept token comes back: it is the chat's token after its entry is restored, unless a later entry
/// is kept for the same chat.
pub proof fn kept_token_is_restored(
    entries: Seq<(Seq<char>, JsonView)>,
    i: int,
    chat_id: Seq<char>,
    token: Seq<char>,
)
    requires
        0 <= i < entries.len(),
        token.len() > 0,
        entries[i] == (token_update(chat_id, token).entry_key, token_update(chat_id, token).value),
        forall|j: int| i < j < entries.len() ==> (#[trigger] entries[j]).0 != chat_id,
    ensures
        ({
            let restored = with_tokens(Map::empty(), kept_tokens(entries));
            restored.contains_key(chat_id) && restored[chat_id] == token
        }),
    decreases entries.len(),
{
    let earlier = entries.drop_last();
    let kept = kept_tokens(entries);
    if i < entries.len() - 1 {
        assert(earlier[i] == entries[i]);
        assert forall|j: int| i < j < earlier.len() implies (#[trigger] earlier[j]).0 != chat_id by {
            assert(earlier[j] == entries[j]);
        }
        kept_token_is_restored(earlier, i, chat_id, token);
        assert(entries[entries.len() - 1].0 != chat_id);
    }
    if kept != kept_tokens(earlier) {
        assert(kept.drop_last() =~= kept_tokens(earlier));
    }
}

/// The cursor comes back: polling goes on where it was kept.
pub proof fn kept_cursor_is_restored(
    config: PluginConfigView,
    entries: Seq<(Seq<char>, JsonView)>,
    cursor: Seq<char>,
)
    requires
        json::find_entry(config.credentials.extra, cursor_update(cursor).map_key) == Some(
            JsonView::Object(entries),
        ),
        json::find_entry(entries, cursor_update(cursor).entry_key) == Some(
            cursor_update(cursor).value,
        ),
    ensures
        configured_cursor(config) == cursor,
        connection_of(config) matches Ok(connection) ==> connection.poll_cursor == cursor,
{
}

/// A stopped plugin sends nothing until it is connected again.
pub proof fn stopped_plugin_sends_nothing(
    plugin: WeixinPluginView,
    chat_id: Seq<char>,
    text: Option<Seq<char>>,
)
    requires
        !plugin.connected,
    ensures
        sending(plugin, chat_id, text) == Err::<WeixinSendView, _>(
            ChannelErrorView::PlatformApi("Plugin not initialized"@),
        ),
{
}

/// A message is its sender's: the user and the chat are the sender's id, the whole of it, however long
/// it is, so that different senders are different users in different chats. Only the name that is
/// shown is cut, to the last six bytes of the id.
pub proof fn message_is_its_senders(
    msg: WeixinRawMessageView,
    sender: Seq<char>,
    timestamp: i64,
)
    requires
        msg.from_user_id == Some(sender),
        sender_can_be_shown(sender),
    ensures
        received(msg, timestamp).incoming matches Some(incoming) ==> {
            let name = incoming.user.display_name;
            &&& sender.len() > 0
            &&& incoming.user.id == sender
            &&& incoming.chat_id == sender
            &&& incoming.user.username is None
            &&& incoming.user.avatar_url is None
            &&& name.len() <= sender.len()
            &&& name == sender.skip(sender.len() - name.len())
            &&& text::byte_len(sender) <= 6 ==> name == sender
            &&& text::byte_len(sender) > 6 ==> text::byte_len(name) == 6
        },
{
    text::cut_parts_have_their_bytes(sender, 6);
    assert(sender.skip(0) =~= sender);
}

/// Messages of different senders come from different users in different chats.
pub proof fn senders_are_told_apart(
    first: WeixinRawMessageView,
    second: WeixinRawMessageView,
    at: i64,
    later: i64,
)
    requires
        first.from_user_id != second.from_user_id,
    ensures
        received(first, at).incoming matches Some(one) ==> (received(second, later).incoming matches Some(
            other,
        ) ==> one.user.id != other.user.id && one.chat_id != other.chat_id),
{
}

/// What a message brings in: what its items say, from WeChat, at the time that it was received, under
/// the platform's id of the message, or the sender's token where there is none; and with no owner, no
/// action and no attachments. A message without a sender, or that says nothing, brings in nothing.
pub proof fn message_brings_in_what_it_says(
    msg: WeixinRawMessageView,
    items: Seq<WeixinRawItemView>,
    timestamp: i64,
)
    requires
        msg.item_list == Some(items) || (msg.item_list is None && items.len() == 0),
    ensures
        ({
            let said = content_text(items);
            let named = msg.from_user_id matches Some(sender) && sender.len() > 0;
            match received(msg, timestamp).incoming {
                None => !named || said.len() == 0,
                Some(incoming) => {
                    &&& named
                    &&& said.len() > 0
                    &&& incoming.content.text == said
                    &&& incoming.content.content_type == (if said[0] == '/' {
                        MessageContentType::Command
                    } else {
                        MessageContentType::Text
                    })
                    &&& incoming.content.attachments is None
                    &&& incoming.platform == PluginType::Weixin
                    &&& incoming.timestamp == timestamp
                    &&& incoming.owner_user_id is None
                    &&& incoming.action is None
                    &&& msg.msg_id matches Some(id) ==> incoming.id == id
                    &&& msg.msg_id is None && msg.context_token is None ==> incoming.id
                        == Seq::<char>::empty()
                    &&& msg.msg_id is None ==> (msg.context_token matches Some(token) ==> incoming.id
                        == token)
                },
            }
        }),
{
    assert(items_of(msg) =~= items);
}

/// What a message quotes: the id of the quoted message, and its words where the quote has any, for the
/// search of the conversation that is answered.
pub proof fn quote_is_handed_on(
    msg: WeixinRawMessageView,
    items: Seq<WeixinRawItemView>,
    timestamp: i64,
)
    requires
        msg.item_list == Some(items),
    ensures
        received(msg, timestamp).incoming matches Some(incoming) ==> {
            &&& incoming.reply_to_message_id == reply_id(items)
            &&& reply_words(items) is None ==> incoming.raw is None
            &&& reply_words(items) matches Some(words) ==> incoming.raw == Some(
                JsonView::Object(seq![("quoted_text"@, JsonView::Text(words))]),
            )
        },
{
}

/// The first item that quotes a message decides which message is answered; an id or a text is taken
/// without white space around it, and one that is blank does not count. The quoted words are the
/// quoted message's own, or the title of the quote where it has none.
pub proof fn first_quote_decides(item: WeixinRawItemView, rest: Seq<WeixinRawItemView>)
    ensures
        reply_id(Seq::empty()) is None,
        reply_words(Seq::empty()) is None,
        reply_id(seq![item] + rest) == (match item.ref_msg {
            Some(quote) => match quote.message_item {
                Some(quoted) => match quoted.msg_id {
                    Some(id) => if text::trim(id).len() > 0 {
                        Some(text::trim(id))
                    } else {
                        reply_id(rest)
                    },
                    None => reply_id(rest),
                },
                None => reply_id(rest),
            },
            None => reply_id(rest),
        }),
        item.ref_msg is None ==> reply_words(seq![item] + rest) == reply_words(rest),
        item.ref_msg matches Some(quote) ==> {
            let own = if quote.message_item is Some && quote.message_item->Some_0.text_item is Some {
                quote.message_item->Some_0.text_item->Some_0.text
            } else {
                None
            };
            let words = if own is Some {
                own
            } else {
                quote.title
            };
            reply_words(seq![item] + rest) == if words is Some && text::trim(words->Some_0).len() > 0 {
                Some(text::trim(words->Some_0))
            } else {
                reply_words(rest)
            }
        },
{
    let all = seq![item] + rest;
    assert(all[0] == item);
    assert(all.drop_first() =~= rest);
}

proof fn lemma_texts_say_something(items: Seq<WeixinRawItemView>)
    ensures
        item_texts(items).len() == 0 <==> content_text(items).len() == 0,
        forall|i: int| 0 <= i < item_texts(items).len() ==> (#[trigger] item_texts(items)[i]).len() > 0,
    decreases items.len(),
{
    if items.len() > 0 {
        let earlier = items.drop_last();
        lemma_texts_say_something(earlier);
        if let Some(said) = item_text(items.last()) {
            text::join_of_push(item_texts(earlier), seq!['\n', '\n'], said);
        }
    }
}

/// What a message says is gathered from its items in order: a text item adds its text and a voice item
/// the text that was understood, without white space around it and a blank line apart; a blank text
/// adds nothing.
pub proof fn items_say_their_words(
    items: Seq<WeixinRawItemView>,
    item: WeixinRawItemView,
    words: Seq<char>,
)
    requires
        ({
            ||| item.item_type == Some(ITEM_TYPE_TEXT) && (item.text_item matches Some(inner)
                && inner.text == Some(words))
            ||| item.item_type == Some(ITEM_TYPE_VOICE) && (item.voice_item matches Some(inner)
                && inner.text == Some(words))
        }),
    ensures
        content_text(Seq::empty()) == Seq::<char>::empty(),
        content_text(items.push(item)) == (if text::trim(words).len() == 0 {
            content_text(items)
        } else if content_text(items).len() == 0 {
            text::trim(words)
        } else {
            content_text(items) + seq!['\n', '\n'] + text::trim(words)
        }),
{
    let all = items.push(item);
    assert(all.drop_last() =~= items);
    assert(all.last() == item);
    lemma_texts_say_something(items);
    if text::trim(words).len() > 0 {
        text::join_of_push(item_texts(items), seq!['\n', '\n'], text::trim(words));
    }
}

/// Items of other kinds, and items without a text, say nothing; images and files are media.
pub proof fn other_items_say_nothing(items: Seq<WeixinRawItemView>, item: WeixinRawItemView)
    requires
        item.item_type == Some(ITEM_TYPE_TEXT) ==> (item.text_item matches Some(inner) ==> inner.text
            is None),
        item.item_type == Some(ITEM_TYPE_VOICE) ==> (item.voice_item matches Some(inner)
            ==> inner.text is None),
    ensures
        content_text(items.push(item)) == content_text(items),
        has_media(items.push(item)) <==> has_media(items) || item.item_type == Some(ITEM_TYPE_IMAGE)
            || item.item_type == Some(ITEM_TYPE_FILE),
        !has_media(Seq::empty()),
{
    let all = items.push(item);
    assert(all.drop_last() =~= items);
    assert(forall|i: int| 0 <= i < items.len() ==> all[i] == items[i]);
    assert(all[items.len() as int] == item);
    if has_media(items) {
        let i = choose|i: int| 0 <= i < items.len() && is_media(#[trigger] items[i]);
        assert(is_media(all[i]));
    }
}

/// A message that brings a token has it kept, under its sender, both for sending and with the
/// credentials; every other message leaves the tokens as they are and keeps nothing.
pub proof fn brought_token_is_kept(
    tokens: Map<Seq<char>, Seq<char>>,
    msg: WeixinRawMessageView,
    timestamp: i64,
)
    ensures
        match (msg.from_user_id, msg.context_token) {
            (Some(sender), Some(token)) => if sender.len() > 0 && token.len() > 0 {
                &&& tokens_after(tokens, msg) == tokens.insert(sender, token)
                &&& received(msg, timestamp).update == Some(
                    PluginCredentialUpdateView {
                        map_key: "context_tokens"@,
                        entry_key: sender,
                        value: JsonView::Text(token),
                    },
                )
            } else {
                tokens_after(tokens, msg) == tokens && received(msg, timestamp).update is None
            },
            _ => tokens_after(tokens, msg) == tokens && received(msg, timestamp).update is None,
        },
{
}

/// Sending goes to the chat that was named, with the chat's own token and the message's whole text;
/// it needs a connection and a token.
pub proof fn message_is_sent_with_its_chats_token(
    plugin: WeixinPluginView,
    chat_id: Seq<char>,
    text: Option<Seq<char>>,
)
    ensures
        sending(plugin, chat_id, text) is Ok <==> plugin.connected && plugin.tokens.contains_key(chat_id),
        sending(plugin, chat_id, text) matches Ok(send) ==> {
            &&& send.chat_id == chat_id
            &&& send.context_token == plugin.tokens[chat_id]
            &&& text matches Some(said) ==> send.text == said
            &&& text is None ==> send.text.len() == 0
        },
        !plugin.connected ==> sending(plugin, chat_id, text) == Err::<WeixinSendView, _>(
            ChannelErrorView::PlatformApi("Plugin not initialized"@),
        ),
        plugin.connected ==> (sending(plugin, chat_id, text) matches Err(error) ==> error
            is MessageSendFailed),
{
}

/// What is configured is what is connected to: the account and the token of the configuration, at its
/// address or the platform's own, from the cursor that was kept. Without a token or an account there
/// is no connection, and the plugin shows why.
pub proof fn configuration_is_connected_to(plugin: WeixinPluginView, config: PluginConfigView)
    ensures
        ({
            let credentials = config.credentials;
            let has_token = credentials.bot_token matches Some(token) && token.len() > 0;
            let has_account = credentials.account_id matches Some(account) && account.len() > 0;
            let after = initialized(plugin, config);
            &&& after.connected == plugin.connected
            &&& after.bot_info == plugin.bot_info
            &&& match json::find_entry(credentials.extra, "context_tokens"@) {
                Some(JsonView::Object(entries)) => after.tokens == with_tokens(
                    Map::empty(),
                    kept_tokens(entries),
                ),
                _ => after.tokens == Map::<Seq<char>, Seq<char>>::empty(),
            }
            &&& match connection_of(config) {
                Ok(connection) => {
                    &&& has_token && has_account
                    &&& Some(connection.bot_token) == credentials.bot_token
                    &&& Some(connection.account_id) == credentials.account_id
                    &&& json::text_of(json::find_entry(credentials.extra, "baseUrl"@)) matches Some(url)
                        ==> connection.base_url == url
                    &&& json::text_of(json::find_entry(credentials.extra, "baseUrl"@)) is None
                        ==> connection.base_url == DEFAULT_BASE_URL@
                    &&& json::find_entry(credentials.extra, "poll_state"@) is None
                        ==> connection.poll_cursor.len() == 0
                    &&& after.status == PluginStatus::Initializing
                    &&& after.last_error == plugin.last_error
                },
                Err(error) => {
                    &&& after.status == PluginStatus::Error
                    &&& !has_token ==> error == ChannelErrorView::InvalidConfig(
                        "Missing WeChat bot_token"@,
                    ) && after.last_error == Some("Missing WeChat bot_token"@)
                    &&& has_token ==> !has_account && error == ChannelErrorView::InvalidConfig(
                        "Missing WeChat account_id"@,
                    ) && after.last_error == Some("Missing WeChat account_id"@)
                },
            }
        }),
{
}

/// Where the cursor and the tokens are kept is where they are read from: under the same names, whatever
/// else the configuration holds.
pub proof fn kept_entries_have_their_places(cursor: Seq<char>, chat_id: Seq<char>, token: Seq<char>)
    ensures
        cursor_update(cursor) == (PluginCredentialUpdateView {
            map_key: "poll_state"@,
            entry_key: "get_updates_buf"@,
            value: JsonView::Text(cursor),
        }),
        token_update(chat_id, token) == (PluginCredentialUpdateView {
            map_key: "context_tokens"@,
            entry_key: chat_id,
            value: JsonView::Text(token),
        }),
{
}

/// The tokens of a configuration are restored, all of them and no others: a chat has a token where an
/// entry of it holds a text that is not empty.
pub proof fn only_kept_tokens_are_restored(
    entries: Seq<(Seq<char>, JsonView)>,
    chat_id: Seq<char>,
)
    ensures
        ({
            let restored = with_tokens(Map::empty(), kept_tokens(entries));
            restored.contains_key(chat_id) ==> exists|i: int|
                0 <= i < entries.len() && (#[trigger] entries[i]).0 == chat_id && entries[i].1
                    == JsonView::Text(restored[chat_id]) && restored[chat_id].len() > 0
        }),
    decreases entries.len(),
{
    if entries.len() > 0 {
        let earlier = entries.drop_last();
        only_kept_tokens_are_restored(earlier, chat_id);
        let kept = kept_tokens(entries);
        let restored = with_tokens(Map::empty(), kept);
        let before = with_tokens(Map::<Seq<char>, Seq<char>>::empty(), kept_tokens(earlier));
        assert(entries[entries.len() - 1] == entries.last());
        if kept != kept_tokens(earlier) {
            assert(kept.drop_last() =~= kept_tokens(earlier));
        }
        if restored.contains_key(chat_id) && before.contains_key(chat_id) && restored[chat_id]
            == before[chat_id] {
            let i = choose|i: int|
                0 <= i < earlier.len() && (#[trigger] earlier[i]).0 == chat_id && earlier[i].1
                    == JsonView::Text(before[chat_id]) && before[chat_id].len() > 0;
            assert(entries[i] == earlier[i]);
        }
    }
}

/// A new plugin knows nobody and sends nothing; one that could not be set up shows the reason and keeps
/// what it had.
pub proof fn plugin_begins_empty(plugin: WeixinPluginView, reason: Seq<char>)
    ensures
        created().status == PluginStatus::Created,
        created().bot_info is None,
        created().last_error is None,
        !created().connected,
        created().tokens == Map::<Seq<char>, Seq<char>>::empty(),
        refused(plugin, reason).status == PluginStatus::Error,
        refused(plugin, reason).last_error == Some(reason),
        refused(plugin, reason).bot_info == plugin.bot_info,
        refused(plugin, reason).connected == plugin.connected,
        refused(plugin, reason).tokens == plugin.tokens,
{
}

} // verus!
