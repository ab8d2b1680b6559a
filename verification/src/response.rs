//! The responses that actions and commands are answered with.

use vstd::prelude::*;
use vstd::string::*;

use crate::text;
use crate::text::{decimal_text, first_bytes, lowered, same_text};
use crate::types::{
    ActionBehavior, ActionButton, ActionButtonView, ActionResponse, ActionResponseView, ChannelSession,
    ChannelSessionView, ParseMode,
};

verus! {

// ── Building blocks ─────────────────────────────────────────────────

/// A button without parameters.
pub open spec fn button_view(label: Seq<char>, action: Seq<char>) -> ActionButtonView {
    ActionButtonView { label, action, params: None }
}

/// A response sent as a new message, without markup.
pub open spec fn sent(
    text: Seq<char>,
    buttons: Option<Seq<Seq<ActionButtonView>>>,
) -> ActionResponseView {
    ActionResponseView {
        text: Some(text),
        parse_mode: None,
        buttons,
        keyboard: None,
        behavior: ActionBehavior::Send,
        toast: None,
        edit_message_id: None,
    }
}

/// A response of nothing but a toast.
pub open spec fn toasted(toast: Seq<char>, behavior: ActionBehavior) -> ActionResponseView {
    ActionResponseView {
        text: None,
        parse_mode: None,
        buttons: None,
        keyboard: None,
        behavior,
        toast: Some(toast),
        edit_message_id: None,
    }
}

fn button(label: &str, action: &str) -> (r: ActionButton)
    ensures
        r.deep_view() == button_view(label@, action@),
{
    ActionButton { label: label.to_owned(), action: action.to_owned(), params: None }
}

fn row_of_one(a: ActionButton) -> (r: Vec<ActionButton>)
    ensures
        r.deep_view() == seq![a.deep_view()],
{
    let mut row: Vec<ActionButton> = Vec::new();
    row.push(a);
    assert(row.deep_view() =~= seq![a.deep_view()]);
    row
}

fn row_of_two(a: ActionButton, b: ActionButton) -> (r: Vec<ActionButton>)
    ensures
        r.deep_view() == seq![a.deep_view(), b.deep_view()],
{
    let mut row: Vec<ActionButton> = Vec::new();
    row.push(a);
    row.push(b);
    assert(row.deep_view() =~= seq![a.deep_view(), b.deep_view()]);
    row
}

fn row_of_three(a: ActionButton, b: ActionButton, c: ActionButton) -> (r: Vec<ActionButton>)
    ensures
        r.deep_view() == seq![a.deep_view(), b.deep_view(), c.deep_view()],
{
    let mut row: Vec<ActionButton> = Vec::new();
    row.push(a);
    row.push(b);
    row.push(c);
    assert(row.deep_view() =~= seq![a.deep_view(), b.deep_view(), c.deep_view()]);
    row
}

fn one_row(a: Vec<ActionButton>) -> (r: Option<Vec<Vec<ActionButton>>>)
    ensures
        r.deep_view() == Some(seq![a.deep_view()]),
{
    let mut rows: Vec<Vec<ActionButton>> = Vec::new();
    rows.push(a);
    assert(rows.deep_view() =~= seq![a.deep_view()]);
    Some(rows)
}

fn two_rows(a: Vec<ActionButton>, b: Vec<ActionButton>) -> (r: Option<Vec<Vec<ActionButton>>>)
    ensures
        r.deep_view() == Some(seq![a.deep_view(), b.deep_view()]),
{
    let mut rows: Vec<Vec<ActionButton>> = Vec::new();
    rows.push(a);
    rows.push(b);
    assert(rows.deep_view() =~= seq![a.deep_view(), b.deep_view()]);
    Some(rows)
}

fn send_response(text: String, buttons: Option<Vec<Vec<ActionButton>>>) -> (r: ActionResponse)
    ensures
        r.deep_view() == sent(text@, buttons.deep_view()),
{
    ActionResponse {
        text: Some(text),
        parse_mode: None,
        buttons,
        keyboard: None,
        behavior: ActionBehavior::Send,
        toast: None,
        edit_message_id: None,
    }
}

fn toast_response(toast: &str, behavior: ActionBehavior) -> (r: ActionResponse)
    ensures
        r.deep_view() == toasted(toast@, behavior),
{
    ActionResponse {
        text: None,
        parse_mode: None,
        buttons: None,
        keyboard: None,
        behavior,
        toast: Some(toast.to_owned()),
        edit_message_id: None,
    }
}

// ── Pairing ─────────────────────────────────────────────────────────

/// The text that hands out a pairing code.
pub open spec fn pairing_text(code: Seq<char>) -> Seq<char> {
    "欢迎使用 SayDoneAI。首次使用需要完成授权。\n\n你的配对码：*"@ + code
        + "*\n\n请把配对码交给管理员，由管理员在 SayDoneAI → 远程连接 → Channels 中批准。\n配对码将在 10 分钟后过期。"@
}

/// The response to a user who is not authorized: the code and what to do with it.
pub open spec fn pairing_response(code: Seq<char>) -> ActionResponseView {
    sent(
        pairing_text(code),
        Some(
            seq![
                seq![
                    button_view("刷新配对码"@, "pairing.refresh"@),
                    button_view("检查授权状态"@, "pairing.check"@),
                    button_view("帮助"@, "pairing.help"@),
                ],
            ],
        ),
    )
}

/// The response to a user who is not authorized: the code and what to do with it.
pub fn build_pairing_response(code: &str) -> (r: ActionResponse)
    ensures
        r.deep_view() == pairing_response(code@),
{
    let text = "欢迎使用 SayDoneAI。首次使用需要完成授权。\n\n你的配对码：*".to_owned().concat(code).concat(
        "*\n\n请把配对码交给管理员，由管理员在 SayDoneAI → 远程连接 → Channels 中批准。\n配对码将在 10 分钟后过期。",
    );
    let buttons = one_row(
        row_of_three(
            button("刷新配对码", "pairing.refresh"),
            button("检查授权状态", "pairing.check"),
            button("帮助", "pairing.help"),
        ),
    );
    send_response(text, buttons)
}

/// The response to a check of the authorization.
pub open spec fn authorization_response(authorized: bool) -> ActionResponseView {
    if authorized {
        sent("授权已通过。发送 /new 创建新会话。"@, None)
    } else {
        sent(
            "仍在等待授权。请让管理员前往 SayDoneAI → 远程连接 → Channels 处理。"@,
            Some(
                seq![
                    seq![
                        button_view("刷新"@, "pairing.refresh"@),
                        button_view("再次检查"@, "pairing.check"@),
                    ],
                ],
            ),
        )
    }
}

/// The response to a check of the authorization.
pub fn build_authorization_response(authorized: bool) -> (r: ActionResponse)
    ensures
        r.deep_view() == authorization_response(authorized),
{
    if authorized {
        send_response("授权已通过。发送 /new 创建新会话。".to_owned(), None)
    } else {
        let buttons = one_row(
            row_of_two(button("刷新", "pairing.refresh"), button("再次检查", "pairing.check")),
        );
        send_response(
            "仍在等待授权。请让管理员前往 SayDoneAI → 远程连接 → Channels 处理。".to_owned(),
            buttons,
        )
    }
}

/// How to become authorized.
pub open spec fn pairing_help_response() -> ActionResponseView {
    sent(
        "使用此机器人前需要完成授权：\n1. 发送任意消息获取 6 位配对码\n2. 把配对码交给管理员\n3. 管理员在 SayDoneAI → 远程连接 → Channels 中批准\n4. 授权通过后发送 /new 创建会话"@,
        None,
    )
}

/// How to become authorized.
pub fn build_pairing_help_response() -> (r: ActionResponse)
    ensures
        r.deep_view() == pairing_help_response(),
{
    send_response(
        "使用此机器人前需要完成授权：\n1. 发送任意消息获取 6 位配对码\n2. 把配对码交给管理员\n3. 管理员在 SayDoneAI → 远程连接 → Channels 中批准\n4. 授权通过后发送 /new 创建会话".to_owned(),
        None,
    )
}

// ── Sessions ────────────────────────────────────────────────────────

/// The name under which a command-line tool is presented.
pub open spec fn cli_name(cli: Seq<char>) -> Seq<char> {
    if text::lower(cli) == "pi"@ {
        "SayDone CLI"@
    } else {
        cli
    }
}

/// The name under which a command-line tool is presented.
pub fn display_cli_name(cli: &str) -> (r: &str)
    ensures
        r@ == cli_name(cli@),
{
    let small = lowered(cli);
    if same_text(small.as_str(), "pi") {
        "SayDone CLI"
    } else {
        cli
    }
}

/// The tool to show for a session: the configured one, else the session's own.
pub open spec fn shown_cli(backend: Option<Seq<char>>, session: ChannelSessionView) -> Seq<char> {
    match backend {
        Some(cli) => cli_name(cli),
        None => cli_name(session.agent_type),
    }
}

/// What is shown of a session id: its first eight bytes.
pub open spec fn shown_id(id: Seq<char>) -> Seq<char> {
    text::byte_prefix(id, 8)
}

/// Whether a session id can be shown: cut behind its first eight bytes.
pub open spec fn id_can_be_shown(id: Seq<char>) -> bool {
    text::is_boundary(id, 8)
}

fn shown_cli_name<'a>(backend: Option<&'a str>, session: &'a ChannelSession) -> (r: &'a str)
    ensures
        r@ == shown_cli(backend.deep_view(), session.deep_view()),
{
    match backend {
        Some(cli) => display_cli_name(cli),
        None => display_cli_name(session.agent_type.as_str()),
    }
}

/// No conversation is known for what the user said.
pub open spec fn unbound_session_response() -> ActionResponseView {
    sent("我还不知道你想继续哪个会话。\n请引用回复我之前的一条消息，或发送 /new 创建新会话。"@, None)
}

/// No conversation is known for what the user said.
pub fn build_unbound_session_response() -> (r: ActionResponse)
    ensures
        r.deep_view() == unbound_session_response(),
{
    send_response(
        "我还不知道你想继续哪个会话。\n请引用回复我之前的一条消息，或发送 /new 创建新会话。".to_owned(),
        None,
    )
}

/// A new session awaits its first message.
pub open spec fn session_ready_response() -> ActionResponseView {
    ActionResponseView {
        text: Some(
            "🆕 <b>新会话已就绪</b>\n\n引用回复这条消息即可继续这个会话。\n发送 <code>/new</code> 可再创建一个新会话，也可以发送 <code>/new 你的消息</code> 创建并立即发送。"@,
        ),
        parse_mode: Some(ParseMode::HTML),
        buttons: Some(seq![seq![button_view("帮助"@, "help.show"@)]]),
        keyboard: None,
        behavior: ActionBehavior::Send,
        toast: None,
        edit_message_id: None,
    }
}

/// A new session awaits its first message.
pub fn build_session_ready_response() -> (r: ActionResponse)
    ensures
        r.deep_view() == session_ready_response(),
{
    ActionResponse {
        text: Some(
            "🆕 <b>新会话已就绪</b>\n\n引用回复这条消息即可继续这个会话。\n发送 <code>/new</code> 可再创建一个新会话，也可以发送 <code>/new 你的消息</code> 创建并立即发送。".to_owned(),
        ),
        parse_mode: Some(ParseMode::HTML),
        buttons: one_row(row_of_one(button("帮助", "help.show"))),
        keyboard: None,
        behavior: ActionBehavior::Send,
        toast: None,
        edit_message_id: None,
    }
}

/// A session was created from a menu.
pub open spec fn session_created_response(
    backend: Option<Seq<char>>,
    session: ChannelSessionView,
) -> ActionResponseView {
    sent(
        "新会话已创建。\nCLI："@ + shown_cli(backend, session) + "\n会话："@ + shown_id(session.id),
        Some(seq![seq![button_view("帮助"@, "help.show"@)]]),
    )
}

/// A session was created from a menu.
pub fn build_session_created_response(backend: Option<&str>, session: &ChannelSession) -> (r: ActionResponse)
    requires
        id_can_be_shown(session.id@),
    ensures
        r.deep_view() == session_created_response(backend.deep_view(), session.deep_view()),
{
    let id = first_bytes(session.id.as_str(), 8);
    let text = "新会话已创建。\nCLI：".to_owned().concat(shown_cli_name(backend, session)).concat(
        "\n会话：",
    ).concat(id.as_str());
    send_response(text, one_row(row_of_one(button("帮助", "help.show"))))
}

/// What is known of a session.
pub open spec fn session_status_response(
    backend: Option<Seq<char>>,
    session: ChannelSessionView,
) -> ActionResponseView {
    sent(
        "会话："@ + shown_id(session.id) + "\nCLI："@ + shown_cli(backend, session) + "\n创建时间："@
            + text::decimal(session.created_at as int) + "\n最后活跃时间："@ + text::decimal(
            session.last_activity as int,
        ),
        Some(seq![seq![button_view("新建会话"@, "session.new"@)]]),
    )
}

/// What is known of a session.
pub fn build_session_status_response(backend: Option<&str>, session: &ChannelSession) -> (r: ActionResponse)
    requires
        id_can_be_shown(session.id@),
    ensures
        r.deep_view() == session_status_response(backend.deep_view(), session.deep_view()),
{
    let id = first_bytes(session.id.as_str(), 8);
    let created = decimal_text(session.created_at);
    let active = decimal_text(session.last_activity);
    let text = "会话：".to_owned().concat(id.as_str()).concat("\nCLI：").concat(
        shown_cli_name(backend, session),
    ).concat("\n创建时间：").concat(created.as_str()).concat("\n最后活跃时间：").concat(active.as_str());
    send_response(text, one_row(row_of_one(button("新建会话", "session.new"))))
}

// ── Help ────────────────────────────────────────────────────────────

/// The help menu.
pub open spec fn help_response() -> ActionResponseView {
    sent(
        "Channels 使用方式：\n• 发送 /new 创建空白新会话\n• 发送 /new 你的消息，创建新会话并立即发送\n• 其他会话请引用回复我之前的消息，以继续对应会话"@,
        Some(
            seq![
                seq![
                    button_view("新建会话"@, "session.new"@),
                    button_view("会话状态"@, "session.status"@),
                ],
                seq![
                    button_view("功能"@, "help.features"@),
                    button_view("使用提示"@, "help.tips"@),
                ],
            ],
        ),
    )
}

/// The help menu.
pub fn build_help_response() -> (r: ActionResponse)
    ensures
        r.deep_view() == help_response(),
{
    let buttons = two_rows(
        row_of_two(button("新建会话", "session.new"), button("会话状态", "session.status")),
        row_of_two(button("功能", "help.features"), button("使用提示", "help.tips")),
    );
    send_response(
        "Channels 使用方式：\n• 发送 /new 创建空白新会话\n• 发送 /new 你的消息，创建新会话并立即发送\n• 其他会话请引用回复我之前的消息，以继续对应会话".to_owned(),
        buttons,
    )
}

/// The pages behind the help menu and the settings, by the action that asks for them.
pub open spec fn page_text(action: Seq<char>) -> Option<Seq<char>> {
    if action == "help.features"@ {
        Some("功能：\n• 使用已配置的 CLI 和模型聊天\n• 在授权模式下执行工具\n• 通过引用回复精确进入指定会话"@)
    } else if action == "help.pairing"@ {
        Some("配对：\n发送任意消息 → 获取 6 位配对码 → 管理员批准 → 完成授权"@)
    } else if action == "help.tips"@ {
        Some(
            "使用提示：\n• 发送 /new 创建空白新会话\n• 发送 /new 你的消息，创建会话并立即发送\n• 引用回复机器人消息，继续对应的会话\n• 使用 /help 查看帮助"@,
        )
    } else if action == "settings.show"@ {
        Some(
            "渠道设置由 SayDoneAI 桌面应用管理。\n请前往远程连接 → Channels 配置渠道、CLI、模型和授权用户。"@,
        )
    } else {
        None
    }
}

/// The page that `action` asks for, if it asks for one.
pub fn build_page_response(action: &str) -> (r: Option<ActionResponse>)
    ensures
        r.deep_view() == (match page_text(action@) {
            Some(text) => Some(sent(text, None)),
            None => None,
        }),
{
    if same_text(action, "help.features") {
        Some(
            send_response(
                "功能：\n• 使用已配置的 CLI 和模型聊天\n• 在授权模式下执行工具\n• 通过引用回复精确进入指定会话".to_owned(),
                None,
            ),
        )
    } else if same_text(action, "help.pairing") {
        Some(
            send_response(
                "配对：\n发送任意消息 → 获取 6 位配对码 → 管理员批准 → 完成授权".to_owned(),
                None,
            ),
        )
    } else if same_text(action, "help.tips") {
        Some(
            send_response(
                "使用提示：\n• 发送 /new 创建空白新会话\n• 发送 /new 你的消息，创建会话并立即发送\n• 引用回复机器人消息，继续对应的会话\n• 使用 /help 查看帮助".to_owned(),
                None,
            ),
        )
    } else if same_text(action, "settings.show") {
        Some(
            send_response(
                "渠道设置由 SayDoneAI 桌面应用管理。\n请前往远程连接 → Channels 配置渠道、CLI、模型和授权用户。".to_owned(),
                None,
            ),
        )
    } else {
        None
    }
}

/// The response to an action that nobody knows.
pub open spec fn unknown_action_response(action: Seq<char>) -> ActionResponseView {
    sent("无法识别的操作："@ + action, None)
}

/// The response to an action that nobody knows.
pub fn build_unknown_action_response(action: &str) -> (r: ActionResponse)
    ensures
        r.deep_view() == unknown_action_response(action@),
{
    send_response("无法识别的操作：".to_owned().concat(action), None)
}

// ── Chat ────────────────────────────────────────────────────────────

/// The response to a chat action.
pub open spec fn chat_response(action: Seq<char>) -> ActionResponseView {
    if action == "chat.send"@ || action == "chat.regenerate"@ || action == "chat.continue"@ {
        toasted("处理中…"@, ActionBehavior::Send)
    } else if action == "action.copy"@ {
        toasted("已复制到剪贴板"@, ActionBehavior::Answer)
    } else if action == "system.confirm"@ {
        toasted("已确认"@, ActionBehavior::Answer)
    } else {
        unknown_action_response(action)
    }
}

/// The response to a chat action.
pub fn build_chat_response(action: &str) -> (r: ActionResponse)
    ensures
        r.deep_view() == chat_response(action@),
{
    if same_text(action, "chat.send") || same_text(action, "chat.regenerate") || same_text(
        action,
        "chat.continue",
    ) {
        toast_response("处理中…", ActionBehavior::Send)
    } else if same_text(action, "action.copy") {
        toast_response("已复制到剪贴板", ActionBehavior::Answer)
    } else if same_text(action, "system.confirm") {
        toast_response("已确认", ActionBehavior::Answer)
    } else {
        build_unknown_action_response(action)
    }
}

/// A pairing code is told as it is: the text that tells it holds the whole code.
pub proof fn code_is_told(code: Seq<char>)
    ensures
        pairing_response(code).behavior == ActionBehavior::Send,
        pairing_response(code).text matches Some(text) && exists|at: int|
            #[trigger] text::occurs_at(text, code, at),
{
    let head = "欢迎使用 SayDoneAI。首次使用需要完成授权。\n\n你的配对码：*"@;
    let text = pairing_text(code);
    let at = head.len() as int;
    assert(text.subrange(at, at + code.len()) =~= code);
    assert(pairing_response(code).text == Some(text));
    assert(text::occurs_at(pairing_response(code).text->Some_0, code, at));
}

/// Texts that tell different codes differ.
pub proof fn codes_are_told_apart(a: Seq<char>, b: Seq<char>)
    requires
        pairing_response(a) == pairing_response(b),
    ensures
        a == b,
{
    let head = "欢迎使用 SayDoneAI。首次使用需要完成授权。\n\n你的配对码：*"@;
    let x = pairing_text(a);
    let y = pairing_text(b);
    assert(x.len() == y.len());
    assert(x.subrange(head.len() as int, (head.len() + a.len()) as int) =~= a);
    assert(y.subrange(head.len() as int, (head.len() + b.len()) as int) =~= b);
}

/// A new session and the state of a session are shown with the tool that answers in it, by the name of
/// the backend, or of the session's agent where no backend is set, and with the first eight bytes of
/// its id; the state also with the times at which it was created and last active.
pub proof fn session_is_shown(backend: Option<Seq<char>>, session: ChannelSessionView)
    requires
        id_can_be_shown(session.id),
    ensures
        ({
            let tool = cli_name(
                if backend is Some {
                    backend->Some_0
                } else {
                    session.agent_type
                },
            );
            let id = shown_id(session.id);
            &&& id.len() <= session.id.len()
            &&& id == session.id.take(id.len() as int)
            &&& text::byte_len(id) == 8
            &&& session_created_response(backend, session).text == Some(
                "新会话已创建。\nCLI："@ + tool + "\n会话："@ + id,
            )
            &&& session_status_response(backend, session).text == Some(
                "会话："@ + id + "\nCLI："@ + tool + "\n创建时间："@ + text::decimal(
                    session.created_at as int,
                ) + "\n最后活跃时间："@ + text::decimal(session.last_activity as int),
            )
            &&& session_created_response(backend, session).behavior == ActionBehavior::Send
            &&& session_status_response(backend, session).behavior == ActionBehavior::Send
        }),
{
    text::cut_parts_have_their_bytes(session.id, 8);
}

/// The tool of the house is shown by its own name, however it is written; every other tool by the name
/// that it has.
pub proof fn tools_are_shown_by_name(cli: Seq<char>)
    ensures
        cli.len() == 2 && (cli[0] == 'p' || cli[0] == 'P') && (cli[1] == 'i' || cli[1] == 'I')
            ==> cli_name(cli) == "SayDone CLI"@,
        !(cli.len() == 2 && (cli[0] == 'p' || cli[0] == 'P') && (cli[1] == 'i' || cli[1] == 'I'))
            ==> cli_name(cli) == cli,
{
    reveal_strlit("pi");
    assert(text::lower_char('P') == 'p' && text::lower_char('I') == 'i');
    if cli.len() == 2 {
        text::capitals_become_small(cli, 0);
        text::capitals_become_small(cli, 1);
        if (cli[0] == 'p' || cli[0] == 'P') && (cli[1] == 'i' || cli[1] == 'I') {
            assert(text::lower(cli) =~= "pi"@);
        } else if text::lower(cli) == "pi"@ {
            assert(text::lower(cli)[0] == 'p');
            assert(text::lower(cli)[1] == 'i');
            assert(text::lower(cli)[0] == text::lower_char(cli[0]));
            assert(text::lower(cli)[1] == text::lower_char(cli[1]));
        }
    } else {
        assert(text::lower(cli).len() == cli.len());
    }
}

/// A response that is sent is a plain new message with its text and its buttons; one that is toasted
/// shows its words and sends nothing.
pub proof fn responses_are_what_they_say(
    text: Seq<char>,
    buttons: Option<Seq<Seq<ActionButtonView>>>,
    behavior: ActionBehavior,
)
    ensures
        sent(text, buttons).text == Some(text),
        sent(text, buttons).buttons == buttons,
        sent(text, buttons).behavior == ActionBehavior::Send,
        sent(text, buttons).toast is None,
        sent(text, buttons).keyboard is None,
        sent(text, buttons).parse_mode is None,
        sent(text, buttons).edit_message_id is None,
        toasted(text, behavior).text is None,
        toasted(text, behavior).toast == Some(text),
        toasted(text, behavior).behavior == behavior,
        toasted(text, behavior).buttons is None,
        toasted(text, behavior).edit_message_id is None,
{
}

/// What the buttons of a chat lead to. Sending, regenerating and continuing are under way; copying and
/// confirming are only acknowledged.
pub proof fn chat_buttons_are_acknowledged(action: Seq<char>)
    ensures
        action == "chat.send"@ || action == "chat.regenerate"@ || action == "chat.continue"@ ==> {
            &&& chat_response(action).toast == Some("处理中…"@)
            &&& chat_response(action).behavior == ActionBehavior::Send
            &&& chat_response(action).text is None
        },
        action == "action.copy"@ ==> {
            &&& chat_response(action).toast == Some("已复制到剪贴板"@)
            &&& chat_response(action).behavior == ActionBehavior::Answer
            &&& chat_response(action).text is None
        },
        action == "system.confirm"@ ==> {
            &&& chat_response(action).toast == Some("已确认"@)
            &&& chat_response(action).behavior == ActionBehavior::Answer
            &&& chat_response(action).text is None
        },
{
    reveal_strlit("chat.send");
    reveal_strlit("chat.regenerate");
    reveal_strlit("chat.continue");
    reveal_strlit("action.copy");
    reveal_strlit("system.confirm");
    assert("chat.send"@[0] == 'c' && "chat.regenerate"@[0] == 'c' && "chat.continue"@[0] == 'c');
    assert("action.copy"@[0] == 'a');
    assert("system.confirm"@[0] == 's');
}

/// An unknown action is named in the answer to it.
pub proof fn unknown_action_is_named(action: Seq<char>)
    ensures
        unknown_action_response(action).text matches Some(text) && text.len() >= action.len()
            && text.skip(text.len() - action.len()) == action,
        unknown_action_response(action).buttons is None,
        unknown_action_response(action).behavior == ActionBehavior::Send,
{
    let text = "无法识别的操作："@ + action;
    assert(text.skip(text.len() - action.len()) =~= action);
}

/// The answer to whether a user is authorized depends on it: who is waits for nothing more, who is not
/// may check again.
pub proof fn authorization_is_told(authorized: bool)
    ensures
        authorized ==> authorization_response(authorized).text == Some(
            "授权已通过。发送 /new 创建新会话。"@,
        ) && authorization_response(authorized).buttons is None,
        !authorized ==> (authorization_response(authorized).text == Some(
            "仍在等待授权。请让管理员前往 SayDoneAI → 远程连接 → Channels 处理。"@,
        ) && (authorization_response(authorized).buttons matches Some(rows) && rows.len() == 1
            && rows[0].len() == 2 && rows[0][0].action == "pairing.refresh"@ && rows[0][1].action
            == "pairing.check"@)),
{
}

/// Each page has its own text, and only the pages have one.
pub proof fn pages_have_their_texts(action: Seq<char>)
    ensures
        page_text(action) is Some <==> action == "help.features"@ || action == "help.pairing"@ || action
            == "help.tips"@ || action == "settings.show"@,
        action == "help.features"@ ==> page_text(action) == Some(
            "功能：\n• 使用已配置的 CLI 和模型聊天\n• 在授权模式下执行工具\n• 通过引用回复精确进入指定会话"@,
        ),
        action == "help.pairing"@ ==> page_text(action) == Some(
            "配对：\n发送任意消息 → 获取 6 位配对码 → 管理员批准 → 完成授权"@,
        ),
        action == "help.tips"@ ==> page_text(action) == Some(
            "使用提示：\n• 发送 /new 创建空白新会话\n• 发送 /new 你的消息，创建会话并立即发送\n• 引用回复机器人消息，继续对应的会话\n• 使用 /help 查看帮助"@,
        ),
        action == "settings.show"@ ==> page_text(action) == Some(
            "渠道设置由 SayDoneAI 桌面应用管理。\n请前往远程连接 → Channels 配置渠道、CLI、模型和授权用户。"@,
        ),
{
    reveal_strlit("help.features");
    reveal_strlit("help.pairing");
    reveal_strlit("help.tips");
    reveal_strlit("settings.show");
    assert("help.features"@[5] == 'f');
    assert("help.pairing"@[5] == 'p');
    assert("help.tips"@[5] == 't');
    assert("settings.show"@[0] == 's');
    assert("help.features"@[0] == 'h' && "help.pairing"@[0] == 'h' && "help.tips"@[0] == 'h');
}

/// The menus offer what belongs to them: a stranger may refresh the code, check, or ask for help; the
/// help leads to a new session, the state of one, the features and the tips; a new session leads to
/// the help; the state of a session leads to a new one. The hint how to go on offers nothing.
pub proof fn menus_offer_what_belongs_to_them(
    code: Seq<char>,
    backend: Option<Seq<char>>,
    session: ChannelSessionView,
)
    ensures
        ({
            let only = |response: ActionResponseView, action: Seq<char>|
                (response.buttons matches Some(rows) && rows.len() == 1 && rows[0].len() == 1
                    && rows[0][0].action == action);
            &&& pairing_response(code).buttons matches Some(rows) && rows.len() == 1 && rows[0].len()
                == 3 && rows[0][0].action == "pairing.refresh"@ && rows[0][1].action
                == "pairing.check"@ && rows[0][2].action == "pairing.help"@
            &&& help_response().buttons matches Some(rows) && rows.len() == 2 && rows[0].len() == 2
                && rows[1].len() == 2 && rows[0][0].action == "session.new"@ && rows[0][1].action
                == "session.status"@ && rows[1][0].action == "help.features"@ && rows[1][1].action
                == "help.tips"@
            &&& only(session_ready_response(), "help.show"@)
            &&& only(session_created_response(backend, session), "help.show"@)
            &&& only(session_status_response(backend, session), "session.new"@)
            &&& unbound_session_response().buttons is None
            &&& unbound_session_response().behavior == ActionBehavior::Send
            &&& unbound_session_response().text == Some(
                "我还不知道你想继续哪个会话。\n请引用回复我之前的一条消息，或发送 /new 创建新会话。"@,
            )
            &&& session_ready_response().parse_mode == Some(ParseMode::HTML)
            &&& session_ready_response().behavior == ActionBehavior::Send
        }),
{
}

/// What the responses with a fixed text say.
pub proof fn fixed_texts_are_said(code: Seq<char>)
    ensures
        pairing_response(code).text == Some(
            "欢迎使用 SayDoneAI。首次使用需要完成授权。\n\n你的配对码：*"@ + code
                + "*\n\n请把配对码交给管理员，由管理员在 SayDoneAI → 远程连接 → Channels 中批准。\n配对码将在 10 分钟后过期。"@,
        ),
        pairing_help_response().text == Some(
            "使用此机器人前需要完成授权：\n1. 发送任意消息获取 6 位配对码\n2. 把配对码交给管理员\n3. 管理员在 SayDoneAI → 远程连接 → Channels 中批准\n4. 授权通过后发送 /new 创建会话"@,
        ),
        session_ready_response().text == Some(
            "🆕 <b>新会话已就绪</b>\n\n引用回复这条消息即可继续这个会话。\n发送 <code>/new</code> 可再创建一个新会话，也可以发送 <code>/new 你的消息</code> 创建并立即发送。"@,
        ),
        help_response().text == Some(
            "Channels 使用方式：\n• 发送 /new 创建空白新会话\n• 发送 /new 你的消息，创建新会话并立即发送\n• 其他会话请引用回复我之前的消息，以继续对应会话"@,
        ),
{
}

} // verus!
