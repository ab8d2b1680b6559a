//! Generating a title for a session.
//!
//! After a successful turn a latch decides whether a title is to be generated. The generation is a
//! short exchange of JSON frames with an agent process, on a thread that leaves no trace.

use vstd::prelude::*;
use vstd::string::*;

use crate::json;
use crate::json::{json_array, json_line, json_object, json_text, read_json, Json, JsonView};
use crate::text;
use crate::text::{leading_chars, same_text, trimmed};

verus! {

// ── The latch ───────────────────────────────────────────────────────

/// What to generate a title from.
#[derive(Debug, Clone, PartialEq, Eq)]
pub struct TitleRequest {
    /// The first prompt and its answer.
    pub description: String,
    /// The model that the session talks to; `None` lets the agent choose.
    pub model: Option<String>,
}

/// The mathematical value of a [`TitleRequest`].
#[verifier::ext_equal]
pub struct TitleRequestView {
    pub description: Seq<char>,
    pub model: Option<Seq<char>>,
}

impl DeepView for TitleRequest {
    type V = TitleRequestView;

    open spec fn deep_view(&self) -> TitleRequestView {
        TitleRequestView {
            description: self.description@,
            model: self.model.deep_view(),
        }
    }
}

/// A generated title, to be announced for a session and a turn.
#[derive(Debug, Clone, PartialEq, Eq)]
pub struct SessionTitle {
    pub session_id: String,
    pub turn_gen: u64,
    pub title: String,
}

/// The mathematical value of a [`SessionTitle`].
#[verifier::ext_equal]
pub struct SessionTitleView {
    pub session_id: Seq<char>,
    pub turn_gen: u64,
    pub title: Seq<char>,
}

impl DeepView for SessionTitle {
    type V = SessionTitleView;

    open spec fn deep_view(&self) -> SessionTitleView {
        SessionTitleView {
            session_id: self.session_id@,
            turn_gen: self.turn_gen,
            title: self.title@,
        }
    }
}

/// For which session and turn a run was begun.
#[derive(Debug)]
struct TitleRun {
    session_id: String,
    turn_gen: u64,
}

/// For which session and turn a run was begun.
#[verifier::ext_equal]
pub struct TitleRunView {
    pub session_id: Seq<char>,
    pub turn_gen: u64,
}

impl DeepView for TitleRun {
    type V = TitleRunView;

    closed spec fn deep_view(&self) -> TitleRunView {
        TitleRunView { session_id: self.session_id@, turn_gen: self.turn_gen }
    }
}

/// The most runs of a session: the first one and its retries.
pub const TITLE_MAX_ATTEMPTS: u32 = 3;

/// The most characters that are taken of a prompt and of an answer.
pub const DESCRIPTION_PART_CHARS: usize = 1000;

/// The state of a latch.
#[verifier::ext_equal]
pub struct TitleGenView {
    /// Whether a title is still wanted.
    pub pending: bool,
    /// The runs that were asked for.
    pub attempts: nat,
    /// The run under way.
    pub run: Option<TitleRunView>,
    /// The first prompt.
    pub description: Option<Seq<char>>,
    pub model: Option<Seq<char>>,
}

/// A latch as a session begins, armed for a fresh one.
pub open spec fn new_latch(fresh: bool) -> TitleGenView {
    TitleGenView { pending: fresh, attempts: 0, run: None, description: None, model: None }
}

/// What a title is generated from.
pub open spec fn described(prompt: Option<Seq<char>>, answer: Seq<char>) -> Seq<char> {
    let asked = match prompt {
        Some(user) => if user.len() > 0 {
            "User: "@ + user
        } else {
            Seq::empty()
        },
        None => Seq::empty(),
    };
    if answer.len() == 0 {
        asked
    } else if asked.len() == 0 {
        "Assistant: "@ + answer
    } else {
        asked + "\n\n"@ + "Assistant: "@ + answer
    }
}

impl TitleGenView {
    /// Whether the runs are counted right: a latch that has used them up wants no title, and one
    /// that wants none has no run under way.
    pub open spec fn well_formed(self) -> bool {
        &&& self.attempts <= TITLE_MAX_ATTEMPTS + 1
        &&& self.pending ==> self.attempts <= TITLE_MAX_ATTEMPTS
        &&& self.run is Some ==> self.pending
    }

    /// The latch after a prompt: the first one that is not empty is kept, cut.
    pub open spec fn prompted(self, text: Seq<char>) -> TitleGenView {
        if self.pending && self.description is None && text.len() > 0 {
            TitleGenView {
                description: Some(text::first_chars(text, DESCRIPTION_PART_CHARS as int)),
                ..self
            }
        } else {
            self
        }
    }

    /// Whether a run begins when a turn succeeds.
    pub open spec fn fires(self) -> bool {
        self.pending && self.run is None && self.attempts < TITLE_MAX_ATTEMPTS
    }

    /// The latch after a turn of a session has succeeded.
    pub open spec fn fired(self, session_id: Seq<char>, turn_gen: u64) -> TitleGenView {
        if !self.pending || self.run is Some {
            self
        } else if self.attempts < TITLE_MAX_ATTEMPTS {
            TitleGenView {
                attempts: self.attempts + 1,
                run: Some(TitleRunView { session_id, turn_gen }),
                ..self
            }
        } else {
            TitleGenView { attempts: self.attempts + 1, pending: false, ..self }
        }
    }

    /// The latch after the run under way has ended: with a title it is done, without one it stays
    /// armed.
    pub open spec fn finished(self, title: Option<Seq<char>>) -> TitleGenView {
        if self.run is Some {
            TitleGenView { run: None, pending: self.pending && title is None, ..self }
        } else {
            self
        }
    }

    /// What is announced when the run under way ends: its title, for the session and the turn that
    /// it was begun for.
    pub open spec fn announced(self, title: Option<Seq<char>>) -> Option<SessionTitleView> {
        match (self.run, title) {
            (Some(run), Some(title)) => Some(
                SessionTitleView { session_id: run.session_id, turn_gen: run.turn_gen, title },
            ),
            _ => None,
        }
    }
}

/// Decides after which turns a title is generated: one run at a time, at most
/// [`TITLE_MAX_ATTEMPTS`] runs, and none once there is a title.
#[derive(Debug)]
pub struct TitleGen {
    pending: bool,
    attempts: u32,
    run: Option<TitleRun>,
    description: Option<String>,
    model: Option<String>,
}

impl View for TitleGen {
    type V = TitleGenView;

    closed spec fn view(&self) -> TitleGenView {
        TitleGenView {
            pending: self.pending,
            attempts: self.attempts as nat,
            run: self.run.deep_view(),
            description: self.description.deep_view(),
            model: self.model.deep_view(),
        }
    }
}

impl TitleGen {
    #[verifier::type_invariant]
    spec fn is_well_formed(&self) -> bool {
        self@.well_formed()
    }

    /// A latch, armed for a fresh session.
    pub fn new(fresh: bool) -> (r: Self)
        ensures
            r@ == new_latch(fresh),
            r@.well_formed(),
    {
        TitleGen { pending: fresh, attempts: 0, run: None, description: None, model: None }
    }

    /// Whether a title is still wanted.
    pub fn is_armed(&self) -> (r: bool)
        ensures
            r == self@.pending,
    {
        self.pending
    }

    /// Keeps the first prompt that is not empty, cut.
    pub fn record_first_prompt(&mut self, text: &str)
        ensures
            final(self)@ == old(self)@.prompted(text@),
    {
        proof {
            use_type_invariant(&*self);
        }
        if self.pending && self.description.is_none() {
            let bounded = leading_chars(text, DESCRIPTION_PART_CHARS);
            if !bounded.as_str().is_empty() {
                self.description = Some(bounded);
            }
        }
    }

    /// Follows the session's model.
    pub fn set_model(&mut self, model: Option<String>)
        ensures
            final(self)@ == (TitleGenView { model: model.deep_view(), ..old(self)@ }),
    {
        proof {
            use_type_invariant(&*self);
        }
        self.model = model;
    }

    /// What a title is generated from.
    pub fn build_description(&self, assistant_part: &str) -> (r: String)
        ensures
            r@ == described(self@.description, assistant_part@),
    {
        let mut out = match &self.description {
            Some(user) => if user.as_str().is_empty() {
                String::new()
            } else {
                "User: ".to_owned().concat(user.as_str())
            },
            None => String::new(),
        };
        proof {
            reveal_strlit("User: ");
        }
        if !assistant_part.is_empty() {
            if !out.as_str().is_empty() {
                out.append("\n\n");
            }
            let ghost head = out@;
            out.append("Assistant: ");
            out.append(assistant_part);
            assert(out@ =~= head + "Assistant: "@ + assistant_part@);
            assert(head.len() == 0 ==> out@ =~= "Assistant: "@ + assistant_part@);
        }
        out
    }

    /// Tells that the turn `turn_gen` of the session has succeeded with `result_text`. A run that is
    /// to begin is handed out, and must be ended by [`TitleGen::finish`].
    pub fn fire(&mut self, session_id: &str, result_text: &str, turn_gen: u64) -> (r: Option<
        TitleRequest,
    >)
        ensures
            final(self)@ == old(self)@.fired(session_id@, turn_gen),
            final(self)@.well_formed(),
            r.deep_view() == (if old(self)@.fires() {
                Some(
                    TitleRequestView {
                        description: described(
                            old(self)@.description,
                            text::first_chars(result_text@, DESCRIPTION_PART_CHARS as int),
                        ),
                        model: old(self)@.model,
                    },
                )
            } else {
                None
            }),
    {
        proof {
            use_type_invariant(&*self);
        }
        if !self.pending || self.run.is_some() {
            return None;
        }
        if self.attempts >= TITLE_MAX_ATTEMPTS {
            self.pending = false;
            self.attempts = self.attempts + 1;
            return None;
        }
        self.attempts = self.attempts + 1;
        self.run = Some(TitleRun { session_id: session_id.to_owned(), turn_gen });
        let answer = leading_chars(result_text, DESCRIPTION_PART_CHARS);
        Some(
            TitleRequest {
                description: self.build_description(answer.as_str()),
                model: self.model.clone(),
            },
        )
    }

    /// Tells that the run under way has ended. Its title, if there is one, is to be announced for
    /// the session and the turn that were given when the run began.
    pub fn finish(&mut self, title: Option<String>) -> (r: Option<SessionTitle>)
        ensures
            final(self)@ == old(self)@.finished(title.deep_view()),
            final(self)@.well_formed(),
            r.deep_view() == old(self)@.announced(title.deep_view()),
    {
        proof {
            use_type_invariant(&*self);
        }
        let mut ended: Option<TitleRun> = None;
        std::mem::swap(&mut ended, &mut self.run);
        match (ended, title) {
            (Some(run), Some(title)) => {
                self.pending = false;
                Some(SessionTitle { session_id: run.session_id, turn_gen: run.turn_gen, title })
            },
            _ => None,
        }
    }
}

// ── Frames ──────────────────────────────────────────────────────────

/// What the agent is told to do.
pub const TITLE_INSTRUCTIONS: &'static str =
    "You generate short titles for chat conversations. Reply with ONLY the title: at most 6 words, no quotes, no trailing punctuation, in the same language as the conversation.";

/// The frame that opens the exchange.
pub open spec fn initialize_frame() -> JsonView {
    JsonView::Object(
        seq![
            ("id"@, JsonView::Unsigned(1)),
            ("method"@, JsonView::Text("initialize"@)),
            (
                "params"@,
                JsonView::Object(
                    seq![
                        (
                            "clientInfo"@,
                            JsonView::Object(
                                seq![
                                    ("name"@, JsonView::Text("aionui-title"@)),
                                    ("version"@, JsonView::Text("1"@)),
                                ],
                            ),
                        ),
                    ],
                ),
            ),
        ],
    )
}

/// The frame that ends the opening.
pub open spec fn initialized_frame() -> JsonView {
    JsonView::Object(
        seq![
            ("method"@, JsonView::Text("initialized"@)),
            ("params"@, JsonView::Object(Seq::empty())),
        ],
    )
}

/// The parameters of the thread: it leaves no trace, and runs on the session's model.
pub open spec fn thread_params(model: Option<Seq<char>>) -> Seq<(Seq<char>, JsonView)> {
    let plain = seq![
        ("baseInstructions"@, JsonView::Text(TITLE_INSTRUCTIONS@)),
        ("ephemeral"@, JsonView::Bool(true)),
    ];
    match model {
        Some(name) => plain.push(("model"@, JsonView::Text(name))),
        None => plain,
    }
}

/// The frame that starts the thread.
pub open spec fn thread_frame(model: Option<Seq<char>>) -> JsonView {
    JsonView::Object(
        seq![
            ("id"@, JsonView::Unsigned(2)),
            ("method"@, JsonView::Text("thread/start"@)),
            ("params"@, JsonView::Object(thread_params(model))),
        ],
    )
}

/// The frame that asks for the title.
pub open spec fn turn_frame(thread_id: Seq<char>, description: Seq<char>) -> JsonView {
    JsonView::Object(
        seq![
            ("id"@, JsonView::Unsigned(3)),
            ("method"@, JsonView::Text("turn/start"@)),
            (
                "params"@,
                JsonView::Object(
                    seq![
                        (
                            "input"@,
                            JsonView::Array(
                                seq![
                                    JsonView::Object(
                                        seq![
                                            ("text"@, JsonView::Text(description)),
                                            ("type"@, JsonView::Text("text"@)),
                                        ],
                                    ),
                                ],
                            ),
                        ),
                        ("threadId"@, JsonView::Text(thread_id)),
                    ],
                ),
            ),
        ],
    )
}

proof fn lemma_plain_leaf(json: JsonView)
    requires
        json is Text || json is Bool || json is Unsigned,
    ensures
        json::is_plain(json),
{
}

proof fn lemma_plain_one(a: (Seq<char>, JsonView))
    requires
        json::is_plain(a.1),
    ensures
        json::is_plain(JsonView::Object(seq![a])),
{
    let entries = seq![a];
    assert(forall|i: int| 0 <= i < entries.len() ==> entries[i] == a);
}

proof fn lemma_plain_two(a: (Seq<char>, JsonView), b: (Seq<char>, JsonView))
    requires
        json::is_plain(a.1),
        json::is_plain(b.1),
        text::text_before(a.0, b.0),
    ensures
        json::is_plain(JsonView::Object(seq![a, b])),
{
    let entries = seq![a, b];
    assert(forall|i: int| 0 <= i < entries.len() ==> entries[i] == a || entries[i] == b);
    let keys = Seq::new(entries.len(), |i: int| entries[i].0);
    assert(text::ascending(keys)) by {
        assert forall|i: int, j: int| 0 <= i < j < keys.len() implies text::text_before(
            #[trigger] keys[i],
            #[trigger] keys[j],
        ) by {
            assert(i == 0 && j == 1);
        }
    }
}

proof fn lemma_plain_three(
    a: (Seq<char>, JsonView),
    b: (Seq<char>, JsonView),
    c: (Seq<char>, JsonView),
)
    requires
        json::is_plain(a.1),
        json::is_plain(b.1),
        json::is_plain(c.1),
        text::text_before(a.0, b.0),
        text::text_before(b.0, c.0),
    ensures
        json::is_plain(JsonView::Object(seq![a, b, c])),
{
    let entries = seq![a, b, c];
    assert(forall|i: int|
        0 <= i < entries.len() ==> entries[i] == a || entries[i] == b || entries[i] == c);
    text::text_order_is_transitive(a.0, b.0, c.0);
    let keys = Seq::new(entries.len(), |i: int| entries[i].0);
    assert(text::ascending(keys)) by {
        assert forall|i: int, j: int| 0 <= i < j < keys.len() implies text::text_before(
            #[trigger] keys[i],
            #[trigger] keys[j],
        ) by {
            assert(i == 0 || (i == 1 && j == 2));
        }
    }
}

proof fn lemma_keys_ascend()
    ensures
        text::text_before("id"@, "method"@),
        text::text_before("method"@, "params"@),
        text::text_before("name"@, "version"@),
        text::text_before("baseInstructions"@, "ephemeral"@),
        text::text_before("ephemeral"@, "model"@),
        text::text_before("input"@, "threadId"@),
        text::text_before("text"@, "type"@),
{
    reveal_strlit("id");
    reveal_strlit("method");
    reveal_strlit("params");
    reveal_strlit("name");
    reveal_strlit("version");
    reveal_strlit("baseInstructions");
    reveal_strlit("ephemeral");
    reveal_strlit("model");
    reveal_strlit("input");
    reveal_strlit("threadId");
    reveal_strlit("text");
    reveal_strlit("type");
    let a = "text"@.drop_first();
    let b = "type"@.drop_first();
    assert(a[0] == 'e' && b[0] == 'y');
    assert(text::text_before(a, b));
}

proof fn lemma_initialize_frame_is_plain()
    ensures
        json::is_plain(initialize_frame()),
{
    lemma_keys_ascend();
    let name = JsonView::Text("aionui-title"@);
    let version = JsonView::Text("1"@);
    lemma_plain_leaf(name);
    lemma_plain_leaf(version);
    lemma_plain_two(("name"@, name), ("version"@, version));
    let info = JsonView::Object(seq![("name"@, name), ("version"@, version)]);
    lemma_plain_one(("clientInfo"@, info));
    let params = JsonView::Object(seq![("clientInfo"@, info)]);
    let method = JsonView::Text("initialize"@);
    lemma_plain_leaf(method);
    lemma_plain_leaf(JsonView::Unsigned(1));
    lemma_plain_three(("id"@, JsonView::Unsigned(1)), ("method"@, method), ("params"@, params));
}

proof fn lemma_initialized_frame_is_plain()
    ensures
        json::is_plain(initialized_frame()),
{
    lemma_keys_ascend();
    let method = JsonView::Text("initialized"@);
    let params = JsonView::Object(Seq::empty());
    lemma_plain_leaf(method);
    assert(json::is_plain(params));
    lemma_plain_two(("method"@, method), ("params"@, params));
}

proof fn lemma_thread_frame_is_plain(model: Option<Seq<char>>)
    ensures
        json::is_plain(thread_frame(model)),
{
    lemma_keys_ascend();
    let instructions = JsonView::Text(TITLE_INSTRUCTIONS@);
    lemma_plain_leaf(instructions);
    lemma_plain_leaf(JsonView::Bool(true));
    let a = ("baseInstructions"@, instructions);
    let b = ("ephemeral"@, JsonView::Bool(true));
    match model {
        Some(name) => {
            let c = ("model"@, JsonView::Text(name));
            lemma_plain_leaf(c.1);
            lemma_plain_three(a, b, c);
            assert(thread_params(model) =~= seq![a, b, c]);
        },
        None => {
            lemma_plain_two(a, b);
        },
    }
    let params = JsonView::Object(thread_params(model));
    let method = JsonView::Text("thread/start"@);
    lemma_plain_leaf(method);
    lemma_plain_leaf(JsonView::Unsigned(2));
    lemma_plain_three(("id"@, JsonView::Unsigned(2)), ("method"@, method), ("params"@, params));
}

proof fn lemma_turn_frame_is_plain(thread_id: Seq<char>, description: Seq<char>)
    ensures
        json::is_plain(turn_frame(thread_id, description)),
{
    lemma_keys_ascend();
    let said = JsonView::Text(description);
    let kind = JsonView::Text("text"@);
    lemma_plain_leaf(said);
    lemma_plain_leaf(kind);
    lemma_plain_two(("text"@, said), ("type"@, kind));
    let item = JsonView::Object(seq![("text"@, said), ("type"@, kind)]);
    let items = seq![item];
    let input = JsonView::Array(items);
    assert(json::is_plain(input)) by {
        assert(forall|i: int| 0 <= i < items.len() ==> items[i] == item);
    }
    let thread = JsonView::Text(thread_id);
    lemma_plain_leaf(thread);
    lemma_plain_two(("input"@, input), ("threadId"@, thread));
    let params = JsonView::Object(seq![("input"@, input), ("threadId"@, thread)]);
    let method = JsonView::Text("turn/start"@);
    lemma_plain_leaf(method);
    lemma_plain_leaf(JsonView::Unsigned(3));
    lemma_plain_three(("id"@, JsonView::Unsigned(3)), ("method"@, method), ("params"@, params));
}

fn object_of_one(key: &str, value: Json) -> (r: Json)
    ensures
        r.deep_view() == JsonView::Object(seq![(key@, value.deep_view())]),
{
    let mut entries: Vec<(String, Json)> = Vec::new();
    entries.push((key.to_owned(), value));
    assert(entries.deep_view() =~= seq![(key@, value.deep_view())]);
    json_object(entries)
}

fn object_of_two(a: &str, first: Json, b: &str, second: Json) -> (r: Json)
    ensures
        r.deep_view() == JsonView::Object(
            seq![(a@, first.deep_view()), (b@, second.deep_view())],
        ),
{
    let mut entries: Vec<(String, Json)> = Vec::new();
    entries.push((a.to_owned(), first));
    entries.push((b.to_owned(), second));
    assert(entries.deep_view() =~= seq![(a@, first.deep_view()), (b@, second.deep_view())]);
    json_object(entries)
}

fn request_frame(id: u64, method: &str, params: Json) -> (r: Json)
    ensures
        r.deep_view() == JsonView::Object(
            seq![
                ("id"@, JsonView::Unsigned(id)),
                ("method"@, JsonView::Text(method@)),
                ("params"@, params.deep_view()),
            ],
        ),
{
    let mut entries: Vec<(String, Json)> = Vec::new();
    let number = Json::Unsigned(id);
    assert(number.deep_view() == JsonView::Unsigned(id));
    entries.push(("id".to_owned(), number));
    entries.push(("method".to_owned(), json_text(method)));
    entries.push(("params".to_owned(), params));
    assert(entries.deep_view() =~= seq![
        ("id"@, JsonView::Unsigned(id)),
        ("method"@, JsonView::Text(method@)),
        ("params"@, params.deep_view()),
    ]);
    json_object(entries)
}

fn build_initialize_frame() -> (r: Json)
    ensures
        r.deep_view() == initialize_frame(),
{
    let info = object_of_two("name", json_text("aionui-title"), "version", json_text("1"));
    request_frame(1, "initialize", object_of_one("clientInfo", info))
}

fn build_initialized_frame() -> (r: Json)
    ensures
        r.deep_view() == initialized_frame(),
{
    let none: Vec<(String, Json)> = Vec::new();
    assert(none.deep_view() =~= Seq::empty());
    object_of_two("method", json_text("initialized"), "params", json_object(none))
}

fn build_thread_frame(model: &Option<String>) -> (r: Json)
    ensures
        r.deep_view() == thread_frame(model.deep_view()),
{
    let mut params: Vec<(String, Json)> = Vec::new();
    params.push(("baseInstructions".to_owned(), json_text(TITLE_INSTRUCTIONS)));
    let ephemeral = Json::Bool(true);
    assert(ephemeral.deep_view() == JsonView::Bool(true));
    params.push(("ephemeral".to_owned(), ephemeral));
    match model {
        Some(name) => {
            params.push(("model".to_owned(), json_text(name.as_str())));
        },
        None => {},
    }
    assert(params.deep_view() =~= thread_params(model.deep_view()));
    request_frame(2, "thread/start", json_object(params))
}

fn build_turn_frame(thread_id: &str, description: &str) -> (r: Json)
    ensures
        r.deep_view() == turn_frame(thread_id@, description@),
{
    let item = object_of_two("text", json_text(description), "type", json_text("text"));
    let mut items: Vec<Json> = Vec::new();
    items.push(item);
    assert(items.deep_view() =~= seq![item.deep_view()]);
    let params = object_of_two("input", json_array(items), "threadId", json_text(thread_id));
    request_frame(3, "turn/start", params)
}

// ── The exchange ────────────────────────────────────────────────────

/// What an exchange is waiting for.
#[derive(Debug, Clone, Copy, PartialEq, Eq, Structural)]
pub enum TitlePhase {
    /// The answer to the opening.
    Greeting,
    /// The end of the opening to be written.
    Greeted,
    /// The thread.
    Starting,
    /// The title.
    Answering,
    /// Nothing.
    Ended,
}

impl DeepView for TitlePhase {
    type V = TitlePhase;

    open spec fn deep_view(&self) -> TitlePhase {
        *self
    }
}

/// What an exchange wants done next.
#[derive(Debug, Clone, PartialEq, Eq)]
pub enum TitleStep {
    /// Write these bytes.
    Write(Vec<u8>),
    /// Read the next line.
    Read,
    /// Nothing: this is the title, if there is one.
    Finish(Option<String>),
}

/// The mathematical value of a [`TitleStep`].
#[verifier::ext_equal]
pub enum TitleStepView {
    Write(Seq<u8>),
    Read,
    Finish(Option<Seq<char>>),
}

impl DeepView for TitleStep {
    type V = TitleStepView;

    open spec fn deep_view(&self) -> TitleStepView {
        match self {
            TitleStep::Write(value) => TitleStepView::Write(value.deep_view()),
            TitleStep::Read => TitleStepView::Read,
            TitleStep::Finish(value) => TitleStepView::Finish(value.deep_view()),
        }
    }
}

/// The state of an exchange.
#[verifier::ext_equal]
pub struct TitleExchangeView {
    pub request: TitleRequestView,
    pub phase: TitlePhase,
}

/// Writes a frame and waits.
pub open spec fn writing(exchange: TitleExchangeView, phase: TitlePhase, frame: JsonView) -> (
    TitleExchangeView,
    TitleStepView,
) {
    (TitleExchangeView { phase, ..exchange }, TitleStepView::Write(json::line_bytes(frame)))
}

/// Ends.
pub open spec fn finishing(exchange: TitleExchangeView, title: Option<Seq<char>>) -> (
    TitleExchangeView,
    TitleStepView,
) {
    (TitleExchangeView { phase: TitlePhase::Ended, ..exchange }, TitleStepView::Finish(title))
}

/// Whether a frame answers the request `id`.
pub open spec fn is_response(frame: JsonView, id: u64) -> bool {
    json::entry(Some(frame), "id"@) == Some(JsonView::Unsigned(id))
}

/// The id of the thread in the answer to its start.
pub open spec fn thread_id_of(frame: JsonView) -> Option<Seq<char>> {
    json::text_of(
        json::entry(json::entry(json::entry(Some(frame), "result"@), "thread"@), "id"@),
    )
}

/// The title in a frame: the text of a completed message of the agent, if it says anything.
pub open spec fn title_of(frame: JsonView) -> Option<Seq<char>> {
    let item = json::entry(json::entry(Some(frame), "params"@), "item"@);
    match json::text_of(json::entry(item, "text"@)) {
        Some(said) => if json::text_entry(frame, "method"@) == Some("item/completed"@)
            && json::text_of(json::entry(item, "type"@)) == Some("agentMessage"@) && text::trim(
            said,
        ).len() > 0 {
            Some(text::trim(said))
        } else {
            None
        },
        None => None,
    }
}

/// What a frame from the agent leads to.
pub open spec fn on_frame(exchange: TitleExchangeView, frame: JsonView) -> (
    TitleExchangeView,
    TitleStepView,
) {
    match exchange.phase {
        TitlePhase::Greeting => if !is_response(frame, 1) {
            (exchange, TitleStepView::Read)
        } else if json::entry(Some(frame), "result"@) is None {
            finishing(exchange, None)
        } else {
            writing(exchange, TitlePhase::Greeted, initialized_frame())
        },
        TitlePhase::Starting => if !is_response(frame, 2) {
            (exchange, TitleStepView::Read)
        } else {
            match thread_id_of(frame) {
                Some(thread_id) => writing(
                    exchange,
                    TitlePhase::Answering,
                    turn_frame(thread_id, exchange.request.description),
                ),
                None => finishing(exchange, None),
            }
        },
        TitlePhase::Answering => match title_of(frame) {
            Some(title) => finishing(exchange, Some(title)),
            None => (exchange, TitleStepView::Read),
        },
        _ => finishing(exchange, None),
    }
}

/// What a line from the agent leads to: a line that is no JSON is passed over.
pub open spec fn on_line(exchange: TitleExchangeView, line: Seq<char>) -> (
    TitleExchangeView,
    TitleStepView,
) {
    match json::json_of_text(line) {
        Some(frame) => on_frame(exchange, frame),
        None => (exchange, TitleStepView::Read),
    }
}

/// What comes after a frame was written.
pub open spec fn on_written(exchange: TitleExchangeView) -> (TitleExchangeView, TitleStepView) {
    if exchange.phase == TitlePhase::Greeted {
        writing(exchange, TitlePhase::Starting, thread_frame(exchange.request.model))
    } else {
        (exchange, TitleStepView::Read)
    }
}

/// One exchange with an agent process that generates a title.
#[derive(Debug)]
pub struct TitleExchange {
    request: TitleRequest,
    phase: TitlePhase,
}

impl View for TitleExchange {
    type V = TitleExchangeView;

    closed spec fn view(&self) -> TitleExchangeView {
        TitleExchangeView { request: self.request.deep_view(), phase: self.phase }
    }
}

/// Whether bytes to write are exactly one line.
pub open spec fn writes_one_line(step: TitleStepView) -> bool {
    step matches TitleStepView::Write(bytes) ==> json::is_one_line(bytes)
}

impl TitleExchange {
    /// An exchange about `request`.
    pub fn new(request: TitleRequest) -> (r: Self)
        ensures
            r@ == (TitleExchangeView { request: request.deep_view(), phase: TitlePhase::Ended }),
    {
        TitleExchange { request, phase: TitlePhase::Ended }
    }

    fn end(&mut self, title: Option<String>) -> (r: TitleStep)
        ensures
            (final(self)@, r.deep_view()) == finishing(old(self)@, title.deep_view()),
            writes_one_line(r.deep_view()),
    {
        self.phase = TitlePhase::Ended;
        TitleStep::Finish(title)
    }

    fn write(&mut self, phase: TitlePhase, frame: &Json) -> (r: TitleStep)
        requires
            json::is_plain(frame.deep_view()),
        ensures
            (final(self)@, r.deep_view()) == writing(old(self)@, phase, frame.deep_view()),
            writes_one_line(r.deep_view()),
    {
        let bytes = json_line(frame);
        self.phase = phase;
        assert(bytes.deep_view() =~= bytes@);
        TitleStep::Write(bytes)
    }

    /// Begins the exchange.
    pub fn start(&mut self) -> (r: TitleStep)
        ensures
            (final(self)@, r.deep_view()) == writing(
                old(self)@,
                TitlePhase::Greeting,
                initialize_frame(),
            ),
            writes_one_line(r.deep_view()),
    {
        proof {
            lemma_initialize_frame_is_plain();
        }
        let frame = build_initialize_frame();
        self.write(TitlePhase::Greeting, &frame)
    }

    /// Tells that the bytes were written.
    pub fn written(&mut self) -> (r: TitleStep)
        ensures
            (final(self)@, r.deep_view()) == on_written(old(self)@),
            writes_one_line(r.deep_view()),
    {
        if self.phase == TitlePhase::Greeted {
            proof {
                lemma_thread_frame_is_plain(self@.request.model);
            }
            let frame = build_thread_frame(&self.request.model);
            self.write(TitlePhase::Starting, &frame)
        } else {
            TitleStep::Read
        }
    }

    /// Tells that a frame was read.
    pub fn read_frame(&mut self, frame: &Json) -> (r: TitleStep)
        ensures
            (final(self)@, r.deep_view()) == on_frame(old(self)@, frame.deep_view()),
            writes_one_line(r.deep_view()),
    {
        let id = match frame.get("id") {
            Some(Json::Unsigned(id)) => Some(*id),
            _ => None,
        };
        match self.phase {
            TitlePhase::Greeting => {
                if !has_id(id, 1) {
                    return TitleStep::Read;
                }
                match frame.get("result") {
                    Some(_) => {
                        proof {
                            lemma_initialized_frame_is_plain();
                        }
                        let next = build_initialized_frame();
                        self.write(TitlePhase::Greeted, &next)
                    },
                    None => self.end(None),
                }
            },
            TitlePhase::Starting => {
                if !has_id(id, 2) {
                    return TitleStep::Read;
                }
                let thread_id = match frame.get("result") {
                    Some(result) => match result.get("thread") {
                        Some(thread) => thread.text_at("id"),
                        None => None,
                    },
                    None => None,
                };
                match thread_id {
                    Some(thread_id) => {
                        proof {
                            lemma_turn_frame_is_plain(thread_id@, self@.request.description);
                        }
                        let next = build_turn_frame(thread_id, self.request.description.as_str());
                        self.write(TitlePhase::Answering, &next)
                    },
                    None => self.end(None),
                }
            },
            TitlePhase::Answering => match read_title(frame) {
                Some(title) => self.end(Some(title)),
                None => TitleStep::Read,
            },
            _ => self.end(None),
        }
    }

    /// Tells that a line was read.
    pub fn read_line(&mut self, line: &str) -> (r: TitleStep)
        ensures
            (final(self)@, r.deep_view()) == on_line(old(self)@, line@),
            writes_one_line(r.deep_view()),
    {
        match read_json(line) {
            Some(frame) => self.read_frame(&frame),
            None => TitleStep::Read,
        }
    }

    /// Tells that there is nothing more to read, or nothing can be written.
    pub fn closed(&mut self) -> (r: TitleStep)
        ensures
            (final(self)@, r.deep_view()) == finishing(old(self)@, None),
    {
        self.end(None)
    }
}

fn has_id(id: Option<u64>, wanted: u64) -> (r: bool)
    ensures
        r == (id == Some(wanted)),
{
    match id {
        Some(n) => n == wanted,
        None => false,
    }
}

/// The title in a frame, if there is one.
pub fn read_title(frame: &Json) -> (r: Option<String>)
    ensures
        r.deep_view() == title_of(frame.deep_view()),
{
    let completed = match frame.text_at("method") {
        Some(method) => same_text(method, "item/completed"),
        None => false,
    };
    if !completed {
        return None;
    }
    let item = match frame.get("params") {
        Some(params) => params.get("item"),
        None => None,
    };
    match item {
        Some(item) => {
            let from_agent = match item.text_at("type") {
                Some(kind) => same_text(kind, "agentMessage"),
                None => false,
            };
            if !from_agent {
                return None;
            }
            match item.text_at("text") {
                Some(said) => {
                    let title = trimmed(said);
                    if title.as_str().is_empty() {
                        None
                    } else {
                        Some(title)
                    }
                },
                None => None,
            }
        },
        None => None,
    }
}

// ── Laws ────────────────────────────────────────────────────────────

/// What can happen to a latch.
pub enum TitleEvent {
    /// A prompt was sent.
    Prompt(Seq<char>),
    /// The model changed.
    Model(Option<Seq<char>>),
    /// A turn of a session succeeded.
    Turn {
        session_id: Seq<char>,
        turn_gen: u64,
    },
    /// A run ended.
    End(Option<Seq<char>>),
}

/// A latch after an event.
pub open spec fn latch_after(latch: TitleGenView, event: TitleEvent) -> TitleGenView {
    match event {
        TitleEvent::Prompt(text) => latch.prompted(text),
        TitleEvent::Model(model) => TitleGenView { model, ..latch },
        TitleEvent::Turn { session_id, turn_gen } => latch.fired(session_id, turn_gen),
        TitleEvent::End(title) => latch.finished(title),
    }
}

/// A latch after events.
pub open spec fn latch_run(latch: TitleGenView, events: Seq<TitleEvent>) -> TitleGenView
    decreases events.len(),
{
    if events.len() == 0 {
        latch
    } else {
        latch_after(latch_run(latch, events.drop_last()), events.last())
    }
}

/// The number of runs that events begin.
pub open spec fn run_count(latch: TitleGenView, events: Seq<TitleEvent>) -> nat
    decreases events.len(),
{
    if events.len() == 0 {
        0
    } else if events.last() is Turn && latch_run(latch, events.drop_last()).fires() {
        run_count(latch, events.drop_last()) + 1
    } else {
        run_count(latch, events.drop_last())
    }
}

/// The titles that events have announced, in order.
pub open spec fn announced_titles(latch: TitleGenView, events: Seq<TitleEvent>) -> Seq<
    SessionTitleView,
>
    decreases events.len(),
{
    if events.len() == 0 {
        Seq::empty()
    } else {
        let earlier = events.drop_last();
        match events.last() {
            TitleEvent::End(title) => match latch_run(latch, earlier).announced(title) {
                Some(announced) => announced_titles(latch, earlier).push(announced),
                None => announced_titles(latch, earlier),
            },
            _ => announced_titles(latch, earlier),
        }
    }
}

proof fn lemma_runs(latch: TitleGenView, events: Seq<TitleEvent>)
    requires
        latch.well_formed(),
    ensures
        latch_run(latch, events).well_formed(),
        latch.attempts + run_count(latch, events) <= latch_run(latch, events).attempts,
        latch.attempts <= TITLE_MAX_ATTEMPTS ==> latch.attempts + run_count(latch, events)
            <= TITLE_MAX_ATTEMPTS,
        !latch.pending ==> !latch_run(latch, events).pending && run_count(latch, events) == 0,
        announced_titles(latch, events).len() == (if latch.pending && !latch_run(
            latch,
            events,
        ).pending && latch_run(latch, events).attempts <= TITLE_MAX_ATTEMPTS {
            1nat
        } else {
            0nat
        }),
    decreases events.len(),
{
    if events.len() > 0 {
        lemma_runs(latch, events.drop_last());
    }
}

/// However many turns succeed, a session has no more runs than it may have.
pub proof fn runs_are_bounded(fresh: bool, events: Seq<TitleEvent>)
    ensures
        run_count(new_latch(fresh), events) <= TITLE_MAX_ATTEMPTS,
        !fresh ==> run_count(new_latch(fresh), events) == 0,
{
    lemma_runs(new_latch(fresh), events);
}

/// A latch that wants no title, as that of a resumed session or one that has its title, never
/// begins a run again and announces nothing.
pub proof fn disarmed_latch_never_fires(latch: TitleGenView, events: Seq<TitleEvent>)
    requires
        latch.well_formed(),
        !latch.pending,
    ensures
        run_count(latch, events) == 0,
        announced_titles(latch, events) == Seq::<SessionTitleView>::empty(),
        !latch_run(latch, events).pending,
{
    lemma_runs(latch, events);
}

/// A session gets one title at most; a latch that has announced it wants none from then on, and a
/// latch that still wants one has announced none.
pub proof fn one_title_is_announced(fresh: bool, events: Seq<TitleEvent>)
    ensures
        announced_titles(new_latch(fresh), events).len() <= 1,
        announced_titles(new_latch(fresh), events).len() == 1 ==> !latch_run(
            new_latch(fresh),
            events,
        ).pending,
        !fresh ==> announced_titles(new_latch(fresh), events).len() == 0,
{
    lemma_runs(new_latch(fresh), events);
}

proof fn lemma_run_stays(latch: TitleGenView, events: Seq<TitleEvent>)
    requires
        latch.well_formed(),
        latch.run is Some,
        forall|i: int| 0 <= i < events.len() ==> #[trigger] events[i] !is End,
    ensures
        latch_run(latch, events).run == latch.run,
        latch_run(latch, events).pending,
        announced_titles(latch, events).len() == 0,
    decreases events.len(),
{
    if events.len() > 0 {
        let earlier = events.drop_last();
        assert forall|i: int| 0 <= i < earlier.len() implies #[trigger] earlier[i] !is End by {
            assert(earlier[i] == events[i]);
        }
        lemma_run_stays(latch, earlier);
        assert(events[events.len() - 1] == events.last());
    }
}

/// A title is announced for the session and the turn that its run was begun for, whatever prompts,
/// models and further turns came before the run ended; the latch is then done. A run that ends
/// without a title announces nothing and leaves the latch armed.
pub proof fn title_is_announced_for_its_turn(
    latch: TitleGenView,
    session_id: Seq<char>,
    turn_gen: u64,
    meanwhile: Seq<TitleEvent>,
    title: Option<Seq<char>>,
)
    requires
        latch.well_formed(),
        latch.fires(),
        forall|i: int| 0 <= i < meanwhile.len() ==> #[trigger] meanwhile[i] !is End,
    ensures
        ({
            let begun = latch.fired(session_id, turn_gen);
            let ended = meanwhile.push(TitleEvent::End(title));
            &&& latch_run(begun, ended).run is None
            &&& latch_run(begun, ended).pending == (title is None)
            &&& announced_titles(begun, ended) == (match title {
                Some(title) => seq![SessionTitleView { session_id, turn_gen, title }],
                None => Seq::empty(),
            })
        }),
{
    let begun = latch.fired(session_id, turn_gen);
    let ended = meanwhile.push(TitleEvent::End(title));
    lemma_run_stays(begun, meanwhile);
    assert(ended.drop_last() =~= meanwhile);
}

/// One run at a time: while one is under way none begins, and a run that ends without a title
/// leaves the latch armed for the next turn. A turn that succeeds after the last run disarms it.
pub proof fn one_run_at_a_time(latch: TitleGenView, session_id: Seq<char>, turn_gen: u64)
    ensures
        latch.run is Some ==> !latch.fires(),
        latch.fires() ==> latch.fired(session_id, turn_gen).run is Some,
        latch.fires() ==> latch.fired(session_id, turn_gen).finished(None).pending,
        latch.fires() ==> forall|title: Seq<char>|
            !(#[trigger] latch.fired(session_id, turn_gen).finished(Some(title))).pending,
        latch.run is None && latch.attempts >= TITLE_MAX_ATTEMPTS ==> !latch.fired(
            session_id,
            turn_gen,
        ).pending,
{
}

/// The first prompt that is not empty wins, and every run of the session is described by it: no
/// later prompt, run or model changes it.
pub proof fn first_prompt_wins(latch: TitleGenView, first: Seq<char>, event: TitleEvent)
    requires
        latch.pending,
        latch.description is None,
        first.len() > 0,
    ensures
        latch.prompted(Seq::empty()) == latch,
        latch.prompted(first).description == Some(
            text::first_chars(first, DESCRIPTION_PART_CHARS as int),
        ),
        latch_after(latch.prompted(first), event).description == latch.prompted(first).description,
{
}

/// The thread leaves no trace and runs on the session's model, where one is known.
pub proof fn thread_is_ephemeral_on_the_session_model(model: Option<Seq<char>>)
    ensures
        json::entry(
            json::entry(Some(thread_frame(model)), "params"@),
            "ephemeral"@,
        ) == Some(JsonView::Bool(true)),
        json::text_of(json::entry(json::entry(Some(thread_frame(model)), "params"@), "model"@))
            == model,
{
    reveal_strlit("id");
    reveal_strlit("method");
    reveal_strlit("params");
    reveal_strlit("baseInstructions");
    reveal_strlit("ephemeral");
    reveal_strlit("model");
    reveal_with_fuel(json::find_entry, 5);
    assert("id"@.len() != "params"@.len());
    assert("method"@[0] != "params"@[0]);
    assert("baseInstructions"@.len() != "ephemeral"@.len());
    assert("baseInstructions"@.len() != "model"@.len());
    assert("ephemeral"@.len() != "model"@.len());
    let frame = thread_frame(model)->Object_0;
    assert(frame.drop_first().drop_first()[0] == frame[2]);
    assert(frame.drop_first()[0] == frame[1]);
    let params = thread_params(model);
    assert(params.drop_first()[0] == params[1]);
    if model is Some {
        assert(params.drop_first().drop_first()[0] == params[2]);
    }
}

/// What a title is generated from: what the user asked and what the agent answered, each behind the
/// name of who said it, a blank line apart; what was not said is left out.
pub proof fn both_sides_are_described(asked: Seq<char>, answered: Seq<char>)
    ensures
        asked.len() > 0 && answered.len() > 0 ==> described(Some(asked), answered) == "User: "@ + asked
            + "\n\n"@ + "Assistant: "@ + answered,
        asked.len() > 0 ==> described(Some(asked), Seq::empty()) == "User: "@ + asked,
        answered.len() > 0 ==> described(None, answered) == "Assistant: "@ + answered
            && described(Some(Seq::empty()), answered) == "Assistant: "@ + answered,
        described(None, Seq::empty()).len() == 0,
{
    reveal_strlit("User: ");
}

/// When a run begins: while a title is wanted and none is under way, for the first three turns. Each run
/// that begins is counted, and is the run of that session's turn. The turn after the third run ends
/// the wish for a title.
pub proof fn three_runs_are_made(latch: TitleGenView, session_id: Seq<char>, turn_gen: u64)
    ensures
        latch.fires() <==> latch.pending && latch.run is None && latch.attempts < 3,
        latch.fires() ==> latch.fired(session_id, turn_gen) == (TitleGenView {
            attempts: latch.attempts + 1,
            run: Some(TitleRunView { session_id, turn_gen }),
            ..latch
        }),
        !latch.pending || latch.run is Some ==> latch.fired(session_id, turn_gen) == latch,
        latch.pending && latch.run is None && latch.attempts >= 3 ==> {
            &&& !latch.fired(session_id, turn_gen).pending
            &&& latch.fired(session_id, turn_gen).run is None
            &&& latch.fired(session_id, turn_gen).description == latch.description
            &&& latch.fired(session_id, turn_gen).model == latch.model
        },
        new_latch(true).fires(),
        !new_latch(false).fires(),
{
}

/// The first prompt that says anything is kept, up to a thousand characters, as long as a title is
/// wanted; later prompts are not.
pub proof fn first_prompt_is_kept(latch: TitleGenView, text: Seq<char>)
    ensures
        latch.pending && latch.description is None && text.len() > 0 ==> latch.prompted(text) == (
        TitleGenView {
            description: Some(
                if text.len() <= 1000 {
                    text
                } else {
                    text.take(1000)
                },
            ),
            ..latch
        }),
        !latch.pending || latch.description is Some || text.len() == 0 ==> latch.prompted(text) == latch,
{
}

proof fn lemma_frame_keys()
    ensures
        "id"@ != "method"@,
        "id"@ != "params"@,
        "method"@ != "params"@,
        "input"@ != "threadId"@,
        "text"@ != "type"@,
        "baseInstructions"@ != "ephemeral"@,
{
    reveal_strlit("id");
    reveal_strlit("method");
    reveal_strlit("params");
    reveal_strlit("input");
    reveal_strlit("threadId");
    reveal_strlit("text");
    reveal_strlit("type");
    reveal_strlit("baseInstructions");
    reveal_strlit("ephemeral");
    assert("id"@.len() != "method"@.len());
    assert("method"@[0] != "params"@[0]);
    assert("input"@.len() != "threadId"@.len());
    assert("text"@[1] != "type"@[1]);
    assert("baseInstructions"@.len() != "ephemeral"@.len());
}

proof fn lemma_three_entries(
    a: (Seq<char>, JsonView),
    b: (Seq<char>, JsonView),
    c: (Seq<char>, JsonView),
)
    requires
        a.0 != b.0,
        a.0 != c.0,
        b.0 != c.0,
    ensures
        json::find_entry(seq![a, b, c], a.0) == Some(a.1),
        json::find_entry(seq![a, b, c], b.0) == Some(b.1),
        json::find_entry(seq![a, b, c], c.0) == Some(c.1),
{
    reveal_with_fuel(json::find_entry, 4);
    let all = seq![a, b, c];
    assert(all.drop_first()[0] == b);
    assert(all.drop_first().drop_first()[0] == c);
}

proof fn lemma_two_entries(a: (Seq<char>, JsonView), b: (Seq<char>, JsonView))
    requires
        a.0 != b.0,
    ensures
        json::find_entry(seq![a, b], a.0) == Some(a.1),
        json::find_entry(seq![a, b], b.0) == Some(b.1),
{
    reveal_with_fuel(json::find_entry, 3);
    assert(seq![a, b].drop_first()[0] == b);
}

/// What the frames ask for: the opening, the thread, and the title. The title is asked for in the thread
/// that was started, from the whole description.
pub proof fn frames_ask_for_their_things(
    model: Option<Seq<char>>,
    thread_id: Seq<char>,
    description: Seq<char>,
)
    ensures
        json::text_entry(initialize_frame(), "method"@) == Some("initialize"@),
        is_response(initialize_frame(), 1),
        json::text_entry(initialized_frame(), "method"@) == Some("initialized"@),
        json::text_entry(thread_frame(model), "method"@) == Some("thread/start"@),
        is_response(thread_frame(model), 2),
        json::text_entry(turn_frame(thread_id, description), "method"@) == Some("turn/start"@),
        is_response(turn_frame(thread_id, description), 3),
        ({
            let params = json::entry(Some(turn_frame(thread_id, description)), "params"@);
            &&& json::text_of(json::entry(params, "threadId"@)) == Some(thread_id)
            &&& json::entry(params, "input"@) matches Some(JsonView::Array(input)) && input.len() == 1
                && json::text_entry(input[0], "text"@) == Some(description) && json::text_entry(
                input[0],
                "type"@,
            ) == Some("text"@)
        }),
{
    lemma_frame_keys();
    let opening = initialize_frame()->Object_0;
    lemma_three_entries(opening[0], opening[1], opening[2]);
    assert(opening =~= seq![opening[0], opening[1], opening[2]]);
    let opened = initialized_frame()->Object_0;
    lemma_two_entries(opened[0], opened[1]);
    assert(opened =~= seq![opened[0], opened[1]]);
    let thread = thread_frame(model)->Object_0;
    lemma_three_entries(thread[0], thread[1], thread[2]);
    assert(thread =~= seq![thread[0], thread[1], thread[2]]);
    let turn = turn_frame(thread_id, description)->Object_0;
    lemma_three_entries(turn[0], turn[1], turn[2]);
    assert(turn =~= seq![turn[0], turn[1], turn[2]]);
    let params = turn[2].1->Object_0;
    lemma_two_entries(params[0], params[1]);
    assert(params =~= seq![params[0], params[1]]);
    let item = params[0].1->Array_0[0]->Object_0;
    lemma_two_entries(item[0], item[1]);
    assert(item =~= seq![item[0], item[1]]);
}

/// The exchange goes from the opening to the thread to the title: every request waits for its own
/// answer, anything else is passed over, and an answer without what was asked for ends it without a
/// title.
pub proof fn exchange_goes_its_way(exchange: TitleExchangeView, frame: JsonView)
    ensures
        ({
            let id = json::entry(Some(frame), "id"@);
            let result = json::entry(Some(frame), "result"@);
            let next = on_frame(exchange, frame);
            let request = exchange.request;
            &&& next.0.request == request
            &&& exchange.phase == TitlePhase::Greeting ==> {
                if id != Some(JsonView::Unsigned(1)) {
                    next == (exchange, TitleStepView::Read)
                } else if result is None {
                    next.1 == TitleStepView::Finish(None)
                } else {
                    &&& next.1 == TitleStepView::Write(json::line_bytes(initialized_frame()))
                    &&& on_written(next.0).1 == TitleStepView::Write(
                        json::line_bytes(thread_frame(request.model)),
                    )
                    &&& on_written(next.0).0.phase == TitlePhase::Starting
                    &&& on_written(next.0).0.request == request
                }
            }
            &&& exchange.phase == TitlePhase::Starting ==> {
                if id != Some(JsonView::Unsigned(2)) {
                    next == (exchange, TitleStepView::Read)
                } else {
                    match json::text_of(json::entry(json::entry(result, "thread"@), "id"@)) {
                        Some(thread_id) => {
                            &&& next.1 == TitleStepView::Write(
                                json::line_bytes(turn_frame(thread_id, request.description)),
                            )
                            &&& next.0.phase == TitlePhase::Answering
                            &&& on_written(next.0) == (next.0, TitleStepView::Read)
                        },
                        None => next.1 == TitleStepView::Finish(None),
                    }
                }
            }
            &&& exchange.phase == TitlePhase::Answering ==> {
                let item = json::entry(json::entry(Some(frame), "params"@), "item"@);
                let completed = json::text_entry(frame, "method"@) == Some("item/completed"@)
                    && json::text_of(json::entry(item, "type"@)) == Some("agentMessage"@);
                match json::text_of(json::entry(item, "text"@)) {
                    Some(said) => if completed && text::trim(said).len() > 0 {
                        next.1 == TitleStepView::Finish(Some(text::trim(said)))
                    } else {
                        next == (exchange, TitleStepView::Read)
                    },
                    None => next == (exchange, TitleStepView::Read),
                }
            }
        }),
{
}

/// A line that is no frame is passed over; a frame is read as it stands.
pub proof fn lines_are_read_as_frames(exchange: TitleExchangeView, line: Seq<char>)
    ensures
        json::json_of_text(line) is None ==> on_line(exchange, line) == (exchange, TitleStepView::Read),
        json::json_of_text(line) matches Some(frame) ==> on_line(exchange, line) == on_frame(
            exchange,
            frame,
        ),
        finishing(exchange, None).1 == TitleStepView::Finish(None),
        finishing(exchange, None).0.phase == TitlePhase::Ended,
{
}

} // verus!
