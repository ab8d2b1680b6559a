use saydone_channels::json::{Json, read_json};
use saydone_channels::title::{SessionTitle, TitleExchange, TitleGen, TitleRequest, TitleStep, read_title};

/// What a scripted agent sends.
fn scripted_codex() -> Vec<&'static str> {
    vec![
        r#"{"id":1,"result":{"userAgent":"codex","codexHome":"/tmp","platformOs":"macos"}}"#,
        r#"{"id":2,"result":{"thread":{"id":"th-1","ephemeral":true,"preview":""}}}"#,
        r#"{"method":"item/completed","params":{"item":{"type":"agentMessage","id":"msg_1","text":"Fix login bug","phase":"final_answer"},"threadId":"th-1","turnId":"t-1"}}"#,
        r#"{"method":"turn/completed","params":{"threadId":"th-1"}}"#,
    ]
}

/// Runs an exchange against the lines of an agent; gives the title and the bytes written.
fn generate_title(lines: Vec<&str>, request: TitleRequest) -> (Option<String>, Vec<u8>) {
    let mut exchange = TitleExchange::new(request);
    let mut lines = lines.into_iter();
    let mut written = Vec::new();
    let mut step = exchange.start();
    loop {
        step = match step {
            TitleStep::Write(bytes) => {
                written.extend_from_slice(&bytes);
                exchange.written()
            }
            TitleStep::Read => match lines.next() {
                Some(line) => exchange.read_line(line),
                None => exchange.closed(),
            },
            TitleStep::Finish(title) => return (title, written),
        };
    }
}

fn request(description: &str, model: Option<&str>) -> TitleRequest {
    TitleRequest { description: description.to_owned(), model: model.map(String::from) }
}

#[test]
fn a_fresh_latch_emits_the_generated_title() {
    let mut latch = TitleGen::new(true);
    latch.record_first_prompt("my login is broken");

    let request = latch.fire("s-1", "I fixed the redirect.", 0).expect("a fresh latch fires");
    assert_eq!(request.description, "User: my login is broken\n\nAssistant: I fixed the redirect.");
    let (title, _) = generate_title(scripted_codex(), request);

    let announced = latch.finish(title).expect("a title is announced");
    assert_eq!(announced.title, "Fix login bug");
    assert_eq!((announced.session_id.as_str(), announced.turn_gen), ("s-1", 0));
    assert!(!latch.is_armed());
}

#[test]
fn a_resumed_latch_never_fires() {
    let mut latch = TitleGen::new(false);
    latch.record_first_prompt("my login is broken");

    assert_eq!(latch.fire("s-1", "I fixed the redirect.", 0), None);
    assert_eq!(latch.build_description("x"), "Assistant: x");
}

#[test]
fn returns_the_agent_message_as_the_title() {
    let (title, _) = generate_title(
        scripted_codex(),
        request("User: my login is broken\n\nAssistant: I fixed the redirect.", Some("gpt-5")),
    );

    assert_eq!(title.as_deref(), Some("Fix login bug"));
}

#[test]
fn starts_an_ephemeral_thread_on_the_session_model() {
    let (_, written) = generate_title(scripted_codex(), request("User: hi\n\nAssistant: hello", Some("gpt-5.4")));

    let written = String::from_utf8(written).unwrap();
    let start_frame = written
        .lines()
        .find(|l| l.contains(r#""method":"thread/start""#))
        .unwrap_or_else(|| panic!("no thread/start on the wire: {written}"));
    assert!(start_frame.contains(r#""ephemeral":true"#), "frame: {start_frame}");
    assert!(start_frame.contains(r#""model":"gpt-5.4""#), "frame: {start_frame}");
}

#[test]
fn every_frame_is_one_line_with_its_contents() {
    let (title, written) = generate_title(scripted_codex(), request("two\nlines \"quoted\"", None));
    assert_eq!(title.as_deref(), Some("Fix login bug"));
    let written = String::from_utf8(written).unwrap();
    assert!(written.ends_with('\n'));
    let frames: Vec<Json> = written.lines().map(|line| read_json(line).expect("a line is a frame")).collect();
    assert_eq!(frames.len(), 4);
    let id = |frame: &Json| match frame.get("id") {
        Some(Json::Unsigned(id)) => Some(*id),
        _ => None,
    };
    assert_eq!(frames.iter().map(id).collect::<Vec<_>>(), vec![Some(1), None, Some(2), Some(3)]);
    let methods: Vec<_> = frames.iter().map(|frame| frame.text_at("method").unwrap()).collect();
    assert_eq!(methods, vec!["initialize", "initialized", "thread/start", "turn/start"]);
    assert_eq!(
        written.lines().next(),
        Some(r#"{"id":1,"method":"initialize","params":{"clientInfo":{"name":"aionui-title","version":"1"}}}"#)
    );
    assert!(frames[2].get("params").unwrap().get("model").is_none());
    let params = frames[3].get("params").unwrap();
    assert_eq!(params.text_at("threadId"), Some("th-1"));
    let Some(Json::Array(input)) = params.get("input") else {
        panic!("the input is a list");
    };
    assert_eq!(input[0].text_at("text"), Some("two\nlines \"quoted\""));
    assert_eq!(input[0].text_at("type"), Some("text"));
}

#[test]
fn noise_between_the_answers_is_passed_over() {
    let (title, _) = generate_title(
        vec![
            "warming up",
            r#"{"id":9,"result":{}}"#,
            r#"{"id":1,"result":null}"#,
            r#"{"id":1,"result":{}}"#,
            r#"{"id":2,"result":{"thread":{"id":"th-1"}}}"#,
            r#"{"method":"item/started","params":{"item":{"type":"agentMessage","text":"no"}}}"#,
            r#"{"method":"item/completed","params":{"item":{"type":"reasoning","text":"no"}}}"#,
            r#"{"method":"item/completed","params":{"item":{"type":"agentMessage","text":"  "}}}"#,
            r#"{"method":"item/completed","params":{"item":{"type":"agentMessage","text":"  Yes  "}}}"#,
        ],
        request("d", None),
    );
    assert_eq!(title.as_deref(), Some("Yes"));
}

#[test]
fn refusals_and_silence_give_no_title() {
    let cases = vec![
        vec![r#"{"id":1,"error":{}}"#],
        vec![r#"{"id":1,"result":{}}"#, r#"{"id":2,"error":{}}"#],
        vec![r#"{"id":1,"result":{}}"#, r#"{"id":2,"result":{"thread":{}}}"#],
        vec![r#"{"id":1,"result":{}}"#, r#"{"id":2,"result":{"thread":{"id":"t"}}}"#],
        vec![],
    ];
    for lines in cases {
        assert_eq!(generate_title(lines.clone(), request("d", None)).0, None, "{lines:?}");
    }
}

#[test]
fn frames_are_read_apart_from_their_text() {
    let frame = read_json(r#"{"method":"item/completed","params":{"item":{"type":"agentMessage","text":" T "}}}"#);
    assert_eq!(read_title(&frame.unwrap()).as_deref(), Some("T"));
    assert_eq!(read_title(&Json::Null), None);
    let mut exchange = TitleExchange::new(request("d", None));
    exchange.start();
    assert_eq!(exchange.read_frame(&Json::Null), TitleStep::Read);
    let refusal = Json::Object(vec![("id".to_owned(), Json::Unsigned(1))]);
    assert_eq!(exchange.read_frame(&refusal), TitleStep::Finish(None));
}

#[test]
fn three_runs_and_no_more() {
    let mut latch = TitleGen::new(true);
    for _ in 0..3 {
        assert!(latch.fire("s-1", "x", 7).is_some());
        assert_eq!(latch.fire("s-1", "x", 7), None, "one run at a time");
        assert_eq!(latch.finish(None), None);
        assert!(latch.is_armed());
    }
    assert_eq!(latch.fire("s-1", "x", 7), None);
    assert!(!latch.is_armed());
    assert_eq!(latch.fire("s-1", "x", 7), None);
}

#[test]
fn first_prompt_is_kept_and_cut() {
    let mut latch = TitleGen::new(true);
    latch.record_first_prompt("");
    latch.record_first_prompt(&"あ".repeat(1200));
    latch.record_first_prompt("later");
    latch.set_model(Some("m".to_owned()));
    let request = latch.fire("s-1", &"b".repeat(2000), 0).unwrap();
    assert_eq!(request.description, format!("User: {}\n\nAssistant: {}", "あ".repeat(1000), "b".repeat(1000)));
    assert_eq!(request.model.as_deref(), Some("m"));
    let mut silent = TitleGen::new(true);
    silent.record_first_prompt("only");
    assert_eq!(silent.fire("s-1", "", 0).unwrap().description, "User: only");
}

#[test]
fn title_is_announced_for_the_turn_of_its_run() {
    let mut latch = TitleGen::new(true);
    assert_eq!(latch.finish(Some("Nobody asked".to_owned())), None);
    assert!(latch.is_armed());

    assert!(latch.fire("s-1", "x", 3).is_some());
    assert_eq!(latch.finish(None), None);
    assert!(latch.fire("s-1", "x", 4).is_some());
    assert_eq!(latch.fire("s-2", "y", 5), None);
    latch.record_first_prompt("later");
    latch.set_model(Some("m".to_owned()));
    assert_eq!(
        latch.finish(Some("Fix login bug".to_owned())),
        Some(SessionTitle { session_id: "s-1".to_owned(), turn_gen: 4, title: "Fix login bug".to_owned() })
    );
    assert!(!latch.is_armed());
    assert_eq!(latch.fire("s-1", "x", 6), None);
    assert_eq!(latch.finish(Some("Another".to_owned())), None);
}
