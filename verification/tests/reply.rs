use saydone_channels::json::read_json;
use saydone_channels::reply::{
    RouteQuery, decode_weixin_message_timestamp, quoted_route_candidates, quoted_text_from_raw, reply_route_queries,
};
use saydone_channels::types::PluginType;

const NOW_MS: i64 = 1_750_000_000_000;

#[test]
fn quoted_route_candidates_normalize_weixin_preview_text() {
    let candidates = quoted_route_candidates(Some("AI：  answer line  \r\n\r\n"));
    assert!(candidates.contains(&"AI：answer line".to_owned()));
    assert!(candidates.contains(&"answer line".to_owned()));
}

#[test]
fn candidates_are_sorted_and_distinct() {
    assert_eq!(
        quoted_route_candidates(Some("you :  hi \n\n  there  you......… ")),
        vec!["hi\nthere you......…", "you:hi\nthere you......", "you:hi\nthere you......…"]
    );
    assert_eq!(quoted_route_candidates(Some("zeta …......")), vec!["zeta", "zeta …......"]);
    assert_eq!(quoted_route_candidates(Some("zeta...")), vec!["zeta", "zeta..."]);
    assert_eq!(quoted_route_candidates(Some("…")), vec!["…"]);
    assert_eq!(quoted_route_candidates(Some("label:")), vec!["label:"]);
    assert_eq!(quoted_route_candidates(Some(" \r\n ")), Vec::<String>::new());
    assert_eq!(quoted_route_candidates(None), Vec::<String>::new());
}

#[test]
fn wide_colon_comes_before_a_plain_one() {
    assert_eq!(quoted_route_candidates(Some("a:b：c")), vec!["a:b：c", "c"]);
}

#[test]
fn decode_weixin_message_timestamp_accepts_snowflake_ids() {
    let expected = NOW_MS;
    let message_id = (u128::try_from(expected).unwrap() * 4_194_304).to_string();
    assert_eq!(decode_weixin_message_timestamp(&message_id, NOW_MS), Some(expected));
}

#[test]
fn decode_weixin_message_timestamp_rejects_non_snowflake_ids() {
    assert_eq!(decode_weixin_message_timestamp("bot-route-42", NOW_MS), None);
    assert_eq!(decode_weixin_message_timestamp("1234", NOW_MS), None);
}

#[test]
fn message_time_must_be_plausible() {
    let id = |ms: i64| (ms as u128 * 4_194_304 + 4_194_303).to_string();
    assert_eq!(decode_weixin_message_timestamp(&id(1_577_836_800_000), NOW_MS), Some(1_577_836_800_000));
    assert_eq!(decode_weixin_message_timestamp(&id(1_577_836_799_999), NOW_MS), None);
    assert_eq!(decode_weixin_message_timestamp(&id(NOW_MS + 86_400_000), NOW_MS), Some(NOW_MS + 86_400_000));
    assert_eq!(decode_weixin_message_timestamp(&id(NOW_MS + 86_400_001), NOW_MS), None);
    assert_eq!(decode_weixin_message_timestamp("73400320000000000000x", NOW_MS), None);
    assert_eq!(decode_weixin_message_timestamp("123456789012345678901", NOW_MS), None);
}

#[test]
fn quoted_text_is_read_from_an_object() {
    let raw = read_json(r#"{"other":1,"quoted_text":"said"}"#);
    assert_eq!(quoted_text_from_raw(raw.as_ref()), Some("said"));
    let raw = read_json(r#"{"quoted_text":7}"#);
    assert_eq!(quoted_text_from_raw(raw.as_ref()), None);
    let raw = read_json("[]");
    assert_eq!(quoted_text_from_raw(raw.as_ref()), None);
    assert_eq!(quoted_text_from_raw(None), None);
}

#[test]
fn questions_are_asked_surest_first() {
    let id = (NOW_MS as u128 * 4_194_304).to_string();
    assert_eq!(
        reply_route_queries(PluginType::Weixin, "c", "u", &id, Some("a: b"), NOW_MS),
        vec![
            RouteQuery::Message { chat_id: "c".to_owned(), message_id: id.clone() },
            RouteQuery::Timestamp { chat_id: "c".to_owned(), reply_timestamp: NOW_MS, max_skew_ms: 3_000 },
            RouteQuery::Preview { chat_id: "c".to_owned(), quoted_text: "a:b".to_owned(), require_unique: true },
            RouteQuery::Preview { chat_id: "c".to_owned(), quoted_text: "b".to_owned(), require_unique: true },
        ]
    );
    assert_eq!(
        reply_route_queries(PluginType::Lark, "c", "u", &id, Some("b"), NOW_MS),
        vec![
            RouteQuery::Message { chat_id: "c".to_owned(), message_id: id.clone() },
            RouteQuery::Message { chat_id: "u".to_owned(), message_id: id.clone() },
            RouteQuery::Preview { chat_id: "c".to_owned(), quoted_text: "b".to_owned(), require_unique: false },
        ]
    );
    assert_eq!(
        reply_route_queries(PluginType::Lark, "u", "u", "m", None, NOW_MS),
        vec![RouteQuery::Message { chat_id: "u".to_owned(), message_id: "m".to_owned() }]
    );
}
