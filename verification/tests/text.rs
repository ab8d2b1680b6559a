use saydone_channels::json::{Json, json_line, read_json};
use saydone_channels::text::{
    collapsed, comes_before, decimal_text, first_bytes, last_bytes, leading_chars, lowered, split_at_char,
    split_at_first, split_at_last, stripped_suffixes, trimmed, trimmed_end, unified_newlines,
};

#[test]
fn white_space_is_trimmed_and_collapsed() {
    assert_eq!(trimmed("\u{3000} a b\u{2028}\n"), "a b");
    assert_eq!(trimmed_end(" a \t"), " a");
    assert_eq!(trimmed(" \u{a0}\u{85} "), "");
    assert_eq!(trimmed("\u{200b}a"), "\u{200b}a");
    assert_eq!(collapsed("  a \t\r\n b\u{1680}c "), "a b c");
    assert_eq!(collapsed(&collapsed(" x  y ")), "x y");
    for c in (0..=0x10ffff_u32).filter_map(char::from_u32) {
        let text = format!("{c}x");
        assert_eq!(trimmed(&text) == "x", c.is_whitespace(), "U+{:04X}", c as u32);
    }
}

#[test]
fn texts_are_split() {
    assert_eq!(split_at_char("a\n\nb\n", '\n'), vec!["a", "", "b", ""]);
    assert_eq!(split_at_char("", '\n'), vec![""]);
    assert_eq!(split_at_first("a=b=c", '='), Some(("a".to_owned(), "b=c".to_owned())));
    assert_eq!(split_at_first("abc", '='), None);
    assert_eq!(split_at_last("a--b--c", "--"), Some(("a--b".to_owned(), "c".to_owned())));
    assert_eq!(split_at_last("a---b", "--"), Some(("a-".to_owned(), "b".to_owned())));
    assert_eq!(split_at_last("abc", "--"), None);
    assert_eq!(unified_newlines("a\r\nb\r\r\nc\r"), "a\nb\r\nc\r");
    assert_eq!(stripped_suffixes("a.......", "..."), "a.");
    assert_eq!(stripped_suffixes("a", "..."), "a");
}

#[test]
fn characters_and_bytes_are_counted() {
    assert_eq!(leading_chars("日本語", 2), "日本");
    assert_eq!(leading_chars("ab", 5), "ab");
    assert_eq!(first_bytes("日本語", 6), "日本");
    assert_eq!(first_bytes("12345678-9", 8), "12345678");
    assert_eq!(last_bytes("日本語", 6), "本語");
    assert_eq!(last_bytes("abc", 6), "abc");
    assert_eq!(last_bytes("abcdefgh", 6), "cdefgh");
    assert_eq!(last_bytes("é😀é", 6), "😀é");
    assert_eq!(lowered("ÄBC-z"), "Äbc-z");
}

#[test]
fn numbers_are_written_in_decimal() {
    assert_eq!(decimal_text(0), "0");
    assert_eq!(decimal_text(-7), "-7");
    assert_eq!(decimal_text(1_750_000_000_000), "1750000000000");
    assert_eq!(decimal_text(i64::MAX), i64::MAX.to_string());
    assert_eq!(decimal_text(i64::MIN), i64::MIN.to_string());
}

#[test]
fn texts_are_ordered_as_strings_are() {
    let texts = ["", "a", "ab", "b", "：", "\u{ffff}", "\u{10000}", "B"];
    for a in texts {
        for b in texts {
            assert_eq!(comes_before(a, b), a < b, "{a:?} {b:?}");
        }
    }
}

#[test]
fn json_is_read_and_written() {
    let json = read_json(r#"{"b":[1,-2,2.5,true,null],"a":"x\ny"}"#).unwrap();
    assert_eq!(
        json,
        Json::Object(vec![
            ("a".to_owned(), Json::Text("x\ny".to_owned())),
            (
                "b".to_owned(),
                Json::Array(vec![Json::Unsigned(1), Json::Number, Json::Number, Json::Bool(true), Json::Null])
            ),
        ])
    );
    assert_eq!(json.text_at("a"), Some("x\ny"));
    assert_eq!(json.text_at("b"), None);
    assert_eq!(json.get("c"), None);
    assert_eq!(Json::Null.get("a"), None);
    assert!(!json.is_true_at("b"));
    assert_eq!(read_json("{"), None);
    assert_eq!(read_json("1 2"), None);
    assert_eq!(read_json("18446744073709551615"), Some(Json::Unsigned(u64::MAX)));
    assert_eq!(read_json("18446744073709551616"), Some(Json::Number));

    let line = json_line(&Json::Object(vec![
        ("a".to_owned(), Json::Text("x\n\"y\"".to_owned())),
        ("b".to_owned(), Json::Array(vec![Json::Unsigned(7), Json::Bool(false), Json::Null])),
    ]));
    assert_eq!(line, b"{\"a\":\"x\\n\\\"y\\\"\",\"b\":[7,false,null]}\n");
}
