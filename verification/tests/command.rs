use saydone_channels::command::{normalize_channel_command_text, resolve_session_command};

#[test]
fn commands_are_read_in_any_dress() {
    assert_eq!(resolve_session_command("/new"), Some(("session.new", None)));
    assert_eq!(resolve_session_command("  ／NEW@my_bot   hello   world "), Some(("session.new", Some("hello world".to_owned()))));
    assert_eq!(resolve_session_command("\u{200b}/\u{2060}new\u{3000}x"), Some(("session.new", Some("x".to_owned()))));
    assert_eq!(resolve_session_command("\u{2044}help"), Some(("help.show", None)));
    assert_eq!(resolve_session_command("\u{2215}Help@bot"), Some(("help.show", None)));
}

#[test]
fn other_texts_are_no_commands() {
    assert_eq!(resolve_session_command("/help me"), None);
    assert_eq!(resolve_session_command("new"), None);
    assert_eq!(resolve_session_command("/newer"), None);
    assert_eq!(resolve_session_command(""), None);
    assert_eq!(resolve_session_command("@/new"), None);
}

#[test]
fn normalizing_twice_is_normalizing_once() {
    let once = normalize_channel_command_text(" \u{feff}a\u{3000}\u{3000}b\t／c\n");
    assert_eq!(once, "a b /c");
    assert_eq!(normalize_channel_command_text(&once), once);
    assert_eq!(resolve_session_command("/new\u{3000}a"), resolve_session_command("/new a"));
}

#[test]
fn normal_text_has_nothing_to_fold_or_collapse() {
    for text in ["", " \u{200b} ", "\u{3000}a\u{feff}\t\n b ", "/\u{2215}\u{2044}\u{ff0f} c\u{a0}\u{a0}d"] {
        let normal = normalize_channel_command_text(text);
        assert_eq!(normal, normal.split_whitespace().collect::<Vec<_>>().join(" "));
        assert!(!normal.contains(['\u{200b}', '\u{200c}', '\u{200d}', '\u{2060}', '\u{feff}', '\u{3000}']));
        assert!(!normal.contains(['\u{ff0f}', '\u{2044}', '\u{2215}']));
    }
}

#[test]
fn follow_up_is_never_blank_and_normal() {
    let (_, follow_up) = resolve_session_command("/new \u{3000} ／x\u{200b}\u{2003} y \n").unwrap();
    assert_eq!(follow_up.as_deref(), Some("/x y"));
    assert_eq!(normalize_channel_command_text("/x y"), "/x y");
    assert_eq!(resolve_session_command("/new \u{200b} \u{3000}"), Some(("session.new", None)));
}
