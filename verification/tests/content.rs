use saydone_channels::content::{
    AIONUI_FILES_MARKER, ContentBlock, build_content_blocks, detect_image_media_type, fits_inline, load_image_block,
    strip_attachment_metadata,
};

#[test]
fn converts_supported_image_to_native_block() {
    let image_path = "/tmp/picture.png".to_owned();
    let content = format!("look at this\n\n{AIONUI_FILES_MARKER}\n{image_path}");
    let image = load_image_block("image/png", b"\x89PNG\r\n\x1a\n").unwrap();

    let blocks = build_content_blocks(&content, &vec![image_path.clone()], vec![image]);

    assert_eq!(blocks.len(), 2);
    assert!(matches!(
        &blocks[0],
        ContentBlock::Text { text }
            if text == &format!("look at this\n\n[Attached files]\n{image_path}")
    ));
    assert!(matches!(
        &blocks[1],
        ContentBlock::Image { image_url }
            if image_url.url == "data:image/png;base64,iVBORw0KGgo="
    ));
}

#[test]
fn keeps_extension_only_image_as_path() {
    let image_path = "/tmp/picture.png".to_owned();
    assert_eq!(load_image_block("image/png", b"not an image"), None);

    let blocks = build_content_blocks("inspect", &vec![image_path.clone()], Vec::new());

    assert_eq!(blocks.len(), 1);
    assert!(matches!(
        &blocks[0],
        ContentBlock::Text { text }
            if text == &format!("inspect\n\n[Attached files]\n{image_path}")
    ));
}

#[test]
fn keeps_missing_and_non_image_files_as_paths() {
    let files = vec!["/tmp/missing-image.png".to_owned(), "/tmp/notes.txt".to_owned()];

    let blocks = build_content_blocks("see attachments", &files, Vec::new());

    assert!(matches!(
        &blocks[0],
        ContentBlock::Text { text }
            if text == "see attachments\n\n[Attached files]\n/tmp/missing-image.png\n/tmp/notes.txt"
    ));
    assert_eq!(blocks.len(), 1);
}

#[test]
fn preserves_literal_marker_when_suffix_does_not_match_files() {
    let literal = format!("discuss {AIONUI_FILES_MARKER}\nnot-the-attached-path");

    let blocks = build_content_blocks(&literal, &vec!["/tmp/image.png".to_owned()], Vec::new());

    assert!(matches!(
        &blocks[0],
        ContentBlock::Text { text }
            if text.starts_with(&literal) && text.ends_with("[Attached files]\n/tmp/image.png")
    ));
}

#[test]
fn only_the_last_list_of_the_attachments_is_stripped() {
    let files = vec!["/tmp/a.txt".to_owned(), "/tmp/b.txt".to_owned()];
    let said = format!("first {AIONUI_FILES_MARKER}\n/tmp/a.txt\n/tmp/b.txt\nthen ");
    let content = format!("{said}{AIONUI_FILES_MARKER}\n/tmp/a.txt\r\n\n  /tmp/b.txt ");
    assert_eq!(strip_attachment_metadata(&content, &files), said);
    assert_eq!(strip_attachment_metadata(&said, &files), said);
    assert_eq!(strip_attachment_metadata(&content, &Vec::new()), content);
}

#[test]
fn appends_all_authoritative_attachment_paths() {
    let files = vec!["/tmp/notes.txt".to_owned(), "/tmp/missing-image.png".to_owned()];

    let blocks = build_content_blocks("see attachments", &files, Vec::new());

    assert!(matches!(
        &blocks[0],
        ContentBlock::Text { text }
            if text == "see attachments\n\n[Attached files]\n/tmp/notes.txt\n/tmp/missing-image.png"
    ));
}

#[test]
fn text_alone_and_nothing_at_all() {
    let blocks = build_content_blocks("  just text \n", &Vec::new(), Vec::new());
    assert_eq!(blocks, vec![ContentBlock::Text { text: "just text".to_owned() }]);
    assert_eq!(build_content_blocks(" \n ", &Vec::new(), Vec::new()), Vec::new());
    let blocks = build_content_blocks("", &vec!["a".to_owned()], Vec::new());
    assert_eq!(blocks, vec![ContentBlock::Text { text: "[Attached files]\na".to_owned() }]);
}

#[test]
fn only_the_last_marker_with_the_very_files_is_stripped() {
    let files = vec!["a".to_owned(), "b".to_owned()];
    let marked = format!("x{AIONUI_FILES_MARKER}\na\nb");
    assert_eq!(strip_attachment_metadata(&marked, &files), "x");
    assert_eq!(strip_attachment_metadata(&format!("{marked}{AIONUI_FILES_MARKER}\r\n a \n\n b \n"), &files), marked);
    let swapped = format!("x{AIONUI_FILES_MARKER}\nb\na");
    assert_eq!(strip_attachment_metadata(&swapped, &files), swapped);
    let fewer = format!("x{AIONUI_FILES_MARKER}\na");
    assert_eq!(strip_attachment_metadata(&fewer, &files), fewer);
    let more = format!("x{AIONUI_FILES_MARKER}\na\nb\nc");
    assert_eq!(strip_attachment_metadata(&more, &files), more);
    assert_eq!(strip_attachment_metadata(&marked, &Vec::new()), marked);
}

#[test]
fn image_types_are_told_by_their_bytes() {
    assert_eq!(detect_image_media_type(b"\x89PNG\r\n\x1a\n..."), Some("image/png"));
    assert_eq!(detect_image_media_type(b"\xff\xd8\xff"), Some("image/jpeg"));
    assert_eq!(detect_image_media_type(b"GIF87a"), Some("image/gif"));
    assert_eq!(detect_image_media_type(b"GIF89a-"), Some("image/gif"));
    assert_eq!(detect_image_media_type(b"RIFF....WEBP"), Some("image/webp"));
    assert_eq!(detect_image_media_type(b"RIFF....WEB"), None);
    assert_eq!(detect_image_media_type(b"GIF88a"), None);
    assert_eq!(detect_image_media_type(b""), None);
}

#[test]
fn image_must_be_what_its_name_says() {
    assert_eq!(load_image_block("image/gif", b"\xff\xd8\xff"), None);
    let Some(ContentBlock::Image { image_url }) = load_image_block("image/jpeg", b"\xff\xd8\xff") else {
        panic!("a JPEG is an image");
    };
    assert_eq!(image_url.url, "data:image/jpeg;base64,/9j/");
}

#[test]
fn large_image_stays_a_path() {
    assert!(fits_inline(5 * 1024 * 1024));
    assert!(!fits_inline(5 * 1024 * 1024 + 1));
    let mut bytes = vec![0u8; 5 * 1024 * 1024];
    bytes[0] = 0xff;
    bytes[1] = 0xd8;
    bytes[2] = 0xff;
    let Some(ContentBlock::Image { image_url }) = load_image_block("image/jpeg", &bytes) else {
        panic!("an image of the greatest size is inlined");
    };
    assert_eq!(image_url.url.len(), "data:image/jpeg;base64,".len() + (5 * 1024 * 1024 + 2) / 3 * 4);
    bytes.push(0);
    assert_eq!(load_image_block("image/jpeg", &bytes), None);
}

#[test]
fn base64_is_padded_and_uses_the_standard_alphabet() {
    let url = |tail: &[u8]| {
        let mut bytes = b"\xff\xd8\xff".to_vec();
        bytes.extend_from_slice(tail);
        match load_image_block("image/jpeg", &bytes) {
            Some(ContentBlock::Image { image_url }) => image_url.url,
            other => panic!("no image: {other:?}"),
        }
    };
    assert_eq!(url(b"M"), "data:image/jpeg;base64,/9j/TQ==");
    assert_eq!(url(b"Ma"), "data:image/jpeg;base64,/9j/TWE=");
    assert_eq!(url(b"Man"), "data:image/jpeg;base64,/9j/TWFu");
    assert_eq!(url(&[0xfb, 0xef, 0xbe]), "data:image/jpeg;base64,/9j/++++");
}
