//! A user's message and its attachments as content for a model.
//!
//! Images become blocks of their own, so that a model that can see gets the image itself. Every
//! attachment is also named in the text, for tools that open files.

use base64::Engine;
use vstd::prelude::*;
use vstd::string::*;

use crate::text;
use crate::text::{same_text, split_at_char, split_at_last, trimmed};

verus! {

// ── Blocks ──────────────────────────────────────────────────────────

/// Where an image is to be had.
#[derive(Debug, Clone, PartialEq, Eq)]
pub struct ImageUrl {
    pub url: String,
}

/// The mathematical value of an [`ImageUrl`].
#[verifier::ext_equal]
pub struct ImageUrlView {
    pub url: Seq<char>,
}

impl DeepView for ImageUrl {
    type V = ImageUrlView;

    open spec fn deep_view(&self) -> ImageUrlView {
        ImageUrlView {
            url: self.url@,
        }
    }
}

/// A part of a message to a model.
#[derive(Debug, Clone, PartialEq, Eq)]
pub enum ContentBlock {
    Text {
        text: String,
    },
    Image {
        image_url: ImageUrl,
    },
}

/// The mathematical value of a [`ContentBlock`].
#[verifier::ext_equal]
pub enum ContentBlockView {
    Text {
        text: Seq<char>,
    },
    Image {
        image_url: ImageUrlView,
    },
}

impl DeepView for ContentBlock {
    type V = ContentBlockView;

    open spec fn deep_view(&self) -> ContentBlockView {
        match self {
            ContentBlock::Text { text } => ContentBlockView::Text {
                text: text@,
            },
            ContentBlock::Image { image_url } => ContentBlockView::Image {
                image_url: image_url.deep_view(),
            },
        }
    }
}

// ── The text ────────────────────────────────────────────────────────

/// What separates a text from the list of its attachments.
pub const AIONUI_FILES_MARKER: &'static str = "[[AION_FILES]]";

/// What introduces the attachments in the text for a model.
pub const ATTACHED_FILES_HEADER: &'static str = "[Attached files]";

/// The lines that hold anything, without white space around them.
pub open spec fn bare_lines(lines: Seq<Seq<char>>) -> Seq<Seq<char>>
    decreases lines.len(),
{
    if lines.len() == 0 {
        Seq::empty()
    } else if text::trim(lines.last()).len() == 0 {
        bare_lines(lines.drop_last())
    } else {
        bare_lines(lines.drop_last()).push(text::trim(lines.last()))
    }
}

/// What the user wrote: `content` without the list of attachments behind its last marker. A marker
/// that anything else follows is part of what the user wrote.
pub open spec fn user_text(content: Seq<char>, files: Seq<Seq<char>>) -> Seq<char> {
    if files.len() == 0 {
        content
    } else {
        match text::rsplit_once(content, AIONUI_FILES_MARKER@) {
            Some((head, list)) => if bare_lines(text::split(list, '\n')) == files {
                head
            } else {
                content
            },
            None => content,
        }
    }
}

/// Whether the lines of `list` that hold anything are `files`.
fn lists_files(list: &str, files: &Vec<String>) -> (r: bool)
    ensures
        r == (bare_lines(text::split(list@, '\n')) == files.deep_view()),
{
    let lines = split_at_char(list, '\n');
    let ghost all = lines.deep_view();
    let ghost wanted = files.deep_view();
    let mut found: usize = 0;
    let mut i: usize = 0;
    assert(all.take(0) =~= Seq::empty());
    assert(wanted.take(0) =~= Seq::empty());
    while i < lines.len()
        invariant
            i <= lines@.len(),
            all == lines.deep_view(),
            all == text::split(list@, '\n'),
            wanted == files.deep_view(),
            found <= files@.len(),
            bare_lines(all.take(i as int)) == wanted.take(found as int),
        decreases lines@.len() - i,
    {
        let line = trimmed(lines[i].as_str());
        assert(all.take(i as int + 1).drop_last() =~= all.take(i as int));
        assert(all.take(i as int + 1).last() == lines@[i as int]@);
        if !line.as_str().is_empty() {
            let ghost now = bare_lines(all.take(i as int + 1));
            assert(now == wanted.take(found as int).push(line@));
            if found >= files.len() || !same_text(line.as_str(), files[found].as_str()) {
                proof {
                    lemma_bare_lines_grow(all, i as int + 1, all.len() as int);
                    assert(all.take(all.len() as int) =~= all);
                    assert(now[found as int] == line@);
                    if found < wanted.len() {
                        assert(wanted[found as int] == files@[found as int]@);
                    }
                    assert(bare_lines(all)[found as int] == line@);
                }
                return false;
            }
            assert(wanted[found as int] == files@[found as int]@);
            assert(wanted.take(found as int + 1) =~= wanted.take(found as int).push(line@));
            found = found + 1;
        }
        i = i + 1;
    }
    assert(all.take(all.len() as int) =~= all);
    assert(found == files@.len() ==> wanted.take(found as int) =~= wanted);
    found == files.len()
}

proof fn lemma_bare_lines_grow(lines: Seq<Seq<char>>, a: int, b: int)
    requires
        0 <= a <= b <= lines.len(),
    ensures
        bare_lines(lines.take(a)).len() <= bare_lines(lines.take(b)).len(),
        forall|k: int|
            0 <= k < bare_lines(lines.take(a)).len() ==> bare_lines(lines.take(a))[k]
                == #[trigger] bare_lines(lines.take(b))[k],
    decreases b,
{
    if a < b {
        lemma_bare_lines_grow(lines, a, b - 1);
        assert(lines.take(b).drop_last() =~= lines.take(b - 1));
        let shorter = bare_lines(lines.take(b - 1));
        let longer = bare_lines(lines.take(b));
        assert(forall|k: int| 0 <= k < shorter.len() ==> shorter[k] == longer[k]);
    }
}

/// What the user wrote, without the list of attachments.
pub fn strip_attachment_metadata(content: &str, files: &Vec<String>) -> (r: String)
    ensures
        r@ == user_text(content@, files.deep_view()),
{
    if files.len() == 0 {
        return content.to_owned();
    }
    match split_at_last(content, AIONUI_FILES_MARKER) {
        Some((head, list)) => if lists_files(list.as_str(), files) {
            head
        } else {
            content.to_owned()
        },
        None => content.to_owned(),
    }
}

/// `files`, each on a line of its own.
pub open spec fn file_lines(files: Seq<Seq<char>>) -> Seq<char>
    decreases files.len(),
{
    if files.len() == 0 {
        Seq::empty()
    } else {
        file_lines(files.drop_last()) + seq!['\n'] + files.last()
    }
}

/// The text for a model: what the user wrote, and the attachments by name.
pub open spec fn model_text(content: Seq<char>, files: Seq<Seq<char>>) -> Seq<char> {
    let said = text::trim(user_text(content, files));
    if files.len() == 0 {
        said
    } else {
        said + (if said.len() > 0 {
            "\n\n"@
        } else {
            Seq::empty()
        }) + ATTACHED_FILES_HEADER@ + file_lines(files)
    }
}

/// The content for a model: the text, if there is any, and then the images.
pub open spec fn content_blocks(
    content: Seq<char>,
    files: Seq<Seq<char>>,
    images: Seq<ContentBlockView>,
) -> Seq<ContentBlockView> {
    let text = model_text(content, files);
    if text.len() == 0 {
        images
    } else {
        seq![ContentBlockView::Text { text }] + images
    }
}

/// The content for a model: the text of a message with its attachments, and then `images`, the
/// blocks of those attachments that [`load_image_block`] takes for images.
pub fn build_content_blocks(content: &str, files: &Vec<String>, images: Vec<ContentBlock>) -> (r: Vec<
    ContentBlock,
>)
    ensures
        r.deep_view() == content_blocks(content@, files.deep_view(), images.deep_view()),
{
    let stripped = strip_attachment_metadata(content, files);
    let mut text = trimmed(stripped.as_str());
    let ghost said = text@;
    let ghost all = files.deep_view();
    if files.len() > 0 {
        if !text.as_str().is_empty() {
            text.append("\n\n");
        }
        text.append(ATTACHED_FILES_HEADER);
        let ghost head = text@;
        let mut i: usize = 0;
        assert(all.take(0) =~= Seq::empty());
        assert(head + file_lines(all.take(0)) =~= head);
        while i < files.len()
            invariant
                i <= files@.len(),
                all == files.deep_view(),
                text@ == head + file_lines(all.take(i as int)),
            decreases files@.len() - i,
        {
            assert(all.take(i as int + 1).drop_last() =~= all.take(i as int));
            assert(all.take(i as int + 1).last() == files@[i as int]@);
            text.push('\n');
            text.append(files[i].as_str());
            assert(text@ =~= head + (file_lines(all.take(i as int)) + seq!['\n']
                + files@[i as int]@));
            i = i + 1;
        }
        assert(all.take(all.len() as int) =~= all);
        assert(text@ =~= model_text(content@, all));
    }
    let mut blocks: Vec<ContentBlock> = Vec::new();
    if !text.as_str().is_empty() {
        blocks.push(ContentBlock::Text { text });
    }
    let ghost first = blocks.deep_view();
    let ghost given = images.deep_view();
    let mut rest = images;
    blocks.append(&mut rest);
    assert(blocks.deep_view() =~= first + given);
    assert(blocks.deep_view() =~= content_blocks(content@, all, given));
    blocks
}

// ── Images ──────────────────────────────────────────────────────────

/// The most bytes of an image that goes into a message.
pub const MAX_INLINE_IMAGE_BYTES: u64 = 5_242_880;

/// Whether bytes begin with `prefix`, `at` bytes in.
pub open spec fn begins_at(bytes: Seq<u8>, at: int, prefix: Seq<u8>) -> bool {
    at + prefix.len() <= bytes.len() && bytes.subrange(at, at + prefix.len()) == prefix
}

/// The type of an image, by how its bytes begin.
pub open spec fn image_type(bytes: Seq<u8>) -> Option<Seq<char>> {
    if begins_at(bytes, 0, seq![0x89u8, 0x50, 0x4e, 0x47, 0x0d, 0x0a, 0x1a, 0x0a]) {
        Some("image/png"@)
    } else if begins_at(bytes, 0, seq![0xffu8, 0xd8, 0xff]) {
        Some("image/jpeg"@)
    } else if begins_at(bytes, 0, seq![0x47u8, 0x49, 0x46, 0x38, 0x37, 0x61]) || begins_at(
        bytes,
        0,
        seq![0x47u8, 0x49, 0x46, 0x38, 0x39, 0x61],
    ) {
        Some("image/gif"@)
    } else if begins_at(bytes, 0, seq![0x52u8, 0x49, 0x46, 0x46]) && begins_at(
        bytes,
        8,
        seq![0x57u8, 0x45, 0x42, 0x50],
    ) {
        Some("image/webp"@)
    } else {
        None
    }
}

fn bytes_at(bytes: &[u8], at: usize, prefix: Vec<u8>) -> (r: bool)
    ensures
        r == begins_at(bytes@, at as int, prefix@),
{
    if at > bytes.len() || prefix.len() > bytes.len() - at {
        return false;
    }
    let mut k: usize = 0;
    while k < prefix.len()
        invariant
            k <= prefix@.len(),
            at + prefix.len() <= bytes.len(),
            forall|j: int| 0 <= j < k ==> bytes@[at + j] == prefix@[j],
        decreases prefix@.len() - k,
    {
        if bytes[at + k] != prefix[k] {
            proof {
                let cut = bytes@.subrange(at as int, at + prefix@.len());
                assert(cut[k as int] == bytes@[at + k]);
            }
            return false;
        }
        k = k + 1;
    }
    assert(bytes@.subrange(at as int, at + prefix@.len()) =~= prefix@);
    true
}

/// The type of an image, by how its bytes begin.
pub fn detect_image_media_type(bytes: &[u8]) -> (r: Option<&'static str>)
    ensures
        r.deep_view() == image_type(bytes@),
{
    if bytes_at(bytes, 0, vec![0x89, 0x50, 0x4e, 0x47, 0x0d, 0x0a, 0x1a, 0x0a]) {
        Some("image/png")
    } else if bytes_at(bytes, 0, vec![0xff, 0xd8, 0xff]) {
        Some("image/jpeg")
    } else if bytes_at(bytes, 0, vec![0x47, 0x49, 0x46, 0x38, 0x37, 0x61]) || bytes_at(
        bytes,
        0,
        vec![0x47, 0x49, 0x46, 0x38, 0x39, 0x61],
    ) {
        Some("image/gif")
    } else if bytes_at(bytes, 0, vec![0x52, 0x49, 0x46, 0x46]) && bytes_at(
        bytes,
        8,
        vec![0x57, 0x45, 0x42, 0x50],
    ) {
        Some("image/webp")
    } else {
        None
    }
}

/// The character of the standard base64 alphabet for six bits.
pub open spec fn base64_char(bits: int) -> char {
    if bits < 26 {
        (65 + bits) as char
    } else if bits < 52 {
        (71 + bits) as char
    } else if bits < 62 {
        (bits - 4) as char
    } else if bits == 62 {
        '+'
    } else {
        '/'
    }
}

/// Base64 with the standard alphabet: four characters for every three bytes, padded with `=`.
pub open spec fn base64_text(bytes: Seq<u8>) -> Seq<char>
    decreases bytes.len(),
{
    if bytes.len() == 0 {
        Seq::empty()
    } else {
        let a = bytes[0] as int;
        let b = if bytes.len() > 1 {
            bytes[1] as int
        } else {
            0
        };
        let c = if bytes.len() > 2 {
            bytes[2] as int
        } else {
            0
        };
        let group = seq![
            base64_char(a / 4),
            base64_char(a % 4 * 16 + b / 16),
            if bytes.len() > 1 {
                base64_char(b % 16 * 4 + c / 64)
            } else {
                '='
            },
            if bytes.len() > 2 {
                base64_char(c % 64)
            } else {
                '='
            },
        ];
        if bytes.len() <= 3 {
            group
        } else {
            group + base64_text(bytes.skip(3))
        }
    }
}

/// Calls `Engine::encode` of the `base64` crate on its `STANDARD` engine, which encodes with the
/// standard alphabet and padding. It panics only where the length of the text would exceed `usize`.
#[verifier::external_body]
fn encode_base64(bytes: &[u8]) -> (r: String)
    requires
        bytes@.len() <= MAX_INLINE_IMAGE_BYTES,
    ensures
        r@ == base64_text(bytes@),
{
    base64::engine::general_purpose::STANDARD.encode(bytes)
}

/// The block of an image: its bytes in a data URL, where they are not too many and are what their
/// file's name says they are.
pub open spec fn image_block(media_type: Seq<char>, bytes: Seq<u8>) -> Option<ContentBlockView> {
    if bytes.len() <= MAX_INLINE_IMAGE_BYTES && image_type(bytes) == Some(media_type) {
        Some(
            ContentBlockView::Image {
                image_url: ImageUrlView {
                    url: "data:"@ + media_type + ";base64,"@ + base64_text(bytes),
                },
            },
        )
    } else {
        None
    }
}

/// Whether a file of that length may go into a message.
pub fn fits_inline(len: u64) -> (r: bool)
    ensures
        r == (len <= MAX_INLINE_IMAGE_BYTES),
{
    len <= MAX_INLINE_IMAGE_BYTES
}

/// The block of an image with these bytes. `media_type` is the type that its file's name promises.
pub fn load_image_block(media_type: &str, bytes: &[u8]) -> (r: Option<ContentBlock>)
    ensures
        r.deep_view() == image_block(media_type@, bytes@),
{
    if !fits_inline(bytes.len() as u64) {
        return None;
    }
    match detect_image_media_type(bytes) {
        Some(detected) => {
            if !same_text(detected, media_type) {
                return None;
            }
            let encoded = encode_base64(bytes);
            let url = "data:".to_owned().concat(detected).concat(";base64,").concat(encoded.as_str());
            Some(ContentBlock::Image { image_url: ImageUrl { url } })
        },
        None => None,
    }
}

// ── Laws ────────────────────────────────────────────────────────────

/// Every attachment is named in the text, whether it becomes an image or not: the text ends with
/// the header and the names.
pub proof fn every_attachment_is_named(content: Seq<char>, files: Seq<Seq<char>>)
    requires
        files.len() > 0,
    ensures
        ({
            let tail = ATTACHED_FILES_HEADER@ + file_lines(files);
            text::occurs_at(
                model_text(content, files),
                tail,
                model_text(content, files).len() - tail.len(),
            )
        }),
{
    let tail = ATTACHED_FILES_HEADER@ + file_lines(files);
    let whole = model_text(content, files);
    assert(whole.subrange(whole.len() - tail.len(), whole.len() as int) =~= tail);
}

proof fn lemma_bare_lines_of_file_lines(files: Seq<Seq<char>>)
    requires
        forall|i: int| 0 <= i < files.len() ==> is_listable(#[trigger] files[i]),
    ensures
        bare_lines(text::split(file_lines(files), '\n')) == files,
    decreases files.len(),
{
    if files.len() == 0 {
        let lines = text::split(file_lines(files), '\n');
        assert(lines.last() == Seq::<char>::empty());
        assert(text::trim(lines.last()).len() == 0);
        assert(lines.drop_last() =~= Seq::empty());
        assert(bare_lines(lines.drop_last()).len() == 0);
        assert(bare_lines(lines) =~= files);
    } else {
        let earlier = files.drop_last();
        let last = files.last();
        assert forall|i: int| 0 <= i < earlier.len() implies is_listable(#[trigger] earlier[i]) by {
            assert(is_listable(files[i]));
        }
        lemma_bare_lines_of_file_lines(earlier);
        assert(is_listable(files[files.len() - 1]));
        text::split_of_appended_piece(file_lines(earlier), '\n', last);
        let lines = text::split(file_lines(earlier), '\n');
        assert(lines.push(last).drop_last() =~= lines);
        assert(earlier.push(last) =~= files);
    }
}

/// Whether a name can stand in a list of attachments: it is one line with nothing around it.
pub open spec fn is_listable(file: Seq<char>) -> bool {
    file.len() > 0 && text::trim(file) == file && !file.contains('\n')
}

/// The list of attachments that follows the last marker of a message is no part of what the user
/// wrote: everything before the marker is.
pub proof fn attached_list_is_stripped(said: Seq<char>, files: Seq<Seq<char>>)
    requires
        files.len() > 0,
        forall|i: int| 0 <= i < files.len() ==> is_listable(#[trigger] files[i]),
        forall|at: int|
            at > said.len() ==> !#[trigger] text::occurs_at(
                said + AIONUI_FILES_MARKER@ + file_lines(files),
                AIONUI_FILES_MARKER@,
                at,
            ),
    ensures
        user_text(said + AIONUI_FILES_MARKER@ + file_lines(files), files) == said,
{
    let content = said + AIONUI_FILES_MARKER@ + file_lines(files);
    let at = said.len() as int;
    let end = at + AIONUI_FILES_MARKER@.len();
    assert(content.subrange(at, end) =~= AIONUI_FILES_MARKER@);
    text::last_occurrence_is_found(content, AIONUI_FILES_MARKER@, at, content.len() as int);
    assert(content.take(at) =~= said);
    assert(content.skip(end) =~= file_lines(files));
    lemma_bare_lines_of_file_lines(files);
}

/// Nothing else is stripped: what is taken off is a marker and a list of exactly the attachments.
pub proof fn only_the_list_is_stripped(content: Seq<char>, files: Seq<Seq<char>>)
    ensures
        user_text(content, files) != content ==> exists|list: Seq<char>|
            content == user_text(content, files) + AIONUI_FILES_MARKER@ + list && bare_lines(
                #[trigger] text::split(list, '\n'),
            ) == files,
{
    let marker = AIONUI_FILES_MARKER@;
    text::last_occurrence_occurs(content, marker, content.len() as int);
    if user_text(content, files) != content {
        let at = text::last_occurrence(content, marker, content.len() as int)->Some_0;
        let list = content.skip(at + marker.len());
        assert(bare_lines(text::split(list, '\n')) == files);
        assert(content =~= content.take(at) + content.subrange(at, at + marker.len()) + list);
    }
}

/// A message without attachments stays what the user wrote, whatever markers are in it.
pub proof fn text_without_attachments_is_kept(content: Seq<char>)
    ensures
        model_text(content, Seq::empty()) == text::trim(content),
{
}

/// The images come after the text, all of them and in order.
pub proof fn images_follow_the_text(
    content: Seq<char>,
    files: Seq<Seq<char>>,
    images: Seq<ContentBlockView>,
)
    ensures
        ({
            let blocks = content_blocks(content, files, images);
            let from = blocks.len() - images.len();
            &&& from == 0 || (from == 1 && blocks[0] is Text)
            &&& blocks.skip(from) == images
        }),
{
    let blocks = content_blocks(content, files, images);
    assert(blocks.skip(blocks.len() - images.len()) =~= images);
}

/// Base64 takes four characters for every three bytes begun.
pub proof fn base64_length(bytes: Seq<u8>)
    ensures
        base64_text(bytes).len() == (bytes.len() + 2) / 3 * 4,
    decreases bytes.len(),
{
    if bytes.len() > 3 {
        base64_length(bytes.skip(3));
    }
}

/// A message with attachments goes to the model as the user wrote it: with nothing around it but
/// complete, and then, a blank line apart where the user wrote anything, the header and the names.
/// Here the message carries no list of its own.
pub proof fn whole_text_goes_to_the_model(
    content: Seq<char>,
    files: Seq<Seq<char>>,
    images: Seq<ContentBlockView>,
)
    requires
        files.len() > 0,
        forall|at: int| !#[trigger] text::occurs_at(content, AIONUI_FILES_MARKER@, at),
    ensures
        ({
            let blocks = content_blocks(content, files, images);
            let said = text::trim(content);
            &&& blocks.len() == images.len() + 1
            &&& blocks[0] matches ContentBlockView::Text { text } && {
                &&& text.len() >= said.len()
                &&& text.take(said.len() as int) == said
                &&& said.len() == 0 ==> text == "[Attached files]"@ + file_lines(files)
                &&& said.len() > 0 ==> text.skip(said.len() as int) == "\n\n"@ + "[Attached files]"@
                    + file_lines(files)
            }
        }),
{
    text::last_occurrence_occurs(content, AIONUI_FILES_MARKER@, content.len() as int);
    lemma_model_text(content, files, content);
}

proof fn lemma_model_text(content: Seq<char>, files: Seq<Seq<char>>, wrote: Seq<char>)
    requires
        files.len() > 0,
        user_text(content, files) == wrote,
    ensures
        ({
            let text = model_text(content, files);
            let said = text::trim(wrote);
            &&& text.len() > 0
            &&& text.len() >= said.len()
            &&& text.take(said.len() as int) == said
            &&& said.len() == 0 ==> text == "[Attached files]"@ + file_lines(files)
            &&& said.len() > 0 ==> text.skip(said.len() as int) == "\n\n"@ + "[Attached files]"@
                + file_lines(files)
        }),
{
    reveal_strlit("[Attached files]");
    let text = model_text(content, files);
    let said = text::trim(wrote);
    assert(text.take(said.len() as int) =~= said);
    if said.len() == 0 {
        assert(text =~= "[Attached files]"@ + file_lines(files));
    } else {
        assert(text.skip(said.len() as int) =~= "\n\n"@ + "[Attached files]"@ + file_lines(files));
    }
}

/// The same of a message that carries the list of its attachments behind the marker: the user wrote
/// what stands before the marker, and the model gets the whole of it.
pub proof fn whole_text_before_the_list_goes_to_the_model(
    wrote: Seq<char>,
    files: Seq<Seq<char>>,
    images: Seq<ContentBlockView>,
)
    requires
        files.len() > 0,
        forall|i: int| 0 <= i < files.len() ==> is_listable(#[trigger] files[i]),
        forall|at: int|
            at > wrote.len() ==> !#[trigger] text::occurs_at(
                wrote + AIONUI_FILES_MARKER@ + file_lines(files),
                AIONUI_FILES_MARKER@,
                at,
            ),
    ensures
        ({
            let blocks = content_blocks(
                wrote + AIONUI_FILES_MARKER@ + file_lines(files),
                files,
                images,
            );
            let said = text::trim(wrote);
            &&& blocks.len() == images.len() + 1
            &&& blocks[0] matches ContentBlockView::Text { text } && {
                &&& text.len() >= said.len()
                &&& text.take(said.len() as int) == said
                &&& said.len() == 0 ==> text == "[Attached files]"@ + file_lines(files)
                &&& said.len() > 0 ==> text.skip(said.len() as int) == "\n\n"@ + "[Attached files]"@
                    + file_lines(files)
            }
        }),
{
    attached_list_is_stripped(wrote, files);
    lemma_model_text(wrote + AIONUI_FILES_MARKER@ + file_lines(files), files, wrote);
}

/// Whatever a message holds, the text for the model begins with what the user wrote, and what the user
/// wrote is the message or its beginning up to a marker behind which exactly the attachments are
/// listed.
pub proof fn model_gets_what_the_user_wrote(content: Seq<char>, files: Seq<Seq<char>>)
    requires
        files.len() > 0,
    ensures
        exists|wrote: Seq<char>|
            ({
                let said = #[trigger] text::trim(wrote);
                let text = model_text(content, files);
                &&& wrote == content || exists|list: Seq<char>|
                    content == wrote + AIONUI_FILES_MARKER@ + list && bare_lines(
                        #[trigger] text::split(list, '\n'),
                    ) == files
                &&& text == if said.len() == 0 {
                    "[Attached files]"@ + file_lines(files)
                } else {
                    said + "\n\n"@ + "[Attached files]"@ + file_lines(files)
                }
            }),
{
    let wrote = user_text(content, files);
    let said = text::trim(wrote);
    only_the_list_is_stripped(content, files);
    if said.len() == 0 {
        assert(model_text(content, files) =~= "[Attached files]"@ + file_lines(files));
    } else {
        assert(model_text(content, files) =~= said + "\n\n"@ + "[Attached files]"@ + file_lines(files));
    }
}

/// A message without attachments goes to the model as it is, with nothing around it and nothing added;
/// a blank one is left out.
pub proof fn plain_text_goes_to_the_model(content: Seq<char>, images: Seq<ContentBlockView>)
    ensures
        ({
            let blocks = content_blocks(content, Seq::empty(), images);
            if text::trim(content).len() == 0 {
                blocks == images
            } else {
                blocks == seq![ContentBlockView::Text { text: text::trim(content) }] + images
            }
        }),
{
}

/// Each attachment stands on a line of its own, in order.
pub proof fn attachments_stand_on_their_lines(files: Seq<Seq<char>>, file: Seq<char>)
    ensures
        file_lines(Seq::empty()) == Seq::<char>::empty(),
        file_lines(files.push(file)) == file_lines(files).push('\n') + file,
{
    assert(files.push(file).drop_last() =~= files);
    assert(file_lines(files.push(file)) =~= file_lines(files).push('\n') + file);
}

/// The lines of a list are taken without white space around them, and blank ones do not count.
pub proof fn blank_lines_do_not_count(lines: Seq<Seq<char>>, line: Seq<char>)
    ensures
        bare_lines(Seq::empty()) == Seq::<Seq<char>>::empty(),
        text::trim(line).len() == 0 ==> bare_lines(lines.push(line)) == bare_lines(lines),
        text::trim(line).len() > 0 ==> bare_lines(lines.push(line)) == bare_lines(lines).push(
            text::trim(line),
        ),
{
    assert(lines.push(line).drop_last() =~= lines);
}

/// Bytes are taken for an image by what they begin with, and for nothing else.
pub proof fn images_are_known_by_their_first_bytes(bytes: Seq<u8>)
    ensures
        image_type(bytes) == Some("image/png"@) <==> bytes.len() >= 8 && bytes.take(8) == seq![
            0x89u8,
            0x50,
            0x4e,
            0x47,
            0x0d,
            0x0a,
            0x1a,
            0x0a,
        ],
        image_type(bytes) == Some("image/jpeg"@) <==> bytes.len() >= 3 && bytes.take(3) == seq![
            0xffu8,
            0xd8,
            0xff,
        ],
        image_type(bytes) == Some("image/gif"@) <==> bytes.len() >= 6 && (bytes.take(6) == seq![
            0x47u8,
            0x49,
            0x46,
            0x38,
            0x37,
            0x61,
        ] || bytes.take(6) == seq![0x47u8, 0x49, 0x46, 0x38, 0x39, 0x61]),
        image_type(bytes) == Some("image/webp"@) <==> bytes.len() >= 12 && bytes.take(4) == seq![
            0x52u8,
            0x49,
            0x46,
            0x46,
        ] && bytes.subrange(8, 12) == seq![0x57u8, 0x45, 0x42, 0x50],
        image_type(bytes) matches Some(kind) ==> kind == "image/png"@ || kind == "image/jpeg"@ || kind
            == "image/gif"@ || kind == "image/webp"@,
{
    reveal_strlit("image/png");
    reveal_strlit("image/jpeg");
    reveal_strlit("image/gif");
    reveal_strlit("image/webp");
    assert("image/png"@[6] == 'p');
    assert("image/jpeg"@[6] == 'j');
    assert("image/gif"@[6] == 'g');
    assert("image/webp"@[6] == 'w');
    if bytes.len() >= 12 {
        assert(bytes[0] == bytes.take(8)[0]);
        assert(bytes[0] == bytes.take(4)[0]);
    }
    if bytes.len() >= 8 {
        assert(bytes.subrange(0, 8) =~= bytes.take(8));
        assert(bytes[0] == bytes.take(8)[0]);
    }
    if bytes.len() >= 6 {
        assert(bytes.subrange(0, 6) =~= bytes.take(6));
        assert(bytes[0] == bytes.take(6)[0]);
    }
    if bytes.len() >= 4 {
        assert(bytes.subrange(0, 4) =~= bytes.take(4));
        assert(bytes[0] == bytes.take(4)[0]);
    }
    if bytes.len() >= 3 {
        assert(bytes.subrange(0, 3) =~= bytes.take(3));
        assert(bytes[0] == bytes.take(3)[0]);
    }
}

/// An image goes into a message where it has no more than five megabytes and is what its name says;
/// then the whole of it does, in a data URL of its type.
pub proof fn image_goes_in_whole(media_type: Seq<char>, bytes: Seq<u8>)
    ensures
        image_block(media_type, bytes) is Some <==> bytes.len() <= 5 * 1024 * 1024 && image_type(bytes)
            == Some(media_type),
        image_block(media_type, bytes) matches Some(block) ==> block == (ContentBlockView::Image {
            image_url: ImageUrlView {
                url: "data:"@ + media_type + ";base64,"@ + base64_text(bytes),
            },
        }),
{
}

/// A list of the attachments is taken off however it is laid out: with blank lines, or with white space
/// around the names.
pub proof fn list_is_stripped_however_it_is_laid_out(
    wrote: Seq<char>,
    list: Seq<char>,
    files: Seq<Seq<char>>,
)
    requires
        files.len() > 0,
        bare_lines(text::split(list, '\n')) == files,
        forall|at: int|
            at > wrote.len() ==> !#[trigger] text::occurs_at(
                wrote + AIONUI_FILES_MARKER@ + list,
                AIONUI_FILES_MARKER@,
                at,
            ),
    ensures
        user_text(wrote + AIONUI_FILES_MARKER@ + list, files) == wrote,
{
    let content = wrote + AIONUI_FILES_MARKER@ + list;
    let at = wrote.len() as int;
    let end = at + AIONUI_FILES_MARKER@.len();
    assert(content.subrange(at, end) =~= AIONUI_FILES_MARKER@);
    text::last_occurrence_is_found(content, AIONUI_FILES_MARKER@, at, content.len() as int);
    assert(content.take(at) =~= wrote);
    assert(content.skip(end) =~= list);
}

} // verus!
