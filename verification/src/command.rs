//! Text commands: what a message has to say to start a session or show the help.

use vstd::prelude::*;
use vstd::string::*;

use crate::text;
use crate::text::{collapsed, lowered, same_text, split_at_first, to_chars};

verus! {

/// Characters that a chat client may slip into a text and nobody sees.
pub open spec fn is_invisible(c: char) -> bool {
    c == '\u{200b}' || c == '\u{200c}' || c == '\u{200d}' || c == '\u{2060}' || c == '\u{feff}'
}

/// A wide space as a space and a slash of any kind as a slash.
pub open spec fn folded(c: char) -> char {
    if c == '\u{3000}' {
        ' '
    } else if c == '\u{ff0f}' || c == '\u{2044}' || c == '\u{2215}' {
        '/'
    } else {
        c
    }
}

/// The visible characters of `s`, folded.
pub open spec fn visible(s: Seq<char>) -> Seq<char>
    decreases s.len(),
{
    if s.len() == 0 {
        Seq::empty()
    } else if is_invisible(s.last()) {
        visible(s.drop_last())
    } else {
        visible(s.drop_last()).push(folded(s.last()))
    }
}

/// `s` as a command is read: its visible words, one space apart.
pub open spec fn normalized(s: Seq<char>) -> Seq<char> {
    text::collapse(visible(s))
}

/// `s` as a command is read: its visible words, one space apart.
pub fn normalize_channel_command_text(text: &str) -> (r: String)
    ensures
        r@ == normalized(text@),
{
    let chars = to_chars(text);
    let mut out = String::new();
    let mut i: usize = 0;
    assert(chars@.take(0) =~= Seq::empty());
    while i < chars.len()
        invariant
            i <= chars@.len(),
            out@ == visible(chars@.take(i as int)),
        decreases chars@.len() - i,
    {
        let c = chars[i];
        assert(chars@.take(i as int + 1).drop_last() =~= chars@.take(i as int));
        if c == '\u{200b}' || c == '\u{200c}' || c == '\u{200d}' || c == '\u{2060}' || c
            == '\u{feff}' {
        } else if c == '\u{3000}' {
            out.push(' ');
        } else if c == '\u{ff0f}' || c == '\u{2044}' || c == '\u{2215}' {
            out.push('/');
        } else {
            out.push(c);
        }
        i = i + 1;
    }
    assert(chars@.take(chars@.len() as int) =~= text@);
    collapsed(out.as_str())
}

/// What stands before the first `@`, which addresses a command to one bot of several.
pub open spec fn before_address(s: Seq<char>) -> Seq<char> {
    match text::split_once(s, '@') {
        Some((head, _)) => head,
        None => s,
    }
}

/// The command word of `s`, without capitals and address.
pub open spec fn command_word(s: Seq<char>) -> Seq<char> {
    text::lower(
        before_address(
            match text::split_once(normalized(s), ' ') {
                Some((word, _)) => word,
                None => normalized(s),
            },
        ),
    )
}

/// What follows the command word of `s`.
pub open spec fn command_tail(s: Seq<char>) -> Option<Seq<char>> {
    match text::split_once(normalized(s), ' ') {
        Some((_, tail)) => if tail.len() == 0 {
            None
        } else {
            Some(tail)
        },
        None => None,
    }
}

/// The action that the command in `s` asks for, with what the command is followed by.
pub open spec fn session_command(s: Seq<char>) -> Option<(Seq<char>, Option<Seq<char>>)> {
    if command_word(s) == "/new"@ {
        Some(("session.new"@, command_tail(s)))
    } else if command_word(s) == "/help"@ && command_tail(s) is None {
        Some(("help.show"@, None))
    } else {
        None
    }
}

fn without_address(s: &str) -> (r: String)
    ensures
        r@ == before_address(s@),
{
    match split_at_first(s, '@') {
        Some((head, _)) => head,
        None => s.to_owned(),
    }
}

/// The action that the command in `text` asks for, with what the command is followed by.
pub fn resolve_session_command(text: &str) -> (r: Option<(&'static str, Option<String>)>)
    ensures
        r.deep_view() == session_command(text@),
{
    let normal = normalize_channel_command_text(text);
    let (word, tail) = match split_at_first(normal.as_str(), ' ') {
        Some((word, tail)) => if tail.as_str().is_empty() {
            (word, None)
        } else {
            (word, Some(tail))
        },
        None => (normal, None),
    };
    let command = lowered(without_address(word.as_str()).as_str());
    if same_text(command.as_str(), "/new") {
        Some(("session.new", tail))
    } else if same_text(command.as_str(), "/help") && tail.is_none() {
        Some(("help.show", None))
    } else {
        None
    }
}

// ── Laws ────────────────────────────────────────────────────────────

/// Whether reading `c` as part of a command changes nothing.
spec fn is_fixed(c: char) -> bool {
    !is_invisible(c) && folded(c) == c
}

proof fn lemma_visible_fixed(s: Seq<char>)
    ensures
        forall|i: int| 0 <= i < visible(s).len() ==> is_fixed(#[trigger] visible(s)[i]),
    decreases s.len(),
{
    if s.len() > 0 {
        let init = s.drop_last();
        lemma_visible_fixed(init);
        assert forall|i: int| 0 <= i < visible(s).len() implies is_fixed(
            #[trigger] visible(s)[i],
        ) by {
            if i < visible(init).len() {
                assert(is_fixed(visible(init)[i]));
            }
        }
    }
}

proof fn lemma_fixed_visible(s: Seq<char>)
    requires
        forall|i: int| 0 <= i < s.len() ==> is_fixed(#[trigger] s[i]),
    ensures
        visible(s) == s,
    decreases s.len(),
{
    if s.len() > 0 {
        lemma_fixed_visible(s.drop_last());
        assert(is_fixed(s.last()));
        assert(s =~= s.drop_last().push(s.last()));
    }
}

/// Whether `s` is normal: its words are one space apart with nothing around them, and it has no
/// invisible character, no wide space and no slash but the plain one.
pub open spec fn is_normal(s: Seq<char>) -> bool {
    &&& text::is_collapsed(s)
    &&& forall|i: int| 0 <= i < s.len() ==> !is_invisible(#[trigger] s[i]) && folded(s[i]) == s[i]
}

/// Normalizing makes a text normal.
pub proof fn normalized_text_is_normal(s: Seq<char>)
    ensures
        is_normal(normalized(s)),
{
    let n = normalized(s);
    lemma_visible_fixed(s);
    text::collapse_keeps_characters(visible(s));
    text::collapsing_collapses(visible(s));
    assert forall|i: int| 0 <= i < n.len() implies !is_invisible(#[trigger] n[i]) && folded(n[i])
        == n[i] by {
        if n[i] != ' ' {
            let j = choose|j: int| 0 <= j < visible(s).len() && visible(s)[j] == n[i];
            assert(is_fixed(visible(s)[j]));
        }
    }
}

/// A normal text is its own normal form.
pub proof fn normal_text_is_kept(s: Seq<char>)
    requires
        is_normal(s),
    ensures
        normalized(s) == s,
{
    assert forall|i: int| 0 <= i < s.len() implies is_fixed(#[trigger] s[i]) by {
        assert(!is_invisible(s[i]));
    }
    lemma_fixed_visible(s);
    text::collapsed_text_is_kept(s);
}

/// What follows a command says something, and is normal already.
pub proof fn follow_up_is_normal(s: Seq<char>)
    ensures
        session_command(s) matches Some((_, Some(follow_up))) ==> {
            &&& follow_up.len() > 0
            &&& is_normal(follow_up)
            &&& normalized(follow_up) == follow_up
        },
{
    if let Some((_, Some(tail))) = session_command(s) {
        let n = normalized(s);
        normalized_text_is_normal(s);
        n.index_of_first_ensures(' ');
        let at = n.index_of_first(' ')->Some_0;
        assert(tail == n.skip(at + 1));
        assert(forall|i: int| 0 <= i < tail.len() ==> tail[i] == n[at + 1 + i]);
        assert(text::is_space(n[at]));
        assert(!text::is_space(n[at + 1]));
        assert(is_normal(tail)) by {
            assert forall|i: int| 0 < i < tail.len() && text::is_space(tail[i - 1]) implies !text::is_space(
                #[trigger] tail[i],
            ) by {
                assert(tail[i] == n[at + 1 + i] && tail[i - 1] == n[at + i]);
                assert(n[at + 1 + i - 1] == n[at + i]);
            }
            assert(tail.last() == n.last());
        }
        normal_text_is_kept(tail);
    }
}

/// Normalizing a text that is normal already changes nothing.
pub proof fn normalizing_is_idempotent(s: Seq<char>)
    ensures
        normalized(normalized(s)) == normalized(s),
{
    normalized_text_is_normal(s);
    normal_text_is_kept(normalized(s));
}

/// A command means the same whatever its spacing, its invisible characters and the kind of its
/// slash.
pub proof fn command_reads_the_normal_text(s: Seq<char>)
    ensures
        session_command(normalized(s)) == session_command(s),
{
    normalizing_is_idempotent(s);
}

/// Reading a command goes character by character: what nobody sees is left out, a wide space is a
/// space, a slash of any kind is a slash, and every other character is itself.
pub proof fn characters_are_read_one_by_one(a: Seq<char>, b: Seq<char>, c: char)
    ensures
        visible(a + b) == visible(a) + visible(b),
        c == '\u{200b}' || c == '\u{200c}' || c == '\u{200d}' || c == '\u{2060}' || c == '\u{feff}'
            ==> visible(seq![c]) == Seq::<char>::empty(),
        c == '\u{3000}' ==> visible(seq![c]) == seq![' '],
        c == '/' || c == '\u{ff0f}' || c == '\u{2044}' || c == '\u{2215}' ==> visible(seq![c]) == seq![
            '/',
        ],
        '!' <= c <= '~' || '\u{4e00}' <= c <= '\u{9fff}' || c == ' ' || c == '\n' ==> visible(seq![c])
            == seq![c],
    decreases b.len(),
{
    reveal_with_fuel(visible, 2);
    assert(seq![c].drop_last() =~= Seq::empty());
    assert(Seq::<char>::empty().push(folded(c)) =~= seq![folded(c)]);
    if b.len() == 0 {
        assert(a + b =~= a);
        assert(visible(a) + visible(b) =~= visible(a));
    } else {
        characters_are_read_one_by_one(a, b.drop_last(), c);
        assert((a + b).drop_last() =~= a + b.drop_last());
        assert((a + b).last() == b.last());
        assert(visible(a + b) =~= visible(a) + visible(b));
    }
}

/// What the commands are. The word before an address, in capitals or not, decides: `/new` asks for a
/// new session, with what follows it as a text for that session; `/help`, with nothing behind it, for
/// help; nothing else is a command.
pub proof fn commands_are_read(name: Seq<char>, bot: Option<Seq<char>>, tail: Seq<char>)
    requires
        !name.contains('@'),
        !name.contains(' '),
        bot matches Some(address) ==> !address.contains(' '),
        is_normal(addressed(name, bot)),
        is_normal(addressed(name, bot).push(' ') + tail),
        tail.len() > 0,
    ensures
        ({
            let word = addressed(name, bot);
            let alone = session_command(word);
            let followed = session_command(word.push(' ') + tail);
            &&& text::lower(name) == "/new"@ ==> alone == Some(("session.new"@, None::<Seq<char>>))
                && followed == Some(("session.new"@, Some(tail)))
            &&& text::lower(name) == "/help"@ ==> alone == Some(("help.show"@, None::<Seq<char>>))
                && followed is None
            &&& text::lower(name) != "/new"@ && text::lower(name) != "/help"@ ==> alone is None
                && followed is None
        }),
{
    let word = addressed(name, bot);
    let whole = word.push(' ') + tail;
    assert(!word.contains(' ')) by {
        if word.contains(' ') {
            let i = choose|i: int| 0 <= i < word.len() && word[i] == ' ';
            if i < name.len() {
                assert(name[i] == ' ');
            } else if i > name.len() {
                assert(bot->Some_0[i - name.len() - 1] == ' ');
            }
        }
    }
    normal_text_is_kept(word);
    normal_text_is_kept(whole);
    text::text_is_split_where_it_was_joined(word, ' ', tail);
    if let Some(address) = bot {
        text::text_is_split_where_it_was_joined(name, '@', address);
    } else {
        text::text_is_split_where_it_was_joined(name, '@', Seq::empty());
    }
    assert(before_address(word) == name);
    reveal_strlit("/new");
    reveal_strlit("/help");
    assert("/new"@.len() != "/help"@.len());
}

/// A command word, addressed to one bot of several or to none.
pub open spec fn addressed(name: Seq<char>, bot: Option<Seq<char>>) -> Seq<char> {
    match bot {
        Some(address) => name.push('@') + address,
        None => name,
    }
}

} // verus!
