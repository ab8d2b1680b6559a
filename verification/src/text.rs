//! Text as sequences of characters.
//!
//! The spec functions here say what trimming, splitting, joining, ordering and
//! digit conversion mean on `Seq<char>`; the executable functions beside them
//! compute exactly that on `str` and `String`.

use vstd::prelude::*;
use vstd::string::*;

verus! {

/// `String::push`: appends one character at the end.
pub assume_specification[ String::push ](s: &mut String, c: char)
    ensures
        final(s)@ == old(s)@.push(c),
;

// ── White space ─────────────────────────────────────────────────────

/// The Unicode `White_Space` property.
pub open spec fn is_space(c: char) -> bool {
    let n = c as u32;
    ||| 0x09 <= n <= 0x0d
    ||| n == 0x20
    ||| n == 0x85
    ||| n == 0xa0
    ||| n == 0x1680
    ||| 0x2000 <= n <= 0x200a
    ||| n == 0x2028
    ||| n == 0x2029
    ||| n == 0x202f
    ||| n == 0x205f
    ||| n == 0x3000
}

/// Whether a character is white space.
pub fn space(c: char) -> (r: bool)
    ensures
        r == is_space(c),
{
    let n: u32 = c as u32;
    (n >= 0x09 && n <= 0x0d) || n == 0x20 || n == 0x85 || n == 0xa0 || n == 0x1680 || (n >= 0x2000
        && n <= 0x200a) || n == 0x2028 || n == 0x2029 || n == 0x202f || n == 0x205f || n == 0x3000
}

// ── Characters of a text ────────────────────────────────────────────

/// The characters of `s`, in order.
pub fn to_chars(s: &str) -> (r: Vec<char>)
    ensures
        r@ == s@,
{
    let mut out: Vec<char> = Vec::new();
    for c in it: s.chars()
        invariant
            out@ == it.seq().take(it.index() as int),
            it.seq() == s@,
    {
        out.push(c);
    }
    out
}

/// The text made of `chars[from..to]`.
pub fn text_between(chars: &Vec<char>, from: usize, to: usize) -> (r: String)
    requires
        from <= to <= chars@.len(),
    ensures
        r@ == chars@.subrange(from as int, to as int),
{
    let mut out = String::new();
    let mut i: usize = from;
    while i < to
        invariant
            from <= i <= to <= chars@.len(),
            out@ == chars@.subrange(from as int, i as int),
        decreases to - i,
    {
        out.push(chars[i]);
        i = i + 1;
        assert(chars@.subrange(from as int, i as int) =~= chars@.subrange(
            from as int,
            i as int - 1,
        ).push(chars@[i as int - 1]));
    }
    out
}

/// Whether two texts are the same.
pub fn same_text(a: &str, b: &str) -> (r: bool)
    ensures
        r == (a@ == b@),
{
    let left: String = a.to_owned();
    let right: String = b.to_owned();
    left == right
}

// ── Trimming ────────────────────────────────────────────────────────

/// `s` without its leading white space.
pub open spec fn trim_start(s: Seq<char>) -> Seq<char>
    decreases s.len(),
{
    if s.len() > 0 && is_space(s[0]) {
        trim_start(s.drop_first())
    } else {
        s
    }
}

/// `s` without its trailing white space.
pub open spec fn trim_end(s: Seq<char>) -> Seq<char>
    decreases s.len(),
{
    if s.len() > 0 && is_space(s.last()) {
        trim_end(s.drop_last())
    } else {
        s
    }
}

/// `s` without its leading and trailing white space.
pub open spec fn trim(s: Seq<char>) -> Seq<char> {
    trim_end(trim_start(s))
}

/// `s` without its trailing white space.
pub fn trimmed_end(s: &str) -> (r: String)
    ensures
        r@ == trim_end(s@),
{
    let chars = to_chars(s);
    let mut to: usize = chars.len();
    assert(chars@.subrange(0, to as int) =~= s@);
    while to > 0 && space(chars[to - 1])
        invariant
            to <= chars@.len(),
            trim_end(chars@.subrange(0, to as int)) == trim_end(s@),
        decreases to,
    {
        assert(chars@.subrange(0, to as int).drop_last() =~= chars@.subrange(0, to as int - 1));
        to = to - 1;
    }
    text_between(&chars, 0, to)
}

/// `s` without its leading and trailing white space.
pub fn trimmed(s: &str) -> (r: String)
    ensures
        r@ == trim(s@),
{
    let chars = to_chars(s);
    let mut from: usize = 0;
    assert(chars@.subrange(0, chars@.len() as int) =~= s@);
    while from < chars.len() && space(chars[from])
        invariant
            from <= chars@.len(),
            trim_start(chars@.subrange(from as int, chars@.len() as int)) == trim_start(s@),
        decreases chars@.len() - from,
    {
        assert(chars@.subrange(from as int, chars@.len() as int).drop_first() =~= chars@.subrange(
            from as int + 1,
            chars@.len() as int,
        ));
        from = from + 1;
    }
    let rest = text_between(&chars, from, chars.len());
    trimmed_end(rest.as_str())
}

/// Trimming twice trims no more than trimming once.
pub proof fn trim_is_idempotent(s: Seq<char>)
    ensures
        trim(trim(s)) == trim(s),
{
    lemma_trim_start_first(s);
    let t = trim_start(s);
    lemma_trim_end_shape(t);
    let u = trim_end(t);
    if u.len() > 0 {
        assert(u[0] == t[0]);
    }
    assert(trim_start(u) == u);
}

proof fn lemma_trim_start_first(s: Seq<char>)
    ensures
        trim_start(s).len() > 0 ==> !is_space(trim_start(s)[0]),
    decreases s.len(),
{
    if s.len() > 0 && is_space(s[0]) {
        lemma_trim_start_first(s.drop_first());
    }
}

/// What trimming the end keeps: a prefix that does not end in white space.
pub proof fn lemma_trim_end_shape(s: Seq<char>)
    ensures
        trim_end(s).len() <= s.len(),
        trim_end(s) == s.take(trim_end(s).len() as int),
        trim_end(s).len() > 0 ==> !is_space(trim_end(s).last()),
    decreases s.len(),
{
    if s.len() > 0 && is_space(s.last()) {
        lemma_trim_end_shape(s.drop_last());
        assert(s.drop_last().take(trim_end(s).len() as int) =~= s.take(trim_end(s).len() as int));
    } else {
        assert(s.take(s.len() as int) =~= s);
    }
}

// ── Splitting and joining ───────────────────────────────────────────

/// The pieces put one after another with `sep` between them.
pub open spec fn join(pieces: Seq<Seq<char>>, sep: Seq<char>) -> Seq<char>
    decreases pieces.len(),
{
    if pieces.len() == 0 {
        Seq::empty()
    } else if pieces.len() == 1 {
        pieces[0]
    } else {
        join(pieces.drop_last(), sep) + sep + pieces.last()
    }
}

/// `pieces` with `c` added at the end of the last one.
pub open spec fn extend_last(pieces: Seq<Seq<char>>, c: char) -> Seq<Seq<char>> {
    pieces.drop_last().push(pieces.last().push(c))
}

/// The maximal runs of characters of `s` that are not white space.
pub open spec fn words(s: Seq<char>) -> Seq<Seq<char>>
    decreases s.len(),
{
    if s.len() == 0 {
        Seq::empty()
    } else if is_space(s.last()) {
        words(s.drop_last())
    } else if s.len() == 1 || is_space(s[s.len() - 2]) {
        words(s.drop_last()).push(seq![s.last()])
    } else {
        extend_last(words(s.drop_last()), s.last())
    }
}

/// The words of `s` with one space between neighbours.
pub open spec fn collapse(s: Seq<char>) -> Seq<char> {
    join(words(s), seq![' '])
}

/// The pieces of `s` between the occurrences of `sep`: one more than those.
pub open spec fn split(s: Seq<char>, sep: char) -> Seq<Seq<char>>
    decreases s.len(),
{
    if s.len() == 0 {
        seq![Seq::empty()]
    } else if s.last() == sep {
        split(s.drop_last(), sep).push(Seq::empty())
    } else {
        extend_last(split(s.drop_last(), sep), s.last())
    }
}

proof fn lemma_words_nonempty(s: Seq<char>)
    ensures
        s.len() > 0 && !is_space(s.last()) ==> words(s).len() >= 1,
    decreases s.len(),
{
    if s.len() > 1 && !is_space(s.last()) {
        lemma_words_nonempty(s.drop_last());
    }
}

proof fn lemma_join_extend(pieces: Seq<Seq<char>>, sep: Seq<char>, c: char)
    requires
        pieces.len() >= 1,
    ensures
        join(extend_last(pieces, c), sep) == join(pieces, sep).push(c),
{
    let longer = extend_last(pieces, c);
    assert(longer.drop_last() =~= pieces.drop_last());
    assert(join(longer, sep) =~= join(pieces, sep).push(c));
}

/// Joining with one piece more puts the separator before it.
pub proof fn join_of_push(pieces: Seq<Seq<char>>, sep: Seq<char>, piece: Seq<char>)
    ensures
        join(pieces.push(piece), sep) == (if pieces.len() == 0 {
            piece
        } else {
            join(pieces, sep) + sep + piece
        }),
{
    assert(pieces.push(piece).drop_last() =~= pieces);
}

/// The words of `s` with one space between neighbours.
pub fn collapsed(s: &str) -> (r: String)
    ensures
        r@ == collapse(s@),
{
    let chars = to_chars(s);
    let mut out = String::new();
    let mut i: usize = 0;
    let mut any: bool = false;
    assert(chars@.take(0) =~= Seq::empty());
    while i < chars.len()
        invariant
            i <= chars@.len(),
            out@ == collapse(chars@.take(i as int)),
            any == (words(chars@.take(i as int)).len() > 0),
        decreases chars@.len() - i,
    {
        let c = chars[i];
        let ghost before = chars@.take(i as int);
        let ghost after = chars@.take(i as int + 1);
        proof {
            assert(after.drop_last() =~= before);
            assert(after.last() == c);
            lemma_words_nonempty(before);
        }
        if !space(c) {
            if i == 0 || space(chars[i - 1]) {
                proof {
                    assert(i > 0 ==> after[after.len() - 2] == chars@[i as int - 1]);
                    join_of_push(words(before), seq![' '], seq![c]);
                    assert(words(after) == words(before).push(seq![c]));
                }
                let ghost kept = out@;
                if any {
                    out.push(' ');
                }
                out.push(c);
                proof {
                    if words(before).len() == 0 {
                        assert(out@ =~= seq![c]);
                    } else {
                        assert(out@ =~= kept + seq![' '] + seq![c]);
                    }
                }
                any = true;
            } else {
                proof {
                    assert(after[after.len() - 2] == chars@[i as int - 1]);
                    assert(before.last() == chars@[i as int - 1]);
                    lemma_join_extend(words(before), seq![' '], c);
                }
                out.push(c);
            }
        }
        i = i + 1;
    }
    assert(chars@.take(chars@.len() as int) =~= s@);
    out
}

/// Whether `s` holds a character and no white space.
pub open spec fn is_word(s: Seq<char>) -> bool {
    s.len() > 0 && forall|i: int| 0 <= i < s.len() ==> !is_space(#[trigger] s[i])
}

proof fn lemma_words_are_words(s: Seq<char>)
    ensures
        forall|k: int| 0 <= k < words(s).len() ==> is_word(#[trigger] words(s)[k]),
    decreases s.len(),
{
    if s.len() > 0 {
        let init = s.drop_last();
        lemma_words_are_words(init);
        if is_space(s.last()) {
        } else if s.len() == 1 || is_space(s[s.len() - 2]) {
            assert(is_word(seq![s.last()]));
        } else {
            lemma_words_nonempty(init);
            assert(is_word(words(init).last()));
            assert(is_word(words(init).last().push(s.last())));
        }
    }
}

proof fn lemma_words_append_word(s: Seq<char>, word: Seq<char>)
    requires
        is_word(word),
        s.len() == 0 || is_space(s.last()),
    ensures
        words(s + word) == words(s).push(word),
    decreases word.len(),
{
    let whole = s + word;
    assert(whole.drop_last() =~= s + word.drop_last());
    if word.len() == 1 {
        assert(s + word.drop_last() =~= s);
        assert(word =~= seq![word.last()]);
        assert(s.len() > 0 ==> whole[whole.len() - 2] == s.last());
    } else {
        let init = word.drop_last();
        assert(is_word(init)) by {
            assert(forall|i: int| 0 <= i < init.len() ==> init[i] == word[i]);
        }
        lemma_words_append_word(s, init);
        assert(whole[whole.len() - 2] == word[word.len() - 2]);
        assert(words(s).push(init).drop_last() =~= words(s));
        assert(init.push(word.last()) =~= word);
    }
}

proof fn lemma_words_of_join(pieces: Seq<Seq<char>>)
    requires
        forall|k: int| 0 <= k < pieces.len() ==> is_word(#[trigger] pieces[k]),
    ensures
        words(join(pieces, seq![' '])) == pieces,
    decreases pieces.len(),
{
    if pieces.len() == 0 {
    } else if pieces.len() == 1 {
        lemma_words_append_word(Seq::empty(), pieces[0]);
        assert(Seq::<char>::empty() + pieces[0] =~= pieces[0]);
        assert(words(Seq::empty()).push(pieces[0]) =~= pieces);
    } else {
        let init = pieces.drop_last();
        assert forall|k: int| 0 <= k < init.len() implies is_word(#[trigger] init[k]) by {
            assert(is_word(pieces[k]));
        }
        lemma_words_of_join(init);
        let head = join(init, seq![' ']) + seq![' '];
        assert(head.drop_last() =~= join(init, seq![' ']));
        assert(words(head) == init);
        lemma_words_append_word(head, pieces.last());
        assert(init.push(pieces.last()) =~= pieces);
    }
}

/// Collapsing the white space of a text twice is the same as once.
pub proof fn collapse_is_idempotent(s: Seq<char>)
    ensures
        collapse(collapse(s)) == collapse(s),
{
    lemma_words_are_words(s);
    lemma_words_of_join(words(s));
}

/// Whether `s` begins with no white space, has no white space but the space, and no two spaces side
/// by side.
pub open spec fn is_spaced(s: Seq<char>) -> bool {
    &&& s.len() > 0 ==> !is_space(s[0])
    &&& forall|i: int| 0 <= i < s.len() && is_space(#[trigger] s[i]) ==> s[i] == ' '
    &&& forall|i: int| 0 < i < s.len() && is_space(s[i - 1]) ==> !is_space(#[trigger] s[i])
}

/// Whether `s` is words with one space between neighbours and nothing around them.
pub open spec fn is_collapsed(s: Seq<char>) -> bool {
    is_spaced(s) && (s.len() > 0 ==> !is_space(s.last()))
}

proof fn lemma_join_is_collapsed(pieces: Seq<Seq<char>>)
    requires
        forall|k: int| 0 <= k < pieces.len() ==> is_word(#[trigger] pieces[k]),
    ensures
        is_collapsed(join(pieces, seq![' '])),
        pieces.len() > 0 ==> join(pieces, seq![' ']).len() > 0,
    decreases pieces.len(),
{
    if pieces.len() == 1 {
        assert(is_word(pieces[0]));
    } else if pieces.len() >= 2 {
        let init = pieces.drop_last();
        assert forall|k: int| 0 <= k < init.len() implies is_word(#[trigger] init[k]) by {
            assert(is_word(pieces[k]));
        }
        lemma_join_is_collapsed(init);
        let head = join(init, seq![' ']);
        let word = pieces[pieces.len() - 1];
        let whole = join(pieces, seq![' ']);
        assert(is_word(word));
        assert(whole == head + seq![' '] + word);
        assert forall|i: int| 0 <= i < whole.len() && is_space(#[trigger] whole[i]) implies whole[i]
            == ' ' by {
            if i < head.len() {
                assert(whole[i] == head[i]);
            } else if i > head.len() {
                assert(whole[i] == word[i - head.len() - 1]);
            }
        }
        assert forall|i: int| 0 < i < whole.len() && is_space(whole[i - 1]) implies !is_space(
            #[trigger] whole[i],
        ) by {
            if i < head.len() {
                assert(whole[i] == head[i] && whole[i - 1] == head[i - 1]);
            } else if i == head.len() {
                assert(whole[i - 1] == head.last());
            } else {
                assert(whole[i] == word[i - head.len() - 1]);
            }
        }
        assert(whole[0] == head[0]);
        assert(whole.last() == word[word.len() - 1]);
    }
}

/// Collapsing leaves one space between words, no other white space, and nothing around them.
pub proof fn collapsing_collapses(s: Seq<char>)
    ensures
        is_collapsed(collapse(s)),
{
    lemma_words_are_words(s);
    lemma_join_is_collapsed(words(s));
}

proof fn lemma_collapse_of_spaced(s: Seq<char>)
    requires
        is_spaced(s),
    ensures
        collapse(s) == (if s.len() > 0 && is_space(s.last()) {
            s.drop_last()
        } else {
            s
        }),
    decreases s.len(),
{
    if s.len() > 0 {
        let init = s.drop_last();
        let c = s.last();
        assert(is_spaced(init)) by {
            assert(forall|i: int| 0 <= i < init.len() ==> init[i] == s[i]);
        }
        lemma_collapse_of_spaced(init);
        lemma_words_nonempty(init);
        if is_space(c) {
            assert(s.len() > 1);
            assert(!is_space(s[s.len() - 2])) by {
                if is_space(s[s.len() - 2]) {
                    assert(!is_space(s[s.len() - 1]));
                }
            }
            assert(init.last() == s[s.len() - 2]);
        } else if s.len() == 1 {
            join_of_push(words(init), seq![' '], seq![c]);
            assert(s =~= seq![c]);
        } else if is_space(s[s.len() - 2]) {
            assert(init.last() == ' ');
            assert(init.len() > 1);
            assert(collapse(init) == init.drop_last());
            assert(init.drop_last().len() > 0);
            assert(words(init).len() > 0) by {
                if words(init).len() == 0 {
                    assert(join(words(init), seq![' ']).len() == 0);
                }
            }
            join_of_push(words(init), seq![' '], seq![c]);
            assert(init.drop_last() + seq![' '] + seq![c] =~= s);
        } else {
            assert(init.last() == s[s.len() - 2]);
            lemma_join_extend(words(init), seq![' '], c);
            assert(init.push(c) =~= s);
        }
    } else {
        assert(collapse(s) =~= s);
    }
}

/// Collapsing changes nothing where there is nothing to collapse.
pub proof fn collapsed_text_is_kept(s: Seq<char>)
    requires
        is_collapsed(s),
    ensures
        collapse(s) == s,
{
    lemma_collapse_of_spaced(s);
}

proof fn lemma_words_keep_characters(s: Seq<char>)
    ensures
        forall|k: int, i: int|
            0 <= k < words(s).len() && 0 <= i < words(s)[k].len() ==> s.contains(
                #[trigger] words(s)[k][i],
            ),
    decreases s.len(),
{
    if s.len() > 0 {
        let init = s.drop_last();
        lemma_words_keep_characters(init);
        lemma_words_nonempty(init);
        assert(s[s.len() - 1] == s.last());
        assert forall|k: int, i: int|
            0 <= k < words(s).len() && 0 <= i < words(s)[k].len() implies s.contains(
            #[trigger] words(s)[k][i],
        ) by {
            let c = words(s)[k][i];
            if c != s.last() {
                assert(words(init)[k][i] == c);
                assert(init.contains(c));
                let j = choose|j: int| 0 <= j < init.len() && init[j] == c;
                assert(s[j] == c);
            }
        }
    }
}

proof fn lemma_join_keeps_characters(pieces: Seq<Seq<char>>, sep: Seq<char>, s: Seq<char>)
    requires
        forall|k: int, i: int|
            0 <= k < pieces.len() && 0 <= i < pieces[k].len() ==> s.contains(
                #[trigger] pieces[k][i],
            ),
    ensures
        forall|i: int|
            0 <= i < join(pieces, sep).len() ==> s.contains(#[trigger] join(pieces, sep)[i])
                || sep.contains(join(pieces, sep)[i]),
    decreases pieces.len(),
{
    if pieces.len() >= 2 {
        let init = pieces.drop_last();
        assert forall|k: int, i: int| 0 <= k < init.len() && 0 <= i < init[k].len() implies s.contains(
            #[trigger] init[k][i],
        ) by {
            assert(init[k][i] == pieces[k][i]);
        }
        lemma_join_keeps_characters(init, sep, s);
        let head = join(init, sep);
        let whole = join(pieces, sep);
        assert forall|i: int| 0 <= i < whole.len() implies s.contains(#[trigger] whole[i])
            || sep.contains(whole[i]) by {
            if i < head.len() {
                assert(whole[i] == head[i]);
            } else if i < head.len() + sep.len() {
                assert(whole[i] == sep[i - head.len()]);
            } else {
                let j = i - head.len() - sep.len();
                assert(whole[i] == pieces[pieces.len() - 1][j]);
            }
        }
    } else if pieces.len() == 1 {
        let whole = join(pieces, sep);
        assert forall|i: int| 0 <= i < whole.len() implies s.contains(#[trigger] whole[i]) by {
            assert(whole[i] == pieces[0][i]);
        }
    }
}

/// Collapsing brings in no character but the space.
pub proof fn collapse_keeps_characters(s: Seq<char>)
    ensures
        forall|i: int|
            0 <= i < collapse(s).len() ==> collapse(s)[i] == ' ' || s.contains(
                #[trigger] collapse(s)[i],
            ),
{
    lemma_words_keep_characters(s);
    lemma_join_keeps_characters(words(s), seq![' '], s);
}

/// The pieces of `s` between the occurrences of `sep`.
pub fn split_at_char(s: &str, sep: char) -> (r: Vec<String>)
    ensures
        r.deep_view() == split(s@, sep),
{
    let chars = to_chars(s);
    let mut out: Vec<String> = Vec::new();
    let mut piece = String::new();
    let mut i: usize = 0;
    assert(chars@.take(0) =~= Seq::empty());
    assert(out.deep_view().push(piece@) =~= seq![Seq::<char>::empty()]);
    while i < chars.len()
        invariant
            i <= chars@.len(),
            out.deep_view().push(piece@) == split(chars@.take(i as int), sep),
        decreases chars@.len() - i,
    {
        let c = chars[i];
        let ghost before = chars@.take(i as int);
        let ghost after = chars@.take(i as int + 1);
        let ghost done = out.deep_view();
        let ghost held = piece@;
        assert(after.drop_last() =~= before);
        assert(after.last() == c);
        if c == sep {
            out.push(piece);
            piece = String::new();
            assert(out.deep_view() =~= done.push(held));
            assert(out.deep_view().push(piece@) =~= split(before, sep).push(Seq::empty()));
        } else {
            piece.push(c);
            assert(done.push(held).drop_last() =~= done);
            assert(out.deep_view().push(piece@) =~= extend_last(split(before, sep), c));
        }
        i = i + 1;
    }
    let ghost done = out.deep_view();
    let ghost held = piece@;
    out.push(piece);
    assert(out.deep_view() =~= done.push(held));
    assert(chars@.take(chars@.len() as int) =~= s@);
    out
}

/// A separator and a piece without one add that piece to the pieces.
pub proof fn split_of_appended_piece(s: Seq<char>, sep: char, piece: Seq<char>)
    requires
        !piece.contains(sep),
    ensures
        split(s + seq![sep] + piece, sep) == split(s, sep).push(piece),
    decreases piece.len(),
{
    let whole = s + seq![sep] + piece;
    if piece.len() == 0 {
        assert(whole.drop_last() =~= s);
        assert(piece =~= Seq::empty());
    } else {
        let init = piece.drop_last();
        assert(!init.contains(sep)) by {
            if init.contains(sep) {
                let k = choose|k: int| 0 <= k < init.len() && init[k] == sep;
                assert(piece[k] == sep);
            }
        }
        split_of_appended_piece(s, sep, init);
        assert(piece[piece.len() - 1] != sep);
        assert(whole.drop_last() =~= s + seq![sep] + init);
        let pieces = split(s, sep).push(init);
        assert(pieces.drop_last() =~= split(s, sep));
        assert(init.push(piece.last()) =~= piece);
    }
}

/// `s` with every `"\r\n"` replaced by `"\n"`.
pub open spec fn unify_newlines(s: Seq<char>) -> Seq<char>
    decreases s.len(),
{
    if s.len() == 0 {
        Seq::empty()
    } else if s.last() == '\n' && s.len() >= 2 && s[s.len() - 2] == '\r' {
        unify_newlines(s.take(s.len() - 2)).push('\n')
    } else {
        unify_newlines(s.drop_last()).push(s.last())
    }
}

/// `s` with every `"\r\n"` replaced by `"\n"`.
pub fn unified_newlines(s: &str) -> (r: String)
    ensures
        r@ == unify_newlines(s@),
{
    let chars = to_chars(s);
    let mut out = String::new();
    let mut i: usize = 0;
    assert(chars@.take(0) =~= Seq::empty());
    while i < chars.len()
        invariant
            i <= chars@.len(),
            out@ == unify_newlines(chars@.take(i as int)),
            0 < i < chars@.len() && chars@[i as int] == '\n' ==> chars@[i as int - 1] != '\r',
        decreases chars@.len() - i,
    {
        let c = chars[i];
        let ghost before = chars@.take(i as int);
        if c == '\r' && i + 1 < chars.len() && chars[i + 1] == '\n' {
            let ghost after = chars@.take(i as int + 2);
            assert(after.take(after.len() - 2) =~= before);
            out.push('\n');
            i = i + 2;
        } else {
            let ghost after = chars@.take(i as int + 1);
            assert(after.drop_last() =~= before);
            assert(i > 0 ==> after[after.len() - 2] == chars@[i as int - 1]);
            out.push(c);
            i = i + 1;
        }
    }
    assert(chars@.take(chars@.len() as int) =~= s@);
    out
}

/// `s` cut at the first `sep`, which belongs to neither part.
pub open spec fn split_once(s: Seq<char>, sep: char) -> Option<(Seq<char>, Seq<char>)> {
    match s.index_of_first(sep) {
        Some(i) => Some((s.take(i), s.skip(i + 1))),
        None => None,
    }
}

/// `s` cut at the first `sep`, which belongs to neither part.
pub fn split_at_first(s: &str, sep: char) -> (r: Option<(String, String)>)
    ensures
        r.deep_view() == split_once(s@, sep),
{
    let chars = to_chars(s);
    let mut i: usize = 0;
    while i < chars.len()
        invariant
            i <= chars@.len(),
            chars@ == s@,
            forall|k: int| 0 <= k < i ==> chars@[k] != sep,
        decreases chars@.len() - i,
    {
        if chars[i] == sep {
            proof {
                s@.index_of_first_ensures(sep);
                assert(s@.contains(sep));
                assert(s@.index_of_first(sep) == Some(i as int));
                assert(chars@.subrange(0, i as int) =~= s@.take(i as int));
                assert(chars@.subrange(i as int + 1, chars@.len() as int) =~= s@.skip(i as int + 1));
            }
            let head = text_between(&chars, 0, i);
            let tail = text_between(&chars, i + 1, chars.len());
            return Some((head, tail));
        }
        i = i + 1;
    }
    proof {
        s@.index_of_first_ensures(sep);
    }
    None
}

/// Whether `part` stands in `s` from position `at` on.
pub open spec fn occurs_at(s: Seq<char>, part: Seq<char>, at: int) -> bool {
    0 <= at && at + part.len() <= s.len() && s.subrange(at, at + part.len()) == part
}

/// The last position not after `from` where `part` stands in `s`.
pub open spec fn last_occurrence(s: Seq<char>, part: Seq<char>, from: int) -> Option<int>
    decreases from + 1,
{
    if from < 0 {
        None
    } else if occurs_at(s, part, from) {
        Some(from)
    } else {
        last_occurrence(s, part, from - 1)
    }
}

/// What is found as the last occurrence is one.
pub proof fn last_occurrence_occurs(s: Seq<char>, part: Seq<char>, from: int)
    ensures
        last_occurrence(s, part, from) matches Some(at) ==> at <= from && occurs_at(s, part, at),
    decreases from + 1,
{
    if from >= 0 && !occurs_at(s, part, from) {
        last_occurrence_occurs(s, part, from - 1);
    }
}

/// The last occurrence is the one after which there is none.
pub proof fn last_occurrence_is_found(s: Seq<char>, part: Seq<char>, at: int, from: int)
    requires
        occurs_at(s, part, at),
        at <= from,
        forall|k: int| at < k <= from ==> !#[trigger] occurs_at(s, part, k),
    ensures
        last_occurrence(s, part, from) == Some(at),
    decreases from - at,
{
    if at < from {
        last_occurrence_is_found(s, part, at, from - 1);
    }
}

/// `s` cut at the last `part`, which belongs to neither side.
pub open spec fn rsplit_once(s: Seq<char>, part: Seq<char>) -> Option<(Seq<char>, Seq<char>)> {
    match last_occurrence(s, part, s.len() as int) {
        Some(at) => Some((s.take(at), s.skip(at + part.len()))),
        None => None,
    }
}

/// Whether `part` stands in `chars` from position `at` on.
pub fn stands_at(chars: &Vec<char>, part: &Vec<char>, at: usize) -> (r: bool)
    requires
        at <= chars@.len(),
    ensures
        r == occurs_at(chars@, part@, at as int),
{
    if part.len() > chars.len() - at {
        return false;
    }
    let mut k: usize = 0;
    while k < part.len()
        invariant
            k <= part@.len(),
            at + part.len() <= chars.len(),
            forall|j: int| 0 <= j < k ==> chars@[at + j] == part@[j],
        decreases part@.len() - k,
    {
        if chars[at + k] != part[k] {
            proof {
                let cut = chars@.subrange(at as int, at + part@.len());
                assert(cut[k as int] == chars@[at + k]);
            }
            return false;
        }
        k = k + 1;
    }
    assert(chars@.subrange(at as int, at + part@.len()) =~= part@);
    true
}

/// `s` cut at the last `part`, which belongs to neither side.
pub fn split_at_last(s: &str, part: &str) -> (r: Option<(String, String)>)
    ensures
        r.deep_view() == rsplit_once(s@, part@),
{
    let chars = to_chars(s);
    let needle = to_chars(part);
    let mut at: usize = chars.len();
    loop
        invariant
            at <= chars@.len(),
            chars@ == s@,
            needle@ == part@,
            last_occurrence(s@, part@, s@.len() as int) == last_occurrence(s@, part@, at as int),
        decreases at,
    {
        if stands_at(&chars, &needle, at) {
            proof {
                assert(at + needle.len() <= chars.len());
                assert(chars@.subrange(0, at as int) =~= s@.take(at as int));
                assert(chars@.subrange(at + needle@.len(), chars@.len() as int) =~= s@.skip(
                    at + part@.len(),
                ));
            }
            let head = text_between(&chars, 0, at);
            let rest: usize = at + needle.len();
            let tail = text_between(&chars, rest, chars.len());
            return Some((head, tail));
        }
        if at == 0 {
            assert(last_occurrence(s@, part@, 0) == last_occurrence(s@, part@, -1));
            return None;
        }
        at = at - 1;
    }
}

/// `s` with `part` taken off its end as often as it stands there.
pub open spec fn strip_suffixes(s: Seq<char>, part: Seq<char>) -> Seq<char>
    decreases s.len(),
{
    if part.len() > 0 && occurs_at(s, part, s.len() - part.len()) {
        strip_suffixes(s.take(s.len() - part.len()), part)
    } else {
        s
    }
}

/// `s` with `part` taken off its end as often as it stands there.
pub fn stripped_suffixes(s: &str, part: &str) -> (r: String)
    ensures
        r@ == strip_suffixes(s@, part@),
{
    let mut chars = to_chars(s);
    let needle = to_chars(part);
    while needle.len() > 0 && needle.len() <= chars.len() && stands_at(
        &chars,
        &needle,
        chars.len() - needle.len(),
    )
        invariant
            needle@ == part@,
            strip_suffixes(chars@, part@) == strip_suffixes(s@, part@),
        decreases chars@.len(),
    {
        let keep: usize = chars.len() - needle.len();
        let ghost whole = chars@;
        chars.truncate(keep);
        assert(chars@ =~= whole.take(keep as int));
    }
    let r = text_between(&chars, 0, chars.len());
    assert(r@ =~= chars@);
    r
}

// ── Prefixes and letter case ────────────────────────────────────────

/// The first `n` characters of `s`, or all of `s` where it is shorter.
pub open spec fn first_chars(s: Seq<char>, n: int) -> Seq<char> {
    if s.len() <= n {
        s
    } else {
        s.take(n)
    }
}

/// The first `n` characters of `s`, or all of `s` where it is shorter.
pub fn leading_chars(s: &str, n: usize) -> (r: String)
    ensures
        r@ == first_chars(s@, n as int),
{
    let chars = to_chars(s);
    let to: usize = if chars.len() <= n {
        chars.len()
    } else {
        n
    };
    let r = text_between(&chars, 0, to);
    assert(r@ =~= first_chars(s@, n as int));
    r
}

/// An ASCII capital letter as its small letter; any other character as it is.
pub open spec fn lower_char(c: char) -> char {
    if 'A' <= c <= 'Z' {
        (c as u32 + 32) as char
    } else {
        c
    }
}

/// `s` with its ASCII capital letters made small.
pub open spec fn lower(s: Seq<char>) -> Seq<char> {
    s.map_values(|c: char| lower_char(c))
}

/// An ASCII capital letter as its small letter; any other character as it is.
pub fn lowered_char(c: char) -> (r: char)
    ensures
        r == lower_char(c),
{
    if 'A' <= c && c <= 'Z' {
        (c as u8 + 32) as char
    } else {
        c
    }
}

/// `s` with its ASCII capital letters made small.
pub fn lowered(s: &str) -> (r: String)
    ensures
        r@ == lower(s@),
{
    let chars = to_chars(s);
    let mut out = String::new();
    let mut i: usize = 0;
    while i < chars.len()
        invariant
            i <= chars@.len(),
            out@ == lower(chars@.take(i as int)),
        decreases chars@.len() - i,
    {
        out.push(lowered_char(chars[i]));
        i = i + 1;
        assert(out@ =~= lower(chars@.take(i as int)));
    }
    assert(chars@.take(chars@.len() as int) =~= s@);
    out
}

// ── Bytes ───────────────────────────────────────────────────────────

/// The number of bytes of `c` in UTF-8.
pub open spec fn char_width(c: char) -> nat {
    let n = c as u32;
    if n < 0x80 {
        1
    } else if n < 0x800 {
        2
    } else if n < 0x10000 {
        3
    } else {
        4
    }
}

/// The number of bytes of `s` in UTF-8.
pub open spec fn byte_len(s: Seq<char>) -> nat
    decreases s.len(),
{
    if s.len() == 0 {
        0
    } else {
        byte_len(s.drop_last()) + char_width(s.last())
    }
}

/// Whether the first `k` characters of `s` are its first `n` bytes.
pub open spec fn splits_at(s: Seq<char>, n: int, k: int) -> bool {
    0 <= k <= s.len() && byte_len(s.take(k)) == n
}

/// Whether `s` can be cut behind its first `n` bytes.
pub open spec fn is_boundary(s: Seq<char>, n: int) -> bool {
    exists|k: int| splits_at(s, n, k)
}

/// The first `n` bytes of `s`, where it can be cut there.
pub open spec fn byte_prefix(s: Seq<char>, n: int) -> Seq<char> {
    s.take(choose|k: int| splits_at(s, n, k))
}

/// What follows the first `n` bytes of `s`, where it can be cut there.
pub open spec fn byte_suffix(s: Seq<char>, n: int) -> Seq<char> {
    s.skip(choose|k: int| splits_at(s, n, k))
}

proof fn lemma_byte_len_grows(s: Seq<char>, j: int, k: int)
    requires
        0 <= j <= k <= s.len(),
    ensures
        byte_len(s.take(j)) + (k - j) <= byte_len(s.take(k)),
    decreases k,
{
    if j < k {
        lemma_byte_len_grows(s, j, k - 1);
        assert(s.take(k).drop_last() =~= s.take(k - 1));
    }
}

/// A text can be cut behind a number of bytes in one way at most.
pub proof fn boundary_is_unique(s: Seq<char>, n: int, j: int, k: int)
    requires
        splits_at(s, n, j),
        splits_at(s, n, k),
    ensures
        j == k,
{
    if j <= k {
        lemma_byte_len_grows(s, j, k);
    } else {
        lemma_byte_len_grows(s, k, j);
    }
}

/// The number of bytes of `c` in UTF-8.
pub fn width_of(c: char) -> (r: usize)
    ensures
        r == char_width(c),
{
    let n: u32 = c as u32;
    if n < 0x80 {
        1
    } else if n < 0x800 {
        2
    } else if n < 0x10000 {
        3
    } else {
        4
    }
}

/// The first `n` bytes of `s`.
pub fn first_bytes(s: &str, n: usize) -> (r: String)
    requires
        is_boundary(s@, n as int),
    ensures
        r@ == byte_prefix(s@, n as int),
{
    let chars = to_chars(s);
    let ghost cut = choose|k: int| splits_at(s@, n as int, k);
    let count: usize = chars.len();
    let mut k: usize = 0;
    let mut left: usize = n;
    assert(chars@.take(0) =~= Seq::empty());
    while left > 0
        invariant
            chars@ == s@,
            count == chars@.len(),
            splits_at(s@, n as int, cut),
            k <= cut <= chars@.len(),
            byte_len(chars@.take(k as int)) + left == n,
        decreases left,
    {
        proof {
            lemma_byte_len_grows(s@, k as int, cut);
            assert(k < cut);
            assert(chars@.take(k as int + 1).drop_last() =~= chars@.take(k as int));
            lemma_byte_len_grows(s@, k as int + 1, cut);
        }
        left = left - width_of(chars[k]);
        k = k + 1;
    }
    proof {
        boundary_is_unique(s@, n as int, cut, k as int);
        assert(chars@.subrange(0, k as int) =~= s@.take(k as int));
    }
    text_between(&chars, 0, k)
}

/// The last `n` bytes of a text that is longer, the whole of a text that is not.
pub open spec fn byte_tail(s: Seq<char>, n: int) -> Seq<char> {
    if byte_len(s) > n {
        byte_suffix(s, byte_len(s) - n)
    } else {
        s
    }
}

/// The last `n` bytes of a text that is longer, the whole of a text that is not.
pub fn last_bytes(s: &str, n: usize) -> (r: String)
    requires
        byte_len(s@) > n ==> is_boundary(s@, byte_len(s@) - n),
    ensures
        r@ == byte_tail(s@, n as int),
{
    let chars = to_chars(s);
    let mut k: usize = chars.len();
    let mut left: usize = n;
    assert(s@.take(s@.len() as int) =~= s@);
    while k > 0 && left >= width_of(chars[k - 1])
        invariant
            chars@ == s@,
            k <= chars@.len(),
            byte_len(s@) == byte_len(s@.take(k as int)) + (n - left),
            left <= n,
        decreases k,
    {
        proof {
            assert(s@.take(k as int).drop_last() =~= s@.take(k as int - 1));
        }
        left = left - width_of(chars[k - 1]);
        k = k - 1;
    }
    proof {
        assert(s@.take(0) =~= Seq::empty());
        assert(chars@.subrange(k as int, chars@.len() as int) =~= s@.skip(k as int));
        if k == 0 {
            assert(s@.skip(0) =~= s@);
        } else {
            assert(s@.take(k as int).drop_last() =~= s@.take(k as int - 1));
            lemma_byte_len_grows(s@, 0, k as int - 1);
        }
        if byte_len(s@) > n {
            let at = byte_len(s@) - n;
            assert(is_boundary(s@, at));
            let cut = choose|j: int| splits_at(s@, at, j);
            if cut < k {
                lemma_byte_len_grows(s@, cut, k as int - 1);
                assert(false);
            }
            lemma_byte_len_grows(s@, k as int, cut);
            assert(cut == k);
        }
    }
    text_between(&chars, k, chars.len())
}

// ── Order ───────────────────────────────────────────────────────────

/// Whether `a` comes before `b`, character by character.
pub open spec fn text_before(a: Seq<char>, b: Seq<char>) -> bool
    decreases a.len(),
{
    if b.len() == 0 {
        false
    } else if a.len() == 0 {
        true
    } else if a[0] == b[0] {
        text_before(a.drop_first(), b.drop_first())
    } else {
        a[0] < b[0]
    }
}

/// Whether each text of `s` comes before the next ones.
pub open spec fn ascending(s: Seq<Seq<char>>) -> bool {
    forall|i: int, j: int| 0 <= i < j < s.len() ==> text_before(#[trigger] s[i], #[trigger] s[j])
}

/// The order of texts is total: two different texts have a first one.
pub proof fn text_order_is_total(a: Seq<char>, b: Seq<char>)
    ensures
        a != b ==> text_before(a, b) || text_before(b, a),
        !(text_before(a, b) && text_before(b, a)),
        !text_before(a, a),
    decreases a.len(),
{
    if a.len() > 0 && b.len() > 0 {
        text_order_is_total(a.drop_first(), b.drop_first());
        if a[0] == b[0] && a.drop_first() == b.drop_first() {
            assert(a =~= seq![a[0]] + a.drop_first());
            assert(b =~= seq![b[0]] + b.drop_first());
        }
        text_order_is_total(a.drop_first(), a.drop_first());
    } else if a.len() == 0 && b.len() == 0 {
        assert(a =~= b);
    } else if a.len() > 0 {
        text_order_is_total(a.drop_first(), a.drop_first());
    }
}

/// The order of texts is transitive.
pub proof fn text_order_is_transitive(a: Seq<char>, b: Seq<char>, c: Seq<char>)
    requires
        text_before(a, b),
        text_before(b, c),
    ensures
        text_before(a, c),
    decreases a.len(),
{
    if a.len() > 0 && a[0] == b[0] && b[0] == c[0] {
        text_order_is_transitive(a.drop_first(), b.drop_first(), c.drop_first());
    }
}

/// Whether `a` comes before `b`.
pub fn comes_before(a: &str, b: &str) -> (r: bool)
    ensures
        r == text_before(a@, b@),
{
    let left = to_chars(a);
    let right = to_chars(b);
    let mut i: usize = 0;
    assert(left@.skip(0) =~= a@);
    assert(right@.skip(0) =~= b@);
    while i < left.len() && i < right.len() && left[i] == right[i]
        invariant
            i <= left@.len(),
            i <= right@.len(),
            text_before(left@.skip(i as int), right@.skip(i as int)) == text_before(a@, b@),
        decreases left@.len() - i,
    {
        assert(left@.skip(i as int).drop_first() =~= left@.skip(i as int + 1));
        assert(right@.skip(i as int).drop_first() =~= right@.skip(i as int + 1));
        i = i + 1;
    }
    if i >= right.len() {
        false
    } else if i >= left.len() {
        true
    } else {
        left[i] < right[i]
    }
}

// ── Decimal digits ──────────────────────────────────────────────────

/// Whether `c` is one of `0` to `9`.
pub open spec fn is_digit(c: char) -> bool {
    '0' <= c <= '9'
}

/// Whether every character of `s` is a decimal digit.
pub open spec fn all_digits(s: Seq<char>) -> bool {
    forall|i: int| 0 <= i < s.len() ==> is_digit(#[trigger] s[i])
}

/// The number that the decimal digits of `s` write.
pub open spec fn digits_value(s: Seq<char>) -> nat
    decreases s.len(),
{
    if s.len() == 0 {
        0
    } else {
        digits_value(s.drop_last()) * 10 + (s.last() as u32 - '0' as u32) as nat
    }
}

/// The decimal digits of `n`, without leading zeros.
pub open spec fn digits(n: nat) -> Seq<char>
    decreases n,
{
    if n < 10 {
        seq![(48 + n) as char]
    } else {
        digits(n / 10).push((48 + n % 10) as char)
    }
}

/// `n` in decimal, with a minus sign where it is negative.
pub open spec fn decimal(n: int) -> Seq<char> {
    if n < 0 {
        seq!['-'] + digits((-n) as nat)
    } else {
        digits(n as nat)
    }
}

/// Reading the digits of a number gives the number back.
pub proof fn digits_read_back(n: nat)
    ensures
        digits_value(digits(n)) == n,
        all_digits(digits(n)),
        digits(n).len() > 0,
    decreases n,
{
    if n < 10 {
        let s = digits(n);
        assert(s.drop_last() =~= Seq::empty());
        assert(digits_value(s.drop_last()) == 0);
    } else {
        digits_read_back(n / 10);
        let s = digits(n);
        assert(s.drop_last() =~= digits(n / 10));
    }
}

/// Ten to the power `n`.
pub open spec fn power_of_ten(n: nat) -> nat
    decreases n,
{
    if n == 0 {
        1
    } else {
        10 * power_of_ten((n - 1) as nat)
    }
}

/// The powers of ten grow.
pub proof fn power_of_ten_grows(a: nat, b: nat)
    requires
        a <= b,
    ensures
        power_of_ten(a) <= power_of_ten(b),
    decreases b,
{
    if a < b {
        power_of_ten_grows(a, (b - 1) as nat);
    }
}

/// A number below a power of ten has at most as many digits, another one has more.
pub proof fn digits_length(n: nat, k: nat)
    requires
        k >= 1,
    ensures
        n < power_of_ten(k) <==> digits(n).len() <= k,
    decreases k,
{
    digits_read_back(n);
    if n >= 10 {
        if k == 1 {
            digits_read_back(n / 10);
            assert(power_of_ten(1) == 10) by {
                reveal_with_fuel(power_of_ten, 2);
            }
        } else {
            digits_length(n / 10, (k - 1) as nat);
        }
    } else {
        power_of_ten_grows(1, k);
        assert(power_of_ten(1) == 10) by {
            reveal_with_fuel(power_of_ten, 2);
        }
    }
}

fn push_digits(out: &mut String, n: u64)
    ensures
        final(out)@ == old(out)@ + digits(n as nat),
    decreases n,
{
    if n >= 10 {
        push_digits(out, n / 10);
    }
    let c: char = (48 + (n % 10) as u8) as char;
    out.push(c);
    proof {
        if n < 10 {
            assert(out@ =~= old(out)@ + digits(n as nat));
        } else {
            assert(out@ =~= old(out)@ + digits(n as nat));
        }
    }
}

/// `n` in decimal.
pub fn decimal_text(n: i64) -> (r: String)
    ensures
        r@ == decimal(n as int),
{
    let mut out = String::new();
    if n < 0 {
        out.push('-');
        let magnitude: u64 = if n == i64::MIN {
            0x8000_0000_0000_0000
        } else {
            (-n) as u64
        };
        push_digits(&mut out, magnitude);
        assert(out@ =~= decimal(n as int));
    } else {
        push_digits(&mut out, n as u64);
        assert(out@ =~= decimal(n as int));
    }
    out
}

// ── Laws ────────────────────────────────────────────────────────────

/// What is white space among the common characters: the blank, the tab, the ends of lines, the wide
/// blank; and no letter, digit or sign of ASCII.
pub proof fn common_white_space(c: char)
    ensures
        is_space(' '),
        is_space('\t'),
        is_space('\n'),
        is_space('\r'),
        is_space('\u{3000}'),
        is_space('\u{a0}'),
        '!' <= c <= '~' ==> !is_space(c),
        '\u{4e00}' <= c <= '\u{9fff}' ==> !is_space(c),
{
}

/// Trimming takes white space off both ends and nothing else: what is left is a part of the text, all
/// that lies outside of it is white space, and neither of its ends is.
pub proof fn trimming_takes_white_space_off_the_ends(s: Seq<char>) -> (cut: (int, int))
    ensures
        0 <= cut.0 <= cut.1 <= s.len(),
        trim(s) == s.subrange(cut.0, cut.1),
        forall|i: int| 0 <= i < cut.0 ==> is_space(#[trigger] s[i]),
        forall|i: int| cut.1 <= i < s.len() ==> is_space(#[trigger] s[i]),
        trim(s).len() > 0 ==> !is_space(trim(s)[0]) && !is_space(trim(s).last()),
{
    let from = lemma_trim_start_cut(s);
    let t = trim_start(s);
    let to = lemma_trim_end_cut(t);
    lemma_trim_start_first(s);
    lemma_trim_end_shape(t);
    assert(t.take(to) =~= s.subrange(from, from + to));
    assert forall|i: int| from + to <= i < s.len() implies is_space(#[trigger] s[i]) by {
        assert(t[i - from] == s[i]);
    }
    if trim(s).len() > 0 {
        assert(trim(s)[0] == t[0]);
    }
    (from, from + to)
}

proof fn lemma_trim_start_cut(s: Seq<char>) -> (from: int)
    ensures
        0 <= from <= s.len(),
        trim_start(s) == s.skip(from),
        forall|i: int| 0 <= i < from ==> is_space(#[trigger] s[i]),
    decreases s.len(),
{
    if s.len() > 0 && is_space(s[0]) {
        let rest = lemma_trim_start_cut(s.drop_first());
        assert(s.drop_first().skip(rest) =~= s.skip(rest + 1));
        assert forall|i: int| 0 <= i < rest + 1 implies is_space(#[trigger] s[i]) by {
            if i > 0 {
                assert(s.drop_first()[i - 1] == s[i]);
            }
        }
        rest + 1
    } else {
        assert(s.skip(0) =~= s);
        0
    }
}

proof fn lemma_trim_end_cut(s: Seq<char>) -> (to: int)
    ensures
        0 <= to <= s.len(),
        trim_end(s) == s.take(to),
        forall|i: int| to <= i < s.len() ==> is_space(#[trigger] s[i]),
    decreases s.len(),
{
    if s.len() > 0 && is_space(s.last()) {
        let to = lemma_trim_end_cut(s.drop_last());
        assert(s.drop_last().take(to) =~= s.take(to));
        assert forall|i: int| to <= i < s.len() implies is_space(#[trigger] s[i]) by {
            if i < s.len() - 1 {
                assert(s.drop_last()[i] == s[i]);
            }
        }
        to
    } else {
        assert(s.take(s.len() as int) =~= s);
        s.len() as int
    }
}

/// A text that neither begins nor ends with white space is left as it is.
pub proof fn bare_text_is_kept(s: Seq<char>)
    requires
        s.len() > 0 ==> !is_space(s[0]) && !is_space(s.last()),
    ensures
        trim(s) == s,
{
}

/// The pieces of a split text hold no separator, and put together with it they are the text.
pub proof fn split_text_is_joined_again(s: Seq<char>, sep: char)
    ensures
        split(s, sep).len() > 0,
        join(split(s, sep), seq![sep]) == s,
        forall|i: int| 0 <= i < split(s, sep).len() ==> !(#[trigger] split(s, sep)[i]).contains(sep),
    decreases s.len(),
{
    let pieces = split(s, sep);
    if s.len() == 0 {
        assert(pieces[0] =~= Seq::empty());
    } else {
        let earlier = split(s.drop_last(), sep);
        split_text_is_joined_again(s.drop_last(), sep);
        assert(s =~= s.drop_last().push(s.last()));
        if s.last() == sep {
            join_of_push(earlier, seq![sep], Seq::empty());
            assert(join(pieces, seq![sep]) =~= s);
            assert forall|i: int| 0 <= i < pieces.len() implies !(#[trigger] pieces[i]).contains(
                sep,
            ) by {
                if i < earlier.len() {
                    assert(pieces[i] == earlier[i]);
                }
            }
        } else {
            lemma_join_extend(earlier, seq![sep], s.last());
            assert(join(pieces, seq![sep]) =~= s);
            assert forall|i: int| 0 <= i < pieces.len() implies !(#[trigger] pieces[i]).contains(
                sep,
            ) by {
                if i < earlier.len() - 1 {
                    assert(pieces[i] == earlier[i]);
                } else {
                    let last = earlier[earlier.len() - 1];
                    assert(!last.contains(sep));
                    assert(pieces[i] == last.push(s.last()));
                    assert forall|k: int| 0 <= k < pieces[i].len() implies pieces[i][k] != sep by {
                        if k < last.len() {
                            assert(last[k] == pieces[i][k]);
                            assert(last.contains(last[k]));
                        }
                    }
                }
            }
        }
    }
}

/// Splitting once cuts at the first separator: none stands before the cut, and both parts with the
/// separator between them are the text. A text that cannot be split holds no separator.
pub proof fn first_separator_splits(s: Seq<char>, sep: char)
    ensures
        match split_once(s, sep) {
            Some((head, rest)) => s == head.push(sep) + rest && !head.contains(sep),
            None => !s.contains(sep),
        },
{
    s.index_of_first_ensures(sep);
    if let Some((head, rest)) = split_once(s, sep) {
        let i = s.index_of_first(sep)->Some_0;
        assert(s =~= head.push(sep) + rest);
        assert forall|k: int| 0 <= k < head.len() implies head[k] != sep by {
            assert(head[k] == s[k]);
        }
    }
}

/// Every pair of a carriage return and a line feed becomes a line feed, wherever it stands.
pub proof fn line_ends_are_unified(before: Seq<char>, after: Seq<char>)
    ensures
        unify_newlines(before + seq!['\r', '\n'] + after) == unify_newlines(before).push('\n')
            + unify_newlines(after),
    decreases after.len(),
{
    let s = before + seq!['\r', '\n'] + after;
    if after.len() == 0 {
        assert(s.take(s.len() - 2) =~= before);
        assert(unify_newlines(s) =~= unify_newlines(before).push('\n') + unify_newlines(after));
    } else if after.last() == '\n' && after.len() >= 2 && after[after.len() - 2] == '\r' {
        let shorter = after.take(after.len() - 2);
        line_ends_are_unified(before, shorter);
        assert(s.take(s.len() - 2) =~= before + seq!['\r', '\n'] + shorter);
        assert(unify_newlines(s) =~= unify_newlines(before).push('\n') + unify_newlines(after));
    } else {
        line_ends_are_unified(before, after.drop_last());
        assert(s.drop_last() =~= before + seq!['\r', '\n'] + after.drop_last());
        assert(s.last() == after.last());
        if after.len() == 1 {
            assert(s[s.len() - 2] == '\n');
        } else {
            assert(s[s.len() - 2] == after[after.len() - 2]);
        }
        assert(unify_newlines(s) =~= unify_newlines(before).push('\n') + unify_newlines(after));
    }
}

/// A text without such a pair is left as it is.
pub proof fn unified_text_is_kept(s: Seq<char>)
    requires
        forall|i: int| 0 < i < s.len() && s[i - 1] == '\r' ==> #[trigger] s[i] != '\n',
    ensures
        unify_newlines(s) == s,
    decreases s.len(),
{
    if s.len() > 0 {
        let shorter = s.drop_last();
        assert forall|i: int| 0 < i < shorter.len() && shorter[i - 1] == '\r' implies #[trigger] shorter[i]
            != '\n' by {
            assert(s[i] != '\n');
        }
        unified_text_is_kept(shorter);
        assert(s[s.len() - 1] == s.last());
        assert(s =~= shorter.push(s.last()));
    }
}

/// Collapsing leaves the words and their order: two texts with white space between them collapse to
/// what each of them collapses to, one blank apart.
pub proof fn words_stay_apart(a: Seq<char>, gap: char, b: Seq<char>)
    requires
        is_space(gap),
    ensures
        words(a.push(gap) + b) == words(a) + words(b),
    decreases b.len(),
{
    let s = a.push(gap) + b;
    if b.len() == 0 {
        assert(s.drop_last() =~= a);
        assert(s.last() == gap);
        assert(words(a) + words(b) =~= words(a));
    } else {
        words_stay_apart(a, gap, b.drop_last());
        assert(s.drop_last() =~= a.push(gap) + b.drop_last());
        assert(s.last() == b.last());
        if b.len() == 1 {
            assert(s[s.len() - 2] == gap);
            assert(words(b.drop_last()) =~= Seq::empty());
            assert(words(s) =~= words(a) + words(b));
        } else {
            assert(s[s.len() - 2] == b[b.len() - 2]);
            if !is_space(b.last()) && !is_space(b[b.len() - 2]) {
                lemma_words_nonempty(b.drop_last());
            }
            assert(words(s) =~= words(a) + words(b));
        }
    }
}

/// A text without white space is one word.
pub proof fn word_is_one_word(s: Seq<char>)
    requires
        is_word(s),
    ensures
        words(s) == seq![s],
        collapse(s) == s,
    decreases s.len(),
{
    assert(!is_space(s[s.len() - 1]));
    if s.len() == 1 {
        assert(words(s.drop_last()) =~= Seq::empty());
        assert(s =~= seq![s.last()]);
        assert(words(s) =~= seq![s]);
    } else {
        let shorter = s.drop_last();
        assert forall|i: int| 0 <= i < shorter.len() implies !is_space(#[trigger] shorter[i]) by {
            assert(!is_space(s[i]));
        }
        word_is_one_word(shorter);
        assert(!is_space(s[s.len() - 2]));
        assert(shorter.push(s.last()) =~= s);
        assert(words(s) =~= seq![s]);
    }
}

/// What is left when suffixes are stripped does not end with one, and the rest of the text is nothing
/// but suffixes.
pub proof fn only_suffixes_are_stripped(s: Seq<char>, part: Seq<char>)
    requires
        part.len() > 0,
    ensures
        !occurs_at(
            strip_suffixes(s, part),
            part,
            strip_suffixes(s, part).len() - part.len(),
        ),
        strip_suffixes(s, part).len() <= s.len(),
        strip_suffixes(s, part) == s.take(strip_suffixes(s, part).len() as int),
        (s.len() - strip_suffixes(s, part).len()) % (part.len() as int) == 0,
        forall|at: int|
            strip_suffixes(s, part).len() <= at < s.len() && (at - strip_suffixes(s, part).len()) % (
            part.len() as int) == 0 ==> #[trigger] occurs_at(s, part, at),
    decreases s.len(),
{
    let n = part.len() as int;
    let left = strip_suffixes(s, part);
    if occurs_at(s, part, s.len() - n) {
        let shorter = s.take(s.len() - n);
        only_suffixes_are_stripped(shorter, part);
        assert(shorter.take(left.len() as int) =~= s.take(left.len() as int));
        let gone = shorter.len() - left.len();
        assert((gone + n) % n == gone % n) by (nonlinear_arith)
            requires
                n > 0,
        ;
        assert(s.len() - left.len() == gone + n);
        assert forall|at: int| left.len() <= at < s.len() && (at - left.len()) % n == 0 implies #[trigger] occurs_at(
            s,
            part,
            at,
        ) by {
            if at < shorter.len() {
                assert(occurs_at(shorter, part, at));
                assert(shorter.subrange(at, at + n) =~= s.subrange(at, at + n));
            } else {
                let over = at - shorter.len();
                assert(over % n == 0) by (nonlinear_arith)
                    requires
                        n > 0,
                        gone % n == 0,
                        (over + gone) % n == 0,
                        0 <= over < n,
                {
                    let q = gone / n;
                    assert(gone == q * n);
                    assert((over + q * n) % n == over % n);
                }
                assert(over == 0) by (nonlinear_arith)
                    requires
                        0 <= over < n,
                        over % n == 0,
                ;
            }
        }
    } else {
        assert(0int % n == 0) by (nonlinear_arith)
            requires
                n > 0,
        ;
        assert(s.take(s.len() as int) =~= s);
    }
}

/// Capitals become small letters, character by character, and everything else stays.
pub proof fn capitals_become_small(s: Seq<char>, i: int)
    requires
        0 <= i < s.len(),
    ensures
        lower(s).len() == s.len(),
        'A' <= s[i] <= 'Z' ==> lower(s)[i] as u32 == s[i] as u32 + 32,
        !('A' <= s[i] <= 'Z') ==> lower(s)[i] == s[i],
{
}

/// A text that is cut keeps its beginning, as many characters as it may have.
pub proof fn cut_text_is_a_beginning(s: Seq<char>, n: int)
    requires
        n >= 0,
    ensures
        first_chars(s, n).len() == (if s.len() < n {
            s.len() as int
        } else {
            n
        }),
        forall|i: int| 0 <= i < first_chars(s, n).len() ==> first_chars(s, n)[i] == s[i],
{
}

/// A character takes one byte up to U+007F, two up to U+07FF, three up to U+FFFF, and four beyond; the
/// bytes of two texts add up.
pub proof fn bytes_add_up(c: char, a: Seq<char>, b: Seq<char>)
    ensures
        c <= '\u{7f}' <==> byte_len(seq![c]) == 1,
        '\u{80}' <= c <= '\u{7ff}' <==> byte_len(seq![c]) == 2,
        '\u{800}' <= c <= '\u{ffff}' <==> byte_len(seq![c]) == 3,
        '\u{10000}' <= c <==> byte_len(seq![c]) == 4,
        byte_len(Seq::empty()) == 0,
        byte_len(a + b) == byte_len(a) + byte_len(b),
    decreases b.len(),
{
    reveal_with_fuel(byte_len, 2);
    assert(seq![c].drop_last() =~= Seq::empty());
    if b.len() == 0 {
        assert(a + b =~= a);
    } else {
        bytes_add_up(c, a, b.drop_last());
        assert((a + b).drop_last() =~= a + b.drop_last());
    }
}

/// Where a text can be cut behind `n` bytes, the part before the cut is the beginning of the text with
/// that many bytes; the end of a text that is cut has the number of bytes that was asked for.
pub proof fn cut_parts_have_their_bytes(s: Seq<char>, n: int)
    requires
        0 <= n,
    ensures
        is_boundary(s, n) ==> {
            let head = byte_prefix(s, n);
            &&& head.len() <= s.len()
            &&& head == s.take(head.len() as int)
            &&& byte_len(head) == n
        },
        byte_len(s) <= n ==> byte_tail(s, n) == s,
        byte_len(s) > n && is_boundary(s, byte_len(s) - n) ==> {
            let tail = byte_tail(s, n);
            &&& tail.len() <= s.len()
            &&& tail == s.skip(s.len() - tail.len())
            &&& byte_len(tail) == n
        },
{
    if is_boundary(s, n) {
        let k = choose|k: int| splits_at(s, n, k);
        assert(splits_at(s, n, k));
        assert(byte_prefix(s, n).len() == k);
    }
    if byte_len(s) > n && is_boundary(s, byte_len(s) - n) {
        let m = byte_len(s) - n;
        let k = choose|k: int| splits_at(s, m, k);
        assert(splits_at(s, m, k));
        bytes_add_up('a', s.take(k), s.skip(k));
        assert(s.take(k) + s.skip(k) =~= s);
        assert(s.skip(s.len() - s.skip(k).len()) =~= s.skip(k));
    }
}

/// A number is written with a sign where it is negative, and its digits read as the number again.
pub proof fn written_number_reads_back(n: int)
    ensures
        n >= 0 ==> digits_value(decimal(n)) == n,
        n < 0 ==> decimal(n).len() > 1 && decimal(n)[0] == '-' && digits_value(decimal(n).skip(1))
            == -n,
{
    if n >= 0 {
        digits_read_back(n as nat);
    } else {
        digits_read_back((-n) as nat);
        assert(decimal(n).skip(1) =~= digits((-n) as nat));
    }
}

/// A text is split where it was put together, if no separator stands before.
pub proof fn text_is_split_where_it_was_joined(head: Seq<char>, sep: char, rest: Seq<char>)
    requires
        !head.contains(sep),
    ensures
        split_once(head.push(sep) + rest, sep) == Some((head, rest)),
        split_once(head, sep) is None,
{
    let s = head.push(sep) + rest;
    s.index_of_first_ensures(sep);
    head.index_of_first_ensures(sep);
    assert(s[head.len() as int] == sep);
    assert(s.contains(sep));
    let i = s.index_of_first(sep)->Some_0;
    if i < head.len() {
        assert(s[i] == head[i]);
        assert(head.contains(head[i]));
    }
    assert(i == head.len());
    assert(s.take(i) =~= head);
    assert(s.skip(i + 1) =~= rest);
}

/// The order of texts is that of a dictionary: the first character that differs decides, and a
/// beginning comes before the whole.
pub proof fn first_difference_decides(common: Seq<char>, a: Seq<char>, b: Seq<char>)
    ensures
        b.len() > 0 ==> text_before(common, common + b),
        a.len() > 0 && b.len() > 0 && a[0] < b[0] ==> text_before(common + a, common + b),
        a.len() > 0 && b.len() > 0 && a[0] > b[0] ==> !text_before(common + a, common + b),
    decreases common.len(),
{
    if common.len() == 0 {
        assert(common + a =~= a);
        assert(common + b =~= b);
    } else {
        let rest = common.drop_first();
        first_difference_decides(rest, a, b);
        assert((common + a).drop_first() =~= rest + a);
        assert((common + b).drop_first() =~= rest + b);
        assert((common + a)[0] == common[0] && (common + b)[0] == common[0]);
    }
}

/// All the white space there is.
pub proof fn all_white_space(c: char)
    ensures
        is_space(c) <==> {
            ||| '\t' <= c <= '\r'
            ||| c == ' '
            ||| c == '\u{85}'
            ||| c == '\u{a0}'
            ||| c == '\u{1680}'
            ||| '\u{2000}' <= c <= '\u{200a}'
            ||| c == '\u{2028}'
            ||| c == '\u{2029}'
            ||| c == '\u{202f}'
            ||| c == '\u{205f}'
            ||| c == '\u{3000}'
        },
{
}

} // verus!
