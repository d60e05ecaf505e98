//! Character-level text handling: Unicode whitespace, trimming, whitespace
//! collapsing, and the cleanup applied to recognizer tokens.
use vstd::prelude::*;

verus! {

/// Rust's `char::is_whitespace`: the characters with the Unicode
/// `White_Space` property.
pub open spec fn spec_is_whitespace(c: char) -> bool {
    ||| ('\u{9}' <= c && c <= '\u{d}')
    ||| c == ' '
    ||| c == '\u{85}'
    ||| c == '\u{a0}'
    ||| c == '\u{1680}'
    ||| ('\u{2000}' <= c && c <= '\u{200a}')
    ||| c == '\u{2028}'
    ||| c == '\u{2029}'
    ||| c == '\u{202f}'
    ||| c == '\u{205f}'
    ||| c == '\u{3000}'
}

/// ASCII uppercase letters lowered; every other character kept.
pub open spec fn spec_ascii_lower(c: char) -> char {
    if 'A' <= c && c <= 'Z' {
        ((c as u32) + 32) as char
    } else {
        c
    }
}

/// `s` with its leading whitespace removed.
pub open spec fn spec_trim_start(s: Seq<char>) -> Seq<char>
    decreases s.len(),
{
    if s.len() > 0 && spec_is_whitespace(s[0]) {
        spec_trim_start(s.drop_first())
    } else {
        s
    }
}

/// `s` with its trailing whitespace removed.
pub open spec fn spec_trim_end(s: Seq<char>) -> Seq<char>
    decreases s.len(),
{
    if s.len() > 0 && spec_is_whitespace(s.last()) {
        spec_trim_end(s.drop_last())
    } else {
        s
    }
}

/// `str::trim`: leading and trailing whitespace removed.
pub open spec fn spec_trim(s: Seq<char>) -> Seq<char> {
    spec_trim_end(spec_trim_start(s))
}

/// A text is blank when trimming leaves nothing of it.
pub open spec fn spec_is_blank(s: Seq<char>) -> bool {
    spec_trim(s).len() == 0
}

/// `parts` joined with `sep` between neighbours.
pub open spec fn spec_join(parts: Seq<Seq<char>>, sep: Seq<char>) -> Seq<char>
    decreases parts.len(),
{
    if parts.len() == 0 {
        Seq::empty()
    } else if parts.len() == 1 {
        parts[0]
    } else {
        spec_join(parts.drop_last(), sep) + sep + parts.last()
    }
}

/// The length of the run of non-whitespace characters that `s` starts with.
pub open spec fn spec_word_len(s: Seq<char>) -> nat
    decreases s.len(),
{
    if s.len() > 0 && !spec_is_whitespace(s[0]) {
        1 + spec_word_len(s.drop_first())
    } else {
        0
    }
}

/// The words of `s`: its maximal runs of non-whitespace characters, in order.
pub open spec fn spec_words(s: Seq<char>) -> Seq<Seq<char>>
    decreases s.len(),
{
    if s.len() == 0 {
        Seq::empty()
    } else if spec_is_whitespace(s[0]) {
        spec_words(s.drop_first())
    } else {
        proof {
            lemma_word_len(s);
        }
        seq![s.take(spec_word_len(s) as int)] + spec_words(s.skip(spec_word_len(s) as int))
    }
}

/// `text.split_whitespace().collect::<Vec<_>>().join(" ")`: the words of
/// `text` joined by single spaces.
pub open spec fn spec_words_joined(text: Seq<char>) -> Seq<char> {
    spec_join(spec_words(text), seq![' '])
}

/// The words of `s` (its maximal runs of non-whitespace characters) joined by
/// single spaces, read from the front. `emitted` says whether a word was
/// already written; `gap` whether whitespace was seen since the last word.
pub open spec fn spec_collapse_from(s: Seq<char>, emitted: bool, gap: bool) -> Seq<char>
    decreases s.len(),
{
    if s.len() == 0 {
        Seq::empty()
    } else if spec_is_whitespace(s[0]) {
        spec_collapse_from(s.drop_first(), emitted, emitted)
    } else {
        (if gap { seq![' '] } else { Seq::empty() }) + seq![s[0]] + spec_collapse_from(
            s.drop_first(),
            true,
            false,
        )
    }
}

/// `text.split_whitespace().collect::<Vec<_>>().join(" ")`.
pub open spec fn spec_collapse_whitespace(s: Seq<char>) -> Seq<char> {
    spec_collapse_from(s, false, false)
}

/// The separator marks that subword tokenizers put in front of a word
/// (U+2581 and U+0120) read as spaces.
pub open spec fn spec_word_mark_to_space(c: char) -> char {
    if c == '\u{2581}' || c == '\u{120}' {
        ' '
    } else {
        c
    }
}

/// `str::replace("##", "")`: every `##` removed, matched left to right.
pub open spec fn spec_remove_double_hash(s: Seq<char>) -> Seq<char>
    decreases s.len(),
{
    if s.len() == 0 {
        s
    } else if s.len() >= 2 && s[0] == '#' && s[1] == '#' {
        spec_remove_double_hash(s.skip(2))
    } else {
        seq![s[0]] + spec_remove_double_hash(s.drop_first())
    }
}

/// A token such as `<blk>` or `<unk>`: after trimming it starts with `<` and
/// ends with `>`.
pub open spec fn spec_is_special_token(s: Seq<char>) -> bool {
    let t = spec_trim(s);
    t.len() > 0 && t[0] == '<' && t.last() == '>'
}

/// The text a recognizer token stands for: nothing for a special token,
/// otherwise the token with word marks turned into spaces and `##`
/// continuation marks removed.
pub open spec fn spec_normalize_token(s: Seq<char>) -> Seq<char> {
    if spec_is_special_token(s) {
        Seq::empty()
    } else {
        spec_remove_double_hash(s.map_values(|c: char| spec_word_mark_to_space(c)))
    }
}

/// The first `limit` characters of `s`, or all of them when there are fewer.
pub open spec fn spec_char_preview(s: Seq<char>, limit: nat) -> Seq<char> {
    if limit < s.len() {
        s.take(limit as int)
    } else {
        s
    }
}

/// The characters of a string, in order.
pub(crate) fn chars_of(s: &str) -> (chars: Vec<char>)
    ensures
        chars@ == s@,
{
    broadcast use vstd::string::axiom_spec_iter;

    let mut chars: Vec<char> = Vec::new();
    for c in it: s.chars()
        invariant
            chars@ == it.history(),
    {
        chars.push(c);
    }
    assert(chars@ =~= s@);
    chars
}

/// Builds a `String` from the characters with `String`'s `FromIterator`
/// (through `Iterator::collect`). Claimed: the string holds exactly those
/// characters, in order.
#[verifier::external_body]
pub(crate) fn string_from_chars(chars: &Vec<char>) -> (s: String)
    ensures
        s@ == chars@,
{
    chars.iter().collect()
}

/// Whether two character sequences are equal.
pub(crate) fn chars_equal(a: &Vec<char>, b: &Vec<char>) -> (r: bool)
    ensures
        r == (a@ == b@),
{
    if a.len() != b.len() {
        return false;
    }
    let n = a.len();
    let mut k: usize = 0;
    while k < n
        invariant
            k <= n == a.len() == b.len(),
            forall|j: int| 0 <= j < k ==> a@[j] == b@[j],
        decreases n - k,
    {
        if a[k] != b[k] {
            return false;
        }
        k = k + 1;
    }
    assert(a@ =~= b@);
    true
}

/// Whether two strings hold the same characters.
pub(crate) fn text_eq(a: &str, b: &str) -> (r: bool)
    ensures
        r == (a@ == b@),
{
    let ca = chars_of(a);
    let cb = chars_of(b);
    chars_equal(&ca, &cb)
}

/// Whether `c` is Unicode whitespace, as `char::is_whitespace` decides.
pub fn is_unicode_whitespace(c: char) -> (r: bool)
    ensures
        r == spec_is_whitespace(c),
{
    ('\u{9}' <= c && c <= '\u{d}') || c == ' ' || c == '\u{85}' || c == '\u{a0}' || c
        == '\u{1680}' || ('\u{2000}' <= c && c <= '\u{200a}') || c == '\u{2028}' || c
        == '\u{2029}' || c == '\u{202f}' || c == '\u{205f}' || c == '\u{3000}'
}

/// `char::to_ascii_lowercase`.
pub(crate) fn ascii_lower(c: char) -> (r: char)
    ensures
        r == spec_ascii_lower(c),
{
    if 'A' <= c && c <= 'Z' {
        let b: u8 = c as u8;
        (b + 32) as char
    } else {
        c
    }
}

/// The characters `chars[from..to]`.
pub(crate) fn copy_range(chars: &Vec<char>, from: usize, to: usize) -> (r: Vec<char>)
    requires
        from <= to <= chars.len(),
    ensures
        r@ == chars@.subrange(from as int, to as int),
{
    let mut r: Vec<char> = Vec::new();
    let mut k: usize = from;
    while k < to
        invariant
            from <= k <= to <= chars.len(),
            r@ == chars@.subrange(from as int, k as int),
        decreases to - k,
    {
        r.push(chars[k]);
        k = k + 1;
    }
    r
}

/// `chars` with leading and trailing whitespace removed.
pub(crate) fn trim_chars(chars: &Vec<char>) -> (r: Vec<char>)
    ensures
        r@ == spec_trim(chars@),
{
    let ghost s = chars@;
    let n = chars.len();
    let mut i: usize = 0;
    assert(s.skip(0) =~= s);
    while i < n && is_unicode_whitespace(chars[i])
        invariant
            i <= n == s.len(),
            s == chars@,
            spec_trim_start(s) == spec_trim_start(s.skip(i as int)),
        decreases n - i,
    {
        assert(s.skip(i as int).drop_first() =~= s.skip(i + 1));
        i = i + 1;
    }
    assert(spec_trim_start(s) == s.skip(i as int));
    let mut j: usize = n;
    assert(s.skip(i as int) =~= s.subrange(i as int, j as int));
    while j > i && is_unicode_whitespace(chars[j - 1])
        invariant
            i <= j <= n == s.len(),
            s == chars@,
            spec_trim_start(s) == s.skip(i as int),
            spec_trim_end(s.skip(i as int)) == spec_trim_end(s.subrange(i as int, j as int)),
        decreases j - i,
    {
        assert(s.subrange(i as int, j as int).drop_last() =~= s.subrange(i as int, j - 1));
        j = j - 1;
    }
    assert(spec_trim_end(s.subrange(i as int, j as int)) == s.subrange(i as int, j as int));
    copy_range(chars, i, j)
}

/// Whether trimming leaves nothing of `chars`.
pub(crate) fn is_blank_chars(chars: &Vec<char>) -> (r: bool)
    ensures
        r == spec_is_blank(chars@),
{
    let t = trim_chars(chars);
    t.len() == 0
}

/// The words of `chars` joined by single spaces.
pub(crate) fn collapse_whitespace_chars(chars: &Vec<char>) -> (r: Vec<char>)
    ensures
        r@ == spec_collapse_whitespace(chars@),
        r@ == spec_words_joined(chars@),
{
    let ghost s = chars@;
    let n = chars.len();
    let mut out: Vec<char> = Vec::new();
    let mut emitted = false;
    let mut gap = false;
    let mut k: usize = 0;
    assert(s.skip(0) =~= s);
    while k < n
        invariant
            k <= n == s.len(),
            s == chars@,
            spec_collapse_whitespace(s) == out@ + spec_collapse_from(s.skip(k as int), emitted, gap),
        decreases n - k,
    {
        let c = chars[k];
        let ghost rest = s.skip(k as int);
        assert(rest[0] == c);
        assert(rest.drop_first() =~= s.skip(k + 1));
        if is_unicode_whitespace(c) {
            gap = emitted;
        } else {
            let ghost before = out@;
            if gap {
                out.push(' ');
            }
            out.push(c);
            assert(before + ((if gap { seq![' '] } else { Seq::empty() }) + seq![c]
                + spec_collapse_from(s.skip(k + 1), true, false)) =~= out@ + spec_collapse_from(
                s.skip(k + 1),
                true,
                false,
            ));
            emitted = true;
            gap = false;
        }
        k = k + 1;
    }
    assert(s.skip(n as int) =~= Seq::<char>::empty());
    assert(out@ + Seq::<char>::empty() =~= out@);
    proof {
        lemma_collapse_is_words_joined(s);
    }
    out
}

/// The cleaned text of one recognizer token (see `spec_normalize_token`).
pub(crate) fn normalize_token_chars(chars: &Vec<char>) -> (r: Vec<char>)
    ensures
        r@ == spec_normalize_token(chars@),
{
    let t = trim_chars(chars);
    if t.len() > 0 && t[0] == '<' && t[t.len() - 1] == '>' {
        return Vec::new();
    }
    let ghost s = chars@;
    let ghost m = s.map_values(|c: char| spec_word_mark_to_space(c));
    let n = chars.len();
    let mut out: Vec<char> = Vec::new();
    let mut k: usize = 0;
    assert(m.skip(0) =~= m);
    while k < n
        invariant
            k <= n == s.len() == m.len(),
            s == chars@,
            m == s.map_values(|c: char| spec_word_mark_to_space(c)),
            spec_remove_double_hash(m) == out@ + spec_remove_double_hash(m.skip(k as int)),
        decreases n - k,
    {
        let c = word_mark_to_space(chars[k]);
        let ghost rest = m.skip(k as int);
        assert(rest[0] == c);
        if k + 1 < n && c == '#' && word_mark_to_space(chars[k + 1]) == '#' {
            assert(rest[1] == m[k + 1]);
            assert(rest.skip(2) =~= m.skip(k + 2));
            k = k + 2;
        } else {
            assert(rest.drop_first() =~= m.skip(k + 1));
            let ghost before = out@;
            out.push(c);
            assert(before + (seq![c] + spec_remove_double_hash(m.skip(k + 1))) =~= out@
                + spec_remove_double_hash(m.skip(k + 1)));
            k = k + 1;
        }
    }
    assert(m.skip(n as int) =~= Seq::<char>::empty());
    assert(out@ + Seq::<char>::empty() =~= out@);
    out
}

fn word_mark_to_space(c: char) -> (r: char)
    ensures
        r == spec_word_mark_to_space(c),
{
    if c == '\u{2581}' || c == '\u{120}' {
        ' '
    } else {
        c
    }
}

/// The words of `text` joined by single spaces: leading, trailing and repeated
/// whitespace is dropped and every inner run of whitespace becomes one space.
pub fn normalize_joined_text(text: &str) -> (r: String)
    ensures
        r@ == spec_words_joined(text@),
{
    let chars = chars_of(text);
    let out = collapse_whitespace_chars(&chars);
    string_from_chars(&out)
}

/// The text a recognizer token stands for: empty for a special token such as
/// `<blk>`; otherwise the token with the word marks U+2581 and U+0120 turned
/// into spaces and every `##` continuation mark removed.
pub fn normalize_token_text(token: &str) -> (r: String)
    ensures
        r@ == spec_normalize_token(token@),
{
    let chars = chars_of(token);
    let out = normalize_token_chars(&chars);
    string_from_chars(&out)
}

/// The first `limit` characters of `text`.
pub fn char_preview(text: &str, limit: usize) -> (r: String)
    ensures
        r@ == spec_char_preview(text@, limit as nat),
        r@.len() <= limit,
        r@ == text@.take(r@.len() as int),
{
    let chars = chars_of(text);
    let end = if limit < chars.len() {
        limit
    } else {
        chars.len()
    };
    let out = copy_range(&chars, 0, end);
    assert(chars@.subrange(0, end as int) =~= spec_char_preview(text@, limit as nat));
    string_from_chars(&out)
}


/// Trimming the front leaves a suffix that is empty or starts with a
/// character that is not whitespace.
pub proof fn lemma_trim_start_shape(s: Seq<char>)
    ensures
        spec_trim_start(s).len() <= s.len(),
        spec_trim_start(s) == s.skip(s.len() - spec_trim_start(s).len()),
        spec_trim_start(s).len() > 0 ==> !spec_is_whitespace(spec_trim_start(s)[0]),
    decreases s.len(),
{
    if s.len() > 0 && spec_is_whitespace(s[0]) {
        lemma_trim_start_shape(s.drop_first());
        let t = spec_trim_start(s.drop_first());
        assert(s.drop_first().skip(s.drop_first().len() - t.len()) =~= s.skip(s.len() - t.len()));
    } else {
        assert(s.skip(0) =~= s);
    }
}

/// Trimming the back leaves a prefix that is empty or ends with a character
/// that is not whitespace.
pub proof fn lemma_trim_end_shape(s: Seq<char>)
    ensures
        spec_trim_end(s).len() <= s.len(),
        spec_trim_end(s) == s.take(spec_trim_end(s).len() as int),
        spec_trim_end(s).len() > 0 ==> !spec_is_whitespace(spec_trim_end(s).last()),
    decreases s.len(),
{
    if s.len() > 0 && spec_is_whitespace(s.last()) {
        lemma_trim_end_shape(s.drop_last());
        let t = spec_trim_end(s.drop_last());
        assert(s.drop_last().take(t.len() as int) =~= s.take(t.len() as int));
    } else {
        assert(s.take(s.len() as int) =~= s);
    }
}

/// A trimmed text is empty or starts and ends with non-whitespace.
pub proof fn lemma_trim_shape(s: Seq<char>)
    ensures
        spec_trim(s).len() > 0 ==> !spec_is_whitespace(spec_trim(s)[0]) && !spec_is_whitespace(
            spec_trim(s).last(),
        ),
{
    let a = spec_trim_start(s);
    lemma_trim_start_shape(s);
    lemma_trim_end_shape(a);
    let t = spec_trim_end(a);
    if t.len() > 0 {
        assert(t[0] == a.take(t.len() as int)[0]);
    }
}

/// A text that neither starts nor ends with whitespace is its own trim.
pub proof fn lemma_trim_of_trimmed(t: Seq<char>)
    requires
        t.len() > 0 ==> !spec_is_whitespace(t[0]) && !spec_is_whitespace(t.last()),
    ensures
        spec_trim(t) == t,
{
}

/// Lowering ASCII letters keeps whitespace whitespace and everything else not.
pub proof fn lemma_ascii_lower_whitespace(c: char)
    ensures
        spec_is_whitespace(spec_ascii_lower(c)) == spec_is_whitespace(c),
        spec_ascii_lower(spec_ascii_lower(c)) == spec_ascii_lower(c),
{
}

/// Every whitespace character of `s` is a space that sits directly before a
/// character that is not whitespace: no whitespace runs, none at the end.
pub open spec fn spec_is_spaced(s: Seq<char>) -> bool {
    forall|j: int|
        0 <= j < s.len() && spec_is_whitespace(#[trigger] s[j]) ==> s[j] == ' ' && j + 1 < s.len()
            && !spec_is_whitespace(s[j + 1])
}

/// Whether every character of `s` is whitespace.
pub open spec fn spec_all_whitespace(s: Seq<char>) -> bool {
    forall|j: int| 0 <= j < s.len() ==> spec_is_whitespace(#[trigger] s[j])
}

proof fn lemma_spaced_drop_first(o: Seq<char>)
    requires
        spec_is_spaced(o),
        o.len() > 0,
    ensures
        spec_is_spaced(o.drop_first()),
{
    let d = o.drop_first();
    assert forall|j: int| 0 <= j < d.len() && spec_is_whitespace(#[trigger] d[j]) implies d[j]
        == ' ' && j + 1 < d.len() && !spec_is_whitespace(d[j + 1]) by {
        assert(d[j] == o[j + 1]);
    }
}

/// Collapsing a spaced text after a word changes nothing.
proof fn lemma_collapse_spaced_after_word(o: Seq<char>)
    requires
        spec_is_spaced(o),
    ensures
        spec_collapse_from(o, true, false) == o,
    decreases o.len(),
{
    if o.len() == 0 {
        return;
    }
    let d = o.drop_first();
    lemma_spaced_drop_first(o);
    if !spec_is_whitespace(o[0]) {
        lemma_collapse_spaced_after_word(d);
        assert(Seq::<char>::empty() + seq![o[0]] + d =~= o);
    } else {
        assert(o[0] == ' ' && !spec_is_whitespace(o[1]));
        assert(d[0] == o[1]);
        assert(spec_collapse_from(d, true, true) == seq![' '] + seq![d[0]] + spec_collapse_from(
            d.drop_first(),
            true,
            false,
        ));
        lemma_spaced_drop_first(d);
        lemma_collapse_spaced_after_word(d.drop_first());
        assert(seq![' '] + seq![o[1]] + d.drop_first() =~= o);
    }
}

/// What collapsing gives is spaced, and starts with a word when nothing was
/// written before it.
proof fn lemma_collapse_from_shape(s: Seq<char>, emitted: bool, gap: bool)
    requires
        gap ==> emitted,
    ensures
        spec_is_spaced(spec_collapse_from(s, emitted, gap)),
        !emitted ==> (spec_collapse_from(s, emitted, gap).len() == 0 || !spec_is_whitespace(
            spec_collapse_from(s, emitted, gap)[0],
        )),
    decreases s.len(),
{
    if s.len() == 0 {
        return;
    }
    let d = s.drop_first();
    if spec_is_whitespace(s[0]) {
        lemma_collapse_from_shape(d, emitted, emitted);
    } else {
        lemma_collapse_from_shape(d, true, false);
        let tail = spec_collapse_from(d, true, false);
        let head: Seq<char> = (if gap { seq![' '] } else { Seq::empty() }) + seq![s[0]];
        let o = head + tail;
        assert(o == spec_collapse_from(s, emitted, gap));
        assert forall|j: int| 0 <= j < o.len() && spec_is_whitespace(#[trigger] o[j]) implies o[j]
            == ' ' && j + 1 < o.len() && !spec_is_whitespace(o[j + 1]) by {
            if j >= head.len() {
                assert(o[j] == tail[j - head.len()]);
                assert(o[j + 1] == tail[j + 1 - head.len()]);
            } else if gap && j == 0 {
                assert(o[1] == s[0]);
            }
        }
    }
}

/// A collapsed text is spaced, and starts and ends with a word when it is
/// not empty.
pub proof fn lemma_collapse_shape(s: Seq<char>)
    ensures
        spec_is_spaced(spec_collapse_whitespace(s)),
        spec_collapse_whitespace(s).len() > 0 ==> !spec_is_whitespace(spec_collapse_whitespace(s)[0])
            && !spec_is_whitespace(spec_collapse_whitespace(s).last()),
{
    lemma_collapse_from_shape(s, false, false);
    let o = spec_collapse_whitespace(s);
    if o.len() > 0 && spec_is_whitespace(o.last()) {
        assert(o[o.len() - 1] == o.last());
    }
}

/// Collapsing the whitespace of a collapsed text changes nothing.
pub proof fn lemma_collapse_idempotent(s: Seq<char>)
    ensures
        spec_collapse_whitespace(spec_collapse_whitespace(s)) == spec_collapse_whitespace(s),
{
    let o = spec_collapse_whitespace(s);
    lemma_collapse_shape(s);
    if o.len() > 0 {
        lemma_spaced_drop_first(o);
        lemma_collapse_spaced_after_word(o.drop_first());
        assert(Seq::<char>::empty() + seq![o[0]] + o.drop_first() =~= o);
    }
}

/// Nothing but whitespace collapses to nothing.
pub proof fn lemma_collapse_all_whitespace(s: Seq<char>, emitted: bool, gap: bool)
    requires
        spec_all_whitespace(s),
    ensures
        spec_collapse_from(s, emitted, gap).len() == 0,
    decreases s.len(),
{
    if s.len() > 0 {
        assert(spec_is_whitespace(s[0]));
        assert forall|j: int| 0 <= j < s.drop_first().len() implies spec_is_whitespace(
            #[trigger] s.drop_first()[j],
        ) by {
            assert(s.drop_first()[j] == s[j + 1]);
        }
        lemma_collapse_all_whitespace(s.drop_first(), emitted, emitted);
    }
}

proof fn lemma_trim_start_empty(s: Seq<char>)
    ensures
        spec_trim_start(s).len() == 0 <==> spec_all_whitespace(s),
    decreases s.len(),
{
    if s.len() > 0 {
        let d = s.drop_first();
        lemma_trim_start_empty(d);
        if spec_all_whitespace(s) {
            assert forall|j: int| 0 <= j < d.len() implies spec_is_whitespace(#[trigger] d[j]) by {
                assert(d[j] == s[j + 1]);
            }
        }
        if spec_is_whitespace(s[0]) && spec_all_whitespace(d) {
            assert forall|j: int| 0 <= j < s.len() implies spec_is_whitespace(#[trigger] s[j]) by {
                if j > 0 {
                    assert(s[j] == d[j - 1]);
                }
            }
        }
    }
}

proof fn lemma_trim_end_empty(s: Seq<char>)
    ensures
        spec_trim_end(s).len() == 0 <==> spec_all_whitespace(s),
    decreases s.len(),
{
    if s.len() > 0 {
        let d = s.drop_last();
        lemma_trim_end_empty(d);
        if spec_all_whitespace(s) {
            assert forall|j: int| 0 <= j < d.len() implies spec_is_whitespace(#[trigger] d[j]) by {
                assert(d[j] == s[j]);
            }
            assert(spec_is_whitespace(s[s.len() - 1]));
        }
        if spec_is_whitespace(s.last()) && spec_all_whitespace(d) {
            assert forall|j: int| 0 <= j < s.len() implies spec_is_whitespace(#[trigger] s[j]) by {
                if j < s.len() - 1 {
                    assert(s[j] == d[j]);
                }
            }
        }
    }
}

/// A text is blank exactly when all of its characters are whitespace.
pub proof fn lemma_blank_iff_all_whitespace(s: Seq<char>)
    ensures
        spec_is_blank(s) <==> spec_all_whitespace(s),
{
    let a = spec_trim_start(s);
    lemma_trim_start_empty(s);
    lemma_trim_end_empty(a);
    lemma_trim_start_shape(s);
    if spec_all_whitespace(a) && a.len() > 0 {
        assert(spec_is_whitespace(a[0]));
    }
}

/// Removing `##` from a text without `#` changes nothing.
proof fn lemma_remove_double_hash_without_hash(m: Seq<char>)
    requires
        forall|j: int| 0 <= j < m.len() ==> #[trigger] m[j] != '#',
    ensures
        spec_remove_double_hash(m) == m,
    decreases m.len(),
{
    if m.len() > 0 {
        let d = m.drop_first();
        assert forall|j: int| 0 <= j < d.len() implies #[trigger] d[j] != '#' by {
            assert(d[j] == m[j + 1]);
        }
        lemma_remove_double_hash_without_hash(d);
        assert(seq![m[0]] + d =~= m);
    }
}

/// A token of nothing but whitespace cleans to nothing but whitespace.
pub proof fn lemma_normalize_blank_token(s: Seq<char>)
    requires
        spec_all_whitespace(s),
    ensures
        spec_all_whitespace(spec_normalize_token(s)),
{
    lemma_blank_iff_all_whitespace(s);
    let m = s.map_values(|c: char| spec_word_mark_to_space(c));
    assert(m =~= s) by {
        assert forall|j: int| 0 <= j < s.len() implies m[j] == s[j] by {
            assert(spec_is_whitespace(s[j]));
        }
    }
    assert forall|j: int| 0 <= j < s.len() implies #[trigger] s[j] != '#' by {
        assert(spec_is_whitespace(s[j]));
    }
    lemma_remove_double_hash_without_hash(s);
}

/// After `##` removal no two `#` stand side by side.
pub proof fn lemma_remove_double_hash_leaves_no_pair(m: Seq<char>)
    ensures
        forall|j: int|
            0 <= j < spec_remove_double_hash(m).len() - 1 ==> !(#[trigger] spec_remove_double_hash(
                m,
            )[j] == '#' && spec_remove_double_hash(m)[j + 1] == '#'),
    decreases m.len(),
{
    if m.len() == 0 {
    } else if m.len() >= 2 && m[0] == '#' && m[1] == '#' {
        lemma_remove_double_hash_leaves_no_pair(m.skip(2));
        assert(spec_remove_double_hash(m) == spec_remove_double_hash(m.skip(2)));
    } else {
        let d = m.drop_first();
        lemma_remove_double_hash_leaves_no_pair(d);
        let t = spec_remove_double_hash(d);
        let o = seq![m[0]] + t;
        assert(o == spec_remove_double_hash(m));
        if d.len() > 0 && d[0] != '#' {
            assert(t[0] == d[0]);
        }
        assert forall|j: int| 0 <= j < o.len() - 1 implies !(#[trigger] o[j] == '#' && o[j + 1]
            == '#') by {
            if j > 0 {
                assert(o[j] == t[j - 1]);
                assert(o[j + 1] == t[j]);
            } else if m[0] == '#' {
                assert(d[0] == m[1]);
                assert(o[1] == t[0]);
            }
        }
    }
}

/// The leading word of `s` is non-whitespace and is followed by whitespace or
/// the end.
pub proof fn lemma_word_len(s: Seq<char>)
    ensures
        spec_word_len(s) <= s.len(),
        forall|j: int| 0 <= j < spec_word_len(s) ==> !spec_is_whitespace(#[trigger] s[j]),
        spec_word_len(s) < s.len() ==> spec_is_whitespace(s[spec_word_len(s) as int]),
        s.len() > 0 && !spec_is_whitespace(s[0]) ==> spec_word_len(s) >= 1,
    decreases s.len(),
{
    if s.len() > 0 && !spec_is_whitespace(s[0]) {
        let d = s.drop_first();
        lemma_word_len(d);
        assert forall|j: int| 0 <= j < spec_word_len(s) implies !spec_is_whitespace(
            #[trigger] s[j],
        ) by {
            if j > 0 {
                assert(s[j] == d[j - 1]);
            }
        }
        if spec_word_len(s) < s.len() {
            assert(s[spec_word_len(s) as int] == d[spec_word_len(d) as int]);
        }
    }
}

/// Joining a list that starts with `w`.
pub proof fn lemma_join_prepend(w: Seq<char>, rest: Seq<Seq<char>>, sep: Seq<char>)
    ensures
        spec_join(seq![w] + rest, sep) == if rest.len() == 0 {
            w
        } else {
            w + sep + spec_join(rest, sep)
        },
    decreases rest.len(),
{
    let p = seq![w] + rest;
    if rest.len() == 0 {
        assert(p.len() == 1);
    } else {
        assert(p.drop_last() =~= seq![w] + rest.drop_last());
        assert(p.last() == rest.last());
        lemma_join_prepend(w, rest.drop_last(), sep);
        if rest.len() == 1 {
            assert(rest.drop_last().len() == 0);
            assert(spec_join(rest, sep) == rest[0]);
            assert(rest[0] == rest.last());
        } else {
            assert(spec_join(rest, sep) == spec_join(rest.drop_last(), sep) + sep + rest.last());
            assert(w + sep + spec_join(rest.drop_last(), sep) + sep + rest.last() =~= w + sep + (
            spec_join(rest.drop_last(), sep) + sep + rest.last()));
        }
    }
}

/// Collapsing a text that starts with a word writes that word whole.
proof fn lemma_collapse_word(s: Seq<char>, emitted: bool, gap: bool)
    requires
        s.len() > 0,
        !spec_is_whitespace(s[0]),
    ensures
        spec_collapse_from(s, emitted, gap) == (if gap {
            seq![' ']
        } else {
            Seq::empty()
        }) + s.take(spec_word_len(s) as int) + spec_collapse_from(
            s.skip(spec_word_len(s) as int),
            true,
            false,
        ),
    decreases s.len(),
{
    let d = s.drop_first();
    lemma_word_len(s);
    let n = spec_word_len(s);
    let pre: Seq<char> = if gap {
        seq![' ']
    } else {
        Seq::empty()
    };
    if d.len() > 0 && !spec_is_whitespace(d[0]) {
        lemma_collapse_word(d, true, false);
        assert(spec_word_len(d) == n - 1);
        assert(d.skip(n - 1) =~= s.skip(n as int));
        assert(seq![s[0]] + d.take(n - 1) =~= s.take(n as int));
        assert(pre + seq![s[0]] + (Seq::<char>::empty() + d.take(n - 1) + spec_collapse_from(
            d.skip(n - 1),
            true,
            false,
        )) =~= pre + s.take(n as int) + spec_collapse_from(s.skip(n as int), true, false));
    } else {
        assert(n == 1);
        assert(d =~= s.skip(1));
        assert(s.take(1) =~= seq![s[0]]);
    }
}

/// Collapsing gives the words joined by single spaces, after one space when a
/// gap comes before the first word.
proof fn lemma_collapse_from_words(s: Seq<char>, emitted: bool, gap: bool)
    requires
        gap ==> emitted,
    ensures
        spec_collapse_from(s, emitted, gap) == (if spec_words(s).len() > 0 && (gap || (emitted
            && s.len() > 0 && spec_is_whitespace(s[0]))) {
            seq![' ']
        } else {
            Seq::empty()
        }) + spec_join(spec_words(s), seq![' ']),
    decreases s.len(),
{
    if s.len() == 0 {
        assert(Seq::<char>::empty() + Seq::<char>::empty() =~= Seq::<char>::empty());
    } else if spec_is_whitespace(s[0]) {
        let d = s.drop_first();
        lemma_collapse_from_words(d, emitted, emitted);
    } else {
        lemma_word_len(s);
        let n = spec_word_len(s);
        let w = s.take(n as int);
        let t = s.skip(n as int);
        lemma_collapse_word(s, emitted, gap);
        lemma_collapse_from_words(t, true, false);
        lemma_join_prepend(w, spec_words(t), seq![' ']);
        let pre: Seq<char> = if gap {
            seq![' ']
        } else {
            Seq::empty()
        };
        if spec_words(t).len() > 0 {
            assert(t.len() > 0);
            assert(spec_is_whitespace(t[0]));
            assert(pre + w + (seq![' '] + spec_join(spec_words(t), seq![' '])) =~= pre + (w
                + seq![' '] + spec_join(spec_words(t), seq![' '])));
        } else {
            assert(spec_join(spec_words(t), seq![' ']) =~= Seq::<char>::empty());
            assert(pre + w + (Seq::<char>::empty() + Seq::<char>::empty()) =~= pre + w);
        }
    }
}

/// Collapsing whitespace is joining the words by single spaces.
pub proof fn lemma_collapse_is_words_joined(s: Seq<char>)
    ensures
        spec_collapse_whitespace(s) == spec_words_joined(s),
{
    lemma_collapse_from_words(s, false, false);
    assert(Seq::<char>::empty() + spec_words_joined(s) =~= spec_words_joined(s));
}

/// The decimal digit `d` as a character.
pub open spec fn spec_digit(d: int) -> char {
    (d + 48) as char
}

/// `n` written in decimal, as `usize`'s `Display` writes it.
pub open spec fn spec_decimal(n: nat) -> Seq<char>
    decreases n,
{
    if n < 10 {
        seq![spec_digit(n as int)]
    } else {
        spec_decimal(n / 10) + seq![spec_digit((n % 10) as int)]
    }
}

/// Appends `n` in decimal to `out`.
fn push_decimal(n: usize, out: &mut Vec<char>)
    ensures
        final(out)@ == old(out)@ + spec_decimal(n as nat),
    decreases n,
{
    if n >= 10 {
        push_decimal(n / 10, out);
    }
    let d: u8 = (n % 10) as u8;
    out.push((d + 48) as char);
    proof {
        if n >= 10 {
            assert(final(out)@ =~= old(out)@ + spec_decimal(n as nat));
        } else {
            assert(final(out)@ =~= old(out)@ + spec_decimal(n as nat));
        }
    }
}

/// `n` written in decimal.
pub fn decimal_text(n: usize) -> (r: String)
    ensures
        r@ == spec_decimal(n as nat),
{
    let mut out: Vec<char> = Vec::new();
    push_decimal(n, &mut out);
    assert(out@ =~= spec_decimal(n as nat));
    string_from_chars(&out)
}

/// The number of words that start in `s`; `after_gap` says whether what came
/// before `s` was whitespace (or nothing).
pub open spec fn spec_word_starts(s: Seq<char>, after_gap: bool) -> nat
    decreases s.len(),
{
    if s.len() == 0 {
        0
    } else if spec_is_whitespace(s[0]) {
        spec_word_starts(s.drop_first(), true)
    } else {
        (if after_gap {
            1nat
        } else {
            0nat
        }) + spec_word_starts(s.drop_first(), false)
    }
}

proof fn lemma_word_starts_word(s: Seq<char>, after_gap: bool)
    requires
        s.len() > 0,
        !spec_is_whitespace(s[0]),
    ensures
        spec_word_starts(s, after_gap) == (if after_gap {
            1nat
        } else {
            0nat
        }) + spec_word_starts(s.skip(spec_word_len(s) as int), false),
    decreases s.len(),
{
    let d = s.drop_first();
    lemma_word_len(s);
    let n = spec_word_len(s);
    if d.len() > 0 && !spec_is_whitespace(d[0]) {
        lemma_word_starts_word(d, false);
        assert(spec_word_len(d) == n - 1);
        assert(d.skip(n - 1) =~= s.skip(n as int));
    } else {
        assert(n == 1);
        assert(d =~= s.skip(1));
    }
}

/// Counting word starts counts the words.
proof fn lemma_word_starts_count(s: Seq<char>, after_gap: bool)
    requires
        after_gap || s.len() == 0 || spec_is_whitespace(s[0]),
    ensures
        spec_word_starts(s, after_gap) == spec_words(s).len(),
    decreases s.len(),
{
    if s.len() == 0 {
    } else if spec_is_whitespace(s[0]) {
        lemma_word_starts_count(s.drop_first(), true);
    } else {
        lemma_word_len(s);
        let t = s.skip(spec_word_len(s) as int);
        lemma_word_starts_word(s, after_gap);
        lemma_word_starts_count(t, false);
    }
}

/// How many words `text` has (`text.split_whitespace().count()`).
pub fn word_count(text: &str) -> (r: usize)
    ensures
        r == spec_words(text@).len(),
{
    let chars = chars_of(text);
    let ghost s = chars@;
    let n = chars.len();
    let mut count: usize = 0;
    let mut after_gap = true;
    let mut i: usize = 0;
    assert(s.skip(0) =~= s);
    while i < n
        invariant
            i <= n == s.len(),
            s == chars@,
            count <= i,
            spec_word_starts(s, true) == count + spec_word_starts(s.skip(i as int), after_gap),
        decreases n - i,
    {
        let c = chars[i];
        assert(s.skip(i as int)[0] == c);
        assert(s.skip(i as int).drop_first() =~= s.skip(i + 1));
        if is_unicode_whitespace(c) {
            after_gap = true;
        } else {
            if after_gap {
                count = count + 1;
            }
            after_gap = false;
        }
        i = i + 1;
    }
    assert(s.skip(n as int).len() == 0);
    proof {
        lemma_word_starts_count(s, true);
    }
    count
}

} // verus!
