//! The text side of turning timed tokens into transcript segments: which
//! tokens carry text, the errors found before any token time is read, the
//! text of a segment and whether it ends a sentence.
use vstd::prelude::*;

use crate::laws::law_token_texts_are_the_tokens_with_text;
use crate::text::{
    chars_of, collapse_whitespace_chars, decimal_text, is_blank_chars, normalize_token_chars,
    spec_decimal, spec_is_blank, spec_join, spec_normalize_token, spec_words_joined,
    string_from_chars,
};

verus! {

/// A token that carries text: its index among the tokens and its cleaned text.
#[derive(Debug, Clone, PartialEq, Eq)]
pub struct TokenText {
    pub index: usize,
    pub text: String,
}

/// The tokens that carry text, in order: each with its index and its cleaned
/// text, tokens whose cleaned text is blank left out.
pub open spec fn spec_token_texts(tokens: Seq<Seq<char>>) -> Seq<(int, Seq<char>)>
    decreases tokens.len(),
{
    if tokens.len() == 0 {
        Seq::empty()
    } else {
        let t = spec_normalize_token(tokens.last());
        spec_token_texts(tokens.drop_last()) + (if spec_is_blank(t) {
            Seq::empty()
        } else {
            seq![(tokens.len() - 1, t)]
        })
    }
}

/// The error for fewer timestamps than tokens.
pub open spec fn spec_count_message(timestamps: nat, tokens: nat) -> Seq<char> {
    "timestamp count "@ + spec_decimal(timestamps) + " is smaller than token count "@
        + spec_decimal(tokens)
}

/// What the token checks that read no token time give: the errors for
/// missing timestamps, missing tokens, too few timestamps and tokens without
/// text, in that order; otherwise the tokens that carry text.
pub open spec fn spec_timed_token_texts(
    tokens: Seq<Seq<char>>,
    timestamp_count: Option<nat>,
) -> Result<Seq<(int, Seq<char>)>, Seq<char>> {
    match timestamp_count {
        None => Err("missing token timestamps"@),
        Some(count) => if tokens.len() == 0 {
            Err("missing tokens"@)
        } else if count < tokens.len() {
            Err(spec_count_message(count, tokens.len()))
        } else if spec_token_texts(tokens).len() == 0 {
            Err("tokens normalize to empty text"@)
        } else {
            Ok(spec_token_texts(tokens))
        },
    }
}

/// The view of a list of token texts.
pub open spec fn spec_token_text_view(list: Seq<TokenText>) -> Seq<(int, Seq<char>)> {
    list.map_values(|t: TokenText| (t.index as int, t.text@))
}

/// The checks of a decode result's tokens that come before any token time is
/// read, given how many timestamps there are (`None` when there are none):
/// the error that applies, or the tokens that carry text with their indices
/// and cleaned texts. Each returned index has a timestamp.
pub fn timed_token_texts(tokens: &Vec<String>, timestamp_count: Option<usize>) -> (r: Result<
    Vec<TokenText>,
    String,
>)
    ensures
        match r {
            Ok(list) => spec_timed_token_texts(
                tokens.deep_view(),
                match timestamp_count {
                    Some(c) => Some(c as nat),
                    None => None,
                },
            ) == Ok::<Seq<(int, Seq<char>)>, Seq<char>>(spec_token_text_view(list@)),
            Err(e) => spec_timed_token_texts(
                tokens.deep_view(),
                match timestamp_count {
                    Some(c) => Some(c as nat),
                    None => None,
                },
            ) == Err::<Seq<(int, Seq<char>)>, Seq<char>>(e@),
        },
        r matches Ok(list) ==> forall|k: int|
            0 <= k < list.len() ==> (#[trigger] list[k]).index < timestamp_count->0,
        // Exactly the tokens whose cleaned text is not blank are listed, in
        // order, each with its cleaned text.
        r matches Ok(list) ==> {
            &&& forall|k: int|
                0 <= k < list.len() ==> {
                    &&& (#[trigger] list[k]).index < tokens.len()
                    &&& list[k].text@ == spec_normalize_token(tokens@[list[k].index as int]@)
                    &&& !spec_is_blank(list[k].text@)
                }
            &&& forall|k1: int, k2: int|
                0 <= k1 < k2 < list.len() ==> (#[trigger] list[k1]).index < (
                #[trigger] list[k2]).index
            &&& forall|i: int|
                0 <= i < tokens.len() && !spec_is_blank(spec_normalize_token(#[trigger] tokens@[i]@))
                    ==> exists|k: int| 0 <= k < list.len() && (#[trigger] list[k]).index == i
        },
{
    let count = match timestamp_count {
        None => return Err(String::from_str("missing token timestamps")),
        Some(c) => c,
    };
    if tokens.len() == 0 {
        return Err(String::from_str("missing tokens"));
    }
    if count < tokens.len() {
        let a = decimal_text(count);
        let b = decimal_text(tokens.len());
        return Err(
            String::from_str("timestamp count ").concat(a.as_str()).concat(
                " is smaller than token count ",
            ).concat(b.as_str()),
        );
    }
    let ghost ts = tokens.deep_view();
    let mut list: Vec<TokenText> = Vec::new();
    let n = tokens.len();
    let mut i: usize = 0;
    assert(ts.take(0) =~= Seq::<Seq<char>>::empty());
    assert(spec_token_text_view(list@) =~= Seq::<(int, Seq<char>)>::empty());
    while i < n
        invariant
            i <= n == tokens.len() == ts.len() <= count,
            ts == tokens.deep_view(),
            spec_token_text_view(list@) == spec_token_texts(ts.take(i as int)),
            forall|k: int| 0 <= k < list.len() ==> (#[trigger] list[k]).index < i,
        decreases n - i,
    {
        assert(ts[i as int] == tokens@[i as int]@);
        assert(ts.take(i + 1).drop_last() =~= ts.take(i as int));
        assert(ts.take(i + 1).last() == ts[i as int]);
        let token_chars = chars_of(tokens[i].as_str());
        let cleaned = normalize_token_chars(&token_chars);
        if !is_blank_chars(&cleaned) {
            let text = string_from_chars(&cleaned);
            let ghost before = list@;
            list.push(TokenText { index: i, text });
            assert(spec_token_text_view(list@) =~= spec_token_text_view(before) + seq![
                (i as int, cleaned@),
            ]);
        }
        assert(spec_token_text_view(list@) =~= spec_token_texts(ts.take(i + 1)));
        i = i + 1;
    }
    assert(ts.take(n as int) =~= ts);
    if list.len() == 0 {
        return Err(String::from_str("tokens normalize to empty text"));
    }
    proof {
        law_token_texts_are_the_tokens_with_text(ts);
        let l = spec_token_texts(ts);
        let v = spec_token_text_view(list@);
        assert forall|k: int| 0 <= k < list.len() implies {
            &&& (#[trigger] list[k]).index < tokens.len()
            &&& list[k].text@ == spec_normalize_token(tokens@[list[k].index as int]@)
            &&& !spec_is_blank(list[k].text@)
        } by {
            assert(v[k] == l[k]);
            assert(ts[list[k].index as int] == tokens@[list[k].index as int]@);
        }
        assert forall|k1: int, k2: int| 0 <= k1 < k2 < list.len() implies (#[trigger] list[k1]).index
            < (#[trigger] list[k2]).index by {
            assert(v[k1] == l[k1]);
            assert(v[k2] == l[k2]);
        }
        assert forall|i: int|
            0 <= i < tokens.len() && !spec_is_blank(
                spec_normalize_token(#[trigger] tokens@[i]@),
            ) implies exists|k: int| 0 <= k < list.len() && (#[trigger] list[k]).index == i by {
            assert(ts[i] == tokens@[i]@);
            let k = choose|k: int| 0 <= k < l.len() && (#[trigger] l[k]).0 == i;
            assert(v[k] == l[k]);
        }
    }
    Ok(list)
}

/// The text of a segment made of `parts`: the parts concatenated, with its
/// words joined by single spaces.
pub fn segment_text(parts: &Vec<String>) -> (r: String)
    ensures
        r@ == spec_words_joined(spec_join(parts.deep_view(), Seq::empty())),
{
    let ghost ps = parts.deep_view();
    let mut all: Vec<char> = Vec::new();
    let n = parts.len();
    let mut i: usize = 0;
    while i < n
        invariant
            i <= n == parts.len() == ps.len(),
            ps == parts.deep_view(),
            all@ == spec_join(ps.take(i as int), Seq::empty()),
        decreases n - i,
    {
        assert(ps[i as int] == parts@[i as int]@);
        let ghost prev = ps.take(i as int);
        let ghost next = ps.take(i + 1);
        assert(next.drop_last() =~= prev);
        let mut part = chars_of(parts[i].as_str());
        all.append(&mut part);
        if i == 0 {
            assert(all@ =~= next[0]);
        } else {
            assert(all@ =~= spec_join(prev, Seq::empty()) + Seq::empty() + next.last());
        }
        i = i + 1;
    }
    assert(ps.take(n as int) =~= ps);
    let collapsed = collapse_whitespace_chars(&all);
    string_from_chars(&collapsed)
}

/// Whether a text ends a sentence: its last character is `.`, `?` or `!`.
pub fn ends_sentence(text: &str) -> (r: bool)
    ensures
        r == (text@.len() > 0 && (text@.last() == '.' || text@.last() == '?' || text@.last()
            == '!')),
{
    let chars = chars_of(text);
    if chars.len() == 0 {
        return false;
    }
    let c = chars[chars.len() - 1];
    c == '.' || c == '?' || c == '!'
}

/// The error of a batch transcription whose decode result gives no timed
/// segments, with the segmentation error `error`.
pub fn incompatible_output_message(error: &str) -> (r: String)
    ensures
        r@ == "sherpa-onnx output is not compatible with saved meeting transcripts: "@ + error@,
{
    String::from_str("sherpa-onnx output is not compatible with saved meeting transcripts: ").concat(
        error,
    )
}

} // verus!
