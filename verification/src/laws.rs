//! Properties of the library as a whole, stated over the specifications that
//! the functions' contracts use.
use vstd::prelude::*;

use crate::model::{
    spec_check_files_from, spec_file_found, spec_required_files, spec_validate_model_dir,
    DEFAULT_SHERPA_ONNX_MODEL, DEFAULT_SHERPA_ONNX_PROVIDER,
};
use crate::recognizer::{
    spec_kept_recognizer, spec_opt_text, spec_same_key, spec_warm_step, RecognizerKey, WarmRecognizer,
};
use crate::provider::{
    spec_auto_candidates, spec_is_explicit_provider, spec_normalize_provider, spec_provider_plan,
    HostPlatform,
};
use crate::decode::{
    spec_decode_has_text, spec_kept_token_text, spec_probe_notes, spec_text_from_decode,
};
use crate::model::path_eq_result;
use crate::segments::spec_token_texts;
use crate::text::{
    lemma_ascii_lower_whitespace, lemma_blank_iff_all_whitespace, lemma_collapse_all_whitespace,
    lemma_collapse_idempotent, lemma_collapse_is_words_joined, lemma_collapse_shape, lemma_normalize_blank_token,
    lemma_remove_double_hash_leaves_no_pair, lemma_trim_of_trimmed, lemma_trim_shape,
    spec_ascii_lower, spec_collapse_whitespace, spec_is_blank, spec_is_spaced,
    spec_is_special_token, spec_is_whitespace, spec_normalize_token, spec_trim,
    spec_word_mark_to_space, spec_words_joined,
};

verus! {

/// Normalizing a provider name twice gives what normalizing it once gives.
pub proof fn law_normalize_provider_idempotent(provider: Seq<char>)
    ensures
        spec_normalize_provider(spec_normalize_provider(provider)) == spec_normalize_provider(
            provider,
        ),
{
    let t = spec_trim(provider);
    if t.len() == 0 {
        lemma_auto_is_normalized();
    } else {
        let l = t.map_values(|c: char| spec_ascii_lower(c));
        lemma_trim_shape(provider);
        lemma_ascii_lower_whitespace(t[0]);
        lemma_ascii_lower_whitespace(t.last());
        assert(l.last() == spec_ascii_lower(t.last()));
        lemma_trim_of_trimmed(l);
        assert forall|k: int| 0 <= k < l.len() implies #[trigger] spec_ascii_lower(l[k]) == l[k] by {
            lemma_ascii_lower_whitespace(t[k]);
        }
        assert(l.map_values(|c: char| spec_ascii_lower(c)) =~= l);
    }
}

/// `auto` is already a normalized provider name, and it is the default.
pub proof fn lemma_auto_is_normalized()
    ensures
        DEFAULT_SHERPA_ONNX_PROVIDER@ == "auto"@,
        spec_normalize_provider("auto"@) == "auto"@,
{
    reveal_strlit("auto");
    let a = "auto"@;
    lemma_trim_of_trimmed(a);
    assert(a.map_values(|c: char| spec_ascii_lower(c)) =~= a);
}

/// A provider request is planned as its normalized name would be: the plan
/// does not depend on surrounding whitespace or on the case of ASCII letters.
pub proof fn law_provider_plan_of_normalized(requested: Seq<char>, platform: HostPlatform)
    ensures
        spec_provider_plan(spec_normalize_provider(requested), platform) == spec_provider_plan(
            requested,
            platform,
        ),
{
    law_normalize_provider_idempotent(requested);
}

/// `auto` tries the platform's providers and always ends with the CPU.
pub proof fn law_auto_plan_falls_back_to_cpu(platform: HostPlatform)
    ensures
        spec_provider_plan("auto"@, platform) == Ok::<(Seq<char>, Seq<Seq<char>>), Seq<char>>(
            ("auto"@, spec_auto_candidates(platform)),
        ),
        spec_auto_candidates(platform).len() > 0,
        spec_auto_candidates(platform).last() == "cpu"@,
{
    lemma_auto_is_normalized();
}

/// A blank provider request is planned as `auto`.
pub proof fn law_blank_request_is_auto(requested: Seq<char>, platform: HostPlatform)
    requires
        spec_is_blank(requested),
    ensures
        spec_provider_plan(requested, platform) == spec_provider_plan("auto"@, platform),
{
    lemma_auto_is_normalized();
}

/// Every plan has a provider to try: the platform's list for `auto`, and the
/// requested provider alone for an explicit one. A refused request names
/// none of the known providers.
pub proof fn law_plan_shape(requested: Seq<char>, platform: HostPlatform)
    ensures
        match spec_provider_plan(requested, platform) {
            Ok((r, candidates)) => {
                &&& candidates.len() > 0
                &&& r == spec_normalize_provider(requested)
                &&& r == "auto"@ ==> candidates == spec_auto_candidates(platform)
                &&& r != "auto"@ ==> spec_is_explicit_provider(r) && candidates == seq![r]
            },
            Err(_) => {
                &&& spec_normalize_provider(requested) != "auto"@
                &&& !spec_is_explicit_provider(spec_normalize_provider(requested))
            },
        },
{
}

/// A model directory is valid exactly when the model is the supported one and
/// all four of its files were found.
pub proof fn law_model_dir_valid_iff_all_files_found(
    model: Seq<char>,
    model_dir: Seq<char>,
    file_exists: Seq<bool>,
)
    ensures
        spec_validate_model_dir(model, model_dir, file_exists) is Ok <==> (model
            == DEFAULT_SHERPA_ONNX_MODEL@ && forall|i: int|
            0 <= i < 4 ==> #[trigger] spec_file_found(file_exists, i)),
{
    reveal_with_fuel(spec_check_files_from, 5);
    let f = spec_required_files();
    assert(f.len() == 4);
}

/// Whitespace-normalized text is stable: normalizing it again changes
/// nothing. It holds no leading or trailing whitespace, and each whitespace
/// character in it is a single space between two words.
pub proof fn law_joined_text_normalization_is_stable(text: Seq<char>)
    ensures
        spec_words_joined(spec_words_joined(text)) == spec_words_joined(text),
        spec_is_spaced(spec_words_joined(text)),
        spec_words_joined(text).len() > 0 ==> !spec_is_whitespace(spec_words_joined(text)[0])
            && !spec_is_whitespace(spec_words_joined(text).last()),
{
    lemma_collapse_idempotent(text);
    lemma_collapse_shape(text);
    lemma_collapse_is_words_joined(text);
    lemma_collapse_is_words_joined(spec_collapse_whitespace(text));
}

/// A special token such as `<blk>` cleans to nothing, and no cleaned token
/// holds `##`.
pub proof fn law_token_cleanup(token: Seq<char>)
    ensures
        spec_is_special_token(token) ==> spec_normalize_token(token).len() == 0,
        forall|j: int|
            0 <= j < spec_normalize_token(token).len() - 1 ==> !(#[trigger] spec_normalize_token(
                token,
            )[j] == '#' && spec_normalize_token(token)[j + 1] == '#'),
{
    lemma_remove_double_hash_leaves_no_pair(
        token.map_values(|c: char| spec_word_mark_to_space(c)),
    );
}

/// The finalized text of a decode result, when there is one, is not empty and
/// is already whitespace-normalized.
pub proof fn law_finalized_text_is_normalized(text: Seq<char>, tokens: Seq<Seq<char>>)
    ensures
        spec_text_from_decode(text, tokens) matches Some(t) ==> t.len() > 0 && spec_words_joined(t)
            == t,
{
    law_joined_text_normalization_is_stable(text);
    law_joined_text_normalization_is_stable(spec_kept_token_text(tokens));
}

/// Tokens that are all blank contribute no text.
proof fn lemma_blank_tokens_keep_nothing(tokens: Seq<Seq<char>>)
    requires
        forall|i: int| 0 <= i < tokens.len() ==> spec_is_blank(#[trigger] tokens[i]),
    ensures
        spec_kept_token_text(tokens).len() == 0,
    decreases tokens.len(),
{
    if tokens.len() > 0 {
        let d = tokens.drop_last();
        assert forall|i: int| 0 <= i < d.len() implies spec_is_blank(#[trigger] d[i]) by {
            assert(d[i] == tokens[i]);
        }
        lemma_blank_tokens_keep_nothing(d);
        let last = tokens.last();
        assert(spec_is_blank(tokens[tokens.len() - 1]));
        lemma_blank_iff_all_whitespace(last);
        lemma_normalize_blank_token(last);
        lemma_blank_iff_all_whitespace(spec_normalize_token(last));
    }
}

/// A decode result that yields finalized text is one that carries text. (The
/// converse does not hold: a result whose only token is `<blk>` carries text
/// but yields none.)
pub proof fn law_finalized_text_means_text_present(text: Seq<char>, tokens: Seq<Seq<char>>)
    ensures
        spec_text_from_decode(text, tokens) is Some ==> spec_decode_has_text(text, tokens),
{
    if !spec_decode_has_text(text, tokens) {
        lemma_blank_iff_all_whitespace(text);
        lemma_collapse_all_whitespace(text, false, false);
        lemma_collapse_is_words_joined(text);
        lemma_blank_tokens_keep_nothing(tokens);
        let k = spec_kept_token_text(tokens);
        assert(k =~= Seq::<char>::empty());
        lemma_collapse_is_words_joined(k);
    }
}

/// A decode after another, with nothing reset in between, reuses the
/// recognizer the first one left warm exactly when their keys are the same;
/// it then reports the same provider and fallback reason and has no cold
/// load.
pub proof fn law_warm_recognizer_reused(
    first_key: RecognizerKey,
    provider: String,
    fallback_reason: Option<String>,
    second_key: RecognizerKey,
)
    ensures
        spec_warm_step(
            Some(spec_kept_recognizer(first_key, provider, fallback_reason)),
            second_key,
        ) is Some <==> spec_same_key(first_key, second_key),
        spec_same_key(first_key, second_key) ==> spec_warm_step(
            Some(spec_kept_recognizer(first_key, provider, fallback_reason)),
            second_key,
        ) == Some((provider@, spec_opt_text(fallback_reason))),
{
}

/// Without a warm recognizer a decode always creates one.
pub proof fn law_cold_without_warm_recognizer(key: RecognizerKey)
    ensures
        spec_warm_step(None::<WarmRecognizer>, key) is None,
{
}

/// A warm recognizer is never reused for a key that differs from its own in
/// the model, the model directory (as a path), the requested provider or the
/// thread count.
pub proof fn law_changed_key_field_creates_recognizer(warm: WarmRecognizer, key: RecognizerKey)
    requires
        warm.key.model@ != key.model@ || !path_eq_result(warm.key.model_dir@, key.model_dir@)
            || warm.key.requested_provider@ != key.requested_provider@ || warm.key.num_threads
            != key.num_threads,
    ensures
        spec_warm_step(Some(warm), key) is None,
{
}

/// A probe always reports the fallback reason, as its last note, whatever the
/// result can be used for; and there is always a first note.
pub proof fn law_probe_reports_fallback(
    batch_compatible: bool,
    text_present: bool,
    requested: Seq<char>,
    resolved: Seq<char>,
    reason: Seq<char>,
)
    ensures
        spec_probe_notes(batch_compatible, text_present, requested, resolved, Some(reason)).len()
            >= 2,
        spec_probe_notes(batch_compatible, text_present, requested, resolved, Some(reason)).last()
            == reason,
{
}

/// The text of one token: its cleaned text, or nothing when that is blank.
pub proof fn law_token_text_of_one(token: Seq<char>)
    ensures
        spec_kept_token_text(seq![token]) == if spec_is_blank(spec_normalize_token(token)) {
            Seq::<char>::empty()
        } else {
            spec_normalize_token(token)
        },
{
    assert(seq![token].drop_last() =~= Seq::<Seq<char>>::empty());
    assert(spec_kept_token_text(Seq::<Seq<char>>::empty()) == Seq::<char>::empty());
    let t = spec_normalize_token(token);
    assert(Seq::<char>::empty() + t =~= t);
    assert(Seq::<char>::empty() + Seq::<char>::empty() =~= Seq::<char>::empty());
}

/// The text of tokens is made token by token: the text of two runs of tokens
/// one after the other is the text of the first followed by the text of the
/// second. With `law_token_text_of_one`, every non-blank cleaned token is
/// kept, in order, repeated or not.
pub proof fn law_token_text_concatenates(first: Seq<Seq<char>>, second: Seq<Seq<char>>)
    ensures
        spec_kept_token_text(first + second) == spec_kept_token_text(first) + spec_kept_token_text(
            second,
        ),
    decreases second.len(),
{
    if second.len() == 0 {
        assert(first + second =~= first);
        assert(spec_kept_token_text(first) + Seq::<char>::empty() =~= spec_kept_token_text(first));
    } else {
        let all = first + second;
        assert(all.drop_last() =~= first + second.drop_last());
        assert(all.last() == second.last());
        law_token_text_concatenates(first, second.drop_last());
        let t = spec_normalize_token(second.last());
        let tail: Seq<char> = if spec_is_blank(t) {
            Seq::empty()
        } else {
            t
        };
        assert(spec_kept_token_text(first) + spec_kept_token_text(second.drop_last()) + tail
            =~= spec_kept_token_text(first) + (spec_kept_token_text(second.drop_last()) + tail));
    }
}

/// The tokens that carry text are exactly the tokens whose cleaned text is not
/// blank: each listed entry names a token by its index and holds that token's
/// cleaned text, the indices rise, and every token with text is listed.
pub proof fn law_token_texts_are_the_tokens_with_text(tokens: Seq<Seq<char>>)
    ensures
        forall|k: int|
            0 <= k < spec_token_texts(tokens).len() ==> {
                let e = #[trigger] spec_token_texts(tokens)[k];
                &&& 0 <= e.0 < tokens.len()
                &&& e.1 == spec_normalize_token(tokens[e.0])
                &&& !spec_is_blank(e.1)
            },
        forall|k1: int, k2: int|
            0 <= k1 < k2 < spec_token_texts(tokens).len() ==> (#[trigger] spec_token_texts(
                tokens,
            )[k1]).0 < (#[trigger] spec_token_texts(tokens)[k2]).0,
        forall|i: int|
            0 <= i < tokens.len() && !spec_is_blank(spec_normalize_token(#[trigger] tokens[i]))
                ==> exists|k: int|
                0 <= k < spec_token_texts(tokens).len() && (#[trigger] spec_token_texts(
                    tokens,
                )[k]).0 == i,
    decreases tokens.len(),
{
    if tokens.len() > 0 {
        let d = tokens.drop_last();
        law_token_texts_are_the_tokens_with_text(d);
        let l = spec_token_texts(tokens);
        let ld = spec_token_texts(d);
        let t = spec_normalize_token(tokens.last());
        let n = tokens.len() - 1;
        assert forall|k: int| 0 <= k < ld.len() implies l[k] == ld[k] by {}
        if !spec_is_blank(t) {
            assert(l[ld.len() as int] == (n, t));
        }
        assert forall|k: int| 0 <= k < l.len() implies {
            let e = #[trigger] l[k];
            &&& 0 <= e.0 < tokens.len()
            &&& e.1 == spec_normalize_token(tokens[e.0])
            &&& !spec_is_blank(e.1)
        } by {
            if k < ld.len() {
                assert(l[k] == ld[k]);
                assert(d[ld[k].0] == tokens[ld[k].0]);
            } else {
                assert(tokens[n] == tokens.last());
            }
        }
        assert forall|k1: int, k2: int| 0 <= k1 < k2 < l.len() implies (#[trigger] l[k1]).0 < (
        #[trigger] l[k2]).0 by {
            assert(l[k1] == ld[k1]);
            if k2 < ld.len() {
                assert(l[k2] == ld[k2]);
            } else {
                assert(ld[k1].0 < d.len());
            }
        }
        assert forall|i: int|
            0 <= i < tokens.len() && !spec_is_blank(
                spec_normalize_token(#[trigger] tokens[i]),
            ) implies exists|k: int| 0 <= k < l.len() && (#[trigger] l[k]).0 == i by {
            if i < n {
                assert(d[i] == tokens[i]);
                let k = choose|k: int| 0 <= k < ld.len() && (#[trigger] ld[k]).0 == i;
                assert(l[k] == ld[k]);
            } else {
                assert(tokens[i] == tokens.last());
                assert(l[ld.len() as int].0 == i);
            }
        }
    }
}

} // verus!
