//! What is read out of a recognizer's decode result: the finalized text of an
//! utterance, whether any text came back, and the notes of a probe.
use vstd::prelude::*;

use crate::error::TranscribeError;
use crate::text::{
    chars_of, collapse_whitespace_chars, is_blank_chars, normalize_token_chars, spec_words_joined,
    spec_is_blank, spec_normalize_token, string_from_chars, text_eq,
};

verus! {

/// The note for a result with usable token timing.
pub const BATCH_COMPATIBLE_NOTE: &'static str =
    "Saved meeting transcripts can use this output shape: Sherpa returned usable token timing.";

/// The note for a result with text but without usable token timing.
pub const TEXT_WITHOUT_TIMING_NOTE: &'static str =
    "Sherpa returned transcript text but no usable token timing; benchmarking can use it, but saved meeting transcripts require real timestamps.";

/// The note for a result without text.
pub const NO_TEXT_NOTE: &'static str = "Sherpa did not return transcript text in this run.";

/// The texts of the tokens, cleaned (see `spec_normalize_token`), with blank
/// ones left out, concatenated in order.
pub open spec fn spec_kept_token_text(tokens: Seq<Seq<char>>) -> Seq<char>
    decreases tokens.len(),
{
    if tokens.len() == 0 {
        Seq::empty()
    } else {
        let t = spec_normalize_token(tokens.last());
        spec_kept_token_text(tokens.drop_last()) + (if spec_is_blank(t) {
            Seq::empty()
        } else {
            t
        })
    }
}

/// The finalized text of a decode result: the words of its text joined by
/// single spaces when there are any, otherwise the words of its cleaned tokens
/// concatenated, joined the same way, when there are any, otherwise nothing.
pub open spec fn spec_text_from_decode(text: Seq<char>, tokens: Seq<Seq<char>>) -> Option<
    Seq<char>,
> {
    let direct = spec_words_joined(text);
    if direct.len() > 0 {
        Some(direct)
    } else {
        let joined = spec_words_joined(spec_kept_token_text(tokens));
        if joined.len() > 0 {
            Some(joined)
        } else {
            None
        }
    }
}

/// Whether a decode result carries any text: its text or one of its tokens is
/// not blank.
pub open spec fn spec_decode_has_text(text: Seq<char>, tokens: Seq<Seq<char>>) -> bool {
    !spec_is_blank(text) || exists|i: int| 0 <= i < tokens.len() && !spec_is_blank(tokens[i])
}

/// The note on a provider that resolved to another one than was requested.
pub open spec fn spec_provider_note(requested: Seq<char>, resolved: Seq<char>) -> Seq<char> {
    "Requested provider `"@ + requested + "` resolved to `"@ + resolved + "`."@
}

/// The notes of a probe: what the result can be used for; the provider it
/// resolved to, when an explicitly requested provider was not the one used;
/// and the fallback reason, when there is one.
pub open spec fn spec_probe_notes(
    batch_compatible: bool,
    text_present: bool,
    requested: Seq<char>,
    resolved: Seq<char>,
    fallback_reason: Option<Seq<char>>,
) -> Seq<Seq<char>> {
    let first = if batch_compatible {
        BATCH_COMPATIBLE_NOTE@
    } else if text_present {
        TEXT_WITHOUT_TIMING_NOTE@
    } else {
        NO_TEXT_NOTE@
    };
    seq![first] + (if resolved != requested && requested != "auto"@ {
        seq![spec_provider_note(requested, resolved)]
    } else {
        Seq::empty()
    }) + match fallback_reason {
        Some(reason) => seq![reason],
        None => Seq::empty(),
    }
}

/// The finalized text of a decode result with `text` and `tokens`: the text
/// with its words joined by single spaces when it has any; otherwise the
/// cleaned, non-blank tokens concatenated and treated the same way; `None`
/// when neither gives any text.
pub fn text_from_decode_result(text: &str, tokens: &Vec<String>) -> (r: Option<String>)
    ensures
        match r {
            Some(t) => spec_text_from_decode(text@, tokens.deep_view()) == Some(t@),
            None => spec_text_from_decode(text@, tokens.deep_view()) is None,
        },
{
    let text_chars = chars_of(text);
    let direct = collapse_whitespace_chars(&text_chars);
    if direct.len() > 0 {
        return Some(string_from_chars(&direct));
    }
    let ghost ts = tokens.deep_view();
    let mut joined: Vec<char> = Vec::new();
    let n = tokens.len();
    let mut i: usize = 0;
    assert(ts.take(0) =~= Seq::<Seq<char>>::empty());
    while i < n
        invariant
            i <= n == tokens.len() == ts.len(),
            ts == tokens.deep_view(),
            joined@ == spec_kept_token_text(ts.take(i as int)),
        decreases n - i,
    {
        assert(ts[i as int] == tokens@[i as int]@);
        assert(ts.take(i + 1).drop_last() =~= ts.take(i as int));
        let token_chars = chars_of(tokens[i].as_str());
        let mut cleaned = normalize_token_chars(&token_chars);
        if !is_blank_chars(&cleaned) {
            joined.append(&mut cleaned);
        }
        assert(joined@ =~= spec_kept_token_text(ts.take(i + 1)));
        i = i + 1;
    }
    assert(ts.take(n as int) =~= ts);
    let collapsed = collapse_whitespace_chars(&joined);
    if collapsed.len() > 0 {
        Some(string_from_chars(&collapsed))
    } else {
        None
    }
}

/// Whether a decode result with `text` and `tokens` carries any text: the
/// text or some token is not blank.
pub fn decode_has_text(text: &str, tokens: &Vec<String>) -> (r: bool)
    ensures
        r == spec_decode_has_text(text@, tokens.deep_view()),
{
    let text_chars = chars_of(text);
    if !is_blank_chars(&text_chars) {
        return true;
    }
    let ghost ts = tokens.deep_view();
    let n = tokens.len();
    let mut i: usize = 0;
    while i < n
        invariant
            i <= n == tokens.len() == ts.len(),
            ts == tokens.deep_view(),
            spec_is_blank(text@),
            forall|j: int| 0 <= j < i ==> spec_is_blank(#[trigger] ts[j]),
        decreases n - i,
    {
        assert(ts[i as int] == tokens@[i as int]@);
        let token_chars = chars_of(tokens[i].as_str());
        if !is_blank_chars(&token_chars) {
            return true;
        }
        i = i + 1;
    }
    false
}

/// The notes of a probe (see `spec_probe_notes`).
pub fn probe_notes(
    batch_compatible: bool,
    text_present: bool,
    requested_provider: &str,
    resolved_provider: &str,
    fallback_reason: &Option<String>,
) -> (r: Vec<String>)
    ensures
        r.deep_view() == spec_probe_notes(
            batch_compatible,
            text_present,
            requested_provider@,
            resolved_provider@,
            match fallback_reason {
                Some(reason) => Some(reason@),
                None => None,
            },
        ),
        r.len() >= 1,
        r@[0]@ == if batch_compatible {
            BATCH_COMPATIBLE_NOTE@
        } else if text_present {
            TEXT_WITHOUT_TIMING_NOTE@
        } else {
            NO_TEXT_NOTE@
        },
        // A fallback reason is always reported, as the last note.
        fallback_reason matches Some(reason) ==> r@.last()@ == reason@,
        // Without one, the notes end with the provider note exactly when an
        // explicitly requested provider resolved to another.
        fallback_reason is None ==> r.len() == (if resolved_provider@ != requested_provider@
            && requested_provider@ != "auto"@ {
            2nat
        } else {
            1nat
        }),
{
    let mut notes: Vec<String> = Vec::new();
    if batch_compatible {
        notes.push(String::from_str(BATCH_COMPATIBLE_NOTE));
    } else if text_present {
        notes.push(String::from_str(TEXT_WITHOUT_TIMING_NOTE));
    } else {
        notes.push(String::from_str(NO_TEXT_NOTE));
    }
    if !text_eq(resolved_provider, requested_provider) && !text_eq(requested_provider, "auto") {
        notes.push(
            String::from_str("Requested provider `").concat(requested_provider).concat(
                "` resolved to `",
            ).concat(resolved_provider).concat("`."),
        );
    }
    match fallback_reason {
        Some(reason) => notes.push(reason.clone()),
        None => {},
    }
    let ghost fr = match fallback_reason {
        Some(reason) => Some(reason@),
        None => None,
    };
    assert(notes.deep_view() =~= spec_probe_notes(
        batch_compatible,
        text_present,
        requested_provider@,
        resolved_provider@,
        fr,
    ));
    notes
}

/// The fewest samples (one second at 16 kHz) that a finalized utterance is
/// decoded from.
pub const SHERPA_ONNX_UTTERANCE_MIN_SAMPLES: usize = 16000;

/// Whether an utterance of `sample_count` samples is decoded: an empty one is
/// an error, one shorter than `SHERPA_ONNX_UTTERANCE_MIN_SAMPLES` is skipped
/// (`Ok(false)`), any other is decoded (`Ok(true)`).
pub fn check_utterance_samples(sample_count: usize) -> (r: Result<bool, TranscribeError>)
    ensures
        sample_count == 0 ==> r matches Err(TranscribeError::EmptyAudio),
        sample_count > 0 ==> (r matches Ok(decode) && decode == (sample_count
            >= SHERPA_ONNX_UTTERANCE_MIN_SAMPLES)),
{
    if sample_count == 0 {
        return Err(TranscribeError::EmptyAudio);
    }
    if sample_count < SHERPA_ONNX_UTTERANCE_MIN_SAMPLES {
        return Ok(false);
    }
    Ok(true)
}

} // verus!
