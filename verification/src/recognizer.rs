//! Choosing the provider a recognizer is created with: the candidates of a
//! plan are tried in order until one works, and the outcome is reported.
use vstd::prelude::*;

use crate::error::TranscribeError;
use crate::model::{
    effective_num_threads, path_eq_result, paths_equal, resolve_model_profile, spec_is_profile_of,
    spec_resolve_model_dir, spec_validate_model_dir, Config, SherpaOnnxModelProfile,
    DEFAULT_SHERPA_ONNX_NUM_THREADS,
};
use crate::provider::{provider_plan, spec_provider_plan, HostPlatform, ProviderPlan};
use crate::text::{spec_join, spec_trim, text_eq};

verus! {

/// How many candidates may be tried: all of them for `auto`, only the first
/// for an explicit provider.
pub open spec fn spec_attempt_limit(requested: Seq<char>, candidate_count: nat) -> nat {
    if requested == "auto"@ {
        candidate_count
    } else if candidate_count > 0 {
        1
    } else {
        0
    }
}

/// The note kept when no recognizer could be created for `provider`.
pub open spec fn spec_failure_note(provider: Seq<char>) -> Seq<char> {
    "`"@ + provider + "` recognizer creation returned null"@
}

/// The notes of the first `count` candidates, joined with `"; "`.
pub open spec fn spec_failure_summary(candidates: Seq<Seq<char>>, count: int) -> Seq<char> {
    spec_join(candidates.take(count).map_values(|p: Seq<char>| spec_failure_note(p)), "; "@)
}

/// Why the provider that worked is not the first candidate.
pub open spec fn spec_fallback_reason(first: Seq<char>, used: Seq<char>, failures: Seq<char>) -> Seq<
    char,
> {
    "provider `"@ + first + "` failed; using `"@ + used + "` ("@ + failures + ")"@
}

/// The error when no candidate worked.
pub open spec fn spec_creation_failure(requested: Seq<char>, failures: Seq<char>) -> Seq<char> {
    "failed to create sherpa-onnx recognizer for provider `"@ + requested + "`: "@ + failures
}

/// The index of the first successful attempt at or after `i` and before
/// `bound`, or `bound` when there is none.
pub open spec fn spec_first_success(attempts: Seq<bool>, bound: int, i: int) -> int
    decreases bound - i,
{
    if i >= bound {
        bound
    } else if attempts[i] {
        i
    } else {
        spec_first_success(attempts, bound, i + 1)
    }
}

/// The number of attempts that count: those within the attempt limit.
pub open spec fn spec_attempt_bound(plan: ProviderPlan, attempt_count: nat) -> int {
    let limit = spec_attempt_limit(plan.requested_provider@, plan.candidates.len() as nat);
    if attempt_count < limit {
        attempt_count as int
    } else {
        limit as int
    }
}

/// What to do next while creating a recognizer for a provider plan.
#[derive(Debug, Clone, PartialEq, Eq)]
pub enum RecognizerStep {
    /// Try to create a recognizer with the candidate at this index.
    Attempt(usize),
    /// A recognizer was created with `provider`; `fallback_reason` says why
    /// it is not the first candidate, when it is not.
    Resolved { provider: String, fallback_reason: Option<String> },
    /// No candidate worked.
    Failed(TranscribeError),
}

/// The notes of the first `count` candidates, joined with `"; "`.
fn failure_summary(candidates: &Vec<String>, count: usize) -> (r: String)
    requires
        count <= candidates.len(),
    ensures
        r@ == spec_failure_summary(candidates.deep_view(), count as int),
{
    let ghost c = candidates.deep_view();
    let mut out = String::new();
    let mut i: usize = 0;
    assert(c.take(0).map_values(|p: Seq<char>| spec_failure_note(p)) =~= Seq::<Seq<char>>::empty());
    while i < count
        invariant
            i <= count <= candidates.len() == c.len(),
            c == candidates.deep_view(),
            out@ == spec_failure_summary(c, i as int),
        decreases count - i,
    {
        let ghost prev = c.take(i as int).map_values(|p: Seq<char>| spec_failure_note(p));
        let ghost next = c.take(i + 1).map_values(|p: Seq<char>| spec_failure_note(p));
        assert(next.drop_last() =~= prev);
        assert(next.last() == spec_failure_note(c[i as int]));
        assert(c[i as int] == candidates@[i as int]@);
        if i > 0 {
            out.append("; ");
        }
        out.append("`");
        out.append(candidates[i].as_str());
        out.append("` recognizer creation returned null");
        if i == 0 {
            assert(out@ =~= next[0]);
        } else {
            assert(out@ =~= spec_join(prev, "; "@) + "; "@ + next.last());
        }
        i = i + 1;
    }
    out
}

/// Decides the next step of creating a recognizer for `plan`, given whether
/// each attempt made so far (`attempts[i]` for the candidate at index `i`)
/// created one. Candidates are tried in order; an explicit provider is tried
/// alone, while `auto` goes on to the next candidate after a failure. The
/// first success resolves the plan; when the limit is reached without one,
/// the plan fails with every failure listed. Attempts past the limit are not
/// looked at.
pub fn next_recognizer_step(plan: &ProviderPlan, attempts: &Vec<bool>) -> (r: RecognizerStep)
    ensures
        ({
            let c = plan.candidates.deep_view();
            let limit = spec_attempt_limit(plan.requested_provider@, c.len());
            let bound = spec_attempt_bound(*plan, attempts.len() as nat);
            let k = spec_first_success(attempts@, bound, 0);
            match r {
                RecognizerStep::Attempt(i) => {
                    &&& k == bound
                    &&& attempts.len() < limit
                    &&& i == attempts.len()
                },
                RecognizerStep::Resolved { provider, fallback_reason } => {
                    &&& 0 <= k < bound
                    &&& provider@ == c[k]
                    &&& if c[k] == c[0] {
                        fallback_reason is None
                    } else {
                        fallback_reason matches Some(reason) && reason@ == spec_fallback_reason(
                            c[0],
                            c[k],
                            spec_failure_summary(c, k),
                        )
                    }
                },
                RecognizerStep::Failed(err) => {
                    &&& k == bound
                    &&& attempts.len() >= limit
                    &&& err matches TranscribeError::TranscriptionFailed(m) && m@
                        == spec_creation_failure(
                        plan.requested_provider@,
                        spec_failure_summary(c, limit as int),
                    )
                },
            }
        }),
        // An explicitly requested provider is tried alone.
        plan.requested_provider@ != "auto"@ ==> (r matches RecognizerStep::Attempt(i) ==> i == 0),
        // The search starts with the first candidate.
        attempts.len() == 0 && plan.candidates.len() > 0 ==> r matches RecognizerStep::Attempt(0),
        // The provider used is one of the plan's, and a fallback reason is
        // given exactly when it is not the first.
        r matches RecognizerStep::Resolved { provider, fallback_reason } ==> {
            &&& plan.candidates.deep_view().contains(provider@)
            &&& (fallback_reason is None <==> provider@ == plan.candidates.deep_view()[0])
        },
{
    let ghost c = plan.candidates.deep_view();
    let n = plan.candidates.len();
    let limit: usize = if text_eq(plan.requested_provider.as_str(), "auto") {
        n
    } else if n > 0 {
        1
    } else {
        0
    };
    let bound: usize = if attempts.len() < limit {
        attempts.len()
    } else {
        limit
    };
    let mut k: usize = 0;
    while k < bound && !attempts[k]
        invariant
            k <= bound <= attempts.len(),
            spec_first_success(attempts@, bound as int, 0) == spec_first_success(
                attempts@,
                bound as int,
                k as int,
            ),
        decreases bound - k,
    {
        k = k + 1;
    }
    if k < bound {
        assert(c[k as int] == plan.candidates@[k as int]@);
        assert(c[0] == plan.candidates@[0]@);
        let provider = plan.candidates[k].clone();
        let fallback_reason = if text_eq(provider.as_str(), plan.candidates[0].as_str()) {
            None
        } else {
            let failures = failure_summary(&plan.candidates, k);
            Some(
                String::from_str("provider `").concat(plan.candidates[0].as_str()).concat(
                    "` failed; using `",
                ).concat(provider.as_str()).concat("` (").concat(failures.as_str()).concat(")"),
            )
        };
        RecognizerStep::Resolved { provider, fallback_reason }
    } else if attempts.len() < limit {
        RecognizerStep::Attempt(attempts.len())
    } else {
        let failures = failure_summary(&plan.candidates, limit);
        let msg = String::from_str("failed to create sherpa-onnx recognizer for provider `").concat(
            plan.requested_provider.as_str(),
        ).concat("`: ").concat(failures.as_str());
        RecognizerStep::Failed(TranscribeError::TranscriptionFailed(msg))
    }
}

/// What a warm recognizer was created for; a recognizer is reused only for
/// the same key.
#[derive(Debug, Clone, PartialEq, Eq)]
pub struct RecognizerKey {
    pub model: String,
    pub model_dir: String,
    pub requested_provider: String,
    pub num_threads: i32,
}

/// Whether two keys are the same, field by field; the model directories are
/// compared as paths.
pub open spec fn spec_same_key(a: RecognizerKey, b: RecognizerKey) -> bool {
    &&& a.model@ == b.model@
    &&& path_eq_result(a.model_dir@, b.model_dir@)
    &&& a.requested_provider@ == b.requested_provider@
    &&& a.num_threads == b.num_threads
}

/// Whether two keys hold the same texts and thread count.
pub open spec fn spec_identical_key(a: RecognizerKey, b: RecognizerKey) -> bool {
    &&& a.model@ == b.model@
    &&& a.model_dir@ == b.model_dir@
    &&& a.requested_provider@ == b.requested_provider@
    &&& a.num_threads == b.num_threads
}

/// The key of a recognizer for `profile`, `plan` and the thread count of
/// `config`.
pub fn recognizer_key(profile: &SherpaOnnxModelProfile, plan: &ProviderPlan, config: &Config) -> (r:
    RecognizerKey)
    ensures
        r.model@ == profile.model@,
        r.model_dir@ == profile.model_dir@,
        r.requested_provider@ == plan.requested_provider@,
        r.num_threads == if config.transcription.sherpa_onnx_num_threads <= 0 {
            DEFAULT_SHERPA_ONNX_NUM_THREADS
        } else {
            config.transcription.sherpa_onnx_num_threads
        },
{
    RecognizerKey {
        model: profile.model.clone(),
        model_dir: profile.model_dir.clone(),
        requested_provider: plan.requested_provider.clone(),
        num_threads: effective_num_threads(config),
    }
}

/// Whether two keys are the same, field by field; the model directories are
/// compared as paths.
pub fn same_recognizer_key(a: &RecognizerKey, b: &RecognizerKey) -> (r: bool)
    ensures
        r == spec_same_key(*a, *b),
        spec_identical_key(*a, *b) ==> r,
{
    text_eq(a.model.as_str(), b.model.as_str()) && paths_equal(a.model_dir.as_str(), b.model_dir.as_str())
        && text_eq(a.requested_provider.as_str(), b.requested_provider.as_str()) && a.num_threads
        == b.num_threads
}

/// Whether a new recognizer must be created for `key`: when none is warm, or
/// the warm one was created for another key.
pub fn needs_reload(cached: &Option<RecognizerKey>, key: &RecognizerKey) -> (r: bool)
    ensures
        r == match cached {
            Some(c) => !spec_same_key(*c, *key),
            None => true,
        },
        // A recognizer warm for exactly this key is reused.
        (cached matches Some(c) && spec_identical_key(*c, *key)) ==> !r,
        // A recognizer warm for another model, directory, requested provider
        // or thread count is not.
        (cached matches Some(c) && (c.model@ != key.model@ || !path_eq_result(
            c.model_dir@,
            key.model_dir@,
        ) || c.requested_provider@ != key.requested_provider@ || c.num_threads != key.num_threads))
            ==> r,
{
    match cached {
        Some(c) => !same_recognizer_key(c, key),
        None => true,
    }
}

/// What a decode is set up with: the model profile, the provider plan, and the
/// key of the recognizer it needs.
#[derive(Debug, Clone)]
pub struct DecodeSetup {
    pub profile: SherpaOnnxModelProfile,
    pub plan: ProviderPlan,
    pub key: RecognizerKey,
}

/// Sets up a decode for `config`: resolves the model profile (`file_exists`
/// as for `resolve_model_profile`), then plans the configured provider on
/// `platform`, then forms the recognizer key. A profile error is reported
/// before a provider error; both become `TranscriptionFailed`.
pub fn decode_setup(config: &Config, file_exists: &Vec<bool>, platform: HostPlatform) -> (r: Result<
    DecodeSetup,
    TranscribeError,
>)
    ensures
        ({
            let model = spec_trim(config.transcription.sherpa_onnx_model@);
            let dir = spec_resolve_model_dir(config.transcription);
            let threads = if config.transcription.sherpa_onnx_num_threads <= 0 {
                DEFAULT_SHERPA_ONNX_NUM_THREADS
            } else {
                config.transcription.sherpa_onnx_num_threads
            };
            match spec_validate_model_dir(model, dir, file_exists@) {
                Err(m) => r matches Err(TranscribeError::TranscriptionFailed(e)) && e@ == m,
                Ok(()) => match spec_provider_plan(config.transcription.sherpa_onnx_provider@, platform) {
                    Err(m) => r matches Err(TranscribeError::TranscriptionFailed(e)) && e@ == m,
                    Ok((requested, candidates)) => r matches Ok(setup) && {
                        &&& spec_is_profile_of(setup.profile, model, dir)
                        &&& setup.plan.requested_provider@ == requested
                        &&& setup.plan.candidates.deep_view() == candidates
                        &&& setup.key.model@ == model
                        &&& setup.key.model_dir@ == dir
                        &&& setup.key.requested_provider@ == requested
                        &&& setup.key.num_threads == threads
                    },
                },
            }
        }),
{
    let profile = match resolve_model_profile(config, file_exists) {
        Ok(profile) => profile,
        Err(e) => return Err(TranscribeError::TranscriptionFailed(e)),
    };
    let plan = match provider_plan(config.transcription.sherpa_onnx_provider.as_str(), platform) {
        Ok(plan) => plan,
        Err(e) => return Err(TranscribeError::TranscriptionFailed(e)),
    };
    let key = recognizer_key(&profile, &plan, config);
    Ok(DecodeSetup { profile, plan, key })
}

/// A warm recognizer: the key it was created for, the provider it resolved
/// to and the fallback reason it reported.
#[derive(Debug, Clone)]
pub struct WarmRecognizer {
    pub key: RecognizerKey,
    pub resolved_provider: String,
    pub fallback_reason: Option<String>,
}

/// How a decode gets its recognizer.
#[derive(Debug, Clone, PartialEq, Eq)]
pub enum WarmStep {
    /// The warm recognizer is reused; it reports what it reported when it was
    /// created, and there is no cold load.
    Reuse { resolved_provider: String, fallback_reason: Option<String> },
    /// A recognizer must be created (a cold load).
    Create,
}

/// The text of an optional text.
pub open spec fn spec_opt_text(t: Option<String>) -> Option<Seq<char>> {
    match t {
        Some(s) => Some(s@),
        None => None,
    }
}

/// What a decode for `key` gets from the warm `cache`: the provider and
/// fallback reason of the warm recognizer when it was created for the same
/// key, otherwise nothing (a recognizer is created).
pub open spec fn spec_warm_step(cache: Option<WarmRecognizer>, key: RecognizerKey) -> Option<
    (Seq<char>, Option<Seq<char>>),
> {
    match cache {
        Some(w) => if spec_same_key(w.key, key) {
            Some((w.resolved_provider@, spec_opt_text(w.fallback_reason)))
        } else {
            None
        },
        None => None,
    }
}

/// The warm recognizer kept after one was created for `key`, resolving to
/// `provider` with `fallback_reason`.
pub open spec fn spec_kept_recognizer(
    key: RecognizerKey,
    provider: String,
    fallback_reason: Option<String>,
) -> WarmRecognizer {
    WarmRecognizer { key, resolved_provider: provider, fallback_reason }
}

fn clone_opt_text(t: &Option<String>) -> (r: Option<String>)
    ensures
        spec_opt_text(r) == spec_opt_text(*t),
{
    match t {
        Some(s) => Some(s.clone()),
        None => None,
    }
}

/// How a decode for `key` gets its recognizer, given the warm one: reused,
/// with what it reported, when it was created for the same key; created
/// otherwise.
pub fn warm_step(cache: &Option<WarmRecognizer>, key: &RecognizerKey) -> (r: WarmStep)
    ensures
        match r {
            WarmStep::Reuse { resolved_provider, fallback_reason } => spec_warm_step(*cache, *key)
                == Some((resolved_provider@, spec_opt_text(fallback_reason))),
            WarmStep::Create => spec_warm_step(*cache, *key) is None,
        },
        // A recognizer warm for exactly this key is reused, and reports what
        // it reported when it was created.
        (cache is Some && spec_identical_key(cache->0.key, *key)) ==> (r matches WarmStep::Reuse {
            resolved_provider,
            fallback_reason,
        } && resolved_provider@ == cache->0.resolved_provider@ && spec_opt_text(fallback_reason)
            == spec_opt_text(cache->0.fallback_reason)),
        // A recognizer warm for another model, directory, requested provider
        // or thread count is not reused, and none is reused when none is warm.
        (cache matches Some(w) && (w.key.model@ != key.model@ || !path_eq_result(
            w.key.model_dir@,
            key.model_dir@,
        ) || w.key.requested_provider@ != key.requested_provider@ || w.key.num_threads
            != key.num_threads)) ==> r is Create,
        cache is None ==> r is Create,
{
    match cache {
        Some(w) => {
            if same_recognizer_key(&w.key, key) {
                WarmStep::Reuse {
                    resolved_provider: w.resolved_provider.clone(),
                    fallback_reason: clone_opt_text(&w.fallback_reason),
                }
            } else {
                WarmStep::Create
            }
        },
        None => WarmStep::Create,
    }
}

} // verus!
