//! Execution-provider planning: which providers the recognizer is tried
//! with, in which order.
use vstd::prelude::*;

use crate::model::DEFAULT_SHERPA_ONNX_PROVIDER;
use crate::text::{
    ascii_lower, chars_of, spec_ascii_lower, spec_trim, string_from_chars, text_eq, trim_chars,
};

verus! {

/// The kind of machine the engine runs on, as far as provider choice goes.
#[derive(Debug, Clone, Copy, PartialEq, Eq)]
pub enum HostPlatform {
    /// macOS on Apple Silicon.
    AppleSilicon,
    /// Linux or Windows (on any processor).
    LinuxOrWindows,
    /// Any other machine.
    Other,
}

/// The providers a request is tried with, in order.
#[derive(Debug, Clone, PartialEq, Eq)]
pub struct ProviderPlan {
    /// The normalized provider that was asked for.
    pub requested_provider: String,
    /// The providers to try, first to last.
    pub candidates: Vec<String>,
}

/// A provider name as written in the configuration, normalized: trimmed and
/// ASCII-lowercased, with an empty name meaning the default provider.
pub open spec fn spec_normalize_provider(provider: Seq<char>) -> Seq<char> {
    let t = spec_trim(provider);
    if t.len() == 0 {
        DEFAULT_SHERPA_ONNX_PROVIDER@
    } else {
        t.map_values(|c: char| spec_ascii_lower(c))
    }
}

/// The providers `auto` tries on each platform: a local accelerated provider
/// first where there is one, then the CPU.
pub open spec fn spec_auto_candidates(platform: HostPlatform) -> Seq<Seq<char>> {
    match platform {
        HostPlatform::AppleSilicon => seq!["coreml"@, "cpu"@],
        HostPlatform::LinuxOrWindows => seq!["cuda"@, "cpu"@],
        HostPlatform::Other => seq!["cpu"@],
    }
}

/// The error for a provider name that is not known.
pub open spec fn spec_unknown_provider_message(provider: Seq<char>) -> Seq<char> {
    "unknown sherpa-onnx provider `"@ + provider + "`; expected auto, cpu, coreml, or cuda"@
}

/// Whether a normalized name is one of the explicit providers.
pub open spec fn spec_is_explicit_provider(provider: Seq<char>) -> bool {
    provider == "cpu"@ || provider == "coreml"@ || provider == "cuda"@
}

/// The plan for a requested provider: the normalized request and the
/// providers to try, or the error for an unknown provider.
pub open spec fn spec_provider_plan(requested: Seq<char>, platform: HostPlatform) -> Result<
    (Seq<char>, Seq<Seq<char>>),
    Seq<char>,
> {
    let r = spec_normalize_provider(requested);
    if r == "auto"@ {
        Ok((r, spec_auto_candidates(platform)))
    } else if spec_is_explicit_provider(r) {
        Ok((r, seq![r]))
    } else {
        Err(spec_unknown_provider_message(r))
    }
}

/// Normalizes a configured provider name: surrounding whitespace removed and
/// ASCII letters lowercased; an empty name selects the default provider.
pub fn normalize_provider(provider: &str) -> (r: String)
    ensures
        r@ == spec_normalize_provider(provider@),
{
    let chars = chars_of(provider);
    let t = trim_chars(&chars);
    if t.len() == 0 {
        return String::from_str(DEFAULT_SHERPA_ONNX_PROVIDER);
    }
    let mut out: Vec<char> = Vec::new();
    let n = t.len();
    let mut k: usize = 0;
    while k < n
        invariant
            k <= n == t.len(),
            out@ == t@.take(k as int).map_values(|c: char| spec_ascii_lower(c)),
        decreases n - k,
    {
        out.push(ascii_lower(t[k]));
        k = k + 1;
        assert(out@ =~= t@.take(k as int).map_values(|c: char| spec_ascii_lower(c)));
    }
    assert(t@.take(n as int) =~= t@);
    string_from_chars(&out)
}

/// The providers `auto` tries on `platform`, in order.
pub fn auto_provider_candidates(platform: HostPlatform) -> (r: Vec<String>)
    ensures
        r.deep_view() == spec_auto_candidates(platform),
{
    let r = match platform {
        HostPlatform::AppleSilicon => vec![String::from_str("coreml"), String::from_str("cpu")],
        HostPlatform::LinuxOrWindows => vec![String::from_str("cuda"), String::from_str("cpu")],
        HostPlatform::Other => vec![String::from_str("cpu")],
    };
    assert(r.deep_view() =~= spec_auto_candidates(platform));
    r
}

/// Plans which providers a recognizer is tried with. `auto` tries the
/// platform's accelerated provider first and falls back to the CPU; `cpu`,
/// `coreml` and `cuda` are tried alone; any other name is refused. The name is
/// normalized first (see `normalize_provider`).
pub fn provider_plan(requested: &str, platform: HostPlatform) -> (r: Result<ProviderPlan, String>)
    ensures
        match r {
            Ok(plan) => spec_provider_plan(requested@, platform) == Ok::<
                (Seq<char>, Seq<Seq<char>>),
                Seq<char>,
            >((plan.requested_provider@, plan.candidates.deep_view())),
            Err(e) => spec_provider_plan(requested@, platform) == Err::<
                (Seq<char>, Seq<Seq<char>>),
                Seq<char>,
            >(e@),
        },
{
    let requested = normalize_provider(requested);
    let candidates = if text_eq(requested.as_str(), "auto") {
        auto_provider_candidates(platform)
    } else if text_eq(requested.as_str(), "cpu") || text_eq(requested.as_str(), "coreml")
        || text_eq(requested.as_str(), "cuda") {
        let single = vec![requested.clone()];
        assert(single.deep_view() =~= seq![requested@]);
        single
    } else {
        return Err(
            String::from_str("unknown sherpa-onnx provider `").concat(requested.as_str()).concat(
                "`; expected auto, cpu, coreml, or cuda",
            ),
        );
    };
    Ok(ProviderPlan { requested_provider: requested, candidates })
}

} // verus!
