//! The integer bookkeeping of a benchmark: how many runs, the run numbers,
//! the providers of the first run, and whether any run suited saved
//! transcripts.
use vstd::prelude::*;

verus! {

/// How many decodes a benchmark asked for `runs` makes: at least one.
pub fn benchmark_run_count(runs: usize) -> (r: usize)
    ensures
        r == if runs == 0 {
            1
        } else {
            runs
        },
{
    if runs == 0 {
        1
    } else {
        runs
    }
}

/// What a benchmark keeps across its runs.
#[derive(Debug, Clone)]
pub struct BenchmarkSummary {
    /// Runs recorded so far.
    pub runs_recorded: usize,
    /// The requested provider of the first run.
    pub requested_provider: String,
    /// The provider the first run resolved to.
    pub resolved_provider: String,
    /// The fallback reason of the first run.
    pub fallback_reason: Option<String>,
    /// The cold load time of the first run.
    pub cold_load_ms: Option<u64>,
    /// Whether any run gave output usable for saved transcripts.
    pub batch_compatible: bool,
}

impl BenchmarkSummary {
    /// The summary before any run.
    pub fn new() -> (r: Self)
        ensures
            r.runs_recorded == 0,
            r.requested_provider@ == Seq::<char>::empty(),
            r.resolved_provider@ == Seq::<char>::empty(),
            r.fallback_reason is None,
            r.cold_load_ms is None,
            !r.batch_compatible,
    {
        BenchmarkSummary {
            runs_recorded: 0,
            requested_provider: String::new(),
            resolved_provider: String::new(),
            fallback_reason: None,
            cold_load_ms: None,
            batch_compatible: false,
        }
    }

    /// Records one run and returns its number (counting from 1). The
    /// providers, fallback reason and cold load time are taken from the first
    /// run only; batch compatibility holds once any run had it.
    pub fn record_run(
        &mut self,
        requested_provider: &str,
        resolved_provider: &str,
        fallback_reason: &Option<String>,
        cold_load_ms: Option<u64>,
        batch_compatible: bool,
    ) -> (run: usize)
        requires
            old(self).runs_recorded < usize::MAX,
        ensures
            run == old(self).runs_recorded + 1,
            final(self).runs_recorded == run,
            final(self).batch_compatible == (old(self).batch_compatible || batch_compatible),
            old(self).runs_recorded == 0 ==> {
                &&& final(self).requested_provider@ == requested_provider@
                &&& final(self).resolved_provider@ == resolved_provider@
                &&& match fallback_reason {
                    Some(reason) => final(self).fallback_reason matches Some(kept) && kept@
                        == reason@,
                    None => final(self).fallback_reason is None,
                }
                &&& final(self).cold_load_ms == cold_load_ms
            },
            old(self).runs_recorded > 0 ==> {
                &&& final(self).requested_provider == old(self).requested_provider
                &&& final(self).resolved_provider == old(self).resolved_provider
                &&& final(self).fallback_reason == old(self).fallback_reason
                &&& final(self).cold_load_ms == old(self).cold_load_ms
            },
    {
        if self.runs_recorded == 0 {
            self.requested_provider = String::from_str(requested_provider);
            self.resolved_provider = String::from_str(resolved_provider);
            self.fallback_reason = match fallback_reason {
                Some(reason) => Some(reason.clone()),
                None => None,
            };
            self.cold_load_ms = cold_load_ms;
        }
        self.batch_compatible = self.batch_compatible || batch_compatible;
        self.runs_recorded = self.runs_recorded + 1;
        self.runs_recorded
    }
}

} // verus!
