# minutes_sherpa

The configuration and text rules of an experimental Sherpa ONNX transcription
engine, verified with Verus.

- `src/model.rs`: the supported model profile, its required files, the model
  directory a configuration selects, directory validation and profile
  resolution (file checks are passed in as results).
- `src/provider.rs`: provider name normalization and the provider plan
  (`auto` tries the platform's accelerated provider, then the CPU).
- `src/recognizer.rs`: the step-by-step choice of the provider a recognizer
  is created with, the setup of a decode, and when a warm recognizer is
  reused (model directories compared as paths) and what a reused one reports.
- `src/segments.rs`: the token checks made before any token time is read,
  segment text, sentence boundaries, and batch-transcription messages.
- `src/benchmark.rs`: run count, run numbers and what a benchmark keeps from
  its runs.
- `src/error.rs`: engine errors, and the answer of a build without the native
  recognizer.
- `src/decode.rs`: the finalized text of a decode result, whether it carries
  text, probe notes, and the utterance sample gate.
- `src/text.rs`: Unicode whitespace, trimming, whitespace collapsing and
  token cleanup.
- `src/laws.rs`: properties that span several functions.
- `app/lib.rs`: file checks, host platform, serialized reports, timing
  arithmetic on floating-point token times, and the engine entry points of a
  build without the native recognizer.
