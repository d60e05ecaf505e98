use minutes_sherpa::decode::{
    check_utterance_samples, decode_has_text, probe_notes, text_from_decode_result, BATCH_COMPATIBLE_NOTE, NO_TEXT_NOTE,
    TEXT_WITHOUT_TIMING_NOTE,
};
use minutes_sherpa::benchmark::{benchmark_run_count, BenchmarkSummary};
use minutes_sherpa::error::{engine_not_available, TranscribeError};
use minutes_sherpa::model::{
    effective_num_threads, model_archive_url, required_model_files, resolve_model_dir,
    probe_model_profile, resolve_model_profile, validate_model_dir, Config, DEFAULT_SHERPA_ONNX_MODEL,
    SHERPA_ONNX_MODEL_ARCHIVE_URL,
};
use minutes_sherpa::provider::{
    auto_provider_candidates, normalize_provider, provider_plan, HostPlatform,
};
use minutes_sherpa::segments::{
    ends_sentence, incompatible_output_message, segment_text, timed_token_texts, TokenText,
};
use minutes_sherpa::recognizer::{
    decode_setup, needs_reload, warm_step, WarmRecognizer, WarmStep, next_recognizer_step, recognizer_key, RecognizerKey,
    RecognizerStep,
};
use minutes_sherpa::text::{
    char_preview, decimal_text, is_unicode_whitespace, word_count, normalize_joined_text, normalize_token_text,
};
use std::path::Path;

fn tokens(list: &[&str]) -> Vec<String> {
    list.iter().map(|t| t.to_string()).collect()
}

fn joined(dir: &str, file: &str) -> String {
    Path::new(dir).join(file).to_string_lossy().into_owned()
}

#[test]
fn whitespace_agrees_with_std_for_every_char() {
    for code in 0u32..=0x10FFFF {
        if let Some(c) = char::from_u32(code) {
            assert_eq!(is_unicode_whitespace(c), c.is_whitespace(), "U+{code:04X}");
        }
    }
}

#[test]
fn joined_text_collapses_whitespace() {
    assert_eq!(normalize_joined_text(" hello   world "), "hello world");
    assert_eq!(normalize_joined_text("\t a\n\u{3000}b\u{a0}"), "a b");
    assert_eq!(normalize_joined_text(""), "");
    assert_eq!(normalize_joined_text(" \n\t "), "");
    for sample in ["one", "  two  words ", "a\u{2028}b\u{85}c", "x  y\t\tz\n"] {
        let expected = sample.split_whitespace().collect::<Vec<_>>().join(" ");
        let once = normalize_joined_text(sample);
        assert_eq!(once, expected);
        assert_eq!(normalize_joined_text(&once), once);
    }
}

#[test]
fn token_text_cleanup() {
    assert_eq!(normalize_token_text("\u{2581}hello"), " hello");
    assert_eq!(normalize_token_text("\u{0120}world"), " world");
    assert_eq!(normalize_token_text("un##able"), "unable");
    assert_eq!(normalize_token_text("###"), "#");
    assert_eq!(normalize_token_text("####"), "");
    assert_eq!(normalize_token_text("<blk>"), "");
    assert_eq!(normalize_token_text("  <unk>\n"), "");
    assert_eq!(normalize_token_text("<"), "<");
    assert_eq!(normalize_token_text(" plain "), " plain ");
    for sample in ["##ing", "\u{2581}a##b", "c#d", "<x", "y>"] {
        let trimmed = sample.trim();
        let expected = if trimmed.starts_with('<') && trimmed.ends_with('>') {
            String::new()
        } else {
            sample
                .replace('\u{2581}', " ")
                .replace('\u{0120}', " ")
                .replace("##", "")
        };
        assert_eq!(normalize_token_text(sample), expected);
    }
}

#[test]
fn preview_keeps_leading_characters() {
    assert_eq!(char_preview("héllo", 2), "hé");
    assert_eq!(char_preview("héllo", 200), "héllo");
    assert_eq!(char_preview("abc", 0), "");
}

#[test]
fn text_only_result_gives_normalized_text() {
    assert_eq!(
        text_from_decode_result(" hello   world ", &Vec::new()),
        Some("hello world".to_string())
    );
}

#[test]
fn empty_text_falls_back_to_tokens() {
    let toks = tokens(&["\u{2581}hello", "\u{2581}world"]);
    assert_eq!(text_from_decode_result("", &toks), Some("hello world".to_string()));
}

#[test]
fn blank_result_gives_no_text() {
    let toks = tokens(&["<blk>"]);
    assert_eq!(text_from_decode_result("   ", &toks), None);
    assert!(decode_has_text("   ", &toks));
}

#[test]
fn blank_tokens_do_not_split_words() {
    let toks = tokens(&["hel", "  ", "lo", "<blk>", " there"]);
    assert_eq!(text_from_decode_result("", &toks), Some("hello there".to_string()));
}

#[test]
fn text_presence() {
    assert!(decode_has_text(" hi ", &Vec::new()));
    assert!(!decode_has_text("", &Vec::new()));
    assert!(!decode_has_text(" ", &tokens(&["  ", "\t"])));
    assert!(decode_has_text("", &tokens(&[" ", "x"])));
}

#[test]
fn probe_notes_cover_each_case() {
    assert_eq!(
        probe_notes(true, true, "auto", "cuda", &None),
        vec![BATCH_COMPATIBLE_NOTE.to_string()]
    );
    assert_eq!(
        probe_notes(false, true, "cpu", "cpu", &None),
        vec![TEXT_WITHOUT_TIMING_NOTE.to_string()]
    );
    assert_eq!(
        probe_notes(false, false, "cuda", "cpu", &Some("why".to_string())),
        vec![
            NO_TEXT_NOTE.to_string(),
            "Requested provider `cuda` resolved to `cpu`.".to_string(),
            "why".to_string()
        ]
    );
}

#[test]
fn archive_url_only_for_supported_model() {
    assert_eq!(
        model_archive_url(DEFAULT_SHERPA_ONNX_MODEL),
        Some(SHERPA_ONNX_MODEL_ARCHIVE_URL)
    );
    assert_eq!(model_archive_url("other-model"), None);
}

#[test]
fn required_files_of_supported_model() {
    assert_eq!(
        required_model_files(DEFAULT_SHERPA_ONNX_MODEL).unwrap(),
        vec!["encoder.int8.onnx", "decoder.int8.onnx", "joiner.int8.onnx", "tokens.txt"]
    );
    assert_eq!(
        required_model_files("whisper").unwrap_err(),
        format!(
            "unknown sherpa-onnx model `whisper`; v1 supports `{DEFAULT_SHERPA_ONNX_MODEL}`"
        )
    );
}

#[test]
fn model_dir_validation() {
    let dir = "/models/parakeet";
    assert_eq!(
        validate_model_dir(DEFAULT_SHERPA_ONNX_MODEL, dir, &vec![true; 4]),
        Ok(())
    );
    assert_eq!(
        validate_model_dir(DEFAULT_SHERPA_ONNX_MODEL, dir, &vec![true, false, true, false]),
        Err(format!(
            "missing Sherpa ONNX model file: {}",
            joined(dir, "decoder.int8.onnx")
        ))
    );
    assert_eq!(
        validate_model_dir(DEFAULT_SHERPA_ONNX_MODEL, dir, &vec![true, true, true]),
        Err(format!("missing Sherpa ONNX model file: {}", joined(dir, "tokens.txt")))
    );
    assert!(validate_model_dir("x", dir, &vec![true; 4])
        .unwrap_err()
        .starts_with("unknown sherpa-onnx model `x`"));
}

#[test]
fn explicit_model_dir_wins() {
    let mut config = Config::default();
    config.transcription.model_path = "/tmp/models".to_string();
    config.transcription.sherpa_onnx_model_dir = Some("/opt/parakeet".to_string());
    assert_eq!(resolve_model_dir(&config), "/opt/parakeet");
}

#[test]
fn profile_uses_trimmed_model_and_resolved_dir() {
    let mut config = Config::default();
    config.transcription.model_path = "/tmp/models".to_string();
    config.transcription.sherpa_onnx_model = format!("  {DEFAULT_SHERPA_ONNX_MODEL}\n");
    config.transcription.sherpa_onnx_model_dir = Some("/opt/parakeet".to_string());
    let profile = resolve_model_profile(&config, &vec![true; 4]).unwrap();
    assert_eq!(profile.model, DEFAULT_SHERPA_ONNX_MODEL);
    assert_eq!(profile.model_dir, "/opt/parakeet");
    assert_eq!(profile.encoder, "/opt/parakeet/encoder.int8.onnx");
    assert_eq!(profile.decoder, "/opt/parakeet/decoder.int8.onnx");
    assert_eq!(profile.joiner, "/opt/parakeet/joiner.int8.onnx");
    assert_eq!(profile.tokens, "/opt/parakeet/tokens.txt");
    assert_eq!(profile.model_type, "nemo_transducer");

    assert_eq!(
        resolve_model_profile(&config, &vec![false; 4]).unwrap_err(),
        "missing Sherpa ONNX model file: /opt/parakeet/encoder.int8.onnx"
    );
    config.transcription.sherpa_onnx_model = " other ".to_string();
    assert_eq!(
        resolve_model_profile(&config, &vec![true; 4]).unwrap_err(),
        format!("unknown sherpa-onnx model `other`; v1 supports `{DEFAULT_SHERPA_ONNX_MODEL}`")
    );
}

#[test]
fn thread_count_defaults_when_not_positive() {
    let mut config = Config::default();
    config.transcription.sherpa_onnx_num_threads = 0;
    assert_eq!(effective_num_threads(&config), 4);
    config.transcription.sherpa_onnx_num_threads = -3;
    assert_eq!(effective_num_threads(&config), 4);
    config.transcription.sherpa_onnx_num_threads = 8;
    assert_eq!(effective_num_threads(&config), 8);
}

#[test]
fn provider_names_are_normalized() {
    assert_eq!(normalize_provider(" CUDA "), "cuda");
    assert_eq!(normalize_provider("CoreML"), "coreml");
    assert_eq!(normalize_provider(""), "auto");
    assert_eq!(normalize_provider(" \t"), "auto");
    for name in [" CUDA ", "", "Auto", "x Y\u{3000}"] {
        let once = normalize_provider(name);
        assert_eq!(normalize_provider(&once), once);
    }
    let plan = provider_plan(" CPU ", HostPlatform::Other).unwrap();
    assert_eq!(plan.requested_provider, "cpu");
    assert_eq!(plan.candidates, vec!["cpu"]);
    assert_eq!(
        provider_plan(" Auto ", HostPlatform::LinuxOrWindows),
        provider_plan("auto", HostPlatform::LinuxOrWindows)
    );
    assert_eq!(
        provider_plan("", HostPlatform::AppleSilicon),
        provider_plan("auto", HostPlatform::AppleSilicon)
    );
}

#[test]
fn auto_candidates_per_platform() {
    assert_eq!(auto_provider_candidates(HostPlatform::AppleSilicon), vec!["coreml", "cpu"]);
    assert_eq!(auto_provider_candidates(HostPlatform::LinuxOrWindows), vec!["cuda", "cpu"]);
    assert_eq!(auto_provider_candidates(HostPlatform::Other), vec!["cpu"]);
}

#[test]
fn unknown_provider_message() {
    assert_eq!(
        provider_plan("DirectML", HostPlatform::Other).unwrap_err(),
        "unknown sherpa-onnx provider `directml`; expected auto, cpu, coreml, or cuda"
    );
}

#[test]
fn auto_recognizer_falls_back_in_order() {
    let plan = provider_plan("auto", HostPlatform::LinuxOrWindows).unwrap();
    assert_eq!(next_recognizer_step(&plan, &vec![]), RecognizerStep::Attempt(0));
    assert_eq!(next_recognizer_step(&plan, &vec![false]), RecognizerStep::Attempt(1));
    assert_eq!(
        next_recognizer_step(&plan, &vec![true]),
        RecognizerStep::Resolved { provider: "cuda".to_string(), fallback_reason: None }
    );
    assert_eq!(
        next_recognizer_step(&plan, &vec![false, true]),
        RecognizerStep::Resolved {
            provider: "cpu".to_string(),
            fallback_reason: Some(
                "provider `cuda` failed; using `cpu` (`cuda` recognizer creation returned null)"
                    .to_string()
            ),
        }
    );
    assert_eq!(
        next_recognizer_step(&plan, &vec![false, false]),
        RecognizerStep::Failed(TranscribeError::TranscriptionFailed(
            "failed to create sherpa-onnx recognizer for provider `auto`: `cuda` recognizer creation returned null; `cpu` recognizer creation returned null"
                .to_string()
        ))
    );
}

#[test]
fn explicit_recognizer_is_tried_once() {
    let plan = provider_plan("cuda", HostPlatform::LinuxOrWindows).unwrap();
    assert_eq!(next_recognizer_step(&plan, &vec![]), RecognizerStep::Attempt(0));
    assert_eq!(
        next_recognizer_step(&plan, &vec![false]),
        RecognizerStep::Failed(TranscribeError::TranscriptionFailed(
            "failed to create sherpa-onnx recognizer for provider `cuda`: `cuda` recognizer creation returned null"
                .to_string()
        ))
    );
}

#[test]
fn utterance_sample_gate() {
    assert_eq!(check_utterance_samples(0), Err(TranscribeError::EmptyAudio));
    assert_eq!(check_utterance_samples(15_999), Ok(false));
    assert_eq!(check_utterance_samples(16_000), Ok(true));
}

#[test]
fn probe_profile_falls_back_to_configuration() {
    let mut config = Config::default();
    config.transcription.model_path = "/tmp/models".to_string();
    config.transcription.sherpa_onnx_model = " odd-model ".to_string();
    let profile = probe_model_profile(&config, &vec![true; 4]);
    assert_eq!(profile.model, " odd-model ");
    assert_eq!(
        profile.model_dir,
        joined(&joined("/tmp/models", "sherpa-onnx"), " odd-model ")
    );
    assert_eq!(profile.encoder, "");
    assert_eq!(profile.tokens, "");
    assert_eq!(profile.model_type, "nemo_transducer");

    config.transcription.sherpa_onnx_model = DEFAULT_SHERPA_ONNX_MODEL.to_string();
    let resolved = probe_model_profile(&config, &vec![true; 4]);
    assert_eq!(resolved, resolve_model_profile(&config, &vec![true; 4]).unwrap());
}

#[test]
fn warm_recognizer_is_reused_for_the_same_key() {
    let mut config = Config::default();
    config.transcription.model_path = "/tmp/models".to_string();
    config.transcription.sherpa_onnx_num_threads = 0;
    let profile = probe_model_profile(&config, &vec![true; 4]);
    let plan = provider_plan("cpu", HostPlatform::Other).unwrap();
    let key = recognizer_key(&profile, &plan, &config);
    assert_eq!(key.num_threads, 4);
    assert_eq!(key.requested_provider, "cpu");
    assert!(needs_reload(&None, &key));
    assert!(!needs_reload(&Some(key.clone()), &key));
    config.transcription.sherpa_onnx_num_threads = 2;
    let other = recognizer_key(&profile, &plan, &config);
    assert!(needs_reload(&Some(key), &other));
}

#[test]
fn cleaned_tokens_hold_no_double_hash() {
    for sample in ["##", "###", "a####b", "#x##y#", "\u{2581}##"] {
        assert!(!normalize_token_text(sample).contains("##"), "{sample}");
    }
}

#[test]
fn model_dir_valid_only_with_every_file() {
    for mask in 0u8..16 {
        let found: Vec<bool> = (0..4).map(|i| mask & (1 << i) != 0).collect();
        let result = validate_model_dir(DEFAULT_SHERPA_ONNX_MODEL, "/m", &found);
        assert_eq!(result.is_ok(), mask == 15);
    }
}

#[test]
fn finalized_text_implies_text_present() {
    let cases: Vec<(&str, Vec<String>)> = vec![
        ("", tokens(&["a"])),
        (" x ", Vec::new()),
        ("", tokens(&["<blk>", "\u{2581}"])),
        ("\t", tokens(&["  "])),
    ];
    for (text, toks) in cases {
        if let Some(t) = text_from_decode_result(text, &toks) {
            assert!(decode_has_text(text, &toks));
            assert!(!t.is_empty());
            assert_eq!(normalize_joined_text(&t), t);
        }
    }
}

#[test]
fn model_dirs_are_compared_as_paths() {
    let key = |dir: &str| RecognizerKey {
        model: DEFAULT_SHERPA_ONNX_MODEL.to_string(),
        model_dir: dir.to_string(),
        requested_provider: "cpu".to_string(),
        num_threads: 4,
    };
    assert!(!needs_reload(&Some(key("/opt/m")), &key("/opt/m/")));
    assert!(!needs_reload(&Some(key("/opt//m")), &key("/opt/m")));
    assert!(needs_reload(&Some(key("/opt/m")), &key("/opt/n")));
}

#[test]
fn engine_is_not_available_in_this_build() {
    let result: Result<Option<()>, TranscribeError> = engine_not_available();
    assert_eq!(result, Err(TranscribeError::EngineNotAvailable("sherpa-onnx".to_string())));
}

#[test]
fn decode_setup_reports_profile_before_provider() {
    let mut config = Config::default();
    config.transcription.sherpa_onnx_model_dir = Some("/opt/parakeet".to_string());
    config.transcription.sherpa_onnx_provider = "directml".to_string();
    assert_eq!(
        decode_setup(&config, &vec![false; 4], HostPlatform::Other).unwrap_err(),
        TranscribeError::TranscriptionFailed(
            "missing Sherpa ONNX model file: /opt/parakeet/encoder.int8.onnx".to_string()
        )
    );
    assert_eq!(
        decode_setup(&config, &vec![true; 4], HostPlatform::Other).unwrap_err(),
        TranscribeError::TranscriptionFailed(
            "unknown sherpa-onnx provider `directml`; expected auto, cpu, coreml, or cuda"
                .to_string()
        )
    );
    config.transcription.sherpa_onnx_provider = " AUTO ".to_string();
    config.transcription.sherpa_onnx_num_threads = -1;
    let setup = decode_setup(&config, &vec![true; 4], HostPlatform::AppleSilicon).unwrap();
    assert_eq!(setup.plan.candidates, vec!["coreml", "cpu"]);
    assert_eq!(setup.key.requested_provider, "auto");
    assert_eq!(setup.key.model_dir, "/opt/parakeet");
    assert_eq!(setup.key.num_threads, 4);
    assert_eq!(setup.profile.tokens, "/opt/parakeet/tokens.txt");
}

#[test]
fn benchmark_bookkeeping() {
    assert_eq!(benchmark_run_count(0), 1);
    assert_eq!(benchmark_run_count(3), 3);
    let mut summary = BenchmarkSummary::new();
    assert_eq!(summary.record_run("auto", "cuda", &None, Some(120), false), 1);
    assert_eq!(
        summary.record_run("cpu", "cpu", &Some("later".to_string()), None, true),
        2
    );
    assert_eq!(summary.record_run("cpu", "cpu", &None, None, false), 3);
    assert_eq!(summary.runs_recorded, 3);
    assert_eq!(summary.requested_provider, "auto");
    assert_eq!(summary.resolved_provider, "cuda");
    assert_eq!(summary.fallback_reason, None);
    assert_eq!(summary.cold_load_ms, Some(120));
    assert!(summary.batch_compatible);
}

fn cpu_key(dir: &str, threads: i32) -> RecognizerKey {
    RecognizerKey {
        model: DEFAULT_SHERPA_ONNX_MODEL.to_string(),
        model_dir: dir.to_string(),
        requested_provider: "auto".to_string(),
        num_threads: threads,
    }
}

#[test]
fn warm_recognizer_reused_for_same_key() {
    assert_eq!(warm_step(&None, &cpu_key("/m", 4)), WarmStep::Create);
    let warm = Some(WarmRecognizer {
        key: cpu_key("/m", 4),
        resolved_provider: "cpu".to_string(),
        fallback_reason: Some("cuda failed".to_string()),
    });
    assert_eq!(
        warm_step(&warm, &cpu_key("/m/", 4)),
        WarmStep::Reuse {
            resolved_provider: "cpu".to_string(),
            fallback_reason: Some("cuda failed".to_string()),
        }
    );
    assert_eq!(warm_step(&warm, &cpu_key("/m", 2)), WarmStep::Create);
}

#[test]
fn token_checks_before_times() {
    let toks = tokens(&["\u{2581}hello", "<blk>", " ", "world", "."]);
    assert_eq!(
        timed_token_texts(&toks, None).unwrap_err(),
        "missing token timestamps"
    );
    assert_eq!(
        timed_token_texts(&Vec::new(), Some(3)).unwrap_err(),
        "missing tokens"
    );
    assert_eq!(
        timed_token_texts(&toks, Some(4)).unwrap_err(),
        "timestamp count 4 is smaller than token count 5"
    );
    assert_eq!(
        timed_token_texts(&tokens(&["<blk>", "  "]), Some(2)).unwrap_err(),
        "tokens normalize to empty text"
    );
    assert_eq!(
        timed_token_texts(&toks, Some(5)).unwrap(),
        vec![
            TokenText { index: 0, text: " hello".to_string() },
            TokenText { index: 3, text: "world".to_string() },
            TokenText { index: 4, text: ".".to_string() },
        ]
    );
}

#[test]
fn segment_text_and_boundaries() {
    let parts = tokens(&[" hello", " world", "."]);
    assert_eq!(segment_text(&parts), "hello world.");
    assert!(ends_sentence("hello world."));
    assert!(ends_sentence("really?"));
    assert!(ends_sentence("wow!"));
    assert!(!ends_sentence("hello"));
    assert!(!ends_sentence(""));
}

#[test]
fn batch_helpers() {
    assert_eq!(
        incompatible_output_message("missing tokens"),
        "sherpa-onnx output is not compatible with saved meeting transcripts: missing tokens"
    );
    assert_eq!(word_count("  hello   world \n again"), 3);
    assert_eq!(word_count(""), 0);
    for n in [0usize, 7, 10, 99, 100, 12345, usize::MAX] {
        assert_eq!(decimal_text(n), n.to_string());
    }
}
