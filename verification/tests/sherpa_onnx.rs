use std::path::PathBuf;

use minutes_sherpa::model::{resolve_model_dir, Config, TranscriptionConfig, DEFAULT_SHERPA_ONNX_MODEL};
use minutes_sherpa::provider::{provider_plan, HostPlatform};

const PLATFORMS: [HostPlatform; 3] = [
    HostPlatform::AppleSilicon,
    HostPlatform::LinuxOrWindows,
    HostPlatform::Other,
];

#[test]
fn provider_plan_accepts_explicit_providers() {
    for platform in PLATFORMS {
        assert_eq!(provider_plan("cpu", platform).unwrap().candidates, vec!["cpu"]);
        assert_eq!(provider_plan("coreml", platform).unwrap().candidates, vec!["coreml"]);
        assert_eq!(provider_plan("cuda", platform).unwrap().candidates, vec!["cuda"]);
    }
}

#[test]
fn provider_plan_auto_has_cpu_fallback() {
    for platform in PLATFORMS {
        let plan = provider_plan("auto", platform).unwrap();
        assert_eq!(plan.requested_provider, "auto");
        assert!(plan.candidates.iter().any(|provider| provider == "cpu"));
    }
}

#[test]
fn provider_plan_rejects_unknown_provider() {
    for platform in PLATFORMS {
        let error = provider_plan("directml", platform).unwrap_err();
        assert!(error.contains("unknown sherpa-onnx provider"));
    }
}

#[test]
fn default_model_dir_uses_transcription_model_path() {
    let mut config = Config::default();
    config.transcription = TranscriptionConfig::default();
    config.transcription.model_path = "/tmp/minutes-models".to_string();
    assert_eq!(
        PathBuf::from(resolve_model_dir(&config)),
        PathBuf::from("/tmp/minutes-models")
            .join("sherpa-onnx")
            .join(DEFAULT_SHERPA_ONNX_MODEL)
    );
}
