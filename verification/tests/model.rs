use pocket_tts_essential::cli::{choose_model_source, Lang, ModelSource};
use pocket_tts_essential::flow_lm::{check_bos_before_voice, frame_seed, FlowLmError};
use pocket_tts_essential::model::{load_english, load_korean, ConfigSource, KOREAN_CONFIG_HF};

#[test]
fn korean_loads_bundled_variant_by_default() {
    let r = load_korean(None);
    assert!(matches!(r.config, ConfigSource::Bundled(ref v) if v == "korean"));
    assert_eq!(r.lsd_decode_steps, 1);
}

#[test]
fn english_loads_bundled_variant_by_default() {
    let r = load_english(None);
    assert!(matches!(r.config, ConfigSource::Bundled(ref v) if v == "english"));
    assert_eq!(r.lsd_decode_steps, 1);
}

#[test]
fn named_configuration_wins() {
    let r = load_korean(Some(KOREAN_CONFIG_HF));
    assert!(matches!(r.config, ConfigSource::File(ref p) if p == KOREAN_CONFIG_HF));
    let r = load_english(Some("models/english.local.yaml"));
    assert!(matches!(r.config, ConfigSource::File(ref p) if p == "models/english.local.yaml"));
}

#[test]
fn frame_seeds_mix_step_into_seed() {
    assert_eq!(frame_seed(None, 3), None);
    assert_eq!(frame_seed(Some(0), 0), Some(0));
    assert_eq!(frame_seed(Some(0), 1), Some(11400714819323198485));
    assert_eq!(frame_seed(Some(42), 7), Some(5232703935550177285));
    // The sum wraps at 2^64.
    assert_eq!(frame_seed(Some(u64::MAX), 1), Some(0));
    assert_eq!(frame_seed(Some(u64::MAX), 2), Some(11400714819323198485));
}

#[test]
fn frame_seeds_differ_between_steps() {
    let seeds: Vec<u64> = (0..200).map(|s| frame_seed(Some(12345), s).unwrap()).collect();
    for i in 0..seeds.len() {
        for j in 0..i {
            assert_ne!(seeds[i], seeds[j]);
        }
    }
}

#[test]
fn bos_frame_required_only_when_inserted() {
    assert!(check_bos_before_voice(true, false).is_err());
    assert!(check_bos_before_voice(true, true).is_ok());
    assert!(check_bos_before_voice(false, false).is_ok());
    assert!(check_bos_before_voice(false, true).is_ok());
    assert_eq!(
        FlowLmError::MissingBosBeforeVoice.message(),
        "config sets flow_lm.insert_bos_before_voice=true but the weights contain no flow_lm.bos_before_voice tensor"
    );
}

#[test]
fn language_defaults() {
    assert_eq!(Lang::Ko.variant(), "korean");
    assert_eq!(Lang::En.variant(), "english");
    assert_eq!(Lang::Ko.default_voice(), "voice.wav");
    assert_eq!(Lang::En.default_voice(), "alba");
    assert_eq!(Lang::Ko.default_text(), "안녕하세요. 한국어 음성 합성 모델입니다.");
    assert_eq!(Lang::En.default_text(), "Hello world! I am Pocket TTS, running in Rust.");
}

#[test]
fn model_source_prefers_named_then_local() {
    let s = choose_model_source(Some("my.yaml"), None);
    assert!(matches!(s, ModelSource::Explicit(ref c) if c == "my.yaml"));
    assert_eq!(s.config_override(), Some("my.yaml"));
    assert_eq!(s.describe(), "model source: explicit (my.yaml)");

    let s = choose_model_source(None, Some("models/korean.local.yaml"));
    assert_eq!(s.config_override(), Some("models/korean.local.yaml"));
    assert_eq!(s.describe(), "model source: local (models/korean.local.yaml)");

    let s = choose_model_source(None, None);
    assert_eq!(s.config_override(), None);
    assert_eq!(s.describe(), "model source: download (HF)");
}
