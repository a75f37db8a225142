use pocket_tts_essential::bundle::{find_local_config, is_remote_path, local_config_path, LocalBundle, MODEL_DIR_DEFAULT};

fn complete_bundle(lang: &str) -> LocalBundle {
    LocalBundle {
        weights_path: Some(format!("models/{lang}.safetensors")),
        weights_present: true,
        tokenizer_path: format!("models/{lang}.tokenizer.model"),
        tokenizer_present: true,
    }
}

#[test]
fn local_config_missing_dir() {
    // A folder that does not exist holds no readable yaml file.
    assert!(find_local_config("korean", "/nonexistent_dir_xyz", None).is_none());
    assert!(find_local_config("korean", "/tmp/empty_models_xyz", None).is_none());
    // Nor are the files a bundle would name present there.
    let absent = LocalBundle {
        weights_path: Some("/nonexistent_dir_xyz/korean.safetensors".to_string()),
        weights_present: false,
        tokenizer_path: "/nonexistent_dir_xyz/korean.tokenizer.model".to_string(),
        tokenizer_present: false,
    };
    assert!(find_local_config("korean", "/nonexistent_dir_xyz", Some(&absent)).is_none());
}

#[test]
fn local_config_bundle() {
    for lang in ["korean", "english"] {
        let bundle = complete_bundle(lang);
        let p = find_local_config(lang, MODEL_DIR_DEFAULT, Some(&bundle))
            .expect("models/{lang}.local.yaml bundle");
        assert!(std::path::Path::new(&p).ends_with(format!("{lang}.local.yaml")));
    }
}

#[test]
fn local_config_path_is_joined_onto_folder() {
    assert_eq!(local_config_path("korean", "models"), "models/korean.local.yaml");
    assert_eq!(local_config_path("english", "models/"), "models/english.local.yaml");
    assert_eq!(local_config_path("korean", ""), "korean.local.yaml");
}

#[test]
fn local_config_found_where_complete() {
    let bundle = complete_bundle("korean");
    assert_eq!(
        find_local_config("korean", "models", Some(&bundle)),
        Some("models/korean.local.yaml".to_string())
    );
}

#[test]
fn local_config_rejects_missing_weights_entry() {
    let mut bundle = complete_bundle("korean");
    bundle.weights_path = None;
    assert!(find_local_config("korean", "models", Some(&bundle)).is_none());
}

#[test]
fn local_config_rejects_absent_files() {
    let mut bundle = complete_bundle("korean");
    bundle.weights_present = false;
    assert!(find_local_config("korean", "models", Some(&bundle)).is_none());
    let mut bundle = complete_bundle("korean");
    bundle.tokenizer_present = false;
    assert!(find_local_config("korean", "models", Some(&bundle)).is_none());
}

#[test]
fn local_config_rejects_hub_files() {
    let mut bundle = complete_bundle("korean");
    bundle.weights_path = Some("hf://kyutai/pocket-tts/weights.safetensors".to_string());
    assert!(find_local_config("korean", "models", Some(&bundle)).is_none());
    let mut bundle = complete_bundle("english");
    bundle.tokenizer_path = "hf://kyutai/pocket-tts/tokenizer.model".to_string();
    assert!(find_local_config("english", "models", Some(&bundle)).is_none());
}

#[test]
fn remote_paths_are_the_hub_scheme() {
    assert!(is_remote_path("hf://a/b"));
    assert!(!is_remote_path("hf:/a/b"));
    assert!(!is_remote_path("models/hf://x"));
    assert!(!is_remote_path(""));
}
