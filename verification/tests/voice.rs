use pocket_tts_essential::path::{join_path, path_extension_chars};
use pocket_tts_essential::text::trim_str;
use pocket_tts_essential::voice::{
    is_stock_voice, resolve_voice, resolve_voice_in, stock_voice_fetch, stock_voice_list, StockFetch, VoiceSource,
};

fn stock(spec: &str, dir: Option<&str>) -> (String, Option<String>, String) {
    match resolve_voice_in(spec, dir) {
        Ok(VoiceSource::Stock { name, local, remote }) => (name, local, remote),
        _ => panic!("expected a stock voice for {spec:?}"),
    }
}

#[test]
fn stock_voice_downloads_pinned_embedding() {
    let (name, local, remote) = stock("alba", None);
    assert_eq!(name, "alba");
    assert_eq!(local, None);
    assert_eq!(
        remote,
        "hf://kyutai/pocket-tts-without-voice-cloning/languages/english/embeddings/alba.safetensors@e81d79e8194ad4c7ce879c87a4258ef20cbf2487"
    );
}

#[test]
fn stock_voice_looked_for_in_model_dir() {
    let (name, local, _) = stock("  cosette\n", Some("models"));
    assert_eq!(name, "cosette");
    assert_eq!(local, Some("models/cosette.safetensors".to_string()));
}

#[test]
fn stock_voices_are_the_eight_names() {
    assert_eq!(
        stock_voice_list(),
        vec!["alba", "marius", "javert", "jean", "fantine", "cosette", "eponine", "azelma"]
    );
    for v in stock_voice_list() {
        assert!(is_stock_voice(v));
    }
    assert!(!is_stock_voice("Alba"));
    assert!(!is_stock_voice("alb"));
    assert!(!is_stock_voice(""));
}

#[test]
fn wav_specifiers_are_cloned() {
    for spec in ["voice.wav", "a/b/Voice.WAV", "x.wave", " take.Wav ", "dir/clip.wav/", "clip.wav/."] {
        match resolve_voice(spec) {
            Ok(VoiceSource::Wav(p)) => assert_eq!(p, spec.trim()),
            _ => panic!("expected a recording for {spec:?}"),
        }
    }
}

#[test]
fn safetensors_specifiers_are_embeddings() {
    for spec in ["voice.safetensors", "models/v.SafeTensors"] {
        match resolve_voice(spec) {
            Ok(VoiceSource::Embedding(p)) => assert_eq!(p, spec),
            _ => panic!("expected an embedding for {spec:?}"),
        }
    }
}

#[test]
fn other_specifiers_are_refused() {
    for spec in ["unknown", ".wav", "voice.mp3", "voice.", "a/..", "", "voice.wav.txt", "x.wavs"] {
        assert!(resolve_voice(spec).is_err(), "{spec:?} should be refused");
    }
}

#[test]
fn refusal_message_lists_the_choices() {
    let err = resolve_voice(" nobody ").err().unwrap();
    assert_eq!(err.spec, "nobody");
    assert_eq!(
        err.message(),
        "voice 'nobody' not recognized. Use a stock voice (alba, marius, javert, jean, fantine, cosette, eponine, azelma), a .wav file, or a .safetensors file"
    );
}

#[test]
fn surrounding_space_does_not_change_the_voice() {
    let a = resolve_voice_in("\t voice.wav \u{3000}", Some("m"));
    let b = resolve_voice_in("voice.wav", Some("m"));
    match (a, b) {
        (Ok(VoiceSource::Wav(x)), Ok(VoiceSource::Wav(y))) => assert_eq!(x, y),
        _ => panic!("expected recordings"),
    }
}

#[test]
fn trim_removes_unicode_white_space() {
    assert_eq!(trim_str("  a b \n"), "a b");
    assert_eq!(trim_str("\u{a0}\u{2003}x\u{85}"), "x");
    assert_eq!(trim_str(" \t "), "");
    assert_eq!(trim_str("\u{200b}x"), "\u{200b}x");
}

#[test]
fn join_follows_unix_paths() {
    assert_eq!(join_path("models", "alba.safetensors"), "models/alba.safetensors");
    assert_eq!(join_path("models/", "a"), "models/a");
    assert_eq!(join_path("", "a"), "a");
    assert_eq!(join_path("models", "/abs/a"), "/abs/a");
}

#[test]
fn trim_agrees_with_std() {
    let mut samples: Vec<char> = (0u32..0x3100).filter_map(char::from_u32).collect();
    samples.extend(['\u{feff}', '\u{10ffff}']);
    for c in samples {
        let s = format!("{c}{c}a{c}b{c}");
        assert_eq!(trim_str(&s), s.trim(), "U+{:04X}", c as u32);
    }
}

#[test]
fn extension_agrees_with_std() {
    let cases = [
        "", "/", ".", "..", "./", "a", "a.b", "a.b.c", ".a", ".a.b", "..a", "a.", "a/b.c/", "a/b.c/.",
        "a/b.c/./.", "a/..", "a/../", "a/b.c/..", "/x/y.WAV", "x//y.z//", "./y.z", "a.b/c", "..a.b", "...",
        "a..", "a/.b", "a/.b.c", "héllo.wàv", "x.safetensors",
    ];
    for s in cases {
        let ours: Option<String> = path_extension_chars(s).map(|v| v.into_iter().collect());
        let std_ext = std::path::Path::new(s).extension().and_then(|e| e.to_str()).map(|e| e.to_string());
        assert_eq!(ours, std_ext, "{s:?}");
    }
}

#[test]
fn join_agrees_with_std() {
    let bases = ["", "/", "models", "models/", "a/b", "/abs", "a//"];
    let rels = ["", "x", "x/y", "/r", "x.local.yaml", "./x"];
    for b in bases {
        for r in rels {
            let std_join = std::path::Path::new(b).join(r);
            assert_eq!(join_path(b, r), std_join.to_str().unwrap(), "{b:?} + {r:?}");
        }
    }
}

#[test]
fn model_dir_only_matters_for_stock_voices() {
    for spec in ["clip.wav", "v.safetensors"] {
        let with_dir = resolve_voice_in(spec, Some("models"));
        let without = resolve_voice_in(spec, None);
        match (with_dir, without) {
            (Ok(VoiceSource::Wav(a)), Ok(VoiceSource::Wav(b))) => assert_eq!(a, b),
            (Ok(VoiceSource::Embedding(a)), Ok(VoiceSource::Embedding(b))) => assert_eq!(a, b),
            _ => panic!("{spec:?} changed with the model folder"),
        }
    }
    assert!(resolve_voice_in("nobody", Some("models")).is_err());
}

#[test]
fn local_stock_voice_wins_over_download() {
    
    let url = "hf://repo/alba.safetensors@rev".to_string();
    match stock_voice_fetch(Some("models/alba.safetensors".to_string()), true, url.clone()) {
        StockFetch::Local(p) => assert_eq!(p, "models/alba.safetensors"),
        _ => panic!("expected the local copy"),
    }
    match stock_voice_fetch(Some("models/alba.safetensors".to_string()), false, url.clone()) {
        StockFetch::Download(u) => assert_eq!(u, url),
        _ => panic!("expected the download"),
    }
    match stock_voice_fetch(None, true, url.clone()) {
        StockFetch::Download(u) => assert_eq!(u, url),
        _ => panic!("expected the download"),
    }
}
