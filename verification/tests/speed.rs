use pocket_tts_essential::speed::{
    audio_layout, audio_num_samples, frame_fits, search_range, speed_method, wsola_window, AudioLayout,
    SpeedMethod,
};

#[test]
fn windows_at_24k() {
    let w = wsola_window(24000);
    assert_eq!((w.win, w.hop, w.tol), (720, 360, 240));
}

#[test]
fn windows_have_floors() {
    let w = wsola_window(10);
    assert_eq!((w.win, w.hop, w.tol), (64, 32, 10));
    let w = wsola_window(0);
    assert_eq!((w.win, w.hop, w.tol), (64, 32, 10));
    let w = wsola_window(2000);
    assert_eq!((w.win, w.hop, w.tol), (64, 32, 20));
}

#[test]
fn short_audio_is_resampled() {
    assert!(matches!(speed_method(&[1, 2047], 24000), Ok(SpeedMethod::Resample)));
    assert!(matches!(speed_method(&[2047], 24000), Ok(SpeedMethod::Resample)));
    // Long enough for the 2048 floor, too short for one 48 kHz frame.
    assert!(matches!(speed_method(&[1, 2100], 48000), Ok(SpeedMethod::Resample)));
}

#[test]
fn long_audio_uses_wsola() {
    match speed_method(&[1, 48000], 24000) {
        Ok(SpeedMethod::Wsola(w)) => assert_eq!((w.win, w.hop, w.tol), (720, 360, 240)),
        _ => panic!("expected WSOLA"),
    }
    assert!(matches!(speed_method(&[24000], 24000), Ok(SpeedMethod::Wsola(_))));
}

#[test]
fn other_ranks_are_refused() {
    let e = speed_method(&[1, 2, 3], 24000).err().unwrap();
    assert_eq!(e.dims, vec![1, 2, 3]);
    assert!(speed_method(&[], 24000).is_err());
}

#[test]
fn layouts_and_sample_counts() {
    assert!(matches!(audio_layout(&[2, 10]), Some(AudioLayout::Channels { channels: 2, samples: 10 })));
    assert!(matches!(audio_layout(&[7]), Some(AudioLayout::Mono { samples: 7 })));
    assert!(audio_layout(&[1, 2, 3]).is_none());
    assert_eq!(audio_num_samples(&[1, 24000]), 24000);
    assert_eq!(audio_num_samples(&[480]), 480);
    assert_eq!(audio_num_samples(&[1, 1, 5]), 0);
}

#[test]
fn frames_stop_before_reading_past_the_end() {
    let w = wsola_window(24000);
    let n = 48000;
    // nominal + win + tol + hop must stay below n.
    assert!(frame_fits(&w, 0, 10000, 46679, n));
    assert!(!frame_fits(&w, 0, 10000, 46680, n));
    // The output window must fit the output buffer.
    assert!(frame_fits(&w, 9280, 10000, 0, n));
    assert!(!frame_fits(&w, 9281, 10000, 0, n));
}

#[test]
fn search_is_clamped() {
    let w = wsola_window(24000);
    assert_eq!(search_range(&w, 100, 48000), (0, 340));
    assert_eq!(search_range(&w, 1000, 48000), (760, 1240));
    assert_eq!(search_range(&w, 46679, 48000), (46439, 46919));
}
