use rubber_duck::error::DuckError;
use rubber_duck::stt::{join_segments, prepare, TranscriptionSettings};

#[test]
fn empty_audio_is_refused_before_the_engine() {
    let audio: Vec<f32> = Vec::new();
    assert_eq!(prepare(&audio), Err(DuckError::EmptyAudioInput));
}

#[test]
fn audio_with_samples_gets_the_quiet_greedy_settings() {
    let expected = TranscriptionSettings {
        best_of: 1,
        n_threads: 1,
        print_special: false,
        print_progress: false,
        print_realtime: false,
        print_timestamps: false,
    };
    assert_eq!(prepare(&[0.0f32]), Ok(expected));
    assert_eq!(prepare(&vec![0.25f32; 16000]), Ok(expected));
}

#[test]
fn segments_are_joined_in_order_with_nothing_between() {
    let segments = vec![" Hello".to_string(), " world.".to_string(), String::new(), "!".to_string()];
    assert_eq!(join_segments(&segments), " Hello world.!");
    let text = join_segments(&segments).trim().to_lowercase();
    assert!(text.contains("hello") && text.contains("world"));
}

#[test]
fn no_segments_give_the_empty_transcript() {
    let segments: Vec<String> = Vec::new();
    assert_eq!(join_segments(&segments), "");
}

#[test]
fn multibyte_segments_are_kept_whole() {
    let segments = vec!["gr\u{fc}\u{df}".to_string(), " \u{4e16}\u{754c}".to_string()];
    assert_eq!(join_segments(&segments), "gr\u{fc}\u{df} \u{4e16}\u{754c}");
}
