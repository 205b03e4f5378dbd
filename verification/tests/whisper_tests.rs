use speak::whisper::{
    audio_window_from, check_min_audio, combine_segments, join_segment_texts, Segment,
    TranscriptionError, MIN_TRANSCRIBE_SAMPLES,
};

fn seg(text: &str, start: usize, end: usize) -> Segment {
    Segment { start, end, text: String::from(text), confidence: 0.7_f32.to_bits() }
}

#[test]
fn segments_compare_by_position_and_text() {
    let a = seg("hi", 0, 5);
    let mut b = seg("hi", 0, 5);
    b.confidence = 0.1_f32.to_bits();
    assert_eq!(a, b);
    assert_ne!(a, seg("ho", 0, 5));
    assert_ne!(a, seg("hi", 0, 6));
}

#[test]
fn combined_text_joins_segments_in_order() {
    let out = combine_segments(vec![seg("hello", 0, 10), seg("world", 10, 20)]);
    assert_eq!(out.combined, "hello world");
    assert_eq!(out.segments.len(), 2);
    assert_eq!(out.segments[0], seg("hello", 0, 10));
}

#[test]
fn empty_segment_texts_leave_no_double_spaces() {
    let texts = join_segment_texts(&vec![seg("a", 0, 1), seg("", 1, 2), seg("b", 2, 3)]);
    assert_eq!(texts, "a b");
    let nothing = join_segment_texts(&Vec::new());
    assert_eq!(nothing, "");
}

#[test]
fn minimum_audio_policy_is_one_second() {
    assert_eq!(MIN_TRANSCRIBE_SAMPLES, 16000);
    assert_eq!(check_min_audio(15999), Err(TranscriptionError::AudioTooShort));
    assert!(check_min_audio(16000).is_ok());
    assert!(check_min_audio(200_000).is_ok());
}

#[test]
fn audio_window_skips_committed_samples() {
    let data: Vec<u32> = (0..10u32).collect();
    assert_eq!(audio_window_from(&data, 0), data);
    assert_eq!(audio_window_from(&data, 7), vec![7, 8, 9]);
    assert!(audio_window_from(&data, 10).is_empty());
}
