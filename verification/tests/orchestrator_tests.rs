use speak::capture::SimpleAudioCapture;
use speak::config::BehaviorConfig;
use speak::orchestrator::{
    handle_transcription_error, transcribe_audio, Orchestrator, TranscribeStep,
};
use speak::whisper::{Segment, TranscriptionError};

fn seg(text: &str, start: usize, end: usize) -> Segment {
    Segment { start, end, text: String::from(text), confidence: 0.9_f32.to_bits() }
}

fn bits(samples: &[f32]) -> Vec<u32> {
    samples.iter().map(|s| s.to_bits()).collect()
}

#[test]
fn start_recording_resets_every_trace() {
    let mut orch = Orchestrator::new(BehaviorConfig::default());
    orch.start_recording();
    let _ = orch.apply_partial(&vec![seg("one", 0, 10), seg("two", 10, 20)]);
    orch.start_recording();
    assert!(orch.recording());
    assert_eq!(orch.committed_len(), 0);
    assert_eq!(orch.audio_offset(), 0);
    assert_eq!(orch.live_text().as_str(), "");
    assert_eq!(orch.transcription().as_str(), "");
}

#[test]
fn zero_segments_change_nothing() {
    let mut orch = Orchestrator::new(BehaviorConfig::default());
    orch.start_recording();
    let stop = orch.apply_partial(&vec![seg("hello", 0, 10), seg("wor", 10, 14)]);
    assert!(!stop);
    let committed_before = orch.committed_len();
    let offset_before = orch.audio_offset();
    let live_before = orch.live_text().clone();

    // 2.5 s of silence: the engine returns no segments.
    let stop2 = orch.apply_partial(&Vec::new());
    assert!(!stop2);
    assert_eq!(orch.committed_len(), committed_before);
    assert_eq!(orch.audio_offset(), offset_before);
    assert_eq!(orch.live_text(), &live_before);
}

#[test]
fn one_segment_only_replaces_live_text() {
    let mut orch = Orchestrator::new(BehaviorConfig::default());
    orch.start_recording();
    let stop = orch.apply_partial(&vec![seg("hello wor", 0, 14)]);
    assert!(!stop);
    assert_eq!(orch.committed_len(), 0);
    assert_eq!(orch.audio_offset(), 0);
    assert_eq!(orch.live_text().as_str(), "hello wor");
}

#[test]
fn several_segments_commit_all_but_the_last() {
    let mut orch = Orchestrator::new(BehaviorConfig::default());
    orch.start_recording();
    let stop = orch.apply_partial(&vec![
        seg("hello", 0, 10),
        seg("world", 10, 20),
        seg("and th", 20, 26),
    ]);
    assert!(!stop);
    assert_eq!(orch.committed_len(), 2);
    // The offset advanced by the end of the second-to-last segment.
    assert_eq!(orch.audio_offset(), 20);
    assert_eq!(orch.live_text().as_str(), "and th");
}

#[test]
fn audio_offset_never_decreases_across_cycles() {
    let mut orch = Orchestrator::new(BehaviorConfig::default());
    orch.start_recording();
    let cycles: Vec<Vec<Segment>> = vec![
        vec![seg("a", 0, 7), seg("b", 7, 12)],
        vec![],
        vec![seg("c", 0, 4)],
        vec![seg("d", 0, 3), seg("e", 3, 9), seg("f", 9, 11)],
        vec![],
    ];
    let mut last = orch.audio_offset();
    for segs in &cycles {
        let _ = orch.apply_partial(segs);
        let now = orch.audio_offset();
        assert!(now >= last, "offset went from {} to {}", last, now);
        last = now;
    }
    assert_eq!(orch.audio_offset(), 7 + 9);
}

#[test]
fn committed_history_is_append_only() {
    let mut orch = Orchestrator::new(BehaviorConfig::default());
    orch.start_recording();
    let _ = orch.apply_partial(&vec![seg("first", 0, 5), seg("sec", 5, 8)]);
    assert_eq!(orch.committed_text(0).map(String::as_str), Some("first"));
    let _ = orch.apply_partial(&vec![seg("second", 0, 4), seg("third", 4, 9), seg("fo", 9, 11)]);
    assert_eq!(orch.committed_text(0).map(String::as_str), Some("first"));
    assert_eq!(orch.committed_text(1).map(String::as_str), Some("second"));
    assert_eq!(orch.committed_text(2).map(String::as_str), Some("third"));
    assert_eq!(orch.committed_text(3), None);
}

#[test]
fn spoken_stop_phrase_requests_auto_stop() {
    let mut orch = Orchestrator::new(BehaviorConfig::default());
    orch.start_recording();
    let stop = orch.apply_partial(&vec![seg("hello world", 0, 20), seg("that's all.", 20, 32)]);
    assert!(stop);
}

#[test]
fn disabled_stop_phrase_never_requests_auto_stop() {
    let mut behavior = BehaviorConfig::default();
    behavior.stop_phrase_enabled = false;
    let mut orch = Orchestrator::new(behavior);
    orch.start_recording();
    let stop = orch.apply_partial(&vec![seg("hello", 0, 20), seg("that's all.", 20, 32)]);
    assert!(!stop);
}

#[test]
fn final_text_strips_stop_phrase_and_copies() {
    let mut orch = Orchestrator::new(BehaviorConfig::default());
    orch.start_recording();
    let to_copy = orch.apply_final(&vec![
        seg("hello", 0, 10),
        seg("world", 10, 20),
        seg("that's all.", 20, 32),
    ]);
    assert_eq!(orch.transcription().as_str(), "hello world");
    assert_eq!(to_copy.as_deref(), Some("hello world"));
    assert!(!orch.recording());
    assert_eq!(orch.live_text().as_str(), "");
}

#[test]
fn final_text_without_stop_phrase_is_kept_whole() {
    let mut orch = Orchestrator::new(BehaviorConfig::default());
    orch.start_recording();
    let _ = orch.apply_partial(&vec![seg("it was", 0, 8), seg("a day", 8, 14)]);
    let to_copy = orch.apply_final(&vec![seg("a fine day", 0, 9)]);
    assert_eq!(orch.transcription().as_str(), "it was a fine day");
    assert_eq!(to_copy.as_deref(), Some("it was a fine day"));
}

#[test]
fn auto_copy_off_publishes_without_copying() {
    let mut behavior = BehaviorConfig::default();
    behavior.auto_copy = false;
    let mut orch = Orchestrator::new(behavior);
    orch.start_recording();
    let to_copy = orch.apply_final(&vec![seg("words", 0, 5)]);
    assert!(to_copy.is_none());
    assert_eq!(orch.transcription().as_str(), "words");
}

#[test]
fn empty_final_run_keeps_display() {
    let mut orch = Orchestrator::new(BehaviorConfig::default());
    orch.start_recording();
    let to_copy = orch.apply_final(&Vec::new());
    assert!(to_copy.is_none());
    assert!(!orch.recording());
    assert_eq!(orch.transcription().as_str(), "");
}

#[test]
fn duration_tick_publishes_clock_digits() {
    let mut orch = Orchestrator::new(BehaviorConfig::default());
    orch.start_recording();
    let mut cap = SimpleAudioCapture::new();
    cap.start();
    cap.publish_format(1000, 1);
    cap.push_samples(&bits(&[0.0; 125_000])); // 125 s
    orch.duration_tick(&cap);
    assert_eq!(orch.duration_minutes().as_str(), "02");
    assert_eq!(orch.duration_seconds().as_str(), "05");
}

#[test]
fn transcribe_audio_gates_on_duration() {
    let mut cap = SimpleAudioCapture::new();
    match transcribe_audio(&cap) {
        Err(TranscriptionError::NoAudioData) => {},
        _ => panic!("expected the unavailable error"),
    }
    cap.start();
    cap.publish_format(1000, 1);
    cap.push_samples(&bits(&[0.0; 1500])); // 1.5 s: below the threshold
    match transcribe_audio(&cap) {
        Ok(TranscribeStep::Skip) => {},
        _ => panic!("expected a skipped cycle"),
    }
    cap.push_samples(&bits(&[0.0; 1500])); // now 3 s
    match transcribe_audio(&cap) {
        Ok(TranscribeStep::Run(input)) => {
            assert_eq!(input.sample_rate, 1000);
            assert_eq!(input.channels, 1);
            assert_eq!(input.data.len(), 3000);
        },
        _ => panic!("expected a transcription run"),
    }
}

#[test]
fn window_start_follows_the_offset() {
    let mut orch = Orchestrator::new(BehaviorConfig::default());
    orch.start_recording();
    assert_eq!(orch.window_start_samples(44100, 2), 0);
    let _ = orch.apply_partial(&vec![seg("a", 0, 100), seg("b", 100, 150)]);
    // Offset 100 centiseconds: one second of audio, interleaved.
    assert_eq!(orch.audio_offset(), 100);
    assert_eq!(orch.window_start_samples(44100, 2), 88200);
}

#[test]
fn errors_show_on_the_display() {
    let mut orch = Orchestrator::new(BehaviorConfig::default());
    orch.start_recording();
    handle_transcription_error(&mut orch, &TranscriptionError::AudioTooShort);
    assert_eq!(orch.transcription().as_str(), "Error: resampled audio is too short");
    assert!(orch.recording());
    handle_transcription_error(&mut orch, &TranscriptionError::EngineFailure);
    assert_eq!(orch.transcription().as_str(), "Error: Failed to transcribe audio");
}

#[test]
fn partial_due_follows_flags() {
    let mut orch = Orchestrator::new(BehaviorConfig::default());
    assert!(!orch.partial_due());
    orch.start_recording();
    assert!(orch.partial_due());
    let mut behavior = BehaviorConfig::default();
    behavior.realtime_transcribe = false;
    let mut quiet = Orchestrator::new(behavior);
    quiet.start_recording();
    assert!(!quiet.partial_due());
}
