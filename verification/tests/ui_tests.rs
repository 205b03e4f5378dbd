use speak::ui::{UiAction, UiEvent, UiState};
use speak::whisper::{combine_segments, Segment, TranscriptionError};

fn seg(text: &str, start: usize, end: usize) -> Segment {
    Segment { start, end, text: String::from(text), confidence: 0.8_f32.to_bits() }
}

fn bits(samples: &[f32]) -> Vec<u32> {
    samples.iter().map(|s| s.to_bits()).collect()
}

#[test]
fn record_button_toggles_capture() {
    let mut ui = UiState::default();
    assert!(!ui.recording());
    let a1 = ui.update(UiEvent::OnBtnRecord);
    assert_eq!(a1, UiAction::StartCapture);
    assert!(ui.recording());
    let a2 = ui.update(UiEvent::OnBtnRecord);
    assert_eq!(a2, UiAction::StopCapture);
    assert!(!ui.recording());
}

#[test]
fn tick_without_recording_stays_idle() {
    let mut ui = UiState::default();
    assert_eq!(ui.update(UiEvent::Tick(10_000)), UiAction::Stay);
}

#[test]
fn tick_runs_transcription_after_enough_time_and_audio() {
    let mut ui = UiState::default();
    ui.update(UiEvent::OnBtnRecord);
    {
        let rec = ui.recorder_mut();
        rec.publish_format(1000, 1);
        rec.push_samples(&bits(&[0.0; 4000])); // 4 s of audio
    }
    // Too soon after the last transcription.
    assert_eq!(ui.update(UiEvent::Tick(2_000)), UiAction::Stay);
    // More than three seconds later, with more than three seconds captured.
    assert_eq!(ui.update(UiEvent::Tick(3_500)), UiAction::RunTranscription);
}

#[test]
fn tick_waits_for_three_seconds_of_audio() {
    let mut ui = UiState::default();
    ui.update(UiEvent::OnBtnRecord);
    {
        let rec = ui.recorder_mut();
        rec.publish_format(1000, 1);
        rec.push_samples(&bits(&[0.0; 1000])); // only 1 s captured
    }
    assert_eq!(ui.update(UiEvent::Tick(60_000)), UiAction::Stay);
}

#[test]
fn transcribe_shows_combined_text() {
    let mut ui = UiState::default();
    ui.update(UiEvent::OnBtnRecord);
    let out = combine_segments(vec![seg("hello", 0, 10), seg("there", 10, 20)]);
    let stopped = ui.transcribe(&out, 5_000);
    assert!(!stopped);
    assert_eq!(ui.transcription().as_str(), "hello there");
    assert!(ui.recording());
}

#[test]
fn transcribe_stops_on_spoken_end_phrase() {
    let mut ui = UiState::default();
    ui.update(UiEvent::OnBtnRecord);
    let out = combine_segments(vec![seg("note this.", 0, 10), seg("THAT'S ALL.", 10, 20)]);
    let stopped = ui.transcribe(&out, 9_000);
    assert!(stopped);
    assert!(!ui.recording());
}

#[test]
fn transcribe_stops_on_blank_audio_marker() {
    let mut ui = UiState::default();
    ui.update(UiEvent::OnBtnRecord);
    let out = combine_segments(vec![seg("[BLANK AUDIO]", 0, 10)]);
    assert!(ui.transcribe(&out, 1_000));
}

#[test]
fn error_messages_name_the_failure() {
    assert_eq!(
        TranscriptionError::AudioTooShort.message(),
        "resampled audio is too short"
    );
    assert_eq!(TranscriptionError::ResampleFailed.message(), "failed to resample audio");
    assert_eq!(TranscriptionError::NoAudioData.message(), "Failed to get audio data");
}
