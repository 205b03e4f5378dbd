use speak::capture::SimpleAudioCapture;

fn bits(samples: &[f32]) -> Vec<u32> {
    samples.iter().map(|s| s.to_bits()).collect()
}

#[test]
fn fresh_session_reports_nothing() {
    let cap = SimpleAudioCapture::new();
    assert_eq!(cap.get_sample_rate(), None);
    assert_eq!(cap.get_channels(), None);
    assert!(cap.get_audio_data().is_none());
    assert_eq!(cap.get_duration(), None);
}

#[test]
fn stop_then_snapshot_is_empty() {
    let mut cap = SimpleAudioCapture::new();
    cap.start();
    cap.publish_format(44100, 2);
    cap.push_samples(&bits(&[0.1, -0.1, 0.2, -0.2, 0.3, -0.3]));
    cap.stop();
    let data = cap.get_audio_data().expect("format was negotiated");
    assert!(data.is_empty());
}

#[test]
fn pause_preserves_exact_sample_count() {
    let mut cap = SimpleAudioCapture::new();
    cap.start();
    cap.publish_format(48000, 1);
    cap.push_samples(&bits(&[0.5; 480]));
    cap.push_samples(&bits(&[-0.5; 320]));
    cap.pause();
    let data = cap.get_audio_data().expect("format was negotiated");
    assert_eq!(data.len(), 800);
    assert_eq!(f32::from_bits(data[0]), 0.5);
    assert_eq!(f32::from_bits(data[799]), -0.5);
}

#[test]
fn clear_drops_buffer_and_format() {
    let mut cap = SimpleAudioCapture::new();
    cap.start();
    cap.publish_format(16000, 1);
    cap.push_samples(&bits(&[0.25; 100]));
    cap.clear();
    assert_eq!(cap.get_sample_rate(), None);
    assert_eq!(cap.get_channels(), None);
    assert!(cap.get_audio_data().is_none());
}

#[test]
fn capture_failure_leaves_idle_state() {
    let mut cap = SimpleAudioCapture::new();
    cap.start();
    cap.capture_failed();
    assert!(cap.get_audio_data().is_none());
    // A later successful run still works.
    cap.start();
    cap.publish_format(8000, 1);
    cap.push_samples(&bits(&[0.0; 80]));
    assert_eq!(cap.get_audio_data().unwrap().len(), 80);
}

#[test]
fn duration_of_three_and_a_half_seconds_mono() {
    let mut cap = SimpleAudioCapture::new();
    cap.start();
    cap.publish_format(44100, 1);
    let frames = (44100.0_f32 * 3.5) as usize; // 154350 samples
    let sine: Vec<f32> = (0..frames)
        .map(|i| (i as f32 * 2.0 * std::f32::consts::PI * 440.0 / 44100.0).sin())
        .collect();
    cap.push_samples(&bits(&sine));
    let ms = cap.get_duration().expect("format was negotiated");
    assert!(ms >= 3450 && ms <= 3550, "duration {} ms", ms);
    assert_eq!(ms, 3500);
}

#[test]
fn duration_counts_interleaved_channels_once() {
    let mut cap = SimpleAudioCapture::new();
    cap.start();
    cap.publish_format(1000, 2);
    cap.push_samples(&bits(&[0.0; 6000]));
    // 6000 samples over 2 channels at 1000 Hz: 3 seconds.
    assert_eq!(cap.get_duration(), Some(3000));
}
