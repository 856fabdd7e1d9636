use wakeword::config::MfccConfig;
use wakeword::detector::WakeWordDetector;
use wakeword::framing::{frame_count, FeatureLayout};

#[test]
fn test_mfcc_extraction() {
    let detector = WakeWordDetector::new();
    // Generate a simple sine wave
    let sample_rate = 16000;
    let duration = 1.0; // 1 second
    let frequency = 440.0; // A4 note
    let samples: Vec<f32> = (0..(sample_rate as f32 * duration) as usize)
        .map(|i| (2.0 * std::f32::consts::PI * frequency * i as f32 / sample_rate as f32).sin())
        .collect();

    let mfcc = detector.extract_mfcc(samples.len());
    assert!(mfcc.nrows() > 0);
    assert_eq!(mfcc.ncols(), 13);
}

#[test]
fn one_second_at_default_settings_gives_122_rows_of_13() {
    let detector = WakeWordDetector::new();
    let layout = detector.extract_mfcc(16000);
    assert_eq!(layout.nrows(), 122);
    assert_eq!(layout.ncols(), 13);
}

#[test]
fn frame_count_follows_the_formula() {
    assert_eq!(frame_count(512, 512, 128), 1);
    assert_eq!(frame_count(639, 512, 128), 1);
    assert_eq!(frame_count(640, 512, 128), 2);
    assert_eq!(frame_count(16000, 512, 128), (16000 - 512) / 128 + 1);
    assert_eq!(frame_count(1000, 400, 160), 4);
    assert_eq!(frame_count(10, 3, 3), 3);
}

#[test]
fn audio_shorter_than_a_frame_has_no_frames() {
    assert_eq!(frame_count(0, 512, 128), 0);
    assert_eq!(frame_count(511, 512, 128), 0);
    let layout = WakeWordDetector::new().extract_mfcc(511);
    assert_eq!(layout.nrows(), 0);
    assert_eq!(layout.ncols(), 13);
    assert_eq!(layout.frame_range(0), None);
}

#[test]
fn frames_advance_by_the_hop_and_stay_inside_the_audio() {
    let layout = FeatureLayout::new(1000, 400, 160, 13);
    assert_eq!(layout.nrows(), 4);
    assert_eq!(layout.frame_range(0), Some((0, 400)));
    assert_eq!(layout.frame_range(1), Some((160, 560)));
    assert_eq!(layout.frame_range(3), Some((480, 880)));
    assert_eq!(layout.frame_range(4), None);
    for index in 0..layout.nrows() {
        let (start, end) = layout.frame_range(index).unwrap();
        assert_eq!(start, index * 160);
        assert_eq!(end - start, 400);
        assert!(end <= 1000);
    }
    // one more frame would run past the end
    assert!(layout.nrows() * 160 + 400 > 1000);
}

#[test]
fn longer_audio_never_has_fewer_frames() {
    let mut previous = 0;
    for len in 0..3000 {
        let count = frame_count(len, 512, 128);
        assert!(count >= previous);
        previous = count;
    }
}

#[test]
fn default_configuration_is_the_documented_one() {
    let config = MfccConfig::default();
    assert_eq!(config.sample_rate, 16000);
    assert_eq!(config.frame_size, 512);
    assert_eq!(config.hop_size, 128);
    assert_eq!(config.num_mfcc, 13);
    assert_eq!(config.num_filters, 26);
    assert_eq!(config.min_freq, 300);
    assert_eq!(config.max_freq, 8000);
    assert!(config.is_valid());
    assert_eq!(config.num_fft_bins(), 256);
}

#[test]
fn configurations_that_break_an_invariant_are_told_apart() {
    let good = MfccConfig::default();
    assert!(!MfccConfig { frame_size: 0, ..good }.is_valid());
    assert!(!MfccConfig { hop_size: 0, ..good }.is_valid());
    assert!(!MfccConfig { hop_size: 513, ..good }.is_valid());
    assert!(!MfccConfig { num_mfcc: 27, ..good }.is_valid());
    assert!(!MfccConfig { min_freq: 8000, ..good }.is_valid());
    assert!(!MfccConfig { max_freq: 8001, ..good }.is_valid());
    assert!(MfccConfig { hop_size: 512, ..good }.is_valid());
    assert!(MfccConfig { num_mfcc: 26, ..good }.is_valid());
}
