use loopback_mp3::config::is_supported_bitrate;
use loopback_mp3::config::is_supported_sample_rate;
use loopback_mp3::config::plan_target;
use loopback_mp3::config::validate_config;
use loopback_mp3::errors::PipelineError;

#[test]
fn supported_sets_membership() {
    assert!(is_supported_bitrate(192));
    assert!(is_supported_bitrate(8));
    assert!(is_supported_bitrate(320));
    assert!(!is_supported_bitrate(100));
    assert!(!is_supported_bitrate(0));
    assert!(is_supported_sample_rate(48000));
    assert!(is_supported_sample_rate(44100));
    assert!(is_supported_sample_rate(8000));
    assert!(!is_supported_sample_rate(44000));
    assert!(!is_supported_sample_rate(0));
}

#[test]
fn validation_accepts_a_supported_pair() {
    assert!(validate_config(48000, 192).is_ok());
}

#[test]
fn validation_reports_the_bitrate_first() {
    let r = validate_config(44000, 100);
    assert!(matches!(r, Err(PipelineError::UnsupportedBitrate(100))));
}

#[test]
fn validation_reports_an_unsupported_sample_rate() {
    let r = validate_config(44000, 192);
    assert!(matches!(r, Err(PipelineError::UnsupportedSampleRate(44000))));
}

#[test]
fn target_format_follows_the_downmix_choice() {
    let t = plan_target(6, true);
    assert_eq!(t.channels, 2);
    assert!(!t.mono);

    let t = plan_target(6, false);
    assert_eq!(t.channels, 2);
    assert!(!t.mono);

    let t = plan_target(1, false);
    assert_eq!(t.channels, 1);
    assert!(t.mono);

    let t = plan_target(2, true);
    assert_eq!(t.channels, 2);
    assert!(!t.mono);
}
