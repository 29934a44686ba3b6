use loopback_mp3::config::plan_target;
use loopback_mp3::driver::PipelineDriver;
use loopback_mp3::driver::PipelineState;
use loopback_mp3::encoder::encode_samples;
use loopback_mp3::encoder::finish_encoder;
use loopback_mp3::encoder::make_encoder;
use loopback_mp3::errors::PipelineError;
use loopback_mp3::session::drain_should_read;
use loopback_mp3::session::packet_bytes_needed;
use loopback_mp3::session::CaptureSession;

fn raw_bytes(samples: &[i16]) -> Vec<u8> {
    let mut bytes = Vec::new();
    for s in samples {
        bytes.extend_from_slice(&s.to_le_bytes());
    }
    bytes
}

#[test]
fn buffer_reuse_leaves_no_residue() {
    let mut session = CaptureSession::new(2, 2, true);
    let big = raw_bytes(&[100, 200, 300, 400, 500, 600, 700, 800]);
    session.prepare_packet(&big);
    assert_eq!(session.pcm_buf.len(), 8);
    assert_eq!(session.enc_buf.len(), 8);

    let small = raw_bytes(&[1, -1]);
    session.prepare_packet(&small);
    assert_eq!(session.pcm_buf, vec![1, -1]);
    assert_eq!(session.enc_buf, vec![1, -1]);
}

#[test]
fn session_downmixes_a_four_channel_packet() {
    let mut session = CaptureSession::new(4, 2, true);
    let raw = raw_bytes(&[10, 20, 30, 40]);
    session.prepare_packet(&raw);
    assert_eq!(session.pcm_buf, vec![10, 20, 30, 40]);
    assert_eq!(session.enc_buf, vec![20, 30]);
}

#[test]
fn drain_reads_only_nonempty_ready_packets() {
    assert!(drain_should_read(Some(1)));
    assert!(drain_should_read(Some(480)));
    assert!(!drain_should_read(Some(0)));
    assert!(!drain_should_read(None));
}

#[test]
fn packet_sizes_count_two_bytes_per_sample() {
    assert_eq!(packet_bytes_needed(480, 2), 1920);
    assert_eq!(packet_bytes_needed(0, 8), 0);
    assert_eq!(packet_bytes_needed(1, 1), 2);
}

#[test]
fn encoder_rejects_an_unsupported_bitrate() {
    let t = plan_target(2, true);
    let r = make_encoder(48000, 999, t);
    assert!(matches!(r, Err(PipelineError::UnsupportedBitrate(999))));
}

#[test]
fn encoder_accepts_every_workable_rate_and_bitrate_pair() {
    let t = plan_target(2, true);
    assert!(make_encoder(48000, 192, t).is_ok());
    assert!(make_encoder(32000, 32, t).is_ok());
    assert!(make_encoder(24000, 144, t).is_ok());
    assert!(make_encoder(8000, 8, t).is_ok());
    assert!(make_encoder(8000, 64, t).is_ok());
}

#[test]
fn a_supported_pair_that_does_not_go_together_is_an_encoder_error() {
    let t = plan_target(2, true);
    let r = make_encoder(48000, 8, t);
    assert!(matches!(r, Err(PipelineError::Encoder(_))));
    let r = make_encoder(8000, 128, t);
    assert!(matches!(r, Err(PipelineError::Encoder(_))));
    let r = make_encoder(44100, 16, t);
    assert!(matches!(r, Err(PipelineError::Encoder(_))));
}

#[test]
fn encoder_rejects_an_empty_buffer() {
    let t = plan_target(2, true);
    let mut enc = make_encoder(48000, 192, t).unwrap();
    let r = encode_samples(&mut enc, &[]);
    assert!(matches!(r, Err(PipelineError::Encoder(_))));
}

#[test]
fn one_second_of_silence_end_to_end() {
    let t = plan_target(2, true);
    assert_eq!(t.channels, 2);
    let mut enc = make_encoder(48000, 192, t).unwrap();
    let mut session = CaptureSession::new(2, t.channels, true);

    let mut out: Vec<u8> = Vec::new();
    let packet = vec![0u8; 480 * 2 * 2];
    for _ in 0..100 {
        let chunks = session.encode_packet(&mut enc, &packet).unwrap();
        for c in chunks {
            out.extend_from_slice(&c);
        }
    }
    let tail = finish_encoder(&mut enc).unwrap();
    out.extend_from_slice(&tail);

    // 48000 frames at 1152 samples per channel per MP3 frame fill 41
    // whole frames and a padded 42nd; at 192 kbps and 48 kHz each MP3
    // frame is 144 * 192000 / 48000 = 576 bytes.
    assert_eq!(out.len() % 576, 0);
    assert_eq!(out.len(), 42 * 576);
}

#[test]
fn a_driven_session_flushes_its_tail_exactly_at_the_flush_transition() {
    let t = plan_target(2, true);
    let mut enc = make_encoder(48000, 192, t).unwrap();
    let mut session = CaptureSession::new(2, t.channels, true);
    let mut driver = PipelineDriver::begin();

    driver.activated();
    assert_eq!(driver.state, PipelineState::Recording);

    // One tick with data, then a tick whose check says stop.
    let packet = raw_bytes(&vec![1000i16; 2 * 600]);
    let mut out: Vec<u8> = Vec::new();
    for c in session.encode_packet(&mut enc, &packet).unwrap() {
        out.extend_from_slice(&c);
    }
    driver.tick_ended(true);
    assert_eq!(driver.state, PipelineState::Recording);
    driver.tick_ended(false);
    assert_eq!(driver.state, PipelineState::Stopping);

    let tail = driver.flush_tail(&mut enc).unwrap();
    assert_eq!(driver.state, PipelineState::Flushed);
    out.extend_from_slice(&tail);
    driver.complete();
    assert_eq!(driver.state, PipelineState::Done);

    // 600 frames pad out to one whole MP3 frame of 576 bytes, all of
    // it arriving with the tail.
    assert_eq!(out.len(), 576);
}
