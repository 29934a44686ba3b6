use loopback_mp3::downmix_n_to_mono;
use loopback_mp3::downmix_n_to_stereo;
use loopback_mp3::take_first_two_channels;
use loopback_mp3::reducer::reduce_into;

#[test]
fn passthrough_is_identity() {
    let input: Vec<i16> = vec![7, -7, 32767, -32768, 0, 1];
    let mut out: Vec<i16> = vec![99, 99, 99];
    reduce_into(&input, 2, 2, true, &mut out);
    assert_eq!(out, input);
    reduce_into(&input, 3, 3, false, &mut out);
    assert_eq!(out, input);
}

#[test]
fn mono_average_of_four_channels() {
    let out = downmix_n_to_mono(&[10, 20, 30, 40], 4);
    assert_eq!(out, vec![25]);
}

#[test]
fn mono_extremes_do_not_overflow() {
    let out = downmix_n_to_mono(&[32767, 32767, 32767, 32767], 4);
    assert_eq!(out, vec![32767]);
    let out = downmix_n_to_mono(&[-32768, -32768, -32768, -32768], 4);
    assert_eq!(out, vec![-32768]);
}

#[test]
fn mono_truncates_toward_zero() {
    let out = downmix_n_to_mono(&[-1, -2], 2);
    assert_eq!(out, vec![-1]);
    let out = downmix_n_to_mono(&[1, 2], 2);
    assert_eq!(out, vec![1]);
}

#[test]
fn mono_ignores_trailing_partial_frame() {
    let out = downmix_n_to_mono(&[4, 6, 100], 2);
    assert_eq!(out, vec![5]);
}

#[test]
fn stereo_parity_partition_of_four_channels() {
    let out = downmix_n_to_stereo(&[10, 20, 30, 40], 4);
    assert_eq!(out, vec![20, 30]);
}

#[test]
fn stereo_from_single_channel_leaves_right_silent() {
    let out = downmix_n_to_stereo(&[500], 1);
    assert_eq!(out, vec![500, 0]);
}

#[test]
fn stereo_of_three_channels() {
    let out = downmix_n_to_stereo(&[12, 40, 2], 3);
    assert_eq!(out, vec![7, 40]);
}

#[test]
fn first_two_duplicates_a_single_channel() {
    let out = take_first_two_channels(&[500], 1);
    assert_eq!(out, vec![500, 500]);
}

#[test]
fn first_two_of_three_channels() {
    let out = take_first_two_channels(&[1, 2, 3], 3);
    assert_eq!(out, vec![1, 2]);
}

#[test]
fn first_two_of_many_frames() {
    let out = take_first_two_channels(&[1, 2, 3, 4, 5, 6, 7, 8], 4);
    assert_eq!(out, vec![1, 2, 5, 6]);
}

#[test]
fn averaging_handles_the_widest_frame() {
    let frame = vec![-32768i16; 65536];
    let out = downmix_n_to_mono(&frame, 65536);
    assert_eq!(out, vec![-32768]);
    let out = downmix_n_to_stereo(&frame, 65536);
    assert_eq!(out, vec![-32768, -32768]);
}
