use loopback_mp3::decoder::decode_le_i16;

#[test]
fn decodes_little_endian_pairs() {
    let out = decode_le_i16(&[0x34, 0x12, 0x00, 0x00, 0xFF, 0x7F]);
    assert_eq!(out, vec![0x1234, 0, 32767]);
}

#[test]
fn decodes_negative_samples() {
    let out = decode_le_i16(&[0xFF, 0xFF, 0x00, 0x80]);
    assert_eq!(out, vec![-1, -32768]);
}

#[test]
fn ignores_a_trailing_odd_byte() {
    let out = decode_le_i16(&[0x01, 0x00, 0x7F]);
    assert_eq!(out, vec![1]);
}

#[test]
fn empty_input_decodes_to_nothing() {
    let out = decode_le_i16(&[]);
    assert_eq!(out, Vec::<i16>::new());
}
