use wasm_codegen::envelope::{
    host_endian, open, open_with_tag, seal, seal_with_tag, EnvelopeError, BIG_ENDIAN_TAG,
    LITTLE_ENDIAN_TAG,
};

fn native_tag() -> u8 {
    if 1u16.to_ne_bytes()[0] == 1 {
        b'l'
    } else {
        b'b'
    }
}

#[test]
fn host_tag_matches_target() {
    assert_eq!(host_endian(), native_tag());
    assert_eq!(LITTLE_ENDIAN_TAG, b'l');
    assert_eq!(BIG_ENDIAN_TAG, b'b');
}

#[test]
fn seal_appends_position_and_tag() {
    let payload: Vec<u8> = (0u8..17).collect();
    let pos: u64 = 0x0102_0304_0506_0708;
    let bytes = seal(payload.clone(), pos);
    assert_eq!(bytes.len(), 26);
    assert_eq!(&bytes[..17], &payload[..]);
    assert_eq!(&bytes[17..25], &pos.to_le_bytes()[..]);
    assert_eq!(bytes[25], native_tag());
    assert_eq!(open(&bytes), Ok((17, pos)));
}

#[test]
fn round_trip_on_little_endian_host() {
    let payload: Vec<u8> = vec![7; 17];
    let bytes = seal_with_tag(payload, 12, b'l');
    assert_eq!(*bytes.last().unwrap(), b'l');
    assert_eq!(&bytes[17..25], &[12, 0, 0, 0, 0, 0, 0, 0]);
    assert_eq!(open_with_tag(&bytes, b'l'), Ok((17, 12)));
}

#[test]
fn round_trip_of_many_positions() {
    for pos in [0u64, 1, 255, 256, 65535, 1 << 40, u64::MAX] {
        for len in [0usize, 1, 9, 100] {
            let bytes = seal_with_tag(vec![3; len], pos, b'b');
            assert_eq!(open_with_tag(&bytes, b'b'), Ok((len, pos)));
        }
    }
}

#[test]
fn endian_mismatch_is_refused() {
    let mut bytes = seal_with_tag(vec![1, 2, 3], 2, b'l');
    let last = bytes.len() - 1;
    bytes[last] = b'b';
    assert_eq!(
        open_with_tag(&bytes, b'l'),
        Err(EnvelopeError::IncompatibleEndian { received: 98, expected: 108 })
    );
    assert_eq!(
        open_with_tag(&seal_with_tag(vec![], 0, b'l'), b'b'),
        Err(EnvelopeError::IncompatibleEndian { received: 108, expected: 98 })
    );
}

#[test]
fn short_input_is_refused() {
    for len in 0..9usize {
        let bytes = vec![b'l'; len];
        assert_eq!(open_with_tag(&bytes, b'l'), Err(EnvelopeError::InvalidSerializedData));
        assert_eq!(open(&bytes), Err(EnvelopeError::InvalidSerializedData));
    }
}

#[test]
fn shortest_envelope_is_accepted() {
    let bytes = [5u8, 0, 0, 0, 0, 0, 0, 0, b'l'];
    assert_eq!(open_with_tag(&bytes, b'l'), Ok((0, 5)));
}
