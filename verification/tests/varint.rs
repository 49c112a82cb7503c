use cosmos_client::varint::{put_varint, read_varint};
use cosmos_sdk_proto::prost::encoding::{decode_varint, encode_varint, encoded_len_varint};

fn encoded(value: u64) -> Vec<u8> {
    let mut buf = Vec::new();
    put_varint(&mut buf, value);
    buf
}

#[test]
fn varint_of_small_numbers_is_one_byte() {
    assert_eq!(encoded(0), vec![0x00]);
    assert_eq!(encoded(1), vec![0x01]);
    assert_eq!(encoded(127), vec![0x7f]);
}

#[test]
fn varint_of_larger_numbers_sets_continuation_bits() {
    assert_eq!(encoded(128), vec![0x80, 0x01]);
    assert_eq!(encoded(300), vec![0xac, 0x02]);
    assert_eq!(encoded(16384), vec![0x80, 0x80, 0x01]);
    assert_eq!(
        encoded(u64::MAX),
        vec![0xff, 0xff, 0xff, 0xff, 0xff, 0xff, 0xff, 0xff, 0xff, 0x01]
    );
}

#[test]
fn varint_is_appended_to_what_is_there() {
    let mut buf = vec![9u8, 8, 7];
    put_varint(&mut buf, 300);
    assert_eq!(buf, vec![9, 8, 7, 0xac, 0x02]);
}

#[test]
fn varint_encoding_agrees_with_prost() {
    let samples = [
        0u64,
        1,
        127,
        128,
        255,
        256,
        16383,
        16384,
        1 << 21,
        (1 << 28) - 1,
        1 << 35,
        1 << 42,
        1 << 49,
        1 << 56,
        (1 << 63) - 1,
        1 << 63,
        u64::MAX - 1,
        u64::MAX,
    ];
    for value in samples {
        let mut theirs = Vec::new();
        encode_varint(value, &mut theirs);
        assert_eq!(encoded(value), theirs);
        assert_eq!(encoded(value).len(), encoded_len_varint(value));
    }
}

#[test]
fn varint_reads_back_with_position() {
    let buf = vec![0xffu8, 0xac, 0x02, 0x05];
    assert_eq!(read_varint(&buf, 1), Some((300, 3)));
    assert_eq!(read_varint(&buf, 3), Some((5, 4)));
    assert_eq!(read_varint(&[0x00], 0), Some((0, 1)));
}

#[test]
fn varint_round_trips() {
    for shift in 0..64 {
        let value = 1u64 << shift;
        for v in [value - 1, value, value + 1] {
            let buf = encoded(v);
            assert_eq!(read_varint(&buf, 0), Some((v, buf.len())));
        }
    }
    let buf = encoded(u64::MAX);
    assert_eq!(read_varint(&buf, 0), Some((u64::MAX, 10)));
}

#[test]
fn varint_at_the_end_of_the_buffer_is_none() {
    assert_eq!(read_varint(&[], 0), None);
    assert_eq!(read_varint(&[0x01], 1), None);
    assert_eq!(read_varint(&[0x80], 0), None);
    assert_eq!(read_varint(&[0xff, 0xff], 0), None);
}

#[test]
fn varint_longer_than_needed_is_accepted() {
    assert_eq!(read_varint(&[0x80, 0x00], 0), Some((0, 2)));
    assert_eq!(read_varint(&[0x81, 0x80, 0x00], 0), Some((1, 3)));
}

#[test]
fn varint_of_ten_bytes_must_fit_64_bits() {
    let max = [0xffu8, 0xff, 0xff, 0xff, 0xff, 0xff, 0xff, 0xff, 0xff, 0x01];
    assert_eq!(read_varint(&max, 0), Some((u64::MAX, 10)));
    let too_large = [0xffu8, 0xff, 0xff, 0xff, 0xff, 0xff, 0xff, 0xff, 0xff, 0x02];
    assert_eq!(read_varint(&too_large, 0), None);
    let too_long = [0xffu8, 0xff, 0xff, 0xff, 0xff, 0xff, 0xff, 0xff, 0xff, 0x80, 0x00];
    assert_eq!(read_varint(&too_long, 0), None);
}

#[test]
fn varint_decoding_agrees_with_prost() {
    let inputs: Vec<Vec<u8>> = vec![
        vec![],
        vec![0x00],
        vec![0x7f, 0x01],
        vec![0x80],
        vec![0x80, 0x00],
        vec![0xac, 0x02, 0xff],
        vec![0xff, 0xff, 0xff, 0xff, 0xff, 0xff, 0xff, 0xff, 0xff, 0x01],
        vec![0xff, 0xff, 0xff, 0xff, 0xff, 0xff, 0xff, 0xff, 0xff, 0x02],
        vec![0xff, 0xff, 0xff, 0xff, 0xff, 0xff, 0xff, 0xff, 0xff, 0x7f],
        vec![0xff, 0xff, 0xff, 0xff, 0xff, 0xff, 0xff, 0xff, 0xff, 0x80, 0x01],
        vec![0x80, 0x80, 0x80, 0x80, 0x80, 0x80, 0x80, 0x80, 0x80, 0x00, 0x05],
        vec![0x80, 0x80, 0x80, 0x80, 0x80, 0x80, 0x80, 0x80, 0x80, 0x01, 0x05, 0x06],
    ];
    for input in inputs {
        let mut rest: &[u8] = &input;
        let theirs = decode_varint(&mut rest).ok().map(|v| (v, input.len() - rest.len()));
        assert_eq!(read_varint(&input, 0), theirs, "input {:?}", input);
    }
}
