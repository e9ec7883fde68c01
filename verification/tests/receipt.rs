use pbrq::idl::pbbot::MessageReceipt;
use pbrq::plugin::pb_to_bytes::{PbToBytes, WireError};
use pbrq::varint::{get_varint, put_varint};

fn prost_bytes(r: &MessageReceipt) -> Vec<u8> {
    let mut buf = Vec::new();
    if r.sender_id != 0 {
        prost::encoding::int64::encode(1, &r.sender_id, &mut buf);
    }
    if r.time != 0 {
        prost::encoding::int64::encode(2, &r.time, &mut buf);
    }
    prost::encoding::int32::encode_packed(3, &r.seqs, &mut buf);
    prost::encoding::int32::encode_packed(4, &r.rands, &mut buf);
    if r.group_id != 0 {
        prost::encoding::int64::encode(5, &r.group_id, &mut buf);
    }
    buf
}

fn prost_receipt(mut buf: &[u8]) -> Option<MessageReceipt> {
    let mut r = MessageReceipt::default();
    let ctx = prost::encoding::DecodeContext::default();
    while !buf.is_empty() {
        let (tag, wire) = prost::encoding::decode_key(&mut buf).ok()?;
        match tag {
            1 => prost::encoding::int64::merge(wire, &mut r.sender_id, &mut buf, ctx.clone()).ok()?,
            2 => prost::encoding::int64::merge(wire, &mut r.time, &mut buf, ctx.clone()).ok()?,
            3 => prost::encoding::int32::merge_repeated(wire, &mut r.seqs, &mut buf, ctx.clone())
                .ok()?,
            4 => prost::encoding::int32::merge_repeated(wire, &mut r.rands, &mut buf, ctx.clone())
                .ok()?,
            5 => prost::encoding::int64::merge(wire, &mut r.group_id, &mut buf, ctx.clone()).ok()?,
            _ => prost::encoding::skip_field(wire, tag, &mut buf, ctx.clone()).ok()?,
        }
    }
    Some(r)
}

fn samples() -> Vec<MessageReceipt> {
    vec![
        MessageReceipt::default(),
        MessageReceipt { sender_id: 555, time: 1700, seqs: vec![7], rands: vec![9], group_id: 0 },
        MessageReceipt {
            sender_id: i64::MAX,
            time: i64::MIN,
            seqs: vec![0, -1, i32::MAX, i32::MIN, 127, 128, 300],
            rands: vec![-5],
            group_id: -1,
        },
        MessageReceipt { sender_id: 0, time: 0, seqs: vec![], rands: vec![1, 2, 3], group_id: 7 },
        MessageReceipt { sender_id: 1, time: 0, seqs: vec![0], rands: vec![], group_id: 0 },
    ]
}

#[test]
fn receipt_round_trip_private() {
    let r = MessageReceipt { sender_id: 555, time: 1700, seqs: vec![7], rands: vec![9], group_id: 0 };
    let bytes = r.to_bytes();
    assert_eq!(bytes, vec![0x08, 0xab, 0x04, 0x10, 0xa4, 0x0d, 0x1a, 0x01, 0x07, 0x22, 0x01, 0x09]);
    assert_eq!(MessageReceipt::from_bytes(&bytes), Ok(r));
}

#[test]
fn receipt_round_trip_is_identity() {
    for r in samples() {
        let bytes = r.to_bytes();
        assert_eq!(MessageReceipt::from_bytes(&bytes), Ok(r));
    }
}

#[test]
fn receipt_bytes_are_those_of_prost() {
    for r in samples() {
        assert_eq!(r.to_bytes(), prost_bytes(&r));
    }
}

#[test]
fn receipt_bytes_are_read_by_prost() {
    for r in samples() {
        assert_eq!(prost_receipt(&r.to_bytes()), Some(r));
    }
}

#[test]
fn receipt_empty_is_no_bytes() {
    let r = MessageReceipt::default();
    assert_eq!(r.to_bytes(), Vec::<u8>::new());
    assert_eq!(MessageReceipt::from_bytes(&[]), Ok(r));
}

#[test]
fn receipt_group_message_id() {
    let r = MessageReceipt { sender_id: 9, time: 3, seqs: vec![1, 2], rands: vec![300], group_id: 7 };
    assert_eq!(
        r.to_bytes(),
        vec![0x08, 0x09, 0x10, 0x03, 0x1a, 0x02, 0x01, 0x02, 0x22, 0x02, 0xac, 0x02, 0x28, 0x07]
    );
}

#[test]
fn receipt_negative_list_value_takes_ten_bytes() {
    let r = MessageReceipt { sender_id: 0, time: 0, seqs: vec![-1], rands: vec![], group_id: 0 };
    assert_eq!(
        r.to_bytes(),
        vec![0x1a, 0x0a, 0xff, 0xff, 0xff, 0xff, 0xff, 0xff, 0xff, 0xff, 0xff, 0x01]
    );
}

#[test]
fn receipt_reads_fields_in_any_order_and_unpacked_lists() {
    // group_id = 7, then seqs 1 and 2 as single varint fields, then sender_id = 5
    let bytes = vec![0x28, 0x07, 0x18, 0x01, 0x18, 0x02, 0x08, 0x05];
    let expected =
        MessageReceipt { sender_id: 5, time: 0, seqs: vec![1, 2], rands: vec![], group_id: 7 };
    assert_eq!(MessageReceipt::from_bytes(&bytes), Ok(expected.clone()));
    assert_eq!(prost_receipt(&bytes), Some(expected));
}

#[test]
fn receipt_last_integer_wins_and_lists_add_up() {
    let bytes = vec![0x08, 0x01, 0x08, 0x02, 0x1a, 0x01, 0x03, 0x1a, 0x02, 0x04, 0x05];
    let expected =
        MessageReceipt { sender_id: 2, time: 0, seqs: vec![3, 4, 5], rands: vec![], group_id: 0 };
    assert_eq!(MessageReceipt::from_bytes(&bytes), Ok(expected.clone()));
    assert_eq!(prost_receipt(&bytes), Some(expected));
}

#[test]
fn receipt_passes_over_unknown_fields() {
    // field 6 varint, field 7 fixed64, field 8 length-delimited, field 9 fixed32, then time = 1
    let bytes = vec![
        0x30, 0x96, 0x01, 0x39, 1, 2, 3, 4, 5, 6, 7, 8, 0x42, 0x02, 0xaa, 0xbb, 0x4d, 1, 2, 3, 4,
        0x10, 0x01,
    ];
    let expected =
        MessageReceipt { sender_id: 0, time: 1, seqs: vec![], rands: vec![], group_id: 0 };
    assert_eq!(MessageReceipt::from_bytes(&bytes), Ok(expected.clone()));
    assert_eq!(prost_receipt(&bytes), Some(expected));
}

#[test]
fn receipt_rejects_truncated_varint() {
    assert_eq!(MessageReceipt::from_bytes(&[0x08, 0x80]), Err(WireError::InvalidVarint));
    assert_eq!(MessageReceipt::from_bytes(&[0x08]), Err(WireError::InvalidVarint));
    assert_eq!(MessageReceipt::from_bytes(&[0x80]), Err(WireError::InvalidVarint));
}

#[test]
fn receipt_rejects_key_beyond_32_bits() {
    let bytes = vec![0x88, 0x80, 0x80, 0x80, 0x10, 0x01];
    assert_eq!(MessageReceipt::from_bytes(&bytes), Err(WireError::InvalidKey));
}

#[test]
fn receipt_rejects_wire_types_six_and_seven() {
    assert_eq!(MessageReceipt::from_bytes(&[0x0e, 0x00]), Err(WireError::InvalidWireType));
    assert_eq!(MessageReceipt::from_bytes(&[0x0f, 0x00]), Err(WireError::InvalidWireType));
}

#[test]
fn receipt_rejects_field_number_zero() {
    assert_eq!(MessageReceipt::from_bytes(&[0x00, 0x00]), Err(WireError::InvalidTag));
}

#[test]
fn receipt_rejects_wrong_wire_type_of_known_field() {
    assert_eq!(MessageReceipt::from_bytes(&[0x0a, 0x00]), Err(WireError::WrongWireType));
    assert_eq!(
        MessageReceipt::from_bytes(&[0x1d, 0, 0, 0, 0]),
        Err(WireError::WrongWireType)
    );
}

#[test]
fn receipt_rejects_field_longer_than_input() {
    assert_eq!(MessageReceipt::from_bytes(&[0x1a, 0x02, 0x01]), Err(WireError::BufferUnderflow));
    assert_eq!(MessageReceipt::from_bytes(&[0x39, 1, 2, 3]), Err(WireError::BufferUnderflow));
    assert_eq!(MessageReceipt::from_bytes(&[0x4d, 1, 2, 3]), Err(WireError::BufferUnderflow));
    assert_eq!(MessageReceipt::from_bytes(&[0x42, 0x05, 1]), Err(WireError::BufferUnderflow));
}

#[test]
fn receipt_passes_over_unknown_groups() {
    let time_one = MessageReceipt { time: 1, ..Default::default() };
    // an empty group 6, then time = 1
    let bytes = vec![0x33, 0x34, 0x10, 0x01];
    assert_eq!(MessageReceipt::from_bytes(&bytes), Ok(time_one.clone()));
    assert_eq!(prost_receipt(&bytes), Some(time_one.clone()));
    // group 6 with a varint, a group 7 with fixed32 in it, and bytes; then time = 1
    let bytes = vec![
        0x33, 0x08, 0x05, 0x3b, 0x4d, 1, 2, 3, 4, 0x3c, 0x12, 0x02, 9, 9, 0x34, 0x10, 0x01,
    ];
    assert_eq!(MessageReceipt::from_bytes(&bytes), Ok(time_one.clone()));
    assert_eq!(prost_receipt(&bytes), Some(time_one));
}

#[test]
fn receipt_rejects_groups_that_do_not_close() {
    for bytes in [vec![0x34u8], vec![0x33, 0x3c], vec![0x33, 0x3b, 0x34, 0x3c]] {
        assert_eq!(MessageReceipt::from_bytes(&bytes), Err(WireError::UnexpectedEndGroup));
        assert_eq!(prost_receipt(&bytes), None);
    }
    for bytes in [vec![0x33u8], vec![0x33, 0x08], vec![0x33, 0x3b, 0x3c]] {
        assert_eq!(MessageReceipt::from_bytes(&bytes), Err(WireError::InvalidVarint));
        assert_eq!(prost_receipt(&bytes), None);
    }
    assert_eq!(MessageReceipt::from_bytes(&[0x0c]), Err(WireError::WrongWireType));
    assert_eq!(MessageReceipt::from_bytes(&[0x33, 0x00]), Err(WireError::InvalidTag));
    assert_eq!(MessageReceipt::from_bytes(&[0x33, 0x0e]), Err(WireError::InvalidWireType));
    assert_eq!(MessageReceipt::from_bytes(&[0x33, 0x39, 1]), Err(WireError::BufferUnderflow));
}

fn nested_groups(depth: usize) -> Vec<u8> {
    let mut bytes = vec![0x33u8; depth];
    bytes.extend(vec![0x34u8; depth]);
    bytes
}

#[test]
fn receipt_follows_groups_a_hundred_deep() {
    let bytes = nested_groups(100);
    assert_eq!(MessageReceipt::from_bytes(&bytes), Ok(MessageReceipt::default()));
    assert_eq!(prost_receipt(&bytes), Some(MessageReceipt::default()));
    let bytes = nested_groups(101);
    assert_eq!(MessageReceipt::from_bytes(&bytes), Err(WireError::RecursionLimit));
    assert_eq!(prost_receipt(&bytes), None);
}

#[test]
fn receipt_rejects_list_value_that_crosses_the_end_of_its_field() {
    assert_eq!(
        MessageReceipt::from_bytes(&[0x1a, 0x01, 0x80, 0x01]),
        Err(WireError::InvalidVarint)
    );
}

#[test]
fn varint_exact_bytes() {
    let cases: Vec<(u64, Vec<u8>)> = vec![
        (0, vec![0x00]),
        (1, vec![0x01]),
        (127, vec![0x7f]),
        (128, vec![0x80, 0x01]),
        (300, vec![0xac, 0x02]),
        (16383, vec![0xff, 0x7f]),
        (16384, vec![0x80, 0x80, 0x01]),
        (u64::MAX, vec![0xff, 0xff, 0xff, 0xff, 0xff, 0xff, 0xff, 0xff, 0xff, 0x01]),
    ];
    for (value, bytes) in cases {
        let mut buf = vec![0xee];
        put_varint(&mut buf, value);
        assert_eq!(&buf[1..], &bytes[..]);
        let mut with_prost = Vec::new();
        prost::encoding::encode_varint(value, &mut with_prost);
        assert_eq!(with_prost, bytes);
        assert_eq!(get_varint(&buf, 1), Some((value, buf.len())));
    }
}

#[test]
fn varint_reads_from_the_middle_and_stops_after_it() {
    let bytes = vec![0xff, 0xac, 0x02, 0x05];
    assert_eq!(get_varint(&bytes, 1), Some((300, 3)));
    assert_eq!(get_varint(&bytes, 3), Some((5, 4)));
    assert_eq!(get_varint(&bytes, 4), None);
}

#[test]
fn varint_accepts_padded_zero_groups() {
    assert_eq!(get_varint(&[0x80, 0x00], 0), Some((0, 2)));
    assert_eq!(get_varint(&[0x81, 0x80, 0x00], 0), Some((1, 3)));
}

#[test]
fn varint_rejects_more_than_64_bits() {
    let too_big = vec![0xff, 0xff, 0xff, 0xff, 0xff, 0xff, 0xff, 0xff, 0xff, 0x02];
    assert_eq!(get_varint(&too_big, 0), None);
    let mut slice: &[u8] = &too_big;
    assert!(prost::encoding::decode_varint(&mut slice).is_err());
    let eleven = vec![0x80, 0x80, 0x80, 0x80, 0x80, 0x80, 0x80, 0x80, 0x80, 0x80, 0x01];
    assert_eq!(get_varint(&eleven, 0), None);
    let mut slice: &[u8] = &eleven;
    assert!(prost::encoding::decode_varint(&mut slice).is_err());
}

#[test]
fn varint_agrees_with_prost_on_many_values() {
    let mut v: u64 = 1;
    for _ in 0..200 {
        v = v.wrapping_mul(6364136223846793005).wrapping_add(1442695040888963407);
        for shift in [0u32, 7, 20, 33, 50, 57] {
            let value = v >> shift;
            let mut mine = Vec::new();
            put_varint(&mut mine, value);
            let mut theirs = Vec::new();
            prost::encoding::encode_varint(value, &mut theirs);
            assert_eq!(mine, theirs);
            assert_eq!(get_varint(&mine, 0), Some((value, mine.len())));
        }
    }
}

#[test]
fn receipt_reader_agrees_with_prost_on_many_inputs() {
    // every input of up to three bytes over a small alphabet, and many longer ones
    let alphabet: [u8; 12] = [0x00, 0x01, 0x08, 0x0a, 0x18, 0x1a, 0x28, 0x33, 0x34, 0x80, 0xff, 0x02];
    let mut inputs: Vec<Vec<u8>> = vec![vec![]];
    for a in alphabet {
        inputs.push(vec![a]);
        for b in alphabet {
            inputs.push(vec![a, b]);
            for c in alphabet {
                inputs.push(vec![a, b, c]);
            }
        }
    }
    let mut seed: u64 = 7;
    for _ in 0..3000 {
        let mut input = Vec::new();
        seed = seed.wrapping_mul(6364136223846793005).wrapping_add(1442695040888963407);
        let len = (seed >> 60) as usize;
        for _ in 0..len {
            seed = seed.wrapping_mul(6364136223846793005).wrapping_add(1442695040888963407);
            input.push(alphabet[((seed >> 33) % 12) as usize]);
        }
        inputs.push(input);
    }
    for input in inputs {
        assert_eq!(MessageReceipt::from_bytes(&input).ok(), prost_receipt(&input), "{:?}", input);
    }
}
