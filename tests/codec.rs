use message_program::codec::{decode, encode, CodecError, Messege, DATA_LEN, MESSAGE_LEN, SENDER_ID_LEN};

fn sample(fee: Option<u64>) -> Messege {
    let mut sender_id = [0u8; SENDER_ID_LEN];
    for (i, b) in sender_id.iter_mut().enumerate() {
        *b = i as u8 + 1;
    }
    let mut data = [0u8; DATA_LEN];
    for (i, b) in data.iter_mut().enumerate() {
        *b = (i % 251) as u8;
    }
    Messege {
        discriminator: 0x0102_0304_0506_0708,
        sender_id,
        size: 4096,
        priority_fee: fee,
        data,
    }
}

#[test]
fn record_length_is_fixed() {
    assert_eq!(MESSAGE_LEN, 1080);
    assert_eq!(Messege::LEN, 1080);
    assert_eq!(encode(sample(None)).len(), MESSAGE_LEN);
    assert_eq!(encode(sample(Some(u64::MAX))).len(), MESSAGE_LEN);
}

#[test]
fn fields_sit_at_fixed_offsets() {
    let bytes = encode(sample(Some(0x1122)));
    assert_eq!(&bytes[0..8], &[8, 7, 6, 5, 4, 3, 2, 1]);
    let sender: Vec<u8> = (1..=32).collect();
    assert_eq!(&bytes[8..40], sender.as_slice());
    assert_eq!(&bytes[40..48], &[0, 0x10, 0, 0, 0, 0, 0, 0]);
    assert_eq!(&bytes[48..56], &[0x22, 0x11, 0, 0, 0, 0, 0, 0]);
    assert_eq!(bytes[56], 0);
    assert_eq!(bytes[57], 1);
    assert_eq!(bytes[56 + 300], (300 % 251) as u8);
    assert_eq!(bytes[1079], (1023 % 251) as u8);
}

#[test]
fn absent_fee_is_written_as_zero_word() {
    let bytes = encode(sample(None));
    assert_eq!(&bytes[48..56], &[0u8; 8]);
}

#[test]
fn round_trip_keeps_every_field() {
    for fee in [None, Some(1), Some(0x00de_adbe_ef00), Some(u64::MAX)] {
        let m = sample(fee);
        assert_eq!(decode(&encode(m)), Ok(m));
    }
    let mut m = sample(Some(9));
    m.discriminator = u64::MAX;
    m.size = 0;
    m.sender_id = [0xff; SENDER_ID_LEN];
    assert_eq!(decode(&encode(m)), Ok(m));
}

#[test]
fn decode_rejects_wrong_lengths() {
    let bytes = encode(sample(Some(5)));
    assert_eq!(decode(&[]), Err(CodecError::SizeMismatch));
    assert_eq!(decode(&bytes[..MESSAGE_LEN - 1]), Err(CodecError::SizeMismatch));
    let mut longer = bytes.to_vec();
    longer.push(0);
    assert_eq!(decode(&longer), Err(CodecError::SizeMismatch));
}

#[test]
fn zero_fee_slot_decodes_as_absent() {
    let zeros = [0u8; MESSAGE_LEN];
    let m = decode(&zeros).unwrap();
    assert_eq!(m.priority_fee, None);
    assert_eq!(m.discriminator, 0);
    assert_eq!(m.size, 0);
    assert_eq!(m.sender_id, [0u8; SENDER_ID_LEN]);
    assert_eq!(m.data, [0u8; DATA_LEN]);
}

#[test]
fn nonzero_fee_slot_decodes_as_present() {
    let mut bytes = [0u8; MESSAGE_LEN];
    bytes[55] = 1;
    let m = decode(&bytes).unwrap();
    assert_eq!(m.priority_fee, Some(1u64 << 56));
    bytes[55] = 0;
    bytes[48] = 7;
    assert_eq!(decode(&bytes).unwrap().priority_fee, Some(7));
}

#[test]
fn decode_then_encode_gives_the_buffer_back() {
    let mut bytes = [0u8; MESSAGE_LEN];
    for (i, b) in bytes.iter_mut().enumerate() {
        *b = (i * 7 % 256) as u8;
    }
    let m = decode(&bytes).unwrap();
    assert_eq!(encode(m), bytes);
}
