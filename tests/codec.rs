use hermes::message::Message;
use hermes::reminder::{
    deserialize_frequency, deserialize_u32, serialize_frequency, DecodeError, Frequency, Reminder,
};

fn sample(frequency: Frequency, n: Option<u32>, text: &str) -> Reminder {
    Reminder::new(frequency, 6, 1, 2024, 9, 0, n, text.to_string())
}

#[test]
fn fails_deserialize_if_vec_short() {
    let vec: Vec<u8> = vec![3, 4, 5, 6];
    assert_eq!(
        Reminder::deserialize_reminder(&vec),
        Err(DecodeError::TooShort)
    );
}

#[test]
fn successful_deserialize() {
    let vec: Vec<u8> = vec![1, 1, 1, 2, 2, 2, 2, 1, 1, 2, 2, 2, 2, 72, 69, 76, 76, 79];
    let reminder = Reminder::deserialize_reminder(&vec);
    assert!(reminder.is_ok());
    assert_eq!(reminder.unwrap().get_message(), "HELLO");
}

#[test]
fn decode_reads_every_field() {
    let vec: Vec<u8> = vec![4, 12, 31, 0, 0, 7, 232, 23, 59, 0, 0, 1, 0, 104, 105];
    let r = Reminder::deserialize_reminder(&vec).unwrap();
    assert_eq!(r.frequency, Frequency::NDAYS);
    assert_eq!(r.as_tuple(), (Frequency::NDAYS, 12, 31, 2024, 23, 59, Some(256), &"hi".to_string()));
}

#[test]
fn zero_interval_reads_as_absent() {
    let vec: Vec<u8> = vec![1, 1, 1, 0, 0, 0, 1, 1, 1, 0, 0, 0, 0, 65];
    let r = Reminder::deserialize_reminder(&vec).unwrap();
    assert_eq!(r.n, None);
}

#[test]
fn encode_exact_bytes() {
    let r = sample(Frequency::WEEKLY, None, "hey");
    assert_eq!(
        r.serialize(),
        vec![3, 6, 1, 0, 0, 7, 232, 9, 0, 0, 0, 0, 0, 104, 101, 121]
    );
    let r = Reminder::new(Frequency::NDAYS, 2, 3, 0x01020304, 4, 5, Some(0x0a0b0c0d), "é".to_string());
    assert_eq!(
        r.serialize(),
        vec![4, 2, 3, 1, 2, 3, 4, 4, 5, 10, 11, 12, 13, 0xc3, 0xa9]
    );
}

#[test]
fn round_trip_keeps_reminder() {
    let cases = vec![
        sample(Frequency::DAILY, None, "take pills"),
        sample(Frequency::ONCE, None, "x"),
        sample(Frequency::WEEKLY, None, "weekly ünïcödé ✓"),
        sample(Frequency::NDAYS, Some(3), "every three days"),
        Reminder::new(Frequency::NDAYS, 255, 255, u32::MAX, 255, 255, Some(u32::MAX), "m".to_string()),
    ];
    for r in cases {
        let bytes = r.serialize();
        assert_eq!(Reminder::deserialize_reminder(&bytes), Ok(r.clone()));
    }
}

#[test]
fn short_buffers_rejected_whatever_they_hold() {
    for len in 0..14usize {
        let vec: Vec<u8> = vec![1; len];
        assert_eq!(Reminder::deserialize_reminder(&vec), Err(DecodeError::TooShort));
    }
    // An empty message encodes to 13 bytes, which is too short.
    let r = sample(Frequency::DAILY, None, "");
    assert_eq!(Reminder::deserialize_reminder(&r.serialize()), Err(DecodeError::TooShort));
}

#[test]
fn bad_frequency_rejected() {
    for tag in [0u8, 5, 9, 255] {
        let mut vec: Vec<u8> = vec![1, 1, 1, 0, 0, 7, 232, 1, 1, 0, 0, 0, 0, 65];
        vec[0] = tag;
        assert_eq!(Reminder::deserialize_reminder(&vec), Err(DecodeError::BadFrequency));
    }
}

#[test]
fn bad_text_rejected() {
    let vec: Vec<u8> = vec![1, 1, 1, 0, 0, 7, 232, 1, 1, 0, 0, 0, 0, 0xff, 0xfe];
    assert_eq!(Reminder::deserialize_reminder(&vec), Err(DecodeError::BadEncoding));
}

#[test]
fn out_of_range_calendar_fields_pass_through() {
    let vec: Vec<u8> = vec![2, 13, 40, 0, 0, 0, 0, 25, 61, 0, 0, 0, 0, 65];
    let r = Reminder::deserialize_reminder(&vec).unwrap();
    assert_eq!((r.month, r.day, r.hour, r.minute), (13, 40, 25, 61));
}

#[test]
fn frequency_tags() {
    assert_eq!(deserialize_frequency(1), Some(Frequency::DAILY));
    assert_eq!(deserialize_frequency(2), Some(Frequency::ONCE));
    assert_eq!(deserialize_frequency(3), Some(Frequency::WEEKLY));
    assert_eq!(deserialize_frequency(4), Some(Frequency::NDAYS));
    assert_eq!(deserialize_frequency(0), None);
    assert_eq!(serialize_frequency(Frequency::NDAYS), 4);
    assert_eq!(serialize_frequency(Frequency::ONCE), 2);
}

#[test]
fn four_byte_integers() {
    assert_eq!(deserialize_u32(vec![0, 0, 1, 2]), Some(258));
    assert_eq!(deserialize_u32(vec![255, 255, 255, 255]), Some(u32::MAX));
    assert_eq!(deserialize_u32(vec![1, 2, 3]), None);
    assert_eq!(deserialize_u32(vec![1, 2, 3, 4, 5]), None);
}

#[test]
fn short_message_format() {
    let m = Message::new(Frequency::WEEKLY, "ok".to_string());
    assert_eq!(m.serialize(), vec![3, 111, 107]);
}
