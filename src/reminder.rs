use vstd::prelude::*;
use vstd::utf8::*;
use vstd::string::*;

verus! {

/// Smallest valid encoded reminder: a 13-byte header and at least one byte of text.
pub const MIN_REMINDER_LENGTH_BYTES: usize = 14;

/// Length of the fixed header that precedes the message text.
pub const HEADER_LENGTH_BYTES: usize = 13;

/// Recurrence policy of a reminder.
#[allow(non_camel_case_types)]
#[derive(PartialEq, Eq, Structural, Debug, Clone, Copy)]
pub enum Frequency {
    DAILY,
    ONCE,
    WEEKLY,
    NDAYS,
}

/// Why a byte buffer is not an encoded reminder.
#[derive(PartialEq, Eq, Structural, Debug, Clone, Copy)]
pub enum DecodeError {
    TooShort,
    BadFrequency,
    BadEncoding,
}

/// A scheduled notification: recurrence policy, calendar time and text.
#[derive(PartialEq, Debug)]
pub struct Reminder {
    pub frequency: Frequency,
    pub month: u8,
    pub day: u8,
    pub year: u32,
    pub hour: u8,
    pub minute: u8,
    pub n: Option<u32>,
    pub message: String,
}

/// The mathematical content of a `Reminder`.
pub struct ReminderView {
    pub frequency: Frequency,
    pub month: u8,
    pub day: u8,
    pub year: u32,
    pub hour: u8,
    pub minute: u8,
    pub n: Option<u32>,
    pub message: Seq<char>,
}

impl View for Reminder {
    type V = ReminderView;

    open spec fn view(&self) -> ReminderView {
        ReminderView {
            frequency: self.frequency,
            month: self.month,
            day: self.day,
            year: self.year,
            hour: self.hour,
            minute: self.minute,
            n: self.n,
            message: self.message@,
        }
    }
}

impl ReminderView {
    /// The interval is present exactly for `NDAYS`, and is never zero,
    /// since a zero interval is written the same way as an absent one.
    pub open spec fn wf(self) -> bool {
        &&& (self.n is Some <==> self.frequency == Frequency::NDAYS)
        &&& self.n != Some(0u32)
    }
}

/// The tag byte of a frequency on the wire and in the table.
pub open spec fn tag_of(f: Frequency) -> u8 {
    match f {
        Frequency::DAILY => 1,
        Frequency::ONCE => 2,
        Frequency::WEEKLY => 3,
        Frequency::NDAYS => 4,
    }
}

/// The frequency that a tag byte stands for, if any.
pub open spec fn frequency_of_tag(b: u8) -> Option<Frequency> {
    if b == 1 {
        Some(Frequency::DAILY)
    } else if b == 2 {
        Some(Frequency::ONCE)
    } else if b == 3 {
        Some(Frequency::WEEKLY)
    } else if b == 4 {
        Some(Frequency::NDAYS)
    } else {
        None
    }
}

/// The four big-endian bytes of `x`.
pub open spec fn be_bytes(x: u32) -> Seq<u8> {
    seq![(x / 16777216) as u8, (x / 65536 % 256) as u8, (x / 256 % 256) as u8, (x % 256) as u8]
}

/// The integer that four big-endian bytes stand for.
pub open spec fn be_value(b0: u8, b1: u8, b2: u8, b3: u8) -> u32 {
    (b0 * 16777216 + b1 * 65536 + b2 * 256 + b3) as u32
}

/// The integer held by `b[at..at + 4]`, big-endian.
pub open spec fn be_at(b: Seq<u8>, at: int) -> u32 {
    be_value(b[at], b[at + 1], b[at + 2], b[at + 3])
}

/// The encoded form of an optional interval: zero stands for absent.
pub open spec fn interval_word(n: Option<u32>) -> u32 {
    match n {
        Some(v) => v,
        None => 0,
    }
}

/// The interval that a 32-bit word stands for.
pub open spec fn interval_of_word(w: u32) -> Option<u32> {
    if w == 0 {
        None
    } else {
        Some(w)
    }
}

/// The wire form of a reminder.
pub open spec fn encode_spec(r: ReminderView) -> Seq<u8> {
    seq![tag_of(r.frequency), r.month, r.day] + be_bytes(r.year) + seq![r.hour, r.minute]
        + be_bytes(interval_word(r.n)) + encode_utf8(r.message)
}

/// What decoding a buffer yields.
pub open spec fn decode_spec(b: Seq<u8>) -> Result<ReminderView, DecodeError> {
    if b.len() < 14 {
        Err(DecodeError::TooShort)
    } else if frequency_of_tag(b[0]) is None {
        Err(DecodeError::BadFrequency)
    } else if !valid_utf8(b.subrange(13, b.len() as int)) {
        Err(DecodeError::BadEncoding)
    } else {
        Ok(
            ReminderView {
                frequency: frequency_of_tag(b[0])->Some_0,
                month: b[1],
                day: b[2],
                year: be_at(b, 3),
                hour: b[7],
                minute: b[8],
                n: interval_of_word(be_at(b, 9)),
                message: decode_utf8(b.subrange(13, b.len() as int)),
            },
        )
    }
}

/// Relies on `std::str::from_utf8`: it accepts exactly the valid UTF-8
/// buffers and then views the same bytes as text.
#[verifier::external_body]
pub(crate) fn str_from_utf8(b: &[u8]) -> (r: Option<&str>)
    ensures
        r is Some <==> valid_utf8(b@),
        r is Some ==> r->Some_0.spec_bytes() == b@,
{
    std::str::from_utf8(b).ok()
}

/// Reads a frequency from its tag byte.
pub fn deserialize_frequency(byte: u8) -> (r: Option<Frequency>)
    ensures
        r == frequency_of_tag(byte),
{
    match byte {
        1 => Some(Frequency::DAILY),
        2 => Some(Frequency::ONCE),
        3 => Some(Frequency::WEEKLY),
        4 => Some(Frequency::NDAYS),
        _ => None,
    }
}

/// The tag byte of a frequency.
pub fn serialize_frequency(freq: Frequency) -> (r: u8)
    ensures
        r == tag_of(freq),
        frequency_of_tag(r) == Some(freq),
{
    match freq {
        Frequency::DAILY => 1,
        Frequency::ONCE => 2,
        Frequency::WEEKLY => 3,
        Frequency::NDAYS => 4,
    }
}

/// Reads a big-endian `u32` from a buffer of exactly four bytes.
pub fn deserialize_u32(bytes: Vec<u8>) -> (r: Option<u32>)
    ensures
        bytes@.len() == 4 <==> r is Some,
        bytes@.len() == 4 ==> r == Some(be_at(bytes@, 0)),
{
    if bytes.len() != 4 {
        return None;
    }
    Some(read_be_u32(&bytes, 0))
}

/// Reads the big-endian `u32` at `b[at..at + 4]`.
fn read_be_u32(b: &Vec<u8>, at: usize) -> (r: u32)
    requires
        at + 4 <= b.len(),
    ensures
        r == be_at(b@, at as int),
{
    let b0: u32 = b[at] as u32;
    let b1: u32 = b[at + 1] as u32;
    let b2: u32 = b[at + 2] as u32;
    let b3: u32 = b[at + 3] as u32;
    b0 * 16777216 + b1 * 65536 + b2 * 256 + b3
}

/// Appends the four big-endian bytes of `x`.
pub(crate) fn push_be_u32(out: &mut Vec<u8>, x: u32)
    ensures
        final(out)@ == old(out)@ + be_bytes(x),
{
    out.push((x / 16777216) as u8);
    out.push((x / 65536 % 256) as u8);
    out.push((x / 256 % 256) as u8);
    out.push((x % 256) as u8);
    assert(final(out)@ =~= old(out)@ + be_bytes(x));
}

/// Reading back the bytes of `x` gives `x`.
pub proof fn lemma_be_round_trip(x: u32)
    ensures
        be_at(be_bytes(x), 0) == x,
{
}

/// Decoding the encoding of a well-formed reminder with a non-empty message
/// gives the reminder back. (An empty message encodes to 13 bytes, which
/// decoding rejects as too short.)
pub proof fn lemma_decode_encode(r: ReminderView)
    requires
        r.wf(),
        r.message.len() > 0,
    ensures
        decode_spec(encode_spec(r)) == Ok::<ReminderView, DecodeError>(r),
{
    let b = encode_spec(r);
    let text = encode_utf8(r.message);
    lemma_be_round_trip(r.year);
    lemma_be_round_trip(interval_word(r.n));
    encode_utf8_valid_utf8(r.message);
    encode_utf8_decode_utf8(r.message);
    lemma_encode_utf8_nonempty(r.message);
    assert(b.subrange(13, b.len() as int) =~= text);
    assert(be_at(b, 3) == be_at(be_bytes(r.year), 0));
    assert(be_at(b, 9) == be_at(be_bytes(interval_word(r.n)), 0));
    let v = decode_spec(b)->Ok_0;
    assert(v.message == r.message);
    assert(v == r);
}

/// A non-empty text has a non-empty UTF-8 encoding.
proof fn lemma_encode_utf8_nonempty(m: Seq<char>)
    requires
        m.len() > 0,
    ensures
        encode_utf8(m).len() > 0,
{
    encode_utf8_decode_utf8(m);
    if encode_utf8(m).len() == 0 {
        assert(encode_utf8(m) =~= Seq::<u8>::empty());
    }
}

/// Every buffer shorter than the smallest encoding is rejected as too short.
pub proof fn lemma_short_buffer_rejected(b: Seq<u8>)
    requires
        b.len() < MIN_REMINDER_LENGTH_BYTES,
    ensures
        decode_spec(b) == Err::<ReminderView, DecodeError>(DecodeError::TooShort),
{
}

/// A buffer whose first byte is no frequency tag is rejected.
pub proof fn lemma_bad_tag_rejected(b: Seq<u8>)
    requires
        b.len() > 0,
        !(1 <= b[0] <= 4),
    ensures
        decode_spec(b) is Err,
        b.len() >= MIN_REMINDER_LENGTH_BYTES ==> decode_spec(b) == Err::<ReminderView, DecodeError>(
            DecodeError::BadFrequency,
        ),
{
}

impl Clone for Reminder {
    fn clone(&self) -> (r: Reminder)
        ensures
            r@ == self@,
    {
        Reminder {
            frequency: self.frequency,
            month: self.month,
            day: self.day,
            year: self.year,
            hour: self.hour,
            minute: self.minute,
            n: self.n,
            message: self.message.clone(),
        }
    }
}

impl Reminder {
    pub fn get_message(&self) -> (r: &String)
        ensures
            r@ == self.message@,
    {
        &self.message
    }

    /// All fields at once, for storage code that may not name them.
    pub fn as_tuple(&self) -> (r: (Frequency, u8, u8, u32, u8, u8, Option<u32>, &String))
        ensures
            r.0 == self.frequency,
            r.1 == self.month,
            r.2 == self.day,
            r.3 == self.year,
            r.4 == self.hour,
            r.5 == self.minute,
            r.6 == self.n,
            r.7@ == self.message@,
    {
        (
            self.frequency,
            self.month,
            self.day,
            self.year,
            self.hour,
            self.minute,
            self.n,
            &self.message,
        )
    }

    pub fn new(
        frequency: Frequency,
        month: u8,
        day: u8,
        year: u32,
        hour: u8,
        minute: u8,
        n: Option<u32>,
        message: String,
    ) -> (r: Reminder)
        ensures
            r@ == (ReminderView { frequency, month, day, year, hour, minute, n, message: message@ }),
    {
        Reminder { frequency, month, day, year, hour, minute, n, message }
    }

    /// Decodes a reminder from its wire form.
    pub fn deserialize_reminder(vec: &Vec<u8>) -> (r: Result<Reminder, DecodeError>)
        ensures
            match (r, decode_spec(vec@)) {
                (Ok(x), Ok(v)) => x@ == v,
                (Err(e), Err(f)) => e == f,
                _ => false,
            },
    {
        let len = vec.len();
        if len < MIN_REMINDER_LENGTH_BYTES {
            return Err(DecodeError::TooShort);
        }
        let frequency = match deserialize_frequency(vec[0]) {
            Some(f) => f,
            None => {
                return Err(DecodeError::BadFrequency);
            },
        };
        let month = vec[1];
        let day = vec[2];
        let year = read_be_u32(vec, 3);
        let hour = vec[7];
        let minute = vec[8];
        let word = read_be_u32(vec, 9);
        let n = if word == 0 {
            None
        } else {
            Some(word)
        };
        let mut body: Vec<u8> = Vec::new();
        let mut i: usize = HEADER_LENGTH_BYTES;
        while i < len
            invariant
                HEADER_LENGTH_BYTES <= i <= len,
                len == vec@.len(),
                body@ == vec@.subrange(13, i as int),
            decreases len - i,
        {
            body.push(vec[i]);
            i = i + 1;
            assert(body@ =~= vec@.subrange(13, i as int));
        }
        let text = match str_from_utf8(body.as_slice()) {
            Some(t) => t,
            None => {
                return Err(DecodeError::BadEncoding);
            },
        };
        let message = text.to_owned();
        proof {
            encode_utf8_decode_utf8(text@);
        }
        Ok(Reminder { frequency, month, day, year, hour, minute, n, message })
    }

    /// Encodes a reminder in its wire form.
    pub fn serialize(&self) -> (r: Vec<u8>)
        ensures
            r@ == encode_spec(self@),
    {
        let mut vec: Vec<u8> = Vec::new();
        vec.push(serialize_frequency(self.frequency));
        vec.push(self.month);
        vec.push(self.day);
        push_be_u32(&mut vec, self.year);
        vec.push(self.hour);
        vec.push(self.minute);
        let word: u32 = match self.n {
            Some(v) => v,
            None => 0,
        };
        push_be_u32(&mut vec, word);
        let ghost head = vec@;
        let text = self.message.as_str().as_bytes();
        let mut i: usize = 0;
        while i < text.len()
            invariant
                0 <= i <= text@.len(),
                text@ == encode_utf8(self.message@),
                vec@ == head + text@.subrange(0, i as int),
            decreases text@.len() - i,
        {
            vec.push(text[i]);
            i = i + 1;
            assert(vec@ =~= head + text@.subrange(0, i as int));
        }
        assert(text@.subrange(0, i as int) =~= text@);
        assert(vec@ =~= encode_spec(self@));
        vec
    }
}

} // verus!
