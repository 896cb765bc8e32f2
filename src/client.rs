use vstd::prelude::*;
use crate::protocol::{frames_view, tag_frame, validate_header};
use crate::reminder::{
    Frequency, MIN_REMINDER_LENGTH_BYTES, Reminder, ReminderView, be_at, decode_spec,
};

verus! {

/// The reminders of a LIST reply that decode, in order; `None` where the
/// reply does not open with the tag.
pub open spec fn listed_reminders(frames: Seq<Seq<u8>>) -> Option<Seq<ReminderView>> {
    if frames.len() == 0 || frames[0] != tag_frame() {
        None
    } else {
        Some(decoded_frames(frames.drop_first()))
    }
}

/// The frames that decode, decoded, in order.
pub open spec fn decoded_frames(frames: Seq<Seq<u8>>) -> Seq<ReminderView>
    decreases frames.len(),
{
    if frames.len() == 0 {
        Seq::empty()
    } else {
        let front = decoded_frames(frames.drop_last());
        match decode_spec(frames.last()) {
            Ok(r) => front.push(r),
            Err(_) => front,
        }
    }
}

/// One entry of a DELETE listing: a big-endian id, then an encoded
/// reminder; `None` where the entry is malformed.
pub open spec fn listed_entry(m: Seq<u8>) -> Option<(u32, ReminderView)> {
    if m.len() < 4 + MIN_REMINDER_LENGTH_BYTES {
        None
    } else {
        match decode_spec(m.subrange(4, m.len() as int)) {
            Ok(r) => Some((be_at(m, 0), r)),
            Err(_) => None,
        }
    }
}

/// The entries of a DELETE listing, each `None` where malformed; `None`
/// where the listing does not open with the tag.
pub open spec fn listed_entries(frames: Seq<Seq<u8>>) -> Option<Seq<Option<(u32, ReminderView)>>> {
    if frames.len() == 0 || frames[0] != tag_frame() {
        None
    } else {
        Some(frames.drop_first().map_values(|m: Seq<u8>| listed_entry(m)))
    }
}

/// An optional entry, by its view.
pub open spec fn opt_entry_view(e: Option<(u32, Reminder)>) -> Option<(u32, ReminderView)> {
    match e {
        Some(p) => Some((p.0, p.1@)),
        None => None,
    }
}

/// Reads the reminders of a LIST reply.
pub fn parse_list_reply(data: &Vec<Vec<u8>>) -> (r: Option<Vec<Reminder>>)
    ensures
        match (r, listed_reminders(frames_view(data@))) {
            (Some(v), Some(w)) => v@.map_values(|x: Reminder| x@) == w,
            (None, None) => true,
            _ => false,
        },
{
    let ghost fv = frames_view(data@);
    if data.len() == 0 || !validate_header(&data[0]) {
        return None;
    }
    let ghost rest = fv.drop_first();
    let mut out: Vec<Reminder> = Vec::new();
    let mut i: usize = 1;
    while i < data.len()
        invariant
            1 <= i <= data@.len(),
            fv == frames_view(data@),
            fv.len() == data@.len(),
            rest == fv.drop_first(),
            out@.map_values(|x: Reminder| x@) == decoded_frames(rest.take(i - 1)),
        decreases data@.len() - i,
    {
        proof {
            assert(rest.take(i as int).drop_last() =~= rest.take(i - 1));
            assert(rest.take(i as int).last() == data@[i as int]@);
        }
        match Reminder::deserialize_reminder(&data[i]) {
            Ok(r) => {
                out.push(r);
            },
            Err(_) => {},
        }
        assert(out@.map_values(|x: Reminder| x@) =~= decoded_frames(rest.take(i as int)));
        i = i + 1;
    }
    assert(rest.take(i - 1) =~= rest);
    Some(out)
}

/// Reads one entry of a DELETE listing.
pub fn parse_listed_entry(m: &Vec<u8>) -> (r: Option<(u32, Reminder)>)
    ensures
        opt_entry_view(r) == listed_entry(m@),
{
    if m.len() < 4 + MIN_REMINDER_LENGTH_BYTES {
        return None;
    }
    let mut body: Vec<u8> = Vec::new();
    let mut i: usize = 4;
    while i < m.len()
        invariant
            4 <= i <= m@.len(),
            body@ == m@.subrange(4, i as int),
        decreases m@.len() - i,
    {
        body.push(m[i]);
        i = i + 1;
        assert(body@ =~= m@.subrange(4, i as int));
    }
    match Reminder::deserialize_reminder(&body) {
        Ok(r) => {
            let b0: u32 = m[0] as u32;
            let b1: u32 = m[1] as u32;
            let b2: u32 = m[2] as u32;
            let b3: u32 = m[3] as u32;
            Some((b0 * 16777216 + b1 * 65536 + b2 * 256 + b3, r))
        },
        Err(_) => None,
    }
}

/// Reads the entries of a DELETE listing.
pub fn parse_delete_listing(data: &Vec<Vec<u8>>) -> (r: Option<Vec<Option<(u32, Reminder)>>>)
    ensures
        match (r, listed_entries(frames_view(data@))) {
            (Some(v), Some(w)) => v@.map_values(|e: Option<(u32, Reminder)>| opt_entry_view(e))
                == w,
            (None, None) => true,
            _ => false,
        },
{
    let ghost fv = frames_view(data@);
    if data.len() == 0 || !validate_header(&data[0]) {
        return None;
    }
    let ghost rest = fv.drop_first();
    let mut out: Vec<Option<(u32, Reminder)>> = Vec::new();
    let mut i: usize = 1;
    while i < data.len()
        invariant
            1 <= i <= data@.len(),
            fv == frames_view(data@),
            fv.len() == data@.len(),
            rest == fv.drop_first(),
            out@.len() == i - 1,
            forall|j: int|
                0 <= j < i - 1 ==> opt_entry_view(#[trigger] out@[j]) == listed_entry(rest[j]),
        decreases data@.len() - i,
    {
        let e = parse_listed_entry(&data[i]);
        proof {
            assert(rest[i - 1] == data@[i as int]@);
        }
        out.push(e);
        i = i + 1;
    }
    assert(out@.map_values(|e: Option<(u32, Reminder)>| opt_entry_view(e)) =~= rest.map_values(
        |m: Seq<u8>| listed_entry(m),
    ));
    Some(out)
}

/// The frequency that an answer to the client's prompt picks: `D`, `O`,
/// `W` or `N`.
pub open spec fn frequency_of_letter(b: Seq<u8>) -> Option<Frequency> {
    if b.len() != 1 {
        None
    } else if b[0] == 68 {
        Some(Frequency::DAILY)
    } else if b[0] == 79 {
        Some(Frequency::ONCE)
    } else if b[0] == 87 {
        Some(Frequency::WEEKLY)
    } else if b[0] == 78 {
        Some(Frequency::NDAYS)
    } else {
        None
    }
}

/// Reads the frequency letter of an answer (already trimmed).
pub fn frequency_from_letter(b: &[u8]) -> (r: Option<Frequency>)
    ensures
        r == frequency_of_letter(b@),
{
    if b.len() != 1 {
        return None;
    }
    match b[0] {
        68 => Some(Frequency::DAILY),
        79 => Some(Frequency::ONCE),
        87 => Some(Frequency::WEEKLY),
        78 => Some(Frequency::NDAYS),
        _ => None,
    }
}

/// Why the client's answers do not make a reminder.
#[derive(PartialEq, Eq, Structural, Debug, Clone, Copy)]
pub enum InputError {
    /// Every-N-days without its interval.
    MissingInterval,
    /// The month is not in 1..=12.
    MonthOutOfRange,
    /// The hour is over 24.
    HourOutOfRange,
    /// The minute is over 60.
    MinuteOutOfRange,
}

/// Builds a reminder from the client's answers, checking the ranges that
/// the client enforces: month in 1..=12, hour at most 24, minute at most 60.
/// The interval is kept only for `NDAYS`, which needs one.
pub fn build_reminder(
    frequency: Frequency,
    n: Option<u32>,
    month: u8,
    day: u8,
    year: u32,
    hour: u8,
    minute: u8,
    message: String,
) -> (r: Result<Reminder, InputError>)
    ensures
        frequency == Frequency::NDAYS && n is None <==> r == Err::<Reminder, InputError>(
            InputError::MissingInterval,
        ),
        !(frequency == Frequency::NDAYS && n is None) ==> {
            &&& !(1 <= month <= 12) <==> r == Err::<Reminder, InputError>(
                InputError::MonthOutOfRange,
            )
            &&& (1 <= month <= 12 && hour > 24) <==> r == Err::<Reminder, InputError>(
                InputError::HourOutOfRange,
            )
            &&& (1 <= month <= 12 && hour <= 24 && minute > 60) <==> r == Err::<
                Reminder,
                InputError,
            >(InputError::MinuteOutOfRange)
        },
        r is Ok ==> r->Ok_0@ == (ReminderView {
            frequency,
            month,
            day,
            year,
            hour,
            minute,
            n: if frequency == Frequency::NDAYS {
                n
            } else {
                None
            },
            message: message@,
        }),
{
    let interval = if frequency == Frequency::NDAYS {
        if n.is_none() {
            return Err(InputError::MissingInterval);
        }
        n
    } else {
        None
    };
    if month < 1 || month > 12 {
        return Err(InputError::MonthOutOfRange);
    }
    if hour > 24 {
        return Err(InputError::HourOutOfRange);
    }
    if minute > 60 {
        return Err(InputError::MinuteOutOfRange);
    }
    Ok(Reminder::new(frequency, month, day, year, hour, minute, interval, message))
}

impl Frequency {
    /// The name under which the client shows a frequency.
    pub fn label(&self) -> (r: &'static str)
        ensures
            *self == Frequency::DAILY ==> r@ == "Daily"@,
            *self == Frequency::ONCE ==> r@ == "Once"@,
            *self == Frequency::WEEKLY ==> r@ == "Weekly"@,
            *self == Frequency::NDAYS ==> r@ == "Every N Days"@,
    {
        match self {
            Frequency::DAILY => "Daily",
            Frequency::ONCE => "Once",
            Frequency::WEEKLY => "Weekly",
            Frequency::NDAYS => "Every N Days",
        }
    }
}

} // verus!
