use vstd::prelude::*;
use vstd::string::*;
use vstd::utf8::*;
use crate::reminder::{Reminder, ReminderView, be_bytes, encode_spec, str_from_utf8};
use crate::storage::entries_view;

verus! {

/// The text of a frame, as bytes.
pub open spec fn text_bytes(s: &str) -> Seq<u8> {
    encode_utf8(s@)
}

/// The tag that opens every request and every multipart reply.
pub open spec fn tag_frame() -> Seq<u8> {
    text_bytes("HERMES")
}

/// Byte contents of a sequence of frames.
pub open spec fn frames_view(v: Seq<Vec<u8>>) -> Seq<Seq<u8>> {
    v.map_values(|f: Vec<u8>| f@)
}

/// A frame holding the bytes of `s`.
pub(crate) fn text_frame(s: &str) -> (r: Vec<u8>)
    ensures
        r@ == text_bytes(s),
{
    vstd::slice::slice_to_vec(s.as_bytes())
}

/// Whether two frames hold the same bytes.
fn same_bytes(a: &Vec<u8>, b: &Vec<u8>) -> (r: bool)
    ensures
        r == (a@ == b@),
{
    if a.len() != b.len() {
        return false;
    }
    let mut i: usize = 0;
    while i < a.len()
        invariant
            0 <= i <= a@.len(),
            a@.len() == b@.len(),
            a@.subrange(0, i as int) == b@.subrange(0, i as int),
        decreases a@.len() - i,
    {
        if a[i] != b[i] {
            assert(a@[i as int] != b@[i as int]);
            return false;
        }
        assert(a@.subrange(0, i + 1) =~= a@.subrange(0, i as int).push(a@[i as int]));
        assert(b@.subrange(0, i + 1) =~= b@.subrange(0, i as int).push(b@[i as int]));
        i = i + 1;
    }
    assert(a@ =~= a@.subrange(0, i as int));
    assert(b@ =~= b@.subrange(0, i as int));
    true
}

/// A request command.
#[derive(PartialEq, Eq, Structural, Debug, Clone, Copy)]
pub enum Command {
    Add,
    List,
    Delete,
}

/// Why a request was not taken up. No reply is sent for any of these.
#[derive(PartialEq, Eq, Structural, Debug, Clone, Copy)]
pub enum FramingError {
    /// Fewer than two frames.
    PartCount,
    /// The first frame is not the tag.
    BadTag,
    /// The second frame is not a single byte.
    BadCommand,
    /// The command byte is not a known command.
    UnknownCommand,
}

/// The command of a request: at least two frames, the tag first, then a
/// single byte `1` (ADD), `2` (LIST) or `3` (DELETE).
pub open spec fn command_of(frames: Seq<Seq<u8>>) -> Result<Command, FramingError> {
    if frames.len() < 2 {
        Err(FramingError::PartCount)
    } else if frames[0] != tag_frame() {
        Err(FramingError::BadTag)
    } else if frames[1].len() != 1 {
        Err(FramingError::BadCommand)
    } else if frames[1][0] == 1 {
        Ok(Command::Add)
    } else if frames[1][0] == 2 {
        Ok(Command::List)
    } else if frames[1][0] == 3 {
        Ok(Command::Delete)
    } else {
        Err(FramingError::UnknownCommand)
    }
}

/// Whether a frame is the tag.
pub fn validate_header(frame: &Vec<u8>) -> (r: bool)
    ensures
        r == (frame@ == tag_frame()),
{
    let tag = text_frame("HERMES");
    same_bytes(frame, &tag)
}

/// Reads the command of a request.
pub fn parse_command(frames: &Vec<Vec<u8>>) -> (r: Result<Command, FramingError>)
    ensures
        r == command_of(frames_view(frames@)),
{
    if frames.len() < 2 {
        return Err(FramingError::PartCount);
    }
    if !validate_header(&frames[0]) {
        return Err(FramingError::BadTag);
    }
    if frames[1].len() != 1 {
        return Err(FramingError::BadCommand);
    }
    match frames[1][0] {
        1 => Ok(Command::Add),
        2 => Ok(Command::List),
        3 => Ok(Command::Delete),
        _ => Err(FramingError::UnknownCommand),
    }
}

/// The LIST reply: the tag, then each reminder's encoding.
pub open spec fn list_frames(entries: Seq<(u32, ReminderView)>) -> Seq<Seq<u8>> {
    seq![tag_frame()] + entries.map_values(|e: (u32, ReminderView)| encode_spec(e.1))
}

/// The DELETE listing: the tag, then each reminder's id as four
/// big-endian bytes followed by its encoding.
pub open spec fn delete_frames(entries: Seq<(u32, ReminderView)>) -> Seq<Seq<u8>> {
    seq![tag_frame()] + entries.map_values(
        |e: (u32, ReminderView)| be_bytes(e.0) + encode_spec(e.1),
    )
}

/// One entry of a listing.
pub open spec fn listing_entry(e: (u32, ReminderView), with_ids: bool) -> Seq<u8> {
    if with_ids {
        be_bytes(e.0) + encode_spec(e.1)
    } else {
        encode_spec(e.1)
    }
}

/// Builds a listing reply, with each id in front of its reminder when
/// `with_ids` holds.
fn listing(entries: &Vec<(u32, Reminder)>, with_ids: bool) -> (r: Vec<Vec<u8>>)
    ensures
        with_ids ==> frames_view(r@) == delete_frames(entries_view(entries@)),
        !with_ids ==> frames_view(r@) == list_frames(entries_view(entries@)),
{
    let ghost ev = entries_view(entries@);
    let mut out: Vec<Vec<u8>> = Vec::new();
    out.push(text_frame("HERMES"));
    let mut i: usize = 0;
    while i < entries.len()
        invariant
            0 <= i <= entries@.len(),
            ev == entries_view(entries@),
            ev.len() == entries@.len(),
            frames_view(out@) == seq![tag_frame()] + ev.take(i as int).map_values(|e: (u32, ReminderView)| listing_entry(e, with_ids)),
        decreases entries@.len() - i,
    {
        let mut frame: Vec<u8> = Vec::new();
        if with_ids {
            crate::reminder::push_be_u32(&mut frame, entries[i].0);
        }
        let body = entries[i].1.serialize();
        let ghost head = frame@;
        let mut k: usize = 0;
        while k < body.len()
            invariant
                0 <= k <= body@.len(),
                frame@ == head + body@.subrange(0, k as int),
            decreases body@.len() - k,
        {
            frame.push(body[k]);
            k = k + 1;
            assert(frame@ =~= head + body@.subrange(0, k as int));
        }
        assert(body@.subrange(0, k as int) =~= body@);
        assert(frame@ == listing_entry(ev[i as int], with_ids)) by {
            assert(ev[i as int] == (entries@[i as int].0, entries@[i as int].1@));
            assert(body@ == encode_spec(entries@[i as int].1@));
            assert(frame@ == head + body@);
            if with_ids {
                assert(head =~= be_bytes(entries@[i as int].0));
                assert(listing_entry(ev[i as int], with_ids) == be_bytes(ev[i as int].0) + encode_spec(ev[i as int].1));
            } else {
                assert(head =~= Seq::<u8>::empty());
                assert(listing_entry(ev[i as int], with_ids) == encode_spec(ev[i as int].1));
            }
        }
        let ghost before = out@;
        out.push(frame);
        assert(frames_view(out@) =~= seq![tag_frame()] + ev.take(i + 1).map_values(|e: (u32, ReminderView)| listing_entry(e, with_ids))) by {
            assert(frames_view(out@) =~= frames_view(before).push(out@[out@.len() - 1]@));
            assert(ev.take(i + 1).map_values(|e: (u32, ReminderView)| listing_entry(e, with_ids)) =~= ev.take(i as int).map_values(|e: (u32, ReminderView)| listing_entry(e, with_ids)).push(
                listing_entry(ev[i as int], with_ids),
            ));
        }
        i = i + 1;
    }
    assert(ev.take(i as int) =~= ev);
    proof {
        if with_ids {
            assert(ev.map_values(|e: (u32, ReminderView)| listing_entry(e, with_ids)) =~= ev.map_values(
                |e: (u32, ReminderView)| be_bytes(e.0) + encode_spec(e.1),
            ));
        } else {
            assert(ev.map_values(|e: (u32, ReminderView)| listing_entry(e, with_ids)) =~= ev.map_values(|e: (u32, ReminderView)| encode_spec(e.1)));
        }
    }
    out
}

/// The reply to LIST.
pub fn list_reply(entries: &Vec<(u32, Reminder)>) -> (r: Vec<Vec<u8>>)
    ensures
        frames_view(r@) == list_frames(entries_view(entries@)),
{
    listing(entries, false)
}

/// The listing that DELETE sends before it asks for an id.
pub fn delete_listing(entries: &Vec<(u32, Reminder)>) -> (r: Vec<Vec<u8>>)
    ensures
        frames_view(r@) == delete_frames(entries_view(entries@)),
{
    listing(entries, true)
}

/// The text with leading and trailing white space removed, as
/// `str::trim` gives it.
pub uninterp spec fn trimmed(s: Seq<char>) -> Seq<char>;

/// Relies on `str::trim`: the text without its leading and trailing white
/// space; the result depends on the text alone.
#[verifier::external_body]
fn trim_text(s: &str) -> (r: &str)
    ensures
        r@ == trimmed(s@),
{
    s.trim()
}

/// Whether every byte is an ASCII digit.
pub open spec fn all_digits(b: Seq<u8>) -> bool {
    forall|i: int| 0 <= i < b.len() ==> 48 <= #[trigger] b[i] <= 57
}

/// The number that a run of ASCII digits writes in decimal.
pub open spec fn digits_value(b: Seq<u8>) -> int
    decreases b.len(),
{
    if b.len() == 0 {
        0
    } else {
        digits_value(b.drop_last()) * 10 + (b.last() - 48)
    }
}

/// The digits of a decimal, without its optional leading `+`.
pub open spec fn unsigned_part(b: Seq<u8>) -> Seq<u8> {
    if b.len() > 0 && b[0] == 43 {
        b.drop_first()
    } else {
        b
    }
}

/// The `u32` that a decimal text writes: an optional `+`, then one or more
/// digits, with a value that fits.
pub open spec fn decimal_value(b: Seq<u8>) -> Option<u32> {
    let d = unsigned_part(b);
    if d.len() > 0 && all_digits(d) && digits_value(d) <= u32::MAX {
        Some(digits_value(d) as u32)
    } else {
        None
    }
}

proof fn lemma_digits_value_grows(b: Seq<u8>, i: int, j: int)
    requires
        0 <= i <= j <= b.len(),
        all_digits(b),
    ensures
        digits_value(b.take(i)) <= digits_value(b.take(j)),
        0 <= digits_value(b.take(i)),
    decreases j,
{
    if j > 0 {
        assert(b.take(j).drop_last() =~= b.take(j - 1));
        if i < j {
            lemma_digits_value_grows(b, i, j - 1);
        } else {
            lemma_digits_value_grows(b, i - 1, j - 1);
        }
    }
}

/// Reads a decimal `u32`: an optional `+`, then one or more ASCII digits.
pub fn parse_decimal(text: &[u8]) -> (r: Option<u32>)
    ensures
        r == decimal_value(text@),
{
    let ghost d = unsigned_part(text@);
    let start: usize = if text.len() > 0 && text[0] == 43 {
        1
    } else {
        0
    };
    assert(d =~= text@.subrange(start as int, text@.len() as int));
    if start == text.len() {
        return None;
    }
    let mut value: u32 = 0;
    let mut i: usize = start;
    while i < text.len()
        invariant
            start <= i <= text@.len(),
            d == unsigned_part(text@),
            d == text@.subrange(start as int, text@.len() as int),
            all_digits(d.take(i - start)),
            value as int == digits_value(d.take(i - start)),
        decreases text@.len() - i,
    {
        let c = text[i];
        assert(d[i - start] == c);
        if c < 48 || c > 57 {
            assert(!all_digits(d));
            return None;
        }
        let digit: u32 = (c - 48) as u32;
        assert(d.take(i + 1 - start).drop_last() =~= d.take(i - start));
        assert(all_digits(d.take(i + 1 - start)));
        if value > 429496729 || (value == 429496729 && digit > 5) {
            proof {
                let p = d.take(i + 1 - start);
                assert(digits_value(p) == value * 10 + digit);
                assert(digits_value(p) > u32::MAX);
                if all_digits(d) {
                    lemma_digits_value_grows(d, i + 1 - start, d.len() as int);
                    assert(d.take(d.len() as int) =~= d);
                }
            }
            return None;
        }
        value = value * 10 + digit;
        i = i + 1;
    }
    assert(d.take(i - start) =~= d);
    Some(value)
}

/// Why the follow-up frame of DELETE is not an id.
#[derive(PartialEq, Eq, Structural, Debug, Clone, Copy)]
pub enum IdError {
    /// The frame is not UTF-8 text.
    NotText,
    /// The trimmed text is not a decimal `u32`.
    NotANumber,
}

/// The id that the follow-up frame of DELETE names: UTF-8 text which, with
/// surrounding white space trimmed, is a decimal `u32`.
pub open spec fn id_of_frame(m: Seq<u8>) -> Result<u32, IdError> {
    if !valid_utf8(m) {
        Err(IdError::NotText)
    } else {
        match decimal_value(encode_utf8(trimmed(decode_utf8(m)))) {
            Some(v) => Ok(v),
            None => Err(IdError::NotANumber),
        }
    }
}

/// Reads the id that the client sends after a DELETE listing.
pub fn parse_id(frame: &Vec<u8>) -> (r: Result<u32, IdError>)
    ensures
        r == id_of_frame(frame@),
{
    let text = match str_from_utf8(frame.as_slice()) {
        Some(t) => t,
        None => {
            return Err(IdError::NotText);
        },
    };
    proof {
        encode_utf8_decode_utf8(text@);
    }
    let t = trim_text(text);
    match parse_decimal(t.as_bytes()) {
        Some(v) => Ok(v),
        None => Err(IdError::NotANumber),
    }
}

} // verus!
