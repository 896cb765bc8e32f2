use vstd::prelude::*;
use crate::reminder::{
    Reminder, ReminderView, deserialize_frequency, frequency_of_tag, serialize_frequency,
    tag_of,
};

verus! {

/// One row of the reminder table, in column order:
/// `id, frequency, message, month, day, year, hour, minute, n`.
/// The message is a middle column, unlike in the wire layout.
#[derive(PartialEq, Debug)]
pub struct Row {
    pub id: u32,
    pub frequency: u8,
    pub message: String,
    pub month: u8,
    pub day: u8,
    pub year: u32,
    pub hour: u8,
    pub minute: u8,
    pub n: Option<u32>,
}

/// The mathematical content of a `Row`.
pub struct RowView {
    pub id: u32,
    pub frequency: u8,
    pub message: Seq<char>,
    pub month: u8,
    pub day: u8,
    pub year: u32,
    pub hour: u8,
    pub minute: u8,
    pub n: Option<u32>,
}

impl View for Row {
    type V = RowView;

    open spec fn view(&self) -> RowView {
        RowView {
            id: self.id,
            frequency: self.frequency,
            message: self.message@,
            month: self.month,
            day: self.day,
            year: self.year,
            hour: self.hour,
            minute: self.minute,
            n: self.n,
        }
    }
}

/// The `(id, reminder)` pairs of a sequence, by their views.
pub open spec fn entries_view(v: Seq<(u32, Reminder)>) -> Seq<(u32, ReminderView)> {
    v.map_values(|p: (u32, Reminder)| (p.0, p.1@))
}

/// The row that stores reminder `r` under `id`.
pub open spec fn row_of(id: u32, r: ReminderView) -> RowView {
    RowView {
        id,
        frequency: tag_of(r.frequency),
        message: r.message,
        month: r.month,
        day: r.day,
        year: r.year,
        hour: r.hour,
        minute: r.minute,
        n: r.n,
    }
}

/// The entry that a row stands for; `None` where its frequency code is unknown.
pub open spec fn entry_of(row: RowView) -> Option<(u32, ReminderView)> {
    match frequency_of_tag(row.frequency) {
        Some(f) => Some(
            (
                row.id,
                ReminderView {
                    frequency: f,
                    month: row.month,
                    day: row.day,
                    year: row.year,
                    hour: row.hour,
                    minute: row.minute,
                    n: row.n,
                    message: row.message,
                },
            ),
        ),
        None => None,
    }
}

/// The entries of the rows that stand for one, in row order.
pub open spec fn entries_of(rows: Seq<RowView>) -> Seq<(u32, ReminderView)>
    decreases rows.len(),
{
    if rows.len() == 0 {
        Seq::empty()
    } else {
        let front = entries_of(rows.drop_last());
        match entry_of(rows.last()) {
            Some(e) => front.push(e),
            None => front,
        }
    }
}

/// Reading back a stored reminder gives the same id and reminder.
pub proof fn lemma_row_round_trip(id: u32, r: ReminderView)
    ensures
        entry_of(row_of(id, r)) == Some((id, r)),
{
}

/// The row that stores a reminder under `id`.
pub fn row_from_reminder(id: u32, reminder: &Reminder) -> (r: Row)
    ensures
        r@ == row_of(id, reminder@),
{
    Row {
        id,
        frequency: serialize_frequency(reminder.frequency),
        message: reminder.message.clone(),
        month: reminder.month,
        day: reminder.day,
        year: reminder.year,
        hour: reminder.hour,
        minute: reminder.minute,
        n: reminder.n,
    }
}

/// The reminder that a row stores, with its id.
pub fn reminder_from_row(row: &Row) -> (r: Option<(u32, Reminder)>)
    ensures
        match (r, entry_of(row@)) {
            (Some(x), Some(e)) => x.0 == e.0 && x.1@ == e.1,
            (None, None) => true,
            _ => false,
        },
{
    let frequency = match deserialize_frequency(row.frequency) {
        Some(f) => f,
        None => {
            return None;
        },
    };
    Some(
        (
            row.id,
            Reminder {
                frequency,
                month: row.month,
                day: row.day,
                year: row.year,
                hour: row.hour,
                minute: row.minute,
                n: row.n,
                message: row.message.clone(),
            },
        ),
    )
}

/// The reminders of a table read, in row order; a row with an unknown
/// frequency code is passed over.
pub fn reminders_from_rows(rows: &Vec<Row>) -> (r: Vec<(u32, Reminder)>)
    ensures
        entries_view(r@) == entries_of(rows@.map_values(|x: Row| x@)),
{
    let ghost views = rows@.map_values(|x: Row| x@);
    let mut out: Vec<(u32, Reminder)> = Vec::new();
    let mut i: usize = 0;
    while i < rows.len()
        invariant
            0 <= i <= rows@.len(),
            views == rows@.map_values(|x: Row| x@),
            entries_view(out@) == entries_of(views.take(i as int)),
        decreases rows@.len() - i,
    {
        let entry = reminder_from_row(&rows[i]);
        proof {
            assert(views.take(i + 1).drop_last() =~= views.take(i as int));
            assert(views.take(i + 1).last() == rows@[i as int]@);
        }
        match entry {
            Some(e) => {
                out.push(e);
                assert(entries_view(out@) =~= entries_of(views.take(i + 1)));
            },
            None => {
                assert(entries_view(out@) =~= entries_of(views.take(i + 1)));
            },
        }
        i = i + 1;
    }
    assert(views.take(i as int) =~= views);
    out
}

/// Whether an insert went through: the write must change exactly one row.
pub fn insert_succeeded(changed: usize) -> (r: bool)
    ensures
        r == (changed == 1),
{
    changed == 1
}

/// What a delete by id came to.
#[derive(PartialEq, Eq, Structural, Debug, Clone, Copy)]
pub enum DeleteOutcome {
    Deleted,
    /// No row had the id. This is no error.
    NotFound,
    /// The store reported an error.
    Failed,
}

/// The outcome of a delete that changed `changed` rows.
pub fn delete_outcome(changed: usize) -> (r: DeleteOutcome)
    ensures
        changed == 0 ==> r == DeleteOutcome::NotFound,
        changed != 0 ==> r == DeleteOutcome::Deleted,
{
    if changed == 0 {
        DeleteOutcome::NotFound
    } else {
        DeleteOutcome::Deleted
    }
}

} // verus!
