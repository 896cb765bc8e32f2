use vstd::prelude::*;
use crate::calendar::{
    DateTime, NextStep, after, lemma_overdue_at_exactly_now, next_step, overdue, schedule_of,
};
use crate::reminder::{Reminder, ReminderView};
use crate::storage::entries_view;

verus! {

/// The entries that are due at `now`, in list order.
pub open spec fn overdue_entries(entries: Seq<(u32, ReminderView)>, now: DateTime) -> Seq<
    (u32, ReminderView),
>
    decreases entries.len(),
{
    if entries.len() == 0 {
        Seq::empty()
    } else {
        let front = overdue_entries(entries.drop_last(), now);
        if overdue(schedule_of(entries.last().1), now) {
            front.push(entries.last())
        } else {
            front
        }
    }
}

/// One due reminder: the text to show, and what happens to it afterwards.
#[derive(PartialEq, Debug)]
pub struct Firing {
    pub id: u32,
    pub message: String,
    pub next: NextStep,
}

/// The mathematical content of a `Firing`.
pub struct FiringView {
    pub id: u32,
    pub message: Seq<char>,
    pub next: NextStep,
}

impl View for Firing {
    type V = FiringView;

    open spec fn view(&self) -> FiringView {
        FiringView { id: self.id, message: self.message@, next: self.next }
    }
}

/// The firing of a due entry at `now`.
pub open spec fn firing_of(e: (u32, ReminderView), now: DateTime) -> FiringView {
    FiringView { id: e.0, message: e.1.message, next: next_step(e.1, now) }
}

/// Every due entry, then removed or moved by the recurrence policy, and
/// nothing else.
pub open spec fn tick_plan(entries: Seq<(u32, ReminderView)>, now: DateTime) -> Seq<FiringView> {
    overdue_entries(entries, now).map_values(|e: (u32, ReminderView)| firing_of(e, now))
}

/// Among any entries, those scheduled exactly at `now` are found, and none
/// scheduled later (one minute later, say) is.
pub proof fn lemma_find_overdue_boundary(entries: Seq<(u32, ReminderView)>, now: DateTime)
    ensures
        forall|i: int|
            0 <= i < entries.len() && schedule_of(#[trigger] entries[i].1) == now
                ==> overdue_entries(entries, now).contains(entries[i]),
        forall|e: (u32, ReminderView)|
            #[trigger] overdue_entries(entries, now).contains(e) ==> entries.contains(e) && !after(
                schedule_of(e.1),
                now,
            ),
    decreases entries.len(),
{
    if entries.len() > 0 {
        let front = entries.drop_last();
        lemma_find_overdue_boundary(front, now);
        lemma_overdue_at_exactly_now(now, now);
        let res = overdue_entries(entries, now);
        let fres = overdue_entries(front, now);
        assert forall|i: int|
            0 <= i < entries.len() && schedule_of(#[trigger] entries[i].1) == now implies res.contains(
                entries[i],
            ) by {
            if i < entries.len() - 1 {
                assert(front[i] == entries[i]);
                let j = choose|j: int| 0 <= j < fres.len() && fres[j] == entries[i];
                assert(res[j] == entries[i]);
            } else {
                assert(res[res.len() - 1] == entries[i]);
            }
        }
        assert forall|e: (u32, ReminderView)| #[trigger] res.contains(e) implies entries.contains(e)
            && !after(schedule_of(e.1), now) by {
            let j = choose|j: int| 0 <= j < res.len() && res[j] == e;
            if j < fres.len() {
                assert(fres[j] == e);
                assert(fres.contains(e));
                let k = choose|k: int| 0 <= k < front.len() && front[k] == e;
                assert(entries[k] == e);
            } else {
                assert(e == entries.last());
                assert(entries[entries.len() - 1] == e);
                if after(schedule_of(e.1), now) {
                    lemma_overdue_at_exactly_now(now, schedule_of(e.1));
                }
            }
        }
    }
}

/// The entries that are due at `now`, in list order.
pub fn find_overdue(entries: &Vec<(u32, Reminder)>, now: DateTime) -> (r: Vec<(u32, Reminder)>)
    ensures
        entries_view(r@) == overdue_entries(entries_view(entries@), now),
{
    let ghost views = entries_view(entries@);
    let mut out: Vec<(u32, Reminder)> = Vec::new();
    let mut i: usize = 0;
    while i < entries.len()
        invariant
            0 <= i <= entries@.len(),
            views == entries_view(entries@),
            entries_view(out@) == overdue_entries(views.take(i as int), now),
        decreases entries@.len() - i,
    {
        let id = entries[i].0;
        let due = crate::calendar::is_overdue(entries[i].1.scheduled_at(), now);
        proof {
            assert(views.take(i + 1).drop_last() =~= views.take(i as int));
            assert(views.take(i + 1).last() == views[i as int]);
        }
        if due {
            let r = entries[i].1.clone();
            out.push((id, r));
        }
        assert(entries_view(out@) =~= overdue_entries(views.take(i + 1), now));
        i = i + 1;
    }
    assert(views.take(i as int) =~= views);
    out
}

/// What one scheduler tick does at `now` with the stored entries: each due
/// reminder, in list order, is shown and then deleted or rescheduled.
pub fn plan_notifications(entries: &Vec<(u32, Reminder)>, now: DateTime) -> (r: Vec<Firing>)
    ensures
        r@.map_values(|f: Firing| f@) == tick_plan(entries_view(entries@), now),
{
    let due = find_overdue(entries, now);
    let ghost dv = entries_view(due@);
    let mut out: Vec<Firing> = Vec::new();
    let mut i: usize = 0;
    while i < due.len()
        invariant
            0 <= i <= due@.len(),
            dv == entries_view(due@),
            dv.len() == due@.len(),
            out@.len() == i,
            out@.map_values(|f: Firing| f@) == dv.take(i as int).map_values(
                |e: (u32, ReminderView)| firing_of(e, now),
            ),
        decreases due@.len() - i,
    {
        let next = due[i].1.next_occurrence(now);
        let firing = Firing { id: due[i].0, message: due[i].1.message.clone(), next };
        let ghost before = out@;
        proof {
            assert(firing@ == firing_of(dv[i as int], now));
        }
        out.push(firing);
        assert forall|j: int| 0 <= j < i implies out@[j]@ == firing_of(dv[j], now) by {
            assert(before[j] == out@[j]);
            assert(before.map_values(|f: Firing| f@)[j] == dv.take(i as int).map_values(
                |e: (u32, ReminderView)| firing_of(e, now),
            )[j]);
        }
        assert(out@.map_values(|f: Firing| f@) =~= dv.take(i + 1).map_values(
            |e: (u32, ReminderView)| firing_of(e, now),
        ));
        i = i + 1;
    }
    assert(dv.take(i as int) =~= dv);
    out
}

} // verus!
