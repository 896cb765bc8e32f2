use vstd::prelude::*;
use crate::protocol::{
    Command, IdError, command_of, delete_frames, delete_listing, frames_view, id_of_frame,
    list_frames, list_reply, parse_command, parse_id, text_bytes,
};
use crate::reminder::{Reminder, ReminderView, decode_spec};
use crate::storage::{DeleteOutcome, entries_view};

verus! {

/// Where the exchange with the current client stands. Requests are
/// handled one at a time; each exchange strictly alternates requests and
/// replies.
#[derive(PartialEq, Eq, Structural, Debug, Clone, Copy)]
pub enum Phase {
    /// Waiting for a request.
    Idle,
    /// ADD: the insert was issued; its result is awaited.
    Adding,
    /// LIST: the stored reminders were asked for.
    Listing,
    /// LIST: the listing was sent; the client's acknowledgment is awaited.
    AwaitingAck,
    /// DELETE: the stored reminders were asked for.
    Gathering,
    /// DELETE: the listing was sent; the id to delete is awaited.
    AwaitingId,
    /// DELETE: the delete was issued; its outcome is awaited.
    Deleting,
}

/// What happened since the last step.
pub enum Event {
    /// A request arrived, as its frames.
    Request(Vec<Vec<u8>>),
    /// The stored reminders, or `None` where the store could not list them.
    Rows(Option<Vec<(u32, Reminder)>>),
    /// A single-frame message from the client in the middle of an exchange.
    Message(Vec<u8>),
    /// An insert finished; whether it went through.
    Inserted(bool),
    /// A delete finished.
    Deleted(DeleteOutcome),
}

/// Something the daemon must do, in order.
#[derive(PartialEq, Debug)]
pub enum Effect {
    /// Send these frames to the client as one message.
    Send(Vec<Vec<u8>>),
    /// Store this reminder.
    Insert(Reminder),
    /// Read all stored reminders; hand them back as `Event::Rows`.
    QueryList,
    /// Delete the reminder with this id; hand the outcome back as `Event::Deleted`.
    Delete(u32),
}

/// The mathematical content of an `Event`.
pub enum EventView {
    Request(Seq<Seq<u8>>),
    Rows(Option<Seq<(u32, ReminderView)>>),
    Message(Seq<u8>),
    Inserted(bool),
    Deleted(DeleteOutcome),
}

/// The mathematical content of an `Effect`.
pub enum EffectView {
    Send(Seq<Seq<u8>>),
    Insert(ReminderView),
    QueryList,
    Delete(u32),
}

impl View for Event {
    type V = EventView;

    open spec fn view(&self) -> EventView {
        match self {
            Event::Request(f) => EventView::Request(frames_view(f@)),
            Event::Rows(r) => EventView::Rows(
                match r {
                    Some(v) => Some(entries_view(v@)),
                    None => None,
                },
            ),
            Event::Message(m) => EventView::Message(m@),
            Event::Inserted(b) => EventView::Inserted(*b),
            Event::Deleted(o) => EventView::Deleted(*o),
        }
    }
}

impl View for Effect {
    type V = EffectView;

    open spec fn view(&self) -> EffectView {
        match self {
            Effect::Send(f) => EffectView::Send(frames_view(f@)),
            Effect::Insert(r) => EffectView::Insert(r@),
            Effect::QueryList => EffectView::QueryList,
            Effect::Delete(id) => EffectView::Delete(*id),
        }
    }
}

/// The effects of a step, by their views.
pub open spec fn effects_view(v: Seq<Effect>) -> Seq<EffectView> {
    v.map_values(|e: Effect| e@)
}

/// A reply of one text frame.
pub open spec fn text_reply(s: &str) -> EffectView {
    EffectView::Send(seq![text_bytes(s)])
}

/// The reply to a finished delete.
pub open spec fn delete_reply_text(o: DeleteOutcome) -> EffectView {
    if o == DeleteOutcome::Deleted {
        text_reply("Successfully deleted")
    } else {
        text_reply("Failed to delete, see log")
    }
}

/// How a new request is taken up.
pub open spec fn on_request(frames: Seq<Seq<u8>>) -> (Phase, Seq<EffectView>) {
    match command_of(frames) {
        Err(_) => (Phase::Idle, seq![]),
        Ok(Command::Add) => if frames.len() != 3 {
            (Phase::Idle, seq![text_reply("RECEIVED")])
        } else {
            match decode_spec(frames[2]) {
                Ok(r) => (Phase::Adding, seq![text_reply("RECEIVED"), EffectView::Insert(r)]),
                Err(_) => (Phase::Idle, seq![text_reply("RECEIVED")]),
            }
        },
        Ok(Command::List) => (Phase::Listing, seq![EffectView::QueryList]),
        Ok(Command::Delete) => (Phase::Gathering, seq![EffectView::QueryList]),
    }
}

/// The request dispatcher as a state machine: from a phase and an event to
/// the next phase and the effects to carry out. An event that the phase
/// does not expect changes nothing.
pub open spec fn step(p: Phase, e: EventView) -> (Phase, Seq<EffectView>) {
    match (p, e) {
        (Phase::Idle, EventView::Request(frames)) => on_request(frames),
        (Phase::Adding, EventView::Inserted(_)) => (Phase::Idle, seq![text_reply("RECEIVED")]),
        (Phase::Listing, EventView::Rows(None)) => (Phase::Idle, seq![text_reply("SUCCESS")]),
        (Phase::Listing, EventView::Rows(Some(rows))) => (
            Phase::AwaitingAck,
            seq![EffectView::Send(list_frames(rows))],
        ),
        (Phase::AwaitingAck, EventView::Message(_)) => (Phase::Idle, seq![text_reply("SUCCESS")]),
        (Phase::Gathering, EventView::Rows(None)) => (Phase::Idle, seq![]),
        (Phase::Gathering, EventView::Rows(Some(rows))) => (
            Phase::AwaitingId,
            seq![EffectView::Send(delete_frames(rows))],
        ),
        (Phase::AwaitingId, EventView::Message(m)) => match id_of_frame(m) {
            Ok(id) => (Phase::Deleting, seq![EffectView::Delete(id)]),
            Err(IdError::NotText) => (Phase::Idle, seq![text_reply("Invalid message received")]),
            Err(IdError::NotANumber) => (
                Phase::Idle,
                seq![text_reply("Invalid message received: not an int")],
            ),
        },
        (Phase::Deleting, EventView::Deleted(o)) => (Phase::Idle, seq![delete_reply_text(o)]),
        _ => (p, seq![]),
    }
}

/// A request that does not open with the tag gets no reply and leaves the
/// store as it is: no effect at all comes of it.
pub proof fn lemma_untagged_request_ignored(frames: Seq<Seq<u8>>)
    requires
        frames.len() == 0 || frames[0] != crate::protocol::tag_frame(),
    ensures
        step(Phase::Idle, EventView::Request(frames)) == (Phase::Idle, Seq::<EffectView>::empty()),
{
    assert(seq![] =~= Seq::<EffectView>::empty());
}

/// The dispatcher's state between events.
pub struct Session {
    pub phase: Phase,
}

/// A single text frame reply.
fn text_effect(s: &str) -> (r: Effect)
    ensures
        r@ == text_reply(s),
{
    let frames: Vec<Vec<u8>> = vec![crate::protocol::text_frame(s)];
    assert(frames_view(frames@) =~= seq![text_bytes(s)]);
    Effect::Send(frames)
}

impl Session {
    pub fn new() -> (r: Session)
        ensures
            r.phase == Phase::Idle,
    {
        Session { phase: Phase::Idle }
    }

    /// Whether the exchange is over and a new request may come.
    pub fn is_idle(&self) -> (r: bool)
        ensures
            r == (self.phase == Phase::Idle),
    {
        self.phase == Phase::Idle
    }

    /// Whether the client is to send a single-frame message next.
    pub fn awaits_client(&self) -> (r: bool)
        ensures
            r == (self.phase == Phase::AwaitingAck || self.phase == Phase::AwaitingId),
    {
        self.phase == Phase::AwaitingAck || self.phase == Phase::AwaitingId
    }

    /// Takes a new request.
    pub fn handle_message(&mut self, data: &Vec<Vec<u8>>) -> (r: Vec<Effect>)
        requires
            old(self).phase == Phase::Idle,
        ensures
            (final(self).phase, effects_view(r@)) == on_request(frames_view(data@)),
    {
        let received = text_effect("RECEIVED");
        let mut out: Vec<Effect> = Vec::new();
        match parse_command(data) {
            Err(_) => {
                self.phase = Phase::Idle;
            },
            Ok(Command::Add) => {
                out.push(received);
                if data.len() != 3 {
                    self.phase = Phase::Idle;
                } else {
                    match Reminder::deserialize_reminder(&data[2]) {
                        Ok(r) => {
                            out.push(Effect::Insert(r));
                            self.phase = Phase::Adding;
                        },
                        Err(_) => {
                            self.phase = Phase::Idle;
                        },
                    }
                }
            },
            Ok(Command::List) => {
                out.push(Effect::QueryList);
                self.phase = Phase::Listing;
            },
            Ok(Command::Delete) => {
                out.push(Effect::QueryList);
                self.phase = Phase::Gathering;
            },
        }
        assert(effects_view(out@) =~= on_request(frames_view(data@)).1);
        out
    }

    /// Advances the exchange by one event.
    pub fn handle(&mut self, event: Event) -> (r: Vec<Effect>)
        ensures
            (final(self).phase, effects_view(r@)) == step(old(self).phase, event@),
    {
        let ghost ev = event@;
        let mut out: Vec<Effect> = Vec::new();
        match (self.phase, event) {
            (Phase::Idle, Event::Request(frames)) => {
                return self.handle_message(&frames);
            },
            (Phase::Adding, Event::Inserted(_)) => {
                out.push(text_effect("RECEIVED"));
                self.phase = Phase::Idle;
            },
            (Phase::Listing, Event::Rows(None)) => {
                out.push(text_effect("SUCCESS"));
                self.phase = Phase::Idle;
            },
            (Phase::Listing, Event::Rows(Some(rows))) => {
                out.push(Effect::Send(list_reply(&rows)));
                self.phase = Phase::AwaitingAck;
            },
            (Phase::AwaitingAck, Event::Message(_)) => {
                out.push(text_effect("SUCCESS"));
                self.phase = Phase::Idle;
            },
            (Phase::Gathering, Event::Rows(None)) => {
                self.phase = Phase::Idle;
            },
            (Phase::Gathering, Event::Rows(Some(rows))) => {
                out.push(Effect::Send(delete_listing(&rows)));
                self.phase = Phase::AwaitingId;
            },
            (Phase::AwaitingId, Event::Message(m)) => {
                match parse_id(&m) {
                    Ok(id) => {
                        out.push(Effect::Delete(id));
                        self.phase = Phase::Deleting;
                    },
                    Err(IdError::NotText) => {
                        out.push(text_effect("Invalid message received"));
                        self.phase = Phase::Idle;
                    },
                    Err(IdError::NotANumber) => {
                        out.push(text_effect("Invalid message received: not an int"));
                        self.phase = Phase::Idle;
                    },
                }
            },
            (Phase::Deleting, Event::Deleted(o)) => {
                if o == DeleteOutcome::Deleted {
                    out.push(text_effect("Successfully deleted"));
                } else {
                    out.push(text_effect("Failed to delete, see log"));
                }
                self.phase = Phase::Idle;
            },
            _ => {},
        }
        assert(effects_view(out@) =~= step(old(self).phase, ev).1);
        out
    }
}

} // verus!
