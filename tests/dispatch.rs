use hermes::protocol::{parse_command, parse_decimal, parse_id, validate_header, Command, FramingError, IdError};
use hermes::reminder::{Frequency, Reminder};
use hermes::session::{Effect, Event, Phase, Session};
use hermes::storage::{
    delete_outcome, insert_succeeded, reminder_from_row, reminders_from_rows, row_from_reminder,
    DeleteOutcome, Row,
};

/// A table kept in memory, ids handed out in increasing order.
struct Table {
    rows: Vec<(u32, Reminder)>,
    next_id: u32,
}

impl Table {
    fn new() -> Table {
        Table { rows: Vec::new(), next_id: 1 }
    }
}

fn tag() -> Vec<u8> {
    b"HERMES".to_vec()
}

/// Feeds an event to the session, carries out store effects against the
/// table, and returns the frames sent to the client.
fn run(session: &mut Session, table: &mut Table, event: Event) -> Vec<Vec<Vec<u8>>> {
    let mut sent = Vec::new();
    let mut pending = vec![event];
    while let Some(ev) = pending.pop() {
        for effect in session.handle(ev) {
            match effect {
                Effect::Send(frames) => sent.push(frames),
                Effect::Insert(r) => {
                    table.rows.push((table.next_id, r));
                    table.next_id += 1;
                    pending.push(Event::Inserted(true));
                }
                Effect::QueryList => pending.push(Event::Rows(Some(table.rows.clone()))),
                Effect::Delete(id) => {
                    let before = table.rows.len();
                    table.rows.retain(|(i, _)| *i != id);
                    pending.push(Event::Deleted(delete_outcome(before - table.rows.len())));
                }
            }
        }
    }
    sent
}

fn add_request(r: &Reminder) -> Vec<Vec<u8>> {
    vec![tag(), vec![1], r.serialize()]
}

fn list_entries(session: &mut Session, table: &mut Table) -> Vec<Reminder> {
    let sent = run(session, table, Event::Request(vec![tag(), vec![2]]));
    assert_eq!(sent.len(), 1);
    assert_eq!(session.phase, Phase::AwaitingAck);
    let listing = &sent[0];
    assert_eq!(listing[0], tag());
    let out = listing[1..]
        .iter()
        .map(|f| Reminder::deserialize_reminder(f).unwrap())
        .collect();
    let done = run(session, table, Event::Message(b"RECEIVED".to_vec()));
    assert_eq!(done, vec![vec![b"SUCCESS".to_vec()]]);
    assert!(session.is_idle());
    out
}

#[test]
fn scenario_add_then_list() {
    let mut session = Session::new();
    let mut table = Table::new();
    let r = Reminder::new(Frequency::DAILY, 6, 1, 2024, 9, 0, None, "take pills".to_string());
    let sent = run(&mut session, &mut table, Event::Request(add_request(&r)));
    assert_eq!(sent, vec![vec![b"RECEIVED".to_vec()], vec![b"RECEIVED".to_vec()]]);
    assert!(session.is_idle());
    let listed = list_entries(&mut session, &mut table);
    assert_eq!(listed, vec![r]);
    assert_eq!(listed[0].as_tuple(), (Frequency::DAILY, 6, 1, 2024, 9, 0, None, &"take pills".to_string()));
}

#[test]
fn scenario_two_adds_then_delete_first() {
    let mut session = Session::new();
    let mut table = Table::new();
    let a = Reminder::new(Frequency::ONCE, 1, 2, 2025, 3, 4, None, "first".to_string());
    let b = Reminder::new(Frequency::NDAYS, 5, 6, 2025, 7, 8, Some(9), "second".to_string());
    run(&mut session, &mut table, Event::Request(add_request(&a)));
    run(&mut session, &mut table, Event::Request(add_request(&b)));
    let sent = run(&mut session, &mut table, Event::Request(vec![tag(), vec![3]]));
    assert_eq!(sent.len(), 1);
    assert_eq!(session.phase, Phase::AwaitingId);
    let listing = &sent[0];
    assert_eq!(listing.len(), 3);
    assert_eq!(listing[0], tag());
    let mut first = vec![0, 0, 0, 1];
    first.extend(a.serialize());
    let mut second = vec![0, 0, 0, 2];
    second.extend(b.serialize());
    assert_eq!(listing[1], first);
    assert_eq!(listing[2], second);
    let reply = run(&mut session, &mut table, Event::Message(b"1\n".to_vec()));
    assert_eq!(reply, vec![vec![b"Successfully deleted".to_vec()]]);
    assert_eq!(list_entries(&mut session, &mut table), vec![b]);
}

#[test]
fn scenario_untagged_request_ignored() {
    let mut session = Session::new();
    let mut table = Table::new();
    let r = Reminder::new(Frequency::DAILY, 6, 1, 2024, 9, 0, None, "kept".to_string());
    run(&mut session, &mut table, Event::Request(add_request(&r)));
    let bad = vec![b"HERMEZ".to_vec(), vec![1], r.serialize()];
    assert!(session.handle(Event::Request(bad.clone())).is_empty());
    assert!(session.is_idle());
    assert!(run(&mut session, &mut table, Event::Request(bad)).is_empty());
    assert!(run(&mut session, &mut table, Event::Request(vec![vec![1], r.serialize()])).is_empty());
    assert!(run(&mut session, &mut table, Event::Request(vec![])).is_empty());
    assert_eq!(table.rows.len(), 1);
    assert_eq!(list_entries(&mut session, &mut table), vec![r]);
}

#[test]
fn delete_of_missing_id_is_not_found() {
    assert_eq!(delete_outcome(0), DeleteOutcome::NotFound);
    assert_eq!(delete_outcome(1), DeleteOutcome::Deleted);
    let mut session = Session::new();
    let mut table = Table::new();
    run(&mut session, &mut table, Event::Request(vec![tag(), vec![3]]));
    let reply = run(&mut session, &mut table, Event::Message(b"77".to_vec()));
    assert_eq!(reply, vec![vec![b"Failed to delete, see log".to_vec()]]);
    assert!(session.is_idle());
}

#[test]
fn delete_with_bad_id() {
    let mut session = Session::new();
    let mut table = Table::new();
    run(&mut session, &mut table, Event::Request(vec![tag(), vec![3]]));
    let reply = run(&mut session, &mut table, Event::Message(b"seven".to_vec()));
    assert_eq!(reply, vec![vec![b"Invalid message received: not an int".to_vec()]]);
    run(&mut session, &mut table, Event::Request(vec![tag(), vec![3]]));
    let reply = run(&mut session, &mut table, Event::Message(vec![0xff, 0x31]));
    assert_eq!(reply, vec![vec![b"Invalid message received".to_vec()]]);
}

#[test]
fn add_with_bad_payload_acknowledges_once() {
    let mut session = Session::new();
    let mut table = Table::new();
    let sent = run(&mut session, &mut table, Event::Request(vec![tag(), vec![1], vec![9; 20]]));
    assert_eq!(sent, vec![vec![b"RECEIVED".to_vec()]]);
    let sent = run(&mut session, &mut table, Event::Request(vec![tag(), vec![1]]));
    assert_eq!(sent, vec![vec![b"RECEIVED".to_vec()]]);
    assert!(table.rows.is_empty());
    assert!(session.is_idle());
}

#[test]
fn list_failure_replies_success_only() {
    let mut session = Session::new();
    let effects = session.handle(Event::Request(vec![tag(), vec![2]]));
    assert_eq!(effects, vec![Effect::QueryList]);
    let effects = session.handle(Event::Rows(None));
    assert_eq!(effects, vec![Effect::Send(vec![b"SUCCESS".to_vec()])]);
    assert!(session.is_idle());
}

#[test]
fn unexpected_event_changes_nothing() {
    let mut session = Session::new();
    assert!(session.handle(Event::Message(b"1".to_vec())).is_empty());
    assert!(session.handle(Event::Inserted(true)).is_empty());
    assert_eq!(session.phase, Phase::Idle);
}

#[test]
fn command_parsing() {
    assert_eq!(parse_command(&vec![tag()]), Err(FramingError::PartCount));
    assert_eq!(parse_command(&vec![b"hermes".to_vec(), vec![1]]), Err(FramingError::BadTag));
    assert_eq!(parse_command(&vec![tag(), vec![1, 2]]), Err(FramingError::BadCommand));
    assert_eq!(parse_command(&vec![tag(), vec![]]), Err(FramingError::BadCommand));
    assert_eq!(parse_command(&vec![tag(), vec![4]]), Err(FramingError::UnknownCommand));
    assert_eq!(parse_command(&vec![tag(), vec![1]]), Ok(Command::Add));
    assert_eq!(parse_command(&vec![tag(), vec![2]]), Ok(Command::List));
    assert_eq!(parse_command(&vec![tag(), vec![3], vec![]]), Ok(Command::Delete));
    assert!(validate_header(&tag()));
    assert!(!validate_header(&b"HERMES ".to_vec()));
}

#[test]
fn id_parsing() {
    assert_eq!(parse_decimal(b"42"), Some(42));
    assert_eq!(parse_decimal(b"+42"), Some(42));
    assert_eq!(parse_decimal(b"4294967295"), Some(u32::MAX));
    assert_eq!(parse_decimal(b"4294967296"), None);
    assert_eq!(parse_decimal(b""), None);
    assert_eq!(parse_decimal(b"+"), None);
    assert_eq!(parse_decimal(b"-1"), None);
    assert_eq!(parse_decimal(b"1 2"), None);
    assert_eq!(parse_id(&b"  17\r\n".to_vec()), Ok(17));
    assert_eq!(parse_id(&"\u{a0}8\u{3000}".as_bytes().to_vec()), Ok(8));
    assert_eq!(parse_id(&b"x".to_vec()), Err(IdError::NotANumber));
    assert_eq!(parse_id(&vec![0xc3]), Err(IdError::NotText));
}

#[test]
fn rows_map_columns() {
    let r = Reminder::new(Frequency::NDAYS, 5, 6, 2025, 7, 8, Some(9), "text".to_string());
    let row = row_from_reminder(12, &r);
    assert_eq!(
        row,
        Row { id: 12, frequency: 4, message: "text".to_string(), month: 5, day: 6, year: 2025, hour: 7, minute: 8, n: Some(9) }
    );
    assert_eq!(reminder_from_row(&row), Some((12, r.clone())));
    let bad = Row { id: 13, frequency: 0, message: "x".to_string(), month: 1, day: 1, year: 1, hour: 1, minute: 1, n: None };
    assert_eq!(reminder_from_row(&bad), None);
    let read = reminders_from_rows(&vec![bad, row]);
    assert_eq!(read, vec![(12, r)]);
}

#[test]
fn insert_needs_one_row() {
    assert!(insert_succeeded(1));
    assert!(!insert_succeeded(0));
    assert!(!insert_succeeded(2));
}
