//! What each operation of the resource clients sends: the descriptor it
//! builds and the action it names, and what it makes of a listing.
use vstd::prelude::*;

use crate::calendar::CalendarListOptions;
use crate::calendar_list::CalendarList;
use crate::error::ClientError;
use crate::event::{Event, Events};
use crate::event_options::EventListOptions;
use crate::event_types::SendUpdates;
use crate::query::{insert_pair, QueryParams};

verus! {

/// The action of an import.
pub const IMPORT_ACTION: &'static str = "import";

/// The action of an insert: an empty segment.
pub const INSERT_ACTION: &'static str = "";

/// The action that lists the instances of a recurring event.
pub const INSTANCES_ACTION: &'static str = "instances";

/// The action that moves an event to another calendar.
pub const MOVE_ACTION: &'static str = "move";

/// The action that creates an event from a line of text.
pub const QUICK_ADD_ACTION: &'static str = "quickAdd";

/// The `sendUpdates` value of a move: the choice given, `false` when none
/// is.
pub open spec fn move_send_updates(send_updates: Option<SendUpdates>) -> Seq<char> {
    match send_updates {
        Some(s) => s.name(),
        None => "false"@,
    }
}

/// The event to insert. An event with attachments gets
/// `supportsAttachments=true`, without which the service drops them; any
/// other event is sent as it is.
pub fn insert_request(event: Event) -> (r: Event)
    ensures
        event.attachments@.len() > 0 ==> r == (Event { query_string: r.query_string, ..event })
            && r.query_string@ == insert_pair(
            event.query_string@,
            "supportsAttachments"@,
            "true"@,
        ),
        event.attachments@.len() == 0 ==> r == event,
{
    let mut event = event;
    if event.attachments.len() > 0 {
        event.add_query(String::from_str("supportsAttachments"), String::from_str("true"));
    }
    event
}

/// The event to move to `destination`: it carries `destination` and
/// `sendUpdates`, which is `false` when no choice is given.
pub fn move_request(event: Event, destination: String, send_updates: Option<SendUpdates>) -> (r:
    Event)
    ensures
        r == (Event { query_string: r.query_string, ..event }),
        r.query_string@ == insert_pair(
            insert_pair(event.query_string@, "destination"@, destination@),
            "sendUpdates"@,
            move_send_updates(send_updates),
        ),
{
    let mut event = event;
    event.add_query(String::from_str("destination"), destination);
    let updates = match send_updates {
        Some(s) => s.to_string(),
        None => String::from_str("false"),
    };
    event.add_query(String::from_str("sendUpdates"), updates);
    event
}

/// The empty event that a quick add sends, with `text` as its only query
/// parameter.
pub fn quick_add_request(text: String) -> (r: Event)
    ensures
        r.empty_content(),
        r.id@.len() == 0,
        r.calendar_id@.len() == 0,
        r.query_string@ == seq![("text"@, text@)],
{
    let mut event = Event::default();
    event.add_query(String::from_str("text"), text);
    event
}

/// The event that a get sends: empty but for its calendar and id.
pub fn get_request(calendar_id: String, event_id: String) -> (r: Event)
    ensures
        r.empty_content(),
        r.id == event_id,
        r.calendar_id == calendar_id,
        r.query_string@.len() == 0,
{
    let mut event = Event::default();
    event.id = event_id;
    event.calendar_id = calendar_id;
    event
}

/// The event that lists the events of `calendar_id`: empty but for the
/// calendar, with the options as its query. Fails with `UnknownError`
/// exactly when an instant of the options cannot be written.
pub fn event_list_request(calendar_id: String, options: Option<EventListOptions>) -> (r: Result<
    Event,
    ClientError,
>)
    ensures
        r is Ok <==> (options matches Some(o) ==> o.writable()),
        r matches Ok(e) ==> e.empty_content() && e.calendar_id == calendar_id && e.id@.len() == 0 && match options {
            Some(o) => e.query_string@ == o.spec_query(),
            None => e.query_string@.len() == 0,
        },
{
    let mut event = Event::default();
    event.calendar_id = calendar_id;
    match options {
        Some(o) => {
            let q = o.to_query()?;
            event.query_string = q;
        },
        None => {},
    }
    Ok(event)
}

/// The calendar list request with the options as its query.
pub fn calendar_list_request(options: Option<CalendarListOptions>) -> (r: CalendarList)
    ensures
        r.items@.len() == 0,
        match options {
            Some(o) => r.query_string@ == o.spec_query(),
            None => r.query_string@.len() == 0,
        },
{
    match options {
        Some(o) => CalendarList::with_query(o.to_query()),
        None => CalendarList::with_query(QueryParams::new()),
    }
}

/// The events of a listing of `calendar_id`, each stamped with that
/// calendar: the service does not name it, and an event's path needs it.
pub fn events_of_calendar(events: Events, calendar_id: String) -> (r: Vec<Event>)
    ensures
        r@.len() == events.items@.len(),
        forall|i: int|
            0 <= i < r@.len() ==> #[trigger] r@[i] == (Event {
                calendar_id: r@[i].calendar_id,
                ..events.items@[i]
            }) && r@[i].calendar_id@ == calendar_id@,
{
    let mut events = events;
    events.add_calendar(calendar_id);
    events.items
}

} // verus!
