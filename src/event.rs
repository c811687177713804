//! Events of a calendar, and a page of them.
use vstd::prelude::*;
use std::collections::{BTreeMap, BTreeSet};

use crate::calendar_types::{CalendarAccessRole, DefaultReminder};
use crate::encode::{encode_path, path_encoded};
use crate::event_types::{
    EventAttachment, EventAttendees, EventCalendarDate, EventConferenceData, EventCreator,
    EventGadget, EventGadgetDisplay, EventOrganizer, EventReminder, EventSource, EventStatus,
    EventTransparency, EventType, EventVisibility, EventWorkingLocation,
};
use crate::query::{insert_pair, opt_view, QueryParams};
use crate::sendable::{Sendable, BASE_URL};

verus! {

/// A page of events.
#[derive(Default, Debug, Clone, PartialEq, Eq)]
pub struct Events {
    pub kind: Option<String>,
    pub etag: String,
    pub summary: String,
    pub description: String,
    pub updated: String,
    pub time_zone: String,
    pub access_role: CalendarAccessRole,
    pub default_reminders: Vec<DefaultReminder>,
    pub next_page_token: Option<String>,
    pub items: Vec<Event>,
}

/// A single event. `calendar_id` names the calendar that holds it (the
/// service does not send it); `query_string` holds the query parameters of
/// the next request made with the event. Neither is part of the wire form.
#[derive(Debug, Clone, PartialEq, Eq)]
pub struct Event {
    pub attachments: Vec<EventAttachment>,
    pub attendees_omitted: bool,
    pub attendees: Vec<EventAttendees>,
    pub color_id: Option<String>,
    pub conference_data: EventConferenceData,
    pub created: String,
    pub creator: EventCreator,
    pub description: Option<String>,
    pub end: EventCalendarDate,
    pub end_time_unspecified: bool,
    pub etag: String,
    pub event_type: EventType,
    pub gadget: EventGadget,
    pub guests_invite_others: bool,
    pub guests_can_see_other_guests: bool,
    pub guests_can_modify: bool,
    pub hangout_link: String,
    pub html_link: String,
    pub ical_uid: Option<String>,
    pub id: String,
    pub kind: String,
    pub location: Option<String>,
    pub locked: bool,
    pub organizer: EventOrganizer,
    pub original_start_time: EventCalendarDate,
    pub private_copy: bool,
    pub recurring_event_id: String,
    pub recurrence: BTreeSet<String>,
    pub reminders: EventReminder,
    pub sequence: u64,
    pub source: EventSource,
    pub start: EventCalendarDate,
    pub status: EventStatus,
    pub summary: String,
    pub transparency: EventTransparency,
    pub updated: String,
    pub visibility: EventVisibility,
    pub working_location: EventWorkingLocation,
    pub calendar_id: String,
    pub query_string: QueryParams,
}

/// Whether a date is empty.
pub open spec fn empty_date_spec(d: EventCalendarDate) -> bool {
    d.date is None && d.date_time is None && d.time_zone is None
}

fn empty_date() -> (r: EventCalendarDate)
    ensures
        empty_date_spec(r),
{
    EventCalendarDate { date: None, date_time: None, time_zone: None }
}

impl Event {
    /// Whether every field but the id, the calendar and the query is empty,
    /// false, zero or the default choice.
    pub open spec fn empty_content(&self) -> bool {
        &&& self.attachments@.len() == 0
        &&& !self.attendees_omitted
        &&& self.attendees@.len() == 0
        &&& self.color_id is None
        &&& self.conference_data.conference_id is None
        &&& self.conference_data.conference_solution is None
        &&& self.conference_data.create_request is None
        &&& self.conference_data.entry_points@.len() == 0
        &&& self.conference_data.notes is None
        &&& self.conference_data.signature is None
        &&& self.created@.len() == 0
        &&& self.creator.display_name is None
        &&& self.creator.email is None
        &&& self.creator.id is None
        &&& self.creator.appears_as_self is None
        &&& self.description is None
        &&& empty_date_spec(self.end)
        &&& !self.end_time_unspecified
        &&& self.etag@.len() == 0
        &&& self.event_type == EventType::Default
        &&& self.gadget.display == EventGadgetDisplay::Icon
        &&& self.gadget.preferences@ == Map::<String, String>::empty()
        &&& !self.guests_invite_others
        &&& !self.guests_can_see_other_guests
        &&& !self.guests_can_modify
        &&& self.hangout_link@.len() == 0
        &&& self.html_link@.len() == 0
        &&& self.ical_uid is None
        &&& self.kind@.len() == 0
        &&& self.location is None
        &&& !self.locked
        &&& self.organizer.display_name is None
        &&& self.organizer.email@.len() == 0
        &&& self.organizer.id is None
        &&& self.organizer.appears_as_self is None
        &&& empty_date_spec(self.original_start_time)
        &&& !self.private_copy
        &&& self.recurring_event_id@.len() == 0
        &&& self.recurrence@ == Set::<String>::empty()
        &&& self.reminders.overrides is None
        &&& !self.reminders.use_default
        &&& self.sequence == 0
        &&& self.source.title@.len() == 0
        &&& self.source.url@.len() == 0
        &&& empty_date_spec(self.start)
        &&& self.status == EventStatus::Tentative
        &&& self.summary@.len() == 0
        &&& self.transparency == EventTransparency::Opaque
        &&& self.updated@.len() == 0
        &&& self.visibility == EventVisibility::Default
        &&& self.working_location.custom_location is None
        &&& self.working_location.home_office is None
        &&& self.working_location.office_location is None
    }
}

impl Default for Event {
    /// An event with every field empty, false, zero or the default choice,
    /// and no query parameters.
    fn default() -> (r: Event)
        ensures
            r.empty_content(),
            r.id@.len() == 0,
            r.calendar_id@.len() == 0,
            r.query_string@.len() == 0,
    {
        Event {
            attachments: Vec::new(),
            attendees_omitted: false,
            attendees: Vec::new(),
            color_id: None,
            conference_data: EventConferenceData {
                conference_id: None,
                conference_solution: None,
                create_request: None,
                entry_points: Vec::new(),
                notes: None,
                signature: None,
            },
            created: String::new(),
            creator: EventCreator { display_name: None, email: None, id: None, appears_as_self: None },
            description: None,
            end: empty_date(),
            end_time_unspecified: false,
            etag: String::new(),
            event_type: EventType::Default,
            gadget: EventGadget { display: EventGadgetDisplay::Icon, preferences: BTreeMap::new() },
            guests_invite_others: false,
            guests_can_see_other_guests: false,
            guests_can_modify: false,
            hangout_link: String::new(),
            html_link: String::new(),
            ical_uid: None,
            id: String::new(),
            kind: String::new(),
            location: None,
            locked: false,
            organizer: EventOrganizer {
                display_name: None,
                email: String::new(),
                id: None,
                appears_as_self: None,
            },
            original_start_time: empty_date(),
            private_copy: false,
            recurring_event_id: String::new(),
            recurrence: BTreeSet::new(),
            reminders: EventReminder { overrides: None, use_default: false },
            sequence: 0,
            source: EventSource { title: String::new(), url: String::new() },
            start: empty_date(),
            status: EventStatus::Tentative,
            summary: String::new(),
            transparency: EventTransparency::Opaque,
            updated: String::new(),
            visibility: EventVisibility::Default,
            working_location: EventWorkingLocation {
                custom_location: None,
                home_office: None,
                office_location: None,
            },
            calendar_id: String::new(),
            query_string: QueryParams::new(),
        }
    }
}

/// An event's path before encoding: `calendars/<calendar>/events/<id>`,
/// then `/<action>` when an action is given.
pub open spec fn raw_event_path(calendar_id: Seq<char>, id: Seq<char>, action: Option<Seq<char>>) -> Seq<char> {
    "calendars/"@ + calendar_id + "/events/"@ + id + match action {
        Some(a) => "/"@ + a,
        None => Seq::empty(),
    }
}

impl Sendable for Event {
    open spec fn spec_base(&self) -> Seq<char> {
        BASE_URL@
    }

    /// The raw path, percent-encoded: the calendar and event ids need not
    /// be safe in a URL.
    open spec fn spec_path(&self, action: Option<Seq<char>>) -> Seq<char> {
        path_encoded(raw_event_path(self.calendar_id@, self.id@, action))
    }

    open spec fn spec_query(&self) -> Seq<(Seq<char>, Seq<char>)> {
        self.query_string@
    }

    fn base(&self) -> (r: &'static str) {
        BASE_URL
    }

    fn path(&self, action: Option<String>) -> (r: String) {
        let mut raw = String::from_str("calendars/").concat(self.calendar_id.as_str()).concat(
            "/events/",
        ).concat(self.id.as_str());
        match action {
            Some(a) => {
                raw = raw.concat("/").concat(a.as_str());
            },
            None => {},
        }
        assert(raw@ =~= raw_event_path(self.calendar_id@, self.id@, opt_view(action)));
        encode_path(raw.as_str())
    }

    fn query(&self) -> (r: QueryParams) {
        self.query_string.duplicate()
    }
}

impl Event {
    /// Sets the query parameter `key` to `value`; nothing else changes.
    pub fn add_query(&mut self, key: String, value: String)
        ensures
            final(self).query_string@ == insert_pair(old(self).query_string@, key@, value@),
            final(self).query_string.map() == old(self).query_string.map().insert(key@, value@),
            *final(self) == (Event { query_string: final(self).query_string, ..*old(self) }),
    {
        self.query_string.insert(key, value);
    }
}

impl Events {
    /// Records `calendar_id` as the calendar of every event of the page;
    /// nothing else changes.
    pub fn add_calendar(&mut self, calendar_id: String)
        ensures
            final(self).items@.len() == old(self).items@.len(),
            forall|i: int|
                0 <= i < final(self).items@.len() ==> #[trigger] final(self).items@[i] == (Event {
                    calendar_id: final(self).items@[i].calendar_id,
                    ..old(self).items@[i]
                }) && final(self).items@[i].calendar_id@ == calendar_id@,
            *final(self) == (Events { items: final(self).items, ..*old(self) }),
    {
        let n = self.items.len();
        let mut i: usize = 0;
        while i < n
            invariant
                n == self.items@.len(),
                n == old(self).items@.len(),
                i <= n,
                forall|j: int|
                    0 <= j < i ==> #[trigger] self.items@[j] == (Event {
                        calendar_id: self.items@[j].calendar_id,
                        ..old(self).items@[j]
                    }) && self.items@[j].calendar_id@ == calendar_id@,
                forall|j: int| i <= j < n ==> #[trigger] self.items@[j] == old(self).items@[j],
                *self == (Events { items: self.items, ..*old(self) }),
            decreases n - i,
        {
            let mut e = self.items.remove(i);
            e.calendar_id = calendar_id.clone();
            self.items.insert(i, e);
            i = i + 1;
        }
    }
}

/// The kind an event has when the service leaves it out.
pub fn default_event_kind() -> (r: String)
    ensures
        r@ == "calendar#event"@,
{
    String::from_str("calendar#event")
}

/// The kind a page of events has when the service leaves it out.
pub fn default_events_kind() -> (r: Option<String>)
    ensures
        opt_view(r) == Some("calendar#events"@),
{
    Some(String::from_str("calendar#events"))
}

/// The value of the guest permissions when the service leaves them out.
pub fn default_true() -> (r: bool)
    ensures
        r,
{
    true
}

} // verus!
