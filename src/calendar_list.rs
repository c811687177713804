//! The calendar list: the calendars that the user sees, and one entry of it.
use vstd::prelude::*;

use crate::calendar_types::{
    CalendarAccessRole, ConferenceProperties, DefaultReminder, NotificationSettings,
};
use crate::query::{insert_pair, opt_view, QueryParams};
use crate::sendable::{Sendable, BASE_URL};

verus! {

/// A single calendar of the calendar list (not a `Calendar`).
#[derive(Default, Debug, Clone, PartialEq, Eq)]
pub struct CalendarListItem {
    pub kind: Option<String>,
    pub id: String,
    pub etag: String,
    pub summary: String,
    pub access_role: CalendarAccessRole,
    pub notification_settings: Option<NotificationSettings>,
    pub location: Option<String>,
    pub summary_override: Option<String>,
    pub time_zone: Option<String>,
    pub background_color: Option<String>,
    pub foreground_color: Option<String>,
    pub color_id: Option<String>,
    pub conference_properties: Option<ConferenceProperties>,
    pub deleted: Option<bool>,
    pub hidden: Option<bool>,
    pub primary: Option<bool>,
    pub selected: Option<bool>,
    pub description: Option<String>,
    pub default_reminders: Vec<DefaultReminder>,
    pub query_string: QueryParams,
}

/// A page of the calendar list.
#[derive(Debug, Clone, PartialEq, Eq)]
pub struct CalendarList {
    pub kind: Option<String>,
    pub etag: String,
    pub next_sync_token: Option<String>,
    pub items: Vec<CalendarListItem>,
    pub query_string: QueryParams,
}

impl Default for CalendarList {
    fn default() -> (r: CalendarList)
        ensures
            r.kind is None,
            r.etag@.len() == 0,
            r.next_sync_token is None,
            r.items@.len() == 0,
            r.spec_query().len() == 0,
    {
        CalendarList {
            kind: None,
            etag: String::new(),
            next_sync_token: None,
            items: Vec::new(),
            query_string: QueryParams::new(),
        }
    }
}

impl CalendarListItem {
    /// Sets the query parameter `key` to `value`.
    pub fn add_query(&mut self, key: String, value: String)
        ensures
            final(self).spec_query() == insert_pair(old(self).spec_query(), key@, value@),
            *final(self) == (CalendarListItem { query_string: final(self).query_string, ..*old(self) }),
    {
        self.query_string.insert(key, value);
    }
}

impl CalendarList {
    /// Sets the query parameter `key` to `value`.
    pub fn add_query(&mut self, key: String, value: String)
        ensures
            final(self).spec_query() == insert_pair(old(self).spec_query(), key@, value@),
            *final(self) == (CalendarList { query_string: final(self).query_string, ..*old(self) }),
    {
        self.query_string.insert(key, value);
    }

    /// A calendar list request that carries `query`.
    pub fn with_query(query: QueryParams) -> (r: CalendarList)
        ensures
            r.spec_query() == query@,
            r.items@.len() == 0,
    {
        CalendarList {
            kind: None,
            etag: String::new(),
            next_sync_token: None,
            items: Vec::new(),
            query_string: query,
        }
    }
}

impl Sendable for CalendarListItem {
    open spec fn spec_base(&self) -> Seq<char> {
        BASE_URL@
    }

    open spec fn spec_path(&self, action: Option<Seq<char>>) -> Seq<char> {
        "users/me/calendarList/"@ + self.id@
    }

    open spec fn spec_query(&self) -> Seq<(Seq<char>, Seq<char>)> {
        self.query_string@
    }

    fn base(&self) -> (r: &'static str) {
        BASE_URL
    }

    fn path(&self, action: Option<String>) -> (r: String) {
        String::from_str("users/me/calendarList/").concat(self.id.as_str())
    }

    fn query(&self) -> (r: QueryParams) {
        self.query_string.duplicate()
    }
}

impl Sendable for CalendarList {
    open spec fn spec_base(&self) -> Seq<char> {
        BASE_URL@
    }

    open spec fn spec_path(&self, action: Option<Seq<char>>) -> Seq<char> {
        "users/me/calendarList"@
    }

    open spec fn spec_query(&self) -> Seq<(Seq<char>, Seq<char>)> {
        self.query_string@
    }

    fn base(&self) -> (r: &'static str) {
        BASE_URL
    }

    fn path(&self, action: Option<String>) -> (r: String) {
        String::from_str("users/me/calendarList")
    }

    fn query(&self) -> (r: QueryParams) {
        self.query_string.duplicate()
    }
}

/// The kind a calendar list entry has when the service leaves it out.
pub fn default_entry_kind() -> (r: Option<String>)
    ensures
        opt_view(r) == Some("calendar#calendarListEntry"@),
{
    Some(String::from_str("calendar#calendarListEntry"))
}

/// The kind a calendar list has when the service leaves it out.
pub fn default_list_kind() -> (r: Option<String>)
    ensures
        opt_view(r) == Some("calendar#calendarList"@),
{
    Some(String::from_str("calendar#calendarList"))
}

} // verus!
