//! Options of an event-list query, and the instants they carry.
use vstd::prelude::*;

use crate::calendar::opt_bool;
use crate::error::ClientError;
use crate::query::{insert_pair, opt_view, put_opt, QueryParams};
use crate::text::{bool_str, decimal, decimal_text, signed_decimal, signed_decimal_text};

verus! {

/// The kinds of event a list may be limited to.
#[derive(Debug, Clone, Copy, PartialEq, Eq)]
pub enum EventTypes {
    Default,
    FocusTime,
    OutOfOffice,
    WorkingLocation,
}

impl EventTypes {
    /// The wire name of the kind.
    pub open spec fn name(&self) -> Seq<char> {
        match self {
            EventTypes::Default => "default"@,
            EventTypes::FocusTime => "focusTime"@,
            EventTypes::OutOfOffice => "outOfOffice"@,
            EventTypes::WorkingLocation => "workingLocation"@,
        }
    }

    /// The wire name of the kind.
    pub fn to_str(&self) -> (r: &'static str)
        ensures
            r@ == self.name(),
    {
        match self {
            EventTypes::Default => "default",
            EventTypes::FocusTime => "focusTime",
            EventTypes::OutOfOffice => "outOfOffice",
            EventTypes::WorkingLocation => "workingLocation",
        }
    }

    /// The wire name of the kind, as an owned string.
    pub fn to_string(&self) -> (r: String)
        ensures
            r@ == self.name(),
    {
        String::from_str(self.to_str())
    }
}

/// The largest distance from the Unix epoch, in seconds, of an instant
/// that can be written (about 250,000 years).
pub const MAX_TIMESTAMP_SECS: i64 = 8_000_000_000_000;

/// An instant, with the offset from UTC of the local time it is written in.
#[derive(Debug, Clone, Copy, PartialEq, Eq)]
pub struct Timestamp {
    /// Whole seconds since the Unix epoch.
    pub seconds: i64,
    /// Nanoseconds past the second.
    pub nanos: u32,
    /// Seconds that local time is ahead of UTC.
    pub utc_offset: i32,
}

/// The RFC 3339 text of an instant in local time at the given offset, as
/// chrono writes it (fractional seconds only when present, `Z` for UTC).
pub uninterp spec fn rfc3339_text(seconds: int, nanos: int, utc_offset: int) -> Seq<char>;

/// Relies on chrono's `DateTime::from_timestamp`, `FixedOffset::east_opt`,
/// `with_timezone` and `to_rfc3339_opts(SecondsFormat::AutoSi, true)` (the
/// form of chrono's serde support). Within these bounds the first two give
/// a value and the local time stays in chrono's range, so nothing panics.
#[verifier::external_body]
fn format_rfc3339(seconds: i64, nanos: u32, utc_offset: i32) -> (r: Option<String>)
    requires
        -MAX_TIMESTAMP_SECS <= seconds <= MAX_TIMESTAMP_SECS,
        nanos < 1_000_000_000,
        -86_400 < utc_offset < 86_400,
    ensures
        r is Some,
        r->Some_0@ == rfc3339_text(seconds as int, nanos as int, utc_offset as int),
{
    let offset = chrono::FixedOffset::east_opt(utc_offset)?;
    let utc = chrono::DateTime::from_timestamp(seconds, nanos)?;
    Some(utc.with_timezone(&offset).to_rfc3339_opts(chrono::SecondsFormat::AutoSi, true))
}

impl Timestamp {
    /// Whether the instant can be written: within the bounds, nanoseconds
    /// below one second, offset below one day.
    pub open spec fn writable(&self) -> bool {
        -MAX_TIMESTAMP_SECS <= self.seconds <= MAX_TIMESTAMP_SECS && self.nanos < 1_000_000_000
            && -86_400 < self.utc_offset < 86_400
    }

    /// The RFC 3339 text of the instant.
    pub open spec fn text(&self) -> Seq<char> {
        rfc3339_text(self.seconds as int, self.nanos as int, self.utc_offset as int)
    }

    /// The RFC 3339 text of the instant, none when it cannot be written.
    pub fn to_rfc3339(&self) -> (r: Option<String>)
        ensures
            r is Some <==> self.writable(),
            r matches Some(s) ==> s@ == self.text(),
    {
        if -MAX_TIMESTAMP_SECS <= self.seconds && self.seconds <= MAX_TIMESTAMP_SECS && self.nanos
            < 1_000_000_000 && -86_400 < self.utc_offset && self.utc_offset < 86_400 {
            format_rfc3339(self.seconds, self.nanos, self.utc_offset)
        } else {
            None
        }
    }
}

/// Options of an event-list query; an absent option is left out of the
/// query.
#[derive(Default, Debug, Clone)]
pub struct EventListOptions {
    pub event_types: Option<Vec<EventTypes>>,
    pub ical_uid: Option<String>,
    pub max_attendees: Option<i32>,
    pub max_results: Option<i32>,
    pub order_by: Option<String>,
    pub page_token: Option<String>,
    pub q: Option<String>,
    pub shared_extended_property: Option<String>,
    pub show_deleted: Option<bool>,
    pub show_hidden_invitations: Option<bool>,
    pub single_events: Option<bool>,
    pub sync_token: Option<String>,
    pub time_max: Option<Timestamp>,
    pub time_min: Option<Timestamp>,
    pub timezone: Option<String>,
    pub updated_min: Option<Timestamp>,
}

/// The name under which the `i`-th listed kind of event goes.
pub open spec fn event_type_key(i: nat) -> Seq<char> {
    "eventTypes["@ + decimal(i) + "]"@
}

/// The pairs after the listed kinds of event are put in, each under its
/// index.
pub open spec fn put_event_types(
    q: Seq<(Seq<char>, Seq<char>)>,
    ts: Seq<EventTypes>,
) -> Seq<(Seq<char>, Seq<char>)>
    decreases ts.len(),
{
    if ts.len() == 0 {
        q
    } else {
        insert_pair(
            put_event_types(q, ts.drop_last()),
            event_type_key((ts.len() - 1) as nat),
            ts.last().name(),
        )
    }
}

/// The decimal text of an optional signed number.
pub open spec fn opt_signed(o: Option<i32>) -> Option<Seq<char>> {
    match o {
        Some(n) => Some(signed_decimal(n as int)),
        None => None,
    }
}

/// The RFC 3339 text of an optional instant.
pub open spec fn opt_time(o: Option<Timestamp>) -> Option<Seq<char>> {
    match o {
        Some(t) => Some(t.text()),
        None => None,
    }
}

/// Whether an optional instant is absent or can be written.
pub open spec fn opt_writable(o: Option<Timestamp>) -> bool {
    match o {
        Some(t) => t.writable(),
        None => true,
    }
}

fn signed_value(o: Option<i32>) -> (r: Option<String>)
    ensures
        opt_view(r) == opt_signed(o),
{
    match o {
        Some(n) => Some(signed_decimal_text(n as i64)),
        None => None,
    }
}

fn flag_value(o: Option<bool>) -> (r: Option<String>)
    ensures
        opt_view(r) == opt_bool(o),
{
    match o {
        Some(b) => Some(String::from_str(bool_str(b))),
        None => None,
    }
}

fn string_value(o: &Option<String>) -> (r: Option<String>)
    ensures
        opt_view(r) == opt_view(*o),
{
    match o {
        Some(s) => Some(s.clone()),
        None => None,
    }
}

fn time_value(o: Option<Timestamp>) -> (r: Option<Option<String>>)
    ensures
        r is Some <==> opt_writable(o),
        r matches Some(v) ==> opt_view(v) == opt_time(o),
{
    match o {
        Some(t) => match t.to_rfc3339() {
            Some(s) => Some(Some(s)),
            None => None,
        },
        None => Some(None),
    }
}

fn insert_event_types(q: &mut QueryParams, ts: &Vec<EventTypes>)
    ensures
        final(q)@ == put_event_types(old(q)@, ts@),
{
    let n = ts.len();
    let mut i: usize = 0;
    assert(ts@.subrange(0, 0) =~= Seq::<EventTypes>::empty());
    while i < n
        invariant
            n == ts@.len(),
            i <= n,
            q@ == put_event_types(old(q)@, ts@.subrange(0, i as int)),
        decreases n - i,
    {
        let key = String::from_str("eventTypes[").concat(decimal_text(i as u64).as_str()).concat("]");
        assert(key@ == event_type_key(i as nat));
        q.insert(key, ts[i].to_string());
        assert(ts@.subrange(0, i + 1).drop_last() =~= ts@.subrange(0, i as int));
        i = i + 1;
    }
    assert(ts@.subrange(0, n as int) =~= ts@);
}

impl EventListOptions {
    /// Whether every instant given can be written.
    pub open spec fn writable(&self) -> bool {
        opt_writable(self.time_max) && opt_writable(self.time_min) && opt_writable(self.updated_min)
    }

    /// The query pairs: each present option under its wire name, numbers
    /// in decimal, booleans as `true`/`false`, instants in RFC 3339, and
    /// the kinds of event under `eventTypes[0]`, `eventTypes[1]`, ...
    pub open spec fn spec_query(&self) -> Seq<(Seq<char>, Seq<char>)> {
        let q = match self.event_types {
            Some(ts) => put_event_types(Seq::empty(), ts@),
            None => Seq::empty(),
        };
        let q = put_opt(q, "icalUid"@, opt_view(self.ical_uid));
        let q = put_opt(q, "maxAttendees"@, opt_signed(self.max_attendees));
        let q = put_opt(q, "maxResults"@, opt_signed(self.max_results));
        let q = put_opt(q, "orderBy"@, opt_view(self.order_by));
        let q = put_opt(q, "pageToken"@, opt_view(self.page_token));
        let q = put_opt(q, "q"@, opt_view(self.q));
        let q = put_opt(q, "sharedExtendedProperty"@, opt_view(self.shared_extended_property));
        let q = put_opt(q, "showDeleted"@, opt_bool(self.show_deleted));
        let q = put_opt(q, "showHiddenInvitations"@, opt_bool(self.show_hidden_invitations));
        let q = put_opt(q, "singleEvents"@, opt_bool(self.single_events));
        let q = put_opt(q, "syncToken"@, opt_view(self.sync_token));
        let q = put_opt(q, "timeMax"@, opt_time(self.time_max));
        let q = put_opt(q, "timeMin"@, opt_time(self.time_min));
        let q = put_opt(q, "timezone"@, opt_view(self.timezone));
        put_opt(q, "updatedMin"@, opt_time(self.updated_min))
    }

    /// The options as query parameters; absent options are left out. Fails
    /// with `UnknownError` exactly when an instant given cannot be written.
    pub fn to_query(&self) -> (r: Result<QueryParams, ClientError>)
        ensures
            r is Ok <==> self.writable(),
            r matches Ok(q) ==> q@ == self.spec_query(),
            r is Err ==> (r matches Err(ClientError::UnknownError(_))),
    {
        let time_max = time_value(self.time_max);
        let time_min = time_value(self.time_min);
        let updated_min = time_value(self.updated_min);
        let (time_max, time_min, updated_min) = match (time_max, time_min, updated_min) {
            (Some(a), Some(b), Some(c)) => (a, b, c),
            _ => {
                proof {
                    reveal_strlit("instant out of range");
                }
                return Err(ClientError::UnknownError(String::from_str("instant out of range")));
            },
        };
        let mut q = QueryParams::new();
        match &self.event_types {
            Some(ts) => insert_event_types(&mut q, ts),
            None => {},
        }
        q.insert_opt("icalUid", string_value(&self.ical_uid));
        q.insert_opt("maxAttendees", signed_value(self.max_attendees));
        q.insert_opt("maxResults", signed_value(self.max_results));
        q.insert_opt("orderBy", string_value(&self.order_by));
        q.insert_opt("pageToken", string_value(&self.page_token));
        q.insert_opt("q", string_value(&self.q));
        q.insert_opt("sharedExtendedProperty", string_value(&self.shared_extended_property));
        q.insert_opt("showDeleted", flag_value(self.show_deleted));
        q.insert_opt("showHiddenInvitations", flag_value(self.show_hidden_invitations));
        q.insert_opt("singleEvents", flag_value(self.single_events));
        q.insert_opt("syncToken", string_value(&self.sync_token));
        q.insert_opt("timeMax", time_max);
        q.insert_opt("timeMin", time_min);
        q.insert_opt("timezone", string_value(&self.timezone));
        q.insert_opt("updatedMin", updated_min);
        Ok(q)
    }
}

} // verus!
