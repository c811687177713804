//! Calendars, and the options of a calendar-list query.
use vstd::prelude::*;

use crate::calendar_types::ConferenceProperties;
use crate::query::{lemma_insert_pair_map, map_of, opt_view, put_opt, QueryParams};
use crate::sendable::{Sendable, BASE_URL};
use crate::text::{bool_str, bool_text, decimal, decimal_text};

verus! {

/// A single calendar.
#[derive(Default, Debug, Clone, PartialEq, Eq)]
pub struct Calendar {
    pub kind: Option<String>,
    pub id: String,
    pub etag: String,
    pub summary: String,
    pub description: Option<String>,
    pub location: Option<String>,
    pub time_zone: Option<String>,
    pub conference_properties: Option<ConferenceProperties>,
}

impl Sendable for Calendar {
    open spec fn spec_base(&self) -> Seq<char> {
        BASE_URL@
    }

    open spec fn spec_path(&self, action: Option<Seq<char>>) -> Seq<char> {
        "calendars/"@ + self.id@
    }

    open spec fn spec_query(&self) -> Seq<(Seq<char>, Seq<char>)> {
        Seq::empty()
    }

    fn base(&self) -> (r: &'static str) {
        BASE_URL
    }

    fn path(&self, action: Option<String>) -> (r: String) {
        String::from_str("calendars/").concat(self.id.as_str())
    }

    fn query(&self) -> (r: QueryParams) {
        QueryParams::new()
    }
}

/// The kind a calendar has when the service leaves it out.
pub fn default_kind() -> (r: Option<String>)
    ensures
        opt_view(r) == Some("calendar#calendar"@),
{
    Some(String::from_str("calendar#calendar"))
}

/// The least access role that listed calendars must grant.
#[derive(Debug, Clone, Copy, PartialEq, Eq)]
pub enum MinAccessRole {
    /// Can read free/busy information.
    FreeBusyReader,
    /// Can read and modify events and access control lists.
    Owner,
    /// Can read non-private events.
    Reader,
    /// Can read and modify events.
    Writer,
}

/// The lower-case form of a string, by Unicode case mapping.
pub uninterp spec fn lower_of(s: Seq<char>) -> Seq<char>;

/// Relies on std's `str::to_lowercase`: the result depends on the
/// characters alone.
#[verifier::external_body]
fn lowercase(s: &str) -> (r: String)
    ensures
        r@ == lower_of(s@),
{
    s.to_lowercase()
}

/// The role whose lower-cased name is `lower`.
pub open spec fn role_of_lower(lower: Seq<char>) -> Option<MinAccessRole> {
    if lower == "freebusyreader"@ {
        Some(MinAccessRole::FreeBusyReader)
    } else if lower == "owner"@ {
        Some(MinAccessRole::Owner)
    } else if lower == "reader"@ {
        Some(MinAccessRole::Reader)
    } else if lower == "writer"@ {
        Some(MinAccessRole::Writer)
    } else {
        None
    }
}

impl MinAccessRole {
    /// The role named by `lower`, already in lower case: `freebusyreader`,
    /// `owner`, `reader` or `writer`; none for any other text.
    pub fn from_lowercase_name(lower: &str) -> (r: Option<MinAccessRole>)
        ensures
            r == role_of_lower(lower@),
    {
        let l = String::from_str(lower);
        if l == String::from_str("freebusyreader") {
            Some(MinAccessRole::FreeBusyReader)
        } else if l == String::from_str("owner") {
            Some(MinAccessRole::Owner)
        } else if l == String::from_str("reader") {
            Some(MinAccessRole::Reader)
        } else if l == String::from_str("writer") {
            Some(MinAccessRole::Writer)
        } else {
            None
        }
    }

    /// The role named by `name` in any case; none for an unknown name.
    pub fn from_name(name: &str) -> (r: Option<MinAccessRole>)
        ensures
            r == role_of_lower(lower_of(name@)),
    {
        let lower = lowercase(name);
        MinAccessRole::from_lowercase_name(lower.as_str())
    }

    /// The wire name of the role.
    pub open spec fn name(&self) -> Seq<char> {
        match self {
            MinAccessRole::FreeBusyReader => "freeBusyReader"@,
            MinAccessRole::Owner => "owner"@,
            MinAccessRole::Reader => "reader"@,
            MinAccessRole::Writer => "writer"@,
        }
    }

    /// The wire name of the role.
    pub fn to_str(&self) -> (r: &'static str)
        ensures
            r@ == self.name(),
    {
        match self {
            MinAccessRole::FreeBusyReader => "freeBusyReader",
            MinAccessRole::Owner => "owner",
            MinAccessRole::Reader => "reader",
            MinAccessRole::Writer => "writer",
        }
    }

    /// The wire name of the role, as an owned string.
    pub fn to_string(&self) -> (r: String)
        ensures
            r@ == self.name(),
    {
        String::from_str(self.to_str())
    }
}

/// Options of a calendar-list query; an absent option is left out of the
/// query.
#[derive(Default, Debug, Clone)]
pub struct CalendarListOptions {
    /// Service default 100, at most 250.
    pub max_results: Option<u32>,
    pub min_access_role: Option<MinAccessRole>,
    pub page_token: Option<String>,
    /// Service default false.
    pub show_deleted: Option<bool>,
    /// Service default false.
    pub show_hidden: Option<bool>,
    pub sync_token: Option<String>,
}

/// The decimal text of an optional number.
pub open spec fn opt_decimal(o: Option<u32>) -> Option<Seq<char>> {
    match o {
        Some(n) => Some(decimal(n as nat)),
        None => None,
    }
}

/// The text of an optional boolean.
pub open spec fn opt_bool(o: Option<bool>) -> Option<Seq<char>> {
    match o {
        Some(b) => Some(bool_text(b)),
        None => None,
    }
}

/// The wire name of an optional role.
pub open spec fn opt_role(o: Option<MinAccessRole>) -> Option<Seq<char>> {
    match o {
        Some(r) => Some(r.name()),
        None => None,
    }
}

fn number_value(o: Option<u32>) -> (r: Option<String>)
    ensures
        opt_view(r) == opt_decimal(o),
{
    match o {
        Some(n) => Some(decimal_text(n as u64)),
        None => None,
    }
}

fn bool_value(o: Option<bool>) -> (r: Option<String>)
    ensures
        opt_view(r) == opt_bool(o),
{
    match o {
        Some(b) => Some(String::from_str(bool_str(b))),
        None => None,
    }
}

fn text_value(o: &Option<String>) -> (r: Option<String>)
    ensures
        opt_view(r) == opt_view(*o),
{
    match o {
        Some(s) => Some(s.clone()),
        None => None,
    }
}

impl CalendarListOptions {
    /// The query pairs: each present option under its wire name, numbers
    /// in decimal, booleans as `true`/`false`, roles by wire name.
    pub open spec fn spec_query(&self) -> Seq<(Seq<char>, Seq<char>)> {
        let q = put_opt(Seq::empty(), "maxResults"@, opt_decimal(self.max_results));
        let q = put_opt(q, "minAccessRole"@, opt_role(self.min_access_role));
        let q = put_opt(q, "pageToken"@, opt_view(self.page_token));
        let q = put_opt(q, "showDeleted"@, opt_bool(self.show_deleted));
        let q = put_opt(q, "showHidden"@, opt_bool(self.show_hidden));
        put_opt(q, "syncToken"@, opt_view(self.sync_token))
    }

    /// The options as query parameters; absent options are left out.
    pub fn to_query(&self) -> (r: QueryParams)
        ensures
            r@ == self.spec_query(),
    {
        let mut q = QueryParams::new();
        q.insert_opt("maxResults", number_value(self.max_results));
        let role = match self.min_access_role {
            Some(r) => Some(r.to_string()),
            None => None,
        };
        q.insert_opt("minAccessRole", role);
        q.insert_opt("pageToken", text_value(&self.page_token));
        q.insert_opt("showDeleted", bool_value(self.show_deleted));
        q.insert_opt("showHidden", bool_value(self.show_hidden));
        q.insert_opt("syncToken", text_value(&self.sync_token));
        q
    }
}

proof fn lemma_put_opt_map(
    q: Seq<(Seq<char>, Seq<char>)>,
    k: Seq<char>,
    v: Option<Seq<char>>,
)
    ensures
        map_of(put_opt(q, k, v)) == match v {
            Some(x) => map_of(q).insert(k, x),
            None => map_of(q),
        },
{
    if let Some(x) = v {
        lemma_insert_pair_map(q, k, x);
    }
}

/// Flattening leaves absent options out: a name is in the query exactly
/// when its option is present, and then holds the option's text.
pub proof fn lemma_calendar_query_omits_absent(o: CalendarListOptions)
    ensures
        forall|k: Seq<char>|
            #[trigger] map_of(o.spec_query()).contains_key(k) <==> ((k == "maxResults"@
                && o.max_results is Some) || (k == "minAccessRole"@ && o.min_access_role is Some)
                || (k == "pageToken"@ && o.page_token is Some) || (k == "showDeleted"@
                && o.show_deleted is Some) || (k == "showHidden"@ && o.show_hidden is Some) || (k
                == "syncToken"@ && o.sync_token is Some)),
        o.max_results matches Some(n) ==> map_of(o.spec_query())["maxResults"@] == decimal(n as nat),
        o.min_access_role matches Some(r) ==> map_of(o.spec_query())["minAccessRole"@] == r.name(),
        o.page_token matches Some(t) ==> map_of(o.spec_query())["pageToken"@] == t@,
        o.show_deleted matches Some(b) ==> map_of(o.spec_query())["showDeleted"@] == bool_text(b),
        o.show_hidden matches Some(b) ==> map_of(o.spec_query())["showHidden"@] == bool_text(b),
        o.sync_token matches Some(t) ==> map_of(o.spec_query())["syncToken"@] == t@,
{
    reveal_strlit("maxResults");
    reveal_strlit("minAccessRole");
    reveal_strlit("pageToken");
    reveal_strlit("showDeleted");
    reveal_strlit("showHidden");
    reveal_strlit("syncToken");
    let q0 = Seq::<(Seq<char>, Seq<char>)>::empty();
    assert(map_of(q0) == Map::<Seq<char>, Seq<char>>::empty());
    let q1 = put_opt(q0, "maxResults"@, opt_decimal(o.max_results));
    lemma_put_opt_map(q0, "maxResults"@, opt_decimal(o.max_results));
    let q2 = put_opt(q1, "minAccessRole"@, opt_role(o.min_access_role));
    lemma_put_opt_map(q1, "minAccessRole"@, opt_role(o.min_access_role));
    let q3 = put_opt(q2, "pageToken"@, opt_view(o.page_token));
    lemma_put_opt_map(q2, "pageToken"@, opt_view(o.page_token));
    let q4 = put_opt(q3, "showDeleted"@, opt_bool(o.show_deleted));
    lemma_put_opt_map(q3, "showDeleted"@, opt_bool(o.show_deleted));
    let q5 = put_opt(q4, "showHidden"@, opt_bool(o.show_hidden));
    lemma_put_opt_map(q4, "showHidden"@, opt_bool(o.show_hidden));
    lemma_put_opt_map(q5, "syncToken"@, opt_view(o.sync_token));
    let names = seq!["maxResults"@, "minAccessRole"@, "pageToken"@, "showDeleted"@, "showHidden"@, "syncToken"@];
    assert(names[0][1] != names[1][1]);
    assert(names[3][4] != names[4][4]);
    assert(names[3][1] != names[5][1] && names[4][1] != names[5][1]);
    assert forall|i: int, j: int| 0 <= i < j < 6 implies #[trigger] names[i] != #[trigger] names[j] by {
        if names[i][0] == names[j][0] {
            assert(names[i][1] != names[j][1] || names[i][4] != names[j][4]);
        }
    }
}

} // verus!
