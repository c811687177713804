use gcal_rs::requests::{
    calendar_list_request, event_list_request, events_of_calendar, get_request, insert_request,
    move_request, quick_add_request, MOVE_ACTION, QUICK_ADD_ACTION,
};
use gcal_rs::{
    resolve_url, CalendarList, CalendarListOptions, ClientError, Event, EventAttachment, EventListOptions,
    EventTypes, Events, MinAccessRole, SendUpdates, Sendable, Timestamp, UserInfo,
};

fn pairs(e: &Event) -> Vec<(String, String)> {
    e.query_string.pairs().clone()
}

fn pair(k: &str, v: &str) -> (String, String) {
    (k.to_string(), v.to_string())
}

#[test]
fn calendar_list_options_only_max_results() {
    let opts = CalendarListOptions { max_results: Some(50), ..Default::default() };
    let q = opts.to_query();
    assert_eq!(q.pairs().clone(), vec![pair("maxResults", "50")]);
    let list = calendar_list_request(Some(opts));
    assert_eq!(
        resolve_url(&list, None).unwrap(),
        "https://www.googleapis.com/calendar/v3/users/me/calendarList?maxResults=50"
    );
}

#[test]
fn calendar_list_without_options_has_no_query() {
    let list = calendar_list_request(None);
    assert_eq!(list.query_string.len(), 0);
    assert_eq!(
        resolve_url(&list, None).unwrap(),
        "https://www.googleapis.com/calendar/v3/users/me/calendarList?"
    );
}

#[test]
fn calendar_list_options_all_present() {
    let opts = CalendarListOptions {
        max_results: Some(250),
        min_access_role: Some(MinAccessRole::FreeBusyReader),
        page_token: Some("tok".to_string()),
        show_deleted: Some(true),
        show_hidden: Some(false),
        sync_token: Some("sync".to_string()),
    };
    assert_eq!(
        opts.to_query().pairs().clone(),
        vec![
            pair("maxResults", "250"),
            pair("minAccessRole", "freeBusyReader"),
            pair("pageToken", "tok"),
            pair("showDeleted", "true"),
            pair("showHidden", "false"),
            pair("syncToken", "sync"),
        ]
    );
}

#[test]
fn event_list_options_flatten() {
    let opts = EventListOptions {
        event_types: Some(vec![EventTypes::Default, EventTypes::FocusTime]),
        max_results: Some(-3),
        single_events: Some(true),
        time_min: Some(Timestamp { seconds: 0, nanos: 0, utc_offset: 0 }),
        time_max: Some(Timestamp { seconds: 86_400, nanos: 0, utc_offset: 3_600 }),
        q: Some("a b".to_string()),
        ..Default::default()
    };
    let e = event_list_request("primary".to_string(), Some(opts)).unwrap();
    assert_eq!(e.calendar_id, "primary");
    assert_eq!(
        pairs(&e),
        vec![
            pair("eventTypes[0]", "default"),
            pair("eventTypes[1]", "focusTime"),
            pair("maxResults", "-3"),
            pair("q", "a b"),
            pair("singleEvents", "true"),
            pair("timeMax", "1970-01-02T01:00:00+01:00"),
            pair("timeMin", "1970-01-01T00:00:00Z"),
        ]
    );
}

#[test]
fn event_list_options_absent_gives_empty_query() {
    let e = event_list_request("primary".to_string(), Some(EventListOptions::default())).unwrap();
    assert_eq!(e.query_string.len(), 0);
    let e = event_list_request("work".to_string(), None).unwrap();
    assert_eq!(e.query_string.len(), 0);
    assert_eq!(e.calendar_id, "work");
}

#[test]
fn event_list_options_instant_out_of_range() {
    let opts = EventListOptions {
        updated_min: Some(Timestamp { seconds: 0, nanos: 0, utc_offset: 86_400 }),
        ..Default::default()
    };
    let r = event_list_request("primary".to_string(), Some(opts));
    assert!(matches!(r, Err(ClientError::UnknownError(_))));
    let t = Timestamp { seconds: i64::MAX, nanos: 0, utc_offset: 0 };
    assert_eq!(t.to_rfc3339(), None);
}

#[test]
fn timestamp_fraction_is_written() {
    let t = Timestamp { seconds: 1_700_000_000, nanos: 500_000_000, utc_offset: -18_000 };
    assert_eq!(t.to_rfc3339().unwrap(), "2023-11-14T17:13:20.500-05:00");
}

#[test]
fn insert_with_attachments_adds_flag() {
    let mut event = Event::default();
    event.calendar_id = "primary".to_string();
    event.attachments.push(EventAttachment { title: "doc".to_string(), ..Default::default() });
    let r = insert_request(event);
    assert_eq!(pairs(&r), vec![pair("supportsAttachments", "true")]);
    assert_eq!(r.attachments.len(), 1);
    let url = resolve_url(&r, Some(String::new())).unwrap();
    assert_eq!(
        url,
        "https://www.googleapis.com/calendar/v3/calendars/primary/events//?supportsAttachments=true"
    );
}

#[test]
fn insert_without_attachments_omits_flag() {
    let mut event = Event::default();
    event.summary = "lunch".to_string();
    let r = insert_request(event.clone());
    assert_eq!(r, event);
    assert_eq!(r.query_string.len(), 0);
}

#[test]
fn move_defaults_send_updates_to_false() {
    let mut event = Event::default();
    event.id = "e1".to_string();
    event.calendar_id = "primary".to_string();
    let r = move_request(event, "other".to_string(), None);
    assert_eq!(pairs(&r), vec![pair("destination", "other"), pair("sendUpdates", "false")]);
    assert_eq!(
        resolve_url(&r, Some(MOVE_ACTION.to_string())).unwrap(),
        "https://www.googleapis.com/calendar/v3/calendars/primary/events/e1/move?destination=other&sendUpdates=false"
    );
}

#[test]
fn move_with_send_updates() {
    let r = move_request(Event::default(), "x".to_string(), Some(SendUpdates::ExternalOnly));
    assert_eq!(pairs(&r), vec![pair("destination", "x"), pair("sendUpdates", "externalOnly")]);
    let r = move_request(Event::default(), "x".to_string(), Some(SendUpdates::Nobody));
    assert_eq!(pairs(&r)[1], pair("sendUpdates", "none"));
}

#[test]
fn quick_add_carries_text() {
    let r = quick_add_request("Dinner at 7".to_string());
    assert_eq!(pairs(&r), vec![pair("text", "Dinner at 7")]);
    assert_eq!(r.path(Some(QUICK_ADD_ACTION.to_string())), "calendars//events//quickAdd");
    assert_eq!(
        resolve_url(&r, Some(QUICK_ADD_ACTION.to_string())).unwrap(),
        "https://www.googleapis.com/calendar/v3/calendars//events//quickAdd?text=Dinner+at+7"
    );
}

#[test]
fn quick_add_event_is_empty_but_for_text() {
    let r = quick_add_request("x".to_string());
    let mut expected = Event::default();
    expected.add_query("text".to_string(), "x".to_string());
    assert_eq!(r, expected);
}

#[test]
fn calendar_list_add_query_changes_only_query() {
    let mut list = CalendarList::default();
    list.etag = "e".to_string();
    list.kind = Some("k".to_string());
    list.add_query("pageToken".to_string(), "p".to_string());
    list.add_query("pageToken".to_string(), "q".to_string());
    assert_eq!(list.etag, "e");
    assert_eq!(list.kind.as_deref(), Some("k"));
    assert_eq!(list.query_string.pairs().clone(), vec![pair("pageToken", "q")]);
}

#[test]
fn get_request_names_event() {
    let r = get_request("primary".to_string(), "abc".to_string());
    assert_eq!(r.id, "abc");
    assert_eq!(r.calendar_id, "primary");
    assert_eq!(r.path(None), "calendars/primary/events/abc");
}

#[test]
fn listed_events_are_stamped_with_calendar() {
    let mut page = Events::default();
    let mut a = Event::default();
    a.id = "a".to_string();
    let mut b = Event::default();
    b.id = "b".to_string();
    b.calendar_id = "stale".to_string();
    page.items = vec![a, b];
    let items = events_of_calendar(page, "primary".to_string());
    assert_eq!(items.len(), 2);
    assert!(items.iter().all(|e| e.calendar_id == "primary"));
    assert_eq!(items[0].id, "a");
    assert_eq!(items[1].id, "b");
}

#[test]
fn add_calendar_on_empty_page() {
    let mut page = Events::default();
    page.add_calendar("primary".to_string());
    assert!(page.items.is_empty());
}

#[test]
fn user_info_url() {
    let u = UserInfo::default();
    assert_eq!(resolve_url(&u, None).unwrap(), "https://www.googleapis.com/oauth2/v2/userinfo?");
}

#[test]
fn calendar_path() {
    let c = gcal_rs::Calendar { id: "team".to_string(), ..Default::default() };
    assert_eq!(c.path(None), "calendars/team");
    assert_eq!(resolve_url(&c, None).unwrap(), "https://www.googleapis.com/calendar/v3/calendars/team?");
}
