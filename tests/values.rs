use gcal_rs::query::key_less;
use gcal_rs::text::{bool_str, decimal_text, signed_decimal_text};
use gcal_rs::{
    default_entry_kind, default_event_kind, default_events_kind, default_kind, default_list_kind,
    default_true, CalendarAccessRole, EventTypes, MinAccessRole, QueryParams, SendUpdates,
};

#[test]
fn decimal_texts() {
    assert_eq!(decimal_text(0), "0");
    assert_eq!(decimal_text(7), "7");
    assert_eq!(decimal_text(1234), "1234");
    assert_eq!(decimal_text(u64::MAX), "18446744073709551615");
    assert_eq!(signed_decimal_text(-42), "-42");
    assert_eq!(signed_decimal_text(i64::MIN), "-9223372036854775808");
    assert_eq!(signed_decimal_text(5), "5");
    assert_eq!(bool_str(true), "true");
    assert_eq!(bool_str(false), "false");
}

#[test]
fn query_params_keep_names_sorted_and_unique() {
    let mut q = QueryParams::new();
    q.insert("timeMin".to_string(), "1".to_string());
    q.insert("a".to_string(), "2".to_string());
    q.insert("timeMax".to_string(), "3".to_string());
    q.insert("a".to_string(), "4".to_string());
    let expected: Vec<(String, String)> = vec![
        ("a".to_string(), "4".to_string()),
        ("timeMax".to_string(), "3".to_string()),
        ("timeMin".to_string(), "1".to_string()),
    ];
    assert_eq!(q.pairs().clone(), expected);
    assert_eq!(q.len(), 3);
    assert_eq!(q.duplicate(), q);
}

#[test]
fn query_params_optional_insert() {
    let mut q = QueryParams::new();
    q.insert_opt("k", None);
    assert_eq!(q.len(), 0);
    q.insert_opt("k", Some("v".to_string()));
    assert_eq!(q.pairs().clone(), vec![("k".to_string(), "v".to_string())]);
}

#[test]
fn name_order() {
    assert!(key_less("a", "b"));
    assert!(key_less("a", "ab"));
    assert!(!key_less("ab", "a"));
    assert!(!key_less("a", "a"));
    assert!(key_less("", "a"));
    assert!(key_less("Z", "a"));
    assert!(key_less("z", "é"));
}

#[test]
fn wire_names() {
    assert_eq!(CalendarAccessRole::FreeBusyReader.to_str(), "freeBusyReader");
    assert_eq!(CalendarAccessRole::Owner.to_string(), "owner");
    assert_eq!(SendUpdates::All.to_str(), "all");
    assert_eq!(SendUpdates::ExternalOnly.to_string(), "externalOnly");
    assert_eq!(SendUpdates::Nobody.to_str(), "none");
    assert_eq!(MinAccessRole::Writer.to_str(), "writer");
    assert_eq!(MinAccessRole::FreeBusyReader.to_string(), "freeBusyReader");
    assert_eq!(EventTypes::OutOfOffice.to_str(), "outOfOffice");
    assert_eq!(EventTypes::WorkingLocation.to_string(), "workingLocation");
}

#[test]
fn service_defaults() {
    assert_eq!(default_kind().as_deref(), Some("calendar#calendar"));
    assert_eq!(default_entry_kind().as_deref(), Some("calendar#calendarListEntry"));
    assert_eq!(default_list_kind().as_deref(), Some("calendar#calendarList"));
    assert_eq!(default_event_kind(), "calendar#event");
    assert_eq!(default_events_kind().as_deref(), Some("calendar#events"));
    assert!(default_true());
}

#[test]
fn access_role_from_name() {
    assert_eq!(MinAccessRole::from_name("OWNER"), Some(MinAccessRole::Owner));
    assert_eq!(MinAccessRole::from_name("FreeBusyReader"), Some(MinAccessRole::FreeBusyReader));
    assert_eq!(MinAccessRole::from_name("writer"), Some(MinAccessRole::Writer));
    assert_eq!(MinAccessRole::from_name("admin"), None);
    assert_eq!(MinAccessRole::from_lowercase_name("reader"), Some(MinAccessRole::Reader));
    assert_eq!(MinAccessRole::from_lowercase_name("Reader"), None);
}
