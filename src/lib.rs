//! A typed client library for a calendar web service: OAuth2 token
//! lifecycle, request descriptors (path, query, body) for calendars, the
//! calendar list and events, and the decisions of the authenticated
//! transport.
pub mod calendar;
pub mod calendar_list;
pub mod calendar_types;
pub mod client;
pub mod encode;
pub mod error;
pub mod event;
pub mod event_options;
pub mod event_types;
pub mod oauth;
pub mod query;
pub mod requests;
pub mod sendable;
pub mod text;
pub mod user;

pub use calendar::{default_kind, Calendar, CalendarListOptions, MinAccessRole};
pub use calendar_list::{default_entry_kind, default_list_kind, CalendarList, CalendarListItem};
pub use calendar_types::{
    AllowedSolutionType, CalendarAccessRole, ConferenceProperties, DefaultReminder,
    NotificationSetting, NotificationSettingMethod, NotificationSettingType, NotificationSettings,
    ReminderMethod,
};
pub use client::{bearer_value, check_response, debug_line, INVALID_TOKEN_MARKER};
pub use encode::encode_path;
pub use error::{ClientError, ClientResult};
pub use event::{default_event_kind, default_events_kind, default_true, Event, Events};
pub use event_options::{EventListOptions, EventTypes, Timestamp};
pub use event_types::{
    AdditionalProperties, EventAttachment, EventAttendees, EventCalendarDate,
    EventConferenceData, EventConferenceEntryPoint, EventConferenceEntryPointType,
    EventConferenceSolution, EventConferenceSolutionKey, EventConferenceSolutionKeyType,
    EventConferenceStatus, EventConferenceStatusCode, EventCreateConferenceRequest, EventCreator,
    EventCustomLocation, EventExtendedProperties, EventGadget, EventGadgetDisplay,
    EventOfficeLocation, EventOfficeLocationType, EventOrganizer, EventReminder,
    EventResponseStatus, EventSource, EventStatus, EventTransparency, EventType, EventVisibility,
    EventWorkingLocation, SendUpdates,
};
pub use oauth::{compute_expiration, parse_callback, AuthError, OAuthRequest, OToken, VerifierSlot};
pub use query::QueryParams;
pub use sendable::{resolve_url, Sendable, BASE_URL};
pub use user::UserInfo;
