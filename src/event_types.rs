//! Values nested in events.
use vstd::prelude::*;
use std::collections::BTreeMap;

use crate::calendar_types::DefaultReminder;

verus! {

/// Free-form string properties.
pub type AdditionalProperties = BTreeMap<String, String>;

/// Who is told of a change: every guest, only guests outside the
/// organisation, or no one (wire name `none`).
#[derive(Default, Debug, Clone, Copy, PartialEq, Eq)]
pub enum SendUpdates {
    #[default]
    All,
    ExternalOnly,
    Nobody,
}

/// The kind of a working location.
#[derive(Default, Debug, Clone, Copy, PartialEq, Eq)]
pub enum EventOfficeLocationType {
    #[default]
    HomeOffice,
    OfficeLocation,
    CustomLocation,
}

#[derive(Default, Debug, Clone, PartialEq, Eq)]
pub struct EventOfficeLocation {
    pub building_id: Option<String>,
    pub desk_id: Option<String>,
    pub floor_id: Option<String>,
    pub floor_section_id: Option<String>,
    pub label: Option<String>,
    pub typ: EventOfficeLocationType,
}

#[derive(Default, Debug, Clone, PartialEq, Eq)]
pub struct EventCustomLocation {
    pub label: Option<String>,
}

/// Where the user works during a working-location event.
#[derive(Default, Debug, Clone, PartialEq, Eq)]
pub struct EventWorkingLocation {
    pub custom_location: Option<EventCustomLocation>,
    pub home_office: Option<String>,
    pub office_location: Option<EventOfficeLocation>,
}

/// Who may see an event.
#[derive(Default, Debug, Clone, Copy, PartialEq, Eq)]
pub enum EventVisibility {
    #[default]
    Default,
    Public,
    Private,
    Confidential,
}

/// Whether an event blocks time.
#[derive(Default, Debug, Clone, Copy, PartialEq, Eq)]
pub enum EventTransparency {
    #[default]
    Opaque,
    Transparent,
}

/// The status of an event.
#[derive(Default, Debug, Clone, Copy, PartialEq, Eq)]
pub enum EventStatus {
    Confirmed,
    #[default]
    Tentative,
    Cancelled,
}

/// Where an event was created from.
#[derive(Default, Debug, Clone, PartialEq, Eq)]
pub struct EventSource {
    pub title: String,
    pub url: String,
}

/// The reminders of an event.
#[derive(Default, Debug, Clone, PartialEq, Eq)]
pub struct EventReminder {
    pub overrides: Option<Vec<DefaultReminder>>,
    pub use_default: bool,
}

/// The organiser of an event.
#[derive(Default, Debug, Clone, PartialEq, Eq)]
pub struct EventOrganizer {
    pub display_name: Option<String>,
    pub email: String,
    pub id: Option<String>,
    pub appears_as_self: Option<bool>,
}

#[derive(Default, Debug, Clone, Copy, PartialEq, Eq)]
pub enum EventGadgetDisplay {
    #[default]
    Icon,
    Chip,
}

/// A gadget attached to an event.
#[derive(Default, Debug, Clone, PartialEq, Eq)]
pub struct EventGadget {
    pub display: EventGadgetDisplay,
    pub preferences: AdditionalProperties,

}

/// Private and shared free-form properties of an event.
#[derive(Default, Debug, Clone, PartialEq, Eq)]
pub struct EventExtendedProperties {
    pub private: Option<AdditionalProperties>,
    pub shared: Option<AdditionalProperties>,
}

/// The kind of an event.
#[derive(Default, Debug, Clone, Copy, PartialEq, Eq)]
pub enum EventType {
    #[default]
    Default,
    OutOfOffice,
    FocusTime,
    WorkingLocation,
}

/// A date (all-day) or a date and time, with its time zone.
#[derive(Default, Debug, Clone, PartialEq, Eq)]
pub struct EventCalendarDate {
    pub date: Option<String>,
    pub date_time: Option<String>,
    pub time_zone: Option<String>,
}

/// The conference attached to an event.
#[derive(Default, Debug, Clone, PartialEq, Eq)]
pub struct EventConferenceData {
    pub conference_id: Option<String>,
    pub conference_solution: Option<EventConferenceSolution>,
    pub create_request: Option<EventCreateConferenceRequest>,
    pub entry_points: Vec<EventConferenceEntryPoint>,
    pub notes: Option<String>,
    pub signature: Option<String>,
}

/// The creator of an event.
#[derive(Default, Debug, Clone, PartialEq, Eq)]
pub struct EventCreator {
    pub display_name: Option<String>,
    pub email: Option<String>,
    pub id: Option<String>,
    pub appears_as_self: Option<bool>,
}

/// A way to join a conference.
#[derive(Default, Debug, Clone, PartialEq, Eq)]
pub struct EventConferenceEntryPoint {
    pub entry_point_type: EventConferenceEntryPointType,
    pub label: Option<String>,
    pub meeting_code: Option<String>,
    pub passcode: Option<String>,
    pub password: Option<String>,
    pub pin: Option<String>,
    pub uri: Option<String>,
}

#[derive(Default, Debug, Clone, Copy, PartialEq, Eq)]
pub enum EventConferenceEntryPointType {
    #[default]
    Video,
    Phone,
    SIP,
    More,
}

#[derive(Default, Debug, Clone, PartialEq, Eq)]
pub struct EventCreateConferenceRequest {
    pub conference_solution_key: EventConferenceSolutionKey,
    pub request_id: String,
    pub status: EventConferenceStatus,
}

#[derive(Default, Debug, Clone, PartialEq, Eq)]
pub struct EventConferenceStatus {
    pub status_code: EventConferenceStatusCode,
}

#[derive(Default, Debug, Clone, Copy, PartialEq, Eq)]
pub enum EventConferenceStatusCode {
    #[default]
    Pending,
    Success,
    Failure,
}

#[derive(Default, Debug, Clone, PartialEq, Eq)]
pub struct EventConferenceSolution {
    pub icon_uri: String,
    pub key: EventConferenceSolutionKey,
}

#[derive(Default, Debug, Clone, PartialEq, Eq)]
pub struct EventConferenceSolutionKey {
    pub typ: EventConferenceSolutionKeyType,
    pub name: Option<String>,
}

#[derive(Default, Debug, Clone, Copy, PartialEq, Eq)]
pub enum EventConferenceSolutionKeyType {
    EventHangout,
    EventNamedHangout,
    #[default]
    HangoutsMeet,
    AddOn,
}

/// An attendee of an event.
#[derive(Default, Debug, Clone, PartialEq, Eq)]
pub struct EventAttendees {
    pub additional_guests: Option<u8>,
    pub comment: Option<String>,
    pub display_name: Option<String>,
    pub email: String,
    pub id: Option<String>,
    pub optional: Option<bool>,
    pub organizer: Option<bool>,
    pub resource: Option<bool>,
    pub response_status: EventResponseStatus,
    pub appears_as_self: Option<bool>,
}

/// An attendee's answer.
#[derive(Default, Debug, Clone, Copy, PartialEq, Eq)]
pub enum EventResponseStatus {
    #[default]
    NeedsAction,
    Declined,
    Tentative,
    Accepted,
}

/// A file attached to an event.
#[derive(Default, Debug, Clone, PartialEq, Eq)]
pub struct EventAttachment {
    pub file_id: String,
    pub file_url: String,
    pub icon_link: String,
    pub mime_type: String,
    pub title: String,
}

impl SendUpdates {
    /// The wire name of the choice.
    pub open spec fn name(&self) -> Seq<char> {
        match self {
            SendUpdates::All => "all"@,
            SendUpdates::ExternalOnly => "externalOnly"@,
            SendUpdates::Nobody => "none"@,
        }
    }

    /// The wire name of the choice.
    pub fn to_str(&self) -> (r: &'static str)
        ensures
            r@ == self.name(),
    {
        match self {
            SendUpdates::All => "all",
            SendUpdates::ExternalOnly => "externalOnly",
            SendUpdates::Nobody => "none",
        }
    }

    /// The wire name of the choice, as an owned string.
    pub fn to_string(&self) -> (r: String)
        ensures
            r@ == self.name(),
    {
        String::from_str(self.to_str())
    }
}

} // verus!
