//! Values nested in calendars and calendar list entries.
use vstd::prelude::*;

verus! {

/// The access the user has to a calendar.
#[derive(Default, Debug, Clone, Copy, PartialEq, Eq)]
pub enum CalendarAccessRole {
    #[default]
    Owner,
    Reader,
    Writer,
    FreeBusyReader,
}

/// The notifications of a calendar list entry.
#[derive(Default, Debug, Clone, PartialEq, Eq)]
pub struct NotificationSettings {
    pub notifications: Vec<NotificationSetting>,
}

#[derive(Default, Debug, Clone, PartialEq, Eq)]
pub struct NotificationSetting {
    pub method: NotificationSettingMethod,
    pub typ: NotificationSettingType,
}

#[derive(Default, Debug, Clone, Copy, PartialEq, Eq)]
pub enum NotificationSettingMethod {
    #[default]
    EMail,
}

#[derive(Default, Debug, Clone, Copy, PartialEq, Eq)]
pub enum NotificationSettingType {
    #[default]
    EventCreation,
    EventChange,
    EventCancellation,
    EventResponse,
    Agenda,
}

/// The conference solutions a calendar supports.
#[derive(Default, Debug, Clone, PartialEq, Eq)]
pub struct ConferenceProperties {
    pub allowed_solution_types: Vec<AllowedSolutionType>,
    pub default_reminders: Option<Vec<DefaultReminder>>,
}

/// A reminder: how, and how many minutes before.
#[derive(Default, Debug, Clone, PartialEq, Eq)]
pub struct DefaultReminder {
    pub method: ReminderMethod,
    pub minutes: u16,
}

#[derive(Default, Debug, Clone, Copy, PartialEq, Eq)]
pub enum ReminderMethod {
    EMail,
    #[default]
    PopUp,
}

#[derive(Default, Debug, Clone, Copy, PartialEq, Eq)]
pub enum AllowedSolutionType {
    #[default]
    EventHangout,
    EventNamedHangout,
    HangoutsMeet,
}

impl CalendarAccessRole {
    /// The wire name of the role.
    pub open spec fn name(&self) -> Seq<char> {
        match self {
            CalendarAccessRole::Owner => "owner"@,
            CalendarAccessRole::Reader => "reader"@,
            CalendarAccessRole::Writer => "writer"@,
            CalendarAccessRole::FreeBusyReader => "freeBusyReader"@,
        }
    }

    /// The wire name of the role.
    pub fn to_str(&self) -> (r: &'static str)
        ensures
            r@ == self.name(),
    {
        match self {
            CalendarAccessRole::Owner => "owner",
            CalendarAccessRole::Reader => "reader",
            CalendarAccessRole::Writer => "writer",
            CalendarAccessRole::FreeBusyReader => "freeBusyReader",
        }
    }

    /// The wire name of the role, as an owned string.
    pub fn to_string(&self) -> (r: String)
        ensures
            r@ == self.name(),
    {
        String::from_str(self.to_str())
    }
}

} // verus!
