//! Notifications and event reminders: what is shown, by which way, and after
//! how long.

use vstd::prelude::*;
use vstd::string::*;
use crate::text::{join, option_text};

verus! {

/// A notification as the frontend asks for it.
#[derive(Debug)]
pub struct NotificationRequest {
    pub title: String,
    pub body: String,
    pub icon: Option<String>,
    pub tag: Option<String>,
}

/// The way by which a notification reached the user.
#[derive(Debug, Clone, Copy, PartialEq, Eq, Structural)]
pub enum NotificationRoute {
    /// The operating system showed it.
    Native,
    /// The frontend was sent it, as the event `notification`.
    Frontend,
}

impl NotificationRoute {
    /// What the frontend is told of the way taken.
    pub open spec fn answer(self) -> Seq<char> {
        match self {
            NotificationRoute::Native => "Native notification shown"@,
            NotificationRoute::Frontend => "Frontend notification shown"@,
        }
    }

    /// What the frontend is told of the way taken.
    pub fn message(&self) -> (message: &'static str)
        ensures
            message@ == self.answer(),
    {
        match self {
            NotificationRoute::Native => "Native notification shown",
            NotificationRoute::Frontend => "Frontend notification shown",
        }
    }
}

/// The way a notification takes once the operating system was asked to show
/// it: if it did not, the frontend shows it.
pub fn show_notification(native_shown: bool) -> (route: NotificationRoute)
    ensures
        route == if native_shown {
            NotificationRoute::Native
        } else {
            NotificationRoute::Frontend
        },
{
    if native_shown {
        NotificationRoute::Native
    } else {
        NotificationRoute::Frontend
    }
}

/// A reminder that waits to be shown.
#[derive(Debug)]
pub struct Reminder {
    /// How long to wait before the notification is shown, in seconds.
    pub delay_seconds: u64,
    /// What is shown then.
    pub notification: NotificationRequest,
}

/// The largest number of minutes that a reminder can be set to: the delay in
/// seconds is counted in 32 bits.
pub const MAX_REMINDER_MINUTES: u32 = 71582788;

/// The reminder for an event: it is shown after the given number of minutes,
/// names the event in its body and carries the event's identifier as its tag.
pub fn schedule_event_reminder(event_id: String, event_title: String, reminder_minutes: u32) -> (reminder:
    Reminder)
    requires
        reminder_minutes <= MAX_REMINDER_MINUTES,
    ensures
        reminder.delay_seconds == reminder_minutes * 60,
        reminder.notification.title@ == "Event Reminder"@,
        reminder.notification.body@ == "Event starting: "@ + event_title@,
        reminder.notification.icon is None,
        option_text(reminder.notification.tag) == Some(event_id@),
{
    let delay: u32 = reminder_minutes * 60;
    Reminder {
        delay_seconds: delay as u64,
        notification: NotificationRequest {
            title: String::from_str("Event Reminder"),
            body: join("Event starting: ", event_title.as_str()),
            icon: None,
            tag: Some(event_id),
        },
    }
}

} // verus!
