use analog_desktop::database::{get_user_data, save_user_data, UserData};
use analog_desktop::notifications::{
    schedule_event_reminder, show_notification, NotificationRoute, MAX_REMINDER_MINUTES,
};

#[test]
fn a_notification_goes_to_the_frontend_if_the_system_did_not_show_it() {
    assert_eq!(show_notification(true), NotificationRoute::Native);
    assert_eq!(show_notification(false), NotificationRoute::Frontend);
    assert_eq!(NotificationRoute::Native.message(), "Native notification shown");
    assert_eq!(NotificationRoute::Frontend.message(), "Frontend notification shown");
}

#[test]
fn a_reminder_waits_its_minutes_in_seconds() {
    let reminder = schedule_event_reminder("event_1".to_string(), "Team Standup".to_string(), 15);
    assert_eq!(reminder.delay_seconds, 900);
    assert_eq!(reminder.notification.title, "Event Reminder");
    assert_eq!(reminder.notification.body, "Event starting: Team Standup");
    assert_eq!(reminder.notification.icon, None);
    assert_eq!(reminder.notification.tag.as_deref(), Some("event_1"));
}

#[test]
fn a_reminder_of_no_minutes_is_shown_at_once() {
    let reminder = schedule_event_reminder(String::new(), String::new(), 0);
    assert_eq!(reminder.delay_seconds, 0);
    assert_eq!(reminder.notification.body, "Event starting: ");
    assert_eq!(reminder.notification.tag.as_deref(), Some(""));
}

#[test]
fn the_longest_reminder_still_fits() {
    assert_eq!(MAX_REMINDER_MINUTES, u32::MAX / 60);
    let reminder = schedule_event_reminder("e".to_string(), "t".to_string(), MAX_REMINDER_MINUTES);
    assert_eq!(reminder.delay_seconds, 4_294_967_280);
}

#[test]
fn no_user_is_found_and_a_saved_one_is_acknowledged() {
    assert!(get_user_data("u-1".to_string()).is_none());
    let user = UserData {
        id: "u-1".to_string(),
        email: "ana@example.com".to_string(),
        name: None,
        google_tokens: None,
        created_at: "2025-01-01T00:00:00Z".to_string(),
        updated_at: "2025-01-01T00:00:00Z".to_string(),
    };
    assert_eq!(save_user_data(user), "User data saved successfully");
}
