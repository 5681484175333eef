//! The application menu: what each menu item does.

use vstd::prelude::*;
use crate::text::str_eq;

verus! {

/// The name of the event by which the frontend is told of a menu command.
pub const MENU_ACTION_EVENT: &'static str = "menu-action";

/// The address that the `website` item opens.
pub const WEBSITE_URL: &'static str = "https://analog.now";

/// A menu command that the frontend carries out.
#[derive(Debug, Clone, Copy, PartialEq, Eq, Structural)]
pub enum MenuCommand {
    About,
    NewEvent,
    DayView,
    WeekView,
    MonthView,
    Today,
    Refresh,
    SyncCalendars,
}

impl MenuCommand {
    /// The name under which the frontend knows the command.
    pub open spec fn payload(self) -> Seq<char> {
        match self {
            MenuCommand::About => "about"@,
            MenuCommand::NewEvent => "new-event"@,
            MenuCommand::DayView => "day-view"@,
            MenuCommand::WeekView => "week-view"@,
            MenuCommand::MonthView => "month-view"@,
            MenuCommand::Today => "today"@,
            MenuCommand::Refresh => "refresh"@,
            MenuCommand::SyncCalendars => "sync-calendars"@,
        }
    }

    /// The name under which the frontend knows the command.
    pub fn name(&self) -> (name: &'static str)
        ensures
            name@ == self.payload(),
    {
        match self {
            MenuCommand::About => "about",
            MenuCommand::NewEvent => "new-event",
            MenuCommand::DayView => "day-view",
            MenuCommand::WeekView => "week-view",
            MenuCommand::MonthView => "month-view",
            MenuCommand::Today => "today",
            MenuCommand::Refresh => "refresh",
            MenuCommand::SyncCalendars => "sync-calendars",
        }
    }
}

/// What the host does when a menu item is chosen.
#[derive(Debug, Clone, Copy, PartialEq, Eq, Structural)]
pub enum MenuAction {
    /// Tell the frontend to carry out a command.
    Emit(MenuCommand),
    /// Leave the application.
    Quit,
    /// Hide the main window.
    Hide,
    /// Minimize the main window.
    Minimize,
    /// Close the main window.
    Close,
    /// Open the application's website, where the platform has this item.
    OpenWebsite,
    /// The item is not known: nothing is done.
    Unhandled,
}

/// What the menu item with the identifier `event` does.
pub open spec fn menu_action(event: Seq<char>) -> MenuAction {
    if event == "about"@ {
        MenuAction::Emit(MenuCommand::About)
    } else if event == "quit"@ {
        MenuAction::Quit
    } else if event == "hide"@ {
        MenuAction::Hide
    } else if event == "new_event"@ {
        MenuAction::Emit(MenuCommand::NewEvent)
    } else if event == "day_view"@ {
        MenuAction::Emit(MenuCommand::DayView)
    } else if event == "week_view"@ {
        MenuAction::Emit(MenuCommand::WeekView)
    } else if event == "month_view"@ {
        MenuAction::Emit(MenuCommand::MonthView)
    } else if event == "today"@ {
        MenuAction::Emit(MenuCommand::Today)
    } else if event == "refresh"@ {
        MenuAction::Emit(MenuCommand::Refresh)
    } else if event == "sync_calendars"@ {
        MenuAction::Emit(MenuCommand::SyncCalendars)
    } else if event == "minimize"@ {
        MenuAction::Minimize
    } else if event == "close"@ {
        MenuAction::Close
    } else if event == "website"@ {
        MenuAction::OpenWebsite
    } else {
        MenuAction::Unhandled
    }
}

/// What the host does when the menu item with the identifier `event` is
/// chosen.
pub fn handle_menu_event(event: &str) -> (action: MenuAction)
    ensures
        action == menu_action(event@),
{
    if str_eq(event, "about") {
        MenuAction::Emit(MenuCommand::About)
    } else if str_eq(event, "quit") {
        MenuAction::Quit
    } else if str_eq(event, "hide") {
        MenuAction::Hide
    } else if str_eq(event, "new_event") {
        MenuAction::Emit(MenuCommand::NewEvent)
    } else if str_eq(event, "day_view") {
        MenuAction::Emit(MenuCommand::DayView)
    } else if str_eq(event, "week_view") {
        MenuAction::Emit(MenuCommand::WeekView)
    } else if str_eq(event, "month_view") {
        MenuAction::Emit(MenuCommand::MonthView)
    } else if str_eq(event, "today") {
        MenuAction::Emit(MenuCommand::Today)
    } else if str_eq(event, "refresh") {
        MenuAction::Emit(MenuCommand::Refresh)
    } else if str_eq(event, "sync_calendars") {
        MenuAction::Emit(MenuCommand::SyncCalendars)
    } else if str_eq(event, "minimize") {
        MenuAction::Minimize
    } else if str_eq(event, "close") {
        MenuAction::Close
    } else if str_eq(event, "website") {
        MenuAction::OpenWebsite
    } else {
        MenuAction::Unhandled
    }
}

} // verus!
