//! Calendar events: the sample events that stand in for a calendar service,
//! their selection by date, and the making and changing of an event.

use vstd::prelude::*;
use vstd::string::*;
use crate::text::{join, option_text, signed_decimal, signed_to_string, texts};

verus! {

/// An event of a calendar.
#[derive(Debug, Clone)]
pub struct CalendarEvent {
    pub id: String,
    pub title: String,
    pub description: Option<String>,
    /// Start of the event, as an RFC 3339 date and time.
    pub start_time: String,
    /// End of the event, as an RFC 3339 date and time.
    pub end_time: String,
    pub calendar_id: String,
    pub location: Option<String>,
    pub attendees: Vec<String>,
    pub all_day: bool,
    pub recurring: bool,
    pub reminder_minutes: Option<u32>,
}

/// What the frontend sends to have an event made.
#[derive(Debug)]
pub struct CalendarEventCreate {
    pub title: String,
    pub description: Option<String>,
    pub start_time: String,
    pub end_time: String,
    pub calendar_id: String,
    pub location: Option<String>,
    pub attendees: Vec<String>,
    pub all_day: bool,
    pub recurring: bool,
    pub reminder_minutes: Option<u32>,
}

/// What the frontend sends to have an event changed: the identifier of the
/// event, and a new value for each field that changes.
#[derive(Debug)]
pub struct CalendarEventUpdate {
    pub id: String,
    pub title: Option<String>,
    pub description: Option<String>,
    pub start_time: Option<String>,
    pub end_time: Option<String>,
    pub location: Option<String>,
    pub attendees: Option<Vec<String>>,
    pub all_day: Option<bool>,
    pub recurring: Option<bool>,
    pub reminder_minutes: Option<u32>,
}

/// The dates between which the frontend asks for events, both as RFC 3339
/// dates and times, and the calendars it asks about.
#[derive(Debug)]
pub struct CalendarEventFilter {
    pub start_date: String,
    pub end_date: String,
    pub calendar_ids: Option<Vec<String>>,
}

/// What a [`CalendarEvent`] holds, as text and numbers.
pub struct CalendarEventView {
    pub id: Seq<char>,
    pub title: Seq<char>,
    pub description: Option<Seq<char>>,
    pub start_time: Seq<char>,
    pub end_time: Seq<char>,
    pub calendar_id: Seq<char>,
    pub location: Option<Seq<char>>,
    pub attendees: Seq<Seq<char>>,
    pub all_day: bool,
    pub recurring: bool,
    pub reminder_minutes: Option<u32>,
}

impl View for CalendarEvent {
    type V = CalendarEventView;

    open spec fn view(&self) -> CalendarEventView {
        CalendarEventView {
            id: self.id@,
            title: self.title@,
            description: option_text(self.description),
            start_time: self.start_time@,
            end_time: self.end_time@,
            calendar_id: self.calendar_id@,
            location: option_text(self.location),
            attendees: texts(self.attendees@),
            all_day: self.all_day,
            recurring: self.recurring,
            reminder_minutes: self.reminder_minutes,
        }
    }
}

/// What each event of a list holds.
pub open spec fn event_views(events: Seq<CalendarEvent>) -> Seq<CalendarEventView> {
    Seq::new(events.len(), |i: int| events[i]@)
}

/// A point in time: whole seconds since the start of 1970 in UTC, and the
/// nanoseconds since that second began.
#[derive(Debug, Clone, Copy, PartialEq, Eq, Structural)]
pub struct Timestamp {
    pub seconds: i64,
    pub nanos: u32,
}

impl Timestamp {
    /// Whether this point in time is `other` or comes before it.
    pub open spec fn at_or_before(self, other: Timestamp) -> bool {
        self.seconds < other.seconds || (self.seconds == other.seconds && self.nanos
            <= other.nanos)
    }

    /// Whether this point in time is `other` or comes before it.
    pub fn is_at_or_before(&self, other: &Timestamp) -> (before: bool)
        ensures
            before == self.at_or_before(*other),
    {
        self.seconds < other.seconds || (self.seconds == other.seconds && self.nanos
            <= other.nanos)
    }

    /// Whether this point in time lies between `from` and `until`, both
    /// included.
    pub open spec fn between(self, from: Timestamp, until: Timestamp) -> bool {
        from.at_or_before(self) && self.at_or_before(until)
    }

    /// Whether this point in time lies between `from` and `until`, both
    /// included.
    pub fn is_between(&self, from: &Timestamp, until: &Timestamp) -> (within: bool)
        ensures
            within == self.between(*from, *until),
    {
        from.is_at_or_before(self) && self.is_at_or_before(until)
    }
}

/// What `chrono::DateTime::parse_from_rfc3339` makes of a text: the point in
/// time that it denotes, or the message of the error that it gives.
pub uninterp spec fn rfc3339(text: Seq<char>) -> Result<Timestamp, Seq<char>>;

/// Calls `chrono::DateTime::parse_from_rfc3339`. The contract names what comes
/// back and claims nothing else of it: a date and time is handed on as its
/// `timestamp()` and `timestamp_subsec_nanos()`, by which chrono orders two of
/// them, and an error as its message.
#[verifier::external_body]
fn parse_rfc3339(text: &str) -> (parsed: Result<Timestamp, String>)
    ensures
        match parsed {
            Ok(time) => rfc3339(text@) == Ok::<Timestamp, Seq<char>>(time),
            Err(message) => rfc3339(text@) == Err::<Timestamp, Seq<char>>(message@),
        },
{
    match chrono::DateTime::parse_from_rfc3339(text) {
        Ok(time) => Ok(Timestamp { seconds: time.timestamp(), nanos: time.timestamp_subsec_nanos() }),
        Err(error) => Err(error.to_string()),
    }
}

/// Whether an event starts at a time that can be read and that lies between
/// `from` and `until`, both included.
pub open spec fn starts_within(event: CalendarEventView, from: Timestamp, until: Timestamp) -> bool {
    rfc3339(event.start_time) matches Ok(start) && start.between(from, until)
}

/// The events of a list that start between `from` and `until`, in order.
pub open spec fn events_within(
    events: Seq<CalendarEventView>,
    from: Timestamp,
    until: Timestamp,
) -> Seq<CalendarEventView>
    decreases events.len(),
{
    if events.len() == 0 {
        Seq::empty()
    } else if starts_within(events.last(), from, until) {
        events_within(events.drop_last(), from, until).push(events.last())
    } else {
        events_within(events.drop_last(), from, until)
    }
}

/// Whether `event` starts between `from` and `until`.
pub fn starts_between(event: &CalendarEvent, from: &Timestamp, until: &Timestamp) -> (within: bool)
    ensures
        within == starts_within(event@, *from, *until),
{
    match parse_rfc3339(event.start_time.as_str()) {
        Ok(start) => start.is_between(from, until),
        Err(_) => false,
    }
}

/// Keeps the events that start between `from` and `until`, in their order.
pub fn events_between(events: Vec<CalendarEvent>, from: Timestamp, until: Timestamp) -> (kept: Vec<
    CalendarEvent,
>)
    ensures
        event_views(kept@) == events_within(event_views(events@), from, until),
{
    let ghost all = event_views(events@);
    let mut kept: Vec<CalendarEvent> = Vec::new();
    assert(all.take(0) =~= Seq::<CalendarEventView>::empty());
    assert(event_views(kept@) =~= Seq::<CalendarEventView>::empty());
    for event in it: events
        invariant
            all == event_views(events@),
            it.seq() == events@,
            event_views(kept@) == events_within(all.take(it.index() as int), from, until),
    {
        proof {
            let longer = all.take(it.index() + 1);
            assert(longer.drop_last() =~= all.take(it.index() as int));
            assert(longer.last() == event@);
        }
        let ghost before = event_views(kept@);
        if starts_between(&event, &from, &until) {
            kept.push(event);
            assert(event_views(kept@) =~= before.push(event@));
        }
    }
    assert(all.take(all.len() as int) =~= all);
    kept
}

/// The two events that stand in for the calendar service.
pub open spec fn sample_event_views() -> Seq<CalendarEventView> {
    seq![
        CalendarEventView {
            id: "event_1"@,
            title: "Team Standup"@,
            description: Some("Daily team standup meeting"@),
            start_time: "2025-05-29T09:00:00Z"@,
            end_time: "2025-05-29T09:30:00Z"@,
            calendar_id: "primary"@,
            location: Some("Conference Room A"@),
            attendees: seq!["team@company.com"@],
            all_day: false,
            recurring: true,
            reminder_minutes: Some(15u32),
        },
        CalendarEventView {
            id: "event_2"@,
            title: "Project Review"@,
            description: Some("Quarterly project review"@),
            start_time: "2025-05-29T14:00:00Z"@,
            end_time: "2025-05-29T15:30:00Z"@,
            calendar_id: "primary"@,
            location: None,
            attendees: Seq::empty(),
            all_day: false,
            recurring: false,
            reminder_minutes: Some(30u32),
        },
    ]
}

/// The two events that stand in for the calendar service.
pub fn sample_events() -> (events: Vec<CalendarEvent>)
    ensures
        event_views(events@) == sample_event_views(),
{
    let mut attendees: Vec<String> = Vec::new();
    attendees.push(String::from_str("team@company.com"));
    let standup = CalendarEvent {
        id: String::from_str("event_1"),
        title: String::from_str("Team Standup"),
        description: Some(String::from_str("Daily team standup meeting")),
        start_time: String::from_str("2025-05-29T09:00:00Z"),
        end_time: String::from_str("2025-05-29T09:30:00Z"),
        calendar_id: String::from_str("primary"),
        location: Some(String::from_str("Conference Room A")),
        attendees,
        all_day: false,
        recurring: true,
        reminder_minutes: Some(15),
    };
    let quarterly = CalendarEvent {
        id: String::from_str("event_2"),
        title: String::from_str("Project Review"),
        description: Some(String::from_str("Quarterly project review")),
        start_time: String::from_str("2025-05-29T14:00:00Z"),
        end_time: String::from_str("2025-05-29T15:30:00Z"),
        calendar_id: String::from_str("primary"),
        location: None,
        attendees: Vec::new(),
        all_day: false,
        recurring: false,
        reminder_minutes: Some(30),
    };
    assert(standup@.attendees =~= seq!["team@company.com"@]);
    assert(quarterly@.attendees =~= Seq::<Seq<char>>::empty());
    let mut events: Vec<CalendarEvent> = Vec::new();
    events.push(standup);
    events.push(quarterly);
    assert(event_views(events@) =~= sample_event_views());
    events
}

/// What [`get_calendar_events`] answers to a filter: the sample events that
/// start within the filter's dates, or why a date of the filter could not be
/// read. The start date is read first.
pub open spec fn events_answer(
    start_date: Seq<char>,
    end_date: Seq<char>,
) -> Result<Seq<CalendarEventView>, Seq<char>> {
    match rfc3339(start_date) {
        Err(message) => Err("Invalid start_date format: "@ + message),
        Ok(from) => match rfc3339(end_date) {
            Err(message) => Err("Invalid end_date format: "@ + message),
            Ok(until) => Ok(events_within(sample_event_views(), from, until)),
        },
    }
}

/// The events that start between the two dates of the filter, both included.
/// A date of the filter that is no RFC 3339 date and time is an error; an
/// event whose start cannot be read is left out. The calendars that the
/// filter names are not looked at.
pub fn get_calendar_events(filter: CalendarEventFilter) -> (answer: Result<
    Vec<CalendarEvent>,
    String,
>)
    ensures
        match answer {
            Ok(events) => events_answer(filter.start_date@, filter.end_date@) == Ok::<
                Seq<CalendarEventView>,
                Seq<char>,
            >(event_views(events@)),
            Err(message) => events_answer(filter.start_date@, filter.end_date@) == Err::<
                Seq<CalendarEventView>,
                Seq<char>,
            >(message@),
        },
{
    let from = match parse_rfc3339(filter.start_date.as_str()) {
        Ok(from) => from,
        Err(message) => {
            return Err(join("Invalid start_date format: ", message.as_str()));
        },
    };
    let until = match parse_rfc3339(filter.end_date.as_str()) {
        Ok(until) => until,
        Err(message) => {
            return Err(join("Invalid end_date format: ", message.as_str()));
        },
    };
    Ok(events_between(sample_events(), from, until))
}

/// The event made from what the frontend sent, at `now` seconds since the
/// start of 1970: it is given the identifier `event_` followed by `now` in
/// decimal, and holds what was sent.
pub fn create_calendar_event(event_data: CalendarEventCreate, now: i64) -> (event: CalendarEvent)
    ensures
        event@ == (CalendarEventView {
            id: "event_"@ + signed_decimal(now as int),
            title: event_data.title@,
            description: option_text(event_data.description),
            start_time: event_data.start_time@,
            end_time: event_data.end_time@,
            calendar_id: event_data.calendar_id@,
            location: option_text(event_data.location),
            attendees: texts(event_data.attendees@),
            all_day: event_data.all_day,
            recurring: event_data.recurring,
            reminder_minutes: event_data.reminder_minutes,
        }),
{
    let stamp = signed_to_string(now);
    CalendarEvent {
        id: join("event_", stamp.as_str()),
        title: event_data.title,
        description: event_data.description,
        start_time: event_data.start_time,
        end_time: event_data.end_time,
        calendar_id: event_data.calendar_id,
        location: event_data.location,
        attendees: event_data.attendees,
        all_day: event_data.all_day,
        recurring: event_data.recurring,
        reminder_minutes: event_data.reminder_minutes,
    }
}

/// The text of an optional string, or `default` where there is none.
pub open spec fn text_or(text: Option<String>, default: Seq<char>) -> Seq<char> {
    match text {
        Some(text) => text@,
        None => default,
    }
}

fn string_or(text: Option<String>, default: &str) -> (chosen: String)
    ensures
        chosen@ == text_or(text, default@),
{
    match text {
        Some(text) => text,
        None => String::from_str(default),
    }
}

/// The event after a change that the frontend sent. What the change leaves
/// out is filled in: the title `Updated Event`, an hour from ten o'clock on
/// 29 May 2025, no attendees, neither all-day nor recurring. The event is
/// put in the primary calendar.
pub fn update_calendar_event(event_update: CalendarEventUpdate) -> (event: CalendarEvent)
    ensures
        event@ == (CalendarEventView {
            id: event_update.id@,
            title: text_or(event_update.title, "Updated Event"@),
            description: option_text(event_update.description),
            start_time: text_or(event_update.start_time, "2025-05-29T10:00:00Z"@),
            end_time: text_or(event_update.end_time, "2025-05-29T11:00:00Z"@),
            calendar_id: "primary"@,
            location: option_text(event_update.location),
            attendees: match event_update.attendees {
                Some(attendees) => texts(attendees@),
                None => Seq::empty(),
            },
            all_day: event_update.all_day == Some(true),
            recurring: event_update.recurring == Some(true),
            reminder_minutes: event_update.reminder_minutes,
        }),
{
    let attendees: Vec<String> = match event_update.attendees {
        Some(attendees) => attendees,
        None => Vec::new(),
    };
    let all_day: bool = match event_update.all_day {
        Some(all_day) => all_day,
        None => false,
    };
    let recurring: bool = match event_update.recurring {
        Some(recurring) => recurring,
        None => false,
    };
    let event = CalendarEvent {
        id: event_update.id,
        title: string_or(event_update.title, "Updated Event"),
        description: event_update.description,
        start_time: string_or(event_update.start_time, "2025-05-29T10:00:00Z"),
        end_time: string_or(event_update.end_time, "2025-05-29T11:00:00Z"),
        calendar_id: String::from_str("primary"),
        location: event_update.location,
        attendees,
        all_day,
        recurring,
        reminder_minutes: event_update.reminder_minutes,
    };
    assert(event@.attendees =~= match event_update.attendees {
        Some(attendees) => texts(attendees@),
        None => Seq::empty(),
    });
    event
}

/// What the frontend is told when an event was deleted.
pub fn delete_calendar_event(event_id: String) -> (message: String)
    ensures
        message@ == "Event "@ + event_id@ + " deleted successfully"@,
{
    let mut message = join("Event ", event_id.as_str());
    message.append(" deleted successfully");
    message
}

} // verus!
