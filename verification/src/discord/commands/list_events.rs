//! The command that shows the events of a server's calendar.

use crate::calendar::{
    events_view,    calendar_url, calendars_by_guild_id, get_calendar_url, owned_by, Calendar, CalendarView, Event,
    EventStart, EventView,
};
use crate::date::date_text;
use crate::discord::commands::{
    chosen, chosen_calendar_id, listing_view, CommandSpec, CommandSpecView,
};
use crate::error::{Error, ErrorView};
use crate::text::{join, joined};
use vstd::prelude::*;
use vstd::string::StringExecFns;

verus! {

/// How the command goes on once the calendars are listed.
#[derive(Debug, PartialEq, Eq)]
pub enum Next {
    /// Answer with this text.
    Reply(String),
    /// Fetch the events of the calendar with this handle.
    List { calendar_id: String },
}

/// A [`Next`] as contracts speak of it.
pub ghost enum NextView {
    Reply(Seq<char>),
    List { calendar_id: Seq<char> },
}

impl View for Next {
    type V = NextView;

    open spec fn view(&self) -> NextView {
        match self {
            Next::Reply(reply) => NextView::Reply(reply@),
            Next::List { calendar_id } => NextView::List { calendar_id: calendar_id@ },
        }
    }
}

/// How the command goes on for the server `guild_id` once the calendars are
/// listed: without a client, or if they could not be listed, it fails; if the
/// server has no calendar it answers so; otherwise the events of the server's
/// calendar are fetched.
pub open spec fn next(guild_id: u64, calendars: Option<Result<Seq<CalendarView>, ErrorView>>)
    -> Result<NextView, ErrorView> {
    match calendars {
        None => Err(ErrorView::NoCalendarClient),
        Some(Err(error)) => Err(error),
        Some(Ok(calendars)) => match chosen(calendars.filter(owned_by(guild_id))) {
            None => Ok(
                NextView::Reply(
                    "No calendar found for the server! Create a new one using `/create_calendar`"@,
                ),
            ),
            Some(calendar) => Ok(NextView::List { calendar_id: calendar.id }),
        },
    }
}

/// The line that shows `event`: its label and the day it takes, each with a
/// placeholder where it is missing.
pub open spec fn line(event: EventView) -> Seq<char> {
    (match event.summary {
        Some(label) => label,
        None => "No label"@,
    }) + ": "@ + match event.start {
        EventStart::On(date) => date_text(date@),
        EventStart::Undated => "No date"@,
        EventStart::Missing => "No start"@,
    }
}

/// The answer that shows `events` of the calendar with the handle
/// `calendar_id`.
pub open spec fn listing(calendar_id: Seq<char>, events: Seq<EventView>) -> Seq<char> {
    "Events:\n"@ + joined(events.map_values(|event: EventView| line(event)), "\n"@)
        + "\nCalendar: "@ + calendar_url(calendar_id)
}

/// The answer once the events are fetched, or the failure to fetch them.
pub open spec fn answer(calendar_id: Seq<char>, events: Result<Seq<EventView>, ErrorView>)
    -> Result<Seq<char>, ErrorView> {
    match events {
        Ok(events) => Ok(listing(calendar_id, events)),
        Err(error) => Err(error),
    }
}

/// Decides how the command goes on for the server `guild_id`, given all
/// calendars, or why they could not be listed, or nothing where there is no
/// calendar client.
pub fn run(guild_id: u64, calendars: Option<Result<Vec<Calendar>, Error>>) -> (step: Result<
    Next,
    Error,
>)
    ensures
        match next(guild_id, listing_view(calendars)) {
            Ok(expected) => step matches Ok(found) && found@ == expected,
            Err(expected) => step matches Err(error) && error@ == expected,
        },
{
    match calendars {
        None => Err(Error::NoCalendarClient),
        Some(Err(error)) => Err(error),
        Some(Ok(calendars)) => {
            let owned = calendars_by_guild_id(calendars, guild_id);
            match chosen_calendar_id(owned) {
                None => Ok(
                    Next::Reply(
                        String::from_str(
                            "No calendar found for the server! Create a new one using `/create_calendar`",
                        ),
                    ),
                ),
                Some(calendar_id) => Ok(Next::List { calendar_id }),
            }
        },
    }
}

/// The line that shows `event`.
fn line_text(event: &Event) -> (text: String)
    ensures
        text@ == line(event@),
{
    let mut text = match &event.summary {
        Some(label) => label.clone(),
        None => String::from_str("No label"),
    };
    text.append(": ");
    match event.start {
        EventStart::On(date) => {
            let day = date.text();
            text.append(day.as_str());
        },
        EventStart::Undated => text.append("No date"),
        EventStart::Missing => text.append("No start"),
    }
    text
}

/// The answer once the events of the calendar with the handle `calendar_id`
/// are fetched, or the failure to fetch them.
pub fn finish(calendar_id: &str, events: Result<Vec<Event>, Error>) -> (reply: Result<
    String,
    Error,
>)
    ensures
        match answer(calendar_id@, events_view(events)) {
            Ok(expected) => reply matches Ok(found) && found@ == expected,
            Err(expected) => reply matches Err(error) && error@ == expected,
        },
{
    match events {
        Err(error) => Err(error),
        Ok(events) => {
            let ghost all = events.deep_view();
            let ghost line_of = |event: EventView| line(event);
            let mut lines: Vec<String> = Vec::new();
            let mut i: usize = 0;
            while i < events.len()
                invariant
                    i <= events.len(),
                    all == events.deep_view(),
                    line_of == |event: EventView| line(event),
                    lines.deep_view() == all.take(i as int).map_values(line_of),
                decreases events.len() - i,
            {
                let ghost before = lines.deep_view();
                lines.push(line_text(&events[i]));
                assert(lines.deep_view() == before.push(line(events[i as int]@)));
                assert(all.take(i + 1) == all.take(i as int).push(events[i as int]@));
                i = i + 1;
            }
            assert(all.take(all.len() as int) == all);
            let mut reply = String::from_str("Events:\n");
            let shown = join(&lines, "\n");
            reply.append(shown.as_str());
            reply.append("\nCalendar: ");
            let url = get_calendar_url(calendar_id);
            reply.append(url.as_str());
            Ok(reply)
        },
    }
}

/// The command as the chat service is told of it.
pub open spec fn registration() -> CommandSpecView {
    CommandSpecView {
        name: "list_events"@,
        description: "List all the events on the server"@,
        options: Seq::empty(),
        admin_only: false,
    }
}

/// The command as the chat service is told of it.
pub fn register() -> (command: CommandSpec)
    ensures
        command@ == registration(),
{
    let command = CommandSpec {
        name: String::from_str("list_events"),
        description: String::from_str("List all the events on the server"),
        options: Vec::new(),
        admin_only: false,
    };
    assert(command@.options =~= Seq::empty());
    command
}

} // verus!
