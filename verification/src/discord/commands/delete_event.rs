//! The command that takes the events with a given label off a server's
//! calendar.

use crate::calendar::{
    events_view,    calendars_by_guild_id, event_ids_by_label, ids_by_label, owned_by, Calendar, CalendarView,
    Event, EventView,
};
use crate::discord::commands::{
    chosen, chosen_calendar_id, failure, failure_reply, label_option, label_option_spec,
    listing_view, text_at, text_option, CommandSpec, CommandSpecView, OptionSpec, OptionValue,
    OptionValueView,
};
use crate::error::{Error, ErrorView};
use crate::text::{numeral, push_numeral};
use vstd::prelude::*;
use vstd::string::StringExecFns;

verus! {

/// How the command goes on once the calendars are listed.
#[derive(Debug, PartialEq, Eq)]
pub enum Next {
    /// Answer with this text.
    Reply(String),
    /// Fetch the events of the calendar with this handle.
    List { calendar_id: String },
}

/// A [`Next`] as contracts speak of it.
pub ghost enum NextView {
    Reply(Seq<char>),
    List { calendar_id: Seq<char> },
}

impl View for Next {
    type V = NextView;

    open spec fn view(&self) -> NextView {
        match self {
            Next::Reply(reply) => NextView::Reply(reply@),
            Next::List { calendar_id } => NextView::List { calendar_id: calendar_id@ },
        }
    }
}

/// How the command goes on once the events are fetched.
#[derive(Debug, PartialEq, Eq)]
pub enum Pick {
    /// Answer with this text.
    Reply(String),
    /// Delete the events with these handles, all at once.
    Delete { event_ids: Vec<String> },
}

/// A [`Pick`] as contracts speak of it.
pub ghost enum PickView {
    Reply(Seq<char>),
    Delete { event_ids: Seq<Seq<char>> },
}

impl View for Pick {
    type V = PickView;

    open spec fn view(&self) -> PickView {
        match self {
            Pick::Reply(reply) => PickView::Reply(reply@),
            Pick::Delete { event_ids } => PickView::Delete { event_ids: event_ids.deep_view() },
        }
    }
}

/// The label that the command is given, or the answer if it is given none:
/// the first option is the label, and must be text.
pub open spec fn start(options: Seq<OptionValueView>) -> Result<Seq<char>, Seq<char>> {
    match text_at(options, 0) {
        Some(label) => Ok(label),
        None => Err("The *label* parameter is required"@),
    }
}

/// How the command goes on for the server `guild_id` once the calendars are
/// listed: without a client, if they could not be listed, or if the server
/// has no calendar, it answers so; otherwise the events of the server's
/// calendar are fetched.
pub open spec fn next(guild_id: u64, calendars: Option<Result<Seq<CalendarView>, ErrorView>>)
    -> NextView {
    match calendars {
        None => NextView::Reply("An error occurred: no calendar client"@),
        Some(Err(error)) => NextView::Reply(failure(error)),
        Some(Ok(calendars)) => match chosen(calendars.filter(owned_by(guild_id))) {
            None => NextView::Reply(
                "No calendar for the server, create a new one! `/create_calendar`"@,
            ),
            Some(calendar) => NextView::List { calendar_id: calendar.id },
        },
    }
}

/// How the command goes on once the events are fetched: if they could not be
/// it answers so; otherwise the events with the label `label` are deleted.
pub open spec fn picked(label: Seq<char>, events: Result<Seq<EventView>, ErrorView>) -> PickView {
    match events {
        Err(error) => PickView::Reply(failure(error)),
        Ok(events) => PickView::Delete { event_ids: ids_by_label(events, label) },
    }
}

/// The answer once `count` events were asked to be deleted.
pub open spec fn answer(count: nat) -> Seq<char> {
    "Deleted "@ + numeral(count) + " events from the calendar!"@
}

/// Reads the label that the command is given, or says what to answer if it
/// is given none.
pub fn run(options: &Vec<OptionValue>) -> (label: Result<String, String>)
    ensures
        match start(options.deep_view()) {
            Ok(expected) => label matches Ok(found) && found@ == expected,
            Err(expected) => label matches Err(reply) && reply@ == expected,
        },
{
    match text_option(options, 0) {
        Some(label) => Ok(label.clone()),
        None => Err(String::from_str("The *label* parameter is required")),
    }
}

/// Decides how the command goes on for the server `guild_id`, given all
/// calendars, or why they could not be listed, or nothing where there is no
/// calendar client.
pub fn locate(guild_id: u64, calendars: Option<Result<Vec<Calendar>, Error>>) -> (step: Next)
    ensures
        step@ == next(guild_id, listing_view(calendars)),
{
    match calendars {
        None => Next::Reply(String::from_str("An error occurred: no calendar client")),
        Some(Err(error)) => Next::Reply(failure_reply(&error)),
        Some(Ok(calendars)) => {
            let owned = calendars_by_guild_id(calendars, guild_id);
            match chosen_calendar_id(owned) {
                None => Next::Reply(
                    String::from_str(
                        "No calendar for the server, create a new one! `/create_calendar`",
                    ),
                ),
                Some(calendar_id) => Next::List { calendar_id },
            }
        },
    }
}

/// Decides how the command goes on, given the events of the calendar, or why
/// they could not be fetched.
pub fn select(label: &str, events: Result<Vec<Event>, Error>) -> (step: Pick)
    ensures
        step@ == picked(label@, events_view(events)),
{
    match events {
        Err(error) => Pick::Reply(failure_reply(&error)),
        Ok(events) => Pick::Delete { event_ids: event_ids_by_label(events, label) },
    }
}

/// The answer once `count` events were asked to be deleted, whether or not
/// each deletion succeeded.
pub fn finish(count: usize) -> (reply: String)
    ensures
        reply@ == answer(count as nat),
{
    let mut reply = String::from_str("Deleted ");
    push_numeral(&mut reply, count as u64);
    reply.append(" events from the calendar!");
    reply
}

/// The command as the chat service is told of it.
pub open spec fn registration() -> CommandSpecView {
    CommandSpecView {
        name: "delete_event"@,
        description: "Delete events with the specified label"@,
        options: seq![label_option()],
        admin_only: true,
    }
}

/// The command as the chat service is told of it.
pub fn register() -> (command: CommandSpec)
    ensures
        command@ == registration(),
{
    let mut options: Vec<OptionSpec> = Vec::new();
    options.push(label_option_spec());
    let command = CommandSpec {
        name: String::from_str("delete_event"),
        description: String::from_str("Delete events with the specified label"),
        options,
        admin_only: true,
    };
    assert(command@.options =~= seq![label_option()]);
    command
}

} // verus!
