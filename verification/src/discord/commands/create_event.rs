//! The command that puts a yearly event on a server's calendar.

use crate::calendar::{calendars_by_guild_id, owned_by, Calendar, CalendarView};
use crate::date::{
    chrono_read_date, date_text, day_after, read_naive_date, CalendarDate, DateView, MAX_YEAR,
};
use crate::discord::commands::{
    chosen, chosen_calendar_id, done_view, failure, failure_reply, label_option, label_option_spec,
    listing_view, text_at, text_option, CommandSpec, CommandSpecView, OptionSpec, OptionSpecView,
    OptionValue, OptionValueView,
};
use crate::error::{Error, ErrorView};
use crate::text::{push_signed_numeral, signed_numeral};
use vstd::prelude::*;
use vstd::string::StringExecFns;

verus! {

/// An event that is not on a calendar yet: it takes one whole day and comes
/// back every year.
#[derive(Clone, Debug, PartialEq, Eq)]
pub struct EventDraft {
    /// The label of the event.
    pub summary: String,
    /// The day the event takes.
    pub start: CalendarDate,
    /// The day after, on which the event is over.
    pub end: CalendarDate,
    /// The rules by which the event comes back.
    pub recurrence: Vec<String>,
}

/// An [`EventDraft`] as contracts speak of it.
pub ghost struct EventDraftView {
    pub summary: Seq<char>,
    pub start: DateView,
    pub end: DateView,
    pub recurrence: Seq<Seq<char>>,
}

impl View for EventDraft {
    type V = EventDraftView;

    open spec fn view(&self) -> EventDraftView {
        EventDraftView {
            summary: self.summary@,
            start: self.start@,
            end: self.end@,
            recurrence: self.recurrence.deep_view(),
        }
    }
}

/// The event with the label `label` that takes the day `date` of every year.
pub open spec fn yearly(label: Seq<char>, date: DateView) -> EventDraftView {
    EventDraftView {
        summary: label,
        start: date,
        end: day_after(date),
        recurrence: seq!["RRULE:FREQ=YEARLY"@],
    }
}

/// How the command begins.
#[derive(Debug, PartialEq, Eq)]
pub enum Start {
    /// Answer with this text.
    Reply(String),
    /// Go on with this event.
    Draft(EventDraft),
}

/// A [`Start`] as contracts speak of it.
pub ghost enum StartView {
    Reply(Seq<char>),
    Draft(EventDraftView),
}

impl View for Start {
    type V = StartView;

    open spec fn view(&self) -> StartView {
        match self {
            Start::Reply(reply) => StartView::Reply(reply@),
            Start::Draft(event) => StartView::Draft(event@),
        }
    }
}

/// How the command goes on once the calendars are listed.
#[derive(Debug, PartialEq, Eq)]
pub enum Next {
    /// Answer with this text.
    Reply(String),
    /// Put `event` on the calendar with this handle.
    Create { calendar_id: String, event: EventDraft },
}

/// A [`Next`] as contracts speak of it.
pub ghost enum NextView {
    Reply(Seq<char>),
    Create { calendar_id: Seq<char>, event: EventDraftView },
}

impl View for Next {
    type V = NextView;

    open spec fn view(&self) -> NextView {
        match self {
            Next::Reply(reply) => NextView::Reply(reply@),
            Next::Create { calendar_id, event } => NextView::Create {
                calendar_id: calendar_id@,
                event: event@,
            },
        }
    }
}

/// The text that is read as the date of the event: the year, a hyphen, and
/// what was given as month and day.
pub open spec fn dated(year: int, month_day: Seq<char>) -> Seq<char> {
    signed_numeral(year) + "-"@ + month_day
}

/// The answer to a date that cannot be read, for the reason `why`.
pub open spec fn refusal(why: Seq<char>) -> Seq<char> {
    "Failed to parse date: "@ + why + ". Date format is MM-DD"@
}

/// How the command begins with the label `label`, given the day that was
/// read for the event, or why none could be read: a date that cannot be read
/// is answered with the reason; a day that has a following day gives the
/// yearly event of that day; the last day of all gives nothing.
pub open spec fn drafted(label: Seq<char>, date: Result<DateView, Seq<char>>) -> Option<
    StartView,
> {
    match date {
        Err(why) => Some(StartView::Reply(refusal(why))),
        Ok(date) => if day_after(date).year <= MAX_YEAR {
            Some(StartView::Draft(yearly(label, date)))
        } else {
            None
        },
    }
}

/// How the command begins with `options`, on the day `today`: the first
/// option is the label, and must be text. The second, if it is text, is the
/// month and day of the event in the year of `today`; without it the event
/// is of `today`.
pub open spec fn start(options: Seq<OptionValueView>, today: CalendarDate) -> Option<StartView> {
    match text_at(options, 0) {
        None => Some(StartView::Reply("The *label* parameter is required"@)),
        Some(label) => drafted(
            label,
            match text_at(options, 1) {
                Some(month_day) => chrono_read_date(dated(today@.year, month_day)),
                None => Ok(today@),
            },
        ),
    }
}

/// How the command goes on for the server `guild_id` with `event` once the
/// calendars are listed: without a client, if they could not be listed, or if
/// the server has no calendar, it answers so; otherwise the event is put on
/// the server's calendar.
pub open spec fn next(
    guild_id: u64,
    calendars: Option<Result<Seq<CalendarView>, ErrorView>>,
    event: EventDraftView,
) -> NextView {
    match calendars {
        None => NextView::Reply("An error occurred: no calendar client"@),
        Some(Err(error)) => NextView::Reply(failure(error)),
        Some(Ok(calendars)) => match chosen(calendars.filter(owned_by(guild_id))) {
            None => NextView::Reply(
                "No calendar for the server, create a new one! `/create_calendar`"@,
            ),
            Some(calendar) => NextView::Create { calendar_id: calendar.id, event },
        },
    }
}

/// The answer once the event with the label `label` on the day `date` is on
/// the calendar, or could not be put there.
pub open spec fn answer(label: Seq<char>, date: DateView, created: Result<(), ErrorView>) -> Seq<
    char,
> {
    match created {
        Ok(()) => "The event \""@ + label + "\" was created successfully! Date: "@ + date_text(
            date,
        ),
        Err(error) => failure(error),
    }
}

/// Begins the command with the label `label`, given the day that was read
/// for the event, or why none could be read. Returns nothing if the day has
/// no following day for the event to end on.
pub fn draft(label: &str, date: Result<CalendarDate, String>) -> (begun: Option<Start>)
    ensures
        match drafted(
            label@,
            match date {
                Ok(date) => Ok(date@),
                Err(why) => Err(why@),
            },
        ) {
            Some(expected) => begun matches Some(found) && found@ == expected,
            None => begun is None,
        },
{
    match date {
        Err(why) => {
            let mut reply = String::from_str("Failed to parse date: ");
            reply.append(why.as_str());
            reply.append(". Date format is MM-DD");
            Some(Start::Reply(reply))
        },
        Ok(date) => match date.succ() {
            None => None,
            Some(end) => {
                let mut recurrence: Vec<String> = Vec::new();
                recurrence.push(String::from_str("RRULE:FREQ=YEARLY"));
                assert(recurrence.deep_view() == seq!["RRULE:FREQ=YEARLY"@]);
                Some(
                    Start::Draft(
                        EventDraft { summary: String::from_str(label), start: date, end, recurrence },
                    ),
                )
            },
        },
    }
}

/// Begins the command with `options`, on the day `today`. Returns nothing if
/// the day of the event has no following day for the event to end on.
pub fn run(options: &Vec<OptionValue>, today: CalendarDate) -> (begun: Option<Start>)
    ensures
        match start(options.deep_view(), today) {
            Some(expected) => begun matches Some(found) && found@ == expected,
            None => begun is None,
        },
{
    match text_option(options, 0) {
        None => Some(Start::Reply(String::from_str("The *label* parameter is required"))),
        Some(label) => {
            let date = match text_option(options, 1) {
                Some(month_day) => {
                    let mut text = String::new();
                    push_signed_numeral(&mut text, today.year() as i64);
                    text.append("-");
                    text.append(month_day.as_str());
                    read_naive_date(text.as_str())
                },
                None => Ok(today),
            };
            draft(label.as_str(), date)
        },
    }
}

/// Decides how the command goes on for the server `guild_id` with `event`,
/// given all calendars, or why they could not be listed, or nothing where
/// there is no calendar client.
pub fn place(
    guild_id: u64,
    calendars: Option<Result<Vec<Calendar>, Error>>,
    event: EventDraft,
) -> (step: Next)
    ensures
        step@ == next(guild_id, listing_view(calendars), event@),
{
    match calendars {
        None => Next::Reply(String::from_str("An error occurred: no calendar client")),
        Some(Err(error)) => Next::Reply(failure_reply(&error)),
        Some(Ok(calendars)) => {
            let owned = calendars_by_guild_id(calendars, guild_id);
            match chosen_calendar_id(owned) {
                None => Next::Reply(
                    String::from_str(
                        "No calendar for the server, create a new one! `/create_calendar`",
                    ),
                ),
                Some(calendar_id) => Next::Create { calendar_id, event },
            }
        },
    }
}

/// The answer once the event with the label `label` on the day `date` is on
/// the calendar, or could not be put there.
pub fn finish(label: &str, date: CalendarDate, created: Result<(), Error>) -> (reply: String)
    ensures
        reply@ == answer(label@, date@, done_view(created)),
{
    match created {
        Ok(()) => {
            let mut reply = String::from_str("The event \"");
            reply.append(label);
            reply.append("\" was created successfully! Date: ");
            let day = date.text();
            reply.append(day.as_str());
            reply
        },
        Err(error) => failure_reply(&error),
    }
}

/// The option named `date`.
pub open spec fn date_option() -> OptionSpecView {
    OptionSpecView {
        name: "date"@,
        description: "The date of the event using the MM-DD format. Default is today"@,
        required: false,
    }
}

/// The command as the chat service is told of it.
pub open spec fn registration() -> CommandSpecView {
    CommandSpecView {
        name: "create_event"@,
        description: "Create an event with a label on a specific date"@,
        options: seq![label_option(), date_option()],
        admin_only: true,
    }
}

/// The command as the chat service is told of it.
pub fn register() -> (command: CommandSpec)
    ensures
        command@ == registration(),
{
    let mut options: Vec<OptionSpec> = Vec::new();
    options.push(label_option_spec());
    options.push(
        OptionSpec {
            name: String::from_str("date"),
            description: String::from_str(
                "The date of the event using the MM-DD format. Default is today",
            ),
            required: false,
        },
    );
    let command = CommandSpec {
        name: String::from_str("create_event"),
        description: String::from_str("Create an event with a label on a specific date"),
        options,
        admin_only: true,
    };
    assert(command@.options =~= seq![label_option(), date_option()]);
    command
}

} // verus!
