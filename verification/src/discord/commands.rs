//! The commands of the bot: what each asks of the calendar service and of the
//! table of event channels, and what it answers.
//!
//! A command is a chain of decisions with a request to a service between
//! each two. The functions here are the decisions: each takes what the last
//! request gave and says what to ask next or what to answer.

pub mod create_calendar;
pub mod create_event;
pub mod delete_calendar;
pub mod delete_event;
pub mod list_events;
pub mod set_event_channel;

use crate::calendar::{calendars_view, Calendar, CalendarView};
use crate::error::{Error, ErrorView};
use vstd::prelude::*;
use vstd::string::StringExecFns;

verus! {

/// A value given with a command, as far as the commands read it.
#[derive(Clone, Debug, PartialEq, Eq)]
pub enum OptionValue {
    /// A piece of text.
    Text(String),
    /// Anything else.
    Other,
}

/// An [`OptionValue`] as contracts speak of it.
pub ghost enum OptionValueView {
    Text(Seq<char>),
    Other,
}

impl View for OptionValue {
    type V = OptionValueView;

    open spec fn view(&self) -> OptionValueView {
        match self {
            OptionValue::Text(text) => OptionValueView::Text(text@),
            OptionValue::Other => OptionValueView::Other,
        }
    }
}

impl DeepView for OptionValue {
    type V = OptionValueView;

    open spec fn deep_view(&self) -> OptionValueView {
        self@
    }
}

/// The text given as the option numbered `index`, if there is such an option
/// and it is text.
pub open spec fn text_at(options: Seq<OptionValueView>, index: int) -> Option<Seq<char>> {
    if 0 <= index < options.len() {
        match options[index] {
            OptionValueView::Text(text) => Some(text),
            OptionValueView::Other => None,
        }
    } else {
        None
    }
}

/// The text given as the option numbered `index`, if there is such an option
/// and it is text.
pub fn text_option(options: &Vec<OptionValue>, index: usize) -> (text: Option<&String>)
    ensures
        match text_at(options.deep_view(), index as int) {
            Some(given) => text matches Some(found) && found@ == given,
            None => text is None,
        },
{
    if index < options.len() {
        match &options[index] {
            OptionValue::Text(text) => Some(text),
            OptionValue::Other => None,
        }
    } else {
        None
    }
}

/// An option that a command takes. Every option is a piece of text.
#[derive(Clone, Debug, PartialEq, Eq)]
pub struct OptionSpec {
    pub name: String,
    pub description: String,
    pub required: bool,
}

/// An [`OptionSpec`] as contracts speak of it.
pub ghost struct OptionSpecView {
    pub name: Seq<char>,
    pub description: Seq<char>,
    pub required: bool,
}

impl View for OptionSpec {
    type V = OptionSpecView;

    open spec fn view(&self) -> OptionSpecView {
        OptionSpecView {
            name: self.name@,
            description: self.description@,
            required: self.required,
        }
    }
}

impl DeepView for OptionSpec {
    type V = OptionSpecView;

    open spec fn deep_view(&self) -> OptionSpecView {
        self@
    }
}

/// A command as it is announced to the chat service.
#[derive(Clone, Debug, PartialEq, Eq)]
pub struct CommandSpec {
    pub name: String,
    pub description: String,
    pub options: Vec<OptionSpec>,
    /// Whether only administrators of a server may use the command.
    pub admin_only: bool,
}

/// A [`CommandSpec`] as contracts speak of it.
pub ghost struct CommandSpecView {
    pub name: Seq<char>,
    pub description: Seq<char>,
    pub options: Seq<OptionSpecView>,
    pub admin_only: bool,
}

impl View for CommandSpec {
    type V = CommandSpecView;

    open spec fn view(&self) -> CommandSpecView {
        CommandSpecView {
            name: self.name@,
            description: self.description@,
            options: self.options.deep_view(),
            admin_only: self.admin_only,
        }
    }
}

/// The option named `label`, which the commands about events take.
pub open spec fn label_option() -> OptionSpecView {
    OptionSpecView { name: "label"@, description: "The label of the event"@, required: true }
}

/// The option named `label`, which the commands about events take.
pub fn label_option_spec() -> (option: OptionSpec)
    ensures
        option@ == label_option(),
{
    OptionSpec {
        name: String::from_str("label"),
        description: String::from_str("The label of the event"),
        required: true,
    }
}

/// The calendars, or why they could not be listed, or nothing where there is
/// no client to list them, as contracts speak of them.
pub open spec fn listing_view(calendars: Option<Result<Vec<Calendar>, Error>>) -> Option<
    Result<Seq<CalendarView>, ErrorView>,
> {
    match calendars {
        Some(calendars) => Some(calendars_view(calendars)),
        None => None,
    }
}

/// Whether a request succeeded, or why not, as contracts speak of it.
pub open spec fn done_view(done: Result<(), Error>) -> Result<(), ErrorView> {
    match done {
        Ok(()) => Ok(()),
        Err(error) => Err(error@),
    }
}

/// The answer to a command that failed with `error`.
pub open spec fn failure(error: ErrorView) -> Seq<char> {
    "An error occurred: "@ + error.message()
}

/// The answer to a command that failed with `error`.
pub fn failure_reply(error: &Error) -> (reply: String)
    ensures
        reply@ == failure(error@),
{
    let mut reply = String::from_str("An error occurred: ");
    let why = error.message();
    reply.append(why.as_str());
    reply
}

/// The calendar that a command works on where a server owns several: the
/// last of them.
pub open spec fn chosen(owned: Seq<CalendarView>) -> Option<CalendarView> {
    if owned.len() > 0 {
        Some(owned.last())
    } else {
        None
    }
}

/// The handle of the calendar that a command works on where a server owns
/// several: that of the last of them.
pub fn chosen_calendar_id(owned: Vec<Calendar>) -> (calendar_id: Option<String>)
    ensures
        match chosen(owned.deep_view()) {
            Some(calendar) => calendar_id matches Some(id) && id@ == calendar.id,
            None => calendar_id is None,
        },
{
    let mut owned = owned;
    let ghost all = owned.deep_view();
    match owned.pop() {
        Some(calendar) => {
            assert(calendar@ == all.last());
            Some(calendar.id)
        },
        None => None,
    }
}

} // verus!
