//! The command that gives a server its calendar.

use crate::calendar::{
    calendar_url, calendars_by_guild_id, get_calendar_url, owned_by, Calendar, CalendarView,
};
use crate::discord::commands::{
    done_view, failure, failure_reply, listing_view, CommandSpec, CommandSpecView,
};
use crate::error::{Error, ErrorView};
use crate::identity::{guild_summary, summary_of};
use crate::text::{join, joined};
use vstd::prelude::*;
use vstd::string::StringExecFns;

verus! {

/// How the command goes on once the calendars are listed.
#[derive(Debug, PartialEq, Eq)]
pub enum Next {
    /// Answer with this text.
    Reply(String),
    /// Create a calendar with this summary.
    Create { summary: String },
}

/// A [`Next`] as contracts speak of it.
pub ghost enum NextView {
    Reply(Seq<char>),
    Create { summary: Seq<char> },
}

impl View for Next {
    type V = NextView;

    open spec fn view(&self) -> NextView {
        match self {
            Next::Reply(reply) => NextView::Reply(reply@),
            Next::Create { summary } => NextView::Create { summary: summary@ },
        }
    }
}

/// The addresses of `calendars`, in their order.
pub open spec fn urls(calendars: Seq<CalendarView>) -> Seq<Seq<char>> {
    calendars.map_values(|calendar: CalendarView| calendar_url(calendar.id))
}

/// How the command goes on for the server `guild_id` once the calendars are
/// listed: without a client, or if they could not be listed, it answers so;
/// if the server has calendars it answers with their addresses; otherwise a
/// calendar with the server's summary is created.
pub open spec fn next(guild_id: u64, calendars: Option<Result<Seq<CalendarView>, ErrorView>>)
    -> NextView {
    match calendars {
        None => NextView::Reply("An error occurred: no calendar client found"@),
        Some(Err(error)) => NextView::Reply(failure(error)),
        Some(Ok(calendars)) => {
            let owned = calendars.filter(owned_by(guild_id));
            if owned.len() > 0 {
                NextView::Reply("A calendar already exists: "@ + joined(urls(owned), ", "@))
            } else {
                NextView::Create { summary: summary_of(guild_id) }
            }
        },
    }
}

/// The answer once the calendar is created, or could not be.
pub open spec fn answer(created: Result<(), ErrorView>) -> Seq<char> {
    match created {
        Ok(()) => "Created the calendar! `/list_events` to get the url"@,
        Err(error) => failure(error),
    }
}

/// Decides how the command goes on for the server `guild_id`, given all
/// calendars, or why they could not be listed, or nothing where there is no
/// calendar client.
pub fn run(guild_id: u64, calendars: Option<Result<Vec<Calendar>, Error>>) -> (step: Next)
    ensures
        step@ == next(guild_id, listing_view(calendars)),
{
    match calendars {
        None => Next::Reply(String::from_str("An error occurred: no calendar client found")),
        Some(Err(error)) => Next::Reply(failure_reply(&error)),
        Some(Ok(calendars)) => {
            let owned = calendars_by_guild_id(calendars, guild_id);
            if owned.len() > 0 {
                let mut addresses: Vec<String> = Vec::new();
                let mut i: usize = 0;
                while i < owned.len()
                    invariant
                        i <= owned.len(),
                        addresses.deep_view() == urls(owned.deep_view().take(i as int)),
                    decreases owned.len() - i,
                {
                    let ghost before = addresses.deep_view();
                    addresses.push(get_calendar_url(owned[i].id.as_str()));
                    assert(addresses.deep_view() == before.push(calendar_url(owned[i as int]@.id)));
                    assert(owned.deep_view().take(i + 1) == owned.deep_view().take(i as int).push(
                        owned[i as int]@,
                    ));
                    i = i + 1;
                }
                assert(owned.deep_view().take(owned.len() as int) == owned.deep_view());
                let mut reply = String::from_str("A calendar already exists: ");
                let listed = join(&addresses, ", ");
                reply.append(listed.as_str());
                Next::Reply(reply)
            } else {
                Next::Create { summary: guild_summary(guild_id) }
            }
        },
    }
}

/// The answer once the calendar is created, or could not be.
pub fn finish(created: Result<(), Error>) -> (reply: String)
    ensures
        reply@ == answer(done_view(created)),
{
    match created {
        Ok(()) => String::from_str("Created the calendar! `/list_events` to get the url"),
        Err(error) => failure_reply(&error),
    }
}

/// The command as the chat service is told of it.
pub open spec fn registration() -> CommandSpecView {
    CommandSpecView {
        name: "create_calendar"@,
        description: "Create a new event calendar for the server, removing the old"@,
        options: Seq::empty(),
        admin_only: true,
    }
}

/// The command as the chat service is told of it.
pub fn register() -> (command: CommandSpec)
    ensures
        command@ == registration(),
{
    let command = CommandSpec {
        name: String::from_str("create_calendar"),
        description: String::from_str(
            "Create a new event calendar for the server, removing the old",
        ),
        options: Vec::new(),
        admin_only: true,
    };
    assert(command@.options =~= Seq::empty());
    command
}

} // verus!
