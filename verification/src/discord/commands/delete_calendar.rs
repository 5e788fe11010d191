//! The command that takes a server's calendars away.

use crate::calendar::{
    calendars_by_guild_id, calendars_view, owned_by, Calendar, CalendarView,
};
use crate::discord::commands::{failure, failure_reply, CommandSpec, CommandSpecView};
use crate::error::{Error, ErrorView};
use vstd::prelude::*;
use vstd::string::StringExecFns;

verus! {

/// How the command goes on once the calendars are listed.
#[derive(Debug, PartialEq, Eq)]
pub enum Next {
    /// Answer with this text.
    Reply(String),
    /// Delete the calendars with these handles, all at once.
    Delete { calendar_ids: Vec<String> },
}

/// A [`Next`] as contracts speak of it.
pub ghost enum NextView {
    Reply(Seq<char>),
    Delete { calendar_ids: Seq<Seq<char>> },
}

impl View for Next {
    type V = NextView;

    open spec fn view(&self) -> NextView {
        match self {
            Next::Reply(reply) => NextView::Reply(reply@),
            Next::Delete { calendar_ids } => NextView::Delete {
                calendar_ids: calendar_ids.deep_view(),
            },
        }
    }
}

/// How the command goes on for the server `guild_id` once the calendars are
/// listed: if they could not be listed it answers so; otherwise all calendars
/// of the server are deleted.
pub open spec fn next(guild_id: u64, calendars: Result<Seq<CalendarView>, ErrorView>) -> NextView {
    match calendars {
        Err(error) => NextView::Reply(failure(error)),
        Ok(calendars) => NextView::Delete {
            calendar_ids: calendars.filter(owned_by(guild_id)).map_values(
                |calendar: CalendarView| calendar.id,
            ),
        },
    }
}

/// The answer once the calendars were asked to be deleted.
pub open spec fn answer() -> Seq<char> {
    "Deleted calendars!"@
}

/// Decides how the command goes on for the server `guild_id`, given all
/// calendars, or why they could not be listed.
pub fn run(guild_id: u64, calendars: Result<Vec<Calendar>, Error>) -> (step: Next)
    ensures
        step@ == next(guild_id, calendars_view(calendars)),
{
    match calendars {
        Err(error) => Next::Reply(failure_reply(&error)),
        Ok(calendars) => {
            let owned = calendars_by_guild_id(calendars, guild_id);
            let ghost all = owned.deep_view();
            let ghost id_of = |calendar: CalendarView| calendar.id;
            let mut calendar_ids: Vec<String> = Vec::new();
            for calendar in it: owned.into_iter()
                invariant
                    it.seq().len() == all.len(),
                    forall|i: int| 0 <= i < all.len() ==> (#[trigger] it.seq()[i])@ == all[i],
                    id_of == |calendar: CalendarView| calendar.id,
                    calendar_ids.deep_view() == all.take(it.index() as int).map_values(id_of),
            {
                let ghost before = calendar_ids.deep_view();
                let ghost i = it.index() as int;
                calendar_ids.push(calendar.id);
                assert(calendar_ids.deep_view() == before.push(calendar@.id));
                assert(all.take(i + 1) == all.take(i).push(calendar@));
            }
            assert(all.take(all.len() as int) == all);
            Next::Delete { calendar_ids }
        },
    }
}

/// The answer once the calendars were asked to be deleted, whether or not
/// each deletion succeeded.
pub fn finish() -> (reply: String)
    ensures
        reply@ == answer(),
{
    String::from_str("Deleted calendars!")
}

/// The command as the chat service is told of it.
pub open spec fn registration() -> CommandSpecView {
    CommandSpecView {
        name: "delete_calendar"@,
        description: "Delete the event calendar associated with the server"@,
        options: Seq::empty(),
        admin_only: true,
    }
}

/// The command as the chat service is told of it.
pub fn register() -> (command: CommandSpec)
    ensures
        command@ == registration(),
{
    let command = CommandSpec {
        name: String::from_str("delete_calendar"),
        description: String::from_str("Delete the event calendar associated with the server"),
        options: Vec::new(),
        admin_only: true,
    };
    assert(command@.options =~= Seq::empty());
    command
}

} // verus!
