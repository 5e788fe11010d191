//! Which server a calendar belongs to.
//!
//! A calendar carries the number of its server as its summary, written as a
//! decimal numeral.

use crate::error::{Error, ErrorView};
use crate::text::{decimal_text, lemma_numeral_round_trip, numeral, parse_u64, parsed_u64};
use vstd::prelude::*;
use vstd::string::StringExecFns;

verus! {

/// The server that a calendar with the given summary belongs to: the number
/// that the summary says, if it says one that fits 64 bits.
pub open spec fn guild_of(summary: Seq<char>) -> Option<u64> {
    parsed_u64(summary)
}

/// The summary of the calendars of the server `guild_id`.
pub open spec fn summary_of(guild_id: u64) -> Seq<char> {
    numeral(guild_id as nat)
}

/// Reads the number of the owning server from a calendar's summary. A summary
/// that is no such number is handed back in the error.
pub fn resolve_guild_id(summary: &str) -> (guild: Result<u64, Error>)
    ensures
        match guild_of(summary@) {
            Some(guild_id) => guild == Ok::<u64, Error>(guild_id),
            None => guild matches Err(error) && error@
                == ErrorView::CalendarSummaryNotDiscordServerId(summary@),
        },
{
    match parse_u64(summary) {
        Some(guild_id) => Ok(guild_id),
        None => Err(Error::CalendarSummaryNotDiscordServerId(String::from_str(summary))),
    }
}

/// The summary to give a calendar of the server `guild_id`.
pub fn guild_summary(guild_id: u64) -> (summary: String)
    ensures
        summary@ == summary_of(guild_id),
{
    decimal_text(guild_id)
}

/// A server's number written as a summary is read back as that number.
pub proof fn lemma_summary_round_trip(guild_id: u64)
    ensures
        guild_of(summary_of(guild_id)) == Some(guild_id),
{
    lemma_numeral_round_trip(guild_id);
}

} // verus!
