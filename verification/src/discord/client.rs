//! How servers and channels are written down in the table of event channels.

use crate::text::{decimal_text, numeral, parse_u64, parsed_u64};
use vstd::prelude::*;

verus! {

/// The text under which the table holds a server or a channel: the decimal
/// numeral of its number.
pub fn record_of(id: u64) -> (record: String)
    ensures
        record@ == numeral(id as nat),
{
    decimal_text(id)
}

/// The channel that a row of the table names, if there is a row and it holds
/// the number of a channel.
pub open spec fn channel_of(row: Option<Seq<char>>) -> Option<u64> {
    match row {
        Some(record) => parsed_u64(record),
        None => None,
    }
}

/// Reads the channel of a server from the row found for it. No row, or a row
/// that holds no number, means that the server has no event channel.
pub fn event_channel_id(row: Option<&str>) -> (channel: Option<u64>)
    ensures
        channel == channel_of(
            match row {
                Some(record) => Some(record@),
                None => None,
            },
        ),
{
    match row {
        Some(record) => parse_u64(record),
        None => None,
    }
}

/// A channel that was written to the table is read back from it.
pub proof fn lemma_record_round_trip(channel_id: u64)
    ensures
        channel_of(Some(numeral(channel_id as nat))) == Some(channel_id),
{
    crate::text::lemma_numeral_round_trip(channel_id);
}

} // verus!
