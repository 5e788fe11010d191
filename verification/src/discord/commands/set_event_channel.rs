//! The command that makes the channel it is given in the event channel of
//! the server.

use crate::discord::commands::{done_view, CommandSpec, CommandSpecView};
use crate::error::{Error, ErrorView};
use vstd::prelude::*;
use vstd::string::StringExecFns;

verus! {

/// The answer once the channel is written to the table, or could not be.
pub open spec fn answer(set: Result<(), ErrorView>) -> Seq<char> {
    match set {
        Ok(()) => "The channel is set as the event channel for the server!"@,
        Err(error) => "Failed to set event channel: "@ + error.message(),
    }
}

/// The answer once the channel is written to the table, or could not be.
pub fn run(set: Result<(), Error>) -> (reply: String)
    ensures
        reply@ == answer(done_view(set)),
{
    match set {
        Ok(()) => String::from_str("The channel is set as the event channel for the server!"),
        Err(error) => {
            let mut reply = String::from_str("Failed to set event channel: ");
            let why = error.message();
            reply.append(why.as_str());
            reply
        },
    }
}

/// The command as the chat service is told of it.
pub open spec fn registration() -> CommandSpecView {
    CommandSpecView {
        name: "set_event_channel"@,
        description: "The channel will be receiving notifications about any current events"@,
        options: Seq::empty(),
        admin_only: true,
    }
}

/// The command as the chat service is told of it.
pub fn register() -> (command: CommandSpec)
    ensures
        command@ == registration(),
{
    let command = CommandSpec {
        name: String::from_str("set_event_channel"),
        description: String::from_str(
            "The channel will be receiving notifications about any current events",
        ),
        options: Vec::new(),
        admin_only: true,
    };
    assert(command@.options =~= Seq::empty());
    command
}

} // verus!
