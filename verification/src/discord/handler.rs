//! The gateway events the bot answers, and which command answers which name.

use crate::text::same_text;
use vstd::prelude::*;
use vstd::string::StringExecFns;

verus! {

/// A command of the bot.
#[derive(Clone, Copy, Debug, PartialEq, Eq, Structural)]
pub enum Command {
    Ping,
    CreateCalendar,
    DeleteCalendar,
    SetEventChannel,
    ListEvents,
    CreateEvent,
    DeleteEvent,
}

impl Command {
    /// The name under which the command is called.
    pub open spec fn spec_name(self) -> Seq<char> {
        match self {
            Command::Ping => "ping"@,
            Command::CreateCalendar => "create_calendar"@,
            Command::DeleteCalendar => "delete_calendar"@,
            Command::SetEventChannel => "set_event_channel"@,
            Command::ListEvents => "list_events"@,
            Command::CreateEvent => "create_event"@,
            Command::DeleteEvent => "delete_event"@,
        }
    }

    /// The name under which the command is called.
    pub fn name(self) -> (name: &'static str)
        ensures
            name@ == self.spec_name(),
    {
        match self {
            Command::Ping => "ping",
            Command::CreateCalendar => "create_calendar",
            Command::DeleteCalendar => "delete_calendar",
            Command::SetEventChannel => "set_event_channel",
            Command::ListEvents => "list_events",
            Command::CreateEvent => "create_event",
            Command::DeleteEvent => "delete_event",
        }
    }
}

/// The command that is called `name`, if there is one.
pub open spec fn named(name: Seq<char>) -> Option<Command> {
    if name == Command::Ping.spec_name() {
        Some(Command::Ping)
    } else if name == Command::CreateCalendar.spec_name() {
        Some(Command::CreateCalendar)
    } else if name == Command::DeleteCalendar.spec_name() {
        Some(Command::DeleteCalendar)
    } else if name == Command::SetEventChannel.spec_name() {
        Some(Command::SetEventChannel)
    } else if name == Command::ListEvents.spec_name() {
        Some(Command::ListEvents)
    } else if name == Command::CreateEvent.spec_name() {
        Some(Command::CreateEvent)
    } else if name == Command::DeleteEvent.spec_name() {
        Some(Command::DeleteEvent)
    } else {
        None
    }
}

/// The commands that are announced to every server, in the order in which
/// they are announced.
pub open spec fn announced() -> Seq<Command> {
    seq![
        Command::Ping,
        Command::CreateCalendar,
        Command::DeleteCalendar,
        Command::SetEventChannel,
        Command::ListEvents,
        Command::CreateEvent,
        Command::DeleteEvent,
    ]
}

/// What is to be done when a server comes into view.
#[derive(Clone, Copy, Debug, PartialEq, Eq, Structural)]
pub enum Arrival {
    /// It is not known whether the server is new, because nothing is cached:
    /// warn, and do nothing.
    Unknown,
    /// The server was known before: nothing.
    Known,
    /// The server is new: create its calendar and announce the commands.
    New,
}

/// What is to be done about a command that was called.
#[derive(Debug, PartialEq, Eq)]
pub enum Dispatch {
    /// The command was called outside of any server: drop it.
    Cancel,
    /// Run this command.
    Run(Command),
    /// Answer with this text.
    Reply(String),
}

/// A [`Dispatch`] as contracts speak of it.
pub ghost enum DispatchView {
    Cancel,
    Run(Command),
    Reply(Seq<char>),
}

impl View for Dispatch {
    type V = DispatchView;

    open spec fn view(&self) -> DispatchView {
        match self {
            Dispatch::Cancel => DispatchView::Cancel,
            Dispatch::Run(command) => DispatchView::Run(*command),
            Dispatch::Reply(reply) => DispatchView::Reply(reply@),
        }
    }
}

/// What is to be done about a call of `name` from the server `guild_id`:
/// without a server the call is dropped; a name that no command has is
/// answered so; otherwise the command of that name runs.
pub open spec fn dispatched(guild_id: Option<u64>, name: Seq<char>) -> DispatchView {
    match guild_id {
        None => DispatchView::Cancel,
        Some(_) => match named(name) {
            Some(command) => DispatchView::Run(command),
            None => DispatchView::Reply("not implemented"@),
        },
    }
}

/// Answers the gateway events of the chat service.
#[derive(Debug)]
pub struct Handler;

impl Handler {
    /// The command that is called `name`, if there is one.
    pub fn route(name: &str) -> (command: Option<Command>)
        ensures
            command == named(name@),
    {
        if same_text(name, Command::Ping.name()) {
            Some(Command::Ping)
        } else if same_text(name, Command::CreateCalendar.name()) {
            Some(Command::CreateCalendar)
        } else if same_text(name, Command::DeleteCalendar.name()) {
            Some(Command::DeleteCalendar)
        } else if same_text(name, Command::SetEventChannel.name()) {
            Some(Command::SetEventChannel)
        } else if same_text(name, Command::ListEvents.name()) {
            Some(Command::ListEvents)
        } else if same_text(name, Command::CreateEvent.name()) {
            Some(Command::CreateEvent)
        } else if same_text(name, Command::DeleteEvent.name()) {
            Some(Command::DeleteEvent)
        } else {
            None
        }
    }

    /// The commands that are announced to every server, in the order in
    /// which they are announced.
    pub fn commands() -> (commands: Vec<Command>)
        ensures
            commands@ == announced(),
    {
        let mut commands: Vec<Command> = Vec::new();
        commands.push(Command::Ping);
        commands.push(Command::CreateCalendar);
        commands.push(Command::DeleteCalendar);
        commands.push(Command::SetEventChannel);
        commands.push(Command::ListEvents);
        commands.push(Command::CreateEvent);
        commands.push(Command::DeleteEvent);
        assert(commands@ =~= announced());
        commands
    }

    /// What is to be done when a server comes into view; `is_new` says
    /// whether it is new, if that is known.
    pub fn guild_create(is_new: Option<bool>) -> (arrival: Arrival)
        ensures
            arrival == match is_new {
                None => Arrival::Unknown,
                Some(true) => Arrival::New,
                Some(false) => Arrival::Known,
            },
    {
        match is_new {
            None => Arrival::Unknown,
            Some(true) => Arrival::New,
            Some(false) => Arrival::Known,
        }
    }

    /// What is to be done about a call of `name` from the server `guild_id`.
    pub fn interaction_create(guild_id: Option<u64>, name: &str) -> (dispatch: Dispatch)
        ensures
            dispatch@ == dispatched(guild_id, name@),
    {
        match guild_id {
            None => Dispatch::Cancel,
            Some(_) => match Handler::route(name) {
                Some(command) => Dispatch::Run(command),
                None => Dispatch::Reply(String::from_str("not implemented")),
            },
        }
    }
}

/// Every command is found under its own name, so no two commands share a
/// name, and every command that is announced to a server is answered when it
/// is called.
pub proof fn lemma_commands_answer_to_their_names(command: Command)
    ensures
        named(command.spec_name()) == Some(command),
        announced().contains(command),
{
    reveal_strlit("ping");
    reveal_strlit("create_calendar");
    reveal_strlit("delete_calendar");
    reveal_strlit("set_event_channel");
    reveal_strlit("list_events");
    reveal_strlit("create_event");
    reveal_strlit("delete_event");
    assert("ping"@.len() == 4);
    assert("create_calendar"@.len() == 15);
    assert("delete_calendar"@.len() == 15);
    assert("set_event_channel"@.len() == 17);
    assert("list_events"@.len() == 11);
    assert("create_event"@.len() == 12);
    assert("delete_event"@.len() == 12);
    assert("create_calendar"@[0] == 'c' && "delete_calendar"@[0] == 'd');
    assert("create_event"@[0] == 'c' && "delete_event"@[0] == 'd');
    assert(announced()[0] == Command::Ping);
    assert(announced()[1] == Command::CreateCalendar);
    assert(announced()[2] == Command::DeleteCalendar);
    assert(announced()[3] == Command::SetEventChannel);
    assert(announced()[4] == Command::ListEvents);
    assert(announced()[5] == Command::CreateEvent);
    assert(announced()[6] == Command::DeleteEvent);
}

} // verus!
