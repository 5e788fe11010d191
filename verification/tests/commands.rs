use discalen::calendar::{Calendar, Event, EventStart};
use discalen::date::CalendarDate;
use discalen::discord::commands::{
    chosen_calendar_id, create_calendar, create_event, delete_calendar, delete_event,
    failure_reply, list_events, set_event_channel, text_option, CommandSpec, OptionSpec,
    OptionValue,
};
use discalen::discord::handler::{Arrival, Command, Dispatch, Handler};
use discalen::error::Error;

fn day(year: i32, month: u32, day: u32) -> CalendarDate {
    CalendarDate::new(year, month, day).expect("a day of the calendar")
}

fn cal(id: &str, summary: &str) -> Calendar {
    Calendar { id: id.to_string(), summary: summary.to_string() }
}

fn ev(id: &str, summary: Option<&str>, start: EventStart) -> Event {
    Event { id: id.to_string(), summary: summary.map(|label| label.to_string()), start }
}

fn text(value: &str) -> OptionValue {
    OptionValue::Text(value.to_string())
}

fn google(why: &str) -> Error {
    Error::GoogleError(why.to_string())
}

fn label_option() -> OptionSpec {
    OptionSpec {
        name: "label".to_string(),
        description: "The label of the event".to_string(),
        required: true,
    }
}

#[test]
fn text_option_reads_only_text_that_is_there() {
    let options = vec![text("a"), OptionValue::Other, text("c")];
    assert_eq!(text_option(&options, 0), Some(&"a".to_string()));
    assert_eq!(text_option(&options, 1), None);
    assert_eq!(text_option(&options, 2), Some(&"c".to_string()));
    assert_eq!(text_option(&options, 3), None);
    assert_eq!(text_option(&vec![], 0), None);
}

#[test]
fn failure_reply_carries_the_message_of_the_error() {
    assert_eq!(failure_reply(&google("quota exceeded")), "An error occurred: quota exceeded");
    assert_eq!(failure_reply(&Error::NoPool), "An error occurred: No pool in data");
}

#[test]
fn chosen_calendar_is_the_last_of_the_server() {
    assert_eq!(chosen_calendar_id(vec![]), None);
    assert_eq!(chosen_calendar_id(vec![cal("a", "1")]), Some("a".to_string()));
    assert_eq!(chosen_calendar_id(vec![cal("a", "1"), cal("b", "1")]), Some("b".to_string()));
}

#[test]
fn create_calendar_creates_one_where_the_server_has_none() {
    let others = vec![cal("a", "7"), cal("b", "420")];
    assert_eq!(
        create_calendar::run(42, Some(Ok(others))),
        create_calendar::Next::Create { summary: "42".to_string() }
    );
    assert_eq!(
        create_calendar::run(42, Some(Ok(vec![]))),
        create_calendar::Next::Create { summary: "42".to_string() }
    );
    assert_eq!(
        create_calendar::finish(Ok(())),
        "Created the calendar! `/list_events` to get the url"
    );
    assert_eq!(create_calendar::finish(Err(google("denied"))), "An error occurred: denied");
}

#[test]
fn create_calendar_shows_the_calendars_that_exist() {
    assert_eq!(
        create_calendar::run(42, Some(Ok(vec![cal("a", "42"), cal("b", "7"), cal("c", "42")]))),
        create_calendar::Next::Reply(
            "A calendar already exists: https://calendar.google.com/calendar/u/0?cid=a, \
             https://calendar.google.com/calendar/u/0?cid=c"
                .to_string()
        )
    );
    assert_eq!(
        create_calendar::run(7, Some(Ok(vec![cal("b", "7")]))),
        create_calendar::Next::Reply(
            "A calendar already exists: https://calendar.google.com/calendar/u/0?cid=b".to_string()
        )
    );
}

#[test]
fn create_calendar_answers_when_it_cannot_list() {
    assert_eq!(
        create_calendar::run(42, None),
        create_calendar::Next::Reply("An error occurred: no calendar client found".to_string())
    );
    assert_eq!(
        create_calendar::run(42, Some(Err(google("down")))),
        create_calendar::Next::Reply("An error occurred: down".to_string())
    );
}

#[test]
fn delete_calendar_deletes_every_calendar_of_the_server() {
    assert_eq!(
        delete_calendar::run(42, Ok(vec![cal("a", "42"), cal("b", "7"), cal("c", "42")])),
        delete_calendar::Next::Delete { calendar_ids: vec!["a".to_string(), "c".to_string()] }
    );
    assert_eq!(
        delete_calendar::run(42, Ok(vec![cal("b", "7")])),
        delete_calendar::Next::Delete { calendar_ids: vec![] }
    );
    assert_eq!(
        delete_calendar::run(42, Err(google("down"))),
        delete_calendar::Next::Reply("An error occurred: down".to_string())
    );
    assert_eq!(delete_calendar::finish(), "Deleted calendars!");
}

#[test]
fn set_event_channel_answers_with_the_outcome() {
    assert_eq!(
        set_event_channel::run(Ok(())),
        "The channel is set as the event channel for the server!"
    );
    assert_eq!(
        set_event_channel::run(Err(Error::DbError("connection refused".to_string()))),
        "Failed to set event channel: connection refused"
    );
}

#[test]
fn list_events_fetches_the_events_of_the_last_calendar_of_the_server() {
    assert_eq!(
        list_events::run(42, Some(Ok(vec![cal("a", "42"), cal("b", "7"), cal("c", "42")]))),
        Ok(list_events::Next::List { calendar_id: "c".to_string() })
    );
    assert_eq!(
        list_events::run(42, Some(Ok(vec![cal("b", "7")]))),
        Ok(list_events::Next::Reply(
            "No calendar found for the server! Create a new one using `/create_calendar`"
                .to_string()
        ))
    );
    assert_eq!(list_events::run(42, None), Err(Error::NoCalendarClient));
    assert_eq!(list_events::run(42, Some(Err(google("down")))), Err(google("down")));
}

#[test]
fn list_events_shows_label_and_day_of_each_event() {
    let events = vec![
        ev("1", Some("Anniversary"), EventStart::On(day(2024, 5, 1))),
        ev("2", None, EventStart::On(day(2024, 12, 24))),
        ev("3", Some("Meeting"), EventStart::Undated),
        ev("4", Some("Ghost"), EventStart::Missing),
        ev("5", None, EventStart::Missing),
    ];
    assert_eq!(
        list_events::finish("cal-1", Ok(events)),
        Ok("Events:\nAnniversary: 2024-05-01\nNo label: 2024-12-24\nMeeting: No date\n\
            Ghost: No start\nNo label: No start\n\
            Calendar: https://calendar.google.com/calendar/u/0?cid=cal-1"
            .to_string())
    );
    assert_eq!(
        list_events::finish("cal-1", Ok(vec![])),
        Ok("Events:\n\nCalendar: https://calendar.google.com/calendar/u/0?cid=cal-1".to_string())
    );
    assert_eq!(list_events::finish("cal-1", Err(google("down"))), Err(google("down")));
}

#[test]
fn create_event_needs_a_label() {
    let required = Some(create_event::Start::Reply("The *label* parameter is required".to_string()));
    assert_eq!(create_event::run(&vec![], day(2024, 5, 1)), required);
    assert_eq!(create_event::run(&vec![OptionValue::Other, text("05-01")], day(2024, 5, 1)), required);
}

#[test]
fn create_event_without_a_date_is_of_today() {
    let expected = create_event::EventDraft {
        summary: "Party".to_string(),
        start: day(2024, 2, 29),
        end: day(2024, 3, 1),
        recurrence: vec!["RRULE:FREQ=YEARLY".to_string()],
    };
    assert_eq!(
        create_event::run(&vec![text("Party")], day(2024, 2, 29)),
        Some(create_event::Start::Draft(expected.clone()))
    );
    assert_eq!(
        create_event::run(&vec![text("Party"), OptionValue::Other], day(2024, 2, 29)),
        Some(create_event::Start::Draft(expected))
    );
}

#[test]
fn create_event_reads_month_and_day_in_the_year_of_today() {
    assert_eq!(
        create_event::run(&vec![text("Party"), text("12-31")], day(2024, 5, 1)),
        Some(create_event::Start::Draft(create_event::EventDraft {
            summary: "Party".to_string(),
            start: day(2024, 12, 31),
            end: day(2025, 1, 1),
            recurrence: vec!["RRULE:FREQ=YEARLY".to_string()],
        }))
    );
    assert_eq!(
        create_event::run(&vec![text("Leap"), text("02-29")], day(2024, 5, 1)),
        Some(create_event::Start::Draft(create_event::EventDraft {
            summary: "Leap".to_string(),
            start: day(2024, 2, 29),
            end: day(2024, 3, 1),
            recurrence: vec!["RRULE:FREQ=YEARLY".to_string()],
        }))
    );
    assert_eq!(
        create_event::run(&vec![text("Old"), text("3-4")], day(987, 5, 1)),
        Some(create_event::Start::Draft(create_event::EventDraft {
            summary: "Old".to_string(),
            start: day(987, 3, 4),
            end: day(987, 3, 5),
            recurrence: vec!["RRULE:FREQ=YEARLY".to_string()],
        }))
    );
}

#[test]
fn create_event_refuses_a_date_that_cannot_be_read() {
    let refused = |why: &str| {
        Some(create_event::Start::Reply(format!(
            "Failed to parse date: {why}. Date format is MM-DD"
        )))
    };
    let today = day(2023, 5, 1);
    assert_eq!(
        create_event::run(&vec![text("x"), text("02-29")], today),
        refused("input is out of range")
    );
    assert_eq!(
        create_event::run(&vec![text("x"), text("13-01")], today),
        refused("input is out of range")
    );
    assert_eq!(
        create_event::run(&vec![text("x"), text("May 1st")], today),
        refused("input contains invalid characters")
    );
    assert_eq!(
        create_event::run(&vec![text("x"), text("05")], today),
        refused("premature end of input")
    );
    assert_eq!(
        create_event::run(&vec![text("x"), text("")], today),
        refused("premature end of input")
    );
    assert_eq!(
        create_event::run(&vec![text("x"), text("05-01-2023")], today),
        refused("trailing input")
    );
}

#[test]
fn create_event_draft_takes_the_date_as_it_was_read() {
    assert_eq!(
        create_event::draft("Party", Err("no such day".to_string())),
        Some(create_event::Start::Reply(
            "Failed to parse date: no such day. Date format is MM-DD".to_string()
        ))
    );
    assert_eq!(
        create_event::draft("Party", Ok(day(2023, 12, 31))),
        Some(create_event::Start::Draft(create_event::EventDraft {
            summary: "Party".to_string(),
            start: day(2023, 12, 31),
            end: day(2024, 1, 1),
            recurrence: vec!["RRULE:FREQ=YEARLY".to_string()],
        }))
    );
}

#[test]
fn create_event_on_the_last_day_of_all_is_nothing() {
    assert_eq!(create_event::draft("End", Ok(day(262142, 12, 31))), None);
    assert_eq!(create_event::run(&vec![text("End")], day(262142, 12, 31)), None);
}

#[test]
fn create_event_reads_no_date_in_a_year_of_five_digits() {
    assert_eq!(
        create_event::run(&vec![text("Far"), text("12-31")], day(10000, 1, 1)),
        Some(create_event::Start::Reply(
            "Failed to parse date: input contains invalid characters. Date format is MM-DD"
                .to_string()
        ))
    );
}

#[test]
fn create_event_goes_to_the_last_calendar_of_the_server() {
    let draft = create_event::EventDraft {
        summary: "Party".to_string(),
        start: day(2024, 5, 1),
        end: day(2024, 5, 2),
        recurrence: vec!["RRULE:FREQ=YEARLY".to_string()],
    };
    assert_eq!(
        create_event::place(42, Some(Ok(vec![cal("a", "42"), cal("b", "42"), cal("c", "1")])), draft.clone()),
        create_event::Next::Create { calendar_id: "b".to_string(), event: draft.clone() }
    );
    assert_eq!(
        create_event::place(42, Some(Ok(vec![cal("c", "1")])), draft.clone()),
        create_event::Next::Reply(
            "No calendar for the server, create a new one! `/create_calendar`".to_string()
        )
    );
    assert_eq!(
        create_event::place(42, None, draft.clone()),
        create_event::Next::Reply("An error occurred: no calendar client".to_string())
    );
    assert_eq!(
        create_event::place(42, Some(Err(google("down"))), draft),
        create_event::Next::Reply("An error occurred: down".to_string())
    );
}

#[test]
fn create_event_answers_with_label_and_day() {
    assert_eq!(
        create_event::finish("Party", day(2024, 5, 1), Ok(())),
        "The event \"Party\" was created successfully! Date: 2024-05-01"
    );
    assert_eq!(
        create_event::finish("Party", day(2024, 5, 1), Err(google("denied"))),
        "An error occurred: denied"
    );
}

#[test]
fn delete_event_needs_a_label() {
    assert_eq!(delete_event::run(&vec![text("Party")]), Ok("Party".to_string()));
    assert_eq!(
        delete_event::run(&vec![]),
        Err("The *label* parameter is required".to_string())
    );
    assert_eq!(
        delete_event::run(&vec![OptionValue::Other]),
        Err("The *label* parameter is required".to_string())
    );
}

#[test]
fn delete_event_looks_in_the_last_calendar_of_the_server() {
    assert_eq!(
        delete_event::locate(42, Some(Ok(vec![cal("a", "42"), cal("b", "42"), cal("c", "1")]))),
        delete_event::Next::List { calendar_id: "b".to_string() }
    );
    assert_eq!(
        delete_event::locate(42, Some(Ok(vec![]))),
        delete_event::Next::Reply(
            "No calendar for the server, create a new one! `/create_calendar`".to_string()
        )
    );
    assert_eq!(
        delete_event::locate(42, None),
        delete_event::Next::Reply("An error occurred: no calendar client".to_string())
    );
    assert_eq!(
        delete_event::locate(42, Some(Err(google("down")))),
        delete_event::Next::Reply("An error occurred: down".to_string())
    );
}

#[test]
fn delete_event_deletes_the_events_with_the_label() {
    let events = vec![
        ev("1", Some("Party"), EventStart::Missing),
        ev("2", Some("Feast"), EventStart::Missing),
        ev("3", Some("Party"), EventStart::Undated),
        ev("4", None, EventStart::Missing),
    ];
    assert_eq!(
        delete_event::select("Party", Ok(events.clone())),
        delete_event::Pick::Delete { event_ids: vec!["1".to_string(), "3".to_string()] }
    );
    assert_eq!(
        delete_event::select("Nothing", Ok(events)),
        delete_event::Pick::Delete { event_ids: vec![] }
    );
    assert_eq!(
        delete_event::select("Party", Err(google("down"))),
        delete_event::Pick::Reply("An error occurred: down".to_string())
    );
    assert_eq!(delete_event::finish(0), "Deleted 0 events from the calendar!");
    assert_eq!(delete_event::finish(2), "Deleted 2 events from the calendar!");
    assert_eq!(delete_event::finish(120), "Deleted 120 events from the calendar!");
}

#[test]
fn commands_are_registered_under_their_names() {
    let admin = |name: &str, description: &str, options: Vec<OptionSpec>| CommandSpec {
        name: name.to_string(),
        description: description.to_string(),
        options,
        admin_only: true,
    };
    assert_eq!(
        create_calendar::register(),
        admin(
            "create_calendar",
            "Create a new event calendar for the server, removing the old",
            vec![]
        )
    );
    assert_eq!(
        delete_calendar::register(),
        admin("delete_calendar", "Delete the event calendar associated with the server", vec![])
    );
    assert_eq!(
        set_event_channel::register(),
        admin(
            "set_event_channel",
            "The channel will be receiving notifications about any current events",
            vec![]
        )
    );
    assert_eq!(
        list_events::register(),
        CommandSpec {
            name: "list_events".to_string(),
            description: "List all the events on the server".to_string(),
            options: vec![],
            admin_only: false,
        }
    );
    assert_eq!(
        create_event::register(),
        admin(
            "create_event",
            "Create an event with a label on a specific date",
            vec![
                label_option(),
                OptionSpec {
                    name: "date".to_string(),
                    description: "The date of the event using the MM-DD format. Default is today"
                        .to_string(),
                    required: false,
                },
            ]
        )
    );
    assert_eq!(
        delete_event::register(),
        admin("delete_event", "Delete events with the specified label", vec![label_option()])
    );
}

#[test]
fn handler_routes_every_announced_command_to_itself() {
    let commands = Handler::commands();
    assert_eq!(
        commands,
        vec![
            Command::Ping,
            Command::CreateCalendar,
            Command::DeleteCalendar,
            Command::SetEventChannel,
            Command::ListEvents,
            Command::CreateEvent,
            Command::DeleteEvent,
        ]
    );
    for command in commands {
        assert_eq!(Handler::route(command.name()), Some(command));
    }
    assert_eq!(Handler::route("create_event"), Some(Command::CreateEvent));
    assert_eq!(Handler::route("ping"), Some(Command::Ping));
    assert_eq!(Handler::route("pong"), None);
    assert_eq!(Handler::route(""), None);
    assert_eq!(Handler::route("Ping"), None);
    assert_eq!(Handler::route("create_events"), None);
}

#[test]
fn handler_names_agree_with_the_registrations() {
    assert_eq!(Command::CreateCalendar.name(), create_calendar::register().name);
    assert_eq!(Command::DeleteCalendar.name(), delete_calendar::register().name);
    assert_eq!(Command::SetEventChannel.name(), set_event_channel::register().name);
    assert_eq!(Command::ListEvents.name(), list_events::register().name);
    assert_eq!(Command::CreateEvent.name(), create_event::register().name);
    assert_eq!(Command::DeleteEvent.name(), delete_event::register().name);
}

#[test]
fn handler_drops_calls_from_outside_a_server_and_answers_unknown_names() {
    assert_eq!(Handler::interaction_create(None, "ping"), Dispatch::Cancel);
    assert_eq!(Handler::interaction_create(None, "nothing"), Dispatch::Cancel);
    assert_eq!(
        Handler::interaction_create(Some(42), "list_events"),
        Dispatch::Run(Command::ListEvents)
    );
    assert_eq!(
        Handler::interaction_create(Some(42), "nothing"),
        Dispatch::Reply("not implemented".to_string())
    );
}

#[test]
fn handler_sets_up_only_servers_that_are_new() {
    assert_eq!(Handler::guild_create(None), Arrival::Unknown);
    assert_eq!(Handler::guild_create(Some(false)), Arrival::Known);
    assert_eq!(Handler::guild_create(Some(true)), Arrival::New);
}
