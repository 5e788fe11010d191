use discalen::action::{Action, Report, Step};
use discalen::calendar::{Calendar, Event, EventStart};
use discalen::date::CalendarDate;
use discalen::error::Error;
use discalen::scheduler::{Outcome, Scheduler};
use discalen::sweep::{announcement_text, judge, Sweep, Verdict};

fn date(year: i32, month: u32, day: u32) -> CalendarDate {
    CalendarDate::new(year, month, day).expect("a day of the calendar")
}

fn today() -> CalendarDate {
    date(2024, 5, 1)
}

fn cal(id: &str, summary: &str) -> Calendar {
    Calendar { id: id.to_string(), summary: summary.to_string() }
}

fn ev(id: &str, summary: Option<&str>, start: EventStart) -> Event {
    Event { id: id.to_string(), summary: summary.map(|label| label.to_string()), start }
}

fn greeting(label: &str) -> String {
    format!("Today is {label}, have a nice celebration!ðŸŽ‰")
}

fn find(delivery: usize, guild_id: u64) -> Action<u64> {
    Action::FindChannel { delivery, guild_id }
}

#[test]
fn announcement_names_the_label_or_says_that_there_is_none() {
    assert_eq!(
        announcement_text(&Some("Anniversary".to_string())),
        "Today is Anniversary, have a nice celebration!ðŸŽ‰"
    );
    assert_eq!(announcement_text(&None), "Today is No label, have a nice celebration!ðŸŽ‰");
    assert_eq!(announcement_text(&Some(String::new())), "Today is , have a nice celebration!ðŸŽ‰");
}

#[test]
fn judge_announces_the_events_of_today() {
    let verdict = judge(&cal("c", "42"), &ev("e", Some("Party"), EventStart::On(today())), today());
    assert_eq!(verdict, Verdict::Announce { guild_id: 42, text: greeting("Party") });
    let verdict = judge(&cal("c", "42"), &ev("e", None, EventStart::On(today())), today());
    assert_eq!(verdict, Verdict::Announce { guild_id: 42, text: greeting("No label") });
}

#[test]
fn judge_passes_over_other_days_and_missing_dates() {
    let calendar = cal("c", "42");
    assert_eq!(
        judge(&calendar, &ev("e", Some("x"), EventStart::On(date(2024, 5, 2))), today()),
        Verdict::NotToday
    );
    assert_eq!(
        judge(&calendar, &ev("e", Some("x"), EventStart::On(date(2023, 5, 1))), today()),
        Verdict::NotToday
    );
    assert_eq!(judge(&calendar, &ev("e", Some("x"), EventStart::Undated), today()), Verdict::Undated);
    assert_eq!(judge(&calendar, &ev("e", Some("x"), EventStart::Missing), today()), Verdict::Undated);
}

#[test]
fn judge_reports_a_summary_that_names_no_server_only_for_events_of_today() {
    let calendar = cal("c", "my server");
    assert_eq!(
        judge(&calendar, &ev("e", Some("x"), EventStart::On(today())), today()),
        Verdict::Unowned(Error::CalendarSummaryNotDiscordServerId("my server".to_string()))
    );
    assert_eq!(
        judge(&calendar, &ev("e", Some("x"), EventStart::On(date(2024, 5, 2))), today()),
        Verdict::NotToday
    );
    assert_eq!(judge(&calendar, &ev("e", Some("x"), EventStart::Missing), today()), Verdict::Undated);
}

#[test]
fn begin_asks_for_the_events_of_every_calendar() {
    let (sweep, step): (Sweep, Step<u64>) = Sweep::begin(vec![cal("A", "1"), cal("B", "2")]);
    assert_eq!(
        step.actions,
        vec![
            Action::ListEvents { calendar: 0, calendar_id: "A".to_string() },
            Action::ListEvents { calendar: 1, calendar_id: "B".to_string() },
        ]
    );
    assert!(step.reports.is_empty());
    assert!(!sweep.is_complete());
}

#[test]
fn sweep_without_calendars_is_over_at_once() {
    let (sweep, step): (Sweep, Step<u64>) = Sweep::begin(vec![]);
    assert!(step.actions.is_empty());
    assert!(sweep.is_complete());
    let (state, _) = Scheduler::start::<u64>();
    let (state, step) = state.step::<u64>(Outcome::CalendarsListed(Ok(vec![])));
    assert_eq!(state, Scheduler::Sleeping);
    assert_eq!(step.actions, vec![Action::Sleep]);
    assert!(step.reports.is_empty());
}

#[test]
fn events_begin_deliveries_in_their_order_and_the_rest_is_reported() {
    let (sweep, _): (Sweep, Step<u64>) = Sweep::begin(vec![cal("A", "7")]);
    let events = vec![
        ev("e0", Some("zero"), EventStart::On(today())),
        ev("e1", Some("one"), EventStart::Missing),
        ev("e2", Some("two"), EventStart::On(date(2024, 5, 2))),
        ev("e3", None, EventStart::On(today())),
        ev("e4", Some("four"), EventStart::Undated),
    ];
    let (sweep, step) = sweep.events_listed::<u64>(0, today(), Ok(events));
    assert_eq!(step.actions, vec![find(0, 7), find(1, 7)]);
    assert_eq!(
        step.reports,
        vec![
            Report::NoStartDate { calendar_id: "A".to_string(), event_id: "e1".to_string() },
            Report::NoStartDate { calendar_id: "A".to_string(), event_id: "e4".to_string() },
        ]
    );
    assert!(step.reports.iter().all(|report| report.is_warning()));
    assert!(!sweep.is_complete());
    let (sweep, step) = sweep.channel_found(1, Ok(Some(900u64)));
    assert_eq!(
        step.actions,
        vec![Action::Send { delivery: 1, channel: 900, text: greeting("No label") }]
    );
    let (sweep, step) = sweep.channel_found(0, Ok(Some(900u64)));
    assert_eq!(step.actions, vec![Action::Send { delivery: 0, channel: 900, text: greeting("zero") }]);
    let (sweep, step) = sweep.sent::<u64>(0, Ok(()));
    assert_eq!(step, Step { actions: vec![], reports: vec![] });
    assert!(!sweep.is_complete());
    let (sweep, step) = sweep.sent::<u64>(1, Ok(()));
    assert_eq!(step, Step { actions: vec![], reports: vec![] });
    assert!(sweep.is_complete());
}

#[test]
fn summary_that_names_no_server_is_reported_for_each_event_of_today() {
    let (sweep, _): (Sweep, Step<u64>) = Sweep::begin(vec![cal("A", "guild")]);
    let events = vec![
        ev("e0", Some("zero"), EventStart::On(today())),
        ev("e1", Some("one"), EventStart::On(date(2024, 5, 2))),
        ev("e2", Some("two"), EventStart::On(today())),
    ];
    let (sweep, step) = sweep.events_listed::<u64>(0, today(), Ok(events));
    assert!(step.actions.is_empty());
    let failed = |event_id: &str| Report::NotAnnounced {
        calendar_id: "A".to_string(),
        event_id: event_id.to_string(),
        error: Error::CalendarSummaryNotDiscordServerId("guild".to_string()),
    };
    assert_eq!(step.reports, vec![failed("e0"), failed("e2")]);
    assert!(step.reports.iter().all(|report| !report.is_warning()));
    assert!(sweep.is_complete());
}

#[test]
fn deliveries_are_numbered_on_across_calendars() {
    let (sweep, _): (Sweep, Step<u64>) = Sweep::begin(vec![cal("A", "1"), cal("B", "2")]);
    let (sweep, step) = sweep.events_listed::<u64>(
        1,
        today(),
        Ok(vec![ev("b0", Some("b"), EventStart::On(today()))]),
    );
    assert_eq!(step.actions, vec![find(0, 2)]);
    let (sweep, step) = sweep.events_listed::<u64>(
        0,
        today(),
        Ok(vec![
            ev("a0", Some("a"), EventStart::On(today())),
            ev("a1", Some("aa"), EventStart::On(today())),
        ]),
    );
    assert_eq!(step.actions, vec![find(1, 1), find(2, 1)]);
    assert!(!sweep.is_complete());
}

#[test]
fn outcomes_that_nothing_waits_for_change_nothing() {
    let unexpected: Step<u64> = Step { actions: vec![], reports: vec![Report::Unexpected] };
    let (sweep, _): (Sweep, Step<u64>) = Sweep::begin(vec![cal("A", "1")]);
    let (sweep, step) = sweep.events_listed::<u64>(1, today(), Ok(vec![]));
    assert_eq!(step, unexpected);
    let (sweep, step) = sweep.channel_found(0, Ok(Some(5u64)));
    assert_eq!(step, unexpected);
    let (sweep, step) = sweep.sent::<u64>(0, Ok(()));
    assert_eq!(step, unexpected);
    let (sweep, step) = sweep.events_listed::<u64>(
        0,
        today(),
        Ok(vec![ev("a0", Some("a"), EventStart::On(today()))]),
    );
    assert_eq!(step.actions, vec![find(0, 1)]);
    let (sweep, step) = sweep.events_listed::<u64>(
        0,
        today(),
        Ok(vec![ev("a0", Some("a"), EventStart::On(today()))]),
    );
    assert_eq!(step, unexpected);
    let (sweep, step) = sweep.sent::<u64>(0, Ok(()));
    assert_eq!(step, unexpected);
    let (sweep, step) = sweep.channel_found(0, Ok(Some(5u64)));
    assert_eq!(step.actions.len(), 1);
    let (sweep, step) = sweep.channel_found(0, Ok(Some(5u64)));
    assert_eq!(step, unexpected);
    let (sweep, step) = sweep.sent::<u64>(0, Ok(()));
    assert_eq!(step, Step { actions: vec![], reports: vec![] });
    assert!(sweep.is_complete());
    let (sweep, step) = sweep.sent::<u64>(0, Ok(()));
    assert_eq!(step, unexpected);
    assert!(sweep.is_complete());
}

#[test]
fn failed_lookup_and_failed_sending_end_only_their_own_delivery() {
    let (sweep, _): (Sweep, Step<u64>) = Sweep::begin(vec![cal("A", "1")]);
    let events = vec![
        ev("e0", Some("zero"), EventStart::On(today())),
        ev("e1", Some("one"), EventStart::On(today())),
        ev("e2", Some("two"), EventStart::On(today())),
    ];
    let (sweep, _) = sweep.events_listed::<u64>(0, today(), Ok(events));
    let (sweep, step) =
        sweep.channel_found::<u64>(0, Err(Error::DbError("pool timed out".to_string())));
    assert_eq!(
        step,
        Step {
            actions: vec![],
            reports: vec![Report::NotAnnounced {
                calendar_id: "A".to_string(),
                event_id: "e0".to_string(),
                error: Error::DbError("pool timed out".to_string()),
            }],
        }
    );
    let (sweep, step) = sweep.channel_found(1, Ok(Some(11u64)));
    assert_eq!(step.actions, vec![Action::Send { delivery: 1, channel: 11, text: greeting("one") }]);
    let (sweep, step) =
        sweep.sent::<u64>(1, Err(Error::SerenityError("missing access".to_string())));
    assert_eq!(
        step,
        Step {
            actions: vec![],
            reports: vec![Report::NotAnnounced {
                calendar_id: "A".to_string(),
                event_id: "e1".to_string(),
                error: Error::SerenityError("missing access".to_string()),
            }],
        }
    );
    assert!(!sweep.is_complete());
    let (sweep, step) = sweep.channel_found(2, Ok(Some(11u64)));
    assert_eq!(step.actions, vec![Action::Send { delivery: 2, channel: 11, text: greeting("two") }]);
    let (sweep, _) = sweep.sent::<u64>(2, Ok(()));
    assert!(sweep.is_complete());
}

#[test]
fn scheduler_sleeps_after_the_last_outcome_and_wakes_to_list_again() {
    let (state, step) = Scheduler::start::<u64>();
    assert_eq!(state, Scheduler::Listing);
    assert_eq!(step.actions, vec![Action::ListCalendars]);
    let (state, step) =
        state.step::<u64>(Outcome::CalendarsListed(Ok(vec![cal("A", "1"), cal("B", "2")])));
    assert_eq!(step.actions.len(), 2);
    let (state, step) = state.step::<u64>(Outcome::EventsListed {
        calendar: 0,
        today: today(),
        events: Ok(vec![ev("a0", Some("a"), EventStart::On(today()))]),
    });
    assert_eq!(step.actions, vec![find(0, 1)]);
    let (state, step) =
        state.step::<u64>(Outcome::EventsListed { calendar: 1, today: today(), events: Ok(vec![]) });
    assert_eq!(step, Step { actions: vec![], reports: vec![] });
    let (state, step) = state.step(Outcome::ChannelFound { delivery: 0, channel: Ok(Some(3u64)) });
    assert_eq!(step.actions, vec![Action::Send { delivery: 0, channel: 3, text: greeting("a") }]);
    assert!(matches!(state, Scheduler::Sweeping(_)));
    let (state, step) = state.step::<u64>(Outcome::Sent { delivery: 0, sent: Ok(()) });
    assert_eq!(step, Step { actions: vec![Action::Sleep], reports: vec![] });
    assert_eq!(state, Scheduler::Sleeping);
    let (state, step) = state.step::<u64>(Outcome::Woke);
    assert_eq!(state, Scheduler::Listing);
    assert_eq!(step, Step { actions: vec![Action::ListCalendars], reports: vec![] });
}

#[test]
fn scheduler_ignores_outcomes_that_its_state_does_not_wait_for() {
    let unexpected: Step<u64> = Step { actions: vec![], reports: vec![Report::Unexpected] };
    let (state, _) = Scheduler::start::<u64>();
    let (state, step) = state.step::<u64>(Outcome::Woke);
    assert_eq!((&state, &step), (&Scheduler::Listing, &unexpected));
    let (state, step) = state.step::<u64>(Outcome::Sent { delivery: 0, sent: Ok(()) });
    assert_eq!((&state, &step), (&Scheduler::Listing, &unexpected));
    let (state, step) =
        state.step::<u64>(Outcome::CalendarsListed(Err(Error::GoogleError("down".to_string()))));
    assert_eq!(state, Scheduler::Stopped);
    assert_eq!(step.actions, vec![Action::Stop(Error::GoogleError("down".to_string()))]);
    let (state, step) = state.step::<u64>(Outcome::Woke);
    assert_eq!((&state, &step), (&Scheduler::Stopped, &unexpected));
    let (state, step) = state.step::<u64>(Outcome::CalendarsListed(Ok(vec![])));
    assert_eq!((&state, &step), (&Scheduler::Stopped, &unexpected));
    let (state, step) = Scheduler::Sleeping.step::<u64>(Outcome::CalendarsListed(Ok(vec![])));
    assert_eq!((&state, &step), (&Scheduler::Sleeping, &unexpected));
}

#[test]
fn last_failed_fetch_sends_the_job_to_sleep() {
    let (state, _) = Scheduler::start::<u64>();
    let (state, _) = state.step::<u64>(Outcome::CalendarsListed(Ok(vec![cal("A", "1")])));
    let (state, step) = state.step::<u64>(Outcome::EventsListed {
        calendar: 0,
        today: today(),
        events: Err(Error::GoogleError("quota".to_string())),
    });
    assert_eq!(state, Scheduler::Sleeping);
    assert_eq!(
        step,
        Step {
            actions: vec![Action::Sleep],
            reports: vec![Report::FetchFailed {
                calendar_id: "A".to_string(),
                error: Error::GoogleError("quota".to_string()),
            }],
        }
    );
}
