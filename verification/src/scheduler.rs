//! The recurring job: list the calendars, sweep them, sleep, and again.
//!
//! The scheduler decides and never acts. Each step takes the outcome of a
//! request it made earlier and answers with the next state, the requests to
//! carry out now and the reports to log. The surrounding program carries the
//! requests out, concurrently where there are several, and hands each
//! outcome back as it arrives.

use crate::action::{Action, ActionView, Report, ReportView, Step, StepView};
use crate::calendar::{calendars_view, events_view, Calendar, CalendarView, Event, EventView};
use crate::date::CalendarDate;
use crate::error::{Error, ErrorView};
use crate::sweep::{channel_view, fetches, sent_view, Sweep, SweepView};
use vstd::prelude::*;

verus! {

/// The outcome of a request. `C` is the type by which the chat service knows
/// a channel.
#[derive(Debug, PartialEq, Eq)]
pub enum Outcome<C> {
    /// The period of sleep is over.
    Woke,
    /// The calendars, or why they could not be listed.
    CalendarsListed(Result<Vec<Calendar>, Error>),
    /// The events of the calendar numbered `calendar`, or why they could not
    /// be fetched, and the day on which they arrived.
    EventsListed { calendar: usize, today: CalendarDate, events: Result<Vec<Event>, Error> },
    /// The channel for the delivery numbered `delivery`, if the server has
    /// one, or why it could not be looked up.
    ChannelFound { delivery: usize, channel: Result<Option<C>, Error> },
    /// Whether the announcement of the delivery numbered `delivery` was sent.
    Sent { delivery: usize, sent: Result<(), Error> },
}

/// An [`Outcome`] as contracts speak of it.
pub ghost enum OutcomeView<C> {
    Woke,
    CalendarsListed(Result<Seq<CalendarView>, ErrorView>),
    EventsListed { calendar: int, today: CalendarDate, events: Result<Seq<EventView>, ErrorView> },
    ChannelFound { delivery: int, channel: Result<Option<C>, ErrorView> },
    Sent { delivery: int, sent: Result<(), ErrorView> },
}

impl<C> View for Outcome<C> {
    type V = OutcomeView<C>;

    open spec fn view(&self) -> OutcomeView<C> {
        match *self {
            Outcome::Woke => OutcomeView::Woke,
            Outcome::CalendarsListed(calendars) => OutcomeView::CalendarsListed(
                calendars_view(calendars),
            ),
            Outcome::EventsListed { calendar, today, events } => OutcomeView::EventsListed {
                calendar: calendar as int,
                today,
                events: events_view(events),
            },
            Outcome::ChannelFound { delivery, channel } => OutcomeView::ChannelFound {
                delivery: delivery as int,
                channel: channel_view(channel),
            },
            Outcome::Sent { delivery, sent } => OutcomeView::Sent {
                delivery: delivery as int,
                sent: sent_view(sent),
            },
        }
    }
}

/// Where the recurring job stands.
#[derive(Debug, PartialEq, Eq)]
pub enum Scheduler {
    /// The list of calendars is awaited.
    Listing,
    /// A sweep is under way.
    Sweeping(Sweep),
    /// The job sleeps until the next sweep.
    Sleeping,
    /// The job has given up.
    Stopped,
}

/// A [`Scheduler`] as contracts speak of it.
pub ghost enum SchedulerView {
    Listing,
    Sweeping(SweepView),
    Sleeping,
    Stopped,
}

impl View for Scheduler {
    type V = SchedulerView;

    open spec fn view(&self) -> SchedulerView {
        match self {
            Scheduler::Listing => SchedulerView::Listing,
            Scheduler::Sweeping(sweep) => SchedulerView::Sweeping(sweep@),
            Scheduler::Sleeping => SchedulerView::Sleeping,
            Scheduler::Stopped => SchedulerView::Stopped,
        }
    }
}

impl SchedulerView {
    /// The job at its start: it asks for the calendars.
    pub open spec fn start<C>() -> (SchedulerView, StepView<C>) {
        (SchedulerView::Listing, StepView::only_action(ActionView::ListCalendars))
    }

    /// How the job goes on after `step` of `sweep`: with the sweep as long as
    /// anything of it is outstanding, and to sleep as soon as nothing is.
    pub open spec fn carry_on<C>(sweep: SweepView, step: StepView<C>) -> (
        SchedulerView,
        StepView<C>,
    ) {
        if sweep.complete() {
            (SchedulerView::Sleeping, step.and_then(ActionView::Sleep))
        } else {
            (SchedulerView::Sweeping(sweep), step)
        }
    }

    /// The state and the step that follow when `outcome` arrives.
    ///
    /// Waking from sleep starts the next sweep by asking for the calendars.
    /// If they cannot be listed the job gives up and hands on the failure;
    /// otherwise a sweep over them begins. During a sweep the outcomes of its
    /// fetches and deliveries are taken in as the sweep says. An outcome that
    /// the state does not wait for changes nothing and is reported.
    pub open spec fn step<C>(self, outcome: OutcomeView<C>) -> (SchedulerView, StepView<C>) {
        match (self, outcome) {
            (SchedulerView::Sleeping, OutcomeView::Woke) => Self::start(),
            (SchedulerView::Listing, OutcomeView::CalendarsListed(Err(error))) => (
                SchedulerView::Stopped,
                StepView::only_action(ActionView::Stop(error)),
            ),
            (SchedulerView::Listing, OutcomeView::CalendarsListed(Ok(calendars))) => Self::carry_on(
                SweepView::begin(calendars),
                StepView { actions: fetches(calendars), reports: Seq::empty() },
            ),
            (
                SchedulerView::Sweeping(sweep),
                OutcomeView::EventsListed { calendar, today, events },
            ) => {
                let (sweep, step) = sweep.events_listed::<C>(calendar, today, events);
                Self::carry_on(sweep, step)
            },
            (SchedulerView::Sweeping(sweep), OutcomeView::ChannelFound { delivery, channel }) => {
                let (sweep, step) = sweep.channel_found(delivery, channel);
                Self::carry_on(sweep, step)
            },
            (SchedulerView::Sweeping(sweep), OutcomeView::Sent { delivery, sent }) => {
                let (sweep, step) = sweep.sent::<C>(delivery, sent);
                Self::carry_on(sweep, step)
            },
            _ => (self, StepView::only_report(ReportView::Unexpected)),
        }
    }

    /// What holds of the job at every moment: while it sweeps, something of
    /// the sweep is outstanding.
    pub open spec fn consistent(self) -> bool {
        self matches SchedulerView::Sweeping(sweep) ==> !sweep.complete()
    }
}

impl Scheduler {
    /// Starts the job: it asks for the calendars.
    pub fn start<C>() -> (begun: (Scheduler, Step<C>))
        ensures
            (begun.0@, begun.1@) == SchedulerView::start::<C>(),
    {
        (Scheduler::Listing, Step::only_action(Action::ListCalendars))
    }

    /// Goes on after `step` of `sweep`: with the sweep as long as anything of
    /// it is outstanding, and to sleep as soon as nothing is.
    fn carry_on<C>(sweep: Sweep, step: Step<C>) -> (next: (Scheduler, Step<C>))
        ensures
            (next.0@, next.1@) == SchedulerView::carry_on(sweep@, step@),
    {
        if sweep.is_complete() {
            (Scheduler::Sleeping, step.and_then(Action::Sleep))
        } else {
            (Scheduler::Sweeping(sweep), step)
        }
    }

    /// Takes in `outcome` and says how the job goes on.
    pub fn step<C>(self, outcome: Outcome<C>) -> (next: (Scheduler, Step<C>))
        ensures
            (next.0@, next.1@) == self@.step(outcome@),
    {
        match (self, outcome) {
            (Scheduler::Sleeping, Outcome::Woke) => Self::start(),
            (Scheduler::Listing, Outcome::CalendarsListed(Err(error))) => (
                Scheduler::Stopped,
                Step::only_action(Action::Stop(error)),
            ),
            (Scheduler::Listing, Outcome::CalendarsListed(Ok(calendars))) => {
                let (sweep, step) = Sweep::begin(calendars);
                Self::carry_on(sweep, step)
            },
            (Scheduler::Sweeping(sweep), Outcome::EventsListed { calendar, today, events }) => {
                let (sweep, step) = sweep.events_listed(calendar, today, events);
                Self::carry_on(sweep, step)
            },
            (Scheduler::Sweeping(sweep), Outcome::ChannelFound { delivery, channel }) => {
                let (sweep, step) = sweep.channel_found(delivery, channel);
                Self::carry_on(sweep, step)
            },
            (Scheduler::Sweeping(sweep), Outcome::Sent { delivery, sent }) => {
                let (sweep, step) = sweep.sent(delivery, sent);
                Self::carry_on(sweep, step)
            },
            (state, _) => (state, Step::only_report(Report::Unexpected)),
        }
    }

    /// Whether the job has given up.
    pub fn is_stopped(&self) -> (stopped: bool)
        ensures
            stopped == (self@ is Stopped),
    {
        match self {
            Scheduler::Stopped => true,
            _ => false,
        }
    }
}

/// The job is consistent at its start, and every step keeps it so.
pub proof fn lemma_steps_keep_consistent<C>(state: SchedulerView, outcome: OutcomeView<C>)
    requires
        state.consistent(),
    ensures
        SchedulerView::start::<C>().0.consistent(),
        state.step(outcome).0.consistent(),
{
}

/// The job gives up over one thing only: that the calendars cannot be listed.
/// Then it hands on the failure, and nothing moves it again.
pub proof fn lemma_only_a_failed_listing_stops<C>(state: SchedulerView, outcome: OutcomeView<C>)
    ensures
        state.step(outcome).0 is Stopped <==> state is Stopped || (state is Listing
            && outcome matches OutcomeView::CalendarsListed(Err(_))),
        state is Listing ==> (outcome matches OutcomeView::CalendarsListed(Err(error))
            ==> state.step(outcome).1 == StepView::only_action(ActionView::<C>::Stop(error))),
        state is Stopped ==> state.step(outcome) == (
            state,
            StepView::<C>::only_report(ReportView::Unexpected),
        ),
{
}

/// The job goes to sleep when the last outstanding fetch or delivery of the
/// sweep has ended, and no sooner: a step out of a sweep leads to sleep, with
/// the request to sleep as its last, exactly if the sweep is over after it;
/// otherwise the sweep goes on and the step does not ask to sleep.
pub proof fn lemma_sleep_follows_the_sweep<C>(sweep: SweepView, outcome: OutcomeView<C>)
    requires
        !(outcome is Woke),
        !(outcome is CalendarsListed),
    ensures
        ({
            let (after, asked) = match outcome {
                OutcomeView::EventsListed { calendar, today, events } => sweep.events_listed::<C>(
                    calendar,
                    today,
                    events,
                ),
                OutcomeView::ChannelFound { delivery, channel } => sweep.channel_found(
                    delivery,
                    channel,
                ),
                OutcomeView::Sent { delivery, sent } => sweep.sent::<C>(delivery, sent),
                _ => (sweep, StepView::nothing()),
            };
            let (next, step) = SchedulerView::Sweeping(sweep).step(outcome);
            &&& after.complete() ==> next is Sleeping && step == asked.and_then(ActionView::Sleep)
            &&& !after.complete() ==> next == SchedulerView::Sweeping(after) && step == asked
            &&& !asked.actions.contains(ActionView::Sleep)
        }),
{
    match outcome {
        OutcomeView::EventsListed { calendar, today, events } => {
            let asked = sweep.events_listed::<C>(calendar, today, events).1;
            assert forall|k: int| 0 <= k < asked.actions.len() implies asked.actions[k]
                != ActionView::<C>::Sleep by {}
        },
        OutcomeView::ChannelFound { delivery, channel } => {
            let asked = sweep.channel_found(delivery, channel).1;
            assert forall|k: int| 0 <= k < asked.actions.len() implies asked.actions[k]
                != ActionView::<C>::Sleep by {}
        },
        OutcomeView::Sent { delivery, sent } => {
            let asked = sweep.sent::<C>(delivery, sent).1;
            assert forall|k: int| 0 <= k < asked.actions.len() implies asked.actions[k]
                != ActionView::<C>::Sleep by {}
        },
        _ => {},
    }
}

/// A calendar whose events cannot be fetched does not end the sweep while
/// another calendar is awaited: the job goes on sweeping, asks for nothing,
/// and reports the one failure.
pub proof fn lemma_failed_fetch_keeps_sweeping<C>(
    sweep: SweepView,
    failed: int,
    today: CalendarDate,
    error: ErrorView,
    other: int,
)
    requires
        sweep.awaits_events(failed),
        sweep.awaits_events(other),
        failed != other,
    ensures
        SchedulerView::Sweeping(sweep).step(
            OutcomeView::<C>::EventsListed { calendar: failed, today, events: Err(error) },
        ) == (
            SchedulerView::Sweeping(sweep.settled(failed)),
            StepView::<C>::only_report(
                ReportView::FetchFailed { calendar_id: sweep.feeds[failed].calendar.id, error },
            ),
        ),
{
    assert(sweep.settled(failed).feeds[other].awaited);
}

} // verus!
