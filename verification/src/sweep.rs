//! One pass over the calendars: which events are announced, and where.
//!
//! A sweep starts from the list of calendars and asks for the events of each.
//! Every event of today becomes a delivery: first the channel of the owning
//! server is looked up, then the announcement is sent there. Fetches and
//! deliveries are independent of each other; their outcomes may arrive in any
//! order, and a failure ends only the fetch or delivery it belongs to.

use crate::action::{Action, ActionView, Report, ReportView, Step, StepView};
use crate::calendar::{events_view, starts_on, Calendar, CalendarView, Event, EventView};
use crate::date::CalendarDate;
use crate::error::{Error, ErrorView};
use crate::identity::{guild_of, resolve_guild_id};
use vstd::prelude::*;
use vstd::string::StringExecFns;

verus! {

/// The text that announces an event with the given label.
pub open spec fn announcement(label: Option<Seq<char>>) -> Seq<char> {
    "Today is "@ + match label {
        Some(label) => label,
        None => "No label"@,
    } + ", have a nice celebration!ðŸŽ‰"@
}

/// The text that announces an event with the given label.
pub fn announcement_text(label: &Option<String>) -> (text: String)
    ensures
        text@ == announcement(
            match *label {
                Some(label) => Some(label@),
                None => None,
            },
        ),
{
    let mut text = String::from_str("Today is ");
    match label {
        Some(label) => text.append(label.as_str()),
        None => text.append("No label"),
    }
    text.append(", have a nice celebration!ðŸŽ‰");
    text
}

/// What is to be done about one event of a calendar.
#[derive(Debug, PartialEq, Eq)]
pub enum Verdict {
    /// The event takes place on another day: nothing.
    NotToday,
    /// The event has no start date: it is passed over.
    Undated,
    /// The event is of today, but the calendar's summary names no server.
    Unowned(Error),
    /// The event is of today: announce it to the server `guild_id`.
    Announce { guild_id: u64, text: String },
}

/// A [`Verdict`] as contracts speak of it.
pub ghost enum VerdictView {
    NotToday,
    Undated,
    Unowned(ErrorView),
    Announce { guild_id: u64, text: Seq<char> },
}

impl View for Verdict {
    type V = VerdictView;

    open spec fn view(&self) -> VerdictView {
        match self {
            Verdict::NotToday => VerdictView::NotToday,
            Verdict::Undated => VerdictView::Undated,
            Verdict::Unowned(error) => VerdictView::Unowned(error@),
            Verdict::Announce { guild_id, text } => VerdictView::Announce {
                guild_id: *guild_id,
                text: text@,
            },
        }
    }
}

/// What is to be done about `event` of `calendar` when the day is `today`.
pub open spec fn verdict(calendar: CalendarView, event: EventView, today: CalendarDate)
    -> VerdictView {
    match event.start.spec_date() {
        None => VerdictView::Undated,
        Some(date) => if date != today {
            VerdictView::NotToday
        } else {
            match guild_of(calendar.summary) {
                Some(guild_id) => VerdictView::Announce {
                    guild_id,
                    text: announcement(event.summary),
                },
                None => VerdictView::Unowned(
                    ErrorView::CalendarSummaryNotDiscordServerId(calendar.summary),
                ),
            }
        },
    }
}

/// Decides what is to be done about `event` of `calendar` when the day is
/// `today`.
pub fn judge(calendar: &Calendar, event: &Event, today: CalendarDate) -> (decision: Verdict)
    ensures
        decision@ == verdict(calendar@, event@, today),
{
    let start_date = event.start.date();
    if start_date.is_none() {
        Verdict::Undated
    } else if !starts_on(start_date, today) {
        Verdict::NotToday
    } else {
        match resolve_guild_id(calendar.summary.as_str()) {
            Ok(guild_id) => Verdict::Announce { guild_id, text: announcement_text(&event.summary) },
            Err(error) => Verdict::Unowned(error),
        }
    }
}

/// How far a delivery has come.
#[derive(Clone, Copy, Debug, PartialEq, Eq, Structural)]
pub enum Stage {
    /// The channel of the server is being looked up.
    FindingChannel,
    /// The announcement is being sent.
    Sending,
    /// The delivery is over, whether it succeeded or not.
    Done,
}

/// The announcement of one event, on its way.
#[derive(Debug, PartialEq, Eq)]
pub struct Delivery {
    calendar_id: String,
    event_id: String,
    guild_id: u64,
    text: String,
    stage: Stage,
}

/// A [`Delivery`] as contracts speak of it.
pub ghost struct DeliveryView {
    pub calendar_id: Seq<char>,
    pub event_id: Seq<char>,
    pub guild_id: u64,
    pub text: Seq<char>,
    pub stage: Stage,
}

impl View for Delivery {
    type V = DeliveryView;

    closed spec fn view(&self) -> DeliveryView {
        DeliveryView {
            calendar_id: self.calendar_id@,
            event_id: self.event_id@,
            guild_id: self.guild_id,
            text: self.text@,
            stage: self.stage,
        }
    }
}

impl DeepView for Delivery {
    type V = DeliveryView;

    open spec fn deep_view(&self) -> DeliveryView {
        self@
    }
}

impl DeliveryView {
    /// This delivery at another stage.
    pub open spec fn at(self, stage: Stage) -> DeliveryView {
        DeliveryView { stage, ..self }
    }

    /// The report that this delivery failed with `error`.
    pub open spec fn failed(self, error: ErrorView) -> ReportView {
        ReportView::NotAnnounced {
            calendar_id: self.calendar_id,
            event_id: self.event_id,
            error,
        }
    }
}

/// A calendar of the sweep, and whether its events are still awaited.
#[derive(Debug, PartialEq, Eq)]
pub struct Feed {
    calendar: Calendar,
    awaited: bool,
}

/// A [`Feed`] as contracts speak of it.
pub ghost struct FeedView {
    pub calendar: CalendarView,
    pub awaited: bool,
}

impl View for Feed {
    type V = FeedView;

    closed spec fn view(&self) -> FeedView {
        FeedView { calendar: self.calendar@, awaited: self.awaited }
    }
}

impl DeepView for Feed {
    type V = FeedView;

    open spec fn deep_view(&self) -> FeedView {
        self@
    }
}

/// The test by which an event of `calendar` is announced when the day is
/// `today`.
pub open spec fn is_announced(calendar: CalendarView, today: CalendarDate) -> spec_fn(
    EventView,
) -> bool {
    |event: EventView| verdict(calendar, event, today) is Announce
}

/// The test by which an event of `calendar` is reported rather than
/// announced when the day is `today`.
pub open spec fn is_reported(calendar: CalendarView, today: CalendarDate) -> spec_fn(
    EventView,
) -> bool {
    |event: EventView|
        verdict(calendar, event, today) is Undated || verdict(calendar, event, today) is Unowned
}

/// The delivery that announces `event` of `calendar`, at its start.
pub open spec fn delivery_of(calendar: CalendarView, today: CalendarDate) -> spec_fn(
    EventView,
) -> DeliveryView {
    |event: EventView|
        DeliveryView {
            calendar_id: calendar.id,
            event_id: event.id,
            guild_id: verdict(calendar, event, today)->guild_id,
            text: verdict(calendar, event, today)->text,
            stage: Stage::FindingChannel,
        }
}

/// The report about `event` of `calendar`, which is not announced.
pub open spec fn report_of(calendar: CalendarView, today: CalendarDate) -> spec_fn(
    EventView,
) -> ReportView {
    |event: EventView|
        match verdict(calendar, event, today) {
            VerdictView::Unowned(error) => ReportView::NotAnnounced {
                calendar_id: calendar.id,
                event_id: event.id,
                error,
            },
            _ => ReportView::NoStartDate { calendar_id: calendar.id, event_id: event.id },
        }
}

/// The deliveries that the events of `calendar` give rise to when the day is
/// `today`: one for each event that is announced, in the order of the events.
pub open spec fn deliveries_for(
    calendar: CalendarView,
    events: Seq<EventView>,
    today: CalendarDate,
) -> Seq<DeliveryView> {
    events.filter(is_announced(calendar, today)).map_values(delivery_of(calendar, today))
}

/// The reports about the events of `calendar` when the day is `today`: one
/// for each event that has no start date, and one for each event of today if
/// the calendar's summary names no server, in the order of the events.
pub open spec fn reports_for(
    calendar: CalendarView,
    events: Seq<EventView>,
    today: CalendarDate,
) -> Seq<ReportView> {
    events.filter(is_reported(calendar, today)).map_values(report_of(calendar, today))
}

/// The requests to look up the channel for each of `deliveries`, which are
/// numbered from `first` on.
pub open spec fn lookups<C>(first: int, deliveries: Seq<DeliveryView>) -> Seq<ActionView<C>> {
    Seq::new(
        deliveries.len(),
        |k: int| ActionView::FindChannel { delivery: first + k, guild_id: deliveries[k].guild_id },
    )
}

/// The requests to fetch the events of each of `calendars`, which are
/// numbered from 0 on.
pub open spec fn fetches<C>(calendars: Seq<CalendarView>) -> Seq<ActionView<C>> {
    Seq::new(
        calendars.len(),
        |i: int| ActionView::ListEvents { calendar: i, calendar_id: calendars[i].id },
    )
}

/// The channel of a server, if one is set, or why it could not be looked up,
/// as contracts speak of it.
pub open spec fn channel_view<C>(channel: Result<Option<C>, Error>) -> Result<
    Option<C>,
    ErrorView,
> {
    match channel {
        Ok(channel) => Ok(channel),
        Err(error) => Err(error@),
    }
}

/// Whether a message was sent, or why not, as contracts speak of it.
pub open spec fn sent_view(sent: Result<(), Error>) -> Result<(), ErrorView> {
    match sent {
        Ok(()) => Ok(()),
        Err(error) => Err(error@),
    }
}

/// One pass over the calendars, under way.
#[derive(Debug, PartialEq, Eq)]
pub struct Sweep {
    feeds: Vec<Feed>,
    deliveries: Vec<Delivery>,
}

/// A [`Sweep`] as contracts speak of it: the calendars in the order in which
/// they were listed, and the deliveries in the order in which they began.
pub ghost struct SweepView {
    pub feeds: Seq<FeedView>,
    pub deliveries: Seq<DeliveryView>,
}

impl View for Sweep {
    type V = SweepView;

    closed spec fn view(&self) -> SweepView {
        SweepView { feeds: self.feeds.deep_view(), deliveries: self.deliveries.deep_view() }
    }
}

impl SweepView {
    /// The sweep over `calendars` at its start: the events of every calendar
    /// are awaited, and nothing is being delivered.
    pub open spec fn begin(calendars: Seq<CalendarView>) -> SweepView {
        SweepView {
            feeds: calendars.map_values(|calendar: CalendarView| FeedView { calendar, awaited: true }),
            deliveries: Seq::empty(),
        }
    }

    /// Whether the events of the calendar numbered `calendar` are awaited.
    pub open spec fn awaits_events(self, calendar: int) -> bool {
        0 <= calendar < self.feeds.len() && self.feeds[calendar].awaited
    }

    /// Whether the delivery numbered `delivery` is at `stage`.
    pub open spec fn delivery_at(self, delivery: int, stage: Stage) -> bool {
        0 <= delivery < self.deliveries.len() && self.deliveries[delivery].stage == stage
    }

    /// Whether the sweep is over: no events are awaited and every delivery is
    /// done.
    pub open spec fn complete(self) -> bool {
        &&& forall|i: int| 0 <= i < self.feeds.len() ==> !(#[trigger] self.feeds[i]).awaited
        &&& forall|k: int|
            0 <= k < self.deliveries.len() ==> (#[trigger] self.deliveries[k]).stage == Stage::Done
    }

    /// This sweep once the events of the calendar numbered `calendar` are no
    /// longer awaited.
    pub open spec fn settled(self, calendar: int) -> SweepView {
        SweepView {
            feeds: self.feeds.update(
                calendar,
                FeedView { calendar: self.feeds[calendar].calendar, awaited: false },
            ),
            deliveries: self.deliveries,
        }
    }

    /// This sweep with the delivery numbered `delivery` moved to `stage`.
    pub open spec fn moved(self, delivery: int, stage: Stage) -> SweepView {
        SweepView {
            feeds: self.feeds,
            deliveries: self.deliveries.update(delivery, self.deliveries[delivery].at(stage)),
        }
    }

    /// The sweep and the step after the events of the calendar numbered
    /// `calendar` have arrived, or have failed to, on the day `today`.
    ///
    /// If they are not awaited, nothing changes. Otherwise they are awaited no
    /// longer. If they could not be fetched, that is reported. If they were,
    /// a delivery begins for each event that is announced, with a request to
    /// look up its channel, and the other events that are not silently passed
    /// over are reported.
    pub open spec fn events_listed<C>(
        self,
        calendar: int,
        today: CalendarDate,
        events: Result<Seq<EventView>, ErrorView>,
    ) -> (SweepView, StepView<C>) {
        if !self.awaits_events(calendar) {
            (self, StepView::only_report(ReportView::Unexpected))
        } else {
            let owner = self.feeds[calendar].calendar;
            match events {
                Err(error) => (
                    self.settled(calendar),
                    StepView::only_report(
                        ReportView::FetchFailed { calendar_id: owner.id, error },
                    ),
                ),
                Ok(events) => {
                    let begun = deliveries_for(owner, events, today);
                    (
                        SweepView {
                            feeds: self.settled(calendar).feeds,
                            deliveries: self.deliveries + begun,
                        },
                        StepView {
                            actions: lookups(self.deliveries.len() as int, begun),
                            reports: reports_for(owner, events, today),
                        },
                    )
                },
            }
        }
    }

    /// The sweep and the step after the channel for the delivery numbered
    /// `delivery` has been looked up, or could not be.
    ///
    /// If the delivery is not waiting for its channel, nothing changes. If
    /// there is a channel, the announcement is to be sent there. If there is
    /// none, or the lookup failed, the delivery is over and that is reported.
    pub open spec fn channel_found<C>(self, delivery: int, channel: Result<Option<C>, ErrorView>)
        -> (SweepView, StepView<C>) {
        if !self.delivery_at(delivery, Stage::FindingChannel) {
            (self, StepView::only_report(ReportView::Unexpected))
        } else {
            let found = self.deliveries[delivery];
            match channel {
                Ok(Some(channel)) => (
                    self.moved(delivery, Stage::Sending),
                    StepView::only_action(
                        ActionView::Send { delivery, channel, text: found.text },
                    ),
                ),
                Ok(None) => (
                    self.moved(delivery, Stage::Done),
                    StepView::only_report(
                        found.failed(ErrorView::DiscordSeverHasNoEventChannel(found.guild_id)),
                    ),
                ),
                Err(error) => (
                    self.moved(delivery, Stage::Done),
                    StepView::only_report(found.failed(error)),
                ),
            }
        }
    }

    /// The sweep and the step after the announcement of the delivery numbered
    /// `delivery` has been sent, or could not be.
    ///
    /// If the delivery is not being sent, nothing changes. Otherwise it is
    /// over, and a failure is reported.
    pub open spec fn sent<C>(self, delivery: int, sent: Result<(), ErrorView>) -> (
        SweepView,
        StepView<C>,
    ) {
        if !self.delivery_at(delivery, Stage::Sending) {
            (self, StepView::only_report(ReportView::Unexpected))
        } else {
            (
                self.moved(delivery, Stage::Done),
                match sent {
                    Ok(()) => StepView::nothing(),
                    Err(error) => StepView::only_report(self.deliveries[delivery].failed(error)),
                },
            )
        }
    }
}

/// Unfolds [`deliveries_for`] and [`reports_for`] at the last event.
proof fn lemma_plan_grows(
    calendar: CalendarView,
    events: Seq<EventView>,
    event: EventView,
    today: CalendarDate,
)
    ensures
        deliveries_for(calendar, events.push(event), today) == if is_announced(calendar, today)(
            event,
        ) {
            deliveries_for(calendar, events, today).push(delivery_of(calendar, today)(event))
        } else {
            deliveries_for(calendar, events, today)
        },
        reports_for(calendar, events.push(event), today) == if is_reported(calendar, today)(
            event,
        ) {
            reports_for(calendar, events, today).push(report_of(calendar, today)(event))
        } else {
            reports_for(calendar, events, today)
        },
{
    reveal(Seq::filter);
    assert(events.push(event).drop_last() == events);
}

impl Sweep {
    /// Starts a sweep over `calendars`, and asks for the events of each.
    pub fn begin<C>(calendars: Vec<Calendar>) -> (begun: (Sweep, Step<C>))
        ensures
            begun.0@ == SweepView::begin(calendars.deep_view()),
            begun.1@ == (StepView::<C> {
                actions: fetches(calendars.deep_view()),
                reports: Seq::empty(),
            }),
    {
        let ghost all = calendars.deep_view();
        let mut feeds: Vec<Feed> = Vec::new();
        let mut actions: Vec<Action<C>> = Vec::new();
        for calendar in it: calendars.into_iter()
            invariant
                it.seq().len() == all.len(),
                forall|i: int| 0 <= i < all.len() ==> (#[trigger] it.seq()[i])@ == all[i],
                feeds.len() == it.index(),
                actions.len() == it.index(),
                forall|i: int|
                    0 <= i < it.index() ==> (#[trigger] feeds[i])@ == (FeedView {
                        calendar: all[i],
                        awaited: true,
                    }),
                forall|i: int|
                    0 <= i < it.index() ==> (#[trigger] actions[i])@ == (ActionView::<
                        C,
                    >::ListEvents { calendar: i, calendar_id: all[i].id }),
        {
            actions.push(Action::ListEvents { calendar: feeds.len(), calendar_id: calendar.id.clone() });
            feeds.push(Feed { calendar, awaited: true });
        }
        let sweep = Sweep { feeds, deliveries: Vec::new() };
        let step = Step { actions, reports: Vec::new() };
        assert(sweep@.feeds =~= SweepView::begin(all).feeds);
        assert(sweep@.deliveries =~= Seq::empty());
        assert(step@.actions =~= fetches(all));
        assert(step@.reports =~= Seq::empty());
        (sweep, step)
    }

    /// Whether the sweep is over: no events are awaited and every delivery is
    /// done.
    pub fn is_complete(&self) -> (complete: bool)
        ensures
            complete == self@.complete(),
    {
        let mut i: usize = 0;
        while i < self.feeds.len()
            invariant
                i <= self.feeds.len(),
                forall|j: int| 0 <= j < i ==> !(#[trigger] self@.feeds[j]).awaited,
            decreases self.feeds.len() - i,
        {
            if self.feeds[i].awaited {
                assert(self@.feeds[i as int].awaited);
                return false;
            }
            i = i + 1;
        }
        let mut k: usize = 0;
        while k < self.deliveries.len()
            invariant
                k <= self.deliveries.len(),
                forall|j: int| 0 <= j < self.feeds.len() ==> !(#[trigger] self@.feeds[j]).awaited,
                forall|j: int| 0 <= j < k ==> (#[trigger] self@.deliveries[j]).stage == Stage::Done,
            decreases self.deliveries.len() - k,
        {
            match self.deliveries[k].stage {
                Stage::Done => {},
                _ => {
                    assert(self@.deliveries[k as int].stage != Stage::Done);
                    return false;
                },
            }
            k = k + 1;
        }
        true
    }

    /// Takes in the events of the calendar numbered `calendar`, or the
    /// failure to fetch them, on the day `today`.
    pub fn events_listed<C>(
        self,
        calendar: usize,
        today: CalendarDate,
        events: Result<Vec<Event>, Error>,
    ) -> (next: (Sweep, Step<C>))
        ensures
            (next.0@, next.1@) == self@.events_listed::<C>(
                calendar as int,
                today,
                events_view(events),
            ),
    {
        let mut sweep = self;
        if calendar >= sweep.feeds.len() || !sweep.feeds[calendar].awaited {
            return (sweep, Step::only_report(Report::Unexpected));
        }
        sweep.feeds[calendar].awaited = false;
        assert(sweep@.feeds =~= self@.settled(calendar as int).feeds);
        assert(sweep@.deliveries == self@.deliveries);
        let ghost owner = self@.feeds[calendar as int].calendar;
        match events {
            Err(error) => {
                let calendar_id = sweep.feeds[calendar].calendar.id.clone();
                (sweep, Step::only_report(Report::FetchFailed { calendar_id, error }))
            },
            Ok(events) => {
                let ghost all = events.deep_view();
                let ghost first = self@.deliveries.len() as int;
                let mut actions: Vec<Action<C>> = Vec::new();
                let mut reports: Vec<Report> = Vec::new();
                assert(all.take(0) == Seq::<EventView>::empty());
                assert(deliveries_for(owner, all.take(0), today) == Seq::<DeliveryView>::empty()
                    && reports_for(owner, all.take(0), today) == Seq::<ReportView>::empty()) by {
                    reveal(Seq::filter);
                }
                for event in it: events.into_iter()
                    invariant
                        it.seq().len() == all.len(),
                        forall|i: int| 0 <= i < all.len() ==> (#[trigger] it.seq()[i])@ == all[i],
                        calendar < sweep.feeds.len(),
                        sweep.feeds[calendar as int].calendar@ == owner,
                        sweep@.feeds == self@.settled(calendar as int).feeds,
                        first == self@.deliveries.len(),
                        sweep@.deliveries == self@.deliveries + deliveries_for(
                            owner,
                            all.take(it.index() as int),
                            today,
                        ),
                        actions.deep_view() == lookups::<C>(
                            first,
                            deliveries_for(owner, all.take(it.index() as int), today),
                        ),
                        reports.deep_view() == reports_for(owner, all.take(it.index() as int), today),
                {
                    let ghost i = it.index() as int;
                    let ghost begun = deliveries_for(owner, all.take(i), today);
                    let ghost reported = reports_for(owner, all.take(i), today);
                    let ghost feeds_before = sweep@.feeds;
                    proof {
                        assert(all.take(i + 1) == all.take(i).push(event@));
                        lemma_plan_grows(owner, all.take(i), event@, today);
                    }
                    match judge(&sweep.feeds[calendar].calendar, &event, today) {
                        Verdict::NotToday => {},
                        Verdict::Undated => {
                            let calendar_id = sweep.feeds[calendar].calendar.id.clone();
                            reports.push(Report::NoStartDate { calendar_id, event_id: event.id });
                            assert(reports.deep_view() == reported.push(
                                report_of(owner, today)(event@),
                            ));
                        },
                        Verdict::Unowned(error) => {
                            let calendar_id = sweep.feeds[calendar].calendar.id.clone();
                            reports.push(
                                Report::NotAnnounced { calendar_id, event_id: event.id, error },
                            );
                            assert(reports.deep_view() == reported.push(
                                report_of(owner, today)(event@),
                            ));
                        },
                        Verdict::Announce { guild_id, text } => {
                            let calendar_id = sweep.feeds[calendar].calendar.id.clone();
                            let ghost looked_up = actions.deep_view();
                            assert(sweep.deliveries.len() == sweep@.deliveries.len());
                            assert(sweep.deliveries.len() == first + begun.len());
                            actions.push(
                                Action::FindChannel { delivery: sweep.deliveries.len(), guild_id },
                            );
                            assert(actions.deep_view() == looked_up.push(
                                ActionView::FindChannel { delivery: first + begun.len(), guild_id },
                            ));
                            sweep.deliveries.push(
                                Delivery {
                                    calendar_id,
                                    event_id: event.id,
                                    guild_id,
                                    text,
                                    stage: Stage::FindingChannel,
                                },
                            );
                            let ghost added = delivery_of(owner, today)(event@);
                            assert(sweep@.deliveries == (self@.deliveries + begun).push(added));
                            assert((self@.deliveries + begun).push(added) == self@.deliveries
                                + begun.push(added));
                            assert(actions.deep_view() == lookups::<C>(first, begun.push(added)));
                            assert(sweep@.feeds == feeds_before);
                        },
                    }
                }
                assert(all.take(all.len() as int) == all);
                (sweep, Step { actions, reports })
            },
        }
    }

    /// Takes in the channel for the delivery numbered `delivery`, or the
    /// failure to look it up.
    pub fn channel_found<C>(self, delivery: usize, channel: Result<Option<C>, Error>) -> (next: (
        Sweep,
        Step<C>,
    ))
        ensures
            (next.0@, next.1@) == self@.channel_found(delivery as int, channel_view(channel)),
    {
        let mut sweep = self;
        if delivery >= sweep.deliveries.len() {
            return (sweep, Step::only_report(Report::Unexpected));
        }
        match sweep.deliveries[delivery].stage {
            Stage::FindingChannel => {},
            _ => {
                return (sweep, Step::only_report(Report::Unexpected));
            },
        }
        match channel {
            Ok(Some(channel)) => {
                sweep.deliveries[delivery].stage = Stage::Sending;
                let text = sweep.deliveries[delivery].text.clone();
                assert(sweep@.deliveries =~= self@.moved(delivery as int, Stage::Sending).deliveries);
                (sweep, Step::only_action(Action::Send { delivery, channel, text }))
            },
            Ok(None) => {
                sweep.deliveries[delivery].stage = Stage::Done;
                let error = Error::DiscordSeverHasNoEventChannel(sweep.deliveries[delivery].guild_id);
                let report = sweep.failure(delivery, error);
                assert(sweep@.deliveries =~= self@.moved(delivery as int, Stage::Done).deliveries);
                (sweep, Step::only_report(report))
            },
            Err(error) => {
                sweep.deliveries[delivery].stage = Stage::Done;
                let report = sweep.failure(delivery, error);
                assert(sweep@.deliveries =~= self@.moved(delivery as int, Stage::Done).deliveries);
                (sweep, Step::only_report(report))
            },
        }
    }

    /// Takes in that the announcement of the delivery numbered `delivery` was
    /// sent, or the failure to send it.
    pub fn sent<C>(self, delivery: usize, sent: Result<(), Error>) -> (next: (Sweep, Step<C>))
        ensures
            (next.0@, next.1@) == self@.sent::<C>(delivery as int, sent_view(sent)),
    {
        let mut sweep = self;
        if delivery >= sweep.deliveries.len() {
            return (sweep, Step::only_report(Report::Unexpected));
        }
        match sweep.deliveries[delivery].stage {
            Stage::Sending => {},
            _ => {
                return (sweep, Step::only_report(Report::Unexpected));
            },
        }
        sweep.deliveries[delivery].stage = Stage::Done;
        assert(sweep@.deliveries =~= self@.moved(delivery as int, Stage::Done).deliveries);
        match sent {
            Ok(()) => (sweep, Step::nothing()),
            Err(error) => {
                let report = sweep.failure(delivery, error);
                (sweep, Step::only_report(report))
            },
        }
    }

    /// The report that the delivery numbered `delivery` failed with `error`.
    fn failure(&self, delivery: usize, error: Error) -> (report: Report)
        requires
            delivery < self@.deliveries.len(),
        ensures
            report@ == self@.deliveries[delivery as int].failed(error@),
    {
        Report::NotAnnounced {
            calendar_id: self.deliveries[delivery].calendar_id.clone(),
            event_id: self.deliveries[delivery].event_id.clone(),
            error,
        }
    }
}

/// A calendar whose events cannot be fetched does not touch the others.
///
/// Let two different calendars of a sweep both be awaited, and let the fetch
/// for the first fail. Then the second is still awaited, no delivery has
/// changed, and when the events of the second arrive they begin the same
/// deliveries, with the same requests and reports, as if the first had not
/// failed.
pub proof fn lemma_failed_fetch_is_isolated<C>(
    sweep: SweepView,
    failed: int,
    error: ErrorView,
    day_of_failure: CalendarDate,
    other: int,
    today: CalendarDate,
    events: Result<Seq<EventView>, ErrorView>,
)
    requires
        sweep.awaits_events(failed),
        sweep.awaits_events(other),
        failed != other,
    ensures
        ({
            let after = sweep.events_listed::<C>(failed, day_of_failure, Err(error)).0;
            &&& after.awaits_events(other)
            &&& after.deliveries == sweep.deliveries
            &&& after.events_listed::<C>(other, today, events).1 == sweep.events_listed::<C>(
                other,
                today,
                events,
            ).1
            &&& after.events_listed::<C>(other, today, events).0.deliveries
                == sweep.events_listed::<C>(other, today, events).0.deliveries
        }),
{
}

/// Every event that is announced is an event of today, and the delivery that
/// announces it goes to the server that the calendar's summary names, with
/// the announcement of the event's label.
pub proof fn lemma_deliveries_are_of_today(
    calendar: CalendarView,
    events: Seq<EventView>,
    today: CalendarDate,
    k: int,
)
    requires
        0 <= k < deliveries_for(calendar, events, today).len(),
    ensures
        ({
            let delivery = deliveries_for(calendar, events, today)[k];
            exists|i: int|
                0 <= i < events.len() && (#[trigger] events[i]).start.spec_date() == Some(today)
                    && delivery.event_id == events[i].id && delivery.text == announcement(
                    events[i].summary,
                ) && guild_of(calendar.summary) == Some(delivery.guild_id) && delivery.calendar_id
                    == calendar.id && delivery.stage == Stage::FindingChannel
        }),
{
    let announced = events.filter(is_announced(calendar, today));
    events.lemma_filter_pred(is_announced(calendar, today), k);
    events.lemma_filter_contains_rev(is_announced(calendar, today), announced[k]);
    let i = choose|i: int| 0 <= i < events.len() && events[i] == announced[k];
    assert(events[i].start.spec_date() == Some(today));
}

/// On a day on which no event of a calendar starts, the calendar begins no
/// delivery.
pub proof fn lemma_no_event_of_today_no_delivery(
    calendar: CalendarView,
    events: Seq<EventView>,
    today: CalendarDate,
)
    requires
        forall|i: int| 0 <= i < events.len() ==> (#[trigger] events[i]).start.spec_date() != Some(today),
    ensures
        deliveries_for(calendar, events, today).len() == 0,
{
    if deliveries_for(calendar, events, today).len() > 0 {
        lemma_deliveries_are_of_today(calendar, events, today, 0);
    }
}

/// A sweep waits for the events of each calendar that it asks for at its
/// start: the request numbered `i` is for the calendar numbered `i`, whose
/// events are awaited.
pub proof fn lemma_fetches_are_awaited<C>(calendars: Seq<CalendarView>, i: int)
    requires
        0 <= i < calendars.len(),
    ensures
        fetches::<C>(calendars)[i] == (ActionView::<C>::ListEvents {
            calendar: i,
            calendar_id: calendars[i].id,
        }),
        SweepView::begin(calendars).awaits_events(i),
        SweepView::begin(calendars).feeds[i].calendar == calendars[i],
{
}

/// A sweep waits for each channel that it asks to look up: after the events
/// of a calendar have arrived, every request of the step is for a delivery
/// that is waiting for its channel.
pub proof fn lemma_lookups_are_awaited<C>(
    sweep: SweepView,
    calendar: int,
    today: CalendarDate,
    events: Seq<EventView>,
    k: int,
)
    requires
        sweep.awaits_events(calendar),
        0 <= k < sweep.events_listed::<C>(calendar, today, Ok(events)).1.actions.len(),
    ensures
        ({
            let (next, step) = sweep.events_listed::<C>(calendar, today, Ok(events));
            &&& step.actions[k] is FindChannel
            &&& next.delivery_at(step.actions[k]->FindChannel_delivery, Stage::FindingChannel)
            &&& next.deliveries[step.actions[k]->FindChannel_delivery].guild_id
                == step.actions[k]->FindChannel_guild_id
        }),
{
    lemma_deliveries_are_of_today(sweep.feeds[calendar].calendar, events, today, k);
}

/// A sweep waits for each announcement that it asks to send: once the
/// channel of a delivery is found, the delivery is being sent, with its own
/// text and to the channel that was found.
pub proof fn lemma_sends_are_awaited<C>(sweep: SweepView, delivery: int, channel: C)
    requires
        sweep.delivery_at(delivery, Stage::FindingChannel),
    ensures
        ({
            let (next, step) = sweep.channel_found(delivery, Ok(Some(channel)));
            &&& next.delivery_at(delivery, Stage::Sending)
            &&& step.actions == seq![
                ActionView::Send { delivery, channel, text: sweep.deliveries[delivery].text },
            ]
            &&& step.reports.len() == 0
        }),
{
}

/// A server without a channel gets no announcement: the delivery ends, no
/// request is made, and the one report names the server.
pub proof fn lemma_no_channel_no_send<C>(sweep: SweepView, delivery: int)
    requires
        sweep.delivery_at(delivery, Stage::FindingChannel),
    ensures
        ({
            let (next, step) = sweep.channel_found::<C>(delivery, Ok(None));
            &&& next.delivery_at(delivery, Stage::Done)
            &&& step.actions.len() == 0
            &&& step.reports == seq![
                ReportView::NotAnnounced {
                    calendar_id: sweep.deliveries[delivery].calendar_id,
                    event_id: sweep.deliveries[delivery].event_id,
                    error: ErrorView::DiscordSeverHasNoEventChannel(
                        sweep.deliveries[delivery].guild_id,
                    ),
                },
            ]
        }),
{
}

/// The outcome of one delivery does not touch the others, nor the calendars:
/// every other delivery stays as it was.
pub proof fn lemma_deliveries_are_isolated<C>(
    sweep: SweepView,
    delivery: int,
    channel: Result<Option<C>, ErrorView>,
    sent: Result<(), ErrorView>,
    other: int,
)
    requires
        0 <= other < sweep.deliveries.len(),
        other != delivery,
    ensures
        sweep.channel_found(delivery, channel).0.deliveries[other] == sweep.deliveries[other],
        sweep.channel_found(delivery, channel).0.feeds == sweep.feeds,
        sweep.channel_found(delivery, channel).0.deliveries.len() == sweep.deliveries.len(),
        sweep.sent::<C>(delivery, sent).0.deliveries[other] == sweep.deliveries[other],
        sweep.sent::<C>(delivery, sent).0.feeds == sweep.feeds,
        sweep.sent::<C>(delivery, sent).0.deliveries.len() == sweep.deliveries.len(),
{
}

/// The events of two calendars may arrive in either order: the same
/// calendars are awaited afterwards, and each calendar begins the same
/// deliveries, which only follow each other in the order of arrival.
pub proof fn lemma_fetches_commute<C>(
    sweep: SweepView,
    one: int,
    day_of_one: CalendarDate,
    events_of_one: Seq<EventView>,
    other: int,
    day_of_other: CalendarDate,
    events_of_other: Seq<EventView>,
)
    requires
        sweep.awaits_events(one),
        sweep.awaits_events(other),
        one != other,
    ensures
        ({
            let begun_by_one = deliveries_for(sweep.feeds[one].calendar, events_of_one, day_of_one);
            let begun_by_other = deliveries_for(
                sweep.feeds[other].calendar,
                events_of_other,
                day_of_other,
            );
            let one_first = sweep.events_listed::<C>(one, day_of_one, Ok(events_of_one)).0
                .events_listed::<C>(other, day_of_other, Ok(events_of_other)).0;
            let other_first = sweep.events_listed::<C>(other, day_of_other, Ok(events_of_other)).0
                .events_listed::<C>(one, day_of_one, Ok(events_of_one)).0;
            &&& one_first.feeds == other_first.feeds
            &&& one_first.deliveries == sweep.deliveries + begun_by_one + begun_by_other
            &&& other_first.deliveries == sweep.deliveries + begun_by_other + begun_by_one
        }),
{
    let one_first = sweep.events_listed::<C>(one, day_of_one, Ok(events_of_one)).0.events_listed::<
        C,
    >(other, day_of_other, Ok(events_of_other)).0;
    let other_first = sweep.events_listed::<C>(other, day_of_other, Ok(events_of_other)).0
        .events_listed::<C>(one, day_of_one, Ok(events_of_one)).0;
    assert(one_first.feeds =~= other_first.feeds);
}

/// The outcomes of two deliveries may arrive in either order: the sweep is
/// the same afterwards, and each outcome is answered by the same step.
pub proof fn lemma_deliveries_commute<C>(
    sweep: SweepView,
    one: int,
    channel_of_one: Result<Option<C>, ErrorView>,
    other: int,
    channel_of_other: Result<Option<C>, ErrorView>,
)
    requires
        one != other,
    ensures
        ({
            let (after_one, step_of_one) = sweep.channel_found(one, channel_of_one);
            let (after_other, step_of_other) = sweep.channel_found(other, channel_of_other);
            &&& after_one.channel_found(other, channel_of_other).0 == after_other.channel_found(
                one,
                channel_of_one,
            ).0
            &&& after_one.channel_found(other, channel_of_other).1 == step_of_other
            &&& after_other.channel_found(one, channel_of_one).1 == step_of_one
        }),
{
    let (after_one, step_of_one) = sweep.channel_found(one, channel_of_one);
    let (after_other, step_of_other) = sweep.channel_found(other, channel_of_other);
    assert(after_one.channel_found(other, channel_of_other).0.deliveries
        =~= after_other.channel_found(one, channel_of_one).0.deliveries);
}

} // verus!
