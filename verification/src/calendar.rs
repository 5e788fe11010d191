//! Calendars and their events, as the calendar service reports them.

use crate::date::CalendarDate;
use crate::error::{Error, ErrorView};
use crate::text::{decimal_text, numeral};
use vstd::prelude::*;
use vstd::string::StringExecFns;

verus! {

/// A calendar of the service. Each belongs to one server, whose number is the
/// calendar's summary.
#[derive(Clone, Debug, PartialEq, Eq)]
pub struct Calendar {
    /// The handle by which the service knows the calendar.
    pub id: String,
    /// The label of the calendar: the number of the server that owns it.
    pub summary: String,
}

/// A [`Calendar`] as contracts speak of it.
pub ghost struct CalendarView {
    pub id: Seq<char>,
    pub summary: Seq<char>,
}

impl View for Calendar {
    type V = CalendarView;

    open spec fn view(&self) -> CalendarView {
        CalendarView { id: self.id@, summary: self.summary@ }
    }
}

impl DeepView for Calendar {
    type V = CalendarView;

    open spec fn deep_view(&self) -> CalendarView {
        self@
    }
}

/// When an event starts, as far as the calendar service says.
#[derive(Clone, Copy, Debug, PartialEq, Eq, Structural)]
pub enum EventStart {
    /// The event has no start at all.
    Missing,
    /// The event starts at a time of day, not on a calendar date.
    Undated,
    /// The event takes the whole of this day.
    On(CalendarDate),
}

impl EventStart {
    /// The day the event takes, if it takes a day.
    pub open spec fn spec_date(self) -> Option<CalendarDate> {
        match self {
            EventStart::On(date) => Some(date),
            _ => None,
        }
    }

    /// The day the event takes, if it takes a day.
    #[verifier::when_used_as_spec(spec_date)]
    pub fn date(self) -> (date: Option<CalendarDate>)
        ensures
            date == self.spec_date(),
    {
        match self {
            EventStart::On(date) => Some(date),
            _ => None,
        }
    }
}

/// An event of a calendar.
#[derive(Clone, Debug, PartialEq, Eq)]
pub struct Event {
    /// The handle by which the service knows the event.
    pub id: String,
    /// The label of the event, if it has one.
    pub summary: Option<String>,
    /// When the event starts.
    pub start: EventStart,
}

/// An [`Event`] as contracts speak of it.
pub ghost struct EventView {
    pub id: Seq<char>,
    pub summary: Option<Seq<char>>,
    pub start: EventStart,
}

impl View for Event {
    type V = EventView;

    open spec fn view(&self) -> EventView {
        EventView {
            id: self.id@,
            summary: match self.summary {
                Some(label) => Some(label@),
                None => None,
            },
            start: self.start,
        }
    }
}

impl DeepView for Event {
    type V = EventView;

    open spec fn deep_view(&self) -> EventView {
        self@
    }
}

/// The calendars, or why they could not be listed, as contracts speak of
/// them.
pub open spec fn calendars_view(calendars: Result<Vec<Calendar>, Error>) -> Result<
    Seq<CalendarView>,
    ErrorView,
> {
    match calendars {
        Ok(calendars) => Ok(calendars.deep_view()),
        Err(error) => Err(error@),
    }
}

/// The events of a calendar, or why they could not be fetched, as contracts
/// speak of them.
pub open spec fn events_view(events: Result<Vec<Event>, Error>) -> Result<
    Seq<EventView>,
    ErrorView,
> {
    match events {
        Ok(events) => Ok(events.deep_view()),
        Err(error) => Err(error@),
    }
}

/// Whether an event with the given start date takes place on `today`: it has
/// a start date, and that date is `today`.
pub fn starts_on(start_date: Option<CalendarDate>, today: CalendarDate) -> (matches: bool)
    ensures
        matches <==> start_date == Some(today),
{
    match start_date {
        Some(date) => date == today,
        None => false,
    }
}

/// The address under which a calendar can be looked at.
pub open spec fn calendar_url(calendar_id: Seq<char>) -> Seq<char> {
    "https://calendar.google.com/calendar/u/0?cid="@ + calendar_id
}

/// The address under which the calendar with the given handle can be looked
/// at.
pub fn get_calendar_url(calendar_id: &str) -> (url: String)
    ensures
        url@ == calendar_url(calendar_id@),
{
    let mut url = String::from_str("https://calendar.google.com/calendar/u/0?cid=");
    url.append(calendar_id);
    url
}

/// The test by which a calendar belongs to the server `guild_id`: its summary
/// is the decimal numeral of the server's number.
pub open spec fn owned_by(guild_id: u64) -> spec_fn(CalendarView) -> bool {
    |calendar: CalendarView| calendar.summary == numeral(guild_id as nat)
}

/// Those of `calendars` that belong to the server `guild_id`, in their order.
pub fn calendars_by_guild_id(calendars: Vec<Calendar>, guild_id: u64) -> (owned: Vec<Calendar>)
    ensures
        owned.deep_view() == calendars.deep_view().filter(owned_by(guild_id)),
{
    let wanted = decimal_text(guild_id);
    let ghost all = calendars.deep_view();
    let mut owned: Vec<Calendar> = Vec::new();
    assert(all.take(0).filter(owned_by(guild_id)) == Seq::<CalendarView>::empty()) by {
        reveal(Seq::filter);
    }
    for calendar in it: calendars.into_iter()
        invariant
            it.seq().len() == all.len(),
            forall|i: int| 0 <= i < all.len() ==> (#[trigger] it.seq()[i])@ == all[i],
            wanted@ == numeral(guild_id as nat),
            owned.deep_view() == all.take(it.index() as int).filter(owned_by(guild_id)),
    {
        let ghost i = it.index() as int;
        let ghost before = owned.deep_view();
        assert(all.take(i + 1).drop_last() == all.take(i));
        assert(all.take(i + 1).last() == calendar@);
        assert(all.take(i + 1).filter(owned_by(guild_id)) == if owned_by(guild_id)(calendar@) {
            before.push(calendar@)
        } else {
            before
        }) by {
            reveal(Seq::filter);
        }
        if calendar.summary == wanted {
            owned.push(calendar);
            assert(owned.deep_view() == before.push(calendar@));
        }
    }
    assert(all.take(all.len() as int) == all);
    owned
}

/// The test by which an event carries the label `label`.
pub open spec fn labelled(label: Seq<char>) -> spec_fn(EventView) -> bool {
    |event: EventView| event.summary == Some(label)
}

/// The handles of those of `events` that carry the label `label`, in their
/// order.
pub open spec fn ids_by_label(events: Seq<EventView>, label: Seq<char>) -> Seq<Seq<char>> {
    events.filter(labelled(label)).map_values(|event: EventView| event.id)
}

/// The handles of those of `events` that carry the label `label`, in their
/// order.
pub fn event_ids_by_label(events: Vec<Event>, label: &str) -> (ids: Vec<String>)
    ensures
        ids.deep_view() == ids_by_label(events.deep_view(), label@),
{
    let wanted = String::from_str(label);
    let ghost all = events.deep_view();
    let ghost id_of = |event: EventView| event.id;
    let mut ids: Vec<String> = Vec::new();
    assert(all.take(0).filter(labelled(label@)).map_values(id_of) == Seq::<Seq<char>>::empty()) by {
        reveal(Seq::filter);
    }
    for event in it: events.into_iter()
        invariant
            it.seq().len() == all.len(),
            forall|i: int| 0 <= i < all.len() ==> (#[trigger] it.seq()[i])@ == all[i],
            wanted@ == label@,
            id_of == |event: EventView| event.id,
            ids.deep_view() == all.take(it.index() as int).filter(labelled(label@)).map_values(
                id_of,
            ),
    {
        let ghost i = it.index() as int;
        let ghost before = all.take(i).filter(labelled(label@));
        assert(all.take(i + 1).drop_last() == all.take(i));
        assert(all.take(i + 1).last() == event@);
        assert(all.take(i + 1).filter(labelled(label@)) == if labelled(label@)(event@) {
            before.push(event@)
        } else {
            before
        }) by {
            reveal(Seq::filter);
        }
        let carries = match &event.summary {
            Some(summary) => *summary == wanted,
            None => false,
        };
        if carries {
            let ghost found = ids.deep_view();
            ids.push(event.id);
            assert(ids.deep_view() == found.push(event@.id));
            assert(before.push(event@).map_values(id_of) == before.map_values(id_of).push(
                event@.id,
            ));
        }
    }
    assert(all.take(all.len() as int) == all);
    ids
}

/// Who may do what with a calendar.
#[derive(Clone, Debug, PartialEq, Eq)]
pub struct AccessRule {
    /// What the rule allows.
    pub role: String,
    /// Whom the rule is for.
    pub scope: String,
}

/// The rule under which the calendars of the bot stand: everybody may read
/// them.
pub fn public_read_access() -> (rule: AccessRule)
    ensures
        rule.role@ == "reader"@,
        rule.scope@ == "default"@,
{
    AccessRule { role: String::from_str("reader"), scope: String::from_str("default") }
}

} // verus!
