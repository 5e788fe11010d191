//! What the scheduler asks the surrounding program to do, and what it wants
//! logged.

use crate::error::{Error, ErrorView};
use vstd::prelude::*;

verus! {

/// A request to the surrounding program. `C` is the type by which the chat
/// service knows a channel.
///
/// Requests that belong to one calendar or one delivery carry its number; the
/// outcome of the request is handed back under the same number.
#[derive(Debug, PartialEq, Eq)]
pub enum Action<C> {
    /// Fetch the list of all calendars.
    ListCalendars,
    /// Fetch the events of the calendar with this handle.
    ListEvents { calendar: usize, calendar_id: String },
    /// Look up the channel that announces the events of this server.
    FindChannel { delivery: usize, guild_id: u64 },
    /// Send `text` to `channel`.
    Send { delivery: usize, channel: C, text: String },
    /// Wait for the configured period.
    Sleep,
    /// Give up: the calendars could not be listed.
    Stop(Error),
}

/// An [`Action`] as contracts speak of it.
pub ghost enum ActionView<C> {
    ListCalendars,
    ListEvents { calendar: int, calendar_id: Seq<char> },
    FindChannel { delivery: int, guild_id: u64 },
    Send { delivery: int, channel: C, text: Seq<char> },
    Sleep,
    Stop(ErrorView),
}

impl<C> View for Action<C> {
    type V = ActionView<C>;

    open spec fn view(&self) -> ActionView<C> {
        match self {
            Action::ListCalendars => ActionView::ListCalendars,
            Action::ListEvents { calendar, calendar_id } => ActionView::ListEvents {
                calendar: *calendar as int,
                calendar_id: calendar_id@,
            },
            Action::FindChannel { delivery, guild_id } => ActionView::FindChannel {
                delivery: *delivery as int,
                guild_id: *guild_id,
            },
            Action::Send { delivery, channel, text } => ActionView::Send {
                delivery: *delivery as int,
                channel: *channel,
                text: text@,
            },
            Action::Sleep => ActionView::Sleep,
            Action::Stop(error) => ActionView::Stop(error@),
        }
    }
}

impl<C> DeepView for Action<C> {
    type V = ActionView<C>;

    open spec fn deep_view(&self) -> ActionView<C> {
        self@
    }
}

/// Something that went wrong, or was passed over, without stopping the work.
#[derive(Debug, PartialEq, Eq)]
pub enum Report {
    /// An event was passed over because it has no start date.
    NoStartDate { calendar_id: String, event_id: String },
    /// The events of a calendar could not be fetched; the calendar was left
    /// out of this pass.
    FetchFailed { calendar_id: String, error: Error },
    /// An event of today was not announced.
    NotAnnounced { calendar_id: String, event_id: String, error: Error },
    /// An outcome arrived that nothing was waiting for; it was ignored.
    Unexpected,
}

/// A [`Report`] as contracts speak of it.
pub ghost enum ReportView {
    NoStartDate { calendar_id: Seq<char>, event_id: Seq<char> },
    FetchFailed { calendar_id: Seq<char>, error: ErrorView },
    NotAnnounced { calendar_id: Seq<char>, event_id: Seq<char>, error: ErrorView },
    Unexpected,
}

impl View for Report {
    type V = ReportView;

    open spec fn view(&self) -> ReportView {
        match self {
            Report::NoStartDate { calendar_id, event_id } => ReportView::NoStartDate {
                calendar_id: calendar_id@,
                event_id: event_id@,
            },
            Report::FetchFailed { calendar_id, error } => ReportView::FetchFailed {
                calendar_id: calendar_id@,
                error: error@,
            },
            Report::NotAnnounced { calendar_id, event_id, error } => ReportView::NotAnnounced {
                calendar_id: calendar_id@,
                event_id: event_id@,
                error: error@,
            },
            Report::Unexpected => ReportView::Unexpected,
        }
    }
}

impl DeepView for Report {
    type V = ReportView;

    open spec fn deep_view(&self) -> ReportView {
        self@
    }
}

impl Report {
    /// Whether the report is about the data rather than about a failure, and
    /// so is worth a warning at most.
    pub fn is_warning(&self) -> (warning: bool)
        ensures
            warning == (self@ is NoStartDate),
    {
        match self {
            Report::NoStartDate { .. } => true,
            _ => false,
        }
    }
}

/// What one step of the scheduler asks for: requests to carry out, all at
/// once and in any order, and reports to log.
#[derive(Debug, PartialEq, Eq)]
pub struct Step<C> {
    pub actions: Vec<Action<C>>,
    pub reports: Vec<Report>,
}

/// A [`Step`] as contracts speak of it.
pub ghost struct StepView<C> {
    pub actions: Seq<ActionView<C>>,
    pub reports: Seq<ReportView>,
}

impl<C> View for Step<C> {
    type V = StepView<C>;

    open spec fn view(&self) -> StepView<C> {
        StepView { actions: self.actions.deep_view(), reports: self.reports.deep_view() }
    }
}

impl<C> StepView<C> {
    /// The step that asks for nothing and reports nothing.
    pub open spec fn nothing() -> StepView<C> {
        StepView { actions: Seq::empty(), reports: Seq::empty() }
    }

    /// The step that only reports.
    pub open spec fn only_report(report: ReportView) -> StepView<C> {
        StepView { actions: Seq::empty(), reports: seq![report] }
    }

    /// The step that only asks for one action.
    pub open spec fn only_action(action: ActionView<C>) -> StepView<C> {
        StepView { actions: seq![action], reports: Seq::empty() }
    }

    /// This step with one more action at its end.
    pub open spec fn and_then(self, action: ActionView<C>) -> StepView<C> {
        StepView { actions: self.actions.push(action), reports: self.reports }
    }
}

impl<C> Step<C> {
    /// The step that asks for nothing and reports nothing.
    pub fn nothing() -> (step: Step<C>)
        ensures
            step@ == StepView::<C>::nothing(),
    {
        let step = Step { actions: Vec::new(), reports: Vec::new() };
        assert(step@.actions =~= Seq::empty());
        assert(step@.reports =~= Seq::empty());
        step
    }

    /// The step that only reports.
    pub fn only_report(report: Report) -> (step: Step<C>)
        ensures
            step@ == StepView::<C>::only_report(report@),
    {
        let mut reports = Vec::new();
        reports.push(report);
        let step = Step { actions: Vec::new(), reports };
        assert(step@.actions =~= Seq::empty());
        assert(step@.reports =~= seq![report@]);
        step
    }

    /// The step that only asks for one action.
    pub fn only_action(action: Action<C>) -> (step: Step<C>)
        ensures
            step@ == StepView::<C>::only_action(action@),
    {
        let mut actions = Vec::new();
        actions.push(action);
        let step = Step { actions, reports: Vec::new() };
        assert(step@.actions =~= seq![action@]);
        assert(step@.reports =~= Seq::empty());
        step
    }

    /// This step with one more action at its end.
    pub fn and_then(self, action: Action<C>) -> (step: Step<C>)
        ensures
            step@ == self@.and_then(action@),
    {
        let mut step = self;
        step.actions.push(action);
        assert(step@.actions =~= self@.actions.push(action@));
        step
    }
}

} // verus!
