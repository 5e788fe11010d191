//! The failures the bot reports.

use crate::text::{numeral, push_numeral};
use vstd::prelude::*;
use vstd::string::StringExecFns;

verus! {

/// A failure, with what is needed to diagnose it.
///
/// The last five variants stand for failures of the services the bot talks
/// to; they carry the service's own description.
#[derive(Clone, Debug, PartialEq, Eq)]
pub enum Error {
    /// A calendar's summary is not the number of a server.
    CalendarSummaryNotDiscordServerId(String),
    /// No channel has been chosen for the events of this server.
    DiscordSeverHasNoEventChannel(u64),
    /// The connection pool is missing from the shared data.
    NoPool,
    /// The calendar client is missing from the shared data.
    NoCalendarClient,
    /// The database failed.
    DbError(String),
    /// The calendar service failed.
    GoogleError(String),
    /// Reading or writing failed.
    IoError(String),
    /// The configuration could not be read.
    ConfigError(String),
    /// The chat service failed.
    SerenityError(String),
}

/// An [`Error`] as contracts speak of it.
pub ghost enum ErrorView {
    CalendarSummaryNotDiscordServerId(Seq<char>),
    DiscordSeverHasNoEventChannel(u64),
    NoPool,
    NoCalendarClient,
    DbError(Seq<char>),
    GoogleError(Seq<char>),
    IoError(Seq<char>),
    ConfigError(Seq<char>),
    SerenityError(Seq<char>),
}

impl View for Error {
    type V = ErrorView;

    open spec fn view(&self) -> ErrorView {
        match self {
            Error::CalendarSummaryNotDiscordServerId(summary) => {
                ErrorView::CalendarSummaryNotDiscordServerId(summary@)
            },
            Error::DiscordSeverHasNoEventChannel(guild) => {
                ErrorView::DiscordSeverHasNoEventChannel(*guild)
            },
            Error::NoPool => ErrorView::NoPool,
            Error::NoCalendarClient => ErrorView::NoCalendarClient,
            Error::DbError(cause) => ErrorView::DbError(cause@),
            Error::GoogleError(cause) => ErrorView::GoogleError(cause@),
            Error::IoError(cause) => ErrorView::IoError(cause@),
            Error::ConfigError(cause) => ErrorView::ConfigError(cause@),
            Error::SerenityError(cause) => ErrorView::SerenityError(cause@),
        }
    }
}

impl DeepView for Error {
    type V = ErrorView;

    open spec fn deep_view(&self) -> ErrorView {
        self@
    }
}

impl ErrorView {
    /// The sentence that describes the failure.
    pub open spec fn message(self) -> Seq<char> {
        match self {
            ErrorView::CalendarSummaryNotDiscordServerId(summary) => {
                "The calendar summary "@ + summary + " is not a discord server id"@
            },
            ErrorView::DiscordSeverHasNoEventChannel(guild) => {
                "The server "@ + numeral(guild as nat) + " has no event channel"@
            },
            ErrorView::NoPool => "No pool in data"@,
            ErrorView::NoCalendarClient => "No calendar client in data"@,
            ErrorView::DbError(cause) => cause,
            ErrorView::GoogleError(cause) => cause,
            ErrorView::IoError(cause) => cause,
            ErrorView::ConfigError(cause) => cause,
            ErrorView::SerenityError(cause) => cause,
        }
    }
}

impl Error {
    /// The sentence that describes the failure.
    pub fn message(&self) -> (text: String)
        ensures
            text@ == self@.message(),
    {
        match self {
            Error::CalendarSummaryNotDiscordServerId(summary) => {
                let mut text = String::from_str("The calendar summary ");
                text.append(summary.as_str());
                text.append(" is not a discord server id");
                text
            },
            Error::DiscordSeverHasNoEventChannel(guild) => {
                let mut text = String::from_str("The server ");
                push_numeral(&mut text, *guild);
                text.append(" has no event channel");
                text
            },
            Error::NoPool => String::from_str("No pool in data"),
            Error::NoCalendarClient => String::from_str("No calendar client in data"),
            Error::DbError(cause) => cause.clone(),
            Error::GoogleError(cause) => cause.clone(),
            Error::IoError(cause) => cause.clone(),
            Error::ConfigError(cause) => cause.clone(),
            Error::SerenityError(cause) => cause.clone(),
        }
    }
}

} // verus!
