//! Decision logic of a bot that announces the events of per-guild calendars
//! in a chat channel.
//!
//! Everything here is a function from plain values to plain values: the
//! surrounding program performs the calendar, storage and chat calls and hands
//! their outcomes back in.

pub mod action;
pub mod calendar;
pub mod config;
pub mod date;
pub mod discord;
pub mod error;
pub mod identity;
pub mod scheduler;
pub mod sweep;
pub mod text;

pub use crate::error::Error;
