//! Currency conversion around a daily reference-rate document, with a cache
//! whose freshness follows the publisher's business-day schedule.

pub mod args;
pub mod command;
pub mod document;
pub mod format;
pub mod freshness;
pub mod refresh;
