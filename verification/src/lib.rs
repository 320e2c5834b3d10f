//! The rules of a feed monitor for a chat bot.
//!
//! A few feeds are polled at a fixed interval. For each, the newest entry
//! is compared with what a cache remembers; what is new or has changed is
//! shown in a channel, either as a fresh message or by editing the one
//! that shows the same incident; what fails is reported in one message to
//! the operators at the end of the tick.
//!
//! This crate holds the decisions and leaves the doing to its caller:
//! requests, the cache and the channel are reached from outside. A step
//! here takes what was read and answers with what to write and what to do
//! next.
//!
//! - [`html`] rewrites feed HTML as chat markup.
//! - [`incident`] reads the state and identifier of an incident.
//! - [`esxi`], [`github`], [`gportal`] and [`rust`] are the adapters, one
//!   for each source; [`source`] holds what is true of all of them.
//! - [`delivery`] posts or edits a message, step by step.
//! - [`processor`] keeps the sources and makes the report of a tick.
//! - [`cache`], [`http`] and [`scheduler`] hold the rules of the cache,
//!   of fetching and of timing.

pub mod adapter;
pub mod cache;
pub mod config;
pub mod delivery;
pub mod error;
pub mod esxi;
pub mod feed;
pub mod github;
pub mod gportal;
pub mod html;
pub mod http;
pub mod incident;
pub mod moderation;
pub mod number;
pub mod output;
pub mod pattern;
pub mod processor;
pub mod redfish;
pub mod rust;
pub mod scheduler;
pub mod source;
pub mod text;
pub mod utils;
