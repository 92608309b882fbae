//! A client core that stays subscribed to a server-streamed event feed.
//!
//! The crate holds the decisions of such a client and none of its I/O: how
//! long to wait after a failure ([`retry`]), which errors there are
//! ([`error`]), what to do next given what just happened ([`runner`]), and
//! what holds of every run ([`trace`]). [`config`] holds the settings.
//! The program around it opens connections, pulls events, feeds the sink,
//! sleeps and watches for the shutdown request, and reports each result back.

pub mod config;
pub mod error;
pub mod retry;
pub mod runner;
pub mod trace;

pub use config::Config;
pub use error::Error;
pub use retry::RetryState;
pub use runner::{handle_event, Action, Outcome, Phase, Runner};
