//! Transport core of a client for the TrueLayer payments APIs.
//!
//! The crate holds the decisions of the client: when an access token is
//! reused and when it is refreshed, which requests are signed, which are
//! safe to retry, how an error response is turned into a typed error, and
//! how long a poller waits between two fetches. Sending requests, awaiting
//! replies and sleeping are left to the caller, which feeds what it observed
//! back into the functions of this crate.
pub mod apis;
pub mod authenticator;
pub mod backoff;
pub mod client;
pub mod common;
pub mod error;
pub mod middlewares;
pub mod pollable;
pub mod request;
pub mod text;
pub mod time;

pub use time::{Interval, Timestamp};

pub use client::{Environment, TrueLayerClient, TrueLayerClientBuilder};
pub use error::{ApiError, Error};
pub use pollable::{IsInTerminalState, PollError, PollOptions, Poller};
