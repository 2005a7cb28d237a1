//! The core of a reverse proxy: requests that arrive under the prefix `/api`
//! are sent on to one upstream, and its responses are handed back.
//!
//! The library decides and does no input or output. A server reads a request
//! and hands it to `exchange::prepare`, sends what that returns, hands the
//! upstream's answer to `exchange::conclude`, and writes what
//! `exchange::answer` makes of the outcome. `exchange::reverse_proxy` does the
//! same around a function that stands for the upstream.
//!
//! - `target`: the shared configuration and the upstream URL of a request.
//! - `header`: header fields, and names compared without regard to case.
//! - `forward`: the outbound request for an inbound one.
//! - `relay`: the response that the client is given.
//! - `exchange`: one exchange from the inbound request to the answer.
//! - `error`: what can go wrong, and the status that answers it.
//! - `urls`: what is taken on trust of the `url` crate.

pub mod error;
pub mod exchange;
pub mod forward;
pub mod header;
pub mod relay;
pub mod target;
pub mod urls;
