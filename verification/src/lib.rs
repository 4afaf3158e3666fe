//! Client library for the Pwnboard scoreboard service.
//!
//! A [`Pwnboard`] holds a validated base URI and a reusable HTTP transport
//! handle. Each of the three operations (box access, credential, log) is
//! built here as a concrete HTTP request — target URL and JSON body — with
//! a verified contract describing the exact text produced. Sending the
//! request over the network is left to the embedding application.

pub mod client;
pub mod json;
pub mod level;

pub use client::ConstructionError;
pub use client::Pwnboard;
pub use client::Request;
pub use level::LogLevel;
