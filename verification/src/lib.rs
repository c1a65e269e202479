//! Client library for the Discord gateway: the session state machine, the
//! wire messages it exchanges and the data model that travels in them.
//!
//! The library holds state and decisions and does no input or output of
//! its own. A driver opens the socket, moves frames between it and the
//! queues of a [`Websocket`], and calls [`Client::run`] for each pass of
//! the main loop.

pub mod client;
pub mod context;
pub mod error;
pub mod json;
pub mod text;
pub mod types;
pub mod websocket;

pub use client::{Client, Pass};
pub use context::{Context, Method, Request, Response, ResumeInfo};
pub use error::Error;
pub use json::Json;
pub use types::Snowflake;
pub use websocket::{DiscordMessage, Frame, Websocket};
