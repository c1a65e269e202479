//! The data model: the records that the gateway and the API send and take.

pub mod activity;
pub mod channel;
pub mod common;
pub mod gateway;
pub mod guild;
pub mod message;
pub mod poll;
pub mod presence;
pub mod role;
pub mod sticker;
pub mod timestamp;
pub mod user;

mod snowflake;

pub use snowflake::{Snowflake, DISCORD_EPOCH};
