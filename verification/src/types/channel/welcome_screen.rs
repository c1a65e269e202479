//! The screen that welcomes a new member of a guild.

use crate::types::snowflake::Snowflake;
use vstd::prelude::*;

verus! {

/// What a guild shows to a new member.
#[derive(Debug, Clone)]
pub struct WelcomeScreen {
    pub description: Option<String>,
    pub channels: Vec<WelcomeChannel>,
}

/// One channel that the welcome screen points to.
#[derive(Debug, Clone)]
pub struct WelcomeChannel {
    pub channel_id: Snowflake,
    pub description: String,
    pub emoji_id: Option<Snowflake>,
    pub emoji_name: Option<String>,
}

} // verus!
