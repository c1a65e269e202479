//! Live stages.

use crate::types::snowflake::Snowflake;
use vstd::prelude::*;

verus! {

/// Who can see a live stage.
#[derive(Debug, Eq, PartialEq, Clone, Structural)]
pub enum PrivacyLevel {
    Public,
    GuildOnly,
}

impl PrivacyLevel {
    /// The number that stands for the value on the wire.
    pub open spec fn code_of(self) -> u8 {
        match self {
            PrivacyLevel::Public => 1,
            PrivacyLevel::GuildOnly => 2,
        }
    }

    /// The number that stands for the value on the wire.
    pub fn code(&self) -> (r: u8)
        ensures
            r == self.code_of(),
    {
        match self {
            PrivacyLevel::Public => 1,
            PrivacyLevel::GuildOnly => 2,
        }
    }

    /// The value that a number of the wire stands for, if it stands for one.
    pub fn from_code(code: u8) -> (r: Option<Self>)
        ensures
            match r {
                Some(value) => value.code_of() == code,
                None => forall|value: Self| value.code_of() != code,
            },
    {
        if code == 1 {
            Some(PrivacyLevel::Public)
        } else if code == 2 {
            Some(PrivacyLevel::GuildOnly)
        } else {
            None
        }
    }
}

/// A stage that is live.
#[derive(Debug, Clone)]
pub struct StageInstance {
    pub id: Snowflake,
    pub guild_id: Snowflake,
    pub channel_id: Snowflake,
    pub topic: String,
    pub privacy_level: PrivacyLevel,
    pub guild_scheduled_event_id: Option<Snowflake>,
}

} // verus!
