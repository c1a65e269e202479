//! The presence that a client announces.

use super::activity::Activity;
use vstd::prelude::*;
use vstd::string::StringExecFns;

verus! {

/// Whether and how a user is there.
#[derive(Debug, Eq, PartialEq, Clone, Structural)]
pub enum StatusType {
    Online,
    Dnd,
    Idle,
    Invisible,
    Offline,
}

/// What a client tells the gateway about its user.
#[derive(Debug, Clone)]
pub struct GatewayPresence {
    pub since: Option<u128>,
    pub activities: Vec<Activity>,
    pub status: StatusType,
    pub afk: bool,
}

impl StatusType {
    /// The name that stands for the status on the wire.
    pub open spec fn name_of(self) -> Seq<char> {
        match self {
            StatusType::Online => "online"@,
            StatusType::Dnd => "dnd"@,
            StatusType::Idle => "idle"@,
            StatusType::Invisible => "invisible"@,
            StatusType::Offline => "offline"@,
        }
    }

    /// The name that stands for the status on the wire.
    pub fn name(&self) -> (r: &'static str)
        ensures
            r@ == self.name_of(),
    {
        match self {
            StatusType::Online => "online",
            StatusType::Dnd => "dnd",
            StatusType::Idle => "idle",
            StatusType::Invisible => "invisible",
            StatusType::Offline => "offline",
        }
    }

    /// The name of the status as a text of its own.
    pub fn to_string(&self) -> (r: String)
        ensures
            r@ == self.name_of(),
    {
        String::from_str(self.name())
    }
}

} // verus!
