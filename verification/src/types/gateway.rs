//! What the gateway sends when a session opens.

use super::channel::Channel;
use super::guild::CachedGuild;
use super::user::{BotUser, Relationship, User};
use vstd::prelude::*;

verus! {

/// What the gateway sends when a session opens: who the client is, where
/// to resume, and what the client can see from the start.
#[derive(Debug, Clone)]
pub struct Ready {
    pub private_channels: Vec<Channel>,
    pub friends: Vec<Relationship>,
    pub resume_gateway_url: String,
    pub session_id: String,
    pub session_type: String,
    pub user: BotUser,
    pub cached_users: Vec<User>,
    pub cached_guilds: Vec<CachedGuild>,
}

} // verus!
