//! Records that several parts of the data model share.

use crate::json::{Json, JsonValue, ToJson};
use std::collections::HashMap;
use super::channel::Channel;
use super::guild::GuildMember;
use super::message::{Attachment, Message};
use super::role::Role;
use super::snowflake::Snowflake;
use super::user::User;
use vstd::prelude::*;

verus! {

/// An emoji, custom or standard.
#[derive(Debug, Clone)]
pub struct Emoji {
    pub id: Option<Snowflake>,
    pub name: Option<String>,
    pub roles: Option<Vec<Snowflake>>,
    pub creator: Option<User>,
    pub require_colons: Option<bool>,
    pub managed: Option<bool>,
    pub animated: Option<bool>,
    pub available: Option<bool>,
}

impl ToJson for Emoji {
    open spec fn json_of(&self) -> JsonValue {
        JsonValue::Object(Seq::empty())
            .with("id"@, self.id.json_of())
            .with("name"@, self.name.json_of())
            .with("roles"@, self.roles.json_of())
            .with("user"@, self.creator.json_of())
            .with("require_colons"@, self.require_colons.json_of())
            .with("managed"@, self.managed.json_of())
            .with("animated"@, self.animated.json_of())
            .with("available"@, self.available.json_of())
    }

    fn to_json(&self) -> (r: Json) {
        Json::object()
            .with("id", self.id.to_json())
            .with("name", self.name.to_json())
            .with("roles", self.roles.to_json())
            .with("user", self.creator.to_json())
            .with("require_colons", self.require_colons.to_json())
            .with("managed", self.managed.to_json())
            .with("animated", self.animated.to_json())
            .with("available", self.available.to_json())
    }
}

/// The records that an interaction refers to, by their identifiers.
#[derive(Debug)]
pub struct Resolved {
    pub users: Option<HashMap<Snowflake, User>>,
    pub members: Option<HashMap<Snowflake, GuildMember>>,
    pub roles: Option<HashMap<Snowflake, Role>>,
    pub channels: Option<HashMap<Snowflake, Channel>>,
    pub messages: Option<HashMap<Snowflake, Message>>,
    pub attachments: Option<HashMap<Snowflake, Attachment>>,
}

} // verus!
