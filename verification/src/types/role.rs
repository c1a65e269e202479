//! Roles of a guild.

use crate::json::{Json, JsonValue};
use super::snowflake::Snowflake;
use vstd::prelude::*;

verus! {

/// What a role is tied to. A member that stands for a truth value is
/// there where it is true and missing where it is false.
#[derive(Debug, Clone)]
pub struct RoleTag {
    pub bot_id: Option<Snowflake>,
    pub integration_id: Option<Snowflake>,
    pub subscription_listing_id: Option<Snowflake>,
    pub premium_subscriber: Option<()>,
    pub available_for_purchase: Option<()>,
    pub guild_connections: Option<()>,
}

/// The subscription that a message about a bought role tells of.
#[derive(Debug, Clone)]
pub struct RoleSubscriptionData {
    pub role_subscription_listing_id: Snowflake,
    pub tier_name: String,
    pub total_months_subscribed: u64,
    pub is_renewal: bool,
}

/// One bit of the flags of a role.
#[derive(Debug, Clone)]
pub enum RoleFlags {
    InPrompt,
}

impl RoleFlags {
    /// The number that stands for the value on the wire.
    pub open spec fn code_of(self) -> u8 {
        match self {
            RoleFlags::InPrompt => 1,
        }
    }

    /// The number that stands for the value on the wire.
    pub fn code(&self) -> (r: u8)
        ensures
            r == self.code_of(),
    {
        match self {
            RoleFlags::InPrompt => 1,
        }
    }

    /// The value that a number of the wire stands for, if it stands for one.
    pub fn from_code(code: u8) -> (r: Option<Self>)
        ensures
            match r {
                Some(value) => value.code_of() == code,
                None => forall|value: Self| value.code_of() != code,
            },
    {
        if code == 1 {
            Some(RoleFlags::InPrompt)
        } else {
            None
        }
    }
}

/// A role of a guild.
#[derive(Debug, Clone)]
pub struct Role {
    pub id: Snowflake,
    pub name: String,
    pub color: u64,
    pub hoist: bool,
    pub position: u64,
    pub permissions: String,
    pub managed: bool,
    pub mentionable: bool,
    pub tags: Option<RoleTag>,
    pub flags: u8,
    pub icon: Option<String>,
    pub emoji: Option<String>,
}

/// Puts together the document of a role to make.
#[derive(Debug)]
pub struct RoleBuilder {
    value: Json,
}

impl View for RoleBuilder {
    type V = JsonValue;

    closed spec fn view(&self) -> JsonValue {
        self.value@
    }
}

impl RoleBuilder {
    #[verifier::type_invariant]
    spec fn is_object(self) -> bool {
        self.value@ is Object
    }

    /// The least that a role to be made holds: its name and its permissions.
    pub open spec fn initial(name: Seq<char>, permissions: Seq<char>) -> JsonValue {
        JsonValue::Object(Seq::empty()).with("name"@, JsonValue::Text(name)).with(
            "permissions"@,
            JsonValue::Text(permissions),
        )
    }

    /// A role with the given name and permissions.
    pub fn new(name: String, permissions: String) -> (r: Self)
        ensures
            r@ == Self::initial(name@, permissions@),
    {
        Self {
            value: Json::object().with("name", Json::Text(name)).with(
                "permissions",
                Json::Text(permissions),
            ),
        }
    }

    /// Sets the colour of the role.
    pub fn set_color(&mut self, color: u64)
        ensures
            final(self)@ == old(self)@.set("color"@, JsonValue::number(color as nat)),
    {
        proof {
            use_type_invariant(&*self);
        }
        self.value = self.value.duplicate().set("color", Json::number(color));
    }

    /// Sets whether the members of the role are listed apart.
    pub fn set_hoist(&mut self, hoist: bool)
        ensures
            final(self)@ == old(self)@.set("hoist"@, JsonValue::Bool(hoist)),
    {
        proof {
            use_type_invariant(&*self);
        }
        self.value = self.value.duplicate().set("hoist", Json::Bool(hoist));
    }

    /// Sets the icon of the role, as the data of a picture.
    pub fn set_icon(&mut self, icon: String)
        ensures
            final(self)@ == old(self)@.set("icon"@, JsonValue::Text(icon@)),
    {
        proof {
            use_type_invariant(&*self);
        }
        self.value = self.value.duplicate().set("icon", Json::Text(icon));
    }

    /// Sets the emoji of the role.
    pub fn set_emoji(&mut self, emoji: String)
        ensures
            final(self)@ == old(self)@.set("unicode_emoji"@, JsonValue::Text(emoji@)),
    {
        proof {
            use_type_invariant(&*self);
        }
        self.value = self.value.duplicate().set("unicode_emoji", Json::Text(emoji));
    }

    /// Sets whether the role can be mentioned.
    pub fn set_mentionable(&mut self, mentionable: bool)
        ensures
            final(self)@ == old(self)@.set("mentionable"@, JsonValue::Bool(mentionable)),
    {
        proof {
            use_type_invariant(&*self);
        }
        self.value = self.value.duplicate().set("mentionable", Json::Bool(mentionable));
    }

    /// The document of the role.
    pub fn build(self) -> (r: Json)
        ensures
            r@ == self@,
    {
        self.value
    }
}

} // verus!
