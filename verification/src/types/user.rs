//! Users, and the user that the client is logged in as.

use crate::json::{Json, JsonValue, ToJson};
use super::snowflake::Snowflake;
use vstd::prelude::*;

verus! {

/// The decoration of an avatar.
#[derive(Debug, Clone)]
pub struct AvatarDecorationData {
    pub asset: String,
    pub sku_id: String,
}

impl ToJson for AvatarDecorationData {
    open spec fn json_of(&self) -> JsonValue {
        JsonValue::Object(Seq::empty())
            .with("asset"@, self.asset.json_of())
            .with("sku_id"@, self.sku_id.json_of())
    }

    fn to_json(&self) -> (r: Json) {
        Json::object()
            .with("asset", self.asset.to_json())
            .with("sku_id", self.sku_id.to_json())
    }
}

/// The clan that a user shows.
#[derive(Debug, Clone)]
pub struct UserClan {
    pub shown: bool,
    pub badge: Option<String>,
    pub identity_guild_id: Option<String>,
    pub tag: Option<String>,
}

/// Whether a relationship is with a user or with a bot.
#[derive(Debug, Clone)]
pub enum RelationshipType {
    User,
    Bot,
}

impl RelationshipType {
    /// The number that stands for the value on the wire.
    pub open spec fn code_of(self) -> u8 {
        match self {
            RelationshipType::User => 1,
            RelationshipType::Bot => 2,
        }
    }

    /// The number that stands for the value on the wire.
    pub fn code(&self) -> (r: u8)
        ensures
            r == self.code_of(),
    {
        match self {
            RelationshipType::User => 1,
            RelationshipType::Bot => 2,
        }
    }

    /// The value that a number of the wire stands for, if it stands for one.
    pub fn from_code(code: u8) -> (r: Option<Self>)
        ensures
            match r {
                Some(value) => value.code_of() == code,
                None => forall|value: Self| value.code_of() != code,
            },
    {
        if code == 1 {
            Some(RelationshipType::User)
        } else if code == 2 {
            Some(RelationshipType::Bot)
        } else {
            None
        }
    }
}

/// A relationship of the logged-in user with another.
#[derive(Debug, Clone)]
pub struct Relationship {
    pub id: String,
    pub nickname: Option<String>,
    pub since: Option<String>,
    pub user_type: RelationshipType,
}

/// The subscription of a user.
#[derive(Debug, Clone)]
pub enum PremiumType {
    Free,
    NitroClassic,
    Nitro,
    NitroBasic,
}

impl PremiumType {
    /// The number that stands for the value on the wire.
    pub open spec fn code_of(self) -> u8 {
        match self {
            PremiumType::Free => 0,
            PremiumType::NitroClassic => 1,
            PremiumType::Nitro => 2,
            PremiumType::NitroBasic => 3,
        }
    }

    /// The number that stands for the value on the wire.
    pub fn code(&self) -> (r: u8)
        ensures
            r == self.code_of(),
    {
        match self {
            PremiumType::Free => 0,
            PremiumType::NitroClassic => 1,
            PremiumType::Nitro => 2,
            PremiumType::NitroBasic => 3,
        }
    }

    /// The value that a number of the wire stands for, if it stands for one.
    pub fn from_code(code: u8) -> (r: Option<Self>)
        ensures
            match r {
                Some(value) => value.code_of() == code,
                None => forall|value: Self| value.code_of() != code,
            },
    {
        if code == 0 {
            Some(PremiumType::Free)
        } else if code == 1 {
            Some(PremiumType::NitroClassic)
        } else if code == 2 {
            Some(PremiumType::Nitro)
        } else if code == 3 {
            Some(PremiumType::NitroBasic)
        } else {
            None
        }
    }
}

impl ToJson for PremiumType {
    open spec fn json_of(&self) -> JsonValue {
        JsonValue::number(self.code_of() as nat)
    }

    fn to_json(&self) -> (r: Json) {
        Json::number(self.code() as u64)
    }
}

/// One bit of the public flags of a user.
#[derive(Debug, Clone)]
pub enum UserFlags {
    Staff,
    Partner,
    Hypesquad,
    BugHunterLvl1,
    HypesquadBravery,
    HypesquadBrilliance,
    HypesquadBalance,
    EarlyNitroSupporter,
    TeamPseudoUser,
    BugHunterLvl2,
    VerifiedBot,
    VerifiedDev,
    CertifiedMod,
    BotHTTPInteractions,
    ActiveDev,
}

impl UserFlags {
    /// The number that stands for the value on the wire.
    pub open spec fn code_of(self) -> u32 {
        match self {
            UserFlags::Staff => 1,
            UserFlags::Partner => 2,
            UserFlags::Hypesquad => 4,
            UserFlags::BugHunterLvl1 => 8,
            UserFlags::HypesquadBravery => 64,
            UserFlags::HypesquadBrilliance => 128,
            UserFlags::HypesquadBalance => 256,
            UserFlags::EarlyNitroSupporter => 512,
            UserFlags::TeamPseudoUser => 1024,
            UserFlags::BugHunterLvl2 => 16384,
            UserFlags::VerifiedBot => 65536,
            UserFlags::VerifiedDev => 131072,
            UserFlags::CertifiedMod => 262144,
            UserFlags::BotHTTPInteractions => 524288,
            UserFlags::ActiveDev => 4194304,
        }
    }

    /// The number that stands for the value on the wire.
    pub fn code(&self) -> (r: u32)
        ensures
            r == self.code_of(),
    {
        match self {
            UserFlags::Staff => 1,
            UserFlags::Partner => 2,
            UserFlags::Hypesquad => 4,
            UserFlags::BugHunterLvl1 => 8,
            UserFlags::HypesquadBravery => 64,
            UserFlags::HypesquadBrilliance => 128,
            UserFlags::HypesquadBalance => 256,
            UserFlags::EarlyNitroSupporter => 512,
            UserFlags::TeamPseudoUser => 1024,
            UserFlags::BugHunterLvl2 => 16384,
            UserFlags::VerifiedBot => 65536,
            UserFlags::VerifiedDev => 131072,
            UserFlags::CertifiedMod => 262144,
            UserFlags::BotHTTPInteractions => 524288,
            UserFlags::ActiveDev => 4194304,
        }
    }

    /// The value that a number of the wire stands for, if it stands for one.
    pub fn from_code(code: u32) -> (r: Option<Self>)
        ensures
            match r {
                Some(value) => value.code_of() == code,
                None => forall|value: Self| value.code_of() != code,
            },
    {
        if code == 1 {
            Some(UserFlags::Staff)
        } else if code == 2 {
            Some(UserFlags::Partner)
        } else if code == 4 {
            Some(UserFlags::Hypesquad)
        } else if code == 8 {
            Some(UserFlags::BugHunterLvl1)
        } else if code == 64 {
            Some(UserFlags::HypesquadBravery)
        } else if code == 128 {
            Some(UserFlags::HypesquadBrilliance)
        } else if code == 256 {
            Some(UserFlags::HypesquadBalance)
        } else if code == 512 {
            Some(UserFlags::EarlyNitroSupporter)
        } else if code == 1024 {
            Some(UserFlags::TeamPseudoUser)
        } else if code == 16384 {
            Some(UserFlags::BugHunterLvl2)
        } else if code == 65536 {
            Some(UserFlags::VerifiedBot)
        } else if code == 131072 {
            Some(UserFlags::VerifiedDev)
        } else if code == 262144 {
            Some(UserFlags::CertifiedMod)
        } else if code == 524288 {
            Some(UserFlags::BotHTTPInteractions)
        } else if code == 4194304 {
            Some(UserFlags::ActiveDev)
        } else {
            None
        }
    }
}

/// A user.
#[derive(Debug, Clone)]
pub struct User {
    pub id: Snowflake,
    pub username: String,
    pub global_name: Option<String>,
    pub avatar: Option<String>,
    pub avatar_decoration_data: Option<AvatarDecorationData>,
    pub banner: Option<String>,
    pub accent_color: Option<u32>,
    pub locale: Option<String>,
    pub is_bot: bool,
    pub is_system: bool,
    pub is_verified: Option<bool>,
    pub email: Option<String>,
    pub mfa_enabled: Option<bool>,
    pub public_flags: Option<u32>,
    pub premium_type: Option<PremiumType>,
}

impl ToJson for User {
    open spec fn json_of(&self) -> JsonValue {
        JsonValue::Object(Seq::empty())
            .with("id"@, self.id.json_of())
            .with("username"@, self.username.json_of())
            .with("global_name"@, self.global_name.json_of())
            .with("avatar"@, self.avatar.json_of())
            .with("avatar_decoration_data"@, self.avatar_decoration_data.json_of())
            .with("banner"@, self.banner.json_of())
            .with("accent_color"@, self.accent_color.json_of())
            .with("locale"@, self.locale.json_of())
            .with("bot"@, self.is_bot.json_of())
            .with("system"@, self.is_system.json_of())
            .with("verified"@, self.is_verified.json_of())
            .with("email"@, self.email.json_of())
            .with("mfa_enabled"@, self.mfa_enabled.json_of())
            .with("public_flags"@, self.public_flags.json_of())
            .with("premium_type"@, self.premium_type.json_of())
    }

    fn to_json(&self) -> (r: Json) {
        Json::object()
            .with("id", self.id.to_json())
            .with("username", self.username.to_json())
            .with("global_name", self.global_name.to_json())
            .with("avatar", self.avatar.to_json())
            .with("avatar_decoration_data", self.avatar_decoration_data.to_json())
            .with("banner", self.banner.to_json())
            .with("accent_color", self.accent_color.to_json())
            .with("locale", self.locale.to_json())
            .with("bot", self.is_bot.to_json())
            .with("system", self.is_system.to_json())
            .with("verified", self.is_verified.to_json())
            .with("email", self.email.to_json())
            .with("mfa_enabled", self.mfa_enabled.to_json())
            .with("public_flags", self.public_flags.to_json())
            .with("premium_type", self.premium_type.to_json())
    }
}

/// The user that the client is logged in as.
#[derive(Debug, Clone)]
pub struct BotUser {
    pub id: String,
    pub username: String,
    pub global_name: Option<String>,
    pub pronouns: String,
    pub bio: String,
    pub avatar: Option<String>,
    pub avatar_decoration_data: Option<AvatarDecorationData>,
    pub banner: Option<String>,
    pub banner_color: String,
    pub accent_color: u64,
    pub clan: Option<UserClan>,
    pub on_desktop: bool,
    pub on_mobile: bool,
    pub is_verified: bool,
    pub has_premium: bool,
    pub email: Option<String>,
    pub phone: Option<String>,
    pub mfa_enabled: bool,
    pub nsfw_allowed: bool,
    pub premium_type: u32,
    pub purchased_flags: u32,
    pub public_flags: u64,
    pub flags: u64,
}

/// What a user is taken to be where the wire does not say whether it is a
/// bot or the system: neither.
pub fn default_bot_value() -> (r: bool)
    ensures
        !r,
{
    false
}

} // verus!
