//! Guilds and their members.

use crate::context::{Context, Method, Request};
use crate::error::Error;
use crate::json::{Json, JsonValue, ToJson};
use crate::text::{decimal, join, text_view};
use super::channel::Channel;
use super::channel::welcome_screen::WelcomeScreen;
use super::common::Emoji;
use super::role::Role;
use super::snowflake::Snowflake;
use super::sticker::Sticker;
use super::timestamp::Timestamp;
use super::user::{AvatarDecorationData, User};
use vstd::prelude::*;
use vstd::string::StringExecFns;

verus! {

/// Whether moderators of a guild need a second factor.
#[derive(Debug, Eq, PartialEq, Clone, Structural)]
pub enum MFALevel {
    NotRequired,
    Elevated,
}

impl MFALevel {
    /// The number that stands for the value on the wire.
    pub open spec fn code_of(self) -> u8 {
        match self {
            MFALevel::NotRequired => 0,
            MFALevel::Elevated => 1,
        }
    }

    /// The number that stands for the value on the wire.
    pub fn code(&self) -> (r: u8)
        ensures
            r == self.code_of(),
    {
        match self {
            MFALevel::NotRequired => 0,
            MFALevel::Elevated => 1,
        }
    }

    /// The value that a number of the wire stands for, if it stands for one.
    pub fn from_code(code: u8) -> (r: Option<Self>)
        ensures
            match r {
                Some(value) => value.code_of() == code,
                None => forall|value: Self| value.code_of() != code,
            },
    {
        if code == 0 {
            Some(MFALevel::NotRequired)
        } else if code == 1 {
            Some(MFALevel::Elevated)
        } else {
            None
        }
    }
}

/// How a guild is rated by age.
#[derive(Debug, Eq, PartialEq, Clone, Structural)]
pub enum NSFWLevel {
    Default,
    Explicit,
    Safe,
    AgeRestricted,
}

impl NSFWLevel {
    /// The number that stands for the value on the wire.
    pub open spec fn code_of(self) -> u8 {
        match self {
            NSFWLevel::Default => 0,
            NSFWLevel::Explicit => 1,
            NSFWLevel::Safe => 2,
            NSFWLevel::AgeRestricted => 3,
        }
    }

    /// The number that stands for the value on the wire.
    pub fn code(&self) -> (r: u8)
        ensures
            r == self.code_of(),
    {
        match self {
            NSFWLevel::Default => 0,
            NSFWLevel::Explicit => 1,
            NSFWLevel::Safe => 2,
            NSFWLevel::AgeRestricted => 3,
        }
    }

    /// The value that a number of the wire stands for, if it stands for one.
    pub fn from_code(code: u8) -> (r: Option<Self>)
        ensures
            match r {
                Some(value) => value.code_of() == code,
                None => forall|value: Self| value.code_of() != code,
            },
    {
        if code == 0 {
            Some(NSFWLevel::Default)
        } else if code == 1 {
            Some(NSFWLevel::Explicit)
        } else if code == 2 {
            Some(NSFWLevel::Safe)
        } else if code == 3 {
            Some(NSFWLevel::AgeRestricted)
        } else {
            None
        }
    }
}

/// What a guild asks of a user before the user may write.
#[derive(Debug, Eq, PartialEq, Clone, Structural)]
pub enum VerificationLevel {
    Unrestricted,
    Low,
    Medium,
    High,
    VeryHigh,
}

impl VerificationLevel {
    /// The number that stands for the value on the wire.
    pub open spec fn code_of(self) -> u8 {
        match self {
            VerificationLevel::Unrestricted => 0,
            VerificationLevel::Low => 1,
            VerificationLevel::Medium => 2,
            VerificationLevel::High => 3,
            VerificationLevel::VeryHigh => 4,
        }
    }

    /// The number that stands for the value on the wire.
    pub fn code(&self) -> (r: u8)
        ensures
            r == self.code_of(),
    {
        match self {
            VerificationLevel::Unrestricted => 0,
            VerificationLevel::Low => 1,
            VerificationLevel::Medium => 2,
            VerificationLevel::High => 3,
            VerificationLevel::VeryHigh => 4,
        }
    }

    /// The value that a number of the wire stands for, if it stands for one.
    pub fn from_code(code: u8) -> (r: Option<Self>)
        ensures
            match r {
                Some(value) => value.code_of() == code,
                None => forall|value: Self| value.code_of() != code,
            },
    {
        if code == 0 {
            Some(VerificationLevel::Unrestricted)
        } else if code == 1 {
            Some(VerificationLevel::Low)
        } else if code == 2 {
            Some(VerificationLevel::Medium)
        } else if code == 3 {
            Some(VerificationLevel::High)
        } else if code == 4 {
            Some(VerificationLevel::VeryHigh)
        } else {
            None
        }
    }
}

/// Which messages members are notified of by default.
#[derive(Debug, Eq, PartialEq, Clone, Structural)]
pub enum MessageNotificationLevel {
    AllMessages,
    OnlyMentions,
}

impl MessageNotificationLevel {
    /// The number that stands for the value on the wire.
    pub open spec fn code_of(self) -> u8 {
        match self {
            MessageNotificationLevel::AllMessages => 0,
            MessageNotificationLevel::OnlyMentions => 1,
        }
    }

    /// The number that stands for the value on the wire.
    pub fn code(&self) -> (r: u8)
        ensures
            r == self.code_of(),
    {
        match self {
            MessageNotificationLevel::AllMessages => 0,
            MessageNotificationLevel::OnlyMentions => 1,
        }
    }

    /// The value that a number of the wire stands for, if it stands for one.
    pub fn from_code(code: u8) -> (r: Option<Self>)
        ensures
            match r {
                Some(value) => value.code_of() == code,
                None => forall|value: Self| value.code_of() != code,
            },
    {
        if code == 0 {
            Some(MessageNotificationLevel::AllMessages)
        } else if code == 1 {
            Some(MessageNotificationLevel::OnlyMentions)
        } else {
            None
        }
    }
}

/// Whose messages a guild scans for explicit content.
#[derive(Debug, Eq, PartialEq, Clone, Structural)]
pub enum ExplicitContentFilterLevel {
    Disabled,
    MembersWithoutRoles,
    AllMembers,
}

impl ExplicitContentFilterLevel {
    /// The number that stands for the value on the wire.
    pub open spec fn code_of(self) -> u8 {
        match self {
            ExplicitContentFilterLevel::Disabled => 0,
            ExplicitContentFilterLevel::MembersWithoutRoles => 1,
            ExplicitContentFilterLevel::AllMembers => 2,
        }
    }

    /// The number that stands for the value on the wire.
    pub fn code(&self) -> (r: u8)
        ensures
            r == self.code_of(),
    {
        match self {
            ExplicitContentFilterLevel::Disabled => 0,
            ExplicitContentFilterLevel::MembersWithoutRoles => 1,
            ExplicitContentFilterLevel::AllMembers => 2,
        }
    }

    /// The value that a number of the wire stands for, if it stands for one.
    pub fn from_code(code: u8) -> (r: Option<Self>)
        ensures
            match r {
                Some(value) => value.code_of() == code,
                None => forall|value: Self| value.code_of() != code,
            },
    {
        if code == 0 {
            Some(ExplicitContentFilterLevel::Disabled)
        } else if code == 1 {
            Some(ExplicitContentFilterLevel::MembersWithoutRoles)
        } else if code == 2 {
            Some(ExplicitContentFilterLevel::AllMembers)
        } else {
            None
        }
    }
}

/// One bit of the flags of the system channel of a guild.
#[derive(Debug, Clone)]
pub enum SystemChannelFlags {
    SuppressJoinNotifications,
    SuppressPremiumSubscriptions,
    SuppressGuildReminders,
    SuppressJoinReplies,
    SuppressRoleSubPurchases,
    SuppressRoleSubPurchaseReplies,
}

impl SystemChannelFlags {
    /// The number that stands for the value on the wire.
    pub open spec fn code_of(self) -> u8 {
        match self {
            SystemChannelFlags::SuppressJoinNotifications => 1,
            SystemChannelFlags::SuppressPremiumSubscriptions => 2,
            SystemChannelFlags::SuppressGuildReminders => 4,
            SystemChannelFlags::SuppressJoinReplies => 8,
            SystemChannelFlags::SuppressRoleSubPurchases => 16,
            SystemChannelFlags::SuppressRoleSubPurchaseReplies => 32,
        }
    }

    /// The number that stands for the value on the wire.
    pub fn code(&self) -> (r: u8)
        ensures
            r == self.code_of(),
    {
        match self {
            SystemChannelFlags::SuppressJoinNotifications => 1,
            SystemChannelFlags::SuppressPremiumSubscriptions => 2,
            SystemChannelFlags::SuppressGuildReminders => 4,
            SystemChannelFlags::SuppressJoinReplies => 8,
            SystemChannelFlags::SuppressRoleSubPurchases => 16,
            SystemChannelFlags::SuppressRoleSubPurchaseReplies => 32,
        }
    }

    /// The value that a number of the wire stands for, if it stands for one.
    pub fn from_code(code: u8) -> (r: Option<Self>)
        ensures
            match r {
                Some(value) => value.code_of() == code,
                None => forall|value: Self| value.code_of() != code,
            },
    {
        if code == 1 {
            Some(SystemChannelFlags::SuppressJoinNotifications)
        } else if code == 2 {
            Some(SystemChannelFlags::SuppressPremiumSubscriptions)
        } else if code == 4 {
            Some(SystemChannelFlags::SuppressGuildReminders)
        } else if code == 8 {
            Some(SystemChannelFlags::SuppressJoinReplies)
        } else if code == 16 {
            Some(SystemChannelFlags::SuppressRoleSubPurchases)
        } else if code == 32 {
            Some(SystemChannelFlags::SuppressRoleSubPurchaseReplies)
        } else {
            None
        }
    }
}

/// A guild.
#[derive(Debug, Clone)]
pub struct Guild {
    pub id: Snowflake,
    pub name: String,
    pub owner_id: Snowflake,
    pub icon: Option<String>,
    pub icon_hash: Option<String>,
    pub vanity_invite: Option<String>,
    pub description: Option<String>,
    pub banner: Option<String>,
    pub splash_discovery: Option<String>,
    pub splash: Option<String>,
    pub locale: String,
    pub mfa_level: MFALevel,
    pub nsfw_level: NSFWLevel,
    pub verification_level: VerificationLevel,
    pub default_notification_level: MessageNotificationLevel,
    pub explicit_content_filter_level: ExplicitContentFilterLevel,
    pub roles: Option<Vec<Role>>,
    pub emojis: Option<Vec<Emoji>>,
    pub stickers: Option<Vec<Sticker>>,
    pub features: Vec<String>,
    pub application_id: Option<Snowflake>,
    pub welcome_screen: Option<WelcomeScreen>,
    pub public_updates_channel_id: Option<Snowflake>,
    pub safety_alerts_channel_id: Option<Snowflake>,
    pub system_channel_id: Option<Snowflake>,
    pub rules_channel_id: Option<Snowflake>,
    pub system_channel_flags: u8,
    pub afk_channel_id: Option<Snowflake>,
    pub afk_timeout: i32,
    pub widget_channel_id: Option<Snowflake>,
    pub widget_enabled: Option<bool>,
    pub max_presences: Option<u64>,
    pub max_members: Option<u64>,
    pub boost_tier: u8,
    pub boosts: Option<u64>,
    pub boost_bar_enabled: bool,
    pub max_video_channel_users: u64,
    pub max_stage_video_channel_users: u64,
    pub owner: Option<bool>,
    pub permissions: Option<String>,
    pub member_count: Option<u64>,
    pub presence_count: Option<u64>,
}

/// A guild as the first dispatch of a session describes it: a summary
/// together with its channels, threads, stickers, emojis and roles.
#[derive(Debug, Clone)]
pub struct CachedGuild {
    pub id: Snowflake,
    pub joined_at: Timestamp,
    pub properties: Guild,
    pub large: bool,
    pub lazy: bool,
    pub member_count: u64,
    pub boosts: u64,
    pub activity_instances: Option<()>,
    pub application_command_counts: Option<()>,
    pub stage_instances: Vec<()>,
    pub channels: Vec<Channel>,
    pub threads: Vec<Channel>,
    pub stickers: Vec<Sticker>,
    pub emojis: Vec<Emoji>,
    pub roles: Vec<Role>,
    pub data_mode: String,
    pub guild_scheduled_events: Vec<()>,
    pub version: u64,
}

/// One bit of the flags of a member of a guild.
#[derive(Debug, Clone)]
pub enum GuildMemberFlags {
    DidRejoin,
    CompletedOnboarding,
    BypassesVerification,
    StartedOnboarding,
}

impl GuildMemberFlags {
    /// The number that stands for the value on the wire.
    pub open spec fn code_of(self) -> u8 {
        match self {
            GuildMemberFlags::DidRejoin => 1,
            GuildMemberFlags::CompletedOnboarding => 2,
            GuildMemberFlags::BypassesVerification => 4,
            GuildMemberFlags::StartedOnboarding => 8,
        }
    }

    /// The number that stands for the value on the wire.
    pub fn code(&self) -> (r: u8)
        ensures
            r == self.code_of(),
    {
        match self {
            GuildMemberFlags::DidRejoin => 1,
            GuildMemberFlags::CompletedOnboarding => 2,
            GuildMemberFlags::BypassesVerification => 4,
            GuildMemberFlags::StartedOnboarding => 8,
        }
    }

    /// The value that a number of the wire stands for, if it stands for one.
    pub fn from_code(code: u8) -> (r: Option<Self>)
        ensures
            match r {
                Some(value) => value.code_of() == code,
                None => forall|value: Self| value.code_of() != code,
            },
    {
        if code == 1 {
            Some(GuildMemberFlags::DidRejoin)
        } else if code == 2 {
            Some(GuildMemberFlags::CompletedOnboarding)
        } else if code == 4 {
            Some(GuildMemberFlags::BypassesVerification)
        } else if code == 8 {
            Some(GuildMemberFlags::StartedOnboarding)
        } else {
            None
        }
    }
}

/// A user as a member of a guild.
#[derive(Debug, Clone)]
pub struct GuildMember {
    pub user: Option<User>,
    pub nick: Option<String>,
    pub avatar: Option<String>,
    pub roles: Vec<Snowflake>,
    pub joined_at: Timestamp,
    pub premium_since: Option<Timestamp>,
    pub deaf: bool,
    pub mute: bool,
    pub flags: GuildMemberFlags,
    pub pending: bool,
    pub permissions: String,
    pub communication_disabled_until: Option<Timestamp>,
    pub avatar_decoration_data: Option<AvatarDecorationData>
}

/// Puts together the document of an edit of a member.
#[derive(Debug)]
pub struct GuildMemberEditBuilder {
    value: Json,
}

/// The address of a picture of a guild at the content network: the kind
/// of picture, the guild and the hash of the picture.
pub open spec fn asset_url(kind: Seq<char>, guild: u64, hash: Seq<char>) -> Seq<char> {
    "https://cdn.discordapp.com/"@ + kind + "/"@ + decimal(guild as nat) + "/"@ + hash
        + ".png"@
}

/// The address of a picture where there is a hash, `None` where there is
/// none.
pub open spec fn asset_url_of(kind: Seq<char>, guild: u64, hash: Option<String>) -> Option<
    Seq<char>,
> {
    match hash {
        Some(hash) => Some(asset_url(kind, guild, hash@)),
        None => None,
    }
}

/// The address of a picture of a guild.
fn asset(kind: &str, guild: Snowflake, hash: &Option<String>) -> (r: Option<String>)
    ensures
        text_view(r) == asset_url_of(kind@, guild@, *hash),
{
    match hash {
        Some(hash) => {
            let base = join("https://cdn.discordapp.com/", kind);
            let base = join(base.as_str(), "/");
            let base = join(base.as_str(), guild.to_string().as_str());
            let base = join(base.as_str(), "/");
            let base = join(base.as_str(), hash.as_str());
            Some(join(base.as_str(), ".png"))
        },
        None => None,
    }
}

impl Guild {
    /// The address of the guild's icon, where it has one.
    pub fn icon_url(&self) -> (r: Option<String>)
        ensures
            text_view(r) == asset_url_of("icons"@, self.id@, self.icon_hash),
    {
        asset("icons", self.id, &self.icon_hash)
    }

    /// The address of the guild's banner, where it has one.
    pub fn banner_url(&self) -> (r: Option<String>)
        ensures
            text_view(r) == asset_url_of("banners"@, self.id@, self.banner),
    {
        asset("banners", self.id, &self.banner)
    }

    /// The address of the guild's invite splash, where it has one.
    pub fn splash_url(&self) -> (r: Option<String>)
        ensures
            text_view(r) == asset_url_of("splashes"@, self.id@, self.splash),
    {
        asset("splashes", self.id, &self.splash)
    }

    /// The address of the guild's discovery splash, where it has one.
    pub fn discovery_splash_url(&self) -> (r: Option<String>)
        ensures
            text_view(r) == asset_url_of(
                "splashes"@,
                self.id@,
                self.splash_discovery,
            ),
    {
        asset("splashes", self.id, &self.splash_discovery)
    }
}

impl View for GuildMemberEditBuilder {
    type V = JsonValue;

    closed spec fn view(&self) -> JsonValue {
        self.value@
    }
}

impl GuildMemberEditBuilder {
    #[verifier::type_invariant]
    spec fn is_object(self) -> bool {
        self.value@ is Object
    }

    /// An edit that changes nothing yet.
    pub fn new() -> (r: Self)
        ensures
            r@ == JsonValue::Object(Seq::empty()),
    {
        Self { value: Json::object() }
    }

    /// Sets the nickname of the member.
    pub fn set_nick(&mut self, nick: String)
        ensures
            final(self)@ == old(self)@.set("nick"@, JsonValue::Text(nick@)),
    {
        proof {
            use_type_invariant(&*self);
        }
        self.value = self.value.duplicate().set("nick", Json::Text(nick));
    }

    /// Sets the roles of the member.
    pub fn set_roles(&mut self, roles: Vec<Snowflake>)
        ensures
            final(self)@ == old(self)@.set("roles"@, roles.json_of()),
    {
        proof {
            use_type_invariant(&*self);
        }
        self.value = self.value.duplicate().set("roles", roles.to_json());
    }

    /// Sets whether the member is deafened in voice channels.
    pub fn set_deaf(&mut self, deaf: bool)
        ensures
            final(self)@ == old(self)@.set("deaf"@, JsonValue::Bool(deaf)),
    {
        proof {
            use_type_invariant(&*self);
        }
        self.value = self.value.duplicate().set("deaf", Json::Bool(deaf));
    }

    /// Sets whether the member is muted in voice channels.
    pub fn set_mute(&mut self, mute: bool)
        ensures
            final(self)@ == old(self)@.set("mute"@, JsonValue::Bool(mute)),
    {
        proof {
            use_type_invariant(&*self);
        }
        self.value = self.value.duplicate().set("mute", Json::Bool(mute));
    }

    /// Moves the member to a voice channel.
    pub fn set_voice_channel(&mut self, channel_id: Snowflake)
        ensures
            final(self)@ == old(self)@.set("channel_id"@, channel_id.json_of()),
    {
        proof {
            use_type_invariant(&*self);
        }
        self.value = self.value.duplicate().set("channel_id", channel_id.to_json());
    }

    /// Sets until when the member is timed out, or lifts the timeout.
    pub fn set_timeout(&mut self, timeout: Option<String>)
        ensures
            final(self)@ == old(self)@.set("communication_disabled_until"@, timeout.json_of()),
    {
        proof {
            use_type_invariant(&*self);
        }
        self.value = self.value.duplicate().set("communication_disabled_until", timeout.to_json());
    }

    /// The document of the edit.
    pub fn build(self) -> (r: Json)
        ensures
            r@ == self@,
    {
        self.value
    }
}

impl Guild {
    /// The call that fetches a guild.
    pub fn fetch_guild(ctx: &Context, id: Snowflake) -> (r: Result<Request, Error>)
        ensures
            ctx.answers(
                Method::Get,
                "/v9/guilds/"@ + decimal(id@ as nat),
                None,
                r,
            ),
    {
        let mut endpoint = String::from_str("/v9/guilds/");
        endpoint.append(id.to_string().as_str());
        ctx.request(Method::Get, endpoint.as_str(), None)
    }

    /// The call that deletes the guild.
    pub fn delete_guild(self, ctx: &Context) -> (r: Result<Request, Error>)
        ensures
            ctx.answers(
                Method::Delete,
                "/v9/guilds/"@ + decimal(self.id@ as nat),
                None,
                r,
            ),
    {
        let mut endpoint = String::from_str("/v9/guilds/");
        endpoint.append(self.id.to_string().as_str());
        ctx.request(Method::Delete, endpoint.as_str(), None)
    }

    /// The call that fetches the channels of a guild.
    pub fn fetch_channels_static(ctx: &Context, id: Snowflake) -> (r: Result<Request, Error>)
        ensures
            ctx.answers(
                Method::Get,
                "/v9/guilds/"@ + decimal(id@ as nat) + "/channels"@,
                None,
                r,
            ),
    {
        let mut endpoint = String::from_str("/v9/guilds/");
        endpoint.append(id.to_string().as_str());
        endpoint.append("/channels");
        ctx.request(Method::Get, endpoint.as_str(), None)
    }

    /// The call that fetches the channels of a guild.
    pub fn fetch_channels(&self, ctx: &Context) -> (r: Result<Request, Error>)
        ensures
            ctx.answers(
                Method::Get,
                "/v9/guilds/"@ + decimal(self.id@ as nat) + "/channels"@,
                None,
                r,
            ),
    {
        let mut endpoint = String::from_str("/v9/guilds/");
        endpoint.append(self.id.to_string().as_str());
        endpoint.append("/channels");
        ctx.request(Method::Get, endpoint.as_str(), None)
    }

    /// The call that makes a channel in a guild.
    pub fn create_channel_static(
        ctx: &Context,
        id: Snowflake,
        channel: Json,
    ) -> (r: Result<Request, Error>)
        ensures
            ctx.answers(
                Method::Post,
                "/v9/guilds/"@ + decimal(id@ as nat) + "/channels"@,
                Some(channel@),
                r,
            ),
    {
        let mut endpoint = String::from_str("/v9/guilds/");
        endpoint.append(id.to_string().as_str());
        endpoint.append("/channels");
        ctx.request(Method::Post, endpoint.as_str(), Some(channel))
    }

    /// The call that makes a channel in a guild.
    pub fn create_channel(&self, ctx: &Context, channel: Json) -> (r: Result<Request, Error>)
        ensures
            ctx.answers(
                Method::Post,
                "/v9/guilds/"@ + decimal(self.id@ as nat) + "/channels"@,
                Some(channel@),
                r,
            ),
    {
        let mut endpoint = String::from_str("/v9/guilds/");
        endpoint.append(self.id.to_string().as_str());
        endpoint.append("/channels");
        ctx.request(Method::Post, endpoint.as_str(), Some(channel))
    }

    /// The call that fetches members of a guild, between 1 and 1000 of them.
    ///
    /// Fails with [`Error::InvalidApiRequest`] on a limit outside that range.
    pub fn fetch_members_static(
        ctx: &Context,
        id: Snowflake,
        limit: u64,
    ) -> (r: Result<Request, Error>)
        ensures
            if limit == 0 || limit > 1000 {
                r matches Err(Error::InvalidApiRequest(reason)) && reason@
                    == "limit must be between 1 and 1000"@
            } else {
                ctx.answers(
                    Method::Get,
                    "/v9/guilds/"@ + decimal(id@ as nat) + "/members?limit="@
                        + decimal(limit as nat),
                    None,
                    r,
                )
            },
    {
        if limit == 0 || limit > 1000 {
            return Err(
                Error::InvalidApiRequest(String::from_str("limit must be between 1 and 1000")),
            );
        }
        let mut endpoint = String::from_str("/v9/guilds/");
        endpoint.append(id.to_string().as_str());
        endpoint.append("/members?limit=");
        endpoint.append(crate::text::u64_to_string(limit).as_str());
        ctx.request(Method::Get, endpoint.as_str(), None)
    }

    /// The call that fetches members of a guild, between 1 and 1000 of them.
    ///
    /// Fails with [`Error::InvalidApiRequest`] on a limit outside that range.
    pub fn fetch_members(&self, ctx: &Context, limit: u64) -> (r: Result<Request, Error>)
        ensures
            if limit == 0 || limit > 1000 {
                r matches Err(Error::InvalidApiRequest(reason)) && reason@
                    == "limit must be between 1 and 1000"@
            } else {
                ctx.answers(
                    Method::Get,
                    "/v9/guilds/"@ + decimal(self.id@ as nat) + "/members?limit="@
                        + decimal(limit as nat),
                    None,
                    r,
                )
            },
    {
        if limit == 0 || limit > 1000 {
            return Err(
                Error::InvalidApiRequest(String::from_str("limit must be between 1 and 1000")),
            );
        }
        let mut endpoint = String::from_str("/v9/guilds/");
        endpoint.append(self.id.to_string().as_str());
        endpoint.append("/members?limit=");
        endpoint.append(crate::text::u64_to_string(limit).as_str());
        ctx.request(Method::Get, endpoint.as_str(), None)
    }

    /// The call that fetches one member of a guild.
    pub fn fetch_member_static(
        ctx: &Context,
        id: Snowflake,
        user_id: Snowflake,
    ) -> (r: Result<Request, Error>)
        ensures
            ctx.answers(
                Method::Get,
                "/v9/guilds/"@ + decimal(id@ as nat) + "/members/"@
                    + decimal(user_id@ as nat),
                None,
                r,
            ),
    {
        let mut endpoint = String::from_str("/v9/guilds/");
        endpoint.append(id.to_string().as_str());
        endpoint.append("/members/");
        endpoint.append(user_id.to_string().as_str());
        ctx.request(Method::Get, endpoint.as_str(), None)
    }

    /// The call that fetches one member of a guild.
    pub fn fetch_member(&self, ctx: &Context, user_id: Snowflake) -> (r: Result<Request, Error>)
        ensures
            ctx.answers(
                Method::Get,
                "/v9/guilds/"@ + decimal(self.id@ as nat) + "/members/"@
                    + decimal(user_id@ as nat),
                None,
                r,
            ),
    {
        let mut endpoint = String::from_str("/v9/guilds/");
        endpoint.append(self.id.to_string().as_str());
        endpoint.append("/members/");
        endpoint.append(user_id.to_string().as_str());
        ctx.request(Method::Get, endpoint.as_str(), None)
    }

    /// The call that searches the members of a guild by name, for between 1
    /// and 1000 of them.
    ///
    /// Fails with [`Error::InvalidApiRequest`] on a limit outside that range.
    pub fn search_members_static(
        ctx: &Context,
        id: Snowflake,
        query: String,
        limit: u64,
    ) -> (r: Result<Request, Error>)
        ensures
            if limit == 0 || limit > 1000 {
                r matches Err(Error::InvalidApiRequest(reason)) && reason@
                    == "limit must be between 1 and 1000"@
            } else {
                ctx.answers(
                    Method::Get,
                    "/v9/guilds/"@ + decimal(id@ as nat) + "/members/search?query="@ + query@
                        + "&limit="@ + decimal(limit as nat),
                    None,
                    r,
                )
            },
    {
        if limit == 0 || limit > 1000 {
            return Err(
                Error::InvalidApiRequest(String::from_str("limit must be between 1 and 1000")),
            );
        }
        let mut endpoint = String::from_str("/v9/guilds/");
        endpoint.append(id.to_string().as_str());
        endpoint.append("/members/search?query=");
        endpoint.append(query.as_str());
        endpoint.append("&limit=");
        endpoint.append(crate::text::u64_to_string(limit).as_str());
        ctx.request(Method::Get, endpoint.as_str(), None)
    }

    /// The call that searches the members of a guild by name, for between 1
    /// and 1000 of them.
    ///
    /// Fails with [`Error::InvalidApiRequest`] on a limit outside that range.
    pub fn search_members(
        &self,
        ctx: &Context,
        query: String,
        limit: u64,
    ) -> (r: Result<Request, Error>)
        ensures
            if limit == 0 || limit > 1000 {
                r matches Err(Error::InvalidApiRequest(reason)) && reason@
                    == "limit must be between 1 and 1000"@
            } else {
                ctx.answers(
                    Method::Get,
                    "/v9/guilds/"@ + decimal(self.id@ as nat) + "/members/search?query="@
                        + query@ + "&limit="@ + decimal(limit as nat),
                    None,
                    r,
                )
            },
    {
        if limit == 0 || limit > 1000 {
            return Err(
                Error::InvalidApiRequest(String::from_str("limit must be between 1 and 1000")),
            );
        }
        let mut endpoint = String::from_str("/v9/guilds/");
        endpoint.append(self.id.to_string().as_str());
        endpoint.append("/members/search?query=");
        endpoint.append(query.as_str());
        endpoint.append("&limit=");
        endpoint.append(crate::text::u64_to_string(limit).as_str());
        ctx.request(Method::Get, endpoint.as_str(), None)
    }

    /// The call that edits one member of a guild.
    pub fn edit_member_static(
        ctx: &Context,
        id: Snowflake,
        user_id: Snowflake,
        member: Json,
    ) -> (r: Result<Request, Error>)
        ensures
            ctx.answers(
                Method::Patch,
                "/v9/guilds/"@ + decimal(id@ as nat) + "/members/"@
                    + decimal(user_id@ as nat),
                Some(member@),
                r,
            ),
    {
        let mut endpoint = String::from_str("/v9/guilds/");
        endpoint.append(id.to_string().as_str());
        endpoint.append("/members/");
        endpoint.append(user_id.to_string().as_str());
        ctx.request(Method::Patch, endpoint.as_str(), Some(member))
    }

    /// The call that edits one member of a guild.
    pub fn edit_member(
        &self,
        ctx: &Context,
        user_id: Snowflake,
        member: Json,
    ) -> (r: Result<Request, Error>)
        ensures
            ctx.answers(
                Method::Patch,
                "/v9/guilds/"@ + decimal(self.id@ as nat) + "/members/"@
                    + decimal(user_id@ as nat),
                Some(member@),
                r,
            ),
    {
        let mut endpoint = String::from_str("/v9/guilds/");
        endpoint.append(self.id.to_string().as_str());
        endpoint.append("/members/");
        endpoint.append(user_id.to_string().as_str());
        ctx.request(Method::Patch, endpoint.as_str(), Some(member))
    }

    /// The call that removes one member from a guild.
    pub fn kick_member_static(
        ctx: &Context,
        id: Snowflake,
        user_id: Snowflake,
    ) -> (r: Result<Request, Error>)
        ensures
            ctx.answers(
                Method::Delete,
                "/v9/guilds/"@ + decimal(id@ as nat) + "/members/"@
                    + decimal(user_id@ as nat),
                None,
                r,
            ),
    {
        let mut endpoint = String::from_str("/v9/guilds/");
        endpoint.append(id.to_string().as_str());
        endpoint.append("/members/");
        endpoint.append(user_id.to_string().as_str());
        ctx.request(Method::Delete, endpoint.as_str(), None)
    }

    /// The call that removes one member from a guild.
    pub fn kick_member(&self, ctx: &Context, user_id: Snowflake) -> (r: Result<Request, Error>)
        ensures
            ctx.answers(
                Method::Delete,
                "/v9/guilds/"@ + decimal(self.id@ as nat) + "/members/"@
                    + decimal(user_id@ as nat),
                None,
                r,
            ),
    {
        let mut endpoint = String::from_str("/v9/guilds/");
        endpoint.append(self.id.to_string().as_str());
        endpoint.append("/members/");
        endpoint.append(user_id.to_string().as_str());
        ctx.request(Method::Delete, endpoint.as_str(), None)
    }

    /// The call that bans a user from a guild.
    pub fn ban_member_static(
        ctx: &Context,
        id: Snowflake,
        user_id: Snowflake,
    ) -> (r: Result<Request, Error>)
        ensures
            ctx.answers(
                Method::Put,
                "/v9/guilds/"@ + decimal(id@ as nat) + "/bans/"@ + decimal(user_id@ as nat),
                None,
                r,
            ),
    {
        let mut endpoint = String::from_str("/v9/guilds/");
        endpoint.append(id.to_string().as_str());
        endpoint.append("/bans/");
        endpoint.append(user_id.to_string().as_str());
        ctx.request(Method::Put, endpoint.as_str(), None)
    }

    /// The call that bans a user from a guild.
    pub fn ban_member(&self, ctx: &Context, user_id: Snowflake) -> (r: Result<Request, Error>)
        ensures
            ctx.answers(
                Method::Put,
                "/v9/guilds/"@ + decimal(self.id@ as nat) + "/bans/"@
                    + decimal(user_id@ as nat),
                None,
                r,
            ),
    {
        let mut endpoint = String::from_str("/v9/guilds/");
        endpoint.append(self.id.to_string().as_str());
        endpoint.append("/bans/");
        endpoint.append(user_id.to_string().as_str());
        ctx.request(Method::Put, endpoint.as_str(), None)
    }

    /// The call that lifts the ban of a user from a guild.
    pub fn unban_member_static(
        ctx: &Context,
        id: Snowflake,
        user_id: Snowflake,
    ) -> (r: Result<Request, Error>)
        ensures
            ctx.answers(
                Method::Delete,
                "/v9/guilds/"@ + decimal(id@ as nat) + "/bans/"@ + decimal(user_id@ as nat),
                None,
                r,
            ),
    {
        let mut endpoint = String::from_str("/v9/guilds/");
        endpoint.append(id.to_string().as_str());
        endpoint.append("/bans/");
        endpoint.append(user_id.to_string().as_str());
        ctx.request(Method::Delete, endpoint.as_str(), None)
    }

    /// The call that lifts the ban of a user from a guild.
    pub fn unban_member(&self, ctx: &Context, user_id: Snowflake) -> (r: Result<Request, Error>)
        ensures
            ctx.answers(
                Method::Delete,
                "/v9/guilds/"@ + decimal(self.id@ as nat) + "/bans/"@
                    + decimal(user_id@ as nat),
                None,
                r,
            ),
    {
        let mut endpoint = String::from_str("/v9/guilds/");
        endpoint.append(self.id.to_string().as_str());
        endpoint.append("/bans/");
        endpoint.append(user_id.to_string().as_str());
        ctx.request(Method::Delete, endpoint.as_str(), None)
    }

    /// The call that fetches the bans of a guild.
    pub fn get_bans_static(ctx: &Context, id: Snowflake) -> (r: Result<Request, Error>)
        ensures
            ctx.answers(
                Method::Get,
                "/v9/guilds/"@ + decimal(id@ as nat) + "/bans"@,
                None,
                r,
            ),
    {
        let mut endpoint = String::from_str("/v9/guilds/");
        endpoint.append(id.to_string().as_str());
        endpoint.append("/bans");
        ctx.request(Method::Get, endpoint.as_str(), None)
    }

    /// The call that fetches the bans of a guild.
    pub fn get_bans(&self, ctx: &Context) -> (r: Result<Request, Error>)
        ensures
            ctx.answers(
                Method::Get,
                "/v9/guilds/"@ + decimal(self.id@ as nat) + "/bans"@,
                None,
                r,
            ),
    {
        let mut endpoint = String::from_str("/v9/guilds/");
        endpoint.append(self.id.to_string().as_str());
        endpoint.append("/bans");
        ctx.request(Method::Get, endpoint.as_str(), None)
    }

    /// The call that fetches the ban of one user from a guild.
    pub fn get_ban_static(
        ctx: &Context,
        id: Snowflake,
        user_id: Snowflake,
    ) -> (r: Result<Request, Error>)
        ensures
            ctx.answers(
                Method::Get,
                "/v9/guilds/"@ + decimal(id@ as nat) + "/bans/"@ + decimal(user_id@ as nat),
                None,
                r,
            ),
    {
        let mut endpoint = String::from_str("/v9/guilds/");
        endpoint.append(id.to_string().as_str());
        endpoint.append("/bans/");
        endpoint.append(user_id.to_string().as_str());
        ctx.request(Method::Get, endpoint.as_str(), None)
    }

    /// The call that fetches the ban of one user from a guild.
    pub fn get_ban(&self, ctx: &Context, user_id: Snowflake) -> (r: Result<Request, Error>)
        ensures
            ctx.answers(
                Method::Get,
                "/v9/guilds/"@ + decimal(self.id@ as nat) + "/bans/"@
                    + decimal(user_id@ as nat),
                None,
                r,
            ),
    {
        let mut endpoint = String::from_str("/v9/guilds/");
        endpoint.append(self.id.to_string().as_str());
        endpoint.append("/bans/");
        endpoint.append(user_id.to_string().as_str());
        ctx.request(Method::Get, endpoint.as_str(), None)
    }

    /// The call that fetches the roles of a guild.
    pub fn fetch_roles_static(ctx: &Context, id: Snowflake) -> (r: Result<Request, Error>)
        ensures
            ctx.answers(
                Method::Get,
                "/v9/guilds/"@ + decimal(id@ as nat) + "/roles"@,
                None,
                r,
            ),
    {
        let mut endpoint = String::from_str("/v9/guilds/");
        endpoint.append(id.to_string().as_str());
        endpoint.append("/roles");
        ctx.request(Method::Get, endpoint.as_str(), None)
    }

    /// The call that fetches the roles of a guild.
    pub fn fetch_roles(&self, ctx: &Context) -> (r: Result<Request, Error>)
        ensures
            ctx.answers(
                Method::Get,
                "/v9/guilds/"@ + decimal(self.id@ as nat) + "/roles"@,
                None,
                r,
            ),
    {
        let mut endpoint = String::from_str("/v9/guilds/");
        endpoint.append(self.id.to_string().as_str());
        endpoint.append("/roles");
        ctx.request(Method::Get, endpoint.as_str(), None)
    }

    /// The call that makes a role in a guild.
    pub fn create_role_static(
        ctx: &Context,
        id: Snowflake,
        role: Json,
    ) -> (r: Result<Request, Error>)
        ensures
            ctx.answers(
                Method::Post,
                "/v9/guilds/"@ + decimal(id@ as nat) + "/roles"@,
                Some(role@),
                r,
            ),
    {
        let mut endpoint = String::from_str("/v9/guilds/");
        endpoint.append(id.to_string().as_str());
        endpoint.append("/roles");
        ctx.request(Method::Post, endpoint.as_str(), Some(role))
    }

    /// The call that makes a role in a guild.
    pub fn create_role(&self, ctx: &Context, role: Json) -> (r: Result<Request, Error>)
        ensures
            ctx.answers(
                Method::Post,
                "/v9/guilds/"@ + decimal(self.id@ as nat) + "/roles"@,
                Some(role@),
                r,
            ),
    {
        let mut endpoint = String::from_str("/v9/guilds/");
        endpoint.append(self.id.to_string().as_str());
        endpoint.append("/roles");
        ctx.request(Method::Post, endpoint.as_str(), Some(role))
    }

    /// The call that edits one role of a guild.
    pub fn edit_role_static(
        ctx: &Context,
        id: Snowflake,
        role_id: Snowflake,
        role: Json,
    ) -> (r: Result<Request, Error>)
        ensures
            ctx.answers(
                Method::Patch,
                "/v9/guilds/"@ + decimal(id@ as nat) + "/roles/"@ + decimal(role_id@ as nat),
                Some(role@),
                r,
            ),
    {
        let mut endpoint = String::from_str("/v9/guilds/");
        endpoint.append(id.to_string().as_str());
        endpoint.append("/roles/");
        endpoint.append(role_id.to_string().as_str());
        ctx.request(Method::Patch, endpoint.as_str(), Some(role))
    }

    /// The call that edits one role of a guild.
    pub fn edit_role(
        &self,
        ctx: &Context,
        role_id: Snowflake,
        role: Json,
    ) -> (r: Result<Request, Error>)
        ensures
            ctx.answers(
                Method::Patch,
                "/v9/guilds/"@ + decimal(self.id@ as nat) + "/roles/"@
                    + decimal(role_id@ as nat),
                Some(role@),
                r,
            ),
    {
        let mut endpoint = String::from_str("/v9/guilds/");
        endpoint.append(self.id.to_string().as_str());
        endpoint.append("/roles/");
        endpoint.append(role_id.to_string().as_str());
        ctx.request(Method::Patch, endpoint.as_str(), Some(role))
    }

    /// The call that deletes one role of a guild.
    pub fn delete_role_static(
        ctx: &Context,
        id: Snowflake,
        role_id: Snowflake,
    ) -> (r: Result<Request, Error>)
        ensures
            ctx.answers(
                Method::Delete,
                "/v9/guilds/"@ + decimal(id@ as nat) + "/roles/"@ + decimal(role_id@ as nat),
                None,
                r,
            ),
    {
        let mut endpoint = String::from_str("/v9/guilds/");
        endpoint.append(id.to_string().as_str());
        endpoint.append("/roles/");
        endpoint.append(role_id.to_string().as_str());
        ctx.request(Method::Delete, endpoint.as_str(), None)
    }

    /// The call that deletes one role of a guild.
    pub fn delete_role(&self, ctx: &Context, role_id: Snowflake) -> (r: Result<Request, Error>)
        ensures
            ctx.answers(
                Method::Delete,
                "/v9/guilds/"@ + decimal(self.id@ as nat) + "/roles/"@
                    + decimal(role_id@ as nat),
                None,
                r,
            ),
    {
        let mut endpoint = String::from_str("/v9/guilds/");
        endpoint.append(self.id.to_string().as_str());
        endpoint.append("/roles/");
        endpoint.append(role_id.to_string().as_str());
        ctx.request(Method::Delete, endpoint.as_str(), None)
    }

    /// The call that puts the roles of a guild in a new order.
    pub fn edit_role_positions_static(
        ctx: &Context,
        id: Snowflake,
        roles: Json,
    ) -> (r: Result<Request, Error>)
        ensures
            ctx.answers(
                Method::Patch,
                "/v9/guilds/"@ + decimal(id@ as nat) + "/roles"@,
                Some(roles@),
                r,
            ),
    {
        let mut endpoint = String::from_str("/v9/guilds/");
        endpoint.append(id.to_string().as_str());
        endpoint.append("/roles");
        ctx.request(Method::Patch, endpoint.as_str(), Some(roles))
    }

    /// The call that puts the roles of a guild in a new order.
    pub fn edit_role_positions(&self, ctx: &Context, roles: Json) -> (r: Result<Request, Error>)
        ensures
            ctx.answers(
                Method::Patch,
                "/v9/guilds/"@ + decimal(self.id@ as nat) + "/roles"@,
                Some(roles@),
                r,
            ),
    {
        let mut endpoint = String::from_str("/v9/guilds/");
        endpoint.append(self.id.to_string().as_str());
        endpoint.append("/roles");
        ctx.request(Method::Patch, endpoint.as_str(), Some(roles))
    }

    /// The call that fetches the invites of a guild.
    pub fn fetch_invites_static(ctx: &Context, id: Snowflake) -> (r: Result<Request, Error>)
        ensures
            ctx.answers(
                Method::Get,
                "/v9/guilds/"@ + decimal(id@ as nat) + "/invites"@,
                None,
                r,
            ),
    {
        let mut endpoint = String::from_str("/v9/guilds/");
        endpoint.append(id.to_string().as_str());
        endpoint.append("/invites");
        ctx.request(Method::Get, endpoint.as_str(), None)
    }

    /// The call that fetches the invites of a guild.
    pub fn fetch_invites(&self, ctx: &Context) -> (r: Result<Request, Error>)
        ensures
            ctx.answers(
                Method::Get,
                "/v9/guilds/"@ + decimal(self.id@ as nat) + "/invites"@,
                None,
                r,
            ),
    {
        let mut endpoint = String::from_str("/v9/guilds/");
        endpoint.append(self.id.to_string().as_str());
        endpoint.append("/invites");
        ctx.request(Method::Get, endpoint.as_str(), None)
    }

    /// The call that fetches the welcome screen of a guild.
    pub fn fetch_welcome_screen_static(ctx: &Context, id: Snowflake) -> (r: Result<Request, Error>)
        ensures
            ctx.answers(
                Method::Get,
                "/v9/guilds/"@ + decimal(id@ as nat) + "/welcome-screen"@,
                None,
                r,
            ),
    {
        let mut endpoint = String::from_str("/v9/guilds/");
        endpoint.append(id.to_string().as_str());
        endpoint.append("/welcome-screen");
        ctx.request(Method::Get, endpoint.as_str(), None)
    }

    /// The call that fetches the welcome screen of a guild.
    pub fn fetch_welcome_screen(&self, ctx: &Context) -> (r: Result<Request, Error>)
        ensures
            ctx.answers(
                Method::Get,
                "/v9/guilds/"@ + decimal(self.id@ as nat) + "/welcome-screen"@,
                None,
                r,
            ),
    {
        let mut endpoint = String::from_str("/v9/guilds/");
        endpoint.append(self.id.to_string().as_str());
        endpoint.append("/welcome-screen");
        ctx.request(Method::Get, endpoint.as_str(), None)
    }

    /// The call that fetches the onboarding of a guild.
    pub fn fetch_onboarding_static(ctx: &Context, id: Snowflake) -> (r: Result<Request, Error>)
        ensures
            ctx.answers(
                Method::Get,
                "/v9/guilds/"@ + decimal(id@ as nat) + "/onboarding"@,
                None,
                r,
            ),
    {
        let mut endpoint = String::from_str("/v9/guilds/");
        endpoint.append(id.to_string().as_str());
        endpoint.append("/onboarding");
        ctx.request(Method::Get, endpoint.as_str(), None)
    }

    /// The call that fetches the onboarding of a guild.
    pub fn fetch_onboarding(&self, ctx: &Context) -> (r: Result<Request, Error>)
        ensures
            ctx.answers(
                Method::Get,
                "/v9/guilds/"@ + decimal(self.id@ as nat) + "/onboarding"@,
                None,
                r,
            ),
    {
        let mut endpoint = String::from_str("/v9/guilds/");
        endpoint.append(self.id.to_string().as_str());
        endpoint.append("/onboarding");
        ctx.request(Method::Get, endpoint.as_str(), None)
    }

    /// The call that fetches the vanity invite of a guild.
    pub fn fetch_vanity_url_static(ctx: &Context, id: Snowflake) -> (r: Result<Request, Error>)
        ensures
            ctx.answers(
                Method::Get,
                "/v9/guilds/"@ + decimal(id@ as nat) + "/vanity-url"@,
                None,
                r,
            ),
    {
        let mut endpoint = String::from_str("/v9/guilds/");
        endpoint.append(id.to_string().as_str());
        endpoint.append("/vanity-url");
        ctx.request(Method::Get, endpoint.as_str(), None)
    }

    /// The call that fetches the vanity invite of a guild.
    pub fn fetch_vanity_url(&self, ctx: &Context) -> (r: Result<Request, Error>)
        ensures
            ctx.answers(
                Method::Get,
                "/v9/guilds/"@ + decimal(self.id@ as nat) + "/vanity-url"@,
                None,
                r,
            ),
    {
        let mut endpoint = String::from_str("/v9/guilds/");
        endpoint.append(self.id.to_string().as_str());
        endpoint.append("/vanity-url");
        ctx.request(Method::Get, endpoint.as_str(), None)
    }
}

impl CachedGuild {
    /// The call that fetches the guild that this summary belongs to. Its
    /// answer holds the whole guild.
    pub fn into_guild(self, ctx: &Context) -> (r: Result<Request, Error>)
        ensures
            ctx.answers(Method::Get, "/v9/guilds/"@ + decimal(self.id@ as nat), None, r),
    {
        Guild::fetch_guild(ctx, self.id)
    }
}

} // verus!
