//! Channels, threads and what hangs on them.

pub mod welcome_screen;
pub mod stage_instance;

use crate::context::{Context, Method, Request};
use crate::error::Error;
use crate::json::{Json, JsonValue, ToJson};
use crate::text::decimal;
use super::snowflake::Snowflake;
use super::timestamp::Timestamp;
use super::user::User;
use vstd::prelude::*;
use vstd::string::StringExecFns;

verus! {

/// What kind of channel a channel is.
#[derive(Debug, Eq, PartialEq, Clone, Structural)]
pub enum ChannelType {
    Text,
    DM,
    Voice,
    Group,
    Category,
    Announcement,
    ThreadAnnouncement,
    ThreadPublic,
    ThreadPrivate,
    VoiceStage,
    Directory,
    Forum,
    Media,
}

impl ChannelType {
    /// The number that stands for the value on the wire.
    pub open spec fn code_of(self) -> u8 {
        match self {
            ChannelType::Text => 0,
            ChannelType::DM => 1,
            ChannelType::Voice => 2,
            ChannelType::Group => 3,
            ChannelType::Category => 4,
            ChannelType::Announcement => 5,
            ChannelType::ThreadAnnouncement => 10,
            ChannelType::ThreadPublic => 11,
            ChannelType::ThreadPrivate => 12,
            ChannelType::VoiceStage => 13,
            ChannelType::Directory => 14,
            ChannelType::Forum => 15,
            ChannelType::Media => 16,
        }
    }

    /// The number that stands for the value on the wire.
    pub fn code(&self) -> (r: u8)
        ensures
            r == self.code_of(),
    {
        match self {
            ChannelType::Text => 0,
            ChannelType::DM => 1,
            ChannelType::Voice => 2,
            ChannelType::Group => 3,
            ChannelType::Category => 4,
            ChannelType::Announcement => 5,
            ChannelType::ThreadAnnouncement => 10,
            ChannelType::ThreadPublic => 11,
            ChannelType::ThreadPrivate => 12,
            ChannelType::VoiceStage => 13,
            ChannelType::Directory => 14,
            ChannelType::Forum => 15,
            ChannelType::Media => 16,
        }
    }

    /// The value that a number of the wire stands for, if it stands for one.
    pub fn from_code(code: u8) -> (r: Option<Self>)
        ensures
            match r {
                Some(value) => value.code_of() == code,
                None => forall|value: Self| value.code_of() != code,
            },
    {
        if code == 0 {
            Some(ChannelType::Text)
        } else if code == 1 {
            Some(ChannelType::DM)
        } else if code == 2 {
            Some(ChannelType::Voice)
        } else if code == 3 {
            Some(ChannelType::Group)
        } else if code == 4 {
            Some(ChannelType::Category)
        } else if code == 5 {
            Some(ChannelType::Announcement)
        } else if code == 10 {
            Some(ChannelType::ThreadAnnouncement)
        } else if code == 11 {
            Some(ChannelType::ThreadPublic)
        } else if code == 12 {
            Some(ChannelType::ThreadPrivate)
        } else if code == 13 {
            Some(ChannelType::VoiceStage)
        } else if code == 14 {
            Some(ChannelType::Directory)
        } else if code == 15 {
            Some(ChannelType::Forum)
        } else if code == 16 {
            Some(ChannelType::Media)
        } else {
            None
        }
    }
}

impl ToJson for ChannelType {
    open spec fn json_of(&self) -> JsonValue {
        JsonValue::number(self.code_of() as nat)
    }

    fn to_json(&self) -> (r: Json) {
        Json::number(self.code() as u64)
    }
}

/// One bit of the flags of a channel.
#[derive(Debug, Clone)]
pub enum ChannelFlag {
    Pinned,
    RequireTag,
    HideDownloadOptions,
}

impl ChannelFlag {
    /// The number that stands for the value on the wire.
    pub open spec fn code_of(self) -> u16 {
        match self {
            ChannelFlag::Pinned => 2,
            ChannelFlag::RequireTag => 16,
            ChannelFlag::HideDownloadOptions => 32768,
        }
    }

    /// The number that stands for the value on the wire.
    pub fn code(&self) -> (r: u16)
        ensures
            r == self.code_of(),
    {
        match self {
            ChannelFlag::Pinned => 2,
            ChannelFlag::RequireTag => 16,
            ChannelFlag::HideDownloadOptions => 32768,
        }
    }

    /// The value that a number of the wire stands for, if it stands for one.
    pub fn from_code(code: u16) -> (r: Option<Self>)
        ensures
            match r {
                Some(value) => value.code_of() == code,
                None => forall|value: Self| value.code_of() != code,
            },
    {
        if code == 2 {
            Some(ChannelFlag::Pinned)
        } else if code == 16 {
            Some(ChannelFlag::RequireTag)
        } else if code == 32768 {
            Some(ChannelFlag::HideDownloadOptions)
        } else {
            None
        }
    }
}

/// The quality of the camera picture in a voice channel.
#[derive(Debug, Eq, PartialEq, Clone, Structural)]
pub enum VideoQualityMode {
    Auto,
    Full,
}

impl VideoQualityMode {
    /// The number that stands for the value on the wire.
    pub open spec fn code_of(self) -> u8 {
        match self {
            VideoQualityMode::Auto => 1,
            VideoQualityMode::Full => 2,
        }
    }

    /// The number that stands for the value on the wire.
    pub fn code(&self) -> (r: u8)
        ensures
            r == self.code_of(),
    {
        match self {
            VideoQualityMode::Auto => 1,
            VideoQualityMode::Full => 2,
        }
    }

    /// The value that a number of the wire stands for, if it stands for one.
    pub fn from_code(code: u8) -> (r: Option<Self>)
        ensures
            match r {
                Some(value) => value.code_of() == code,
                None => forall|value: Self| value.code_of() != code,
            },
    {
        if code == 1 {
            Some(VideoQualityMode::Auto)
        } else if code == 2 {
            Some(VideoQualityMode::Full)
        } else {
            None
        }
    }
}

/// What a thread holds beyond a channel.
#[derive(Debug, Clone)]
pub struct ThreadMetadata {
    pub archived: bool,
    pub auto_archive_duration: u64,
    pub archive_timestamp: Timestamp,
    pub locked: bool,
    pub create_timestamp: Option<Timestamp>,
    pub invitable: Option<bool>,
}

/// A user as a member of a thread.
#[derive(Debug, Clone)]
pub struct ThreadMember {
    pub id: Option<Snowflake>,
    pub user_id: Option<Snowflake>,
    pub join_timestamp: Timestamp,
    pub flags: u64,
}

/// Whether a permission overwrite is for a role or for a member.
#[derive(Debug, Eq, PartialEq, Clone, Structural)]
pub enum OverwriteType {
    Role,
    Member,
}

impl OverwriteType {
    /// The number that stands for the value on the wire.
    pub open spec fn code_of(self) -> u8 {
        match self {
            OverwriteType::Role => 0,
            OverwriteType::Member => 1,
        }
    }

    /// The number that stands for the value on the wire.
    pub fn code(&self) -> (r: u8)
        ensures
            r == self.code_of(),
    {
        match self {
            OverwriteType::Role => 0,
            OverwriteType::Member => 1,
        }
    }

    /// The value that a number of the wire stands for, if it stands for one.
    pub fn from_code(code: u8) -> (r: Option<Self>)
        ensures
            match r {
                Some(value) => value.code_of() == code,
                None => forall|value: Self| value.code_of() != code,
            },
    {
        if code == 0 {
            Some(OverwriteType::Role)
        } else if code == 1 {
            Some(OverwriteType::Member)
        } else {
            None
        }
    }
}

/// The permissions that a role or a member is given or denied in one channel.
#[derive(Debug, Clone)]
pub struct PermissionOverwrite {
    pub id: Snowflake,
    pub allow: String,
    pub deny: String,
    pub overwrite_type: u8,
}

/// A channel of a guild, a conversation between users, or a thread.
#[derive(Debug, Clone)]
pub struct Channel {
    pub id: Snowflake,
    pub name: Option<String>,
    pub topic: Option<String>,
    pub nsfw: Option<bool>,
    pub position: Option<u64>,
    pub bitrate: Option<u64>,
    pub user_limit: Option<u64>,
    pub rate_limit_per_user: Option<u64>,
    pub rtc_region: Option<String>,
    pub video_quality_mode: Option<VideoQualityMode>,
    pub users_ids: Option<Vec<Snowflake>>,
    pub users: Option<Vec<User>>,
    pub icon: Option<String>,
    pub application_id: Option<Snowflake>,
    pub managed: Option<bool>,
    pub owner_id: Option<Snowflake>,
    pub message_count: Option<u64>,
    pub member_count: Option<u64>,
    pub thread_metadata: Option<ThreadMetadata>,
    pub member: Option<ThreadMember>,
    pub guild_id: Option<Snowflake>,
    pub parent_id: Option<Snowflake>,
    pub last_message_id: Option<String>,
    pub last_pin_timestamp: Option<Timestamp>,
    pub warnings: Option<Vec<String>>,
    pub is_spam: bool,
    pub permission_overwrites: Option<Vec<PermissionOverwrite>>,
    pub channel_type: ChannelType,
    pub flags: u64,
}

/// A channel as a message mentions it.
#[derive(Debug, Clone)]
pub struct ChannelMention {
    pub id: Snowflake,
    pub guild_id: Snowflake,
    pub name: String,
    pub channel_type: ChannelType,
}

/// Puts together the document of a channel to make.
#[derive(Debug)]
pub struct ChannelBuilder {
    value: Json,
}

/// What a channel is taken to be where the wire does not say whether it
/// is spam: no spam.
pub fn default_spam_value() -> (r: bool)
    ensures
        !r,
{
    false
}

impl Channel {
    /// Whether the channel is a conversation between users, of two or of
    /// a group.
    pub fn is_dm(&self) -> (r: bool)
        ensures
            r == (self.channel_type == ChannelType::DM || self.channel_type == ChannelType::Group),
    {
        self.channel_type == ChannelType::DM || self.channel_type == ChannelType::Group
    }

    /// Whether the channel is a thread.
    pub fn is_thread(&self) -> (r: bool)
        ensures
            r == (self.channel_type == ChannelType::ThreadAnnouncement || self.channel_type
                == ChannelType::ThreadPrivate || self.channel_type == ChannelType::ThreadPublic),
    {
        self.channel_type == ChannelType::ThreadAnnouncement || self.channel_type
            == ChannelType::ThreadPrivate || self.channel_type == ChannelType::ThreadPublic
    }

    /// Whether the channel is a forum or a media channel.
    pub fn is_forum(&self) -> (r: bool)
        ensures
            r == (self.channel_type == ChannelType::Forum || self.channel_type
                == ChannelType::Media),
    {
        self.channel_type == ChannelType::Forum || self.channel_type == ChannelType::Media
    }

    /// Whether the channel is one to talk in: a voice channel or a stage.
    pub fn is_voice(&self) -> (r: bool)
        ensures
            r == (self.channel_type == ChannelType::Voice || self.channel_type
                == ChannelType::VoiceStage),
    {
        self.channel_type == ChannelType::Voice || self.channel_type == ChannelType::VoiceStage
    }

    /// Whether the channel is one to write in: a text channel of a guild
    /// or a conversation between users.
    pub fn is_text(&self) -> (r: bool)
        ensures
            r == (self.channel_type == ChannelType::Text || self.channel_type == ChannelType::DM
                || self.channel_type == ChannelType::Group),
    {
        self.channel_type == ChannelType::Text || self.is_dm()
    }

    /// Whether the channel is a category that holds other channels.
    pub fn is_category(&self) -> (r: bool)
        ensures
            r == (self.channel_type == ChannelType::Category),
    {
        self.channel_type == ChannelType::Category
    }
}

impl View for ChannelBuilder {
    type V = JsonValue;

    closed spec fn view(&self) -> JsonValue {
        self.value@
    }
}

impl Clone for ChannelBuilder {
    fn clone(&self) -> (r: Self)
        ensures
            r@ == self@,
    {
        proof {
            use_type_invariant(self);
        }
        Self { value: self.value.duplicate() }
    }
}

impl ChannelBuilder {
    #[verifier::type_invariant]
    spec fn is_object(self) -> bool {
        self.value@ is Object
    }

    /// The least that a channel to be made holds: its name and its kind.
    pub open spec fn initial(name: Seq<char>, channel_type: ChannelType) -> JsonValue {
        JsonValue::Object(Seq::empty()).with("name"@, JsonValue::Text(name)).with(
            "type"@,
            channel_type.json_of(),
        )
    }

    /// A channel with the given name and kind.
    pub fn new(name: String, channel_type: ChannelType) -> (r: Self)
        ensures
            r@ == Self::initial(name@, channel_type),
    {
        Self {
            value: Json::object().with("name", Json::Text(name)).with(
                "type",
                channel_type.to_json(),
            ),
        }
    }

    /// Sets the topic of the channel.
    pub fn set_topic(&mut self, topic: String)
        ensures
            final(self)@ == old(self)@.set("topic"@, JsonValue::Text(topic@)),
    {
        proof {
            use_type_invariant(&*self);
        }
        self.value = self.value.duplicate().set("topic", Json::Text(topic));
    }

    /// Sets whether the channel is restricted by age.
    pub fn set_nsfw(&mut self, nsfw: bool)
        ensures
            final(self)@ == old(self)@.set("nsfw"@, JsonValue::Bool(nsfw)),
    {
        proof {
            use_type_invariant(&*self);
        }
        self.value = self.value.duplicate().set("nsfw", Json::Bool(nsfw));
    }

    /// Sets the place of the channel in the list.
    pub fn set_position(&mut self, position: u64)
        ensures
            final(self)@ == old(self)@.set("position"@, JsonValue::number(position as nat)),
    {
        proof {
            use_type_invariant(&*self);
        }
        self.value = self.value.duplicate().set("position", Json::number(position));
    }

    /// Sets the bitrate of a voice channel, in bits.
    pub fn set_bitrate(&mut self, bitrate: u64)
        ensures
            final(self)@ == old(self)@.set("bitrate"@, JsonValue::number(bitrate as nat)),
    {
        proof {
            use_type_invariant(&*self);
        }
        self.value = self.value.duplicate().set("bitrate", Json::number(bitrate));
    }

    /// Sets how many users a voice channel takes.
    pub fn set_user_limit(&mut self, user_limit: u64)
        ensures
            final(self)@ == old(self)@.set("user_limit"@, JsonValue::number(user_limit as nat)),
    {
        proof {
            use_type_invariant(&*self);
        }
        self.value = self.value.duplicate().set("user_limit", Json::number(user_limit));
    }

    /// Sets how long a user waits between two messages, in seconds.
    pub fn set_rate_limit_per_user(&mut self, rate_limit_per_user: u64)
        ensures
            final(self)@ == old(self)@.set(
                "rate_limit_per_user"@,
                JsonValue::number(rate_limit_per_user as nat),
            ),
    {
        proof {
            use_type_invariant(&*self);
        }
        self.value = self.value.duplicate().set(
            "rate_limit_per_user",
            Json::number(rate_limit_per_user),
        );
    }

    /// Adds one permission overwrite to those of the channel.
    pub fn add_permission_overwrite(&mut self, overwrite: Json)
        ensures
            final(self)@ == old(self)@.set(
                "permission_overwrites"@,
                JsonValue::Array(old(self)@.items_at("permission_overwrites"@).push(overwrite@)),
            ),
    {
        proof {
            use_type_invariant(&*self);
        }
        let mut items = self.value.items_at("permission_overwrites");
        let ghost before = crate::json::items_view(items@);
        items.push(overwrite);
        assert(crate::json::items_view(items@) =~= before.push(overwrite@));
        self.value = self.value.duplicate().set("permission_overwrites", Json::array_of(items));
    }

    /// Sets the category that the channel stands in.
    pub fn set_parent_category(&mut self, parent_id: Snowflake)
        ensures
            final(self)@ == old(self)@.set("parent_id"@, parent_id.json_of()),
    {
        proof {
            use_type_invariant(&*self);
        }
        self.value = self.value.duplicate().set("parent_id", parent_id.to_json());
    }

    /// Sets the voice region of the channel.
    pub fn set_rtc_region(&mut self, rtc_region: String)
        ensures
            final(self)@ == old(self)@.set("rtc_region"@, JsonValue::Text(rtc_region@)),
    {
        proof {
            use_type_invariant(&*self);
        }
        self.value = self.value.duplicate().set("rtc_region", Json::Text(rtc_region));
    }

    /// The document of the channel.
    pub fn build(self) -> (r: Json)
        ensures
            r@ == self@,
    {
        self.value
    }
}

/// The part of the address that asks for the messages before a given one,
/// where one is given.
pub open spec fn before_query(before: Option<Snowflake>) -> Seq<char> {
    match before {
        Some(before) => "&before="@ + decimal(before@ as nat),
        None => Seq::empty(),
    }
}

impl Channel {
    /// The call that fetches a channel.
    pub fn fetch_channel(ctx: &Context, id: Snowflake) -> (r: Result<Request, Error>)
        ensures
            ctx.answers(
                Method::Get,
                "/v9/channels/"@ + decimal(id@ as nat),
                None,
                r,
            ),
    {
        let mut endpoint = String::from_str("/v9/channels/");
        endpoint.append(id.to_string().as_str());
        ctx.request(Method::Get, endpoint.as_str(), None)
    }

    /// The call that deletes the channel.
    pub fn delete_channel(self, ctx: &Context) -> (r: Result<Request, Error>)
        ensures
            ctx.answers(
                Method::Delete,
                "/v9/channels/"@ + decimal(self.id@ as nat),
                None,
                r,
            ),
    {
        let mut endpoint = String::from_str("/v9/channels/");
        endpoint.append(self.id.to_string().as_str());
        ctx.request(Method::Delete, endpoint.as_str(), None)
    }

    /// The call that deletes a channel.
    pub fn delete_channel_static(ctx: &Context, id: Snowflake) -> (r: Result<Request, Error>)
        ensures
            ctx.answers(
                Method::Delete,
                "/v9/channels/"@ + decimal(id@ as nat),
                None,
                r,
            ),
    {
        let mut endpoint = String::from_str("/v9/channels/");
        endpoint.append(id.to_string().as_str());
        ctx.request(Method::Delete, endpoint.as_str(), None)
    }

    /// The call that sends a message to a channel.
    pub fn send_message_static(
        ctx: &Context,
        channel_id: Snowflake,
        msg: Json,
    ) -> (r: Result<Request, Error>)
        ensures
            ctx.answers(
                Method::Post,
                "/v9/channels/"@ + decimal(channel_id@ as nat) + "/messages"@,
                Some(msg@),
                r,
            ),
    {
        let mut endpoint = String::from_str("/v9/channels/");
        endpoint.append(channel_id.to_string().as_str());
        endpoint.append("/messages");
        ctx.request(Method::Post, endpoint.as_str(), Some(msg))
    }

    /// The call that sends a message to a channel.
    pub fn send_message(&self, ctx: &Context, msg: Json) -> (r: Result<Request, Error>)
        ensures
            ctx.answers(
                Method::Post,
                "/v9/channels/"@ + decimal(self.id@ as nat) + "/messages"@,
                Some(msg@),
                r,
            ),
    {
        let mut endpoint = String::from_str("/v9/channels/");
        endpoint.append(self.id.to_string().as_str());
        endpoint.append("/messages");
        ctx.request(Method::Post, endpoint.as_str(), Some(msg))
    }

    /// The call that fetches the latest messages of a channel, at most 100 of
    /// them, and only those before the given message where one is given.
    ///
    /// Fails with [`Error::InvalidApiRequest`] on a limit above 100.
    pub fn fetch_messages_static(
        ctx: &Context,
        channel_id: Snowflake,
        limit: u64,
        before: Option<Snowflake>,
    ) -> (r: Result<Request, Error>)
        ensures
            if limit > 100 {
                r matches Err(Error::InvalidApiRequest(reason)) && reason@
                    == "limit must be less than 100"@
            } else {
                ctx.answers(
                    Method::Get,
                    "/v9/channels/"@ + decimal(channel_id@ as nat) + "/messages?limit="@
                        + decimal(limit as nat) + before_query(before),
                    None,
                    r,
                )
            },
    {
        if limit > 100 {
            return Err(
                Error::InvalidApiRequest(String::from_str("limit must be less than 100")),
            );
        }
        let mut endpoint = String::from_str("/v9/channels/");
        endpoint.append(channel_id.to_string().as_str());
        endpoint.append("/messages?limit=");
        endpoint.append(crate::text::u64_to_string(limit).as_str());
        let ghost head = endpoint@;
        match before {
            Some(before) => {
                endpoint.append("&before=");
                endpoint.append(before.to_string().as_str());
            },
            None => {},
        }
        assert(endpoint@ =~= head + before_query(before));
        ctx.request(Method::Get, endpoint.as_str(), None)
    }

    /// The call that fetches the latest messages of a channel, at most 100 of
    /// them, and only those before the given message where one is given.
    ///
    /// Fails with [`Error::InvalidApiRequest`] on a limit above 100.
    pub fn fetch_messages(
        &self,
        ctx: &Context,
        limit: u64,
        before: Option<Snowflake>,
    ) -> (r: Result<Request, Error>)
        ensures
            if limit > 100 {
                r matches Err(Error::InvalidApiRequest(reason)) && reason@
                    == "limit must be less than 100"@
            } else {
                ctx.answers(
                    Method::Get,
                    "/v9/channels/"@ + decimal(self.id@ as nat) + "/messages?limit="@
                        + decimal(limit as nat) + before_query(before),
                    None,
                    r,
                )
            },
    {
        if limit > 100 {
            return Err(
                Error::InvalidApiRequest(String::from_str("limit must be less than 100")),
            );
        }
        let mut endpoint = String::from_str("/v9/channels/");
        endpoint.append(self.id.to_string().as_str());
        endpoint.append("/messages?limit=");
        endpoint.append(crate::text::u64_to_string(limit).as_str());
        let ghost head = endpoint@;
        match before {
            Some(before) => {
                endpoint.append("&before=");
                endpoint.append(before.to_string().as_str());
            },
            None => {},
        }
        assert(endpoint@ =~= head + before_query(before));
        ctx.request(Method::Get, endpoint.as_str(), None)
    }

    /// The call that fetches one message of a channel.
    pub fn fetch_message_static(
        ctx: &Context,
        channel_id: Snowflake,
        id: Snowflake,
    ) -> (r: Result<Request, Error>)
        ensures
            ctx.answers(
                Method::Get,
                "/v9/channels/"@ + decimal(channel_id@ as nat) + "/messages/"@
                    + decimal(id@ as nat),
                None,
                r,
            ),
    {
        let mut endpoint = String::from_str("/v9/channels/");
        endpoint.append(channel_id.to_string().as_str());
        endpoint.append("/messages/");
        endpoint.append(id.to_string().as_str());
        ctx.request(Method::Get, endpoint.as_str(), None)
    }

    /// The call that fetches one message of a channel.
    pub fn fetch_message(&self, ctx: &Context, id: Snowflake) -> (r: Result<Request, Error>)
        ensures
            ctx.answers(
                Method::Get,
                "/v9/channels/"@ + decimal(self.id@ as nat) + "/messages/"@
                    + decimal(id@ as nat),
                None,
                r,
            ),
    {
        let mut endpoint = String::from_str("/v9/channels/");
        endpoint.append(self.id.to_string().as_str());
        endpoint.append("/messages/");
        endpoint.append(id.to_string().as_str());
        ctx.request(Method::Get, endpoint.as_str(), None)
    }

    /// The call that deletes one message of a channel.
    pub fn delete_message_static(
        ctx: &Context,
        channel_id: Snowflake,
        id: Snowflake,
    ) -> (r: Result<Request, Error>)
        ensures
            ctx.answers(
                Method::Delete,
                "/v9/channels/"@ + decimal(channel_id@ as nat) + "/messages/"@
                    + decimal(id@ as nat),
                None,
                r,
            ),
    {
        let mut endpoint = String::from_str("/v9/channels/");
        endpoint.append(channel_id.to_string().as_str());
        endpoint.append("/messages/");
        endpoint.append(id.to_string().as_str());
        ctx.request(Method::Delete, endpoint.as_str(), None)
    }

    /// The call that deletes one message of a channel.
    pub fn delete_message(self, ctx: &Context, id: Snowflake) -> (r: Result<Request, Error>)
        ensures
            ctx.answers(
                Method::Delete,
                "/v9/channels/"@ + decimal(self.id@ as nat) + "/messages/"@
                    + decimal(id@ as nat),
                None,
                r,
            ),
    {
        let mut endpoint = String::from_str("/v9/channels/");
        endpoint.append(self.id.to_string().as_str());
        endpoint.append("/messages/");
        endpoint.append(id.to_string().as_str());
        ctx.request(Method::Delete, endpoint.as_str(), None)
    }

    /// The call that edits one message of a channel.
    pub fn edit_message_static(
        ctx: &Context,
        channel_id: Snowflake,
        id: Snowflake,
        msg: Json,
    ) -> (r: Result<Request, Error>)
        ensures
            ctx.answers(
                Method::Patch,
                "/v9/channels/"@ + decimal(channel_id@ as nat) + "/messages/"@
                    + decimal(id@ as nat),
                Some(msg@),
                r,
            ),
    {
        let mut endpoint = String::from_str("/v9/channels/");
        endpoint.append(channel_id.to_string().as_str());
        endpoint.append("/messages/");
        endpoint.append(id.to_string().as_str());
        ctx.request(Method::Patch, endpoint.as_str(), Some(msg))
    }

    /// The call that edits one message of a channel.
    pub fn edit_message(
        self,
        ctx: &Context,
        id: Snowflake,
        msg: Json,
    ) -> (r: Result<Request, Error>)
        ensures
            ctx.answers(
                Method::Patch,
                "/v9/channels/"@ + decimal(self.id@ as nat) + "/messages/"@
                    + decimal(id@ as nat),
                Some(msg@),
                r,
            ),
    {
        let mut endpoint = String::from_str("/v9/channels/");
        endpoint.append(self.id.to_string().as_str());
        endpoint.append("/messages/");
        endpoint.append(id.to_string().as_str());
        ctx.request(Method::Patch, endpoint.as_str(), Some(msg))
    }

    /// The call that reacts to a message of a channel with an emoji.
    pub fn add_reaction_static(
        ctx: &Context,
        channel_id: Snowflake,
        id: Snowflake,
        emoji: &str,
    ) -> (r: Result<Request, Error>)
        ensures
            ctx.answers(
                Method::Put,
                "/v9/channels/"@ + decimal(channel_id@ as nat) + "/messages/"@
                    + decimal(id@ as nat) + "/reactions/"@ + emoji@ + "/@me"@,
                None,
                r,
            ),
    {
        let mut endpoint = String::from_str("/v9/channels/");
        endpoint.append(channel_id.to_string().as_str());
        endpoint.append("/messages/");
        endpoint.append(id.to_string().as_str());
        endpoint.append("/reactions/");
        endpoint.append(emoji);
        endpoint.append("/@me");
        ctx.request(Method::Put, endpoint.as_str(), None)
    }

    /// The call that reacts to a message of a channel with an emoji.
    pub fn add_reaction(
        self,
        ctx: &Context,
        id: Snowflake,
        emoji: &str,
    ) -> (r: Result<Request, Error>)
        ensures
            ctx.answers(
                Method::Put,
                "/v9/channels/"@ + decimal(self.id@ as nat) + "/messages/"@
                    + decimal(id@ as nat) + "/reactions/"@ + emoji@ + "/@me"@,
                None,
                r,
            ),
    {
        let mut endpoint = String::from_str("/v9/channels/");
        endpoint.append(self.id.to_string().as_str());
        endpoint.append("/messages/");
        endpoint.append(id.to_string().as_str());
        endpoint.append("/reactions/");
        endpoint.append(emoji);
        endpoint.append("/@me");
        ctx.request(Method::Put, endpoint.as_str(), None)
    }
}

} // verus!
