//! Messages and what they carry.

pub mod embed;
pub mod component;

use crate::json::{Json, JsonValue, ToJson};
use crate::text::byte_len;
use crate::text::text_view;
use self::component::Component;
use self::embed::Embed;
use super::channel::{Channel, ChannelMention};
use super::common::{Emoji, Resolved};
use super::poll::Poll;
use super::role::RoleSubscriptionData;
use super::snowflake::Snowflake;
use super::sticker::{Sticker, StickerItem};
use super::timestamp::Timestamp;
use super::user::User;
use vstd::prelude::*;

verus! {

/// One bit of the flags of an attachment.
#[derive(Debug, Eq, PartialEq, Clone, Structural)]
pub enum AttachmentFlags {
    IsRemix,
}

impl AttachmentFlags {
    /// The number that stands for the value on the wire.
    pub open spec fn code_of(self) -> u8 {
        match self {
            AttachmentFlags::IsRemix => 4,
        }
    }

    /// The number that stands for the value on the wire.
    pub fn code(&self) -> (r: u8)
        ensures
            r == self.code_of(),
    {
        match self {
            AttachmentFlags::IsRemix => 4,
        }
    }

    /// The value that a number of the wire stands for, if it stands for one.
    pub fn from_code(code: u8) -> (r: Option<Self>)
        ensures
            match r {
                Some(value) => value.code_of() == code,
                None => forall|value: Self| value.code_of() != code,
            },
    {
        if code == 4 {
            Some(AttachmentFlags::IsRemix)
        } else {
            None
        }
    }
}

/// A file that hangs on a message. The length of a voice message is
/// kept as the text of its number of seconds.
#[derive(Debug, Clone)]
pub struct Attachment {
    pub id: Snowflake,
    pub filename: String,
    pub description: Option<String>,
    pub content_type: Option<String>,
    pub size: usize,
    pub url: String,
    pub proxy_url: String,
    pub width: Option<usize>,
    pub height: Option<usize>,
    pub duration_secs: Option<String>,
    pub waveform: Option<String>,
    pub ephemeral: Option<bool>,
    pub flags: Option<u8>,
}

impl ToJson for Attachment {
    open spec fn json_of(&self) -> JsonValue {
        JsonValue::Object(Seq::empty())
            .with("id"@, self.id.json_of())
            .with("filename"@, self.filename.json_of())
            .with("description"@, self.description.json_of())
            .with("content_type"@, self.content_type.json_of())
            .with("size"@, self.size.json_of())
            .with("url"@, self.url.json_of())
            .with("proxy_url"@, self.proxy_url.json_of())
            .with("width"@, self.width.json_of())
            .with("height"@, self.height.json_of())
            .with("duration_secs"@, JsonValue::number_text_or_null(text_view(self.duration_secs)))
            .with("waveform"@, self.waveform.json_of())
            .with("ephemeral"@, self.ephemeral.json_of())
            .with("flags"@, self.flags.json_of())
    }

    fn to_json(&self) -> (r: Json) {
        Json::object()
            .with("id", self.id.to_json())
            .with("filename", self.filename.to_json())
            .with("description", self.description.to_json())
            .with("content_type", self.content_type.to_json())
            .with("size", self.size.to_json())
            .with("url", self.url.to_json())
            .with("proxy_url", self.proxy_url.to_json())
            .with("width", self.width.to_json())
            .with("height", self.height.to_json())
            .with("duration_secs", Json::number_text_or_null(&self.duration_secs))
            .with("waveform", self.waveform.to_json())
            .with("ephemeral", self.ephemeral.to_json())
            .with("flags", self.flags.to_json())
    }
}

/// How many of the reactions to a message are bursts and how many are not.
#[derive(Debug, Clone)]
pub struct ReactionCountDetails {
    pub burst: usize,
    pub normal: usize,
}

/// The reactions to a message with one emoji.
#[derive(Debug, Clone)]
pub struct Reaction {
    pub count: usize,
    pub count_details: ReactionCountDetails,
    pub me: bool,
    pub me_burst: bool,
    pub emoji: Emoji,
    pub burst_colors: Vec<u32>,
}

/// What kind of message a message is.
#[derive(Debug, Eq, PartialEq, Clone, Structural)]
pub enum MessageType {
    Default,
    RecipientAdd,
    RecipientRemove,
    Call,
    NameChange,
    IconChange,
    PinnedMessage,
    UserJoin,
    GuildBoost,
    GuildBoostTier1,
    GuildBoostTier2,
    GuildBoostTier3,
    FollowAdd,
    GuildDiscoveryDisqualified,
    GuildDiscoveryRequalified,
    GuildDiscoveryGracePeriodInitialWarning,
    GuildDiscoveryGracePeriodFinalWarning,
    ThreadCreated,
    ThreadStarterMessage,
    Reply,
    ChatInputCommand,
    GuildInviteReminder,
    ContextMenuCommand,
    AutoModerationAction,
    RoleSubscriptionPurchase,
    InteractionPremiumUpsell,
    StageStart,
    StageEnd,
    StageSpeaker,
    StageTopic,
    GuildApplicationPremiumSubscription,
    PurchaseNotification,
    GuildIncidentAlertModeEnabled,
    GuildIncidentAlertModeDisabled,
    GuildIncidentReportRaid,
    GuildIncidentReportFalseAlarm,
}

impl MessageType {
    /// The number that stands for the value on the wire.
    pub open spec fn code_of(self) -> u64 {
        match self {
            MessageType::Default => 0,
            MessageType::RecipientAdd => 1,
            MessageType::RecipientRemove => 2,
            MessageType::Call => 3,
            MessageType::NameChange => 4,
            MessageType::IconChange => 5,
            MessageType::PinnedMessage => 6,
            MessageType::UserJoin => 7,
            MessageType::GuildBoost => 8,
            MessageType::GuildBoostTier1 => 9,
            MessageType::GuildBoostTier2 => 10,
            MessageType::GuildBoostTier3 => 11,
            MessageType::FollowAdd => 12,
            MessageType::GuildDiscoveryDisqualified => 14,
            MessageType::GuildDiscoveryRequalified => 15,
            MessageType::GuildDiscoveryGracePeriodInitialWarning => 16,
            MessageType::GuildDiscoveryGracePeriodFinalWarning => 17,
            MessageType::ThreadCreated => 18,
            MessageType::ThreadStarterMessage => 21,
            MessageType::Reply => 19,
            MessageType::ChatInputCommand => 20,
            MessageType::GuildInviteReminder => 22,
            MessageType::ContextMenuCommand => 23,
            MessageType::AutoModerationAction => 24,
            MessageType::RoleSubscriptionPurchase => 25,
            MessageType::InteractionPremiumUpsell => 26,
            MessageType::StageStart => 27,
            MessageType::StageEnd => 28,
            MessageType::StageSpeaker => 29,
            MessageType::StageTopic => 31,
            MessageType::GuildApplicationPremiumSubscription => 32,
            MessageType::PurchaseNotification => 44,
            MessageType::GuildIncidentAlertModeEnabled => 36,
            MessageType::GuildIncidentAlertModeDisabled => 37,
            MessageType::GuildIncidentReportRaid => 38,
            MessageType::GuildIncidentReportFalseAlarm => 39,
        }
    }

    /// The number that stands for the value on the wire.
    pub fn code(&self) -> (r: u64)
        ensures
            r == self.code_of(),
    {
        match self {
            MessageType::Default => 0,
            MessageType::RecipientAdd => 1,
            MessageType::RecipientRemove => 2,
            MessageType::Call => 3,
            MessageType::NameChange => 4,
            MessageType::IconChange => 5,
            MessageType::PinnedMessage => 6,
            MessageType::UserJoin => 7,
            MessageType::GuildBoost => 8,
            MessageType::GuildBoostTier1 => 9,
            MessageType::GuildBoostTier2 => 10,
            MessageType::GuildBoostTier3 => 11,
            MessageType::FollowAdd => 12,
            MessageType::GuildDiscoveryDisqualified => 14,
            MessageType::GuildDiscoveryRequalified => 15,
            MessageType::GuildDiscoveryGracePeriodInitialWarning => 16,
            MessageType::GuildDiscoveryGracePeriodFinalWarning => 17,
            MessageType::ThreadCreated => 18,
            MessageType::ThreadStarterMessage => 21,
            MessageType::Reply => 19,
            MessageType::ChatInputCommand => 20,
            MessageType::GuildInviteReminder => 22,
            MessageType::ContextMenuCommand => 23,
            MessageType::AutoModerationAction => 24,
            MessageType::RoleSubscriptionPurchase => 25,
            MessageType::InteractionPremiumUpsell => 26,
            MessageType::StageStart => 27,
            MessageType::StageEnd => 28,
            MessageType::StageSpeaker => 29,
            MessageType::StageTopic => 31,
            MessageType::GuildApplicationPremiumSubscription => 32,
            MessageType::PurchaseNotification => 44,
            MessageType::GuildIncidentAlertModeEnabled => 36,
            MessageType::GuildIncidentAlertModeDisabled => 37,
            MessageType::GuildIncidentReportRaid => 38,
            MessageType::GuildIncidentReportFalseAlarm => 39,
        }
    }

    /// The value that a number of the wire stands for, if it stands for one.
    pub fn from_code(code: u64) -> (r: Option<Self>)
        ensures
            match r {
                Some(value) => value.code_of() == code,
                None => forall|value: Self| value.code_of() != code,
            },
    {
        if code == 0 {
            Some(MessageType::Default)
        } else if code == 1 {
            Some(MessageType::RecipientAdd)
        } else if code == 2 {
            Some(MessageType::RecipientRemove)
        } else if code == 3 {
            Some(MessageType::Call)
        } else if code == 4 {
            Some(MessageType::NameChange)
        } else if code == 5 {
            Some(MessageType::IconChange)
        } else if code == 6 {
            Some(MessageType::PinnedMessage)
        } else if code == 7 {
            Some(MessageType::UserJoin)
        } else if code == 8 {
            Some(MessageType::GuildBoost)
        } else if code == 9 {
            Some(MessageType::GuildBoostTier1)
        } else if code == 10 {
            Some(MessageType::GuildBoostTier2)
        } else if code == 11 {
            Some(MessageType::GuildBoostTier3)
        } else if code == 12 {
            Some(MessageType::FollowAdd)
        } else if code == 14 {
            Some(MessageType::GuildDiscoveryDisqualified)
        } else if code == 15 {
            Some(MessageType::GuildDiscoveryRequalified)
        } else if code == 16 {
            Some(MessageType::GuildDiscoveryGracePeriodInitialWarning)
        } else if code == 17 {
            Some(MessageType::GuildDiscoveryGracePeriodFinalWarning)
        } else if code == 18 {
            Some(MessageType::ThreadCreated)
        } else if code == 21 {
            Some(MessageType::ThreadStarterMessage)
        } else if code == 19 {
            Some(MessageType::Reply)
        } else if code == 20 {
            Some(MessageType::ChatInputCommand)
        } else if code == 22 {
            Some(MessageType::GuildInviteReminder)
        } else if code == 23 {
            Some(MessageType::ContextMenuCommand)
        } else if code == 24 {
            Some(MessageType::AutoModerationAction)
        } else if code == 25 {
            Some(MessageType::RoleSubscriptionPurchase)
        } else if code == 26 {
            Some(MessageType::InteractionPremiumUpsell)
        } else if code == 27 {
            Some(MessageType::StageStart)
        } else if code == 28 {
            Some(MessageType::StageEnd)
        } else if code == 29 {
            Some(MessageType::StageSpeaker)
        } else if code == 31 {
            Some(MessageType::StageTopic)
        } else if code == 32 {
            Some(MessageType::GuildApplicationPremiumSubscription)
        } else if code == 44 {
            Some(MessageType::PurchaseNotification)
        } else if code == 36 {
            Some(MessageType::GuildIncidentAlertModeEnabled)
        } else if code == 37 {
            Some(MessageType::GuildIncidentAlertModeDisabled)
        } else if code == 38 {
            Some(MessageType::GuildIncidentReportRaid)
        } else if code == 39 {
            Some(MessageType::GuildIncidentReportFalseAlarm)
        } else {
            None
        }
    }
}

/// What an activity that a message invites to asks of the reader.
#[derive(Debug, Eq, PartialEq, Clone, Structural)]
pub enum ActivityType {
    Join,
    Spectate,
    Listen,
    JoinRequest,
}

impl ActivityType {
    /// The number that stands for the value on the wire.
    pub open spec fn code_of(self) -> u8 {
        match self {
            ActivityType::Join => 1,
            ActivityType::Spectate => 2,
            ActivityType::Listen => 3,
            ActivityType::JoinRequest => 5,
        }
    }

    /// The number that stands for the value on the wire.
    pub fn code(&self) -> (r: u8)
        ensures
            r == self.code_of(),
    {
        match self {
            ActivityType::Join => 1,
            ActivityType::Spectate => 2,
            ActivityType::Listen => 3,
            ActivityType::JoinRequest => 5,
        }
    }

    /// The value that a number of the wire stands for, if it stands for one.
    pub fn from_code(code: u8) -> (r: Option<Self>)
        ensures
            match r {
                Some(value) => value.code_of() == code,
                None => forall|value: Self| value.code_of() != code,
            },
    {
        if code == 1 {
            Some(ActivityType::Join)
        } else if code == 2 {
            Some(ActivityType::Spectate)
        } else if code == 3 {
            Some(ActivityType::Listen)
        } else if code == 5 {
            Some(ActivityType::JoinRequest)
        } else {
            None
        }
    }
}

impl ToJson for ActivityType {
    open spec fn json_of(&self) -> JsonValue {
        JsonValue::number(self.code_of() as nat)
    }

    fn to_json(&self) -> (r: Json) {
        Json::number(self.code() as u64)
    }
}

/// An activity that a message invites to.
#[derive(Debug, Clone)]
pub struct Activity {
    pub message_activity_type: ActivityType,
    pub party_id: Option<String>,
}

/// What a message answers or forwards.
#[derive(Debug, Clone)]
pub struct Reference {
    pub message_id: Option<Snowflake>,
    pub channel_id: Option<Snowflake>,
    pub guild_id: Option<Snowflake>,
    pub fail_if_not_exists: Option<bool>,
}

impl ToJson for Reference {
    open spec fn json_of(&self) -> JsonValue {
        JsonValue::Object(Seq::empty())
            .with("message_id"@, self.message_id.json_of())
            .with("channel_id"@, self.channel_id.json_of())
            .with("guild_id"@, self.guild_id.json_of())
            .with("fail_if_not_exists"@, self.fail_if_not_exists.json_of())
    }

    fn to_json(&self) -> (r: Json) {
        Json::object()
            .with("message_id", self.message_id.to_json())
            .with("channel_id", self.channel_id.to_json())
            .with("guild_id", self.guild_id.to_json())
            .with("fail_if_not_exists", self.fail_if_not_exists.to_json())
    }
}

/// One bit of the flags of a message.
#[derive(Debug, Clone)]
pub enum MessageFlag {
    Crossposted,
    IsCrosspost,
    SuppressEmbeds,
    SourceMessageDeleted,
    Urgent,
    HasThread,
    Ephemeral,
    Loading,
    FailedToMentionSomeRolesInThread,
    SuppressNotifications,
    IsVoiceMessage,
}

impl MessageFlag {
    /// The number that stands for the value on the wire.
    pub open spec fn code_of(self) -> u16 {
        match self {
            MessageFlag::Crossposted => 1,
            MessageFlag::IsCrosspost => 2,
            MessageFlag::SuppressEmbeds => 4,
            MessageFlag::SourceMessageDeleted => 8,
            MessageFlag::Urgent => 16,
            MessageFlag::HasThread => 32,
            MessageFlag::Ephemeral => 64,
            MessageFlag::Loading => 128,
            MessageFlag::FailedToMentionSomeRolesInThread => 256,
            MessageFlag::SuppressNotifications => 4096,
            MessageFlag::IsVoiceMessage => 8192,
        }
    }

    /// The number that stands for the value on the wire.
    pub fn code(&self) -> (r: u16)
        ensures
            r == self.code_of(),
    {
        match self {
            MessageFlag::Crossposted => 1,
            MessageFlag::IsCrosspost => 2,
            MessageFlag::SuppressEmbeds => 4,
            MessageFlag::SourceMessageDeleted => 8,
            MessageFlag::Urgent => 16,
            MessageFlag::HasThread => 32,
            MessageFlag::Ephemeral => 64,
            MessageFlag::Loading => 128,
            MessageFlag::FailedToMentionSomeRolesInThread => 256,
            MessageFlag::SuppressNotifications => 4096,
            MessageFlag::IsVoiceMessage => 8192,
        }
    }

    /// The value that a number of the wire stands for, if it stands for one.
    pub fn from_code(code: u16) -> (r: Option<Self>)
        ensures
            match r {
                Some(value) => value.code_of() == code,
                None => forall|value: Self| value.code_of() != code,
            },
    {
        if code == 1 {
            Some(MessageFlag::Crossposted)
        } else if code == 2 {
            Some(MessageFlag::IsCrosspost)
        } else if code == 4 {
            Some(MessageFlag::SuppressEmbeds)
        } else if code == 8 {
            Some(MessageFlag::SourceMessageDeleted)
        } else if code == 16 {
            Some(MessageFlag::Urgent)
        } else if code == 32 {
            Some(MessageFlag::HasThread)
        } else if code == 64 {
            Some(MessageFlag::Ephemeral)
        } else if code == 128 {
            Some(MessageFlag::Loading)
        } else if code == 256 {
            Some(MessageFlag::FailedToMentionSomeRolesInThread)
        } else if code == 4096 {
            Some(MessageFlag::SuppressNotifications)
        } else if code == 8192 {
            Some(MessageFlag::IsVoiceMessage)
        } else {
            None
        }
    }
}

/// What kind of interaction brought a message about.
#[derive(Debug, Eq, PartialEq, Clone, Structural)]
pub enum InteractionType {
    Ping,
    ApplicationCommand,
    MessageComponent,
    ApplicationCommandAutocomplete,
    ModalSubmit,
}

impl InteractionType {
    /// The number that stands for the value on the wire.
    pub open spec fn code_of(self) -> u8 {
        match self {
            InteractionType::Ping => 1,
            InteractionType::ApplicationCommand => 2,
            InteractionType::MessageComponent => 3,
            InteractionType::ApplicationCommandAutocomplete => 4,
            InteractionType::ModalSubmit => 5,
        }
    }

    /// The number that stands for the value on the wire.
    pub fn code(&self) -> (r: u8)
        ensures
            r == self.code_of(),
    {
        match self {
            InteractionType::Ping => 1,
            InteractionType::ApplicationCommand => 2,
            InteractionType::MessageComponent => 3,
            InteractionType::ApplicationCommandAutocomplete => 4,
            InteractionType::ModalSubmit => 5,
        }
    }

    /// The value that a number of the wire stands for, if it stands for one.
    pub fn from_code(code: u8) -> (r: Option<Self>)
        ensures
            match r {
                Some(value) => value.code_of() == code,
                None => forall|value: Self| value.code_of() != code,
            },
    {
        if code == 1 {
            Some(InteractionType::Ping)
        } else if code == 2 {
            Some(InteractionType::ApplicationCommand)
        } else if code == 3 {
            Some(InteractionType::MessageComponent)
        } else if code == 4 {
            Some(InteractionType::ApplicationCommandAutocomplete)
        } else if code == 5 {
            Some(InteractionType::ModalSubmit)
        } else {
            None
        }
    }
}

/// The interaction that brought a message about.
#[derive(Debug)]
pub struct InteractionMetadata {
    pub id: Snowflake,
    pub interaction_type: InteractionType,
    pub user: User,
    pub original_response_message_id: Option<Snowflake>,
    pub interacted_message_id: Option<Snowflake>,
    pub triggering_interaction_metadata: Option<Box<InteractionMetadata>>,
}

/// A call in a conversation between users.
#[derive(Debug, Clone)]
pub struct Call {
    pub participants: Vec<Snowflake>,
    pub ended_timestamp: Option<Timestamp>,
}

/// A message.
#[derive(Debug)]
pub struct Message {
    pub id: Snowflake,
    pub channel_id: Snowflake,
    pub guild_id: Option<Snowflake>,
    pub content: String,
    pub author: Option<User>,
    pub timestamp: Timestamp,
    pub edited_timestamp: Option<Timestamp>,
    pub tts: bool,
    pub mentions: Vec<User>,
    pub mention_roles: Vec<Snowflake>,
    pub mention_channels: Option<ChannelMention>,
    pub mention_everyone: bool,
    pub attachments: Vec<Attachment>,
    pub embeds: Vec<Embed>,
    pub reactions: Option<Vec<Reaction>>,
    pub nonce: Option<String>,
    pub pinned: bool,
    pub webhook_id: Option<Snowflake>,
    pub message_type: MessageType,
    pub activity: Option<Activity>,
    pub application: Option<()>,
    pub interaction_metadata: Option<InteractionMetadata>,
    pub application_id: Option<Snowflake>,
    pub message_reference: Option<Reference>,
    pub referenced_message: Option<Box<Message>>,
    pub thread: Option<Channel>,
    pub components: Option<Vec<Component>>,
    pub sticker_items: Option<Vec<StickerItem>>,
    pub stickers: Option<Vec<Sticker>>,
    pub position: Option<u64>,
    pub role_subscription_data: Option<RoleSubscriptionData>,
    pub resolved: Option<Resolved>,
    pub poll: Option<Poll>,
    pub flags: Option<u16>,
}

/// Puts together the document of an embed.
#[derive(Debug)]
pub struct EmbedBuilder {
    value: Json,
}

/// Puts together the document of a message to send.
#[derive(Debug)]
pub struct MessageBuilder {
    value: Json,
}

impl View for EmbedBuilder {
    type V = JsonValue;

    closed spec fn view(&self) -> JsonValue {
        self.value@
    }
}

impl EmbedBuilder {
    #[verifier::type_invariant]
    spec fn is_object(self) -> bool {
        self.value@ is Object
    }

    /// An embed that holds nothing yet.
    pub fn new() -> (r: Self)
        ensures
            r@ == JsonValue::Object(Seq::empty()),
    {
        Self { value: Json::object() }
    }

    /// The embed with its author set, whose name may take 256 bytes.
    pub fn author(self, author: embed::Author) -> (r: Self)
        requires
            byte_len(author.name@) <= 256,
        ensures
            r@ == self@.set("author"@, author.json_of()),
    {
        proof {
            use_type_invariant(&self);
        }
        Self { value: self.value.set("author", author.to_json()) }
    }

    /// The embed with its title set, which may take 256 bytes.
    pub fn title(self, title: &str) -> (r: Self)
        requires
            byte_len(title@) <= 256,
        ensures
            r@ == self@.set("title"@, JsonValue::Text(title@)),
    {
        proof {
            use_type_invariant(&self);
        }
        Self { value: self.value.set("title", Json::text(title)) }
    }

    /// The embed with its description set, which may take 4096 bytes.
    pub fn description(self, description: &str) -> (r: Self)
        requires
            byte_len(description@) <= 4096,
        ensures
            r@ == self@.set("description"@, JsonValue::Text(description@)),
    {
        proof {
            use_type_invariant(&self);
        }
        Self { value: self.value.set("description", Json::text(description)) }
    }

    /// The embed with its address set.
    pub fn url(self, url: String) -> (r: Self)
        ensures
            r@ == self@.set("url"@, JsonValue::Text(url@)),
    {
        proof {
            use_type_invariant(&self);
        }
        Self { value: self.value.set("url", Json::Text(url)) }
    }

    /// The embed with its colour set.
    pub fn color(self, color: u32) -> (r: Self)
        ensures
            r@ == self@.set("color"@, JsonValue::number(color as nat)),
    {
        proof {
            use_type_invariant(&self);
        }
        Self { value: self.value.set("color", color.to_json()) }
    }

    /// The embed with its timestamp set.
    pub fn timestamp(self, timestamp: Timestamp) -> (r: Self)
        ensures
            r@ == self@.set("timestamp"@, timestamp.json_of()),
    {
        proof {
            use_type_invariant(&self);
        }
        Self { value: self.value.set("timestamp", timestamp.to_json()) }
    }

    /// The embed with its footer set, whose text may take 2048 bytes.
    pub fn footer(self, footer: embed::Footer) -> (r: Self)
        requires
            byte_len(footer.text@) <= 2048,
        ensures
            r@ == self@.set("footer"@, footer.json_of()),
    {
        proof {
            use_type_invariant(&self);
        }
        Self { value: self.value.set("footer", footer.to_json()) }
    }

    /// The embed with its image set.
    pub fn image(self, image: embed::Image) -> (r: Self)
        ensures
            r@ == self@.set("image"@, image.json_of()),
    {
        proof {
            use_type_invariant(&self);
        }
        Self { value: self.value.set("image", image.to_json()) }
    }

    /// The embed with its thumbnail set.
    pub fn thumbnail(self, thumbnail: embed::Thumbnail) -> (r: Self)
        ensures
            r@ == self@.set("thumbnail"@, thumbnail.json_of()),
    {
        proof {
            use_type_invariant(&self);
        }
        Self { value: self.value.set("thumbnail", thumbnail.to_json()) }
    }

    /// The embed with its video set.
    pub fn video(self, video: embed::Video) -> (r: Self)
        ensures
            r@ == self@.set("video"@, video.json_of()),
    {
        proof {
            use_type_invariant(&self);
        }
        Self { value: self.value.set("video", video.to_json()) }
    }

    /// The embed with its provider set.
    pub fn provider(self, provider: embed::Provider) -> (r: Self)
        ensures
            r@ == self@.set("provider"@, provider.json_of()),
    {
        proof {
            use_type_invariant(&self);
        }
        Self { value: self.value.set("provider", provider.to_json()) }
    }

    /// The embed with one more field. A name may take 256 bytes and a value
    /// 1024, and an embed that has 25 fields takes no other.
    pub fn add_field(self, field: embed::Field) -> (r: Self)
        requires
            byte_len(field.name@) <= 256,
            byte_len(field.value@) <= 1024,
            self@.items_at("fields"@).len() != 25,
        ensures
            r@ == self@.set(
                "fields"@,
                JsonValue::Array(self@.items_at("fields"@).push(field.json_of())),
            ),
    {
        proof {
            use_type_invariant(&self);
        }
        let mut items = self.value.items_at("fields");
        let ghost before = crate::json::items_view(items@);
        items.push(field.to_json());
        assert(crate::json::items_view(items@) =~= before.push(field.json_of()));
        Self { value: self.value.set("fields", Json::array_of(items)) }
    }

    /// The document of the embed.
    pub fn build(self) -> (r: Json)
        ensures
            r@ == self@,
    {
        self.value
    }
}

impl View for MessageBuilder {
    type V = JsonValue;

    closed spec fn view(&self) -> JsonValue {
        self.value@
    }
}

impl MessageBuilder {
    #[verifier::type_invariant]
    spec fn is_object(self) -> bool {
        self.value@ is Object
    }

    /// The least that a message holds: its text.
    pub open spec fn initial(content: Seq<char>) -> JsonValue {
        JsonValue::Object(Seq::empty()).with("content"@, JsonValue::Text(content))
    }

    /// The document that points at a message that is answered.
    pub open spec fn reference_of(message: Message, fail: bool) -> JsonValue {
        JsonValue::Object(Seq::empty()).with("message_id"@, message.id.json_of()).with(
            "channel_id"@,
            message.channel_id.json_of(),
        ).with("guild_id"@, message.guild_id.json_of()).with(
            "fail_if_not_exists"@,
            JsonValue::Bool(fail),
        )
    }

    /// A message with the given text.
    pub fn new(content: String) -> (r: Self)
        ensures
            r@ == Self::initial(content@),
    {
        Self { value: Json::object().with("content", Json::Text(content)) }
    }

    /// The message with one more component.
    pub fn add_component(self, component: Component) -> (r: Self)
        ensures
            r@ == self@.set(
                "components"@,
                JsonValue::Array(self@.items_at("components"@).push(component.json_of())),
            ),
    {
        proof {
            use_type_invariant(&self);
        }
        let mut items = self.value.items_at("components");
        let ghost before = crate::json::items_view(items@);
        items.push(component.to_json());
        assert(crate::json::items_view(items@) =~= before.push(component.json_of()));
        Self { value: self.value.set("components", Json::array_of(items)) }
    }

    /// The message with one more embed, as its builder has put it together. A
    /// message that has ten embeds takes no other.
    pub fn add_embed_from(self, embed: EmbedBuilder) -> (r: Self)
        requires
            self@.items_at("embeds"@).len() != 10,
        ensures
            r@ == self@.set(
                "embeds"@,
                JsonValue::Array(self@.items_at("embeds"@).push(embed@)),
            ),
    {
        proof {
            use_type_invariant(&self);
        }
        let mut items = self.value.items_at("embeds");
        let ghost before = crate::json::items_view(items@);
        items.push(embed.build());
        assert(crate::json::items_view(items@) =~= before.push(embed@));
        Self { value: self.value.set("embeds", Json::array_of(items)) }
    }

    /// The message with one more embed. A message that has ten embeds takes no
    /// other.
    pub fn add_embed(self, embed: Embed) -> (r: Self)
        requires
            self@.items_at("embeds"@).len() != 10,
        ensures
            r@ == self@.set(
                "embeds"@,
                JsonValue::Array(self@.items_at("embeds"@).push(embed.json_of())),
            ),
    {
        proof {
            use_type_invariant(&self);
        }
        let mut items = self.value.items_at("embeds");
        let ghost before = crate::json::items_view(items@);
        items.push(embed.to_json());
        assert(crate::json::items_view(items@) =~= before.push(embed.json_of()));
        Self { value: self.value.set("embeds", Json::array_of(items)) }
    }

    /// The message with one more attachment.
    pub fn add_attachment(self, attachment: Attachment) -> (r: Self)
        ensures
            r@ == self@.set(
                "attachments"@,
                JsonValue::Array(self@.items_at("attachments"@).push(attachment.json_of())),
            ),
    {
        proof {
            use_type_invariant(&self);
        }
        let mut items = self.value.items_at("attachments");
        let ghost before = crate::json::items_view(items@);
        items.push(attachment.to_json());
        assert(crate::json::items_view(items@) =~= before.push(attachment.json_of()));
        Self { value: self.value.set("attachments", Json::array_of(items)) }
    }

    /// The message as an answer to what the reference points at.
    pub fn reference(self, message_reference: Reference) -> (r: Self)
        ensures
            r@ == self@.set("message_reference"@, message_reference.json_of()),
    {
        proof {
            use_type_invariant(&self);
        }
        Self { value: self.value.set("message_reference", message_reference.to_json()) }
    }

    /// The message as an answer to the given message; `fail` says whether
    /// sending fails where that message is gone.
    pub fn reference_to(self, message: &Message, fail: bool) -> (r: Self)
        ensures
            r@ == self@.set("message_reference"@, Self::reference_of(*message, fail)),
    {
        proof {
            use_type_invariant(&self);
        }
        let reference = Json::object().with("message_id", message.id.to_json()).with(
            "channel_id",
            message.channel_id.to_json(),
        ).with("guild_id", message.guild_id.to_json()).with(
            "fail_if_not_exists",
            Json::Bool(fail),
        );
        Self { value: self.value.set("message_reference", reference) }
    }

    /// The message with a poll.
    pub fn poll(self, poll: Poll) -> (r: Self)
        ensures
            r@ == self@.set("poll"@, poll.json_of()),
    {
        proof {
            use_type_invariant(&self);
        }
        Self { value: self.value.set("poll", poll.to_json()) }
    }

    /// The document of the message.
    pub fn build(self) -> (r: Json)
        ensures
            r@ == self@,
    {
        self.value
    }
}

} // verus!
