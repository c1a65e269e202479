//! What a user is doing: the activities of a presence.

use crate::json::{Json, JsonValue, ToJson};
use crate::text::byte_len;
use super::common::Emoji;
use vstd::prelude::*;

verus! {

/// What kind of activity a user is in.
#[derive(Debug, Eq, PartialEq, Clone, Structural)]
pub enum ActivityType {
    Playing,
    Steaming,
    Listening,
    Watching,
    Custom,
    Competing,
}

impl ActivityType {
    /// The number that stands for the value on the wire.
    pub open spec fn code_of(self) -> u8 {
        match self {
            ActivityType::Playing => 0,
            ActivityType::Steaming => 1,
            ActivityType::Listening => 2,
            ActivityType::Watching => 3,
            ActivityType::Custom => 4,
            ActivityType::Competing => 5,
        }
    }

    /// The number that stands for the value on the wire.
    pub fn code(&self) -> (r: u8)
        ensures
            r == self.code_of(),
    {
        match self {
            ActivityType::Playing => 0,
            ActivityType::Steaming => 1,
            ActivityType::Listening => 2,
            ActivityType::Watching => 3,
            ActivityType::Custom => 4,
            ActivityType::Competing => 5,
        }
    }

    /// The value that a number of the wire stands for, if it stands for one.
    pub fn from_code(code: u8) -> (r: Option<Self>)
        ensures
            match r {
                Some(value) => value.code_of() == code,
                None => forall|value: Self| value.code_of() != code,
            },
    {
        if code == 0 {
            Some(ActivityType::Playing)
        } else if code == 1 {
            Some(ActivityType::Steaming)
        } else if code == 2 {
            Some(ActivityType::Listening)
        } else if code == 3 {
            Some(ActivityType::Watching)
        } else if code == 4 {
            Some(ActivityType::Custom)
        } else if code == 5 {
            Some(ActivityType::Competing)
        } else {
            None
        }
    }
}

impl ToJson for ActivityType {
    open spec fn json_of(&self) -> JsonValue {
        JsonValue::number(self.code_of() as nat)
    }

    fn to_json(&self) -> (r: Json) {
        Json::number(self.code() as u64)
    }
}

/// When an activity started and when it ends, in milliseconds since the Unix epoch.
#[derive(Debug, Clone)]
pub struct Timestamps {
    pub start: Option<u64>,
    pub end: Option<u64>,
}

/// The party of an activity: its name, and how many of how many are in it.
#[derive(Debug, Clone)]
pub struct Party {
    pub id: Option<String>,
    pub size: Option<[u64; 2]>,
}

/// The pictures of an activity and the texts shown over them.
#[derive(Debug, Clone)]
pub struct Asset {
    pub large_image: Option<String>,
    pub large_text: Option<String>,
    pub small_image: Option<String>,
    pub small_text: Option<String>,
}

impl ToJson for Asset {
    open spec fn json_of(&self) -> JsonValue {
        JsonValue::Object(Seq::empty())
            .with("large_image"@, self.large_image.json_of())
            .with("large_text"@, self.large_text.json_of())
            .with("small_image"@, self.small_image.json_of())
            .with("small_text"@, self.small_text.json_of())
    }

    fn to_json(&self) -> (r: Json) {
        Json::object()
            .with("large_image", self.large_image.to_json())
            .with("large_text", self.large_text.to_json())
            .with("small_image", self.small_image.to_json())
            .with("small_text", self.small_text.to_json())
    }
}

/// The keys by which others join or watch an activity.
#[derive(Debug, Clone)]
pub struct Secrets {
    pub join_key: Option<String>,
    pub spectate_key: Option<String>,
    pub match_key: Option<String>,
}

/// One bit of the flags of an activity.
#[derive(Debug, Clone)]
pub enum ActivityFlag {
    Instance,
    Join,
    Spectate,
    JoinReq,
    Sync,
    Play,
    PrivacyFriends,
    PrivacyVC,
    Embedded,
}

impl ActivityFlag {
    /// The number that stands for the value on the wire.
    pub open spec fn code_of(self) -> u16 {
        match self {
            ActivityFlag::Instance => 1,
            ActivityFlag::Join => 2,
            ActivityFlag::Spectate => 4,
            ActivityFlag::JoinReq => 8,
            ActivityFlag::Sync => 16,
            ActivityFlag::Play => 32,
            ActivityFlag::PrivacyFriends => 64,
            ActivityFlag::PrivacyVC => 128,
            ActivityFlag::Embedded => 256,
        }
    }

    /// The number that stands for the value on the wire.
    pub fn code(&self) -> (r: u16)
        ensures
            r == self.code_of(),
    {
        match self {
            ActivityFlag::Instance => 1,
            ActivityFlag::Join => 2,
            ActivityFlag::Spectate => 4,
            ActivityFlag::JoinReq => 8,
            ActivityFlag::Sync => 16,
            ActivityFlag::Play => 32,
            ActivityFlag::PrivacyFriends => 64,
            ActivityFlag::PrivacyVC => 128,
            ActivityFlag::Embedded => 256,
        }
    }

    /// The value that a number of the wire stands for, if it stands for one.
    pub fn from_code(code: u16) -> (r: Option<Self>)
        ensures
            match r {
                Some(value) => value.code_of() == code,
                None => forall|value: Self| value.code_of() != code,
            },
    {
        if code == 1 {
            Some(ActivityFlag::Instance)
        } else if code == 2 {
            Some(ActivityFlag::Join)
        } else if code == 4 {
            Some(ActivityFlag::Spectate)
        } else if code == 8 {
            Some(ActivityFlag::JoinReq)
        } else if code == 16 {
            Some(ActivityFlag::Sync)
        } else if code == 32 {
            Some(ActivityFlag::Play)
        } else if code == 64 {
            Some(ActivityFlag::PrivacyFriends)
        } else if code == 128 {
            Some(ActivityFlag::PrivacyVC)
        } else if code == 256 {
            Some(ActivityFlag::Embedded)
        } else {
            None
        }
    }
}

/// A button of an activity: a label of up to 32 bytes and an address of up to 512.
#[derive(Debug, Clone)]
pub struct Button {
    pub label: String,
    pub url: String,
}

impl ToJson for Button {
    open spec fn json_of(&self) -> JsonValue {
        JsonValue::Object(Seq::empty())
            .with("label"@, self.label.json_of())
            .with("url"@, self.url.json_of())
    }

    fn to_json(&self) -> (r: Json) {
        Json::object()
            .with("label", self.label.to_json())
            .with("url", self.url.to_json())
    }
}

/// What a user is doing.
#[derive(Debug, Clone)]
pub struct Activity {
    pub name: String,
    pub activity_type: ActivityType,
    pub url: Option<String>,
    pub created_at: u64,
    pub timestamps: Option<Timestamps>,
    pub application_id: u64,
    pub details: Option<String>,
    pub state: Option<String>,
    pub emoji: Option<Emoji>,
    pub party: Option<Party>,
    pub assets: Option<Asset>,
    pub secrets: Option<Secrets>,
    pub instance: Option<bool>,
    pub buttons: Option<Vec<Button>>,
    pub flags: u16,
}

/// Puts together the document of an activity to announce.
#[derive(Debug)]
pub struct ActivityBuilder {
    value: Json,
}

impl View for ActivityBuilder {
    type V = JsonValue;

    closed spec fn view(&self) -> JsonValue {
        self.value@
    }
}

impl Clone for ActivityBuilder {
    fn clone(&self) -> (r: Self)
        ensures
            r@ == self@,
    {
        proof {
            use_type_invariant(self);
        }
        Self { value: self.value.duplicate() }
    }
}

impl ActivityBuilder {
    #[verifier::type_invariant]
    spec fn is_object(self) -> bool {
        self.value@ is Object
    }

    /// The least that an activity holds: its name and its kind.
    pub open spec fn initial(name: Seq<char>, activity_type: ActivityType) -> JsonValue {
        JsonValue::Object(Seq::empty()).with("name"@, JsonValue::Text(name)).with(
            "type"@,
            activity_type.json_of(),
        )
    }

    /// The document of a button of an activity.
    pub open spec fn button(label: Seq<char>, url: Seq<char>) -> JsonValue {
        JsonValue::Object(Seq::empty()).with("label"@, JsonValue::Text(label)).with(
            "url"@,
            JsonValue::Text(url),
        )
    }

    /// The document of the start and the end of an activity.
    pub open spec fn timestamps(start: u64, end: u64) -> JsonValue {
        JsonValue::Object(Seq::empty()).with("start"@, JsonValue::number(start as nat)).with(
            "end"@,
            JsonValue::number(end as nat),
        )
    }

    /// An activity with the given name and kind.
    pub fn new(name: String, activity_type: ActivityType) -> (r: Self)
        ensures
            r@ == Self::initial(name@, activity_type),
    {
        Self {
            value: Json::object().with("name", Json::Text(name)).with(
                "type",
                activity_type.to_json(),
            ),
        }
    }

    /// The activity with its address set, which may take 512 bytes.
    pub fn set_url(self, url: String) -> (r: Self)
        requires
            byte_len(url@) <= 512,
        ensures
            r@ == self@.set("url"@, JsonValue::Text(url@)),
    {
        proof {
            use_type_invariant(&self);
        }
        Self { value: self.value.set("url", Json::Text(url)) }
    }

    /// The activity with its start and end set, in milliseconds.
    pub fn set_timestamps(self, start: u64, end: u64) -> (r: Self)
        ensures
            r@ == self@.set("timestamps"@, Self::timestamps(start, end)),
    {
        proof {
            use_type_invariant(&self);
        }
        let stamps = Json::object().with("start", Json::number(start)).with(
            "end",
            Json::number(end),
        );
        Self { value: self.value.set("timestamps", stamps) }
    }

    /// The activity with the application that it belongs to set.
    pub fn set_application_id(self, application_id: u64) -> (r: Self)
        ensures
            r@ == self@.set("application_id"@, JsonValue::number(application_id as nat)),
    {
        proof {
            use_type_invariant(&self);
        }
        Self { value: self.value.set("application_id", Json::number(application_id)) }
    }

    /// The activity with its emoji set.
    pub fn set_emoji(self, emoji: Emoji) -> (r: Self)
        ensures
            r@ == self@.set("emoji"@, emoji.json_of()),
    {
        proof {
            use_type_invariant(&self);
        }
        Self { value: self.value.set("emoji", emoji.to_json()) }
    }

    /// The activity with its pictures set.
    pub fn set_asset(self, assets: Asset) -> (r: Self)
        ensures
            r@ == self@.set("assets"@, assets.json_of()),
    {
        proof {
            use_type_invariant(&self);
        }
        Self { value: self.value.set("assets", assets.to_json()) }
    }

    /// The activity with its flags set.
    pub fn set_flags(self, flags: u16) -> (r: Self)
        ensures
            r@ == self@.set("flags"@, JsonValue::number(flags as nat)),
    {
        proof {
            use_type_invariant(&self);
        }
        Self { value: self.value.set("flags", flags.to_json()) }
    }

    /// The activity with its state set.
    pub fn set_state(self, state: String) -> (r: Self)
        ensures
            r@ == self@.set("state"@, JsonValue::Text(state@)),
    {
        proof {
            use_type_invariant(&self);
        }
        Self { value: self.value.set("state", Json::Text(state)) }
    }

    /// The activity with one more button. A label may take 32 bytes and an
    /// address 512, and an activity that has two buttons takes no third.
    pub fn add_button(self, label: String, url: String) -> (r: Self)
        requires
            byte_len(label@) <= 32,
            byte_len(url@) <= 512,
            self@.items_at("buttons"@).len() != 2,
        ensures
            r@ == self@.set(
                "buttons"@,
                JsonValue::Array(self@.items_at("buttons"@).push(Self::button(label@, url@))),
            ),
    {
        proof {
            use_type_invariant(&self);
        }
        let mut buttons = self.value.items_at("buttons");
        let ghost before = crate::json::items_view(buttons@);
        let button = Json::object().with("label", Json::Text(label)).with("url", Json::Text(url));
        buttons.push(button);
        assert(crate::json::items_view(buttons@) =~= before.push(Self::button(label@, url@)));
        Self { value: self.value.set("buttons", Json::array_of(buttons)) }
    }

    /// The document of the activity.
    pub fn build(self) -> (r: Json)
        ensures
            r@ == self@,
    {
        self.value
    }
}

} // verus!
