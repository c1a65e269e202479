use hubbub::context::{Cache, Context, Method, Request};
use hubbub::error::Error;
use hubbub::json::{Json, ToJson};
use hubbub::types::activity::{ActivityBuilder, ActivityFlag, ActivityType, Asset};
use hubbub::types::channel::stage_instance::PrivacyLevel;
use hubbub::types::channel::{default_spam_value, Channel, ChannelBuilder, ChannelFlag, ChannelType};
use hubbub::types::common::Emoji;
use hubbub::types::gateway::Ready;
use hubbub::types::guild::{
    CachedGuild, ExplicitContentFilterLevel, Guild, GuildMemberEditBuilder, MFALevel,
    MessageNotificationLevel, NSFWLevel, VerificationLevel,
};
use hubbub::types::message::component::{
    ActionRow, Button, ButtonStyle, Component, ComponentType, DefaultValue, DefaultValueType,
    SelectMenu, SelectOption, TextInput, TextInputStyle,
};
use hubbub::types::message::embed::{Author, Embed, Field, Footer, Image, Provider};
use hubbub::types::message::{EmbedBuilder, MessageBuilder, MessageType, Reference};
use hubbub::types::presence::StatusType;
use hubbub::types::role::RoleBuilder;
use hubbub::types::timestamp::Timestamp;
use hubbub::types::user::{default_bot_value, BotUser, PremiumType, User, UserFlags};
use hubbub::types::{Snowflake, DISCORD_EPOCH};
use hubbub::websocket::DiscordMessage;

fn print(json: &Json) -> String {
    json.to_text().expect("printable")
}

#[test]
fn snowflake_parts() {
    let id = Snowflake::new(175928847299117063);
    assert_eq!(id.id(), 175928847299117063);
    assert_eq!(id.timestamp(), 1462015105796);
    assert_eq!(id.worker_id(), 1);
    assert_eq!(id.process_id(), 0);
    assert_eq!(id.increment(), 7);
    assert_eq!(DISCORD_EPOCH, 1420070400000);
    let zero = Snowflake::new(0);
    assert_eq!(zero.timestamp(), DISCORD_EPOCH);
    assert_eq!((zero.worker_id(), zero.process_id(), zero.increment()), (0, 0, 0));
    let all = Snowflake::new(u64::MAX);
    assert_eq!(all.timestamp(), (u64::MAX >> 22) as u128 + DISCORD_EPOCH);
    assert_eq!((all.worker_id(), all.process_id(), all.increment()), (31, 31, 4095));
}

#[test]
fn snowflake_text() {
    assert_eq!(Snowflake::new(175928847299117063).to_string(), "175928847299117063");
    assert_eq!(Snowflake::new(0).to_string(), "0");
    assert_eq!(Snowflake::parse("175928847299117063"), Some(Snowflake::new(175928847299117063)));
    assert_eq!(Snowflake::parse("18446744073709551615"), Some(Snowflake::new(u64::MAX)));
    assert_eq!(Snowflake::parse("18446744073709551616"), None);
    assert_eq!(Snowflake::parse(""), None);
    assert_eq!(Snowflake::parse("12a"), None);
    assert_eq!(Snowflake::parse("-1"), None);
    assert_eq!(print(&Snowflake::new(42).to_json()), "\"42\"");
}

#[test]
fn timestamp_of_a_snowflake() {
    let at = Timestamp::from_snowflake(Snowflake::new(175928847299117063));
    assert_eq!((at.secs, at.nanos, at.offset), (1462015105, 796_000_000, 0));
    assert_eq!(at.to_string().unwrap(), "2016-04-30T11:18:25.796+00:00");
    let at = Timestamp::from_snowflake(Snowflake::new(0));
    assert_eq!((at.secs, at.nanos, at.offset), (1420070400, 0, 0));
    assert_eq!(at.to_string().unwrap(), "2015-01-01T00:00:00+00:00");
}

#[test]
fn timestamp_text() {
    let at = Timestamp::parse("2016-04-30T13:18:25.796+02:00").unwrap();
    assert_eq!((at.secs, at.nanos, at.offset), (1462015105, 796_000_000, 7200));
    assert_eq!(at.to_string().unwrap(), "2016-04-30T13:18:25.796+02:00");
    assert_eq!(print(&at.to_json()), "\"2016-04-30T13:18:25.796+02:00\"");
    assert!(Timestamp::parse("yesterday").is_none());
    let odd = Timestamp { secs: 0, nanos: 0, offset: 86_400 };
    assert!(odd.to_string().is_none());
    assert_eq!(print(&odd.to_json()), "null");
    let odd = Timestamp { secs: i64::MAX, nanos: 0, offset: 0 };
    assert!(odd.to_string().is_none());
}

#[test]
fn codes_of_the_wire() {
    assert_eq!(ChannelType::Text.code(), 0);
    assert_eq!(ChannelType::Media.code(), 16);
    assert_eq!(ChannelType::from_code(10), Some(ChannelType::ThreadAnnouncement));
    assert_eq!(ChannelType::from_code(6), None);
    assert_eq!(ActivityType::Competing.code(), 5);
    assert_eq!(ActivityType::from_code(1), Some(ActivityType::Steaming));
    assert_eq!(ActivityFlag::Embedded.code(), 256);
    assert!(matches!(ActivityFlag::from_code(64), Some(ActivityFlag::PrivacyFriends)));
    assert!(ActivityFlag::from_code(3).is_none());
    assert_eq!(ChannelFlag::HideDownloadOptions.code(), 32768);
    assert_eq!(MessageType::PurchaseNotification.code(), 44);
    assert_eq!(MessageType::from_code(19), Some(MessageType::Reply));
    assert_eq!(MessageType::from_code(13), None);
    assert_eq!(MFALevel::NotRequired.code(), 0);
    assert_eq!(MFALevel::from_code(1), Some(MFALevel::Elevated));
    assert_eq!(VerificationLevel::Unrestricted.code(), 0);
    assert_eq!(VerificationLevel::VeryHigh.code(), 4);
    assert_eq!(NSFWLevel::from_code(3), Some(NSFWLevel::AgeRestricted));
    assert_eq!(MessageNotificationLevel::OnlyMentions.code(), 1);
    assert_eq!(ExplicitContentFilterLevel::AllMembers.code(), 2);
    assert_eq!(PremiumType::Free.code(), 0);
    assert_eq!(PremiumType::NitroBasic.code(), 3);
    assert_eq!(UserFlags::ActiveDev.code(), 1 << 22);
    assert_eq!(PrivacyLevel::from_code(2), Some(PrivacyLevel::GuildOnly));
    assert_eq!(ComponentType::ChannelSelect.code(), 8);
    assert_eq!(ButtonStyle::Link.code(), 5);
    assert_eq!(TextInputStyle::Paragraph.code(), 2);
    assert_eq!(print(&ChannelType::Voice.to_json()), "2");
}

#[test]
fn status_names() {
    assert_eq!(StatusType::Online.name(), "online");
    assert_eq!(StatusType::Dnd.name(), "dnd");
    assert_eq!(StatusType::Idle.to_string(), "idle");
    assert_eq!(StatusType::Invisible.to_string(), "invisible");
    assert_eq!(StatusType::Offline.to_string(), "offline");
    assert_eq!(DefaultValueType::User.name(), "user");
    assert_eq!(DefaultValueType::Role.name(), "role");
    assert_eq!(print(&DefaultValueType::Channel.to_json()), "\"channel\"");
}

#[test]
fn defaults_of_missing_members() {
    assert!(!default_spam_value());
    assert!(!default_bot_value());
}

#[test]
fn error_messages() {
    assert_eq!(Error::NotLoggedIn.message(), "Not logged in");
    assert_eq!(Error::NoTokenGiven.message(), "No token given");
    assert_eq!(Error::InvalidApiRequest("x".to_string()).message(), "Invalid API request: x");
    assert_eq!(Error::InvalidToken("401".to_string()).message(), "Token is invalid: 401");
    assert!(Error::Ratelimit(std::time::Instant::now()).message().starts_with("Ratelimited until "));
    assert_eq!(Error::MalformedFrame.message(), "Malformed frame");
    assert_eq!(Error::MissingHeartbeatInterval.message(), "Invalid heartbeat interval");
    assert_eq!(Error::Unserializable.message(), "Message cannot be serialized");
}

fn channel(kind: ChannelType) -> Channel {
    Channel {
        id: Snowflake::new(5),
        name: None,
        topic: None,
        nsfw: None,
        position: None,
        bitrate: None,
        user_limit: None,
        rate_limit_per_user: None,
        rtc_region: None,
        video_quality_mode: None,
        users_ids: None,
        users: None,
        icon: None,
        application_id: None,
        managed: None,
        owner_id: None,
        message_count: None,
        member_count: None,
        thread_metadata: None,
        member: None,
        guild_id: None,
        parent_id: None,
        last_message_id: None,
        last_pin_timestamp: None,
        warnings: None,
        is_spam: false,
        permission_overwrites: None,
        channel_type: kind,
        flags: 0,
    }
}

#[test]
fn channel_kinds() {
    let kinds = [
        ChannelType::Text,
        ChannelType::DM,
        ChannelType::Voice,
        ChannelType::Group,
        ChannelType::Category,
        ChannelType::Announcement,
        ChannelType::ThreadAnnouncement,
        ChannelType::ThreadPublic,
        ChannelType::ThreadPrivate,
        ChannelType::VoiceStage,
        ChannelType::Directory,
        ChannelType::Forum,
        ChannelType::Media,
    ];
    let expected = [
        // dm, thread, forum, voice, text, category
        (false, false, false, false, true, false),
        (true, false, false, false, true, false),
        (false, false, false, true, false, false),
        (true, false, false, false, true, false),
        (false, false, false, false, false, true),
        (false, false, false, false, false, false),
        (false, true, false, false, false, false),
        (false, true, false, false, false, false),
        (false, true, false, false, false, false),
        (false, false, false, true, false, false),
        (false, false, false, false, false, false),
        (false, false, true, false, false, false),
        (false, false, true, false, false, false),
    ];
    for (kind, want) in kinds.iter().zip(expected.iter()) {
        let c = channel(kind.clone());
        assert_eq!(
            (c.is_dm(), c.is_thread(), c.is_forum(), c.is_voice(), c.is_text(), c.is_category()),
            *want,
            "{:?}",
            kind
        );
    }
}

fn guild() -> Guild {
    Guild {
        id: Snowflake::new(41771983423143937),
        name: "g".to_string(),
        owner_id: Snowflake::new(1),
        icon: Some("unused".to_string()),
        icon_hash: Some("abc".to_string()),
        vanity_invite: None,
        description: None,
        banner: Some("ban".to_string()),
        splash_discovery: Some("disc".to_string()),
        splash: None,
        locale: "en-US".to_string(),
        mfa_level: MFALevel::NotRequired,
        nsfw_level: NSFWLevel::Default,
        verification_level: VerificationLevel::Unrestricted,
        default_notification_level: MessageNotificationLevel::AllMessages,
        explicit_content_filter_level: ExplicitContentFilterLevel::Disabled,
        roles: None,
        emojis: None,
        stickers: None,
        features: Vec::new(),
        application_id: None,
        welcome_screen: None,
        public_updates_channel_id: None,
        safety_alerts_channel_id: None,
        system_channel_id: None,
        rules_channel_id: None,
        system_channel_flags: 0,
        afk_channel_id: None,
        afk_timeout: 0,
        widget_channel_id: None,
        widget_enabled: None,
        max_presences: None,
        max_members: None,
        boost_tier: 0,
        boosts: None,
        boost_bar_enabled: false,
        max_video_channel_users: 0,
        max_stage_video_channel_users: 0,
        owner: None,
        permissions: None,
        member_count: None,
        presence_count: None,
    }
}

#[test]
fn guild_picture_addresses() {
    let g = guild();
    assert_eq!(
        g.icon_url().as_deref(),
        Some("https://cdn.discordapp.com/icons/41771983423143937/abc.png")
    );
    assert_eq!(
        g.banner_url().as_deref(),
        Some("https://cdn.discordapp.com/banners/41771983423143937/ban.png")
    );
    assert_eq!(g.splash_url(), None);
    assert_eq!(
        g.discovery_splash_url().as_deref(),
        Some("https://cdn.discordapp.com/splashes/41771983423143937/disc.png")
    );
    let mut g = guild();
    g.icon_hash = None;
    g.splash = Some("s".to_string());
    assert_eq!(g.icon_url(), None);
    assert_eq!(
        g.splash_url().as_deref(),
        Some("https://cdn.discordapp.com/splashes/41771983423143937/s.png")
    );
}

fn call(r: Result<Request, Error>) -> (Method, String, Option<String>) {
    let r = r.expect("a call");
    (r.method, r.url, r.body)
}

#[test]
fn guild_calls() {
    let ctx = Context::default();
    let id = Snowflake::new(7);
    let user = Snowflake::new(9);
    let base = "https://discord.com/api//v9/guilds/7";
    assert_eq!(call(Guild::fetch_guild(&ctx, id)), (Method::Get, base.to_string(), None));
    assert_eq!(call(guild_with(7).delete_guild(&ctx)), (Method::Delete, base.to_string(), None));
    assert_eq!(call(Guild::fetch_channels_static(&ctx, id)), (Method::Get, format!("{}/channels", base), None));
    assert_eq!(call(guild_with(7).fetch_channels(&ctx)), (Method::Get, format!("{}/channels", base), None));
    assert_eq!(
        call(Guild::create_channel_static(&ctx, id, Json::object().with("name", Json::text("c")))),
        (Method::Post, format!("{}/channels", base), Some("{\"name\":\"c\"}".to_string()))
    );
    assert_eq!(call(Guild::fetch_members_static(&ctx, id, 1000)), (Method::Get, format!("{}/members?limit=1000", base), None));
    assert_eq!(call(guild_with(7).fetch_members(&ctx, 1)), (Method::Get, format!("{}/members?limit=1", base), None));
    assert_eq!(call(Guild::fetch_member_static(&ctx, id, user)), (Method::Get, format!("{}/members/9", base), None));
    assert_eq!(
        call(Guild::search_members_static(&ctx, id, "bob".to_string(), 5)),
        (Method::Get, format!("{}/members/search?query=bob&limit=5", base), None)
    );
    assert_eq!(
        call(Guild::edit_member_static(&ctx, id, user, Json::object())),
        (Method::Patch, format!("{}/members/9", base), Some("{}".to_string()))
    );
    assert_eq!(call(Guild::kick_member_static(&ctx, id, user)), (Method::Delete, format!("{}/members/9", base), None));
    assert_eq!(call(Guild::ban_member_static(&ctx, id, user)), (Method::Put, format!("{}/bans/9", base), None));
    assert_eq!(call(Guild::unban_member_static(&ctx, id, user)), (Method::Delete, format!("{}/bans/9", base), None));
    assert_eq!(call(Guild::get_bans_static(&ctx, id)), (Method::Get, format!("{}/bans", base), None));
    assert_eq!(call(Guild::get_ban_static(&ctx, id, user)), (Method::Get, format!("{}/bans/9", base), None));
    assert_eq!(call(Guild::fetch_roles_static(&ctx, id)), (Method::Get, format!("{}/roles", base), None));
    assert_eq!(
        call(Guild::create_role_static(&ctx, id, Json::object())),
        (Method::Post, format!("{}/roles", base), Some("{}".to_string()))
    );
    assert_eq!(
        call(Guild::edit_role_static(&ctx, id, user, Json::object())),
        (Method::Patch, format!("{}/roles/9", base), Some("{}".to_string()))
    );
    assert_eq!(call(Guild::delete_role_static(&ctx, id, user)), (Method::Delete, format!("{}/roles/9", base), None));
    assert_eq!(
        call(Guild::edit_role_positions_static(&ctx, id, Json::array())),
        (Method::Patch, format!("{}/roles", base), Some("[]".to_string()))
    );
    assert_eq!(call(Guild::fetch_invites_static(&ctx, id)), (Method::Get, format!("{}/invites", base), None));
    assert_eq!(call(Guild::fetch_welcome_screen_static(&ctx, id)), (Method::Get, format!("{}/welcome-screen", base), None));
    assert_eq!(call(Guild::fetch_onboarding_static(&ctx, id)), (Method::Get, format!("{}/onboarding", base), None));
    assert_eq!(call(Guild::fetch_vanity_url_static(&ctx, id)), (Method::Get, format!("{}/vanity-url", base), None));
}

fn guild_with(id: u64) -> Guild {
    let mut g = guild();
    g.id = Snowflake::new(id);
    g
}

#[test]
fn member_limits_are_checked() {
    let ctx = Context::default();
    let id = Snowflake::new(7);
    for limit in [0u64, 1001, u64::MAX] {
        match Guild::fetch_members_static(&ctx, id, limit) {
            Err(Error::InvalidApiRequest(m)) => assert_eq!(m, "limit must be between 1 and 1000"),
            other => panic!("{:?}", other),
        }
        match guild_with(7).search_members(&ctx, "q".to_string(), limit) {
            Err(Error::InvalidApiRequest(m)) => assert_eq!(m, "limit must be between 1 and 1000"),
            other => panic!("{:?}", other),
        }
    }
}

#[test]
fn channel_calls() {
    let mut ctx = Context::default();
    ctx.set_auth("tok".to_string());
    let id = Snowflake::new(5);
    let msg = Snowflake::new(6);
    let base = "https://discord.com/api//v9/channels/5";
    let r = Channel::fetch_channel(&ctx, id).unwrap();
    assert_eq!(r.headers, vec![("Authorization".to_string(), "tok".to_string())]);
    assert_eq!((r.method, r.url), (Method::Get, base.to_string()));
    assert_eq!(call(Channel::delete_channel_static(&ctx, id)), (Method::Delete, base.to_string(), None));
    assert_eq!(call(channel(ChannelType::Text).delete_channel(&ctx)), (Method::Delete, base.to_string(), None));
    let r = channel(ChannelType::Text).send_message(&ctx, MessageBuilder::new("hi".to_string()).build()).unwrap();
    assert_eq!(r.method, Method::Post);
    assert_eq!(r.url, format!("{}/messages", base));
    assert_eq!(r.body.as_deref(), Some("{\"content\":\"hi\"}"));
    assert_eq!(
        r.headers,
        vec![
            ("Authorization".to_string(), "tok".to_string()),
            ("Content-Type".to_string(), "application/json".to_string()),
        ]
    );
    assert_eq!(
        call(Channel::fetch_messages_static(&ctx, id, 100, None)),
        (Method::Get, format!("{}/messages?limit=100", base), None)
    );
    assert_eq!(
        call(Channel::fetch_messages_static(&ctx, id, 0, Some(msg))),
        (Method::Get, format!("{}/messages?limit=0&before=6", base), None)
    );
    match Channel::fetch_messages_static(&ctx, id, 101, None) {
        Err(Error::InvalidApiRequest(m)) => assert_eq!(m, "limit must be less than 100"),
        other => panic!("{:?}", other),
    }
    assert_eq!(call(Channel::fetch_message_static(&ctx, id, msg)), (Method::Get, format!("{}/messages/6", base), None));
    assert_eq!(call(Channel::delete_message_static(&ctx, id, msg)), (Method::Delete, format!("{}/messages/6", base), None));
    assert_eq!(
        call(Channel::edit_message_static(&ctx, id, msg, Json::object())),
        (Method::Patch, format!("{}/messages/6", base), Some("{}".to_string()))
    );
    assert_eq!(
        call(Channel::add_reaction_static(&ctx, id, msg, "ok")),
        (Method::Put, format!("{}/messages/6/reactions/ok/@me", base), None)
    );
}

#[test]
fn default_headers_of_every_call() {
    let headers = Context::default_headers();
    assert_eq!(headers.len(), 4);
    assert_eq!(headers[0], ("Referrer".to_string(), "https://discord.com".to_string()));
    assert_eq!(headers[1].0, "Sec-Ch-Ua");
    assert_eq!(headers[1].1, "\"Not(A:Brand\";v=\"24\", \"Chromium\";v=\"122\"");
    assert_eq!(headers[2], ("Sec-Ch-Ua-Mobile".to_string(), "?0".to_string()));
    assert_eq!(headers[3], ("Sec-Ch-Ua-Platform".to_string(), "\"Linux\"".to_string()));
}

#[test]
fn embed_parts() {
    let f = Footer::new("t").icon("i".to_string()).icon_proxy("p".to_string());
    assert_eq!((f.text.as_str(), f.icon_url.as_deref(), f.icon_proxy_url.as_deref()), ("t", Some("i"), Some("p")));
    assert_eq!(print(&f.to_json()), "{\"text\":\"t\",\"proxy_icon_url\":\"p\",\"icon_url\":\"i\"}");
    let f = Footer::new("t");
    assert!(f.icon_url.is_none() && f.icon_proxy_url.is_none());
    let p = Provider::new("n", "u".to_string()).url("v".to_string());
    assert_eq!((p.name.as_deref(), p.url.as_deref()), (Some("n"), Some("v")));
    let a = Author::new("n");
    assert!(a.url.is_none() && a.icon_url.is_none() && a.icon_proxy_url.is_none());
    let a = a.url("u".to_string()).icon_proxy_url("p".to_string()).icon_url("i".to_string());
    assert_eq!(
        print(&a.to_json()),
        "{\"name\":\"n\",\"url\":\"u\",\"proxy_icon_url\":\"p\",\"icon_url\":\"i\"}"
    );
    let f = Field::new("n", "v");
    assert!(f.inline.is_none());
    let f = f.inline(true);
    assert_eq!(print(&f.to_json()), "{\"name\":\"n\",\"value\":\"v\",\"inline\":true}");
}

#[test]
fn components() {
    let b = Button::new("id", ButtonStyle::Danger);
    assert_eq!(b._type, ComponentType::Button);
    assert_eq!(b.custom_id.as_deref(), Some("id"));
    assert!(b.label.is_none() && b.emoji.is_none() && b.url.is_none() && b.disabled.is_none());
    let b = b.label("l".to_string()).url("u".to_string()).disabled(true);
    assert_eq!(
        print(&b.to_json()),
        "{\"type\":2,\"style\":4,\"label\":\"l\",\"emoji\":null,\"custom_id\":\"id\",\"url\":\"u\",\"disabled\":true}"
    );
    let m = SelectMenu::text("id", Vec::new());
    assert_eq!(m._type, ComponentType::StringSelect);
    assert!(m.is_string_select() && !m.is_channel_select());
    let m = m.placeholder("pick").limits(1, 3).disabled(false).default_values(vec![DefaultValue {
        id: Snowflake::new(1),
        value_type: DefaultValueType::Role,
    }]);
    assert_eq!(m.placeholder.as_deref(), Some("pick"));
    assert_eq!((m.min_values, m.max_values, m.disabled), (Some(1), Some(3), Some(false)));
    assert_eq!(SelectMenu::user("i", Vec::new())._type, ComponentType::UserSelect);
    assert_eq!(SelectMenu::role("i", Vec::new())._type, ComponentType::RoleSelect);
    assert_eq!(SelectMenu::mentionable("i", Vec::new())._type, ComponentType::MentionableSelect);
    let c = SelectMenu::channel("i", vec![SelectOption {
        label: "l".to_string(),
        value: "v".to_string(),
        description: None,
        emoji: None,
        default: None,
    }]);
    assert_eq!(c._type, ComponentType::ChannelSelect);
    assert!(c.is_channel_select());
    let c = c.channel_types(vec![ChannelType::Text, ChannelType::Forum]);
    assert_eq!(
        print(&c.to_json()),
        "{\"type\":8,\"custom_id\":\"i\",\"options\":[{\"label\":\"l\",\"value\":\"v\",\"description\":null,\"emoji\":null,\"default\":null}],\"channel_types\":[0,15],\"placeholder\":null,\"default_values\":null,\"min_values\":null,\"max_values\":null,\"disabled\":null}"
    );
    let t = TextInput::new("id", "label");
    assert_eq!(t.style, TextInputStyle::Short);
    assert!(t.value.is_none() && t.placeholder.is_none() && t.required.is_none());
    let t = t.style(TextInputStyle::Paragraph).placeholder("p").value("v").limits(1, 4000).required(true);
    assert_eq!(
        print(&Component::TextInput(t).build()),
        "{\"type\":4,\"custom_id\":\"id\",\"style\":2,\"label\":\"label\",\"value\":\"v\",\"placeholder\":\"p\",\"min_length\":1,\"max_length\":4000,\"required\":true}"
    );
    let row = ActionRow::new();
    assert!(row.components.is_none());
    let row = row
        .add_component(Component::Button(Box::new(Button::new("a", ButtonStyle::Primary))))
        .add_component(Component::Button(Box::new(Button::new("b", ButtonStyle::Link))));
    assert_eq!(row.components.as_ref().map(|c| c.len()), Some(2));
    assert_eq!(
        print(&Component::ActionRow(row).build()),
        "{\"type\":1,\"components\":[{\"type\":2,\"style\":1,\"label\":null,\"emoji\":null,\"custom_id\":\"a\",\"url\":null,\"disabled\":null},{\"type\":2,\"style\":5,\"label\":null,\"emoji\":null,\"custom_id\":\"b\",\"url\":null,\"disabled\":null}]}"
    );
}

#[test]
fn activity_builder() {
    let a = ActivityBuilder::new("game".to_string(), ActivityType::Playing);
    assert_eq!(print(&a.clone().build()), "{\"name\":\"game\",\"type\":0}");
    let a = a
        .set_url("u".to_string())
        .set_timestamps(1, 2)
        .set_application_id(3)
        .set_flags(4)
        .set_state("s".to_string())
        .set_asset(Asset { large_image: Some("l".to_string()), large_text: None, small_image: None, small_text: None })
        .add_button("b1".to_string(), "u1".to_string())
        .add_button("b2".to_string(), "u2".to_string())
        .set_url("again".to_string());
    assert_eq!(
        print(&a.build()),
        "{\"name\":\"game\",\"type\":0,\"url\":\"again\",\"timestamps\":{\"start\":1,\"end\":2},\"application_id\":3,\"flags\":4,\"state\":\"s\",\"assets\":{\"large_image\":\"l\",\"large_text\":null,\"small_image\":null,\"small_text\":null},\"buttons\":[{\"label\":\"b1\",\"url\":\"u1\"},{\"label\":\"b2\",\"url\":\"u2\"}]}"
    );
    let e = Emoji {
        id: Some(Snowflake::new(1)),
        name: Some("e".to_string()),
        roles: None,
        creator: None,
        require_colons: None,
        managed: None,
        animated: Some(true),
        available: None,
    };
    assert_eq!(
        print(&ActivityBuilder::new("g".to_string(), ActivityType::Custom).set_emoji(e).build()),
        "{\"name\":\"g\",\"type\":4,\"emoji\":{\"id\":\"1\",\"name\":\"e\",\"roles\":null,\"user\":null,\"require_colons\":null,\"managed\":null,\"animated\":true,\"available\":null}}"
    );
}

#[test]
fn channel_builder() {
    let mut c = ChannelBuilder::new("general".to_string(), ChannelType::Voice);
    c.set_topic("t".to_string());
    c.set_nsfw(true);
    c.set_position(1);
    c.set_bitrate(64000);
    c.set_user_limit(5);
    c.set_rate_limit_per_user(2);
    c.add_permission_overwrite(Json::object().with("id", Json::text("1")));
    c.add_permission_overwrite(Json::object().with("id", Json::text("2")));
    c.set_parent_category(Snowflake::new(9));
    c.set_rtc_region("eu".to_string());
    c.set_topic("t2".to_string());
    assert_eq!(
        print(&c.clone().build()),
        "{\"name\":\"general\",\"type\":2,\"topic\":\"t2\",\"nsfw\":true,\"position\":1,\"bitrate\":64000,\"user_limit\":5,\"rate_limit_per_user\":2,\"permission_overwrites\":[{\"id\":\"1\"},{\"id\":\"2\"}],\"parent_id\":\"9\",\"rtc_region\":\"eu\"}"
    );
}

#[test]
fn member_edit_and_role_builders() {
    let mut m = GuildMemberEditBuilder::new();
    assert_eq!(print(&GuildMemberEditBuilder::new().build()), "{}");
    m.set_nick("n".to_string());
    m.set_roles(vec![Snowflake::new(1), Snowflake::new(2)]);
    m.set_deaf(true);
    m.set_mute(false);
    m.set_voice_channel(Snowflake::new(3));
    m.set_timeout(None);
    assert_eq!(
        print(&m.build()),
        "{\"nick\":\"n\",\"roles\":[\"1\",\"2\"],\"deaf\":true,\"mute\":false,\"channel_id\":\"3\",\"communication_disabled_until\":null}"
    );
    let mut m = GuildMemberEditBuilder::new();
    m.set_timeout(Some("2030-01-01T00:00:00Z".to_string()));
    assert_eq!(print(&m.build()), "{\"communication_disabled_until\":\"2030-01-01T00:00:00Z\"}");
    let mut r = RoleBuilder::new("r".to_string(), "8".to_string());
    r.set_color(255);
    r.set_hoist(true);
    r.set_icon("data".to_string());
    r.set_emoji("e".to_string());
    r.set_mentionable(false);
    assert_eq!(
        print(&r.build()),
        "{\"name\":\"r\",\"permissions\":\"8\",\"color\":255,\"hoist\":true,\"icon\":\"data\",\"unicode_emoji\":\"e\",\"mentionable\":false}"
    );
}

#[test]
fn embed_and_message_builders() {
    let e = EmbedBuilder::new()
        .author(Author::new("a"))
        .title("t")
        .description("d")
        .url("u".to_string())
        .color(16711680)
        .timestamp(Timestamp { secs: 0, nanos: 0, offset: 0 })
        .footer(Footer::new("f"))
        .image(Image { url: "i".to_string(), proxy_url: None, width: Some(1), height: None })
        .provider(Provider::new("p", "pu".to_string()))
        .add_field(Field::new("n1", "v1"))
        .add_field(Field::new("n2", "v2").inline(false));
    let text = print(&e.build());
    assert_eq!(
        text,
        "{\"author\":{\"name\":\"a\",\"url\":null,\"proxy_icon_url\":null,\"icon_url\":null},\"title\":\"t\",\"description\":\"d\",\"url\":\"u\",\"color\":16711680,\"timestamp\":\"1970-01-01T00:00:00+00:00\",\"footer\":{\"text\":\"f\",\"proxy_icon_url\":null,\"icon_url\":null},\"image\":{\"url\":\"i\",\"proxy_url\":null,\"width\":1,\"height\":null},\"provider\":{\"name\":\"p\",\"url\":\"pu\"},\"fields\":[{\"name\":\"n1\",\"value\":\"v1\",\"inline\":null},{\"name\":\"n2\",\"value\":\"v2\",\"inline\":false}]}"
    );
    let m = MessageBuilder::new("hello".to_string())
        .add_embed_from(EmbedBuilder::new().title("one"))
        .add_embed(Embed {
            title: Some("two".to_string()),
            description: None,
            url: None,
            timestamp: None,
            color: None,
            footer: None,
            image: None,
            thumbnail: None,
            video: None,
            provider: None,
            author: None,
            fields: None,
        })
        .add_component(Component::Button(Box::new(Button::new("b", ButtonStyle::Success))))
        .reference(Reference {
            message_id: Some(Snowflake::new(1)),
            channel_id: None,
            guild_id: None,
            fail_if_not_exists: Some(true),
        });
    assert_eq!(
        print(&m.build()),
        "{\"content\":\"hello\",\"embeds\":[{\"title\":\"one\"},{\"title\":\"two\",\"description\":null,\"url\":null,\"timestamp\":null,\"color\":null,\"footer\":null,\"image\":null,\"thumbnail\":null,\"video\":null,\"provider\":null,\"author\":null,\"fields\":null}],\"components\":[{\"type\":2,\"style\":3,\"label\":null,\"emoji\":null,\"custom_id\":\"b\",\"url\":null,\"disabled\":null}],\"message_reference\":{\"message_id\":\"1\",\"channel_id\":null,\"guild_id\":null,\"fail_if_not_exists\":true}}"
    );
}

fn bot_user() -> BotUser {
    BotUser {
        id: "1".to_string(),
        username: "me".to_string(),
        global_name: None,
        pronouns: String::new(),
        bio: String::new(),
        avatar: None,
        avatar_decoration_data: None,
        banner: None,
        banner_color: String::new(),
        accent_color: 0,
        clan: None,
        on_desktop: true,
        on_mobile: false,
        is_verified: true,
        has_premium: false,
        email: None,
        phone: None,
        mfa_enabled: false,
        nsfw_allowed: false,
        premium_type: 0,
        purchased_flags: 0,
        public_flags: 0,
        flags: 0,
    }
}

fn user(id: u64) -> User {
    User {
        id: Snowflake::new(id),
        username: format!("u{}", id),
        global_name: None,
        avatar: None,
        avatar_decoration_data: None,
        banner: None,
        accent_color: None,
        locale: None,
        is_bot: false,
        is_system: false,
        is_verified: None,
        email: None,
        mfa_enabled: None,
        public_flags: None,
        premium_type: None,
    }
}

fn cached_guild(id: u64) -> CachedGuild {
    CachedGuild {
        id: Snowflake::new(id),
        joined_at: Timestamp { secs: 0, nanos: 0, offset: 0 },
        properties: guild_with(id),
        large: false,
        lazy: false,
        member_count: 1,
        boosts: 0,
        activity_instances: None,
        application_command_counts: None,
        stage_instances: Vec::new(),
        channels: Vec::new(),
        threads: Vec::new(),
        stickers: Vec::new(),
        emojis: Vec::new(),
        roles: Vec::new(),
        data_mode: "full".to_string(),
        guild_scheduled_events: Vec::new(),
        version: 1,
    }
}

fn ready(session: &str, users: Vec<User>, guilds: Vec<CachedGuild>) -> Ready {
    Ready {
        private_channels: Vec::new(),
        friends: Vec::new(),
        resume_gateway_url: "wss://resume.example".to_string(),
        session_id: session.to_string(),
        session_type: "normal".to_string(),
        user: bot_user(),
        cached_users: users,
        cached_guilds: guilds,
    }
}

#[test]
fn ready_populates_the_context_and_appends_to_the_cache() {
    let mut ctx = Context::default();
    assert!(ctx.user.is_none() && ctx.resume_info.is_none() && ctx.auth.is_none());
    assert!(ctx.cache.users.is_empty() && ctx.cache.guilds.is_empty());
    assert!(Cache::default().users.is_empty());
    ctx.set_auth("tok".to_string());
    ctx.ready(ready("s1", vec![user(1), user(2)], vec![cached_guild(10)]));
    assert_eq!(ctx.user.as_ref().unwrap().username, "me");
    assert_eq!(ctx.resume_info.as_ref().unwrap().url, "wss://resume.example");
    assert_eq!(ctx.resume_info.as_ref().unwrap().id, "s1");
    assert_eq!(ctx.cache.users.len(), 2);
    assert_eq!(ctx.cache.guilds.len(), 1);
    assert_eq!(ctx.auth.as_deref(), Some("tok"));
    ctx.ready(ready("s2", vec![user(2), user(3)], vec![cached_guild(10), cached_guild(11)]));
    assert_eq!(ctx.resume_info.as_ref().unwrap().id, "s2");
    let ids: Vec<u64> = ctx.cache.users.iter().map(|u| u.id.id()).collect();
    assert_eq!(ids, vec![1, 2, 2, 3]);
    let ids: Vec<u64> = ctx.cache.guilds.iter().map(|g| g.id.id()).collect();
    assert_eq!(ids, vec![10, 10, 11]);
    assert_eq!(
        call(cached_guild(12).into_guild(&ctx)),
        (Method::Get, "https://discord.com/api//v9/guilds/12".to_string(), None)
    );
}

#[test]
fn only_the_ready_dispatch_changes_the_context() {
    let named = |name: &str| DiscordMessage {
        op: 0,
        data: Json::object(),
        seq: Some(1),
        event: Some(name.to_string()),
    };
    let mut ctx = Context::default();
    ctx.on_dispatch(&named("MESSAGE_CREATE"), Some(ready("s0", vec![user(1)], Vec::new())));
    assert!(ctx.user.is_none() && ctx.resume_info.is_none() && ctx.cache.users.is_empty());
    ctx.on_dispatch(&named("READY"), None);
    assert!(ctx.user.is_none() && ctx.resume_info.is_none() && ctx.cache.users.is_empty());
    ctx.on_dispatch(&DiscordMessage::new_heartbeat(None), Some(ready("s0", Vec::new(), Vec::new())));
    assert!(ctx.user.is_none());
    ctx.on_dispatch(&named("READY"), Some(ready("s1", vec![user(1)], vec![cached_guild(5)])));
    assert_eq!(ctx.user.as_ref().unwrap().id, "1");
    assert_eq!(ctx.resume_info.as_ref().unwrap().id, "s1");
    assert_eq!((ctx.cache.users.len(), ctx.cache.guilds.len()), (1, 1));
    ctx.on_dispatch(&named("RESUMED"), Some(ready("s2", vec![user(2)], Vec::new())));
    assert_eq!(ctx.resume_info.as_ref().unwrap().id, "s1");
    assert_eq!(ctx.cache.users.len(), 1);
}
