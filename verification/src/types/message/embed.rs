//! Embeds: the rich content of a message.

use crate::json::{Json, JsonValue, ToJson};
use crate::types::timestamp::Timestamp;
use vstd::prelude::*;
use vstd::string::StringExecFns;

verus! {

/// The footer of an embed: a text of up to 2048 bytes and an icon.
#[derive(Debug, Clone)]
pub struct Footer {
    pub text: String,
    pub icon_proxy_url: Option<String>,
    pub icon_url: Option<String>,
}

impl ToJson for Footer {
    open spec fn json_of(&self) -> JsonValue {
        JsonValue::Object(Seq::empty())
            .with("text"@, self.text.json_of())
            .with("proxy_icon_url"@, self.icon_proxy_url.json_of())
            .with("icon_url"@, self.icon_url.json_of())
    }

    fn to_json(&self) -> (r: Json) {
        Json::object()
            .with("text", self.text.to_json())
            .with("proxy_icon_url", self.icon_proxy_url.to_json())
            .with("icon_url", self.icon_url.to_json())
    }
}

/// The image of an embed.
#[derive(Debug, Clone)]
pub struct Image {
    pub url: String,
    pub proxy_url: Option<String>,
    pub width: Option<usize>,
    pub height: Option<usize>,
}

impl ToJson for Image {
    open spec fn json_of(&self) -> JsonValue {
        JsonValue::Object(Seq::empty())
            .with("url"@, self.url.json_of())
            .with("proxy_url"@, self.proxy_url.json_of())
            .with("width"@, self.width.json_of())
            .with("height"@, self.height.json_of())
    }

    fn to_json(&self) -> (r: Json) {
        Json::object()
            .with("url", self.url.to_json())
            .with("proxy_url", self.proxy_url.to_json())
            .with("width", self.width.to_json())
            .with("height", self.height.to_json())
    }
}

/// The thumbnail of an embed.
#[derive(Debug, Clone)]
pub struct Thumbnail {
    pub url: String,
    pub proxy_url: Option<String>,
    pub width: Option<usize>,
    pub height: Option<usize>,
}

impl ToJson for Thumbnail {
    open spec fn json_of(&self) -> JsonValue {
        JsonValue::Object(Seq::empty())
            .with("url"@, self.url.json_of())
            .with("proxy_url"@, self.proxy_url.json_of())
            .with("width"@, self.width.json_of())
            .with("height"@, self.height.json_of())
    }

    fn to_json(&self) -> (r: Json) {
        Json::object()
            .with("url", self.url.to_json())
            .with("proxy_url", self.proxy_url.to_json())
            .with("width", self.width.to_json())
            .with("height", self.height.to_json())
    }
}

/// The video of an embed.
#[derive(Debug, Clone)]
pub struct Video {
    pub url: Option<String>,
    pub proxy_url: Option<String>,
    pub width: Option<usize>,
    pub height: Option<usize>,
}

impl ToJson for Video {
    open spec fn json_of(&self) -> JsonValue {
        JsonValue::Object(Seq::empty())
            .with("url"@, self.url.json_of())
            .with("proxy_url"@, self.proxy_url.json_of())
            .with("width"@, self.width.json_of())
            .with("height"@, self.height.json_of())
    }

    fn to_json(&self) -> (r: Json) {
        Json::object()
            .with("url", self.url.to_json())
            .with("proxy_url", self.proxy_url.to_json())
            .with("width", self.width.to_json())
            .with("height", self.height.to_json())
    }
}

/// Who provides the content of an embed.
#[derive(Debug, Clone)]
pub struct Provider {
    pub name: Option<String>,
    pub url: Option<String>,
}

impl ToJson for Provider {
    open spec fn json_of(&self) -> JsonValue {
        JsonValue::Object(Seq::empty())
            .with("name"@, self.name.json_of())
            .with("url"@, self.url.json_of())
    }

    fn to_json(&self) -> (r: Json) {
        Json::object()
            .with("name", self.name.to_json())
            .with("url", self.url.to_json())
    }
}

/// The author of an embed, whose name takes up to 256 bytes.
#[derive(Debug, Clone)]
pub struct Author {
    pub name: String,
    pub url: Option<String>,
    pub icon_proxy_url: Option<String>,
    pub icon_url: Option<String>,
}

impl ToJson for Author {
    open spec fn json_of(&self) -> JsonValue {
        JsonValue::Object(Seq::empty())
            .with("name"@, self.name.json_of())
            .with("url"@, self.url.json_of())
            .with("proxy_icon_url"@, self.icon_proxy_url.json_of())
            .with("icon_url"@, self.icon_url.json_of())
    }

    fn to_json(&self) -> (r: Json) {
        Json::object()
            .with("name", self.name.to_json())
            .with("url", self.url.to_json())
            .with("proxy_icon_url", self.icon_proxy_url.to_json())
            .with("icon_url", self.icon_url.to_json())
    }
}

/// One field of an embed: a name of up to 256 bytes and a value of up to 1024.
#[derive(Debug, Clone)]
pub struct Field {
    pub name: String,
    pub value: String,
    pub inline: Option<bool>,
}

impl ToJson for Field {
    open spec fn json_of(&self) -> JsonValue {
        JsonValue::Object(Seq::empty())
            .with("name"@, self.name.json_of())
            .with("value"@, self.value.json_of())
            .with("inline"@, self.inline.json_of())
    }

    fn to_json(&self) -> (r: Json) {
        Json::object()
            .with("name", self.name.to_json())
            .with("value", self.value.to_json())
            .with("inline", self.inline.to_json())
    }
}

/// Rich content of a message. An embed holds up to 25 fields.
#[derive(Debug, Clone)]
pub struct Embed {
    pub title: Option<String>,
    pub description: Option<String>,
    pub url: Option<String>,
    pub timestamp: Option<Timestamp>,
    pub color: Option<u32>,
    pub footer: Option<Footer>,
    pub image: Option<Image>,
    pub thumbnail: Option<Thumbnail>,
    pub video: Option<Video>,
    pub provider: Option<Provider>,
    pub author: Option<Author>,
    pub fields: Option<Vec<Field>>,
}

impl ToJson for Embed {
    open spec fn json_of(&self) -> JsonValue {
        JsonValue::Object(Seq::empty())
            .with("title"@, self.title.json_of())
            .with("description"@, self.description.json_of())
            .with("url"@, self.url.json_of())
            .with("timestamp"@, self.timestamp.json_of())
            .with("color"@, self.color.json_of())
            .with("footer"@, self.footer.json_of())
            .with("image"@, self.image.json_of())
            .with("thumbnail"@, self.thumbnail.json_of())
            .with("video"@, self.video.json_of())
            .with("provider"@, self.provider.json_of())
            .with("author"@, self.author.json_of())
            .with("fields"@, self.fields.json_of())
    }

    fn to_json(&self) -> (r: Json) {
        Json::object()
            .with("title", self.title.to_json())
            .with("description", self.description.to_json())
            .with("url", self.url.to_json())
            .with("timestamp", self.timestamp.to_json())
            .with("color", self.color.to_json())
            .with("footer", self.footer.to_json())
            .with("image", self.image.to_json())
            .with("thumbnail", self.thumbnail.to_json())
            .with("video", self.video.to_json())
            .with("provider", self.provider.to_json())
            .with("author", self.author.to_json())
            .with("fields", self.fields.to_json())
    }
}

impl Footer {
    /// A footer with the given text and no icon.
    pub fn new(text: &str) -> (r: Self)
        ensures
            r.text@ == text@,
            r.icon_proxy_url is None,
            r.icon_url is None,
    {
        Self { text: String::from_str(text), icon_proxy_url: None, icon_url: None }
    }

    /// The footer with its icon set.
    pub fn icon(self, url: String) -> (r: Self)
        ensures
            r == (Footer { icon_url: Some(url), ..self }),
    {
        let mut r = self;
        r.icon_url = Some(url);
        r
    }

    /// The footer with the proxied address of its icon set.
    pub fn icon_proxy(self, url: String) -> (r: Self)
        ensures
            r == (Footer { icon_proxy_url: Some(url), ..self }),
    {
        let mut r = self;
        r.icon_proxy_url = Some(url);
        r
    }
}

impl Provider {
    /// A provider with the given name and address.
    pub fn new(name: &str, url: String) -> (r: Self)
        ensures
            r.name matches Some(n) && n@ == name@,
            r.url == Some(url),
    {
        Self { name: Some(String::from_str(name)), url: Some(url) }
    }

    /// The provider with its address set.
    pub fn url(self, url: String) -> (r: Self)
        ensures
            r == (Provider { url: Some(url), ..self }),
    {
        let mut r = self;
        r.url = Some(url);
        r
    }
}

impl Author {
    /// An author with the given name and nothing else.
    pub fn new(name: &str) -> (r: Self)
        ensures
            r.name@ == name@,
            r.url is None,
            r.icon_proxy_url is None,
            r.icon_url is None,
    {
        Self { name: String::from_str(name), url: None, icon_proxy_url: None, icon_url: None }
    }

    /// The author with its address set.
    pub fn url(self, url: String) -> (r: Self)
        ensures
            r == (Author { url: Some(url), ..self }),
    {
        let mut r = self;
        r.url = Some(url);
        r
    }

    /// The author with the proxied address of its icon set.
    pub fn icon_proxy_url(self, icon_proxy_url: String) -> (r: Self)
        ensures
            r == (Author { icon_proxy_url: Some(icon_proxy_url), ..self }),
    {
        let mut r = self;
        r.icon_proxy_url = Some(icon_proxy_url);
        r
    }

    /// The author with its icon set.
    pub fn icon_url(self, icon_url: String) -> (r: Self)
        ensures
            r == (Author { icon_url: Some(icon_url), ..self }),
    {
        let mut r = self;
        r.icon_url = Some(icon_url);
        r
    }
}

impl Field {
    /// A field with the given name and value, of which it is not said
    /// whether it stands in line.
    pub fn new(name: &str, value: &str) -> (r: Self)
        ensures
            r.name@ == name@,
            r.value@ == value@,
            r.inline is None,
    {
        Self { name: String::from_str(name), value: String::from_str(value), inline: None }
    }

    /// The field with its place in line set.
    pub fn inline(self, inline: bool) -> (r: Self)
        ensures
            r == (Field { inline: Some(inline), ..self }),
    {
        let mut r = self;
        r.inline = Some(inline);
        r
    }
}

} // verus!
