//! Message components: rows, buttons, menus and text inputs.

use crate::json::{Json, JsonValue, ToJson};
use crate::types::channel::ChannelType;
use crate::types::common::Emoji;
use crate::types::snowflake::Snowflake;
use vstd::prelude::*;
use vstd::string::StringExecFns;

verus! {

/// What kind of component a component is.
#[derive(Debug, Eq, PartialEq, Clone, Structural)]
pub enum ComponentType {
    ActionRow,
    Button,
    StringSelect,
    TextInput,
    UserSelect,
    RoleSelect,
    MentionableSelect,
    ChannelSelect,
}

impl ComponentType {
    /// The number that stands for the value on the wire.
    pub open spec fn code_of(self) -> u8 {
        match self {
            ComponentType::ActionRow => 1,
            ComponentType::Button => 2,
            ComponentType::StringSelect => 3,
            ComponentType::TextInput => 4,
            ComponentType::UserSelect => 5,
            ComponentType::RoleSelect => 6,
            ComponentType::MentionableSelect => 7,
            ComponentType::ChannelSelect => 8,
        }
    }

    /// The number that stands for the value on the wire.
    pub fn code(&self) -> (r: u8)
        ensures
            r == self.code_of(),
    {
        match self {
            ComponentType::ActionRow => 1,
            ComponentType::Button => 2,
            ComponentType::StringSelect => 3,
            ComponentType::TextInput => 4,
            ComponentType::UserSelect => 5,
            ComponentType::RoleSelect => 6,
            ComponentType::MentionableSelect => 7,
            ComponentType::ChannelSelect => 8,
        }
    }

    /// The value that a number of the wire stands for, if it stands for one.
    pub fn from_code(code: u8) -> (r: Option<Self>)
        ensures
            match r {
                Some(value) => value.code_of() == code,
                None => forall|value: Self| value.code_of() != code,
            },
    {
        if code == 1 {
            Some(ComponentType::ActionRow)
        } else if code == 2 {
            Some(ComponentType::Button)
        } else if code == 3 {
            Some(ComponentType::StringSelect)
        } else if code == 4 {
            Some(ComponentType::TextInput)
        } else if code == 5 {
            Some(ComponentType::UserSelect)
        } else if code == 6 {
            Some(ComponentType::RoleSelect)
        } else if code == 7 {
            Some(ComponentType::MentionableSelect)
        } else if code == 8 {
            Some(ComponentType::ChannelSelect)
        } else {
            None
        }
    }
}

impl ToJson for ComponentType {
    open spec fn json_of(&self) -> JsonValue {
        JsonValue::number(self.code_of() as nat)
    }

    fn to_json(&self) -> (r: Json) {
        Json::number(self.code() as u64)
    }
}

/// A row that holds other components.
#[derive(Debug, Clone)]
pub struct ActionRow {
    /// The kind of component, which the constructors set.
    pub _type: ComponentType,
    pub components: Option<Vec<Json>>,
}

impl ToJson for ActionRow {
    open spec fn json_of(&self) -> JsonValue {
        JsonValue::Object(Seq::empty())
            .with("type"@, self._type.json_of())
            .with("components"@, self.components.json_of())
    }

    fn to_json(&self) -> (r: Json) {
        Json::object()
            .with("type", self._type.to_json())
            .with("components", self.components.to_json())
    }
}

/// How a button looks.
#[derive(Debug, Eq, PartialEq, Clone, Structural)]
pub enum ButtonStyle {
    Primary,
    Secondary,
    Success,
    Danger,
    Link,
}

impl ButtonStyle {
    /// The number that stands for the value on the wire.
    pub open spec fn code_of(self) -> u8 {
        match self {
            ButtonStyle::Primary => 1,
            ButtonStyle::Secondary => 2,
            ButtonStyle::Success => 3,
            ButtonStyle::Danger => 4,
            ButtonStyle::Link => 5,
        }
    }

    /// The number that stands for the value on the wire.
    pub fn code(&self) -> (r: u8)
        ensures
            r == self.code_of(),
    {
        match self {
            ButtonStyle::Primary => 1,
            ButtonStyle::Secondary => 2,
            ButtonStyle::Success => 3,
            ButtonStyle::Danger => 4,
            ButtonStyle::Link => 5,
        }
    }

    /// The value that a number of the wire stands for, if it stands for one.
    pub fn from_code(code: u8) -> (r: Option<Self>)
        ensures
            match r {
                Some(value) => value.code_of() == code,
                None => forall|value: Self| value.code_of() != code,
            },
    {
        if code == 1 {
            Some(ButtonStyle::Primary)
        } else if code == 2 {
            Some(ButtonStyle::Secondary)
        } else if code == 3 {
            Some(ButtonStyle::Success)
        } else if code == 4 {
            Some(ButtonStyle::Danger)
        } else if code == 5 {
            Some(ButtonStyle::Link)
        } else {
            None
        }
    }
}

impl ToJson for ButtonStyle {
    open spec fn json_of(&self) -> JsonValue {
        JsonValue::number(self.code_of() as nat)
    }

    fn to_json(&self) -> (r: Json) {
        Json::number(self.code() as u64)
    }
}

/// A button to press.
#[derive(Debug, Clone)]
pub struct Button {
    /// The kind of component, which the constructors set.
    pub _type: ComponentType,
    pub style: ButtonStyle,
    pub label: Option<String>,
    pub emoji: Option<Emoji>,
    pub custom_id: Option<String>,
    pub url: Option<String>,
    pub disabled: Option<bool>,
}

impl ToJson for Button {
    open spec fn json_of(&self) -> JsonValue {
        JsonValue::Object(Seq::empty())
            .with("type"@, self._type.json_of())
            .with("style"@, self.style.json_of())
            .with("label"@, self.label.json_of())
            .with("emoji"@, self.emoji.json_of())
            .with("custom_id"@, self.custom_id.json_of())
            .with("url"@, self.url.json_of())
            .with("disabled"@, self.disabled.json_of())
    }

    fn to_json(&self) -> (r: Json) {
        Json::object()
            .with("type", self._type.to_json())
            .with("style", self.style.to_json())
            .with("label", self.label.to_json())
            .with("emoji", self.emoji.to_json())
            .with("custom_id", self.custom_id.to_json())
            .with("url", self.url.to_json())
            .with("disabled", self.disabled.to_json())
    }
}

/// One choice of a menu of texts.
#[derive(Debug, Clone)]
pub struct SelectOption {
    pub label: String,
    pub value: String,
    pub description: Option<String>,
    pub emoji: Option<Emoji>,
    pub default: Option<bool>,
}

impl ToJson for SelectOption {
    open spec fn json_of(&self) -> JsonValue {
        JsonValue::Object(Seq::empty())
            .with("label"@, self.label.json_of())
            .with("value"@, self.value.json_of())
            .with("description"@, self.description.json_of())
            .with("emoji"@, self.emoji.json_of())
            .with("default"@, self.default.json_of())
    }

    fn to_json(&self) -> (r: Json) {
        Json::object()
            .with("label", self.label.to_json())
            .with("value", self.value.to_json())
            .with("description", self.description.to_json())
            .with("emoji", self.emoji.to_json())
            .with("default", self.default.to_json())
    }
}

/// What a value that a menu has chosen from the start stands for.
#[derive(Debug, Clone)]
pub enum DefaultValueType {
    User,
    Role,
    Channel,
}

/// A value that a menu has chosen from the start.
#[derive(Debug, Clone)]
pub struct DefaultValue {
    pub id: Snowflake,
    pub value_type: DefaultValueType,
}

impl ToJson for DefaultValue {
    open spec fn json_of(&self) -> JsonValue {
        JsonValue::Object(Seq::empty())
            .with("id"@, self.id.json_of())
            .with("type"@, self.value_type.json_of())
    }

    fn to_json(&self) -> (r: Json) {
        Json::object()
            .with("id", self.id.to_json())
            .with("type", self.value_type.to_json())
    }
}

/// A menu to choose from: texts, users, roles, both, or channels.
#[derive(Debug, Clone)]
pub struct SelectMenu {
    /// The kind of component, which the constructors set.
    pub _type: ComponentType,
    pub custom_id: String,
    pub options: Option<Vec<SelectOption>>,
    pub channel_types: Option<Vec<ChannelType>>,
    pub placeholder: Option<String>,
    pub default_values: Option<Vec<DefaultValue>>,
    pub min_values: Option<u8>,
    pub max_values: Option<u8>,
    pub disabled: Option<bool>,
}

impl ToJson for SelectMenu {
    open spec fn json_of(&self) -> JsonValue {
        JsonValue::Object(Seq::empty())
            .with("type"@, self._type.json_of())
            .with("custom_id"@, self.custom_id.json_of())
            .with("options"@, self.options.json_of())
            .with("channel_types"@, self.channel_types.json_of())
            .with("placeholder"@, self.placeholder.json_of())
            .with("default_values"@, self.default_values.json_of())
            .with("min_values"@, self.min_values.json_of())
            .with("max_values"@, self.max_values.json_of())
            .with("disabled"@, self.disabled.json_of())
    }

    fn to_json(&self) -> (r: Json) {
        Json::object()
            .with("type", self._type.to_json())
            .with("custom_id", self.custom_id.to_json())
            .with("options", self.options.to_json())
            .with("channel_types", self.channel_types.to_json())
            .with("placeholder", self.placeholder.to_json())
            .with("default_values", self.default_values.to_json())
            .with("min_values", self.min_values.to_json())
            .with("max_values", self.max_values.to_json())
            .with("disabled", self.disabled.to_json())
    }
}

/// Whether a text input takes one line or several.
#[derive(Debug, Eq, PartialEq, Clone, Structural)]
pub enum TextInputStyle {
    Short,
    Paragraph,
}

impl TextInputStyle {
    /// The number that stands for the value on the wire.
    pub open spec fn code_of(self) -> u8 {
        match self {
            TextInputStyle::Short => 1,
            TextInputStyle::Paragraph => 2,
        }
    }

    /// The number that stands for the value on the wire.
    pub fn code(&self) -> (r: u8)
        ensures
            r == self.code_of(),
    {
        match self {
            TextInputStyle::Short => 1,
            TextInputStyle::Paragraph => 2,
        }
    }

    /// The value that a number of the wire stands for, if it stands for one.
    pub fn from_code(code: u8) -> (r: Option<Self>)
        ensures
            match r {
                Some(value) => value.code_of() == code,
                None => forall|value: Self| value.code_of() != code,
            },
    {
        if code == 1 {
            Some(TextInputStyle::Short)
        } else if code == 2 {
            Some(TextInputStyle::Paragraph)
        } else {
            None
        }
    }
}

impl ToJson for TextInputStyle {
    open spec fn json_of(&self) -> JsonValue {
        JsonValue::number(self.code_of() as nat)
    }

    fn to_json(&self) -> (r: Json) {
        Json::number(self.code() as u64)
    }
}

/// A field to write a text into.
#[derive(Debug, Clone)]
pub struct TextInput {
    /// The kind of component, which the constructors set.
    pub _type: ComponentType,
    pub custom_id: String,
    pub style: TextInputStyle,
    pub label: String,
    pub value: Option<String>,
    pub placeholder: Option<String>,
    pub min_length: Option<u16>,
    pub max_length: Option<u16>,
    pub required: Option<bool>,
}

impl ToJson for TextInput {
    open spec fn json_of(&self) -> JsonValue {
        JsonValue::Object(Seq::empty())
            .with("type"@, self._type.json_of())
            .with("custom_id"@, self.custom_id.json_of())
            .with("style"@, self.style.json_of())
            .with("label"@, self.label.json_of())
            .with("value"@, self.value.json_of())
            .with("placeholder"@, self.placeholder.json_of())
            .with("min_length"@, self.min_length.json_of())
            .with("max_length"@, self.max_length.json_of())
            .with("required"@, self.required.json_of())
    }

    fn to_json(&self) -> (r: Json) {
        Json::object()
            .with("type", self._type.to_json())
            .with("custom_id", self.custom_id.to_json())
            .with("style", self.style.to_json())
            .with("label", self.label.to_json())
            .with("value", self.value.to_json())
            .with("placeholder", self.placeholder.to_json())
            .with("min_length", self.min_length.to_json())
            .with("max_length", self.max_length.to_json())
            .with("required", self.required.to_json())
    }
}

/// Any component of a message.
#[derive(Debug, Clone)]
pub enum Component {
    ActionRow(ActionRow),
    Button(Box<Button>),
    StringSelect(SelectMenu),
    TextInput(TextInput),
    UserSelect(SelectMenu),
    RoleSelect(SelectMenu),
    MentionableSelect(SelectMenu),
    ChannelSelect(SelectMenu),
}

impl Button {
    /// A button of the given style that reports the given identifier when
    /// it is pressed.
    pub fn new(id: &str, style: ButtonStyle) -> (r: Self)
        ensures
            r._type == ComponentType::Button,
            r.custom_id matches Some(c) && c@ == id@,
            r.style == style,
            r.label is None,
            r.emoji is None,
            r.url is None,
            r.disabled is None,
    {
        Self {
            _type: ComponentType::Button,
            custom_id: Some(String::from_str(id)),
            style,
            label: None,
            emoji: None,
            url: None,
            disabled: None,
        }
    }

    /// The button with its label set.
    pub fn label(self, label: String) -> (r: Self)
        ensures
            r == (Button { label: Some(label), ..self }),
    {
        let mut r = self;
        r.label = Some(label);
        r
    }

    /// The button with its emoji set.
    pub fn emoji(self, emoji: Emoji) -> (r: Self)
        ensures
            r == (Button { emoji: Some(emoji), ..self }),
    {
        let mut r = self;
        r.emoji = Some(emoji);
        r
    }

    /// The button with the address that it leads to set.
    pub fn url(self, url: String) -> (r: Self)
        ensures
            r == (Button { url: Some(url), ..self }),
    {
        let mut r = self;
        r.url = Some(url);
        r
    }

    /// The button switched off or on.
    pub fn disabled(self, disabled: bool) -> (r: Self)
        ensures
            r == (Button { disabled: Some(disabled), ..self }),
    {
        let mut r = self;
        r.disabled = Some(disabled);
        r
    }
}

impl SelectMenu {
    /// What every new menu of a kind holds: its identifier and options,
    /// and nothing else.
    pub open spec fn is_new(
        self,
        kind: ComponentType,
        id: Seq<char>,
        options: Vec<SelectOption>,
    ) -> bool {
        &&& self._type == kind
        &&& self.custom_id@ == id
        &&& self.options == Some(options)
        &&& self.channel_types is None
        &&& self.placeholder is None
        &&& self.default_values is None
        &&& self.min_values is None
        &&& self.max_values is None
        &&& self.disabled is None
    }

    fn with_kind(kind: ComponentType, id: &str, options: Vec<SelectOption>) -> (r: Self)
        ensures
            r.is_new(kind, id@, options),
    {
        Self {
            _type: kind,
            options: Some(options),
            custom_id: String::from_str(id),
            placeholder: None,
            channel_types: None,
            default_values: None,
            min_values: None,
            max_values: None,
            disabled: None,
        }
    }

    /// A menu of texts to choose from.
    pub fn text(id: &str, options: Vec<SelectOption>) -> (r: Self)
        ensures
            r.is_new(ComponentType::StringSelect, id@, options),
    {
        Self::with_kind(ComponentType::StringSelect, id, options)
    }

    /// A menu of users to choose from.
    pub fn user(id: &str, options: Vec<SelectOption>) -> (r: Self)
        ensures
            r.is_new(ComponentType::UserSelect, id@, options),
    {
        Self::with_kind(ComponentType::UserSelect, id, options)
    }

    /// A menu of roles to choose from.
    pub fn role(id: &str, options: Vec<SelectOption>) -> (r: Self)
        ensures
            r.is_new(ComponentType::RoleSelect, id@, options),
    {
        Self::with_kind(ComponentType::RoleSelect, id, options)
    }

    /// A menu of users and roles to choose from.
    pub fn mentionable(id: &str, options: Vec<SelectOption>) -> (r: Self)
        ensures
            r.is_new(ComponentType::MentionableSelect, id@, options),
    {
        Self::with_kind(ComponentType::MentionableSelect, id, options)
    }

    /// A menu of channels to choose from.
    pub fn channel(id: &str, options: Vec<SelectOption>) -> (r: Self)
        ensures
            r.is_new(ComponentType::ChannelSelect, id@, options),
    {
        Self::with_kind(ComponentType::ChannelSelect, id, options)
    }

    /// The menu with the kinds of channel that it offers set. Only a menu
    /// of channels takes them.
    pub fn channel_types(self, channel_types: Vec<ChannelType>) -> (r: Self)
        requires
            self._type == ComponentType::ChannelSelect,
        ensures
            r == (SelectMenu { channel_types: Some(channel_types), ..self }),
    {
        let mut r = self;
        r.channel_types = Some(channel_types);
        r
    }

    /// The menu with the values that are chosen from the start set.
    pub fn default_values(self, default_values: Vec<DefaultValue>) -> (r: Self)
        ensures
            r == (SelectMenu { default_values: Some(default_values), ..self }),
    {
        let mut r = self;
        r.default_values = Some(default_values);
        r
    }

    /// The menu with the text that it shows while nothing is chosen set.
    /// Only a menu of texts takes one.
    pub fn placeholder(self, placeholder: &str) -> (r: Self)
        requires
            self._type == ComponentType::StringSelect,
        ensures
            r.placeholder matches Some(p) && p@ == placeholder@,
            (SelectMenu { placeholder: self.placeholder, ..r }) == self,
    {
        let mut r = self;
        r.placeholder = Some(String::from_str(placeholder));
        r
    }

    /// The menu with the least and the greatest number of choices set.
    pub fn limits(self, min: u8, max: u8) -> (r: Self)
        ensures
            r == (SelectMenu { min_values: Some(min), max_values: Some(max), ..self }),
    {
        let mut r = self;
        r.min_values = Some(min);
        r.max_values = Some(max);
        r
    }

    /// The menu switched off or on.
    pub fn disabled(self, disabled: bool) -> (r: Self)
        ensures
            r == (SelectMenu { disabled: Some(disabled), ..self }),
    {
        let mut r = self;
        r.disabled = Some(disabled);
        r
    }

    /// Whether the menu is one of channels.
    pub fn is_channel_select(&self) -> (r: bool)
        ensures
            r == (self._type == ComponentType::ChannelSelect),
    {
        self._type == ComponentType::ChannelSelect
    }

    /// Whether the menu is one of texts.
    pub fn is_string_select(&self) -> (r: bool)
        ensures
            r == (self._type == ComponentType::StringSelect),
    {
        self._type == ComponentType::StringSelect
    }
}

impl TextInput {
    /// A short text input with the given identifier and label.
    pub fn new(custom_id: &str, label: &str) -> (r: Self)
        ensures
            r._type == ComponentType::TextInput,
            r.custom_id@ == custom_id@,
            r.style == TextInputStyle::Short,
            r.label@ == label@,
            r.value is None,
            r.placeholder is None,
            r.min_length is None,
            r.max_length is None,
            r.required is None,
    {
        Self {
            _type: ComponentType::TextInput,
            custom_id: String::from_str(custom_id),
            style: TextInputStyle::Short,
            label: String::from_str(label),
            value: None,
            placeholder: None,
            min_length: None,
            max_length: None,
            required: None,
        }
    }

    /// The input with its style set.
    pub fn style(self, style: TextInputStyle) -> (r: Self)
        ensures
            r == (TextInput { style, ..self }),
    {
        let mut r = self;
        r.style = style;
        r
    }

    /// The input with the text that it shows while it is empty set.
    pub fn placeholder(self, placeholder: &str) -> (r: Self)
        ensures
            r.placeholder matches Some(p) && p@ == placeholder@,
            (TextInput { placeholder: self.placeholder, ..r }) == self,
    {
        let mut r = self;
        r.placeholder = Some(String::from_str(placeholder));
        r
    }

    /// The input with the text that it holds from the start set.
    pub fn value(self, value: &str) -> (r: Self)
        ensures
            r.value matches Some(v) && v@ == value@,
            (TextInput { value: self.value, ..r }) == self,
    {
        let mut r = self;
        r.value = Some(String::from_str(value));
        r
    }

    /// The input with the least and the greatest length of its text set.
    pub fn limits(self, min: u16, max: u16) -> (r: Self)
        ensures
            r == (TextInput { min_length: Some(min), max_length: Some(max), ..self }),
    {
        let mut r = self;
        r.min_length = Some(min);
        r.max_length = Some(max);
        r
    }

    /// The input with it set whether a text has to be given.
    pub fn required(self, required: bool) -> (r: Self)
        ensures
            r == (TextInput { required: Some(required), ..self }),
    {
        let mut r = self;
        r.required = Some(required);
        r
    }
}

impl DefaultValueType {
    /// The name that stands for the value on the wire.
    pub open spec fn name_of(self) -> Seq<char> {
        match self {
            DefaultValueType::User => "user"@,
            DefaultValueType::Role => "role"@,
            DefaultValueType::Channel => "channel"@,
        }
    }

    /// The name that stands for the value on the wire.
    pub fn name(&self) -> (r: &'static str)
        ensures
            r@ == self.name_of(),
    {
        match self {
            DefaultValueType::User => "user",
            DefaultValueType::Role => "role",
            DefaultValueType::Channel => "channel",
        }
    }
}

impl ToJson for DefaultValueType {
    open spec fn json_of(&self) -> JsonValue {
        JsonValue::Text(self.name_of())
    }

    fn to_json(&self) -> (r: Json) {
        Json::text(self.name())
    }
}

impl ToJson for Component {
    /// A component stands on the wire as what it holds, without a mark of
    /// its own.
    open spec fn json_of(&self) -> JsonValue {
        match self {
            Component::ActionRow(row) => row.json_of(),
            Component::Button(button) => button.json_of(),
            Component::StringSelect(menu) => menu.json_of(),
            Component::TextInput(input) => input.json_of(),
            Component::UserSelect(menu) => menu.json_of(),
            Component::RoleSelect(menu) => menu.json_of(),
            Component::MentionableSelect(menu) => menu.json_of(),
            Component::ChannelSelect(menu) => menu.json_of(),
        }
    }

    fn to_json(&self) -> (r: Json) {
        match self {
            Component::ActionRow(row) => row.to_json(),
            Component::Button(button) => button.to_json(),
            Component::StringSelect(menu) => menu.to_json(),
            Component::TextInput(input) => input.to_json(),
            Component::UserSelect(menu) => menu.to_json(),
            Component::RoleSelect(menu) => menu.to_json(),
            Component::MentionableSelect(menu) => menu.to_json(),
            Component::ChannelSelect(menu) => menu.to_json(),
        }
    }
}

impl Component {
    /// The document that stands for the component on the wire.
    pub fn build(self) -> (r: Json)
        ensures
            r@ == self.json_of(),
    {
        self.to_json()
    }
}

impl ActionRow {
    /// A row without components.
    pub fn new() -> (r: Self)
        ensures
            r._type == ComponentType::ActionRow,
            r.components is None,
    {
        Self { _type: ComponentType::ActionRow, components: None }
    }

    /// The documents of the components of a row, none where it has none.
    pub open spec fn documents(self) -> Seq<JsonValue> {
        match self.components {
            Some(components) => crate::json::items_view(components@),
            None => Seq::empty(),
        }
    }

    /// The row with one more component at its end.
    pub fn add_component(self, component: Component) -> (r: Self)
        ensures
            r._type == self._type,
            r.components is Some,
            r.documents() == self.documents().push(component.json_of()),
    {
        let mut r = self;
        let mut components = match r.components {
            Some(components) => components,
            None => Vec::new(),
        };
        let ghost before = crate::json::items_view(components@);
        components.push(component.build());
        assert(crate::json::items_view(components@) =~= before.push(component.json_of()));
        r.components = Some(components);
        r
    }
}

} // verus!
