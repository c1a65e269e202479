//! Polls.

use crate::json::{Json, JsonValue, ToJson};
use super::common::Emoji;
use super::timestamp::Timestamp;
use vstd::prelude::*;

verus! {

/// The text and emoji of a question or an answer of a poll.
#[derive(Debug, Clone)]
pub struct Media {
    pub text: Option<String>,
    pub emoji: Option<Emoji>,
}

impl ToJson for Media {
    open spec fn json_of(&self) -> JsonValue {
        JsonValue::Object(Seq::empty())
            .with("text"@, self.text.json_of())
            .with("emoji"@, self.emoji.json_of())
    }

    fn to_json(&self) -> (r: Json) {
        Json::object()
            .with("text", self.text.to_json())
            .with("emoji", self.emoji.to_json())
    }
}

/// One answer of a poll.
#[derive(Debug, Clone)]
pub struct Answer {
    pub answer_id: Option<u64>,
    pub poll_media: Media,
}

impl ToJson for Answer {
    open spec fn json_of(&self) -> JsonValue {
        JsonValue::Object(Seq::empty())
            .with("answer_id"@, self.answer_id.json_of())
            .with("poll_media"@, self.poll_media.json_of())
    }

    fn to_json(&self) -> (r: Json) {
        Json::object()
            .with("answer_id", self.answer_id.to_json())
            .with("poll_media", self.poll_media.to_json())
    }
}

/// How many voted for one answer of a poll.
#[derive(Debug, Clone)]
pub struct AnswerCount {
    pub id: u64,
    pub count: u64,
    pub me_voted: bool,
}

impl ToJson for AnswerCount {
    open spec fn json_of(&self) -> JsonValue {
        JsonValue::Object(Seq::empty())
            .with("id"@, self.id.json_of())
            .with("count"@, self.count.json_of())
            .with("me_voted"@, self.me_voted.json_of())
    }

    fn to_json(&self) -> (r: Json) {
        Json::object()
            .with("id", self.id.to_json())
            .with("count", self.count.to_json())
            .with("me_voted", self.me_voted.to_json())
    }
}

/// How a poll is laid out.
#[derive(Debug, Eq, PartialEq, Clone, Structural)]
pub enum LayoutType {
    Default,
}

impl LayoutType {
    /// The number that stands for the value on the wire.
    pub open spec fn code_of(self) -> u8 {
        match self {
            LayoutType::Default => 1,
        }
    }

    /// The number that stands for the value on the wire.
    pub fn code(&self) -> (r: u8)
        ensures
            r == self.code_of(),
    {
        match self {
            LayoutType::Default => 1,
        }
    }

    /// The value that a number of the wire stands for, if it stands for one.
    pub fn from_code(code: u8) -> (r: Option<Self>)
        ensures
            match r {
                Some(value) => value.code_of() == code,
                None => forall|value: Self| value.code_of() != code,
            },
    {
        if code == 1 {
            Some(LayoutType::Default)
        } else {
            None
        }
    }
}

impl ToJson for LayoutType {
    open spec fn json_of(&self) -> JsonValue {
        JsonValue::number(self.code_of() as nat)
    }

    fn to_json(&self) -> (r: Json) {
        Json::number(self.code() as u64)
    }
}

/// The votes of a poll so far.
#[derive(Debug, Clone)]
pub struct Results {
    pub is_finalized: bool,
    pub answer_counts: Vec<AnswerCount>,
}

impl ToJson for Results {
    open spec fn json_of(&self) -> JsonValue {
        JsonValue::Object(Seq::empty())
            .with("is_finalized"@, self.is_finalized.json_of())
            .with("answer_counts"@, self.answer_counts.json_of())
    }

    fn to_json(&self) -> (r: Json) {
        Json::object()
            .with("is_finalized", self.is_finalized.to_json())
            .with("answer_counts", self.answer_counts.to_json())
    }
}

/// A poll.
#[derive(Debug, Clone)]
pub struct Poll {
    pub question: Media,
    pub answers: Vec<Answer>,
    pub expiry: Option<Timestamp>,
    pub allow_multiselect: bool,
    pub layout_type: LayoutType,
    pub results: Option<Results>,
}

impl ToJson for Poll {
    open spec fn json_of(&self) -> JsonValue {
        JsonValue::Object(Seq::empty())
            .with("question"@, self.question.json_of())
            .with("answers"@, self.answers.json_of())
            .with("expiry"@, self.expiry.json_of())
            .with("allow_multiselect"@, self.allow_multiselect.json_of())
            .with("layout_type"@, self.layout_type.json_of())
            .with("results"@, self.results.json_of())
    }

    fn to_json(&self) -> (r: Json) {
        Json::object()
            .with("question", self.question.to_json())
            .with("answers", self.answers.to_json())
            .with("expiry", self.expiry.to_json())
            .with("allow_multiselect", self.allow_multiselect.to_json())
            .with("layout_type", self.layout_type.to_json())
            .with("results", self.results.to_json())
    }
}

} // verus!
