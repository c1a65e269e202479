//! Stickers.

use super::snowflake::Snowflake;
use super::user::User;
use vstd::prelude::*;

verus! {

/// Whether a sticker is a standard one or comes from a guild.
#[derive(Debug, Eq, PartialEq, Clone, Structural)]
pub enum StickerType {
    Standard,
    Guild,
}

impl StickerType {
    /// The number that stands for the value on the wire.
    pub open spec fn code_of(self) -> u8 {
        match self {
            StickerType::Standard => 1,
            StickerType::Guild => 2,
        }
    }

    /// The number that stands for the value on the wire.
    pub fn code(&self) -> (r: u8)
        ensures
            r == self.code_of(),
    {
        match self {
            StickerType::Standard => 1,
            StickerType::Guild => 2,
        }
    }

    /// The value that a number of the wire stands for, if it stands for one.
    pub fn from_code(code: u8) -> (r: Option<Self>)
        ensures
            match r {
                Some(value) => value.code_of() == code,
                None => forall|value: Self| value.code_of() != code,
            },
    {
        if code == 1 {
            Some(StickerType::Standard)
        } else if code == 2 {
            Some(StickerType::Guild)
        } else {
            None
        }
    }
}

/// The file format of a sticker.
#[derive(Debug, Eq, PartialEq, Clone, Structural)]
pub enum StickerFormat {
    PNG,
    APNG,
    LOTTIE,
    GIF,
}

impl StickerFormat {
    /// The number that stands for the value on the wire.
    pub open spec fn code_of(self) -> u8 {
        match self {
            StickerFormat::PNG => 1,
            StickerFormat::APNG => 2,
            StickerFormat::LOTTIE => 3,
            StickerFormat::GIF => 4,
        }
    }

    /// The number that stands for the value on the wire.
    pub fn code(&self) -> (r: u8)
        ensures
            r == self.code_of(),
    {
        match self {
            StickerFormat::PNG => 1,
            StickerFormat::APNG => 2,
            StickerFormat::LOTTIE => 3,
            StickerFormat::GIF => 4,
        }
    }

    /// The value that a number of the wire stands for, if it stands for one.
    pub fn from_code(code: u8) -> (r: Option<Self>)
        ensures
            match r {
                Some(value) => value.code_of() == code,
                None => forall|value: Self| value.code_of() != code,
            },
    {
        if code == 1 {
            Some(StickerFormat::PNG)
        } else if code == 2 {
            Some(StickerFormat::APNG)
        } else if code == 3 {
            Some(StickerFormat::LOTTIE)
        } else if code == 4 {
            Some(StickerFormat::GIF)
        } else {
            None
        }
    }
}

/// A sticker as a message holds it.
#[derive(Debug, Clone)]
pub struct StickerItem {
    pub id: Snowflake,
    pub name: String,
    pub format_type: StickerFormat,
}

/// A sticker.
#[derive(Debug, Clone)]
pub struct Sticker {
    pub id: Snowflake,
    pub pack_id: Option<Snowflake>,
    pub guild_id: Snowflake,
    pub name: String,
    pub description: Option<String>,
    pub tags: String,
    pub sticker_type: StickerType,
    pub format_type: StickerFormat,
    pub creator: Option<User>,
    pub available: Option<bool>,
    pub sort_value: Option<u64>,
}

/// A pack of standard stickers.
#[derive(Debug, Clone)]
pub struct StickerPack {
    pub id: Snowflake,
    pub name: String,
    pub sticker: Vec<Sticker>,
    pub sku_id: Snowflake,
    pub cover_sticker_id: Option<Snowflake>,
    pub banner_asset_id: Option<Snowflake>,
    pub description: String,
}

} // verus!
