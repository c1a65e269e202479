//! Snowflakes: the 64-bit identifiers of every record.

use crate::json::{Json, JsonValue, ToJson};
use crate::text::{decimal, parse_u64, parsed_u64, u64_to_string};
use vstd::prelude::*;

verus! {

/// The first millisecond of 2015, from which snowflakes count time.
pub const DISCORD_EPOCH: u128 = 1420070400000;

/// An identifier. Its upper 42 bits count the milliseconds since
/// [`DISCORD_EPOCH`]; below them stand five bits for the worker, five for
/// the process, and a counter of twelve bits.
#[derive(Debug, Ord, PartialOrd, Eq, PartialEq, Clone, Copy, Hash, Structural)]
pub struct Snowflake(u64);

impl View for Snowflake {
    type V = u64;

    closed spec fn view(&self) -> u64 {
        self.0
    }
}

impl Snowflake {
    /// The snowflake with the given number.
    pub fn new(id: u64) -> (r: Self)
        ensures
            r@ == id,
    {
        Snowflake(id)
    }

    /// The number of the snowflake.
    pub fn id(&self) -> (r: u64)
        ensures
            r == self@,
    {
        self.0
    }

    /// Reads a snowflake from its decimal numeral; `None` where the text
    /// is no numeral of a 64-bit number.
    pub fn parse(text: &str) -> (r: Option<Self>)
        ensures
            match r {
                Some(id) => parsed_u64(text@) == Some(id@),
                None => parsed_u64(text@) is None,
            },
    {
        match parse_u64(text) {
            Some(id) => Some(Snowflake(id)),
            None => None,
        }
    }

    /// The decimal numeral of the snowflake, as it stands on the wire.
    pub fn to_string(&self) -> (r: String)
        ensures
            r@ == decimal(self@ as nat),
    {
        u64_to_string(self.0)
    }

    /// The moment at which the snowflake was made, in milliseconds since
    /// the Unix epoch.
    pub fn timestamp(&self) -> (r: u128)
        ensures
            r == self@ / 0x40_0000 + DISCORD_EPOCH,
    {
        let id: u64 = self.0;
        let since: u64 = id >> 22;
        assert(since == id / 0x40_0000) by (bit_vector)
            requires
                since == id >> 22,
        ;
        since as u128 + DISCORD_EPOCH
    }

    /// The worker that made the snowflake.
    pub fn worker_id(&self) -> (r: u8)
        ensures
            r == (self@ / 0x2_0000) % 32,
    {
        let id: u64 = self.0;
        let worker: u64 = (id & 0x3E0000) >> 17;
        assert(worker == (id / 0x2_0000) % 32) by (bit_vector)
            requires
                worker == (id & 0x3E0000) >> 17,
        ;
        worker as u8
    }

    /// The process that made the snowflake.
    pub fn process_id(&self) -> (r: u8)
        ensures
            r == (self@ / 0x1000) % 32,
    {
        let id: u64 = self.0;
        let process: u64 = (id & 0x1F000) >> 12;
        assert(process == (id / 0x1000) % 32) by (bit_vector)
            requires
                process == (id & 0x1F000) >> 12,
        ;
        process as u8
    }

    /// The counter that tells apart the snowflakes of one process in one
    /// millisecond.
    pub fn increment(&self) -> (r: u16)
        ensures
            r == self@ % 0x1000,
    {
        let id: u64 = self.0;
        let count: u64 = id & 0xFFF;
        assert(count == id % 0x1000) by (bit_vector)
            requires
                count == id & 0xFFF,
        ;
        count as u16
    }
}

impl ToJson for Snowflake {
    /// A snowflake stands on the wire as the text of its decimal numeral.
    open spec fn json_of(&self) -> JsonValue {
        JsonValue::Text(decimal(self@ as nat))
    }

    fn to_json(&self) -> (r: Json) {
        Json::Text(self.to_string())
    }
}

} // verus!
