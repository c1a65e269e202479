//! The errors that the library reports.

use crate::text::join;
use std::time::Instant;
use vstd::prelude::*;

verus! {

/// `std::time::Instant`, a point on the machine's monotonic clock. Nothing
/// is read from it here: it is carried through.
#[verifier::external_type_specification]
#[verifier::external_body]
pub struct ExInstant(Instant);

/// What can go wrong between the application, the gateway and the API.
#[derive(Debug)]
pub enum Error {
    /// No session has been established that could be resumed.
    NotLoggedIn,
    /// A handshake was started before a token was set.
    NoTokenGiven,
    /// A request to the API was refused before it was sent.
    InvalidApiRequest(String),
    /// The API answered the token with an error.
    InvalidToken(String),
    /// The API asks to wait until the given instant.
    Ratelimit(Instant),
    /// An inbound frame is no message of the gateway.
    MalformedFrame,
    /// The gateway's greeting names no heartbeat interval.
    MissingHeartbeatInterval,
    /// An outbound message could not be written as a frame.
    Unserializable,
}

/// Writes an instant as `Debug` does.
///
/// Wraps `format!` with `{:?}` on `std::time::Instant`. What it writes is
/// left to the platform, so nothing is stated of the text.
#[verifier::external_body]
fn instant_text(at: &Instant) -> String {
    format!("{:?}", at)
}

impl Error {
    /// The message of every error but a rate limit, whose message ends with
    /// a text that the platform chooses.
    pub open spec fn message_spec(self) -> Seq<char> {
        match self {
            Error::NotLoggedIn => "Not logged in"@,
            Error::NoTokenGiven => "No token given"@,
            Error::InvalidApiRequest(s) => "Invalid API request: "@ + s@,
            Error::InvalidToken(s) => "Token is invalid: "@ + s@,
            Error::Ratelimit(_) => "Ratelimited until "@,
            Error::MalformedFrame => "Malformed frame"@,
            Error::MissingHeartbeatInterval => "Invalid heartbeat interval"@,
            Error::Unserializable => "Message cannot be serialized"@,
        }
    }

    /// The message that describes the error to a person.
    pub fn message(&self) -> (r: String)
        ensures
            match self {
                Error::Ratelimit(_) => r@.len() >= self.message_spec().len() && r@.subrange(
                    0,
                    self.message_spec().len() as int,
                ) == self.message_spec(),
                _ => r@ == self.message_spec(),
            },
    {
        match self {
            Error::NotLoggedIn => "Not logged in".to_owned(),
            Error::NoTokenGiven => "No token given".to_owned(),
            Error::InvalidApiRequest(s) => join("Invalid API request: ", s.as_str()),
            Error::InvalidToken(s) => join("Token is invalid: ", s.as_str()),
            Error::Ratelimit(at) => {
                let tail = instant_text(at);
                let r = join("Ratelimited until ", tail.as_str());
                assert(r@.subrange(0, "Ratelimited until "@.len() as int)
                    =~= "Ratelimited until "@);
                r
            },
            Error::MalformedFrame => "Malformed frame".to_owned(),
            Error::MissingHeartbeatInterval => "Invalid heartbeat interval".to_owned(),
            Error::Unserializable => "Message cannot be serialized".to_owned(),
        }
    }
}

} // verus!
