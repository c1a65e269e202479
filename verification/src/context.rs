//! What the runner and the application's handlers share about a session,
//! and how a call to the API is put together and its answer read.

use crate::error::Error;
use crate::json::{json_parsed, json_printed, Json, JsonValue};
use crate::text::{join, text_view};
use crate::types::gateway::Ready;
use crate::types::guild::CachedGuild;
use crate::types::user::{BotUser, User};
use crate::websocket::DiscordMessage;
use vstd::prelude::*;
use vstd::string::StringExecFns;

verus! {

/// The address that every call to the API starts from.
pub const BASE_URL: &'static str = "https://discord.com/";

/// The name that the client gives itself to the API.
pub const USER_AGENT: &'static str =
    "Mozilla/5.0 (X11; Linux x86_64) AppleWebKit/537.36 (KHTML, like Gecko) Chrome/122.0.0.0 Safari/537.36";

/// Where and as whom an interrupted session is taken up again.
#[derive(Debug, Clone)]
pub struct ResumeInfo {
    /// The gateway address that the last fresh login named for resuming.
    pub url: String,
    /// The identifier of the session that login opened.
    pub id: String,
}

/// The users and guilds that the client has seen. Records are only ever
/// added, and one record may stand in it more than once.
#[derive(Debug, Clone)]
pub struct Cache {
    pub users: Vec<User>,
    pub guilds: Vec<CachedGuild>,
}

impl Default for Cache {
    fn default() -> (r: Self)
        ensures
            r.users@ == Seq::<User>::empty(),
            r.guilds@ == Seq::<CachedGuild>::empty(),
    {
        Cache { users: Vec::new(), guilds: Vec::new() }
    }
}

/// The state of a session that the runner and the handlers share.
#[derive(Debug, Clone)]
pub struct Context {
    /// The user that the client is logged in as, once the gateway has said so.
    pub user: Option<BotUser>,
    /// Where to resume, once a fresh login has completed.
    pub resume_info: Option<ResumeInfo>,
    pub cache: Cache,
    /// The token that calls to the API present.
    pub auth: Option<String>,
}

impl Default for Context {
    fn default() -> (r: Self)
        ensures
            r.user is None,
            r.resume_info is None,
            r.cache.users@ == Seq::<User>::empty(),
            r.cache.guilds@ == Seq::<CachedGuild>::empty(),
            r.auth is None,
    {
        Context { user: None, resume_info: None, cache: Cache::default(), auth: None }
    }
}

/// The ways of calling the API.
#[derive(Debug, Clone, Copy, PartialEq, Eq, Structural)]
pub enum Method {
    Get,
    Post,
    Put,
    Patch,
    Delete,
}

/// A call to the API, ready to be sent.
#[derive(Debug, Clone)]
pub struct Request {
    pub method: Method,
    /// The address, made of [`BASE_URL`], `/api/` and the endpoint.
    pub url: String,
    /// The headers that this call adds to those of every call, in order.
    pub headers: Vec<(String, String)>,
    /// The body as JSON text.
    pub body: Option<String>,
}

/// The answer of the API to a call.
#[derive(Debug)]
pub struct Response {
    /// The HTTP status.
    pub status: u16,
    /// The body as JSON, `null` where the body is no JSON.
    pub content: Json,
}

/// The address that `Url::join` makes of a base address and a path, or
/// `None` where the base or the joined path is no address.
pub uninterp spec fn url_joined(base: Seq<char>, path: Seq<char>) -> Option<Seq<char>>;

/// Joins a path to a base address.
///
/// Wraps `reqwest::Url::parse` on the base and `Url::join` on the path: the
/// result is the text of the address that they give, `None` where either
/// refuses.
#[verifier::external_body]
fn join_url(base: &str, path: &str) -> (r: Option<String>)
    ensures
        text_view(r) == url_joined(base@, path@),
{
    reqwest::Url::parse(base).ok()?.join(path).ok().map(String::from)
}

/// The values of a run of headers.
pub open spec fn headers_view(headers: Seq<(String, String)>) -> Seq<(Seq<char>, Seq<char>)> {
    headers.map_values(|header: (String, String)| (header.0@, header.1@))
}

/// The header that presents a token, where there is one.
pub open spec fn auth_headers(auth: Option<Seq<char>>) -> Seq<(Seq<char>, Seq<char>)> {
    match auth {
        Some(token) => seq![("Authorization"@, token)],
        None => Seq::empty(),
    }
}

/// The header that says that a body is JSON, where there is a body.
pub open spec fn body_headers(body: Option<JsonValue>) -> Seq<(Seq<char>, Seq<char>)> {
    match body {
        Some(_) => seq![("Content-Type"@, "application/json"@)],
        None => Seq::empty(),
    }
}

/// The value of a document that may be missing.
pub open spec fn json_view(json: Option<Json>) -> Option<JsonValue> {
    match json {
        Some(json) => Some(json@),
        None => None,
    }
}

impl Context {
    /// The headers that every call to the API carries, besides the name
    /// [`USER_AGENT`].
    pub open spec fn default_headers_spec() -> Seq<(Seq<char>, Seq<char>)> {
        seq![
            ("Referrer"@, "https://discord.com"@),
            ("Sec-Ch-Ua"@, "\"Not(A:Brand\";v=\"24\", \"Chromium\";v=\"122\""@),
            ("Sec-Ch-Ua-Mobile"@, "?0"@),
            ("Sec-Ch-Ua-Platform"@, "\"Linux\""@),
        ]
    }

    /// The headers that every call to the API carries, besides the name
    /// [`USER_AGENT`].
    pub fn default_headers() -> (r: Vec<(String, String)>)
        ensures
            headers_view(r@) == Self::default_headers_spec(),
    {
        let mut r: Vec<(String, String)> = Vec::new();
        r.push((String::from_str("Referrer"), String::from_str("https://discord.com")));
        r.push(
            (
                String::from_str("Sec-Ch-Ua"),
                String::from_str("\"Not(A:Brand\";v=\"24\", \"Chromium\";v=\"122\""),
            ),
        );
        r.push((String::from_str("Sec-Ch-Ua-Mobile"), String::from_str("?0")));
        r.push((String::from_str("Sec-Ch-Ua-Platform"), String::from_str("\"Linux\"")));
        assert(headers_view(r@) =~= Self::default_headers_spec());
        r
    }

    /// Sets the token that calls to the API present.
    pub fn set_auth(&mut self, token: String)
        ensures
            *final(self) == (Context { auth: Some(token), ..*old(self) }),
    {
        self.auth = Some(token);
    }

    /// Takes in what the gateway sent when a session opened: the user that
    /// the client is logged in as and the place to resume at replace what
    /// was known, and the users and guilds join those already seen.
    pub fn ready(&mut self, ready: Ready)
        ensures
            final(self).user == Some(ready.user),
            final(self).resume_info == Some(
                ResumeInfo { url: ready.resume_gateway_url, id: ready.session_id },
            ),
            final(self).cache.users@ == old(self).cache.users@ + ready.cached_users@,
            final(self).cache.guilds@ == old(self).cache.guilds@ + ready.cached_guilds@,
            final(self).auth == old(self).auth,
    {
        let mut ready = ready;
        self.user = Some(ready.user);
        self.resume_info = Some(ResumeInfo { url: ready.resume_gateway_url, id: ready.session_id });
        self.cache.guilds.append(&mut ready.cached_guilds);
        self.cache.users.append(&mut ready.cached_users);
    }

    /// Takes in a dispatch before the handler gets it. The dispatch named
    /// `READY` brings what the gateway sent when the session opened, read
    /// from its payload, which is taken in as [`Context::ready`] does. Any
    /// other dispatch, and one whose payload could not be read, leaves the
    /// context as it is.
    pub fn on_dispatch(&mut self, message: &DiscordMessage, ready: Option<Ready>)
        ensures
            match ready {
                Some(ready) => if message@.is_ready() {
                    &&& final(self).user == Some(ready.user)
                    &&& final(self).resume_info == Some(
                        ResumeInfo { url: ready.resume_gateway_url, id: ready.session_id },
                    )
                    &&& final(self).cache.users@ == old(self).cache.users@ + ready.cached_users@
                    &&& final(self).cache.guilds@ == old(self).cache.guilds@
                        + ready.cached_guilds@
                    &&& final(self).auth == old(self).auth
                } else {
                    *final(self) == *old(self)
                },
                None => *final(self) == *old(self),
            },
    {
        if message.is_ready() {
            match ready {
                Some(ready) => {
                    self.ready(ready);
                },
                None => {},
            }
        }
    }

    /// What [`Context::request`] answers for a way of calling, an endpoint
    /// and a body: where `Url::join` gives no address for the endpoint,
    /// [`Error::InvalidApiRequest`]; else, where the body cannot be written,
    /// [`Error::Unserializable`]; else the call to that address, with the
    /// token where one is set, and with the body as JSON text and the header
    /// that says so where there is a body.
    pub open spec fn answers(
        self,
        method: Method,
        endpoint: Seq<char>,
        body: Option<JsonValue>,
        r: Result<Request, Error>,
    ) -> bool {
        match url_joined(BASE_URL@, "/api/"@ + endpoint) {
            None => r is Err && r->Err_0 is InvalidApiRequest,
            Some(url) => if body is Some && json_printed(body->Some_0) is None {
                r is Err && r->Err_0 is Unserializable
            } else {
                &&& r is Ok
                &&& r->Ok_0.method == method
                &&& r->Ok_0.url@ == url
                &&& headers_view(r->Ok_0.headers@) == auth_headers(text_view(self.auth))
                    + body_headers(body)
                &&& text_view(r->Ok_0.body) == match body {
                    Some(body) => json_printed(body),
                    None => None,
                }
            },
        }
    }

    /// Puts a call to the API together: the address of the endpoint, the
    /// token where one is set, and the body as JSON text with the header
    /// that says so where there is a body.
    ///
    /// Fails with [`Error::InvalidApiRequest`] where the endpoint gives no
    /// address, and with [`Error::Unserializable`] where the body cannot be
    /// written.
    pub fn request(&self, method: Method, endpoint: &str, body: Option<Json>) -> (r: Result<
        Request,
        Error,
    >)
        ensures
            self.answers(method, endpoint@, json_view(body), r),
    {
        let path = join("/api/", endpoint);
        let url = match join_url(BASE_URL, path.as_str()) {
            Some(url) => url,
            None => {
                return Err(Error::InvalidApiRequest(String::from_str("endpoint is no address")));
            },
        };
        let mut headers: Vec<(String, String)> = Vec::new();
        match &self.auth {
            Some(token) => {
                headers.push((String::from_str("Authorization"), token.clone()));
            },
            None => {},
        }
        assert(headers_view(headers@) =~= auth_headers(text_view(self.auth)));
        let text = match &body {
            Some(json) => match json.to_text() {
                Some(text) => {
                    headers.push(
                        (String::from_str("Content-Type"), String::from_str("application/json")),
                    );
                    Some(text)
                },
                None => {
                    return Err(Error::Unserializable);
                },
            },
            None => None,
        };
        assert(headers_view(headers@) =~= auth_headers(text_view(self.auth)) + body_headers(
            json_view(body),
        ));
        Ok(Request { method, url, headers, body: text })
    }
}

impl Response {
    /// Reads the answer of the API: the status, and the body as JSON,
    /// `null` where the body is no JSON.
    pub fn new(status: u16, text: &str) -> (r: Self)
        ensures
            r.status == status,
            r.content@ == match json_parsed(text@) {
                Some(json) => json,
                None => JsonValue::Null,
            },
    {
        let content = match Json::parse(text) {
            Some(json) => json,
            None => Json::Null,
        };
        Response { status, content }
    }
}

} // verus!
