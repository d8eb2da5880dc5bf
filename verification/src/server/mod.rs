//! What the service answers: the envelope of every reply, the status that goes
//! with it, and the use cases behind the endpoints.

use vstd::prelude::*;
use vstd::string::StringExecFns;
use crate::server::bearer::{trim, trimmed};

pub mod ser_local_peer_uuid;
pub mod user;
pub mod manage;
pub mod address_book;
pub mod bearer;
pub mod guard;
pub mod jwt;
pub mod payload;

verus! {

/// The status that accompanies a reply.
#[derive(Clone, Copy, Debug, PartialEq, Eq, Structural)]
pub enum StatusCode {
    Success,
    BadRequest,
    Unauthorized,
    NotFound,
    InternalServerError,
}

impl StatusCode {
    /// The number of the status.
    pub open spec fn as_u16_spec(self) -> u16 {
        match self {
            StatusCode::Success => 200,
            StatusCode::BadRequest => 400,
            StatusCode::Unauthorized => 401,
            StatusCode::NotFound => 404,
            StatusCode::InternalServerError => 500,
        }
    }

    /// The number of the status: 200, 400, 401, 404 or 500.
    pub fn as_u16(self) -> (r: u16)
        ensures
            r == self.as_u16_spec(),
    {
        match self {
            StatusCode::Success => 200,
            StatusCode::BadRequest => 400,
            StatusCode::Unauthorized => 401,
            StatusCode::NotFound => 404,
            StatusCode::InternalServerError => 500,
        }
    }
}

/// The envelope of every reply: a message where the request failed, the data
/// where it succeeded, never both.
#[derive(Clone, Debug, PartialEq, Eq)]
pub struct Response<T> {
    pub error: Option<String>,
    pub data: Option<T>,
}

impl<T> Response<T> {
    /// Whether the reply carries this message and no data.
    pub open spec fn fails_with(self, message: Seq<char>) -> bool {
        &&& self.data is None
        &&& self.error matches Some(e)
        &&& e@ == message
    }

    /// The reply to a request that succeeded.
    pub fn ok(data: T) -> (r: Self)
        ensures
            r.error is None,
            r.data == Some(data),
    {
        Response { error: None, data: Some(data) }
    }

    /// The reply to a request that failed.
    pub fn error(error: &str) -> (r: Self)
        ensures
            r.fails_with(error@),
    {
        Response { error: Some(String::from_str(error)), data: None }
    }

    /// The reply that carries neither a message nor data.
    pub fn empty() -> (r: Self)
        ensures
            r.error is None,
            r.data is None,
    {
        Response { error: None, data: None }
    }
}

/// A file that clients may fetch, and where.
#[derive(Clone, Debug, PartialEq, Eq)]
pub struct DownloadInfo {
    pub name: String,
    pub url: String,
}

impl DownloadInfo {
    /// The entry for the file of that name: it is served under `/download/`.
    pub fn new(name: String) -> (r: DownloadInfo)
        ensures
            r.name@ == name@,
            r.url@ == "/download/"@ + name@,
    {
        let mut url = String::from_str("/download/");
        url.append(name.as_str());
        DownloadInfo { name: name, url: url }
    }
}

/// The port on which the relay listens unless told otherwise.
pub const RELAY_PORT: u16 = 21117;

/// The port on which this service listens unless told otherwise.
pub const API_PORT: u16 = 21114;

/// A host and a port.
#[derive(Clone, Debug, PartialEq, Eq)]
pub struct Endpoint {
    pub host: String,
    pub port: u16,
}

/// Where clients find the servers, and the key they check them with.
#[derive(Clone, Debug, PartialEq, Eq)]
pub struct ServerAddress {
    pub id_server: Endpoint,
    pub reply_server: Endpoint,
    pub api_server: Endpoint,
    pub pubkey: String,
}

impl ServerAddress {
    /// The key that a key file holds: its contents without the white space
    /// at their start and at their end.
    pub fn key_from_file(contents: &str) -> (r: String)
        ensures
            r@ == trimmed(contents@),
    {
        trim(contents).to_owned()
    }

    /// The addresses to publish. A server that is not named is taken to run on
    /// the host of the identity server, on its usual port. The key is
    /// published as it is given.
    pub fn new(
        id_server: Endpoint,
        reply_server: Option<Endpoint>,
        api_server: Option<Endpoint>,
        pubkey: String,
    ) -> (r: ServerAddress)
        ensures
            r.id_server.host@ == id_server.host@,
            r.id_server.port == id_server.port,
            match reply_server {
                Some(e) => r.reply_server.host@ == e.host@ && r.reply_server.port == e.port,
                None => r.reply_server.host@ == id_server.host@ && r.reply_server.port
                    == RELAY_PORT,
            },
            match api_server {
                Some(e) => r.api_server.host@ == e.host@ && r.api_server.port == e.port,
                None => r.api_server.host@ == id_server.host@ && r.api_server.port == API_PORT,
            },
            r.pubkey@ == pubkey@,
    {
        let relay = match reply_server {
            Some(e) => e,
            None => Endpoint { host: id_server.host.clone(), port: RELAY_PORT },
        };
        let api = match api_server {
            Some(e) => e,
            None => Endpoint { host: id_server.host.clone(), port: API_PORT },
        };
        ServerAddress {
            id_server: id_server,
            reply_server: relay,
            api_server: api,
            pubkey: pubkey,
        }
    }
}

} // verus!
