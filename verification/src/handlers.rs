//! What the service answers: the challenge that sends a client for a token,
//! and the shape of a reply.

use vstd::prelude::*;
use vstd::string::StringExecFns;
use crate::handlers::secrets::{Secret, SecretView};

pub mod authorize;
pub mod secrets;

verus! {

/// The refusal that opens the handshake: the client is told where to fetch a
/// token and for which resource, and is expected to come back with a body.
#[derive(Clone, Copy, Debug, PartialEq, Eq, Structural)]
pub struct UnauthorizedError;

/// The value of the header that carries the challenge, for a service that is
/// reached at `host`.
pub open spec fn challenge(host: Seq<char>) -> Seq<char> {
    "Bearer authorization=\"https://"@ + host
        + "/authorize\", resource=\"https://vault.azure.net\""@
}

/// The host that the service names where it is given no other.
pub open spec fn default_host() -> Seq<char> {
    "localhost:8443"@
}

/// The host that the service names where it is given no other.
pub fn default_host_name() -> (host: &'static str)
    ensures
        host@ == default_host(),
{
    "localhost:8443"
}

impl UnauthorizedError {
    /// The status that this refusal is sent with.
    pub fn status(&self) -> (code: u16)
        ensures
            code == 401,
    {
        401
    }

    /// The refusal in words, as one line.
    pub fn message(&self) -> (text: String)
        ensures
            text@ == "unauthorized\n"@,
    {
        String::from_str("unauthorized\n")
    }

    /// The value of the `WWW-Authenticate` header that goes with this
    /// refusal.
    pub fn www_authenticate(&self, host: &str) -> (value: String)
        ensures
            value@ == challenge(host@),
    {
        let mut value = String::from_str("Bearer authorization=\"https://");
        value.append(host);
        value.append("/authorize\", resource=\"https://vault.azure.net\"");
        value
    }
}

/// The body of a reply.
#[derive(Clone, Debug, PartialEq, Eq)]
pub enum Payload {
    /// No body.
    Empty,
    /// A body of plain text.
    Text(String),
    /// A secret, to be written as a JSON object.
    Json(Secret),
}

/// What is sent back: the status, the challenge header if there is one, and
/// the body.
#[derive(Clone, Debug, PartialEq, Eq)]
pub struct Reply {
    pub status: u16,
    pub www_authenticate: Option<String>,
    pub payload: Payload,
}

/// A body, as plain values.
pub enum PayloadView {
    Empty,
    Text(Seq<char>),
    Json(SecretView),
}

/// A reply, as plain values.
pub struct ReplyView {
    pub status: int,
    pub www_authenticate: Option<Seq<char>>,
    pub payload: PayloadView,
}

impl View for Payload {
    type V = PayloadView;

    open spec fn view(&self) -> PayloadView {
        match self {
            Payload::Empty => PayloadView::Empty,
            Payload::Text(t) => PayloadView::Text(t@),
            Payload::Json(s) => PayloadView::Json(s@),
        }
    }
}

impl View for Reply {
    type V = ReplyView;

    open spec fn view(&self) -> ReplyView {
        ReplyView {
            status: self.status as int,
            www_authenticate: match self.www_authenticate {
                Some(v) => Some(v@),
                None => None,
            },
            payload: self.payload@,
        }
    }
}

/// The reply that carries the challenge: status 401, the header, no body.
pub open spec fn challenge_reply(host: Seq<char>) -> ReplyView {
    ReplyView {
        status: 401,
        www_authenticate: Some(challenge(host)),
        payload: PayloadView::Empty,
    }
}

/// The reply that carries a secret: status 200, no challenge.
pub open spec fn secret_reply(secret: SecretView) -> ReplyView {
    ReplyView { status: 200, www_authenticate: None, payload: PayloadView::Json(secret) }
}

/// The reply that carries plain text: status 200, no challenge.
pub open spec fn text_reply(text: Seq<char>) -> ReplyView {
    ReplyView { status: 200, www_authenticate: None, payload: PayloadView::Text(text) }
}

impl Reply {
    /// The reply to a request that was refused.
    pub fn unauthorized(error: UnauthorizedError, host: &str) -> (r: Reply)
        ensures
            r@ == challenge_reply(host@),
    {
        Reply {
            status: error.status(),
            www_authenticate: Some(error.www_authenticate(host)),
            payload: Payload::Empty,
        }
    }

    /// The reply that hands out `secret`.
    pub fn json(secret: Secret) -> (r: Reply)
        ensures
            r@ == secret_reply(secret@),
    {
        Reply { status: 200, www_authenticate: None, payload: Payload::Json(secret) }
    }

    /// The reply that hands out `text`.
    pub fn text(text: &str) -> (r: Reply)
        ensures
            r@ == text_reply(text@),
    {
        Reply { status: 200, www_authenticate: None, payload: Payload::Text(text.to_owned()) }
    }
}

} // verus!
