//! Secrets: what a read is answered with, and what a write is answered with
//! once its body has been seen.

use vstd::prelude::*;
use vstd::string::StringExecFns;
use crate::handlers::{challenge_reply, default_host, default_host_name, secret_reply};
use crate::handlers::{Reply, ReplyView, UnauthorizedError};
use crate::interpreter::{interpretation, MockServiceSecret};
use crate::routes::{get, put, Action, Route, RouteMethod, Verb};

verus! {

/// The metadata of a secret. `exp` and `nbf` are -1 where no time is set.
#[derive(Clone, Debug, PartialEq, Eq)]
pub struct SecretAttributes {
    pub id: String,
    pub enabled: bool,
    pub exp: i32,
    pub nbf: i32,
}

/// A secret as the service's clients expect it. The value is always there,
/// if only as the empty string. A tag is a name with its value.
#[derive(Clone, Debug, PartialEq, Eq)]
pub struct Secret {
    pub id: Option<String>,
    pub value: String,
    pub content_type: Option<String>,
    pub attributes: Option<SecretAttributes>,
    pub tags: Option<Vec<(String, String)>>,
}

/// A request on a secret, as read off the wire.
#[derive(Clone, Debug, PartialEq, Eq)]
pub struct SecretRequest {
    pub name: String,
    pub version: Option<String>,
    pub raw_body: Option<Vec<u8>>,
}

/// What the challenge protocol makes of a request that should carry a body.
#[derive(Clone, Debug, PartialEq, Eq)]
pub enum AuthDecision {
    /// The body was there and had the shape of a secret.
    Proceed(Secret),
    /// The client has to be sent for a token.
    ChallengeRequired,
}

/// A secret's metadata, as plain values.
pub struct SecretAttributesView {
    pub id: Seq<char>,
    pub enabled: bool,
    pub exp: int,
    pub nbf: int,
}

/// A secret, as plain values.
pub struct SecretView {
    pub id: Option<Seq<char>>,
    pub value: Seq<char>,
    pub content_type: Option<Seq<char>>,
    pub attributes: Option<SecretAttributesView>,
    pub tags: Option<Seq<(Seq<char>, Seq<char>)>>,
}

/// The characters of a text that may be absent.
pub open spec fn text_of(text: Option<String>) -> Option<Seq<char>> {
    match text {
        Some(t) => Some(t@),
        None => None,
    }
}

impl View for SecretAttributes {
    type V = SecretAttributesView;

    open spec fn view(&self) -> SecretAttributesView {
        SecretAttributesView {
            id: self.id@,
            enabled: self.enabled,
            exp: self.exp as int,
            nbf: self.nbf as int,
        }
    }
}

impl View for Secret {
    type V = SecretView;

    open spec fn view(&self) -> SecretView {
        SecretView {
            id: text_of(self.id),
            value: self.value@,
            content_type: text_of(self.content_type),
            attributes: match self.attributes {
                Some(a) => Some(a@),
                None => None,
            },
            tags: match self.tags {
                Some(t) => Some(
                    Seq::new(t@.len(), |i: int| (t@[i].0@, t@[i].1@)),
                ),
                None => None,
            },
        }
    }
}

/// The metadata that every answer carries, but for its id: enabled, and no
/// time set.
pub open spec fn attributes_with(id: Seq<char>) -> SecretAttributesView {
    SecretAttributesView { id, enabled: true, exp: -1, nbf: -1 }
}

/// The fixed secret that a read is answered with where names are not
/// interpreted.
pub open spec fn canned_secret() -> SecretView {
    SecretView {
        id: Some("test-id"@),
        value: "test-secret"@,
        content_type: Some("test.secret/string"@),
        attributes: Some(attributes_with(Seq::empty())),
        tags: Some(Seq::empty()),
    }
}

/// The secret that a read of `name` is answered with where names are
/// interpreted: its value follows from the name, and it has no tags.
pub open spec fn interpreted_secret(name: Seq<char>) -> SecretView {
    SecretView {
        id: Some("test-id"@),
        value: interpretation(name),
        content_type: Some("text/string"@),
        attributes: Some(attributes_with(Seq::empty())),
        tags: None,
    }
}

/// The address under which a written secret is said to be kept.
pub open spec fn secret_url(host: Seq<char>) -> Seq<char> {
    "https://"@ + host + "/secrets/test-secret/test-version"@
}

/// The secret that a write is answered with. Nothing of what was written is
/// in it.
pub open spec fn acknowledgment(host: Seq<char>) -> SecretView {
    SecretView {
        id: Some(secret_url(host)),
        value: "test-secret"@,
        content_type: Some("test.secret/string"@),
        attributes: Some(attributes_with(secret_url(host))),
        tags: Some(Seq::empty()),
    }
}

/// What a read is answered with: the interpreted secret where names are
/// interpreted and the request has a name, the fixed one otherwise.
pub open spec fn read_answer(interprets: bool, name: Option<Seq<char>>) -> SecretView {
    if interprets && name is Some {
        interpreted_secret(name->0)
    } else {
        canned_secret()
    }
}

/// Whether a body came with the request and holds at least one byte.
pub open spec fn carries_body(raw_body: Option<Seq<u8>>) -> bool {
    raw_body is Some && raw_body->0.len() > 0
}

/// What a write is answered with: the acknowledgment where a body came and
/// had the shape of a secret, the challenge otherwise.
pub open spec fn write_answer(carries_body: bool, parsed: bool, host: Seq<char>) -> ReplyView {
    if carries_body && parsed {
        secret_reply(acknowledgment(host))
    } else {
        challenge_reply(host)
    }
}

/// The metadata that every answer carries, with the given id.
pub fn attributes(id: String) -> (a: SecretAttributes)
    ensures
        a@ == attributes_with(id@),
{
    SecretAttributes { id, enabled: true, exp: -1, nbf: -1 }
}

/// An empty set of tags.
pub fn no_tags() -> (tags: Vec<(String, String)>)
    ensures
        tags@.len() == 0,
{
    Vec::new()
}

/// The address under which a written secret is said to be kept.
pub fn url_of_written_secret(host: &str) -> (url: String)
    ensures
        url@ == secret_url(host@),
{
    let mut url = String::from_str("https://");
    url.append(host);
    url.append("/secrets/test-secret/test-version");
    url
}

/// Answers a read where names are interpreted. The version is taken and
/// has no part in the answer.
pub fn get_secret_and_interpret(secretname: &str, version: Option<&str>) -> (secret: Secret)
    ensures
        secret@ == interpreted_secret(secretname@),
{
    let secret_value = MockServiceSecret::interpret(secretname);
    Secret {
        id: Some(String::from_str("test-id")),
        value: secret_value,
        content_type: Some(String::from_str("text/string")),
        attributes: Some(attributes(String::new())),
        tags: None,
    }
}

/// Answers a read with the fixed secret: enough to show that the service
/// can be reached.
pub fn get_secret_test() -> (secret: Secret)
    ensures
        secret@ == canned_secret(),
{
    let secret = Secret {
        id: Some(String::from_str("test-id")),
        value: String::from_str("test-secret"),
        content_type: Some(String::from_str("test.secret/string")),
        attributes: Some(attributes(String::new())),
        tags: Some(no_tags()),
    };
    assert(secret@.tags->0 =~= Seq::empty());
    secret
}

/// Acknowledges a write for a service that is reached at `host`. What was
/// written is not kept and not handed back.
pub fn acknowledge(secret: Secret, host: &str) -> (answer: Secret)
    ensures
        answer@ == acknowledgment(host@),
{
    let answer = Secret {
        id: Some(url_of_written_secret(host)),
        value: String::from_str("test-secret"),
        content_type: Some(String::from_str("test.secret/string")),
        attributes: Some(attributes(url_of_written_secret(host))),
        tags: Some(no_tags()),
    };
    assert(answer@.tags->0 =~= Seq::empty());
    answer
}

/// Acknowledges a write, for the service at its usual address.
pub fn put_secret_test(secret: Secret) -> (answer: Secret)
    ensures
        answer@ == acknowledgment(default_host()),
{
    acknowledge(secret, default_host_name())
}

impl SecretRequest {
    /// The body as plain values.
    pub open spec fn body(&self) -> Option<Seq<u8>> {
        match self.raw_body {
            Some(b) => Some(b@),
            None => None,
        }
    }

    /// Whether a body came with the request and holds at least one byte.
    /// Only such a body is worth parsing.
    pub fn has_body(&self) -> (yes: bool)
        ensures
            yes == carries_body(self.body()),
    {
        match &self.raw_body {
            Some(b) => b.len() > 0,
            None => false,
        }
    }
}

impl AuthDecision {
    /// Decides on a request that should carry a body. `parsed` is what the
    /// body was read as, if it could be read as a secret. Without a body,
    /// with an empty one, or with one that is no secret, the client is
    /// challenged; no difference is made between the three.
    pub fn decide(request: &SecretRequest, parsed: Option<Secret>) -> (decision: AuthDecision)
        ensures
            carries_body(request.body()) && parsed is Some ==> decision == AuthDecision::Proceed(
                parsed->0,
            ),
            !(carries_body(request.body()) && parsed is Some) ==> decision
                == AuthDecision::ChallengeRequired,
    {
        if !request.has_body() {
            return AuthDecision::ChallengeRequired;
        }
        match parsed {
            Some(secret) => AuthDecision::Proceed(secret),
            None => AuthDecision::ChallengeRequired,
        }
    }
}

impl Secret {
    /// The secret that a request carries, or the refusal that opens the
    /// handshake where it carries none.
    pub fn from_request(request: &SecretRequest, parsed: Option<Secret>) -> (r: Result<
        Secret,
        UnauthorizedError,
    >)
        ensures
            carries_body(request.body()) && parsed is Some ==> r == Ok::<Secret, UnauthorizedError>(
                parsed->0,
            ),
            !(carries_body(request.body()) && parsed is Some) ==> r is Err,
    {
        match AuthDecision::decide(request, parsed) {
            AuthDecision::Proceed(secret) => Ok(secret),
            AuthDecision::ChallengeRequired => Err(UnauthorizedError),
        }
    }
}

/// Adds the routes of the secrets to a table of routes, and answers the
/// requests that come in on them.
#[derive(Clone, Copy, Debug, PartialEq, Eq)]
pub struct Handler {
    enable_secret_interpreter: bool,
}

impl Handler {
    /// Whether reads are answered by the name of the secret.
    pub closed spec fn interprets(&self) -> bool {
        self.enable_secret_interpreter
    }

    /// A handler that interprets the names of secrets, or not.
    pub fn new(interpret_secret_names: bool) -> (handler: Handler)
        ensures
            handler.interprets() == interpret_secret_names,
    {
        Handler { enable_secret_interpreter: interpret_secret_names }
    }

    /// Whether reads are answered by the name of the secret.
    pub fn interprets_names(&self) -> (yes: bool)
        ensures
            yes == self.interprets(),
    {
        self.enable_secret_interpreter
    }

    /// What stands behind a read.
    pub open spec fn spec_get(&self) -> RouteMethod {
        RouteMethod {
            verb: Verb::Get,
            action: if self.interprets() {
                Action::ReadInterpreted
            } else {
                Action::ReadCanned
            },
        }
    }

    /// What stands behind a write.
    pub open spec fn spec_put(&self) -> RouteMethod {
        RouteMethod { verb: Verb::Put, action: Action::Write }
    }

    /// The lines that `install` adds, in their order.
    pub open spec fn routes(&self) -> Seq<(Seq<char>, RouteMethod)> {
        seq![
            ("/secrets"@, self.spec_get()),
            ("/secrets/:secretname/"@, self.spec_get()),
            ("/secrets/:secretname/:version"@, self.spec_get()),
            ("/secrets/:secretname"@, self.spec_put()),
        ]
    }

    /// The table with the routes of the secrets added at its end.
    pub fn install(&self, route: Route) -> (r: Route)
        ensures
            r@ == route@ + self.routes(),
    {
        let r = route.at("/secrets", self.get()).at("/secrets/:secretname/", self.get()).at(
            "/secrets/:secretname/:version",
            self.get(),
        ).at("/secrets/:secretname", self.put());
        assert(r@ =~= route@ + self.routes());
        r
    }

    /// What stands behind a read.
    pub fn get(&self) -> (m: RouteMethod)
        ensures
            m == self.spec_get(),
    {
        if self.enable_secret_interpreter {
            get(Action::ReadInterpreted)
        } else {
            get(Action::ReadCanned)
        }
    }

    /// What stands behind a write.
    pub fn put(&self) -> (m: RouteMethod)
        ensures
            m == self.spec_put(),
    {
        put(Action::Write)
    }

    /// Answers a read. A request without a name gets the fixed secret.
    pub fn read(&self, secretname: Option<&str>, version: Option<&str>) -> (secret: Secret)
        ensures
            secret@ == read_answer(
                self.interprets(),
                match secretname {
                    Some(n) => Some(n@),
                    None => None,
                },
            ),
    {
        match secretname {
            Some(name) => {
                if self.enable_secret_interpreter {
                    get_secret_and_interpret(name, version)
                } else {
                    get_secret_test()
                }
            },
            None => get_secret_test(),
        }
    }

    /// The whole answer to a read: always a success.
    pub fn answer_read(&self, secretname: Option<&str>, version: Option<&str>) -> (r: Reply)
        ensures
            r@ == secret_reply(
                read_answer(
                    self.interprets(),
                    match secretname {
                        Some(n) => Some(n@),
                        None => None,
                    },
                ),
            ),
    {
        Reply::json(self.read(secretname, version))
    }

    /// The whole answer to a write, for a service that is reached at `host`.
    /// `parsed` is what the body was read as, if it could be read as a
    /// secret.
    pub fn answer_write(&self, request: &SecretRequest, parsed: Option<Secret>, host: &str) -> (r:
        Reply)
        ensures
            r@ == write_answer(carries_body(request.body()), parsed is Some, host@),
    {
        match Secret::from_request(request, parsed) {
            Ok(secret) => Reply::json(acknowledge(secret, host)),
            Err(error) => Reply::unauthorized(error, host),
        }
    }
}

} // verus!
