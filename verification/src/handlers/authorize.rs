//! The token endpoint: whoever asks is given the same token.

use vstd::prelude::*;
use crate::handlers::{text_reply, Reply};
use crate::routes::{get, Action, Route, RouteMethod, Verb};

verus! {

/// Adds the token endpoint to a table of routes.
#[derive(Clone, Copy, Debug, PartialEq, Eq, Structural)]
pub struct Handler;

/// The path of the token endpoint.
pub open spec fn authorize_path() -> Seq<char> {
    "/authorize"@
}

/// The token that is handed out.
pub open spec fn token() -> Seq<char> {
    "ok"@
}

impl Handler {
    /// The table with the token endpoint added at its end.
    pub fn install(&self, route: Route) -> (r: Route)
        ensures
            r@ == route@.push((authorize_path(), self.spec_get())),
    {
        route.at("/authorize", self.get())
    }

    /// What stands behind the token endpoint.
    pub open spec fn spec_get(&self) -> RouteMethod {
        RouteMethod { verb: Verb::Get, action: Action::Token }
    }

    /// What stands behind the token endpoint.
    pub fn get(&self) -> (m: RouteMethod)
        ensures
            m == self.spec_get(),
    {
        get(Action::Token)
    }

    /// The whole answer of the token endpoint. It looks at nothing of the
    /// request: no body and no header is asked for.
    pub fn answer(&self) -> (r: Reply)
        ensures
            r@ == text_reply(token()),
    {
        Reply::text(get_token_test())
    }
}

/// The token, the same for every caller.
pub fn get_token_test() -> (body: &'static str)
    ensures
        body@ == token(),
{
    "ok"
}

} // verus!
