//! The table of routes: which path and verb lead to which behaviour.

use vstd::prelude::*;

verus! {

/// The verb of a request.
#[derive(Clone, Copy, Debug, PartialEq, Eq, Structural)]
pub enum Verb {
    Get,
    Put,
}

/// What a route leads to.
#[derive(Clone, Copy, Debug, PartialEq, Eq, Structural)]
pub enum Action {
    /// Hand out the fixed token.
    Token,
    /// Read a secret; the answer is the fixed one.
    ReadCanned,
    /// Read a secret; the answer follows from the secret's name.
    ReadInterpreted,
    /// Write a secret, after the challenge.
    Write,
}

/// A verb together with the behaviour that it leads to.
#[derive(Clone, Copy, Debug, PartialEq, Eq, Structural)]
pub struct RouteMethod {
    pub verb: Verb,
    pub action: Action,
}

/// One line of the table: a path pattern and what is behind it.
#[derive(Clone, Debug, PartialEq, Eq)]
pub struct RouteEntry {
    pub path: String,
    pub method: RouteMethod,
}

/// The table of routes, in the order of registration.
#[derive(Clone, Debug, PartialEq, Eq)]
pub struct Route {
    pub entries: Vec<RouteEntry>,
}

impl View for RouteEntry {
    type V = (Seq<char>, RouteMethod);

    open spec fn view(&self) -> (Seq<char>, RouteMethod) {
        (self.path@, self.method)
    }
}

impl View for Route {
    type V = Seq<(Seq<char>, RouteMethod)>;

    open spec fn view(&self) -> Seq<(Seq<char>, RouteMethod)> {
        Seq::new(self.entries@.len(), |i: int| self.entries@[i]@)
    }
}

/// A `GET` that leads to `action`.
pub fn get(action: Action) -> (m: RouteMethod)
    ensures
        m == (RouteMethod { verb: Verb::Get, action }),
{
    RouteMethod { verb: Verb::Get, action }
}

/// A `PUT` that leads to `action`.
pub fn put(action: Action) -> (m: RouteMethod)
    ensures
        m == (RouteMethod { verb: Verb::Put, action }),
{
    RouteMethod { verb: Verb::Put, action }
}

impl Route {
    /// The empty table.
    pub fn new() -> (r: Route)
        ensures
            r@ == Seq::<(Seq<char>, RouteMethod)>::empty(),
    {
        let r = Route { entries: Vec::new() };
        assert(r@ =~= Seq::<(Seq<char>, RouteMethod)>::empty());
        r
    }

    /// The table with one more line at its end.
    pub fn at(self, path: &str, method: RouteMethod) -> (r: Route)
        ensures
            r@ == self@.push((path@, method)),
    {
        let mut entries = self.entries;
        entries.push(RouteEntry { path: path.to_owned(), method });
        let r = Route { entries };
        assert(r@ =~= self@.push((path@, method)));
        r
    }
}

} // verus!
