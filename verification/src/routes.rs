//! The route table and the static composition of stages per route group.

use crate::machine::RouteGroup;
use crate::text::same_text;
use vstd::prelude::*;

verus! {

/// One stage of the pipeline.
#[derive(Debug, Clone, Copy, PartialEq, Eq, Structural)]
pub enum Stage {
    Logger,
    AuthGate,
    Handler,
}

/// The stages a request of a group runs through, outermost first: the
/// logger wraps everything, and only protected routes pass the auth gate.
pub open spec fn stage_order(group: RouteGroup) -> Seq<Stage> {
    match group {
        RouteGroup::Public => seq![Stage::Logger, Stage::Handler],
        RouteGroup::Protected => seq![Stage::Logger, Stage::AuthGate, Stage::Handler],
    }
}

/// Builds the chain of a route group.
pub fn compose(group: RouteGroup) -> (chain: Vec<Stage>)
    ensures
        chain@ == stage_order(group),
{
    let mut chain: Vec<Stage> = Vec::new();
    chain.push(Stage::Logger);
    match group {
        RouteGroup::Public => {},
        RouteGroup::Protected => {
            chain.push(Stage::AuthGate);
        },
    }
    chain.push(Stage::Handler);
    assert(chain@ =~= stage_order(group));
    chain
}

/// In every chain the logger is outermost and the handler innermost, no
/// stage occurs twice, and the auth gate stands in a chain exactly when the
/// group is protected, directly around the handler.
pub proof fn lemma_stage_order(group: RouteGroup)
    ensures
        stage_order(group).first() == Stage::Logger,
        stage_order(group).last() == Stage::Handler,
        stage_order(group).no_duplicates(),
        stage_order(group).contains(Stage::AuthGate) <==> group == RouteGroup::Protected,
        group == RouteGroup::Protected ==> stage_order(group)[1] == Stage::AuthGate
            && stage_order(group).len() == 3,
        group == RouteGroup::Public ==> stage_order(group).len() == 2,
{
    let s = stage_order(group);
    match group {
        RouteGroup::Public => {
            assert(s.len() == 2 && s[0] == Stage::Logger && s[1] == Stage::Handler);
            assert(!s.contains(Stage::AuthGate));
        },
        RouteGroup::Protected => {
            assert(s.len() == 3 && s[0] == Stage::Logger && s[1] == Stage::AuthGate && s[2]
                == Stage::Handler);
            assert(s.contains(Stage::AuthGate));
        },
    }
}

/// A request line that bypasses the auth gate.
#[derive(Debug, Clone, PartialEq, Eq)]
pub struct Route {
    pub method: String,
    pub path: String,
}

impl View for Route {
    type V = (Seq<char>, Seq<char>);

    open spec fn view(&self) -> (Seq<char>, Seq<char>) {
        (self.method@, self.path@)
    }
}

/// The routes that anyone may call. Every other route is protected.
#[derive(Debug, Clone, PartialEq, Eq)]
pub struct RouteTable {
    public: Vec<Route>,
}

/// Whether a table lists a request line.
pub open spec fn lists(routes: Seq<(Seq<char>, Seq<char>)>, method: Seq<char>, path: Seq<char>)
    -> bool {
    exists|i: int| 0 <= i < routes.len() && routes[i] == (method, path)
}

/// The group of a request line under a table of public routes.
pub open spec fn group_under(
    routes: Seq<(Seq<char>, Seq<char>)>,
    method: Seq<char>,
    path: Seq<char>,
) -> RouteGroup {
    if lists(routes, method, path) {
        RouteGroup::Public
    } else {
        RouteGroup::Protected
    }
}

/// The public routes of the catalog service: registration and login.
pub open spec fn catalog_routes() -> Seq<(Seq<char>, Seq<char>)> {
    seq![("POST"@, "/auth/register"@), ("POST"@, "/auth/login"@)]
}

impl View for RouteTable {
    type V = Seq<(Seq<char>, Seq<char>)>;

    closed spec fn view(&self) -> Seq<(Seq<char>, Seq<char>)> {
        Seq::new(self.public@.len(), |i: int| self.public@[i]@)
    }
}

impl RouteTable {
    /// A table with the given public routes.
    pub fn new(public: Vec<Route>) -> (table: RouteTable)
        ensures
            table@ == Seq::new(public@.len(), |i: int| public@[i]@),
    {
        RouteTable { public }
    }

    /// The table of the catalog service.
    pub fn catalog() -> (table: RouteTable)
        ensures
            table@ == catalog_routes(),
    {
        let mut public: Vec<Route> = Vec::new();
        public.push(Route { method: "POST".to_owned(), path: "/auth/register".to_owned() });
        public.push(Route { method: "POST".to_owned(), path: "/auth/login".to_owned() });
        let table = RouteTable { public };
        assert(table@ =~= catalog_routes());
        table
    }

    /// The group a request belongs to: public if the table lists its
    /// method and path, letter for letter, and protected otherwise.
    pub fn group_of(&self, method: &str, path: &str) -> (group: RouteGroup)
        ensures
            group == group_under(self@, method@, path@),
    {
        let n: usize = self.public.len();
        let mut i: usize = 0;
        while i < n
            invariant
                i <= n,
                n == self.public@.len(),
                forall|j: int| 0 <= j < i ==> self@[j] != (method@, path@),
            decreases n - i,
        {
            let route = &self.public[i];
            if same_text(route.method.as_str(), method) && same_text(route.path.as_str(), path) {
                assert(self@[i as int] == (method@, path@));
                return RouteGroup::Public;
            }
            i = i + 1;
        }
        RouteGroup::Protected
    }
}

/// In the catalog service registration and login, both by `POST`, are
/// the only public routes; every other request line is protected.
pub proof fn lemma_catalog_groups(method: Seq<char>, path: Seq<char>)
    ensures
        group_under(catalog_routes(), method, path) == RouteGroup::Public <==> (method == "POST"@
            && (path == "/auth/register"@ || path == "/auth/login"@)),
        group_under(catalog_routes(), method, path) == RouteGroup::Protected <==> !(method
            == "POST"@ && (path == "/auth/register"@ || path == "/auth/login"@)),
{
    let routes = catalog_routes();
    assert(routes.len() == 2);
    assert(routes[0] == ("POST"@, "/auth/register"@));
    assert(routes[1] == ("POST"@, "/auth/login"@));
}

} // verus!
