//! Route matching: the two supply endpoints and the catch-all decision.
//!
//! Any request that matches no defined route is deliberately answered
//! "forbidden" rather than "not found"; the decision here is a total
//! function of the request's method and path.

use vstd::prelude::*;

verus! {

/// Where a request is routed.
#[derive(Clone, Copy, Debug, PartialEq, Eq, Structural)]
pub enum RouteDecision {
    /// `GET /supply/circulating`.
    CirculatingSupply,
    /// `GET /supply/total`.
    TotalSupply,
    /// Everything else.
    Forbidden,
}

/// The routing decision for a request, as a function of its method and path.
pub open spec fn route_of(method: Seq<char>, path: Seq<char>) -> RouteDecision {
    if method == "GET"@ && path == "/supply/circulating"@ {
        RouteDecision::CirculatingSupply
    } else if method == "GET"@ && path == "/supply/total"@ {
        RouteDecision::TotalSupply
    } else {
        RouteDecision::Forbidden
    }
}

/// String slice equality by contents.
fn str_eq(a: &str, b: &str) -> (r: bool)
    ensures
        r == (a@ == b@),
{
    let x = a.to_owned();
    let y = b.to_owned();
    x == y
}

/// Decides where a request goes from its method and path alone.
pub fn match_route(method: &str, path: &str) -> (d: RouteDecision)
    ensures
        d == route_of(method@, path@),
{
    if str_eq(method, "GET") {
        if str_eq(path, "/supply/circulating") {
            RouteDecision::CirculatingSupply
        } else if str_eq(path, "/supply/total") {
            RouteDecision::TotalSupply
        } else {
            RouteDecision::Forbidden
        }
    } else {
        RouteDecision::Forbidden
    }
}

/// Every method/path pair other than exactly `GET` on one of the two
/// supply routes is decided `Forbidden`.
pub proof fn lemma_unmatched_is_forbidden(method: Seq<char>, path: Seq<char>)
    requires
        !(method == "GET"@ && (path == "/supply/circulating"@ || path == "/supply/total"@)),
    ensures
        route_of(method, path) == RouteDecision::Forbidden,
{
}

} // verus!
