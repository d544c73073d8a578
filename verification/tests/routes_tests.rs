use iota_supply::routes::{match_route, RouteDecision};

#[test]
fn supply_routes_match() {
    assert_eq!(match_route("GET", "/supply/circulating"), RouteDecision::CirculatingSupply);
    assert_eq!(match_route("GET", "/supply/total"), RouteDecision::TotalSupply);
}

#[test]
fn unknown_paths_are_forbidden() {
    assert_eq!(match_route("GET", "/unknown"), RouteDecision::Forbidden);
    assert_eq!(match_route("GET", "/"), RouteDecision::Forbidden);
    assert_eq!(match_route("GET", ""), RouteDecision::Forbidden);
    assert_eq!(match_route("GET", "/supply"), RouteDecision::Forbidden);
    assert_eq!(match_route("GET", "/supply/circulating/"), RouteDecision::Forbidden);
}

#[test]
fn other_methods_are_forbidden() {
    assert_eq!(match_route("POST", "/supply/circulating"), RouteDecision::Forbidden);
    assert_eq!(match_route("DELETE", "/supply/total"), RouteDecision::Forbidden);
    assert_eq!(match_route("PUT", "/supply/total"), RouteDecision::Forbidden);
    assert_eq!(match_route("get", "/supply/circulating"), RouteDecision::Forbidden);
}
