use iota_supply::cors::CorsPolicy;

#[test]
fn cors_allows_any_origin() {
    let c = CorsPolicy::permissive_read_only();
    assert_eq!(c.allow_origin, "*");
}

#[test]
fn cors_restricts_methods_to_get() {
    let c = CorsPolicy::permissive_read_only();
    assert_eq!(c.allow_methods, "GET");
}

#[test]
fn cors_allows_any_header() {
    let c = CorsPolicy::permissive_read_only();
    assert_eq!(c.allow_headers, "*");
}
