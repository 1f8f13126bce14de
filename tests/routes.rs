use fateloom::config::{HTTPConfig, ProxyConfig};

fn http(base: &str) -> HTTPConfig {
    HTTPConfig { base_path: base.to_string(), dist_path: "dist".to_string() }
}

#[test]
fn http_routes_add_one_slash() {
    assert_eq!(http("/web").index_route(), "/web/index.html");
    assert_eq!(http("/web/").index_route(), "/web/index.html");
    assert_eq!(http("/web").files_route(), "/web/*path");
    assert_eq!(http("").files_route(), "/*path");
}

#[test]
fn relative_path_strips_base_and_slashes() {
    let c = http("/web");
    assert_eq!(c.relative_path("/web/js/app.js"), "js/app.js");
    assert_eq!(c.relative_path("/web/web//a"), "a");
    assert_eq!(c.relative_path("/other/a"), "other/a");
    assert_eq!(c.file_path("js/app.js"), "dist/js/app.js");
}

#[test]
fn proxy_route_and_target() {
    let c = ProxyConfig { base_path: "/api".to_string(), forward_to: "http://127.0.0.1:9000".to_string() };
    assert_eq!(c.route(), "/api/*path");
    assert_eq!(c.target_uri("/api/users?id=3"), "http://127.0.0.1:9000/users?id=3");
    assert_eq!(c.target_uri("/x"), "http://127.0.0.1:9000/x");
    let slash = ProxyConfig { base_path: "/api/".to_string(), forward_to: "http://h".to_string() };
    assert_eq!(slash.route(), "/api/*path");
}
