use include_dir::{Dir, DirEntry, File};
use rustchatui::{
    build_config, plan_startup, AppConfig, AssetBundle, Body, CorsPolicy, EndpointChoice, FrontDoor,
    Ipv4Host, Resolved, Response,
};

fn config() -> AppConfig {
    build_config(&EndpointChoice::Loopback { port: 8080 }, Some("k".to_string()))
}

fn asset_bytes(response: &Response<'_>) -> Option<Vec<u8>> {
    match &response.body {
        Body::Asset(bytes) => Some(bytes.to_vec()),
        _ => None,
    }
}

fn text(response: &Response<'_>) -> Option<String> {
    match &response.body {
        Body::Text(text) => Some(text.clone()),
        _ => None,
    }
}

#[test]
fn scenario_two_file_bundle() {
    let files = [
        DirEntry::File(File::new("index.html", b"<html>Hi</html>")),
        DirEntry::File(File::new("app.js", b"console.log(1)")),
    ];
    let door = FrontDoor::new(config(), AssetBundle::new(Dir::new("", &files)));

    let root = door.respond("/");
    assert_eq!(root.status, 200);
    assert_eq!(asset_bytes(&root), Some(b"<html>Hi</html>".to_vec()));
    assert_eq!(root.content_type, "text/html");

    let script = door.respond("/app.js");
    assert_eq!(script.status, 200);
    assert_eq!(asset_bytes(&script), Some(b"console.log(1)".to_vec()));
    assert!(script.content_type.contains("javascript"));

    let missing = door.respond("/missing.css");
    assert_eq!(missing.status, 404);
    assert_eq!(text(&missing), Some("Not Found".to_string()));
    assert!(missing.content_type.starts_with("text/plain"));
}

#[test]
fn config_route_serves_the_configuration() {
    let door = FrontDoor::new(config(), AssetBundle::new(Dir::new("", &[])));
    let response = door.respond("/app-config.json");
    assert_eq!(response.status, 200);
    assert_eq!(response.content_type, "application/json");
    match response.body {
        Body::Config(served) => {
            assert_eq!(served.server_url, "http://localhost:8080/v1/");
            assert_eq!(served.api_key, "k");
        },
        _ => panic!("the configuration path serves the configuration"),
    }
}

#[test]
fn config_route_comes_before_a_bundled_file_of_that_name() {
    let files = [DirEntry::File(File::new("app-config.json", b"{\"bundled\":true}"))];
    let door = FrontDoor::new(config(), AssetBundle::new(Dir::new("", &files)));
    let response = door.respond("/app-config.json");
    assert_eq!(response.status, 200);
    assert!(matches!(response.body, Body::Config(_)));
    assert_eq!(response.content_type, "application/json");
    assert!(matches!(door.bundle.resolve("app-config.json"), Resolved::Found { .. }));
}

#[test]
fn only_the_exact_config_path_is_the_config_route() {
    let files = [DirEntry::File(File::new("app-config.json", b"{\"bundled\":true}"))];
    let door = FrontDoor::new(config(), AssetBundle::new(Dir::new("", &files)));
    let doubled = door.respond("//app-config.json");
    assert_eq!(doubled.status, 200);
    assert_eq!(asset_bytes(&doubled), Some(b"{\"bundled\":true}".to_vec()));
    let bare = door.respond("app-config.json");
    assert_eq!(asset_bytes(&bare), Some(b"{\"bundled\":true}".to_vec()));
    let upper = door.respond("/APP-CONFIG.JSON");
    assert_eq!(upper.status, 404);
    let nested = door.respond("/app-config.json/");
    assert_eq!(nested.status, 404);
}

#[test]
fn every_response_allows_any_origin() {
    let files = [DirEntry::File(File::new("index.html", b"<html>Hi</html>"))];
    let door = FrontDoor::new(config(), AssetBundle::new(Dir::new("", &files)));
    for path in ["/", "/index.html", "/app-config.json", "/missing", "", "/../x", "/a/b/c.png"] {
        assert_eq!(door.respond(path).allow_origin, "*");
    }
}

#[test]
fn not_found_response_is_plain_text() {
    let response = Response::for_asset(Resolved::NotFound);
    assert_eq!(response.status, 404);
    assert_eq!(response.content_type, "text/plain; charset=utf-8");
    assert_eq!(response.allow_origin, "*");
    assert_eq!(text(&response), Some("Not Found".to_string()));
}

#[test]
fn found_response_carries_payload_and_media_type() {
    let payload = [1u8, 2, 3];
    let response =
        Response::for_asset(Resolved::Found { payload: &payload, content_type: "image/png".to_string() });
    assert_eq!(response.status, 200);
    assert_eq!(response.content_type, "image/png");
    assert_eq!(response.allow_origin, "*");
    assert_eq!(asset_bytes(&response), Some(vec![1u8, 2, 3]));
}

#[test]
fn config_response_borrows_the_configuration() {
    let config = AppConfig { server_url: "http://x/v1/".to_string(), api_key: String::new() };
    let response = Response::for_config(&config);
    assert_eq!(response.status, 200);
    assert_eq!(response.content_type, "application/json");
    assert_eq!(response.allow_origin, "*");
    match response.body {
        Body::Config(served) => assert_eq!(served, &config),
        _ => panic!("the configuration response holds the configuration"),
    }
}

#[test]
fn plan_startup_for_a_local_endpoint() {
    let startup = plan_startup(
        3000,
        &EndpointChoice::Loopback { port: 8080 },
        Some("k".to_string()),
        Some(Ipv4Host::new(192, 168, 1, 5)),
    );
    assert_eq!(startup.bind_address, "0.0.0.0:3000");
    assert_eq!(startup.announced_url, "http://localhost:3000");
    assert!(startup.local_only);
    assert_eq!(startup.config.server_url, "http://localhost:8080/v1/");
    assert_eq!(startup.config.api_key, "k");
    assert_eq!(startup.cors, CorsPolicy { any_origin: true, any_method: true, any_header: true });
}

#[test]
fn plan_startup_for_a_lan_endpoint() {
    let host = Ipv4Host::new(192, 168, 1, 5);
    let startup =
        plan_startup(8000, &EndpointChoice::LanVisible { host_ip: host, port: 8080 }, None, Some(host));
    assert_eq!(startup.bind_address, "0.0.0.0:8000");
    assert_eq!(startup.announced_url, "http://192.168.1.5:8000");
    assert!(!startup.local_only);
    assert_eq!(startup.config.server_url, "http://192.168.1.5:8080/v1/");
    assert_eq!(startup.config.api_key, "");
}

#[test]
fn plan_startup_for_a_fixed_endpoint_without_lan_address() {
    let startup =
        plan_startup(65535, &EndpointChoice::Fixed { url: "http://x/v1/".to_string() }, None, None);
    assert_eq!(startup.bind_address, "0.0.0.0:65535");
    assert_eq!(startup.announced_url, "http://127.0.0.1:65535");
    assert!(!startup.local_only);
    assert_eq!(startup.config, AppConfig { server_url: "http://x/v1/".to_string(), api_key: String::new() });
}
