use roselite::gateway::UniversalGateway;
use roselite::local::LocalRegistry;
use roselite::types::{parse_veil_uri, AppId, AppInfo, Timestamp, VeilUri};

#[test]
fn test_parse_veil_uri() {
    let uri = parse_veil_uri("veil://app/my-app/1.0.0").unwrap();
    assert_eq!(uri.app_id.0, "my-app");
    assert_eq!(uri.version, Some("1.0.0".to_string()));
    let uri = parse_veil_uri("veil://app/my-app").unwrap();
    assert_eq!(uri.app_id.0, "my-app");
    assert_eq!(uri.version, None);
    assert!(parse_veil_uri("http://app/my-app").is_err());
    assert!(parse_veil_uri("veil://invalid/format").is_err());
}

#[test]
fn triple_slash_form_parses_and_round_trips() {
    let uri = VeilUri::new(AppId("VLD0:abc".to_string()), Some("2.1".to_string()));
    let text = uri.to_uri_string();
    assert_eq!(text, "veil:///app/VLD0:abc/2.1");
    let back = parse_veil_uri(&text).unwrap();
    assert_eq!(back, uri);
    let latest = VeilUri::new(AppId("k".to_string()), None);
    assert_eq!(latest.to_uri_string(), "veil:///app/k");
    assert!(parse_veil_uri("not a url").is_err());
    assert!(parse_veil_uri("veil:///app").is_err());
}

fn info() -> AppInfo {
    AppInfo {
        id: AppId("test-app".to_string()),
        name: "Test App".to_string(),
        slug: "test-app".to_string(),
        version: "1.0.0".to_string(),
        description: "A test application".to_string(),
        developer: "Test Developer".to_string(),
        category: "test".to_string(),
        size_bytes: 1024,
        created_at: Timestamp { secs: 0, nanos: 0 },
        updated_at: Timestamp { secs: 0, nanos: 0 },
        tags: vec!["test".to_string()],
        entry_point: "index.html".to_string(),
        veilid_identity: None,
        signature: None,
        chunk_count: 0,
    }
}

#[test]
fn app_info_locators_and_urls() {
    let app = info();
    let uri = app.uri();
    assert_eq!(uri.app_id.0, "test-app");
    assert_eq!(uri.version, Some("1.0.0".to_string()));
    assert_eq!(app.uri_latest().version, None);
    assert_eq!(app.access_url(), "https://www.roselite.app/access/test-app/1.0.0");
    assert_eq!(app.access_url_latest(), "https://www.roselite.app/access/test-app");
}

#[test]
fn gateway_urls_follow_protocol_and_label() {
    let gw = UniversalGateway::new();
    let id = AppId("VLD0:abcdefghijklmnop".to_string());
    assert_eq!(gw.generate_url(&id, Some("My Site")).unwrap(), "http://my-site.localhost:8080");
    assert_eq!(gw.generate_url(&id, None).unwrap(), "http://VLD0:abcdefg.localhost:8080");
    let https = UniversalGateway::from_domain("https://example.com");
    assert_eq!(https.config.domain, "example.com");
    assert_eq!(https.generate_url(&id, Some("x")).unwrap(), "https://x.example.com");
    let http = UniversalGateway::from_domain("http://example.com:80");
    assert!(!http.config.use_https);
    assert_eq!(http.config.domain, "example.com:80");
    assert!(UniversalGateway::from_domain("gw.example:8443").config.use_https);
    assert!(UniversalGateway::from_domain("gw.example:443").config.use_https);
    assert!(!UniversalGateway::from_domain("gw.example:8080").config.use_https);
    let all = gw.generate_all_urls(&id, Some("My Site"));
    assert_eq!(all, vec![("localhost:8080".to_string(), "http://my-site.localhost:8080".to_string())]);
    assert_eq!(gw.format_alternative_gateways(&id, None), "   (none)");
}

#[test]
fn subdomain_prefix_is_prepended() {
    let mut gw = UniversalGateway::new();
    gw.config.subdomain_prefix = Some("rl".to_string());
    let id = AppId("abc".to_string());
    assert_eq!(gw.generate_subdomain(&id, Some("Site")), "rl-site");
    assert_eq!(gw.generate_subdomain(&id, None), "rl-abc");
}

#[test]
fn sharing_text_and_instructions_name_url_and_key() {
    let gw = UniversalGateway::from_domain("example.com");
    let id = AppId("KEY".to_string());
    let share = gw.generate_sharing_text(&id, Some("Site"));
    assert!(share.starts_with("🚀 Share your app:\n\n🌐 Web Access: http://site.example.com\n🔗 DHT Key: KEY\n"));
    let setup = gw.generate_setup_instructions(&id, Some("Site"));
    assert!(setup.contains("🔗 Primary: http://site.example.com"));
    assert!(setup.contains("IN TXT \"veilid-app=KEY\""));
    assert!(setup.ends_with("CNAME site.example.com"));
    assert!(setup.contains("Alternative Gateways:\n   (none)\n"));
}

#[test]
fn registry_paths_sit_under_roselite() {
    let reg = LocalRegistry::with_dirs("/home/u/.config", "/home/u/.local/share");
    assert_eq!(reg.apps_dir(), "/home/u/.local/share/roselite/apps");
    assert_eq!(reg.registry_path(), "/home/u/.config/roselite/installed_apps.json");
}

fn installed(id: &str, name: &str) -> roselite::local::LocalAppInfo {
    let mut a = info();
    a.id = AppId(id.to_string());
    a.name = name.to_string();
    roselite::local::LocalAppInfo::new(a, format!("/apps/{}", id), Timestamp { secs: 1, nanos: 0 })
}

#[test]
fn installed_app_lookup_prefers_exact_then_folded_then_partial() {
    let apps = vec![installed("k1", "My Blog"), installed("k2", "my blog"), installed("VLD0:XyZ", "Other")];
    assert_eq!(apps[0].executable_path, "/apps/k1/index.html");
    assert_eq!(LocalRegistry::find_app_by_name(&apps, "my blog"), Some(1));
    assert_eq!(LocalRegistry::find_app_by_name(&apps, "MY BLOG"), Some(0));
    assert_eq!(LocalRegistry::find_app_by_name(&apps, "blo"), Some(0));
    assert_eq!(LocalRegistry::find_app_by_name(&apps, "xyz"), Some(2));
    assert_eq!(LocalRegistry::find_app_by_name(&apps, "absent"), None);
}
