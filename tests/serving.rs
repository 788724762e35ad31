use roselite::serve::{extract_domain_from_hostname, resolve_request_path, select_app_key};

#[test]
fn test_extract_domain_from_hostname() {
    let domain = "localhost:8080";
    assert_eq!(extract_domain_from_hostname("my-app.localhost:8080", domain), Some("my-app".to_string()));
    assert_eq!(extract_domain_from_hostname("test-site.localhost:8080", domain), Some("test-site".to_string()));
    assert_eq!(extract_domain_from_hostname("localhost:8080", domain), None);
    assert_eq!(extract_domain_from_hostname("invalid.com", domain), None);
    assert_eq!(extract_domain_from_hostname("sub.my-app.localhost:8080", domain), Some("sub.my-app".to_string()));
    assert_eq!(extract_domain_from_hostname("my-app.localhost", "localhost"), Some("my-app".to_string()));
    assert_eq!(extract_domain_from_hostname("localhost", "localhost"), None);
    let prod_domain = "roselite.app";
    assert_eq!(extract_domain_from_hostname("my-app.roselite.app", prod_domain), Some("my-app".to_string()));
    assert_eq!(extract_domain_from_hostname("roselite.app", prod_domain), None);
}

#[test]
fn host_that_only_ends_like_the_domain_names_no_site() {
    assert_eq!(extract_domain_from_hostname("notlocalhost:8080", "localhost:8080"), None);
    assert_eq!(extract_domain_from_hostname(".localhost", "localhost"), None);
}

#[test]
fn first_veilid_app_txt_value_wins() {
    let txt = vec![
        "v=spf1 -all".to_string(),
        "veilid-version=1.0.0".to_string(),
        "veilid-app=VLD0:abc".to_string(),
        "veilid-app=VLD0:second".to_string(),
    ];
    assert_eq!(select_app_key(&txt), Some("VLD0:abc".to_string()));
    assert_eq!(select_app_key(&vec!["other".to_string()]), None);
    assert_eq!(select_app_key(&vec![]), None);
    assert_eq!(select_app_key(&vec!["veilid-app=".to_string()]), Some(String::new()));
}

#[test]
fn empty_or_root_path_serves_index() {
    assert_eq!(resolve_request_path(""), Some("index.html".to_string()));
    assert_eq!(resolve_request_path("/"), Some("index.html".to_string()));
    assert_eq!(resolve_request_path("a/.."), Some("index.html".to_string()));
}

#[test]
fn request_paths_are_normalised_inside_the_site() {
    assert_eq!(resolve_request_path("/assets/style.css"), Some("assets/style.css".to_string()));
    assert_eq!(resolve_request_path("a//b/./c"), Some("a/b/c".to_string()));
    assert_eq!(resolve_request_path("a/b/../c.html"), Some("a/c.html".to_string()));
}

#[test]
fn escaping_request_paths_are_refused() {
    assert_eq!(resolve_request_path(".."), None);
    assert_eq!(resolve_request_path("../etc/passwd"), None);
    assert_eq!(resolve_request_path("/a/../../secret"), None);
    assert_eq!(resolve_request_path("a/../../b/c"), None);
}
