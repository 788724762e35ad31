use roselite::slug::slug_chars;
use roselite::crypto::{ed25519_pair_of, x25519_pair_of};
use roselite::text::parse_tags;
use roselite::crypto::CryptoManager;
use roselite::error::{PackageError, RoseliteError};
use roselite::package::{Package, PackageBuilder, PackageManifest};
use roselite::slug::{slug, subdomain_label};
use roselite::types::Timestamp;

fn now() -> Timestamp {
    Timestamp { secs: chrono::Utc::now().timestamp(), nanos: 0 }
}

fn manifest() -> PackageManifest {
    PackageManifest {
        name: "test-app".to_string(),
        version: "1.0.0".to_string(),
        description: "Test app".to_string(),
        developer: "Developer".to_string(),
        author: "Author".to_string(),
        category: "general".to_string(),
        entry: "index.html".to_string(),
        tags: vec![],
        identity: "test-identity".to_string(),
        signature: "test-signature".to_string(),
        format_version: "1.0.0".to_string(),
        dependencies: vec![],
        permissions: vec![],
        created_at: now(),
        updated_at: now(),
        public_key: "test-key".to_string(),
        slug: String::new(),
    }
}

#[test]
fn test_manifest_validation() {
    let valid_manifest = manifest();
    assert!(Package::validate_manifest(&valid_manifest).is_ok());
    let mut invalid_manifest = manifest();
    invalid_manifest.name = String::new();
    assert!(Package::validate_manifest(&invalid_manifest).is_err());
    let mut invalid_manifest = manifest();
    invalid_manifest.version = String::new();
    assert!(Package::validate_manifest(&invalid_manifest).is_err());
    let mut invalid_manifest = manifest();
    invalid_manifest.entry = String::new();
    assert!(Package::validate_manifest(&invalid_manifest).is_err());
    let mut invalid_manifest = manifest();
    invalid_manifest.identity = String::new();
    assert!(Package::validate_manifest(&invalid_manifest).is_err());
}

#[test]
fn validation_names_the_first_empty_field() {
    let mut m = manifest();
    m.version = String::new();
    m.entry = String::new();
    match Package::validate_manifest(&m) {
        Err(RoseliteError::Package(PackageError::InvalidManifest { reason })) => {
            assert_eq!(reason, "version cannot be empty")
        }
        other => panic!("unexpected {:?}", other),
    }
}

#[test]
fn slug_of_mixed_name() {
    assert_eq!(slug("Foo Bar_Baz!"), "foo-bar-baz");
    assert_eq!(slug("--Hello  World--"), "hello--world");
    assert_eq!(slug("!!!"), "");
    assert_eq!(PackageManifest::generate_slug("My App"), "my-app");
    assert_eq!(Package::generate_slug("Ünïcode Name"), "ünïcode-name");
}

#[test]
fn subdomain_label_keeps_only_alphanumerics_and_dashes() {
    assert_eq!(subdomain_label("My Cool_App!"), "my-cool-app");
    assert_eq!(subdomain_label(" Tab\tName "), "tabname");
}

#[test]
fn ensure_slug_fills_only_an_empty_slug() {
    let mut m = manifest();
    m.name = "Hello World".to_string();
    m.ensure_slug();
    assert_eq!(m.slug, "hello-world");
    m.slug = "custom".to_string();
    m.ensure_slug();
    assert_eq!(m.slug, "custom");
}

fn build(builder: &PackageBuilder, crypto: &CryptoManager) -> Package {
    let (public_key, private_key) = builder.resolve_keypair(crypto).unwrap();
    let manifest = builder.unsigned_manifest(&public_key, Timestamp { secs: 1_700_000_000, nanos: 0 });
    let signed_form = format!("{{\"name\":\"{}\",\"signature\":\"\"}}", manifest.name).into_bytes();
    let files = vec![
        ("index.html".to_string(), b"<html><body>Hello World</body></html>".to_vec()),
        ("app.js".to_string(), b"console.log('Hello from JS');".to_vec()),
        ("assets/style.css".to_string(), b"body { color: blue; }".to_vec()),
    ];
    PackageBuilder::assemble(manifest, signed_form, files, &private_key, crypto).unwrap()
}

fn signed_form_of(p: &Package) -> Vec<u8> {
    format!("{{\"name\":\"{}\",\"signature\":\"\"}}", p.manifest.name).into_bytes()
}

#[test]
fn built_package_carries_its_settings_and_verifies() {
    let crypto = CryptoManager::new().unwrap();
    let builder = PackageBuilder::new("test-app".to_string(), "test_app".to_string())
        .version("1.0.0".to_string())
        .description("A test application".to_string())
        .developer("Test Developer".to_string())
        .entry("index.html".to_string())
        .tags(vec!["test".to_string(), "demo".to_string()]);
    let package = build(&builder, &crypto);
    assert_eq!(package.manifest.name, "test-app");
    assert_eq!(package.manifest.version, "1.0.0");
    assert_eq!(package.manifest.description, "A test application");
    assert_eq!(package.manifest.developer, "Test Developer");
    assert_eq!(package.manifest.author, "Test Developer");
    assert_eq!(package.manifest.entry, "index.html");
    assert_eq!(package.manifest.tags, vec!["test", "demo"]);
    assert_eq!(package.manifest.category, "general");
    assert_eq!(package.manifest.identity, package.manifest.public_key);
    assert!(!package.manifest.signature.is_empty());
    assert_eq!(package.size_bytes as usize, package.content.len());
    assert!(package.verify_signature(&crypto, &signed_form_of(&package)).unwrap());
}

#[test]
fn keypair_and_identity_from_builder_are_used() {
    let crypto = CryptoManager::new().unwrap();
    let (public_key, private_key) = crypto.generate_keypair().unwrap();
    let builder = PackageBuilder::new("test-app".to_string(), "test_app".to_string())
        .keypair(public_key.clone(), private_key.clone())
        .identity("me".to_string())
        .slug("custom-slug".to_string());
    let package = build(&builder, &crypto);
    assert_eq!(package.manifest.public_key, public_key);
    assert_eq!(package.manifest.identity, "me");
    assert_eq!(package.manifest.slug, "custom-slug");
    assert!(package.verify_signature(&crypto, &signed_form_of(&package)).unwrap());
    let mut copy_manifest = manifest();
    copy_manifest.signature = String::new();
    copy_manifest.public_key = public_key;
    let unsigned = Package::from_manifest(package.content.clone(), copy_manifest).unwrap();
    assert!(!unsigned.verify_signature(&crypto, &signed_form_of(&package)).unwrap());
}

#[test]
fn tampered_manifest_fails_verification() {
    let crypto = CryptoManager::new().unwrap();
    let builder = PackageBuilder::new("test-app".to_string(), "d".to_string());
    let package = build(&builder, &crypto);
    let mut tampered = signed_form_of(&package);
    tampered[3] ^= 1;
    assert!(!package.verify_signature(&crypto, &tampered).unwrap());
}

#[test]
fn manifest_entry_and_files_come_back_out_of_the_archive() {
    let crypto = CryptoManager::new().unwrap();
    let builder = PackageBuilder::new("test-app".to_string(), "d".to_string());
    let package = build(&builder, &crypto);
    assert_eq!(Package::manifest_bytes(&package.content).unwrap(), signed_form_of(&package));
    let files = package.extract_files().unwrap();
    let names: Vec<&str> = files.iter().map(|(n, _)| n.as_str()).collect();
    assert_eq!(names, vec!["index.html", "app.js", "assets/style.css"]);
    assert_eq!(files, package.extract_files().unwrap());
    assert_eq!(package.get_file("app.js").unwrap(), Some(b"console.log('Hello from JS');".to_vec()));
    assert_eq!(package.get_file("veilid.json").unwrap(), None);
}

#[test]
fn garbage_content_is_an_invalid_format() {
    let bad = b"not a package".to_vec();
    assert!(matches!(
        Package::manifest_bytes(&bad),
        Err(RoseliteError::Package(PackageError::InvalidFormat))
    ));
}

#[test]
fn archive_without_manifest_is_missing_manifest() {
    let mut builder = tar::Builder::new(Vec::new());
    let mut header = tar::Header::new_gnu();
    header.set_path("index.html").unwrap();
    header.set_size(2);
    header.set_mode(0o644);
    header.set_cksum();
    builder.append(&header, &b"hi"[..]).unwrap();
    let tar_bytes = builder.into_inner().unwrap();
    let mut enc = flate2::write::GzEncoder::new(Vec::new(), flate2::Compression::default());
    std::io::Write::write_all(&mut enc, &tar_bytes).unwrap();
    let content = enc.finish().unwrap();
    assert!(matches!(
        Package::manifest_bytes(&content),
        Err(RoseliteError::Package(PackageError::MissingManifest))
    ));
}

#[test]
fn app_info_derives_slug_and_size() {
    let m = manifest();
    let package = Package::from_manifest(vec![1, 2, 3], m).unwrap();
    let t = Timestamp { secs: 5, nanos: 6 };
    let info = package.to_app_info(t);
    assert_eq!(info.id.0, "test-identity");
    assert_eq!(info.slug, "test-app");
    assert_eq!(info.size_bytes, 3);
    assert_eq!(info.created_at, t);
    assert_eq!(info.veilid_identity, Some("test-identity".to_string()));
    assert_eq!(info.entry_point, "index.html");
}

#[test]
fn package_with_empty_name_is_refused() {
    let mut m = manifest();
    m.name = String::new();
    assert!(matches!(
        Package::from_manifest(vec![], m),
        Err(RoseliteError::Package(PackageError::InvalidManifest { .. }))
    ));
}

#[test]
fn tag_lists_are_split_on_commas_and_trimmed() {

    assert_eq!(parse_tags("web, demo ,\tblog"), vec!["web", "demo", "blog"]);
    assert_eq!(parse_tags(""), vec![""]);
    assert_eq!(parse_tags("a,,b"), vec!["a", "", "b"]);
}

#[test]
fn slug_filter_works_on_given_characters() {

    let s: Vec<char> = "a b_c!d-".chars().collect();
    assert_eq!(slug_chars(&s, false).into_iter().collect::<String>(), "a-b-cd-");
    assert_eq!(slug_chars(&s, true).into_iter().collect::<String>(), "a-b-cd-");
    let t: Vec<char> = "a\tb".chars().collect();
    assert_eq!(slug_chars(&t, false).into_iter().collect::<String>(), "a-b");
    assert_eq!(slug_chars(&t, true).into_iter().collect::<String>(), "ab");
}

#[test]
fn builder_defaults_make_an_acceptable_manifest() {
    let b = PackageBuilder::new("Site".to_string(), "d".to_string());
    let m = b.unsigned_manifest("pk", Timestamp { secs: 0, nanos: 0 });
    assert_eq!(m.description, "Site");
    assert_eq!(m.developer, "Anonymous");
    assert!(Package::validate_manifest(&m).is_ok());
}

#[test]
fn empty_description_is_refused() {
    let mut m = manifest();
    m.description = String::new();
    match Package::validate_manifest(&m) {
        Err(RoseliteError::Package(PackageError::InvalidManifest { reason })) => {
            assert_eq!(reason, "description cannot be empty")
        }
        other => panic!("unexpected {:?}", other),
    }
    let mut m = manifest();
    m.category = String::new();
    assert!(Package::validate_manifest(&m).is_err());
    let crypto = CryptoManager::new().unwrap();
    let (_, sk) = crypto.generate_keypair().unwrap();
    let mut m = manifest();
    m.author = String::new();
    assert!(matches!(
        PackageBuilder::assemble(m, vec![], vec![], &sk, &crypto),
        Err(RoseliteError::Package(PackageError::InvalidManifest { .. }))
    ));
}

#[test]
fn key_pairs_of_given_secrets() {

    let sk = hex::decode("9d61b19deffd5a60ba844af492ec2cc44449c5697b326919703bac031cae7f60").unwrap();
    let (pk, s) = ed25519_pair_of(&sk);
    assert_eq!(pk, "d75a980182b10ab7d54bfed3c964073a0ee172f3daa62325af021a68f707511a");
    assert_eq!(s, "9d61b19deffd5a60ba844af492ec2cc44449c5697b326919703bac031cae7f60");
    let xs = hex::decode("77076d0a7318a57d3c16c17251b26645df4c2f87ebc0992ab177fba51db92c2a").unwrap();
    let (xp, _) = x25519_pair_of(&xs);
    assert_eq!(xp, "8520f0098930a754748b7ddcb43ef75a0dbf3a0d26381af4eba4a98eaa9b4e6a");
}
