use sync_core::{ManifestTemplate, SyncArchive, SyncBuilder, SyncManifest, SyncStore, SyncStoreError, VfsMount, VfsMountConfig};
use sync_core::manifest::{ManifestMetadata, ManifestPolicy, SyncSection, SyncVariant};
use sync_core::store::{display_ext_from_name, ensure_sync_extension, guess_content_type, normalize_relative_path};

fn manifest_with_ext(display_ext: &str, content_type: &str) -> SyncManifest {
    SyncManifest {
        sync: SyncSection {
            version: "1.2".to_string(),
            content_type: content_type.to_string(),
            display_ext: display_ext.to_string(),
            variant: Default::default(),
        },
        meta: ManifestMetadata {
            created_by: "builder".to_string(),
            created_at: "2099-01-23T12:00:00Z".to_string(),
            hash_algo: "blake3".to_string(),
        },
        policy: ManifestPolicy { ttl: 3600, timeout: 30 },
        permissions: Default::default(),
        ownership: Default::default(),
        verification: Default::default(),
        capabilities: Default::default(),
        signature: None,
        encryption: Default::default(),
    }
}

#[test]
fn vfs_display_name_and_path_are_computed() {
    let bytes = SyncBuilder::new()
        .with_manifest(manifest_with_ext("csv", "text/csv"))
        .with_payload_bytes(b"hello".to_vec())
        .with_wasm_bytes(vec![0x00, 0x61, 0x73, 0x6d, 0x01, 0x00, 0x00, 0x00])
        .build_bytes()
        .unwrap();
    let archive = SyncArchive::open("tmp/report.csv.sync", &bytes).unwrap();
    let config = VfsMountConfig {
        mount_path: "/mnt".to_string(),
        expose_as_read_only: true,
        show_original_extension: true,
    };
    let mount = VfsMount::from_archive(&archive, config).unwrap();
    let entry = mount.get_payload_entry().unwrap();

    assert_eq!(entry.display_name, "report.csv");
    assert_eq!(entry.vfs_path, "/mnt/report.csv");
}

#[test]
fn store_paths_and_template_follow_the_name() {
    let store = SyncStore::new("/tmp/store".to_string());
    assert_eq!(store.base_dir(), "/tmp/store");

    let path = store.sync_path_for("docs/hello.txt").unwrap();
    assert_eq!(path, "/tmp/store/docs/hello.txt.sync");

    assert_eq!(display_ext_from_name("docs/hello.txt"), "txt");
    assert_eq!(display_ext_from_name("docs/hello.txt.sync"), "txt");
    assert_eq!(display_ext_from_name("plain"), "");

    let manifest = store.manifest_template().to_manifest(
        "text/plain",
        &display_ext_from_name("docs/hello.txt"),
        "2099-01-23T12:00:00Z",
    );
    assert_eq!(manifest.sync.display_ext, "txt");
    assert_eq!(manifest.sync.content_type, "text/plain");
    assert_eq!(manifest.meta.created_by, "sync-fs");
    assert_eq!(manifest.policy.ttl, 3600);
    assert_eq!(manifest.policy.timeout, 30);
}

#[test]
fn store_names_need_a_file_component() {
    let store = SyncStore::new("/tmp/store".to_string());
    assert!(matches!(store.sync_path_for("."), Err(SyncStoreError::InvalidName(_))));
    assert!(matches!(store.sync_path_for("./."), Err(SyncStoreError::InvalidName(_))));
    assert_eq!(store.sync_path_for("docs/").unwrap(), "/tmp/store/docs.sync");
    assert_eq!(store.sync_path_for("docs/.").unwrap(), "/tmp/store/docs.sync");
}

#[test]
fn store_rejects_escaping_names() {
    assert!(matches!(
        normalize_relative_path("../evil"),
        Err(SyncStoreError::InvalidPath(_))
    ));
    assert!(matches!(
        normalize_relative_path("docs/../evil"),
        Err(SyncStoreError::InvalidPath(_))
    ));
    assert!(matches!(normalize_relative_path("///"), Err(SyncStoreError::InvalidName(_))));
    assert_eq!(normalize_relative_path("/docs/a.txt").unwrap(), "docs/a.txt");
    assert_eq!(normalize_relative_path("docs/..hidden").unwrap(), "docs/..hidden");
}

#[test]
fn sync_extension_is_added_once() {
    assert_eq!(ensure_sync_extension("a.txt"), "a.txt.sync");
    assert_eq!(ensure_sync_extension("a.txt.sync"), "a.txt.sync");
}

#[test]
fn content_types_follow_extensions() {
    assert_eq!(guess_content_type("a.txt"), "text/plain");
    assert_eq!(guess_content_type("b.CSV"), "text/csv");
    assert_eq!(guess_content_type("dir/c.json"), "application/json");
    assert_eq!(guess_content_type("d.pdf"), "application/pdf");
    assert_eq!(guess_content_type("e.png"), "image/png");
    assert_eq!(guess_content_type("f.unknown"), "application/octet-stream");
    assert_eq!(guess_content_type("noext"), "application/octet-stream");
}

#[test]
fn custom_template_archives_carry_their_policy() {
    let template = ManifestTemplate {
        created_by: "unit-test".to_string(),
        default_ttl: 60,
        default_timeout: 5,
        allow_hosts: vec!["example.com".to_string()],
    };
    let store = SyncStore::with_template("/tmp/store".to_string(), template)
        .with_minimal_wasm(vec![0x00, 0x61, 0x73, 0x6d, 0x01, 0x00, 0x00, 0x00]);
    let manifest = store.manifest_template().to_manifest("text/plain", ".txt", "2099-01-01T00:00:00Z");
    assert_eq!(manifest.sync.display_ext, "txt");
    assert_eq!(manifest.policy.ttl, 60);
    assert_eq!(manifest.policy.timeout, 5);
    assert_eq!(manifest.permissions.allow_hosts, vec!["example.com".to_string()]);

    let bytes = SyncBuilder::new()
        .with_manifest(manifest)
        .with_payload_bytes(b"hello".to_vec())
        .with_wasm_bytes(store.minimal_wasm.clone())
        .build_bytes()
        .unwrap();
    let archive = SyncArchive::open("docs/hello.txt.sync", &bytes).unwrap();
    assert_eq!(archive.manifest().meta.created_by, "unit-test");
    assert_eq!(archive.manifest().policy.ttl, 60);
}

#[test]
fn manifest_round_trips_through_text() {
    let mut manifest = manifest_with_ext("txt", "text/plain");
    manifest.sync.variant = SyncVariant::Vault;
    manifest.permissions.allow_hosts = vec!["a.example".to_string(), "*.b.example".to_string()];
    manifest.permissions.allow_env = vec!["FOO".to_string()];
    manifest.ownership.write_allowed = true;
    manifest.encryption.enabled = true;
    manifest.encryption.algorithm = Some("age-v1".to_string());

    let text = manifest.to_toml_text().unwrap();
    let parsed = SyncManifest::from_toml(text.as_bytes()).unwrap();
    assert_eq!(parsed.sync.version, manifest.sync.version);
    assert_eq!(parsed.sync.content_type, manifest.sync.content_type);
    assert_eq!(parsed.sync.display_ext, manifest.sync.display_ext);
    assert_eq!(parsed.sync.variant, manifest.sync.variant);
    assert_eq!(parsed.meta.created_by, manifest.meta.created_by);
    assert_eq!(parsed.meta.created_at, manifest.meta.created_at);
    assert_eq!(parsed.meta.hash_algo, manifest.meta.hash_algo);
    assert_eq!(parsed.policy.ttl, manifest.policy.ttl);
    assert_eq!(parsed.policy.timeout, manifest.policy.timeout);
    assert_eq!(parsed.permissions.allow_hosts, manifest.permissions.allow_hosts);
    assert_eq!(parsed.permissions.allow_env, manifest.permissions.allow_env);
    assert_eq!(parsed.ownership.write_allowed, manifest.ownership.write_allowed);
    assert_eq!(parsed.encryption.enabled, manifest.encryption.enabled);
    assert_eq!(parsed.encryption.algorithm, manifest.encryption.algorithm);
    assert!(parsed.signature.is_none());
}

#[test]
fn manifest_host_allowlist_matches_patterns() {
    let mut manifest = manifest_with_ext("txt", "text/plain");
    assert!(!manifest.is_host_allowed("example.com"));
    manifest.permissions.allow_hosts =
        vec!["example.com".to_string(), "*.internal.local".to_string()];
    assert!(manifest.is_host_allowed("example.com"));
    assert!(manifest.is_host_allowed("sub.internal.local"));
    assert!(!manifest.is_host_allowed("evil.com"));
    assert!(!manifest.is_host_allowed("evilexample.com"));
}

#[test]
fn vault_flag_follows_variant_or_encryption() {
    let mut manifest = manifest_with_ext("txt", "text/plain");
    assert!(!manifest.is_vault());
    manifest.encryption.enabled = true;
    assert!(manifest.is_vault());
    manifest.encryption.enabled = false;
    manifest.sync.variant = SyncVariant::Vault;
    assert!(manifest.is_vault());
    assert!(!manifest.is_app());
    manifest.sync.variant = SyncVariant::App;
    assert!(manifest.is_app());
}

#[test]
fn created_at_parses_to_epoch_seconds() {
    let mut manifest = manifest_with_ext("txt", "text/plain");
    manifest.meta.created_at = "1970-01-01T01:00:00Z".to_string();
    assert_eq!(manifest.created_at_epoch().unwrap(), 3600);
    assert!(!manifest.is_expired_at(3600 + 3600).unwrap());
    assert!(manifest.is_expired_at(3600 + 3601).unwrap());

    manifest.meta.created_at = "not a timestamp".to_string();
    assert!(manifest.created_at_epoch().is_err());
    assert!(manifest.is_expired_at(0).is_err());
}

#[test]
fn variant_names_round_trip() {
    assert_eq!(SyncVariant::Plain.as_str(), "plain");
    assert_eq!(SyncVariant::Vault.as_str(), "vault");
    assert_eq!(SyncVariant::parse("VAULT"), Some(SyncVariant::Vault));
    assert_eq!(SyncVariant::parse("app"), Some(SyncVariant::App));
    assert_eq!(SyncVariant::parse("data"), Some(SyncVariant::Data));
    assert_eq!(SyncVariant::parse("other"), None);
}

#[test]
fn expiry_follows_ttl() {
    let manifest = manifest_with_ext("txt", "text/plain");
    let created = 1_000_000;
    assert!(!manifest.is_expired_given(created, created + 3600));
    assert!(manifest.is_expired_given(created, created + 3601));
    assert_eq!(manifest.expires_in_given(created, created + 600), 3000);
    assert_eq!(manifest.expires_in_given(created, created + 9999), 0);
}
