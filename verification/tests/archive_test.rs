use std::io::{Cursor, Write};
use sync_core::{Error, SyncArchive, SyncBuilder, SyncManifest};
use sync_core::manifest::{ManifestMetadata, ManifestPolicy, SyncSection};

fn test_manifest(content_type: &str, display_ext: &str) -> SyncManifest {
    SyncManifest {
        sync: SyncSection {
            version: "1.2".to_string(),
            content_type: content_type.to_string(),
            display_ext: display_ext.to_string(),
            variant: Default::default(),
        },
        meta: ManifestMetadata {
            created_by: "builder".to_string(),
            created_at: "2099-01-23T12:00:00Z".to_string(),
            hash_algo: "blake3".to_string(),
        },
        policy: ManifestPolicy { ttl: 3600, timeout: 30 },
        permissions: Default::default(),
        ownership: Default::default(),
        verification: Default::default(),
        capabilities: Default::default(),
        signature: None,
        encryption: Default::default(),
    }
}

fn minimal_wasm() -> Vec<u8> {
    vec![0x00, 0x61, 0x73, 0x6d, 0x01, 0x00, 0x00, 0x00]
}

fn build_archive(manifest: SyncManifest, payload: &[u8]) -> Vec<u8> {
    SyncBuilder::new()
        .with_manifest(manifest)
        .with_payload_bytes(payload.to_vec())
        .with_wasm_bytes(minimal_wasm())
        .build_bytes()
        .unwrap()
}

fn raw_zip(entries: &[(&str, &[u8])]) -> Vec<u8> {
    let mut zw = zip::ZipWriter::new(Cursor::new(Vec::new()));
    let opts = zip::write::SimpleFileOptions::default()
        .compression_method(zip::CompressionMethod::Stored);
    for (name, data) in entries {
        zw.start_file(*name, opts).unwrap();
        zw.write_all(data).unwrap();
    }
    zw.finish().unwrap().into_inner()
}

const MANIFEST_TOML: &str = r#"
[sync]
version = "1.2"
content_type = "text/plain"
display_ext = "txt"

[meta]
created_by = "builder"
created_at = "2099-01-23T12:00:00Z"
hash_algo = "blake3"

[policy]
ttl = 3600
timeout = 30
"#;

#[test]
fn test_open_valid_archive() {
    let bytes = build_archive(test_manifest("application/json", "json"), b"hello world");
    let archive = SyncArchive::open("test.sync", &bytes).unwrap();
    assert_eq!(archive.manifest().sync.content_type, "application/json");
    assert!(archive.has_wasm());
}

#[test]
fn test_missing_manifest() {
    let bytes = raw_zip(&[("sync.wasm", &minimal_wasm())]);
    let result = SyncArchive::open("no-manifest.zip", &bytes);
    assert!(matches!(result, Err(Error::MissingEntry(e)) if e == "manifest.toml"));
}

#[test]
fn test_missing_wasm() {
    let bytes = raw_zip(&[("manifest.toml", MANIFEST_TOML.as_bytes())]);
    let result = SyncArchive::open("no-wasm.zip", &bytes);
    assert!(matches!(result, Err(Error::MissingEntry(e)) if e == "sync.wasm"));
}

#[test]
fn test_entry_lookup() {
    let bytes = build_archive(test_manifest("text/plain", "txt"), b"hello");
    let archive = SyncArchive::open("lookup.sync", &bytes).unwrap();
    assert!(archive.entry("manifest.toml").is_some());
    assert!(archive.entry("sync.wasm").is_some());
    assert!(archive.entry("payload").is_some());
    assert!(archive.entry("nonexistent").is_none());
}

#[test]
fn test_payload_offset_and_size() {
    let payload = b"hello world payload data";
    let bytes = build_archive(test_manifest("text/plain", "txt"), payload);
    let archive = SyncArchive::open("payload-meta.sync", &bytes).unwrap();
    assert!(archive.payload_offset().is_some());
    assert_eq!(archive.payload_size(), Some(payload.len() as u64));
}

#[test]
fn test_update_payload() {
    let bytes = build_archive(test_manifest("text/plain", "txt"), b"original data");
    let mut archive = SyncArchive::open("update.sync", &bytes).unwrap();
    let new_payload = b"updated data with more content".to_vec();
    let updated = archive.update_payload(&bytes, &new_payload).unwrap();

    assert_eq!(archive.payload_size(), Some(new_payload.len() as u64));
    assert_eq!(archive.payload_size(), Some(30));

    let archive2 = SyncArchive::open("update.sync", &updated).unwrap();
    assert_eq!(archive2.payload_size(), Some(new_payload.len() as u64));
    assert!(archive2.has_wasm());
    assert_eq!(sync_core::read_payload_bytes(&updated).unwrap(), new_payload);
}

#[test]
fn test_has_context_and_proof() {
    let bytes = build_archive(test_manifest("text/plain", "txt"), b"data");
    let archive = SyncArchive::open("context-proof.sync", &bytes).unwrap();
    assert!(!archive.has_context());
    assert!(!archive.has_proof());
}

#[test]
fn test_archive_file_stem() {
    let bytes = build_archive(test_manifest("text/plain", "txt"), b"x");
    let archive = SyncArchive::open("dir/my-data-file.sync", &bytes).unwrap();
    assert_eq!(archive.archive_file_stem(), Some("my-data-file".to_string()));
}

#[test]
fn sync_builder_creates_valid_archive() {
    let bytes = build_archive(test_manifest("text/plain", "txt"), b"hello");
    let archive = SyncArchive::open("builder-test.sync", &bytes).unwrap();
    assert!(archive.has_wasm());
    assert!(archive.payload_entry().is_some());
}

#[test]
fn sync_archive_rejects_compressed_payload() {
    let mut zw = zip::ZipWriter::new(Cursor::new(Vec::new()));
    let stored = zip::write::SimpleFileOptions::default()
        .compression_method(zip::CompressionMethod::Stored);
    let deflated = zip::write::SimpleFileOptions::default()
        .compression_method(zip::CompressionMethod::Deflated);
    zw.start_file("manifest.toml", stored).unwrap();
    zw.write_all(MANIFEST_TOML.as_bytes()).unwrap();
    zw.start_file("payload", deflated).unwrap();
    zw.write_all(b"hello").unwrap();
    zw.start_file("sync.wasm", stored).unwrap();
    zw.write_all(&minimal_wasm()).unwrap();
    let bytes = zw.finish().unwrap().into_inner();

    let result = SyncArchive::open("compressed-payload.sync", &bytes);
    assert!(matches!(result, Err(Error::InvalidFormat(_))));
}

#[test]
fn sync_archive_missing_manifest_is_rejected() {
    let bytes = raw_zip(&[("payload", b"hello"), ("sync.wasm", &minimal_wasm())]);
    let err = SyncArchive::open("missing-manifest.sync", &bytes)
        .expect_err("missing manifest must fail");
    assert!(matches!(err, Error::MissingEntry(entry) if entry == "manifest.toml"));
}

#[test]
fn sync_archive_missing_wasm_is_rejected() {
    let bytes = raw_zip(&[("manifest.toml", MANIFEST_TOML.as_bytes()), ("payload", b"hello")]);
    let err = SyncArchive::open("missing-wasm.sync", &bytes).expect_err("missing wasm must fail");
    assert!(matches!(err, Error::MissingEntry(entry) if entry == "sync.wasm"));
}

#[test]
fn sync_archive_detects_optional_entries() {
    let bytes = build_archive(test_manifest("text/plain", "txt"), b"hello");
    let archive = SyncArchive::open("optional-entries.sync", &bytes).unwrap();
    assert!(!archive.has_context());
    assert!(!archive.has_proof());

    let with_extras = SyncBuilder::new()
        .with_manifest(archive.manifest().clone())
        .with_payload_bytes(b"hello".to_vec())
        .with_wasm_bytes(minimal_wasm())
        .with_context_bytes(br#"{"value":true}"#.to_vec())
        .with_proof_bytes(b"proof".to_vec())
        .build_bytes()
        .unwrap();

    let archive = SyncArchive::open("optional-entries-with-context.sync", &with_extras).unwrap();
    assert!(archive.has_context());
    assert!(archive.has_proof());
}

#[test]
fn sync_archive_update_payload_refreshes_offsets() {
    let bytes = build_archive(test_manifest("text/plain", "txt"), b"hello");
    let mut archive = SyncArchive::open("update-payload.sync", &bytes).unwrap();
    let original_offset = archive.payload_offset().unwrap();
    let original_size = archive.payload_size().unwrap();

    archive.update_payload(&bytes, &b"updated payload bytes".to_vec()).unwrap();

    let updated_offset = archive.payload_offset().unwrap();
    let updated_size = archive.payload_size().unwrap();

    assert_ne!(updated_size, original_size);
    assert_ne!(updated_offset, original_offset);
    assert!(archive.payload_entry().is_some());
}

#[test]
fn archive_layout_and_offset_scenario() {
    let bytes = build_archive(test_manifest("application/json", "json"), b"hello world");
    let archive = SyncArchive::open("scenario.sync", &bytes).unwrap();
    assert_eq!(archive.manifest().sync.content_type, "application/json");
    assert!(archive.has_wasm());
    assert_eq!(archive.payload_size(), Some(11));

    let offset = archive.payload_offset().unwrap() as usize;
    let size = archive.payload_size().unwrap() as usize;
    assert_eq!(&bytes[offset..offset + size], &b"hello world"[..]);
    assert_eq!(sync_core::read_payload_bytes(&bytes).unwrap(), b"hello world");
}

#[test]
fn builder_round_trip_preserves_parts() {
    let manifest = test_manifest("text/csv", "csv");
    let first = SyncBuilder::new()
        .with_manifest(manifest)
        .with_payload_bytes(b"a,b,c".to_vec())
        .with_wasm_bytes(minimal_wasm())
        .with_context_bytes(b"{}".to_vec())
        .with_proof_bytes(b"pf".to_vec())
        .build_bytes()
        .unwrap();
    let a1 = SyncArchive::open("round.sync", &first).unwrap();

    let second = SyncBuilder::new()
        .with_manifest(a1.manifest().clone())
        .with_payload_bytes(sync_core::read_payload_bytes(&first).unwrap())
        .with_wasm_bytes(minimal_wasm())
        .with_context_bytes(b"{}".to_vec())
        .with_proof_bytes(b"pf".to_vec())
        .build_bytes()
        .unwrap();
    let a2 = SyncArchive::open("round.sync", &second).unwrap();

    let m1 = a1.manifest();
    let m2 = a2.manifest();
    assert_eq!(m1.sync.version, m2.sync.version);
    assert_eq!(m1.sync.content_type, m2.sync.content_type);
    assert_eq!(m1.sync.display_ext, m2.sync.display_ext);
    assert_eq!(m1.meta.created_by, m2.meta.created_by);
    assert_eq!(m1.meta.created_at, m2.meta.created_at);
    assert_eq!(m1.policy.ttl, m2.policy.ttl);
    assert_eq!(m1.policy.timeout, m2.policy.timeout);
    assert_eq!(
        sync_core::read_payload_bytes(&first).unwrap(),
        sync_core::read_payload_bytes(&second).unwrap()
    );
}

#[test]
fn vault_payload_round_trip() {
    let mut manifest = test_manifest("text/plain", "txt");
    manifest.sync.variant = sync_core::SyncVariant::Vault;
    let encrypted = sync_core::encrypt_data(&b"secret payload".to_vec(), "pass").unwrap();
    let bytes = build_archive(manifest, &encrypted);
    let archive = SyncArchive::open("vault.sync", &bytes).unwrap();
    assert!(archive.is_vault());
    let plain = archive.read_payload_with_password(&bytes, "pass").unwrap();
    assert_eq!(plain, b"secret payload");
    assert!(archive.read_payload_with_password(&bytes, "wrong").is_err());
}
