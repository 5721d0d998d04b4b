use ed25519_dalek::{Signer, SigningKey};
use sync_core::{SyncSignature, VerificationError};
use sync_core::verification::{extract_public_key, verify_sync_file, verify_manifest_signature, compute_content_hash};
use sync_core::manifest::{ManifestMetadata, ManifestPolicy, ManifestSignature, SyncSection};
use sync_core::{SyncArchive, SyncBuilder, SyncManifest};

fn fixed_signing_key() -> SigningKey {
    let seed: [u8; 32] = [
        7, 1, 2, 3, 4, 5, 6, 7, 8, 9, 10, 11, 12, 13, 14, 15, 16, 17, 18, 19, 20, 21, 22, 23,
        24, 25, 26, 27, 28, 29, 30, 31,
    ];
    SigningKey::from_bytes(&seed)
}

fn did_for(key: &SigningKey) -> String {
    let mut did_bytes = vec![0xed, 0x01];
    did_bytes.extend_from_slice(&key.verifying_key().to_bytes());
    format!("did:key:z{}", bs58::encode(&did_bytes).into_string())
}

fn b64(data: &[u8]) -> String {
    base64::Engine::encode(&base64::engine::general_purpose::STANDARD, data)
}

#[test]
fn test_extract_public_key_valid() {
    let did = "did:key:z6MkhaXgEzG8b4P8Xn8Xn8Xn8Xn8Xn8Xn8Xn8Xn8Xn8Xn8";
    let result = extract_public_key(did);
    assert!(result.is_err());
}

#[test]
fn test_extract_public_key_invalid_prefix() {
    let did = "did:web:example.com";
    let result = extract_public_key(did);
    assert!(matches!(result, Err(VerificationError::InvalidDid(_))));
}

#[test]
fn extract_public_key_round_trips_a_real_key() {
    let key = fixed_signing_key();
    let did = did_for(&key);
    let extracted = extract_public_key(&did).unwrap();
    assert_eq!(extracted, key.verifying_key().to_bytes().to_vec());
}

#[test]
fn extract_public_key_rejects_wrong_multicodec() {
    let mut bytes = vec![0xec, 0x01];
    bytes.extend_from_slice(&[0u8; 32]);
    let did = format!("did:key:z{}", bs58::encode(&bytes).into_string());
    assert!(matches!(extract_public_key(&did), Err(VerificationError::InvalidDid(_))));
}

#[test]
fn extract_public_key_rejects_wrong_length() {
    let mut bytes = vec![0xed, 0x01];
    bytes.extend_from_slice(&[0u8; 31]);
    let did = format!("did:key:z{}", bs58::encode(&bytes).into_string());
    assert!(matches!(extract_public_key(&did), Err(VerificationError::InvalidPublicKey(_))));
}

#[test]
fn test_verify_sync_file_success() {
    let file_content = b"test sync file contnt!".to_vec();
    assert_eq!(file_content.len(), 22);
    let signing_key = fixed_signing_key();

    let hash = blake3::hash(&file_content);
    let hash_hex = format!("blake3:{}", hex::encode(hash.as_bytes()));
    let signature = signing_key.sign(hash.as_bytes());

    let sig = SyncSignature {
        algorithm: "Ed25519".to_string(),
        public_key: did_for(&signing_key),
        signature: b64(&signature.to_bytes()),
        content_hash: hash_hex,
        signed_at: 1234567890,
    };

    let result = verify_sync_file(&file_content, &sig).unwrap();
    assert!(result.valid, "verification should succeed: {:?}", result.error);
    assert!(result.public_key_bytes.is_some());
    assert_eq!(result.computed_hash, sig.content_hash);
}

#[test]
fn test_verify_sync_file_wrong_content() {
    let file_content = b"test sync file content".to_vec();
    let signing_key = fixed_signing_key();

    let wrong = b"wrong content";
    let hash = blake3::hash(wrong);
    let hash_hex = format!("blake3:{}", hex::encode(hash.as_bytes()));
    let signature = signing_key.sign(hash.as_bytes());

    let sig = SyncSignature {
        algorithm: "Ed25519".to_string(),
        public_key: did_for(&signing_key),
        signature: b64(&signature.to_bytes()),
        content_hash: hash_hex,
        signed_at: 1234567890,
    };

    let result = verify_sync_file(&file_content, &sig).unwrap();
    assert!(!result.valid, "verification should fail");
    assert!(result.error.is_some());
    assert!(result.error.as_ref().unwrap().contains("hash mismatch"));
}

#[test]
fn verify_sync_file_rejects_other_algorithms() {
    let sig = SyncSignature {
        algorithm: "RSA".to_string(),
        public_key: "did:key:zX".to_string(),
        signature: "AA==".to_string(),
        content_hash: "blake3:00".to_string(),
        signed_at: 0,
    };
    assert!(matches!(
        verify_sync_file(&b"x".to_vec(), &sig),
        Err(VerificationError::UnsupportedAlgorithm(_))
    ));
}

#[test]
fn content_hash_matches_reference_hasher() {
    let data = b"hello world".to_vec();
    let expected = format!("blake3:{}", hex::encode(blake3::hash(&data).as_bytes()));
    assert_eq!(compute_content_hash(&data), expected);
}

fn signed_manifest(payload: &[u8]) -> SyncManifest {
    let signing_key = fixed_signing_key();
    let mut manifest = SyncManifest {
        sync: SyncSection {
            version: "1.3".to_string(),
            content_type: "text/plain".to_string(),
            display_ext: "txt".to_string(),
            variant: Default::default(),
        },
        meta: ManifestMetadata {
            created_by: did_for(&signing_key),
            created_at: "2099-01-23T12:00:00Z".to_string(),
            hash_algo: "blake3".to_string(),
        },
        policy: ManifestPolicy { ttl: 3600, timeout: 30 },
        permissions: Default::default(),
        ownership: Default::default(),
        verification: Default::default(),
        capabilities: Default::default(),
        signature: None,
        encryption: Default::default(),
    };

    let canonical = sync_core::jsoncanon::canonical_manifest_json(&manifest);
    let manifest_hash = compute_content_hash(&canonical);
    let payload_hash = compute_content_hash(&payload.to_vec());
    let signing_bytes = sync_core::jsoncanon::signing_payload(
        &manifest_hash,
        &Some(payload_hash.clone()),
        &manifest.meta.created_by,
        "2099-01-23T12:00:01Z",
    );
    let signature = signing_key.sign(&signing_bytes);

    manifest.signature = Some(ManifestSignature {
        algo: "Ed25519".to_string(),
        manifest_hash,
        payload_hash: Some(payload_hash),
        timestamp: "2099-01-23T12:00:01Z".to_string(),
        value: b64(&signature.to_bytes()),
    });
    manifest
}

#[test]
fn embedded_manifest_signature_verifies() {
    let payload = b"signed payload";
    let manifest = signed_manifest(payload);
    let bytes = SyncBuilder::new()
        .with_manifest(manifest)
        .with_payload_bytes(payload.to_vec())
        .with_wasm_bytes(vec![0x00, 0x61, 0x73, 0x6d, 0x01, 0x00, 0x00, 0x00])
        .build_bytes()
        .unwrap();

    let result = verify_manifest_signature(&bytes).unwrap();
    assert!(result.valid, "embedded signature should verify: {:?}", result.error);

    let archive = SyncArchive::open("signed.sync", &bytes).unwrap();
    assert!(archive.manifest().signature.is_some());
}

#[test]
fn embedded_manifest_signature_detects_payload_change() {
    let manifest = signed_manifest(b"signed payload");
    let bytes = SyncBuilder::new()
        .with_manifest(manifest)
        .with_payload_bytes(b"tampered payload!".to_vec())
        .with_wasm_bytes(vec![0x00, 0x61, 0x73, 0x6d, 0x01, 0x00, 0x00, 0x00])
        .build_bytes()
        .unwrap();

    let result = verify_manifest_signature(&bytes).unwrap();
    assert!(!result.valid);
    assert!(result.error.as_ref().unwrap().contains("payload hash mismatch"));
}

#[test]
fn unsigned_manifest_reports_missing_signature() {
    let mut manifest = signed_manifest(b"p");
    manifest.signature = None;
    let bytes = SyncBuilder::new()
        .with_manifest(manifest)
        .with_payload_bytes(b"p".to_vec())
        .with_wasm_bytes(vec![0x00, 0x61, 0x73, 0x6d, 0x01, 0x00, 0x00, 0x00])
        .build_bytes()
        .unwrap();
    let result = verify_manifest_signature(&bytes).unwrap();
    assert!(!result.valid);
    assert!(result.error.as_ref().unwrap().contains("signature section missing"));
}
