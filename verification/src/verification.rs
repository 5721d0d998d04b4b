//! Signature verification for `.sync` archives: the detached-signature path
//! over whole archive bytes, and the decentralized-identifier parsing that
//! yields the signer's public key. Every check is exact: which strings
//! parse, which fail and with which error, and when a verification result
//! comes back valid.

use vstd::prelude::*;
use vstd::string::*;
use crate::crypto::{
    b58_decode_of, b64_decode_of, blake3_hash, blake3_of, decode_payload_base64, ed25519_check_key,
    ed25519_key_valid, ed25519_sig_valid, ed25519_verify, hex_encode, hex_of, bs58_decode,
};
use crate::strutil::{str_eq, str_starts_with};
use crate::archive::idx_of_name;
use crate::envelope::{
    envelope_data, envelope_entries, zip_entry_bytes, zip_entry_list, SyncEntry, entry_view,
};
use crate::jsoncanon::{canonical_manifest_json, manifest_canonical_json, signing_payload, signing_payload_json};
use crate::manifest::SyncManifest;
use crate::manifest_io::manifest_fields_match;

verus! {

/// Signature record carried beside an archive.
#[derive(Debug, Clone)]
pub struct SyncSignature {
    /// Signature algorithm; only "Ed25519" is supported.
    pub algorithm: String,
    /// Signer's public key in `did:key` form.
    pub public_key: String,
    /// Base64-encoded signature bytes.
    pub signature: String,
    /// Tagged content hash of the archive file.
    pub content_hash: String,
    /// Seconds since the epoch at signing time.
    pub signed_at: u64,
}

/// Verification result with details.
#[derive(Debug, Clone)]
pub struct VerificationResult {
    /// Whether the signature is valid.
    pub valid: bool,
    /// Extracted public key bytes, when the identifier parsed.
    pub public_key_bytes: Option<Vec<u8>>,
    /// The computed tagged content hash.
    pub computed_hash: String,
    /// What failed, when the result is invalid.
    pub error: Option<String>,
}

/// Errors raised while verifying.
#[derive(Debug, Clone)]
pub enum VerificationError {
    /// An input/output failure, with its description.
    Io(String),
    /// The archive or signature record is malformed.
    InvalidFormat(String),
    /// The identifier is not a `did:key` of the supported shape.
    InvalidDid(String),
    /// The identifier decodes, but not to a public key of the right length.
    InvalidPublicKey(String),
    /// The signature bytes are malformed.
    InvalidSignature(String),
    /// The recorded content hash does not match the computed one.
    HashMismatch(String),
    /// The algorithm is not the supported Edwards-curve scheme.
    UnsupportedAlgorithm(String),
}

/// Whether a decentralized identifier has the supported shape: the
/// `did:key:z` prefix, base58 payload, the Edwards-curve multicodec prefix
/// `0xED 0x01`, and exactly thirty-two key bytes after it.
pub open spec fn did_prefix_ok(did: Seq<char>) -> bool {
    "did:key:z"@.is_prefix_of(did)
}

/// The decoded multibase payload of an identifier.
pub open spec fn did_decoded(did: Seq<char>) -> Option<Seq<u8>> {
    b58_decode_of(did.skip(9))
}

/// Whether an identifier parses all the way to a thirty-two byte key.
pub open spec fn did_ok(did: Seq<char>) -> bool {
    &&& did_prefix_ok(did)
    &&& did_decoded(did) matches Some(d)
    &&& did_decoded(did)->Some_0.len() >= 2
    &&& did_decoded(did)->Some_0[0] == 0xed
    &&& did_decoded(did)->Some_0[1] == 0x01
    &&& did_decoded(did)->Some_0.len() == 34
}

/// The key bytes of a well-formed identifier.
pub open spec fn did_key(did: Seq<char>) -> Seq<u8> {
    did_decoded(did)->Some_0.skip(2)
}

/// Extract the public key bytes from a `did:key` identifier. Every failing
/// input yields a structured error: a missing prefix, an undecodable
/// payload, or a wrong multicodec prefix is an identifier error, and a
/// wrong key length is a key error.
pub fn extract_public_key(did: &str) -> (r: Result<Vec<u8>, VerificationError>)
    ensures
        r is Ok <==> did_ok(did@),
        r matches Ok(k) ==> k@ == did_key(did@) && k@.len() == 32,
        r matches Err(e) ==> (match e {
            VerificationError::InvalidDid(_) => !did_prefix_ok(did@)
                || did_decoded(did@) is None
                || did_decoded(did@)->Some_0.len() < 2
                || did_decoded(did@)->Some_0[0] != 0xed
                || did_decoded(did@)->Some_0[1] != 0x01,
            VerificationError::InvalidPublicKey(_) => did_prefix_ok(did@)
                && did_decoded(did@) is Some
                && did_decoded(did@)->Some_0.len() >= 2
                && did_decoded(did@)->Some_0[0] == 0xed
                && did_decoded(did@)->Some_0[1] == 0x01
                && did_decoded(did@)->Some_0.len() != 34,
            _ => false,
        }),
{
    proof {
        reveal_strlit("did:key:z");
    }
    if !str_starts_with(did, "did:key:z") {
        return Err(VerificationError::InvalidDid(
            String::from_str("DID must start with 'did:key:z'"),
        ));
    }
    let dlen = did.unicode_len();
    assert("did:key:z"@.len() == 9);
    let encoded = did.substring_char(9, dlen);
    assert(encoded@ =~= did@.skip(9));
    let decoded = match bs58_decode(encoded) {
        Some(d) => d,
        None => {
            return Err(VerificationError::InvalidDid(
                String::from_str("Base58 decode failed"),
            ));
        },
    };
    if decoded.len() < 2 {
        return Err(VerificationError::InvalidDid(String::from_str("Decoded data too short")));
    }
    if !(decoded[0] == 0xed && decoded[1] == 0x01) {
        return Err(VerificationError::InvalidDid(
            String::from_str("Invalid multicodec prefix: expected 0xed01"),
        ));
    }
    if decoded.len() != 34 {
        return Err(VerificationError::InvalidPublicKey(
            String::from_str("Invalid key length: expected 32"),
        ));
    }
    let mut key: Vec<u8> = Vec::new();
    let mut i: usize = 2;
    while i < decoded.len()
        invariant
            2 <= i <= decoded@.len(),
            decoded@.len() == 34,
            key@ =~= decoded@.subrange(2, i as int),
        decreases decoded@.len() - i,
    {
        key.push(decoded[i]);
        proof {
            assert(key@ =~= decoded@.subrange(2, i + 1));
        }
        i += 1;
    }
    proof {
        assert(key@ =~= decoded@.skip(2));
    }
    Ok(key)
}

/// The tagged form of a content hash: `blake3:` and the lowercase hex of
/// the hash bytes.
pub open spec fn tagged_hash_of(data: Seq<u8>) -> Seq<char> {
    "blake3:"@ + hex_of(blake3_of(data))
}

/// Compute the tagged content hash of archive bytes.
pub fn compute_content_hash(bytes: &Vec<u8>) -> (r: String)
    ensures
        r@ == tagged_hash_of(bytes@),
{
    let h = blake3_hash(bytes);
    let hx = hex_encode(&h);
    let mut s = String::from_str("blake3:");
    s.append(hx.as_str());
    s
}

/// Whether a detached signature record verifies over archive bytes: the
/// recorded tagged hash is the computed one, the signer identifier parses,
/// its key is a valid curve point, the signature is sixty-four base64
/// bytes, and it verifies over the raw hash bytes.
pub open spec fn detached_signature_valid(
    bytes: Seq<u8>,
    did: Seq<char>,
    sig_b64: Seq<char>,
    content_hash: Seq<char>,
) -> bool {
    &&& content_hash == tagged_hash_of(bytes)
    &&& did_ok(did)
    &&& ed25519_key_valid(did_key(did))
    &&& b64_decode_of(sig_b64) matches Some(sig)
    &&& b64_decode_of(sig_b64)->Some_0.len() == 64
    &&& ed25519_sig_valid(did_key(did), blake3_of(bytes), b64_decode_of(sig_b64)->Some_0)
}

/// Verify archive bytes against a detached signature. Only the Edwards
/// scheme is supported; any other algorithm is an error. Otherwise a
/// structured result is returned whose validity holds exactly when the
/// recorded hash matches and the signature verifies under the signer's
/// key.
pub fn verify_sync_file(bytes: &Vec<u8>, signature: &SyncSignature)
    -> (r: Result<VerificationResult, VerificationError>)
    ensures
        r is Err <==> signature.algorithm@ != "Ed25519"@,
        r matches Err(e) ==> e is UnsupportedAlgorithm,
        r matches Ok(vr) ==> {
            &&& vr.valid == detached_signature_valid(
                bytes@,
                signature.public_key@,
                signature.signature@,
                signature.content_hash@,
            )
            &&& vr.computed_hash@ == tagged_hash_of(bytes@)
            &&& vr.valid ==> vr.error is None
            &&& !vr.valid ==> vr.error is Some
            &&& (vr.public_key_bytes is Some <==> (signature.content_hash@
                == tagged_hash_of(bytes@) && did_ok(signature.public_key@)))
            &&& (vr.public_key_bytes matches Some(k)
                ==> k@ == did_key(signature.public_key@) && k@.len() == 32)
            &&& (signature.content_hash@ != tagged_hash_of(bytes@)
                ==> (vr.error matches Some(msg) && msg@ == "Content hash mismatch"@))
        },
{
    proof {
        reveal_strlit("Ed25519");
        reveal_strlit("Content hash mismatch");
    }
    if !str_eq(signature.algorithm.as_str(), "Ed25519") {
        return Err(VerificationError::UnsupportedAlgorithm(signature.algorithm.clone()));
    }
    let computed_hash = compute_content_hash(bytes);
    if !str_eq(computed_hash.as_str(), signature.content_hash.as_str()) {
        return Ok(VerificationResult {
            valid: false,
            public_key_bytes: None,
            computed_hash,
            error: Some(String::from_str("Content hash mismatch")),
        });
    }
    let public_key_bytes = match extract_public_key(signature.public_key.as_str()) {
        Ok(k) => k,
        Err(_) => {
            return Ok(VerificationResult {
                valid: false,
                public_key_bytes: None,
                computed_hash,
                error: Some(String::from_str("Invalid public key")),
            });
        },
    };
    if !ed25519_check_key(&public_key_bytes) {
        return Ok(VerificationResult {
            valid: false,
            public_key_bytes: Some(public_key_bytes),
            computed_hash,
            error: Some(String::from_str("Invalid verifying key")),
        });
    }
    let signature_bytes = match decode_payload_base64(signature.signature.as_str()) {
        Some(b) => b,
        None => {
            return Ok(VerificationResult {
                valid: false,
                public_key_bytes: Some(public_key_bytes),
                computed_hash,
                error: Some(String::from_str("Invalid base64 signature")),
            });
        },
    };
    if signature_bytes.len() != 64 {
        return Ok(VerificationResult {
            valid: false,
            public_key_bytes: Some(public_key_bytes),
            computed_hash,
            error: Some(String::from_str("Invalid signature length: expected 64")),
        });
    }
    let hash = blake3_hash(bytes);
    if ed25519_verify(&public_key_bytes, &hash, &signature_bytes) {
        Ok(VerificationResult {
            valid: true,
            public_key_bytes: Some(public_key_bytes),
            computed_hash,
            error: None,
        })
    } else {
        Ok(VerificationResult {
            valid: false,
            public_key_bytes: Some(public_key_bytes),
            computed_hash,
            error: Some(String::from_str("Signature verification failed")),
        })
    }
}

/// Manifest signature verification result.
#[derive(Debug, Clone)]
pub struct ManifestSignatureResult {
    /// Whether the signature is valid.
    pub valid: bool,
    /// Computed manifest hash.
    pub manifest_hash: String,
    /// Computed payload hash, when one was recorded.
    pub payload_hash: Option<String>,
    /// What failed, when the result is invalid.
    pub error: Option<String>,
}

/// Whether archive bytes parse far enough for the embedded verifier to
/// reach its manifest: the envelope parses, `manifest.toml` is present and
/// intact, and its text is UTF-8, TOML and schema-correct.
pub open spec fn manifest_parse_chain_ok(bytes: Seq<u8>) -> bool {
    &&& envelope_entries(bytes) is Some
    &&& ({
        let es = envelope_entries(bytes)->Some_0;
        let mi = idx_of_name(es, "manifest.toml"@);
        let md = envelope_data(bytes, mi);
        &&& crate::archive::has_name(es, "manifest.toml"@)
        &&& crate::envelope::envelope_data_ok(bytes, mi)
        &&& vstd::utf8::valid_utf8(md)
        &&& crate::manifest_io::toml_ok(vstd::utf8::decode_utf8(md))
        &&& crate::manifest_io::manifest_schema_ok(vstd::utf8::decode_utf8(md))
    })
}

/// Whether the embedded verifier, given this parsed manifest, returns a
/// structured result rather than an error: there is no signature, or the
/// algorithm is supported and either the manifest hash already mismatches,
/// or any recorded payload hash has a readable payload entry and either it
/// mismatches or the signer identifier, key and signature bytes decode.
pub open spec fn manifest_verify_completes(m: SyncManifest, bytes: Seq<u8>) -> bool {
    m.signature is None || ({
        let sig = m.signature->Some_0;
        let es = envelope_entries(bytes)->Some_0;
        let pi = idx_of_name(es, "payload"@);
        &&& sig.algo@ == "Ed25519"@
        &&& (sig.manifest_hash@ != tagged_hash_of(manifest_canonical_json(m)) || ({
            &&& (sig.payload_hash is Some ==> crate::archive::has_name(es, "payload"@)
                && crate::envelope::envelope_data_ok(bytes, pi))
            &&& ((sig.payload_hash matches Some(ph)
                    && ph@ != tagged_hash_of(envelope_data(bytes, pi)))
                || (did_ok(m.meta.created_by@)
                    && ed25519_key_valid(did_key(m.meta.created_by@))
                    && b64_decode_of(sig.value@) is Some))
        }))
    })
}

/// Whether a manifest's embedded signature verifies over archive bytes: a
/// signature section is present, its recorded manifest hash is the tagged
/// hash of the manifest's canonical JSON, any recorded payload hash is the
/// tagged hash of the payload entry, and the signature bytes verify over
/// the canonical signing payload under the key in `created_by`.
pub open spec fn embedded_signature_valid(m: SyncManifest, bytes: Seq<u8>) -> bool {
    &&& m.signature matches Some(sig)
    &&& ({
        let sig = m.signature->Some_0;
        let did = m.meta.created_by@;
        &&& sig.manifest_hash@ == tagged_hash_of(manifest_canonical_json(m))
        &&& (sig.payload_hash matches Some(ph) && ({
            let es = envelope_entries(bytes)->Some_0;
            ph@ == tagged_hash_of(envelope_data(bytes, idx_of_name(es, "payload"@)))
        }) || sig.payload_hash is None)
        &&& did_ok(did)
        &&& ed25519_key_valid(did_key(did))
        &&& b64_decode_of(sig.value@) matches Some(sb)
        &&& b64_decode_of(sig.value@)->Some_0.len() == 64
        &&& ed25519_sig_valid(
            did_key(did),
            signing_payload_json(sig.manifest_hash@, sig.payload_hash, did, sig.timestamp@),
            b64_decode_of(sig.value@)->Some_0,
        )
    })
}

/// Verify an archive's embedded manifest signature. Malformed archives,
/// unreadable entries, unparseable manifests, unsupported algorithms and
/// undecodable signer identifiers raise errors; otherwise a structured
/// result comes back whose validity holds exactly when the embedded
/// signature verifies.
pub fn verify_manifest_signature(bytes: &Vec<u8>)
    -> (r: Result<ManifestSignatureResult, VerificationError>)
    ensures
        !manifest_parse_chain_ok(bytes@) ==> r is Err,
        r is Err ==> (!manifest_parse_chain_ok(bytes@)
            || exists|m: SyncManifest| #[trigger] manifest_fields_match(m, vstd::utf8::decode_utf8(
                envelope_data(
                    bytes@,
                    idx_of_name(envelope_entries(bytes@)->Some_0, "manifest.toml"@),
                ),
            )) && !manifest_verify_completes(m, bytes@)),
        r matches Ok(vr) ==> exists|m: SyncManifest| {
            let sig = m.signature->Some_0;
            &&& #[trigger] manifest_fields_match(m, vstd::utf8::decode_utf8(
                envelope_data(
                    bytes@,
                    idx_of_name(envelope_entries(bytes@)->Some_0, "manifest.toml"@),
                ),
            ))
            &&& manifest_verify_completes(m, bytes@)
            &&& vr.valid == embedded_signature_valid(m, bytes@)
            &&& (m.signature is Some
                ==> vr.manifest_hash@ == tagged_hash_of(manifest_canonical_json(m)))
            &&& (vr.valid ==> vr.error is None)
            &&& (!vr.valid ==> vr.error is Some)
            &&& (m.signature is Some && sig.algo@ == "Ed25519"@
                && sig.manifest_hash@ != tagged_hash_of(manifest_canonical_json(m))
                ==> (vr.error matches Some(msg) && msg@ == "manifest hash mismatch"@))
            &&& (m.signature is Some && sig.algo@ == "Ed25519"@
                && sig.manifest_hash@ == tagged_hash_of(manifest_canonical_json(m))
                && (sig.payload_hash matches Some(ph)
                    && ph@ != tagged_hash_of(envelope_data(
                        bytes@,
                        idx_of_name(envelope_entries(bytes@)->Some_0, "payload"@),
                    )))
                ==> (vr.error matches Some(msg) && msg@ == "payload hash mismatch"@))
        },
{
    proof {
        reveal_strlit("Ed25519");
        reveal_strlit("manifest hash mismatch");
        reveal_strlit("payload hash mismatch");
    }
    let entries = match zip_entry_list(bytes) {
        Some(v) => v,
        None => {
            return Err(VerificationError::InvalidFormat(
                String::from_str("Invalid sync archive"),
            ));
        },
    };
    let ghost es = envelope_entries(bytes@)->Some_0;
    proof {
        assert(entries@.map_values(|e: SyncEntry| entry_view(e)) =~= es);
    }
    let mi = match find_in(&entries, "manifest.toml") {
        Some(i) => i,
        None => {
            return Err(VerificationError::InvalidFormat(
                String::from_str("Missing manifest.toml"),
            ));
        },
    };
    let manifest_data = match zip_entry_bytes(bytes, mi) {
        Some(d) => d,
        None => {
            return Err(VerificationError::InvalidFormat(
                String::from_str("Failed to read manifest.toml"),
            ));
        },
    };
    let manifest = match SyncManifest::from_toml(manifest_data.as_slice()) {
        Ok(m) => m,
        Err(_) => {
            return Err(VerificationError::InvalidFormat(
                String::from_str("Invalid manifest.toml"),
            ));
        },
    };
    let signature = match &manifest.signature {
        Some(sig) => sig,
        None => {
            return Ok(ManifestSignatureResult {
                valid: false,
                manifest_hash: String::new(),
                payload_hash: None,
                error: Some(String::from_str("signature section missing")),
            });
        },
    };
    if !str_eq(signature.algo.as_str(), "Ed25519") {
        return Err(VerificationError::UnsupportedAlgorithm(signature.algo.clone()));
    }
    let canonical = canonical_manifest_json(&manifest);
    let manifest_hash = compute_content_hash(&canonical);
    if !str_eq(manifest_hash.as_str(), signature.manifest_hash.as_str()) {
        return Ok(ManifestSignatureResult {
            valid: false,
            manifest_hash,
            payload_hash: None,
            error: Some(String::from_str("manifest hash mismatch")),
        });
    }
    let mut payload_hash: Option<String> = None;
    if let Some(recorded) = &signature.payload_hash {
        let pi = match find_in(&entries, "payload") {
            Some(i) => i,
            None => {
                return Err(VerificationError::InvalidFormat(
                    String::from_str("Missing payload"),
                ));
            },
        };
        let payload_bytes = match zip_entry_bytes(bytes, pi) {
            Some(d) => d,
            None => {
                return Err(VerificationError::InvalidFormat(
                    String::from_str("Failed to read payload"),
                ));
            },
        };
        let computed = compute_content_hash(&payload_bytes);
        if !str_eq(computed.as_str(), recorded.as_str()) {
            return Ok(ManifestSignatureResult {
                valid: false,
                manifest_hash,
                payload_hash: Some(computed),
                error: Some(String::from_str("payload hash mismatch")),
            });
        }
        payload_hash = Some(computed);
    }
    let signing = signing_payload(
        signature.manifest_hash.as_str(),
        &signature.payload_hash,
        manifest.meta.created_by.as_str(),
        signature.timestamp.as_str(),
    );
    let public_key_bytes = match extract_public_key(manifest.meta.created_by.as_str()) {
        Ok(k) => k,
        Err(_) => {
            return Err(VerificationError::InvalidPublicKey(
                String::from_str("signer identifier does not decode"),
            ));
        },
    };
    if !ed25519_check_key(&public_key_bytes) {
        return Err(VerificationError::InvalidPublicKey(
            String::from_str("signer key is not a curve point"),
        ));
    }
    let signature_bytes = match decode_payload_base64(signature.value.as_str()) {
        Some(b) => b,
        None => {
            return Err(VerificationError::InvalidSignature(
                String::from_str("Invalid base64 signature"),
            ));
        },
    };
    if signature_bytes.len() != 64 {
        return Ok(ManifestSignatureResult {
            valid: false,
            manifest_hash,
            payload_hash,
            error: Some(String::from_str("Invalid signature length")),
        });
    }
    if ed25519_verify(&public_key_bytes, &signing, &signature_bytes) {
        Ok(ManifestSignatureResult {
            valid: true,
            manifest_hash,
            payload_hash,
            error: None,
        })
    } else {
        Ok(ManifestSignatureResult {
            valid: false,
            manifest_hash,
            payload_hash,
            error: Some(String::from_str("Signature verification failed")),
        })
    }
}

/// Find an entry index by name.
fn find_in(entries: &Vec<SyncEntry>, name: &str) -> (r: Option<usize>)
    ensures
        ({
            let es = entries@.map_values(|e: SyncEntry| entry_view(e));
            match r {
                Some(i) => i < entries@.len() && idx_of_name(es, name@) == i,
                None => idx_of_name(es, name@) < 0,
            }
        }),
{
    let ghost es = entries@.map_values(|e: SyncEntry| entry_view(e));
    let n = entries.len();
    let mut i: usize = 0;
    while i < n
        invariant
            n == entries@.len(),
            es == entries@.map_values(|e: SyncEntry| entry_view(e)),
            i <= n,
            forall|j: int| 0 <= j < i ==> (#[trigger] es[j]).0 != name@,
        decreases n - i,
    {
        if str_eq(entries[i].name.as_str(), name) {
            proof {
                assert(es[i as int].0 == name@);
                crate::archive::lemma_idx_at(es, name@, i as int);
            }
            return Some(i);
        }
        assert(es[i as int].0 != name@);
        i += 1;
    }
    proof {
        crate::archive::lemma_idx_absent(es, name@);
    }
    None
}

} // verus!
