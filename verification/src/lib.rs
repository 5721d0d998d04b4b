//! Core library for the `.sync` portable execution container: archive
//! layout and atomic payload rewrites, manifest policy, signature
//! verification, session permissions, sandbox host-call semantics, and the
//! store and virtual-filesystem views over archives.

pub mod archive;
pub mod builder;
pub mod crypto;
pub mod engine;
pub mod envelope;
pub mod jsoncanon;
pub mod manifest;
pub mod manifest_io;
pub mod remote;
pub mod session;
pub mod store;
pub mod strutil;
pub mod verification;
pub mod vfs;

pub use archive::{SyncArchive, read_payload_bytes, update_payload_bytes};
pub use builder::SyncBuilder;
pub use envelope::SyncEntry;
pub use manifest::{
    EncryptionMeta, Manifest, ManifestCapabilities, ManifestEncryption, ManifestMetadata,
    ManifestOwnership, ManifestPermissions, ManifestPolicy, ManifestSignature,
    ManifestVerification, SyncManifest, SyncSection, SyncVariant,
};
pub use session::{
    GuestAction, GuestContext, GuestContextRole, GuestError, GuestErrorCode, GuestMode,
    GuestPermission, GuestSession, WidgetBounds, GUEST_PROTOCOL_VERSION,
};
pub use crypto::{decode_payload_base64, encode_payload_base64, decrypt_data, encrypt_data};
pub use store::{ManifestTemplate, SyncStore, SyncStoreError};
pub use verification::{
    ManifestSignatureResult, SyncSignature, VerificationError, VerificationResult,
    compute_content_hash, extract_public_key, verify_manifest_signature, verify_sync_file,
};
pub use vfs::{VfsEntry, VfsMount, VfsMountConfig};
pub use engine::{ExecutionConfig, ExecutionResult, HostState};
pub use remote::{CacheConfig, RemoteMountConfig, parse_addr};

use vstd::prelude::*;

verus! {

/// Errors that can occur when working with `.sync` archives.
#[derive(Debug, Clone)]
pub enum Error {
    /// The archive format is invalid.
    InvalidFormat(String),
    /// A required entry is missing from the archive.
    MissingEntry(String),
    /// The manifest is malformed or violates the schema.
    ManifestError(String),
    /// A computed hash does not match a recorded one.
    HashMismatch,
    /// The payload entry is absent.
    PayloadNotFound,
    /// The payload could not be decrypted.
    DecryptError(String),
    /// The payload could not be encrypted.
    EncryptError(String),
    /// The envelope library rejected the archive bytes.
    ZipError(String),
    /// An input/output failure, with its description.
    IoError(String),
    /// The manifest text is not valid TOML.
    TomlError(String),
    /// A JSON document could not be produced or read.
    JsonError(String),
    /// A timestamp could not be parsed.
    ChronoError(String),
}

/// Network scope for share policy decisions.
#[derive(Debug, Clone, Copy, PartialEq, Eq, Structural)]
pub enum NetworkScope {
    /// Local network (trusted).
    Local,
    /// Wide area network (untrusted).
    Wan,
}

/// Policy for sharing `.sync` archives across networks.
#[derive(Debug, Clone, Copy, PartialEq, Eq, Structural)]
pub enum SharePolicy {
    /// Share only the logic (WASM module) without a data snapshot.
    LogicOnly,
    /// Share with a verified data snapshot.
    VerifiedSnapshot,
}

impl SharePolicy {
    /// Determine the appropriate share policy for a network scope: a local
    /// scope shares logic only, a wide-area scope shares a verified snapshot.
    pub fn for_network(scope: NetworkScope) -> (r: Self)
        ensures
            r == (match scope {
                NetworkScope::Local => SharePolicy::LogicOnly,
                NetworkScope::Wan => SharePolicy::VerifiedSnapshot,
            }),
    {
        match scope {
            NetworkScope::Local => SharePolicy::LogicOnly,
            NetworkScope::Wan => SharePolicy::VerifiedSnapshot,
        }
    }
}

} // verus!
