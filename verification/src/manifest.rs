//! The manifest: the declarative document governing a `.sync` archive's
//! policy, permissions, ownership, verification, capabilities, encryption
//! and signature, together with the policy checks evaluated over it.

use vstd::prelude::*;
use vstd::string::*;
use crate::strutil::{str_eq, str_ends_with};

verus! {

/// Sync variant type: how the archive's payload is to be treated.
#[derive(Debug, Clone, Copy, PartialEq, Eq, Structural)]
pub enum SyncVariant {
    /// Plain unencrypted data (the default).
    Plain,
    /// Encrypted vault mode.
    Vault,
    /// Application capsule.
    App,
    /// Generic data written by host applications.
    Data,
}

impl Default for SyncVariant {
    fn default() -> (r: Self)
        ensures
            r == SyncVariant::Plain,
    {
        SyncVariant::Plain
    }
}

/// The textual name of a variant.
pub open spec fn variant_name(v: SyncVariant) -> Seq<char> {
    match v {
        SyncVariant::Plain => "plain"@,
        SyncVariant::Vault => "vault"@,
        SyncVariant::App => "app"@,
        SyncVariant::Data => "data"@,
    }
}

/// ASCII lowercase of one character.
pub open spec fn lower_char(c: char) -> char {
    if 'A' <= c && c <= 'Z' {
        ((c as u8) + 32) as char
    } else {
        c
    }
}

/// ASCII lowercase of a character sequence.
pub open spec fn lower_ascii(s: Seq<char>) -> Seq<char> {
    s.map_values(|c: char| lower_char(c))
}

/// Compare `s` case-insensitively (ASCII) against an already-lowercase word.
/// The result says exactly that the ASCII-lowercase of `s` is that word.
pub fn eq_ignore_ascii(s: &str, lit: &str) -> (r: bool)
    ensures
        r == (lower_ascii(s@) == lit@),
{
    let slen = s.unicode_len();
    let llen = lit.unicode_len();
    if slen != llen {
        assert(lower_ascii(s@).len() == s@.len());
        return false;
    }
    let mut i: usize = 0;
    while i < slen
        invariant
            slen == s@.len(),
            llen == lit@.len(),
            slen == llen,
            i <= slen,
            forall|j: int| 0 <= j < i ==> lower_char(s@[j]) == lit@[j],
        decreases slen - i,
    {
        let c = s.get_char(i);
        let lc: char = if 'A' <= c && c <= 'Z' {
            ((c as u8) + 32) as char
        } else {
            c
        };
        assert(lc == lower_char(s@[i as int]));
        if lc != lit.get_char(i) {
            assert(lower_ascii(s@)[i as int] != lit@[i as int]);
            return false;
        }
        i += 1;
    }
    assert(lower_ascii(s@) =~= lit@);
    true
}

impl SyncVariant {
    /// The variant's textual name.
    pub fn as_str(&self) -> (r: &'static str)
        ensures
            r@ == variant_name(*self),
    {
        proof {
            reveal_strlit("plain");
            reveal_strlit("vault");
            reveal_strlit("app");
            reveal_strlit("data");
        }
        match self {
            SyncVariant::Plain => "plain",
            SyncVariant::Vault => "vault",
            SyncVariant::App => "app",
            SyncVariant::Data => "data",
        }
    }

    /// Parse a variant name, ignoring ASCII case; unknown names are rejected.
    pub fn parse(s: &str) -> (r: Option<SyncVariant>)
        ensures
            r == Some(SyncVariant::Plain) <==> lower_ascii(s@) == "plain"@,
            r == Some(SyncVariant::Vault) <==> lower_ascii(s@) == "vault"@,
            r == Some(SyncVariant::App) <==> lower_ascii(s@) == "app"@,
            r == Some(SyncVariant::Data) <==> lower_ascii(s@) == "data"@,
            r is None <==> (lower_ascii(s@) != "plain"@ && lower_ascii(s@) != "vault"@
                && lower_ascii(s@) != "app"@ && lower_ascii(s@) != "data"@),
    {
        proof {
            reveal_strlit("plain");
            reveal_strlit("vault");
            reveal_strlit("app");
            reveal_strlit("data");
            assert("plain"@ != "vault"@) by {
                assert("plain"@[0] == 'p');
                assert("vault"@[0] == 'v');
            }
            assert("plain"@.len() == 5 && "vault"@.len() == 5);
            assert("app"@.len() == 3 && "data"@.len() == 4);
        }
        if eq_ignore_ascii(s, "plain") {
            Some(SyncVariant::Plain)
        } else if eq_ignore_ascii(s, "vault") {
            Some(SyncVariant::Vault)
        } else if eq_ignore_ascii(s, "app") {
            Some(SyncVariant::App)
        } else if eq_ignore_ascii(s, "data") {
            Some(SyncVariant::Data)
        } else {
            None
        }
    }
}

/// The `[sync]` section of the manifest.
#[derive(Debug, Clone)]
pub struct SyncSection {
    /// Format version (e.g. "1.2", "1.3").
    pub version: String,
    /// Media type of the payload content.
    pub content_type: String,
    /// Display extension for the payload, without a leading dot.
    pub display_ext: String,
    /// Sync variant.
    pub variant: SyncVariant,
}

/// The `[meta]` section of the manifest.
#[derive(Debug, Clone)]
pub struct ManifestMetadata {
    /// Identity of the creator, a `did:key` string for signed archives.
    pub created_by: String,
    /// Timestamp of creation, with timezone.
    pub created_at: String,
    /// Hash algorithm used (e.g. "blake3").
    pub hash_algo: String,
}

/// The `[policy]` section of the manifest.
#[derive(Debug, Clone)]
pub struct ManifestPolicy {
    /// Time-to-live in seconds.
    pub ttl: u64,
    /// Execution timeout in seconds.
    pub timeout: u64,
}

impl Default for ManifestPolicy {
    fn default() -> (r: Self)
        ensures
            r.ttl == 3600 && r.timeout == 30,
    {
        ManifestPolicy { ttl: 3600, timeout: 30 }
    }
}

/// The `[permissions]` section of the manifest.
#[derive(Debug, Clone)]
pub struct ManifestPermissions {
    /// Host patterns the archive may reach.
    pub allow_hosts: Vec<String>,
    /// Environment variable names the archive may read.
    pub allow_env: Vec<String>,
}

impl Default for ManifestPermissions {
    fn default() -> (r: Self)
        ensures
            r.allow_hosts@.len() == 0 && r.allow_env@.len() == 0,
    {
        ManifestPermissions { allow_hosts: Vec::new(), allow_env: Vec::new() }
    }
}

/// The `[ownership]` section of the manifest.
#[derive(Debug, Clone)]
pub struct ManifestOwnership {
    /// Optional owner capsule identifier.
    pub owner_capsule: Option<String>,
    /// Whether writing is allowed.
    pub write_allowed: bool,
}

impl Default for ManifestOwnership {
    fn default() -> (r: Self)
        ensures
            r.owner_capsule is None && !r.write_allowed,
    {
        ManifestOwnership { owner_capsule: None, write_allowed: false }
    }
}

/// The `[verification]` section of the manifest.
#[derive(Debug, Clone)]
pub struct ManifestVerification {
    /// Whether verification is enabled.
    pub enabled: bool,
    /// Type of VM for verification.
    pub vm_type: Option<String>,
    /// Type of proof for verification.
    pub proof_type: Option<String>,
}

impl Default for ManifestVerification {
    fn default() -> (r: Self)
        ensures
            !r.enabled && r.vm_type is None && r.proof_type is None,
    {
        ManifestVerification { enabled: false, vm_type: None, proof_type: None }
    }
}

/// Encryption metadata: non-authoritative hints for user interfaces.
#[derive(Debug, Clone)]
pub struct EncryptionMeta {
    /// Key names.
    pub keys: Vec<String>,
    /// Recipients.
    pub recipients: Vec<String>,
    /// Key derivation function.
    pub kdf: Option<String>,
    /// User-facing hint message.
    pub hint: Option<String>,
}

impl Default for EncryptionMeta {
    fn default() -> (r: Self)
        ensures
            r.keys@.len() == 0 && r.recipients@.len() == 0 && r.kdf is None && r.hint is None,
    {
        EncryptionMeta { keys: Vec::new(), recipients: Vec::new(), kdf: None, hint: None }
    }
}

/// The `[encryption]` section of the manifest.
#[derive(Debug, Clone)]
pub struct ManifestEncryption {
    /// Whether the payload is encrypted.
    pub enabled: bool,
    /// Algorithm used (e.g. "age-v1").
    pub algorithm: Option<String>,
    /// Non-authoritative hint metadata.
    pub meta: Option<EncryptionMeta>,
}

impl Default for ManifestEncryption {
    fn default() -> (r: Self)
        ensures
            !r.enabled && r.algorithm is None && r.meta is None,
    {
        ManifestEncryption { enabled: false, algorithm: None, meta: None }
    }
}

/// The `[capabilities]` section of the manifest.
#[derive(Debug, Clone)]
pub struct ManifestCapabilities {
    /// Capability identifiers.
    pub values: Vec<String>,
}

impl Default for ManifestCapabilities {
    fn default() -> (r: Self)
        ensures
            r.values@.len() == 0,
    {
        ManifestCapabilities { values: Vec::new() }
    }
}

/// The `[signature]` section of the manifest.
#[derive(Debug, Clone)]
pub struct ManifestSignature {
    /// Signature algorithm; only "Ed25519" is supported.
    pub algo: String,
    /// Tagged hash of the canonicalized manifest.
    pub manifest_hash: String,
    /// Optional tagged hash of the payload.
    pub payload_hash: Option<String>,
    /// Signing timestamp.
    pub timestamp: String,
    /// Base64-encoded signature bytes.
    pub value: String,
}

/// Complete manifest for a `.sync` archive.
#[derive(Debug, Clone)]
pub struct SyncManifest {
    /// The sync format section.
    pub sync: SyncSection,
    /// Metadata section.
    pub meta: ManifestMetadata,
    /// Policy section.
    pub policy: ManifestPolicy,
    /// Permissions section.
    pub permissions: ManifestPermissions,
    /// Ownership section.
    pub ownership: ManifestOwnership,
    /// Verification section.
    pub verification: ManifestVerification,
    /// Capabilities section.
    pub capabilities: ManifestCapabilities,
    /// Signature section, absent for unsigned archives.
    pub signature: Option<ManifestSignature>,
    /// Encryption settings.
    pub encryption: ManifestEncryption,
}

/// Type alias kept for callers that use the short name.
pub type Manifest = SyncManifest;

/// Whether one allowlist pattern admits a host: either the pattern equals
/// the host, or it is a `*.suffix` pattern and the host ends with the
/// suffix.
pub open spec fn manifest_host_match(pat: Seq<char>, host: Seq<char>) -> bool {
    pat == host || ("*."@.is_prefix_of(pat) && pat.skip(2).is_suffix_of(host))
}

/// Whether a manifest allowlist admits a host: the list is non-empty and
/// some pattern matches.
pub open spec fn manifest_host_allowed(allow: Seq<String>, host: Seq<char>) -> bool {
    allow.len() > 0 && exists|i: int|
        0 <= i < allow.len() && manifest_host_match(#[trigger] allow[i]@, host)
}

impl SyncManifest {
    /// Whether this archive is a vault: the variant says so, or encryption is
    /// enabled.
    pub fn is_vault(&self) -> (r: bool)
        ensures
            r == (self.sync.variant == SyncVariant::Vault || self.encryption.enabled),
    {
        self.sync.variant == SyncVariant::Vault || self.encryption.enabled
    }

    /// Whether this archive is an application capsule.
    pub fn is_app(&self) -> (r: bool)
        ensures
            r == (self.sync.variant == SyncVariant::App),
    {
        self.sync.variant == SyncVariant::App
    }

    /// The effective execution timeout in seconds.
    pub fn timeout_secs(&self) -> (r: u64)
        ensures
            r == self.policy.timeout,
    {
        self.policy.timeout
    }

    /// Whether writing is allowed by the ownership settings.
    pub fn is_write_allowed(&self) -> (r: bool)
        ensures
            r == self.ownership.write_allowed,
    {
        self.ownership.write_allowed
    }

    /// Whether a host is admitted by the manifest allowlist: an empty list
    /// admits nothing; otherwise some pattern must equal the host exactly,
    /// or be a `*.suffix` pattern whose suffix ends the host.
    pub fn is_host_allowed(&self, host: &str) -> (r: bool)
        ensures
            r == manifest_host_allowed(self.permissions.allow_hosts@, host@),
    {
        let n = self.permissions.allow_hosts.len();
        if n == 0 {
            return false;
        }
        let mut i: usize = 0;
        while i < n
            invariant
                n == self.permissions.allow_hosts@.len(),
                i <= n,
                forall|j: int| 0 <= j < i
                    ==> !manifest_host_match(#[trigger] self.permissions.allow_hosts@[j]@, host@),
            decreases n - i,
        {
            proof {
                reveal_strlit("*.");
            }
            let pat = &self.permissions.allow_hosts[i];
            if str_eq(pat.as_str(), host) {
                return true;
            }
            if crate::strutil::str_starts_with(pat.as_str(), "*.") {
                let plen = pat.as_str().unicode_len();
                let suffix = pat.as_str().substring_char(2, plen);
                assert(suffix@ =~= pat@.skip(2));
                if str_ends_with(host, suffix) {
                    return true;
                }
            }
            i += 1;
        }
        false
    }

    /// Whether the archive has expired: given the creation time and the
    /// current time as seconds since the epoch, expiry is strictly after
    /// creation plus the policy's time-to-live.
    pub fn is_expired_given(&self, created_epoch: i64, now_epoch: i64) -> (r: bool)
        ensures
            r == (now_epoch > created_epoch + self.policy.ttl),
    {
        let expires: i128 = created_epoch as i128 + self.policy.ttl as i128;
        (now_epoch as i128) > expires
    }

    /// Seconds remaining until expiry: zero once expired.
    pub fn expires_in_given(&self, created_epoch: i64, now_epoch: i64) -> (r: i64)
        requires
            created_epoch + self.policy.ttl <= i64::MAX,
            created_epoch + self.policy.ttl - now_epoch <= i64::MAX,
    ensures
            now_epoch > created_epoch + self.policy.ttl ==> r == 0,
            now_epoch <= created_epoch + self.policy.ttl
                ==> r == created_epoch + self.policy.ttl - now_epoch,
    {
        let expires: i128 = created_epoch as i128 + self.policy.ttl as i128;
        if (now_epoch as i128) > expires {
            0
        } else {
            (expires - now_epoch as i128) as i64
        }
    }
}

/// The epoch seconds a timestamp with timezone denotes, when it parses.
pub uninterp spec fn rfc3339_epoch_of(s: Seq<char>) -> Option<i64>;

/// Relies on `chrono::DateTime::parse_from_rfc3339`: whether and how a
/// timestamp parses depends on the text alone.
#[verifier::external_body]
pub(crate) fn parse_rfc3339_epoch(s: &str) -> (r: Option<i64>)
    ensures
        r == rfc3339_epoch_of(s@),
{
    chrono::DateTime::parse_from_rfc3339(s).ok().map(|t| t.timestamp())
}

impl SyncManifest {
    /// The creation time as seconds since the epoch; fails when the
    /// recorded timestamp does not parse.
    pub fn created_at_epoch(&self) -> (r: Result<i64, crate::Error>)
        ensures
            r is Ok <==> rfc3339_epoch_of(self.meta.created_at@) is Some,
            r matches Ok(t) ==> rfc3339_epoch_of(self.meta.created_at@) == Some(t),
            r matches Err(e) ==> e is ManifestError,
    {
        match parse_rfc3339_epoch(self.meta.created_at.as_str()) {
            Some(t) => Ok(t),
            None => Err(crate::Error::ManifestError(
                String::from_str("created_at does not parse"),
            )),
        }
    }

    /// Whether the archive has expired at the given current time: strictly
    /// after creation plus the time-to-live. Fails when the recorded
    /// timestamp does not parse.
    pub fn is_expired_at(&self, now_epoch: i64) -> (r: Result<bool, crate::Error>)
        ensures
            r is Ok <==> rfc3339_epoch_of(self.meta.created_at@) is Some,
            r matches Ok(b) ==> b == (now_epoch
                > rfc3339_epoch_of(self.meta.created_at@)->Some_0 + self.policy.ttl),
    {
        let created = match self.created_at_epoch() {
            Ok(t) => t,
            Err(e) => {
                return Err(e);
            },
        };
        Ok(self.is_expired_given(created, now_epoch))
    }
}

} // verus!
