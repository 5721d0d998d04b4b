//! The archive store: a directory of archives addressed by relative paths.
//! Here live the rules that keep every operation inside the store's root —
//! path normalization, the `.sync` suffix, display extensions — and the
//! manifest template new archives are created from. The directory I/O
//! around them stays outside the library.

use vstd::prelude::*;
use vstd::string::*;
use crate::manifest::{
    Manifest, ManifestCapabilities, ManifestEncryption, ManifestMetadata, ManifestOwnership,
    ManifestPermissions, ManifestPolicy, ManifestVerification, SyncSection, SyncVariant,
};
use crate::strutil::{find_last_char, normalize_ext_exec, normalized_ext, str_ends_with};
use crate::manifest::eq_ignore_ascii;

verus! {

/// Store-level failures.
#[derive(Debug, Clone)]
pub enum SyncStoreError {
    /// The archive name is empty or has no file part.
    InvalidName(String),
    /// The path escapes the store or holds a forbidden component.
    InvalidPath(String),
    /// An input/output failure, with its description.
    Io(String),
    /// The archive envelope could not be read or written.
    Envelope(String),
    /// The manifest could not be serialized.
    ManifestForm(String),
}

/// Whether position `i` starts a `..` path component in `s`.
pub open spec fn parent_component_at(s: Seq<char>, i: int) -> bool {
    &&& 0 <= i
    &&& i + 2 <= s.len()
    &&& s[i] == '.'
    &&& s[i + 1] == '.'
    &&& (i == 0 || s[i - 1] == '/')
    &&& (i + 2 == s.len() || s[i + 2] == '/')
}

/// Whether a path holds a parent-directory component.
pub open spec fn has_parent_component(s: Seq<char>) -> bool {
    exists|i: int| parent_component_at(s, i)
}

/// What remains of a path after its leading slashes.
pub open spec fn trim_slashes(s: Seq<char>) -> Seq<char>
    decreases s.len(),
{
    if s.len() > 0 && s[0] == '/' {
        trim_slashes(s.skip(1))
    } else {
        s
    }
}

/// Drop leading slashes from a path.
fn trim_slashes_exec(s: &str) -> (r: &str)
    ensures
        r@ == trim_slashes(s@),
{
    let len = s.unicode_len();
    let mut a: usize = 0;
    assert(s@.skip(0) =~= s@);
    while a < len && s.get_char(a) == '/'
        invariant
            len == s@.len(),
            a <= len,
            trim_slashes(s@) == trim_slashes(s@.skip(a as int)),
        decreases len - a,
    {
        proof {
            assert(s@.skip(a as int).skip(1) =~= s@.skip(a as int + 1));
        }
        a += 1;
    }
    let r = s.substring_char(a, len);
    proof {
        let rest = s@.skip(a as int);
        assert(!(rest.len() > 0 && rest[0] == '/'));
        assert(r@ =~= rest);
    }
    r
}

/// Normalize a store-relative path: leading slashes are dropped; an empty
/// result is rejected as an invalid name, and any `..` component is rejected
/// as an invalid path.
pub fn normalize_relative_path(path: &str) -> (r: Result<String, SyncStoreError>)
    ensures
        match r {
            Ok(p) => {
                let t = trim_slashes(path@);
                p@ == t && t.len() > 0 && !has_parent_component(t)
            },
            Err(SyncStoreError::InvalidName(orig)) => orig@ == path@
                && trim_slashes(path@).len() == 0,
            Err(SyncStoreError::InvalidPath(orig)) => orig@ == path@
                && has_parent_component(trim_slashes(path@)),
            Err(_) => false,
        },
{
    let trimmed = trim_slashes_exec(path);
    let tlen = trimmed.unicode_len();
    if tlen == 0 {
        return Err(SyncStoreError::InvalidName(String::from_str(path)));
    }
    let mut i: usize = 0;
    while i < tlen
        invariant
            tlen == trimmed@.len(),
            i <= tlen,
            trimmed@ == trim_slashes(path@),
            forall|j: int| 0 <= j < i ==> !parent_component_at(trimmed@, j),
        decreases tlen - i,
    {
        let starts_ok = i == 0 || trimmed.get_char(i - 1) == '/';
        if starts_ok && tlen - i >= 2 && trimmed.get_char(i) == '.'
            && trimmed.get_char(i + 1) == '.'
            && (i + 2 == tlen || trimmed.get_char(i + 2) == '/') {
            assert(parent_component_at(trimmed@, i as int));
            return Err(SyncStoreError::InvalidPath(String::from_str(path)));
        }
        assert(!parent_component_at(trimmed@, i as int));
        i += 1;
    }
    assert(!has_parent_component(trimmed@)) by {
        if has_parent_component(trimmed@) {
            let j = choose|j: int| parent_component_at(trimmed@, j);
            assert(0 <= j < tlen);
        }
    }
    Ok(String::from_str(trimmed))
}

/// A path with its trailing slashes and trailing `.` components removed,
/// as a path walk skips them when taking the final component.
pub open spec fn trim_trailing(s: Seq<char>) -> Seq<char>
    decreases s.len(),
{
    if s.len() > 0 && s.last() == '/' {
        trim_trailing(s.drop_last())
    } else if s.len() > 0 && s.last() == '.' && (s.len() == 1 || s[s.len() - 2] == '/') {
        trim_trailing(s.drop_last())
    } else {
        s
    }
}

/// Drop trailing slashes and trailing `.` components from a path.
fn trim_trailing_exec(s: &str) -> (r: &str)
    ensures
        r@ == trim_trailing(s@),
{
    let len = s.unicode_len();
    let mut b: usize = len;
    assert(s@.take(len as int) =~= s@);
    while b > 0 && (s.get_char(b - 1) == '/'
        || (s.get_char(b - 1) == '.' && (b == 1 || s.get_char(b - 2) == '/')))
        invariant
            len == s@.len(),
            b <= len,
            trim_trailing(s@) == trim_trailing(s@.take(b as int)),
        decreases b,
    {
        proof {
            assert(s@.take(b as int).drop_last() =~= s@.take(b as int - 1));
            assert(s@.take(b as int).last() == s@[b as int - 1]);
            assert(b >= 2 ==> s@.take(b as int)[b as int - 2] == s@[b as int - 2]);
        }
        b -= 1;
    }
    let r = s.substring_char(0, b);
    proof {
        let t = s@.take(b as int);
        assert(!(t.len() > 0 && t.last() == '/'));
        assert(!(t.len() > 0 && t.last() == '.' && (t.len() == 1 || t[t.len() - 2] == '/')));
        assert(r@ =~= t);
    }
    r
}

/// The name with a `.sync` suffix appended unless already present.
pub open spec fn with_sync_ext(name: Seq<char>) -> Seq<char> {
    if ".sync"@.is_suffix_of(name) {
        name
    } else {
        name + ".sync"@
    }
}

/// Ensure a file name carries the `.sync` extension.
pub fn ensure_sync_extension(name: &str) -> (r: String)
    ensures
        r@ == with_sync_ext(name@),
{
    proof {
        reveal_strlit(".sync");
    }
    if str_ends_with(name, ".sync") {
        String::from_str(name)
    } else {
        let mut s = String::from_str(name);
        s.append(".sync");
        s
    }
}

/// The name without a trailing `.sync`, when present.
pub open spec fn without_sync_ext(name: Seq<char>) -> Seq<char> {
    if ".sync"@.is_suffix_of(name) {
        name.take(name.len() - 5)
    } else {
        name
    }
}

/// The extension a display name derives from a store name: the part after
/// the last dot of the final path component, once leading slashes and a
/// trailing `.sync` are removed; a component without an inner dot gives an
/// empty extension.
pub open spec fn display_ext_of_name(name: Seq<char>) -> Seq<char> {
    let t = without_sync_ext(trim_slashes(name));
    let base = {
        let sl = crate::engine::first_char_idx(t.reverse(), '/');
        if sl < 0 {
            t
        } else {
            t.skip(t.len() - sl)
        }
    };
    let d = crate::engine::first_char_idx(base.reverse(), '.');
    if d < 0 || d == base.len() - 1 {
        Seq::empty()
    } else {
        base.skip(base.len() - d)
    }
}

/// Extract the display extension from a store name, as the original file's
/// trailing extension before any `.sync` suffix.
pub fn display_ext_from_name(name: &str) -> (r: String)
    ensures
        r@ == display_ext_of_name(name@),
{
    proof {
        reveal_strlit(".sync");
    }
    let trimmed = trim_slashes_exec(name);
    let tlen = trimmed.unicode_len();
    let without: &str = if str_ends_with(trimmed, ".sync") {
        let w = trimmed.substring_char(0, tlen - 5);
        assert(w@ =~= without_sync_ext(trimmed@));
        w
    } else {
        trimmed
    };
    let wlen = without.unicode_len();
    let base: &str = match find_last_char(without, '/') {
        None => {
            proof {
                lemma_reverse_first_none(without@, '/');
            }
            without
        },
        Some(sl) => {
            proof {
                lemma_reverse_first_at(without@, '/', sl as int);
            }
            let b = without.substring_char(sl + 1, wlen);
            assert(b@ =~= without@.skip(sl + 1));
            b
        },
    };
    let blen = base.unicode_len();
    match find_last_char(base, '.') {
        None => {
            proof {
                lemma_reverse_first_none(base@, '.');
            }
            String::new()
        },
        Some(d) => {
            proof {
                lemma_reverse_first_at(base@, '.', d as int);
            }
            if d == 0 {
                String::new()
            } else {
                let e = base.substring_char(d + 1, blen);
                assert(e@ =~= base@.skip(d + 1));
                String::from_str(e)
            }
        },
    }
}

/// A last occurrence at `i` puts the first reversed occurrence at
/// `len - 1 - i`.
pub proof fn lemma_reverse_first_at(s: Seq<char>, c: char, i: int)
    requires
        0 <= i < s.len(),
        s[i] == c,
        forall|j: int| i < j < s.len() ==> s[j] != c,
    ensures
        crate::engine::first_char_idx(s.reverse(), c) == s.len() - 1 - i,
{
    let r = s.reverse();
    assert(r[s.len() - 1 - i] == c);
    assert(forall|j: int| 0 <= j < s.len() - 1 - i ==> r[j] != c) by {
        assert(forall|j: int| 0 <= j < s.len() - 1 - i
            ==> #[trigger] r[j] == s[s.len() - 1 - j] && i < s.len() - 1 - j < s.len());
    }
    lemma_first_char_found(r, c, s.len() - 1 - i);
}

/// No occurrence anywhere means none in the reversal either.
pub proof fn lemma_reverse_first_none(s: Seq<char>, c: char)
    requires
        forall|j: int| 0 <= j < s.len() ==> s[j] != c,
    ensures
        crate::engine::first_char_idx(s.reverse(), c) < 0,
{
    let r = s.reverse();
    assert(forall|j: int| 0 <= j < r.len() ==> #[trigger] r[j] == s[s.len() - 1 - j]);
    lemma_first_char_absent(r, c);
}

proof fn lemma_first_char_found(s: Seq<char>, c: char, i: int)
    requires
        0 <= i < s.len(),
        s[i] == c,
        forall|j: int| 0 <= j < i ==> s[j] != c,
    ensures
        crate::engine::first_char_idx(s, c) == i,
    decreases i,
{
    if i > 0 {
        lemma_first_char_found(s.skip(1), c, i - 1);
    }
}

proof fn lemma_first_char_absent(s: Seq<char>, c: char)
    requires
        forall|j: int| 0 <= j < s.len() ==> s[j] != c,
    ensures
        crate::engine::first_char_idx(s, c) < 0,
    decreases s.len(),
{
    if s.len() > 0 {
        lemma_first_char_absent(s.skip(1), c);
    }
}

/// The manifest template a store stamps new archives from.
#[derive(Debug, Clone)]
pub struct ManifestTemplate {
    /// Identity recorded as the creator.
    pub created_by: String,
    /// Default time-to-live in seconds.
    pub default_ttl: u64,
    /// Default execution timeout in seconds.
    pub default_timeout: u64,
    /// Default host allowlist.
    pub allow_hosts: Vec<String>,
}

impl Default for ManifestTemplate {
    fn default() -> (r: Self)
        ensures
            r.created_by@ == "sync-fs"@,
            r.default_ttl == 3600,
            r.default_timeout == 30,
            r.allow_hosts@.len() == 0,
    {
        ManifestTemplate {
            created_by: String::from_str("sync-fs"),
            default_ttl: 3600,
            default_timeout: 30,
            allow_hosts: Vec::new(),
        }
    }
}

impl ManifestTemplate {
    /// Stamp a manifest for a new archive: plain variant, format version
    /// `1.2`, `blake3` hashes, the template's policy and host allowlist, and
    /// the given content type, display extension (normalized) and creation
    /// time.
    pub fn to_manifest(&self, content_type: &str, display_ext: &str, created_at: &str)
        -> (r: Manifest)
        ensures
            r.sync.version@ == "1.2"@,
            r.sync.content_type@ == content_type@,
            r.sync.display_ext@ == normalized_ext(display_ext@),
            r.sync.variant == SyncVariant::Plain,
            r.meta.created_by@ == self.created_by@,
            r.meta.created_at@ == created_at@,
            r.meta.hash_algo@ == "blake3"@,
            r.policy.ttl == self.default_ttl,
            r.policy.timeout == self.default_timeout,
            r.permissions.allow_hosts@ == self.allow_hosts@,
            r.permissions.allow_env@.len() == 0,
            !r.ownership.write_allowed,
            r.ownership.owner_capsule is None,
            !r.verification.enabled,
            r.capabilities.values@.len() == 0,
            r.signature is None,
            !r.encryption.enabled,
    {
        Manifest {
            sync: SyncSection {
                version: String::from_str("1.2"),
                content_type: String::from_str(content_type),
                display_ext: String::from_str(normalize_ext_exec(display_ext)),
                variant: SyncVariant::Plain,
            },
            meta: ManifestMetadata {
                created_by: self.created_by.clone(),
                created_at: String::from_str(created_at),
                hash_algo: String::from_str("blake3"),
            },
            policy: ManifestPolicy { ttl: self.default_ttl, timeout: self.default_timeout },
            permissions: ManifestPermissions {
                allow_hosts: self.allow_hosts.clone(),
                allow_env: Vec::new(),
            },
            ownership: ManifestOwnership::default(),
            verification: ManifestVerification::default(),
            capabilities: ManifestCapabilities::default(),
            signature: None,
            encryption: ManifestEncryption::default(),
        }
    }
}

/// A store: a base directory of archives and the template new ones follow.
#[derive(Debug, Clone)]
pub struct SyncStore {
    /// Root directory of the store.
    pub base_dir: String,
    /// Template for new manifests.
    pub manifest_template: ManifestTemplate,
    /// Minimal module bytes stamped into new archives.
    pub minimal_wasm: Vec<u8>,
}

/// The eight-byte header of an empty WASM module.
pub open spec fn minimal_wasm_bytes() -> Seq<u8> {
    seq![0u8, 0x61u8, 0x73u8, 0x6du8, 0x01u8, 0u8, 0u8, 0u8]
}

impl SyncStore {
    /// A store over a base directory with the default template.
    pub fn new(base_dir: String) -> (r: Self)
        ensures
            r.base_dir == base_dir,
            r.manifest_template.created_by@ == "sync-fs"@,
            r.manifest_template.default_ttl == 3600,
            r.manifest_template.default_timeout == 30,
            r.manifest_template.allow_hosts@.len() == 0,
            r.minimal_wasm@ == minimal_wasm_bytes(),
    {
        Self::with_template(base_dir, ManifestTemplate::default())
    }

    /// A store over a base directory with the given template.
    pub fn with_template(base_dir: String, manifest_template: ManifestTemplate) -> (r: Self)
        ensures
            r.base_dir == base_dir,
            r.manifest_template == manifest_template,
            r.minimal_wasm@ == minimal_wasm_bytes(),
    {
        let mut w: Vec<u8> = Vec::new();
        w.push(0);
        w.push(0x61);
        w.push(0x73);
        w.push(0x6d);
        w.push(0x01);
        w.push(0);
        w.push(0);
        w.push(0);
        proof {
            assert(w@ =~= minimal_wasm_bytes());
        }
        SyncStore { base_dir, manifest_template, minimal_wasm: w }
    }

    /// Replace the minimal module bytes stamped into new archives.
    pub fn with_minimal_wasm(self, minimal_wasm: Vec<u8>) -> (r: Self)
        ensures
            r.base_dir == self.base_dir,
            r.manifest_template == self.manifest_template,
            r.minimal_wasm == minimal_wasm,
    {
        SyncStore { minimal_wasm, ..self }
    }

    /// The store's root directory.
    pub fn base_dir(&self) -> (r: &String)
        ensures
            r == self.base_dir,
    {
        &self.base_dir
    }

    /// The template new manifests follow.
    pub fn manifest_template(&self) -> (r: &ManifestTemplate)
        ensures
            r == self.manifest_template,
    {
        &self.manifest_template
    }

    /// Join the base directory with a relative path.
    fn join_base(&self, rel: &str) -> (r: String)
        ensures
            r@ == joined_path(self.base_dir@, rel@),
    {
        proof {
            reveal_strlit("/");
        }
        let mut s = self.base_dir.clone();
        let blen = self.base_dir.as_str().unicode_len();
        if !(blen > 0 && self.base_dir.as_str().get_char(blen - 1) == '/') {
            s.append("/");
        }
        s.append(rel);
        s
    }

    /// The on-disk path for a store name: the normalized relative path with
    /// its file name carrying the `.sync` extension, under the base
    /// directory.
    pub fn sync_path_for(&self, name: &str) -> (r: Result<String, SyncStoreError>)
        ensures
            match r {
                Ok(p) => {
                    let t = trim_slashes(name@);
                    t.len() > 0 && !has_parent_component(t)
                        && trim_trailing(t).len() > 0
                        && p@ == joined_path(self.base_dir@, sync_rel_path(t))
                },
                Err(SyncStoreError::InvalidName(_)) => trim_slashes(name@).len() == 0
                    || (!has_parent_component(trim_slashes(name@))
                        && trim_trailing(trim_slashes(name@)).len() == 0),
                Err(SyncStoreError::InvalidPath(_)) =>
                    has_parent_component(trim_slashes(name@)),
                Err(_) => false,
            },
    {
        let rel = match normalize_relative_path(name) {
            Ok(p) => p,
            Err(e) => {
                return Err(e);
            },
        };
        let t = trim_trailing_exec(rel.as_str());
        let tlen = t.unicode_len();
        if tlen == 0 {
            return Err(SyncStoreError::InvalidName(String::from_str(name)));
        }
        match find_last_char(t, '/') {
            None => {
                let file = ensure_sync_extension(t);
                assert(sync_rel_path(rel@) =~= file@) by {
                    assert(forall|j: int| 0 <= j < t@.len() ==> t@[j] != '/');
                    lemma_reverse_first_none(t@, '/');
                }
                Ok(self.join_base(file.as_str()))
            },
            Some(sl) => {
                proof {
                    lemma_reverse_first_at(t@, '/', sl as int);
                }
                let dir = t.substring_char(0, sl + 1);
                let base = t.substring_char(sl + 1, tlen);
                assert(dir@ =~= t@.take(sl + 1));
                assert(base@ =~= t@.skip(sl + 1));
                let mut joined = String::from_str(dir);
                let file = ensure_sync_extension(base);
                joined.append(file.as_str());
                assert(joined@ == sync_rel_path(rel@));
                Ok(self.join_base(joined.as_str()))
            },
        }
    }

    /// Resolve a path against the store: an absolute path stands as it is; a
    /// relative one is normalized under the base directory.
    pub fn resolve_sync_path(&self, path: &str) -> (r: Result<String, SyncStoreError>)
        ensures
            match r {
                Ok(p) => {
                    if path@.len() > 0 && path@[0] == '/' {
                        p@ == path@
                    } else {
                        let t = trim_slashes(path@);
                        t.len() > 0 && !has_parent_component(t)
                            && p@ == joined_path(self.base_dir@, t)
                    }
                },
                Err(_) => !(path@.len() > 0 && path@[0] == '/'),
            },
    {
        let plen = path.unicode_len();
        if plen > 0 && path.get_char(0) == '/' {
            return Ok(String::from_str(path));
        }
        match normalize_relative_path(path) {
            Ok(rel) => Ok(self.join_base(rel.as_str())),
            Err(e) => Err(e),
        }
    }
}

/// A base directory joined with a relative path: a single slash between
/// them, none doubled.
pub open spec fn joined_path(base: Seq<char>, rel: Seq<char>) -> Seq<char> {
    if base.len() > 0 && base.last() == '/' {
        base + rel
    } else {
        base + "/"@ + rel
    }
}

/// A relative path with its final component carrying the `.sync`
/// extension: trailing slashes and `.` components are dropped first, as a
/// path walk does when it takes the file name.
pub open spec fn sync_rel_path(rel: Seq<char>) -> Seq<char> {
    let t = trim_trailing(rel);
    let sl = crate::engine::first_char_idx(t.reverse(), '/');
    if sl < 0 {
        with_sync_ext(t)
    } else {
        t.take(t.len() - sl) + with_sync_ext(t.skip(t.len() - sl))
    }
}

/// Whether a path names an archive: it ends in `.sync`.
pub fn is_sync_path(path: &str) -> (r: bool)
    ensures
        r == ".sync"@.is_suffix_of(path@),
{
    proof {
        reveal_strlit(".sync");
    }
    str_ends_with(path, ".sync")
}

/// The content type guessed from a file name's extension, used when a new
/// archive is created through the filesystem view; an unknown extension
/// falls back to the opaque byte type.
pub fn guess_content_type(name: &str) -> (r: &'static str)
    ensures
        ({
            let e = lower_ext_of(name@);
            &&& e == "txt"@ ==> r@ == "text/plain"@
            &&& e == "csv"@ ==> r@ == "text/csv"@
            &&& e == "json"@ ==> r@ == "application/json"@
            &&& e == "xlsx"@
                ==> r@ == "application/vnd.openxmlformats-officedocument.spreadsheetml.sheet"@
            &&& e == "pdf"@ ==> r@ == "application/pdf"@
            &&& e == "png"@ ==> r@ == "image/png"@
            &&& (e == "jpg"@ || e == "jpeg"@) ==> r@ == "image/jpeg"@
            &&& e == "svg"@ ==> r@ == "image/svg+xml"@
            &&& (e == "html"@ || e == "htm"@) ==> r@ == "text/html"@
            &&& e == "md"@ ==> r@ == "text/markdown"@
            &&& (e != "txt"@ && e != "csv"@ && e != "json"@ && e != "xlsx"@ && e != "pdf"@
                && e != "png"@ && e != "jpg"@ && e != "jpeg"@ && e != "svg"@ && e != "html"@
                && e != "htm"@ && e != "md"@) ==> r@ == "application/octet-stream"@
        }),
{
    proof {
        reveal_strlit("txt");
        reveal_strlit("csv");
        reveal_strlit("json");
        reveal_strlit("xlsx");
        reveal_strlit("pdf");
        reveal_strlit("png");
        reveal_strlit("jpg");
        reveal_strlit("jpeg");
        reveal_strlit("svg");
        reveal_strlit("html");
        reveal_strlit("htm");
        reveal_strlit("md");
        assert("txt"@.len() == 3 && "csv"@.len() == 3 && "pdf"@.len() == 3 && "png"@.len() == 3
            && "jpg"@.len() == 3 && "svg"@.len() == 3 && "htm"@.len() == 3);
        assert("json"@.len() == 4 && "xlsx"@.len() == 4 && "jpeg"@.len() == 4
            && "html"@.len() == 4);
        assert("md"@.len() == 2);
        assert("txt"@[0] == 't' && "csv"@[0] == 'c' && "pdf"@[0] == 'p' && "png"@[0] == 'p'
            && "jpg"@[0] == 'j' && "svg"@[0] == 's' && "htm"@[0] == 'h');
        assert("pdf"@[1] == 'd' && "png"@[1] == 'n');
        assert("json"@[0] == 'j' && "xlsx"@[0] == 'x' && "jpeg"@[0] == 'j' && "html"@[0] == 'h');
        assert("json"@[1] == 's' && "jpeg"@[1] == 'p');
    }
    let ext = file_ext_exec(name);
    if eq_ignore_ascii(ext.as_str(), "txt") {
        "text/plain"
    } else if eq_ignore_ascii(ext.as_str(), "csv") {
        "text/csv"
    } else if eq_ignore_ascii(ext.as_str(), "json") {
        "application/json"
    } else if eq_ignore_ascii(ext.as_str(), "xlsx") {
        "application/vnd.openxmlformats-officedocument.spreadsheetml.sheet"
    } else if eq_ignore_ascii(ext.as_str(), "pdf") {
        "application/pdf"
    } else if eq_ignore_ascii(ext.as_str(), "png") {
        "image/png"
    } else if eq_ignore_ascii(ext.as_str(), "jpg") || eq_ignore_ascii(ext.as_str(), "jpeg") {
        "image/jpeg"
    } else if eq_ignore_ascii(ext.as_str(), "svg") {
        "image/svg+xml"
    } else if eq_ignore_ascii(ext.as_str(), "html") || eq_ignore_ascii(ext.as_str(), "htm") {
        "text/html"
    } else if eq_ignore_ascii(ext.as_str(), "md") {
        "text/markdown"
    } else {
        "application/octet-stream"
    }
}

/// The extension of a file name, lowercased: what follows the last inner dot
/// of its final path component.
pub open spec fn lower_ext_of(name: Seq<char>) -> Seq<char> {
    crate::manifest::lower_ascii(file_ext_of(name))
}

/// The extension of a file name: what follows the last inner dot of its
/// final path component; none when there is no such dot.
pub open spec fn file_ext_of(name: Seq<char>) -> Seq<char> {
    let sl = crate::engine::first_char_idx(name.reverse(), '/');
    let base = if sl < 0 { name } else { name.skip(name.len() - sl) };
    let d = crate::engine::first_char_idx(base.reverse(), '.');
    if d < 0 || d == base.len() - 1 {
        Seq::empty()
    } else {
        base.skip(base.len() - d)
    }
}

/// The extension of a file name.
fn file_ext_exec(name: &str) -> (r: String)
    ensures
        r@ == file_ext_of(name@),
{
    let nlen = name.unicode_len();
    let base: &str = match find_last_char(name, '/') {
        None => {
            proof {
                lemma_reverse_first_none(name@, '/');
            }
            name
        },
        Some(sl) => {
            proof {
                lemma_reverse_first_at(name@, '/', sl as int);
            }
            let b = name.substring_char(sl + 1, nlen);
            assert(b@ =~= name@.skip(sl + 1));
            b
        },
    };
    let blen = base.unicode_len();
    match find_last_char(base, '.') {
        None => {
            proof {
                lemma_reverse_first_none(base@, '.');
            }
            String::new()
        },
        Some(d) => {
            proof {
                lemma_reverse_first_at(base@, '.', d as int);
            }
            if d == 0 {
                String::new()
            } else {
                let e = base.substring_char(d + 1, blen);
                assert(e@ =~= base@.skip(d + 1));
                String::from_str(e)
            }
        },
    }
}

} // verus!
