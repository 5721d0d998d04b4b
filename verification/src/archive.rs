//! The parsed `.sync` archive: the entry index over the envelope, the
//! layout rules (a manifest and a module are required, a payload must be
//! stored uncompressed so its offset is a stable address), whole-payload
//! reads, and the atomic payload rewrite that copies every other entry into
//! a fresh envelope. All of it works over the archive's bytes; reading and
//! renaming the file around them stays outside the library.

use vstd::prelude::*;
use vstd::string::*;
use crate::Error;
use crate::envelope::{
    SyncEntry, entry_view, envelope_data, envelope_data_ok, envelope_entries, zip_build,
    zip_entry_bytes, zip_entry_list,
};
use crate::manifest::{SyncManifest, SyncVariant};
use crate::manifest_io::manifest_schema_ok;
use crate::strutil::{find_last_char, str_eq};

verus! {

/// The first index of an entry with the given name, or a negative value.
pub open spec fn idx_of_name(es: Seq<(Seq<char>, u64, u64, bool)>, name: Seq<char>) -> int
    decreases es.len(),
{
    if es.len() == 0 {
        -1
    } else if es[0].0 == name {
        0
    } else {
        let r = idx_of_name(es.skip(1), name);
        if r < 0 {
            -1
        } else {
            r + 1
        }
    }
}

/// Whether the entry list holds an entry with the given name.
pub open spec fn has_name(es: Seq<(Seq<char>, u64, u64, bool)>, name: Seq<char>) -> bool {
    idx_of_name(es, name) >= 0
}

pub proof fn lemma_idx_at(es: Seq<(Seq<char>, u64, u64, bool)>, name: Seq<char>, i: int)
    requires
        0 <= i < es.len(),
        es[i].0 == name,
        forall|j: int| 0 <= j < i ==> (#[trigger] es[j]).0 != name,
    ensures
        idx_of_name(es, name) == i,
    decreases i,
{
    if i > 0 {
        lemma_idx_at(es.skip(1), name, i - 1);
    }
}

pub proof fn lemma_idx_absent(es: Seq<(Seq<char>, u64, u64, bool)>, name: Seq<char>)
    requires
        forall|j: int| 0 <= j < es.len() ==> (#[trigger] es[j]).0 != name,
    ensures
        idx_of_name(es, name) < 0,
    decreases es.len(),
{
    if es.len() > 0 {
        lemma_idx_absent(es.skip(1), name);
    }
}

/// The index found points at an entry with that name.
pub proof fn lemma_idx_found(es: Seq<(Seq<char>, u64, u64, bool)>, name: Seq<char>)
    requires
        has_name(es, name),
    ensures
        0 <= idx_of_name(es, name) < es.len(),
        es[idx_of_name(es, name)].0 == name,
    decreases es.len(),
{
    if es.len() > 0 && es[0].0 != name {
        lemma_idx_found(es.skip(1), name);
    }
}

/// Find the first entry with a name in a parsed entry list.
fn find_entry_index(entries: &Vec<SyncEntry>, name: &str) -> (r: Option<usize>)
    ensures
        ({
            let es = entries@.map_values(|e: SyncEntry| entry_view(e));
            match r {
                Some(i) => i < entries@.len() && idx_of_name(es, name@) == i,
                None => idx_of_name(es, name@) < 0,
            }
        }),
{
    let ghost es = entries@.map_values(|e: SyncEntry| entry_view(e));
    let n = entries.len();
    let mut i: usize = 0;
    while i < n
        invariant
            n == entries@.len(),
            es == entries@.map_values(|e: SyncEntry| entry_view(e)),
            i <= n,
            forall|j: int| 0 <= j < i ==> (#[trigger] es[j]).0 != name@,
        decreases n - i,
    {
        if str_eq(entries[i].name.as_str(), name) {
            proof {
                assert(es[i as int].0 == name@);
                lemma_idx_at(es, name@, i as int);
            }
            return Some(i);
        }
        assert(es[i as int].0 != name@);
        i += 1;
    }
    proof {
        lemma_idx_absent(es, name@);
    }
    None
}

/// Whether any `payload` entry of an envelope is a stable address: stored
/// without compression, its recorded range inside the bytes, and its data
/// intact.
pub open spec fn payload_layout_ok(bytes: Seq<u8>) -> bool {
    let es = envelope_entries(bytes)->Some_0;
    let pi = idx_of_name(es, "payload"@);
    has_name(es, "payload"@) ==> (es[pi].3 && es[pi].1 + es[pi].2 <= bytes.len()
        && envelope_data_ok(bytes, pi))
}

/// Whether archive bytes satisfy the layout rules and carry a readable,
/// well-formed manifest: the envelope parses, `manifest.toml` is present,
/// intact, UTF-8 and schema-correct, `sync.wasm` is present, and any
/// `payload` entry is stored without compression, in range and intact.
pub open spec fn open_ok(bytes: Seq<u8>) -> bool {
    &&& envelope_entries(bytes) is Some
    &&& ({
        let es = envelope_entries(bytes)->Some_0;
        &&& has_name(es, "manifest.toml"@)
        &&& envelope_data_ok(bytes, idx_of_name(es, "manifest.toml"@))
        &&& ({
            let md = envelope_data(bytes, idx_of_name(es, "manifest.toml"@));
            &&& vstd::utf8::valid_utf8(md)
            &&& crate::manifest_io::toml_ok(vstd::utf8::decode_utf8(md))
            &&& manifest_schema_ok(vstd::utf8::decode_utf8(md))
        })
        &&& has_name(es, "sync.wasm"@)
        &&& payload_layout_ok(bytes)
    })
}

/// A parsed `.sync` archive: the path it was read from, its entry index,
/// its manifest, and the payload's stable location.
#[derive(Debug)]
pub struct SyncArchive {
    /// Path of the archive file.
    pub path: String,
    /// The entry index.
    pub entries: Vec<SyncEntry>,
    /// The parsed manifest.
    pub manifest: SyncManifest,
    /// Byte offset of the payload data within the archive, when present.
    pub payload_offset: Option<u64>,
    /// Size of the payload, when present.
    pub payload_size: Option<u64>,
}

impl SyncArchive {
    /// Whether this index describes the given archive bytes: the entries
    /// are the envelope's, and the payload fields point at its `payload`
    /// entry.
    pub open spec fn wf_for(&self, bytes: Seq<u8>) -> bool {
        &&& open_ok(bytes)
        &&& ({
            let es = envelope_entries(bytes)->Some_0;
            &&& self.entries@.map_values(|e: SyncEntry| entry_view(e)) == es
            &&& (if has_name(es, "payload"@) {
                let pi = idx_of_name(es, "payload"@);
                self.payload_offset == Some(es[pi].1) && self.payload_size == Some(es[pi].2)
            } else {
                self.payload_offset is None && self.payload_size is None
            })
        })
    }

    /// Open an archive from its bytes: parse the envelope, require
    /// `manifest.toml` and `sync.wasm`, require any `payload` to be stored
    /// uncompressed with its range inside the file and its data intact, and
    /// parse the manifest. Succeeds exactly on bytes that satisfy the
    /// layout rules; each failure reports its own error class.
    pub fn open(path: &str, bytes: &Vec<u8>) -> (r: Result<SyncArchive, Error>)
        ensures
            r is Ok <==> open_ok(bytes@),
            r matches Ok(a) ==> {
                let es = envelope_entries(bytes@)->Some_0;
                let md = envelope_data(bytes@, idx_of_name(es, "manifest.toml"@));
                &&& a.path@ == path@
                &&& a.wf_for(bytes@)
                &&& crate::manifest_io::manifest_fields_match(
                    a.manifest,
                    vstd::utf8::decode_utf8(md),
                )
            },
            r matches Err(e) ==> ({
                let es = envelope_entries(bytes@)->Some_0;
                let mi = idx_of_name(es, "manifest.toml"@);
                let md = envelope_data(bytes@, mi);
                let entry_chain_ok = envelope_entries(bytes@) is Some
                    && has_name(es, "manifest.toml"@) && envelope_data_ok(bytes@, mi)
                    && has_name(es, "sync.wasm"@) && payload_layout_ok(bytes@);
                match e {
                    Error::ZipError(_) => envelope_entries(bytes@) is None
                        || (has_name(es, "manifest.toml"@) && !envelope_data_ok(bytes@, mi)),
                    Error::MissingEntry(n) => envelope_entries(bytes@) is Some
                        && ((n@ == "manifest.toml"@ && !has_name(es, "manifest.toml"@))
                            || (n@ == "sync.wasm"@ && has_name(es, "manifest.toml"@)
                                && envelope_data_ok(bytes@, mi)
                                && !has_name(es, "sync.wasm"@))),
                    Error::InvalidFormat(_) => envelope_entries(bytes@) is Some
                        && has_name(es, "manifest.toml"@) && envelope_data_ok(bytes@, mi)
                        && has_name(es, "sync.wasm"@) && !payload_layout_ok(bytes@),
                    Error::ManifestError(_) => entry_chain_ok
                        && !(vstd::utf8::valid_utf8(md)
                            && crate::manifest_io::toml_ok(vstd::utf8::decode_utf8(md))
                            && manifest_schema_ok(vstd::utf8::decode_utf8(md))),
                    Error::TomlError(_) => entry_chain_ok && vstd::utf8::valid_utf8(md)
                        && !crate::manifest_io::toml_ok(vstd::utf8::decode_utf8(md)),
                    _ => false,
                }
            }),
    {
        let entries = match zip_entry_list(bytes) {
            Some(v) => v,
            None => {
                return Err(Error::ZipError(String::from_str("invalid archive envelope")));
            },
        };
        let ghost es = envelope_entries(bytes@)->Some_0;
        proof {
            assert(entries@.map_values(|e: SyncEntry| entry_view(e)) =~= es);
        }
        let mi = match find_entry_index(&entries, "manifest.toml") {
            Some(i) => i,
            None => {
                return Err(Error::MissingEntry(String::from_str("manifest.toml")));
            },
        };
        let manifest_data = match zip_entry_bytes(bytes, mi) {
            Some(d) => d,
            None => {
                return Err(Error::ZipError(String::from_str("manifest.toml is unreadable")));
            },
        };
        if find_entry_index(&entries, "sync.wasm").is_none() {
            return Err(Error::MissingEntry(String::from_str("sync.wasm")));
        }
        let mut payload_offset: Option<u64> = None;
        let mut payload_size: Option<u64> = None;
        match find_entry_index(&entries, "payload") {
            Some(pi) => {
                proof {
                    lemma_idx_found(es, "payload"@);
                }
                if !entries[pi].stored {
                    return Err(Error::InvalidFormat(
                        String::from_str("payload must be stored (no compression)"),
                    ));
                }
                proof {
                    assert(es[pi as int] == entry_view(entries@[pi as int]));
                }
                let blen = bytes.len();
                let in_range = match entries[pi].offset.checked_add(entries[pi].size) {
                    Some(end) => end <= blen as u64,
                    None => false,
                };
                if !in_range {
                    assert(!payload_layout_ok(bytes@));
                    return Err(Error::InvalidFormat(
                        String::from_str("payload lies outside the archive"),
                    ));
                }
                if zip_entry_bytes(bytes, pi).is_none() {
                    assert(!envelope_data_ok(bytes@, pi as int));
                    assert(!payload_layout_ok(bytes@));
                    return Err(Error::InvalidFormat(
                        String::from_str("payload is unreadable"),
                    ));
                }
                payload_offset = Some(entries[pi].offset);
                payload_size = Some(entries[pi].size);
            },
            None => {},
        }
        let manifest = match SyncManifest::from_toml(manifest_data.as_slice()) {
            Ok(m) => m,
            Err(e) => {
                return Err(e);
            },
        };
        Ok(SyncArchive {
            path: String::from_str(path),
            entries,
            manifest,
            payload_offset,
            payload_size,
        })
    }

    /// The parsed manifest.
    pub fn manifest(&self) -> (r: &SyncManifest)
        ensures
            r == self.manifest,
    {
        &self.manifest
    }

    /// All entries in the archive.
    pub fn entries(&self) -> (r: &Vec<SyncEntry>)
        ensures
            r == self.entries,
    {
        &self.entries
    }

    /// Find an entry by name.
    pub fn entry(&self, name: &str) -> (r: Option<&SyncEntry>)
        ensures
            ({
                let es = self.entries@.map_values(|e: SyncEntry| entry_view(e));
                match r {
                    Some(e) => has_name(es, name@) && *e == self.entries@[idx_of_name(es, name@)],
                    None => !has_name(es, name@),
                }
            }),
    {
        match find_entry_index(&self.entries, name) {
            Some(i) => Some(&self.entries[i]),
            None => None,
        }
    }

    /// The payload entry, when present.
    pub fn payload_entry(&self) -> (r: Option<&SyncEntry>)
        ensures
            ({
                let es = self.entries@.map_values(|e: SyncEntry| entry_view(e));
                match r {
                    Some(e) => has_name(es, "payload"@)
                        && *e == self.entries@[idx_of_name(es, "payload"@)],
                    None => !has_name(es, "payload"@),
                }
            }),
    {
        self.entry("payload")
    }

    /// The byte offset of the payload within the archive.
    pub fn payload_offset(&self) -> (r: Option<u64>)
        ensures
            r == self.payload_offset,
    {
        self.payload_offset
    }

    /// The size of the payload.
    pub fn payload_size(&self) -> (r: Option<u64>)
        ensures
            r == self.payload_size,
    {
        self.payload_size
    }

    /// The path of the archive file.
    pub fn archive_path(&self) -> (r: &str)
        ensures
            r@ == self.path@,
    {
        self.path.as_str()
    }

    /// The file stem of the archive path: its final component, without the
    /// extension; an empty path has none.
    pub fn archive_file_stem(&self) -> (r: Option<String>)
        ensures
            r is Some <==> self.path@.len() > 0,
            r matches Some(s) ==> s@ == file_stem_of(self.path@),
    {
        let p = self.path.as_str();
        let plen = p.unicode_len();
        if plen == 0 {
            return None;
        }
        let base: &str = match find_last_char(p, '/') {
            None => {
                proof {
                    crate::store::lemma_reverse_first_none(p@, '/');
                }
                p
            },
            Some(sl) => {
                proof {
                    crate::store::lemma_reverse_first_at(p@, '/', sl as int);
                }
                let b = p.substring_char(sl + 1, plen);
                assert(b@ =~= p@.skip(sl + 1));
                b
            },
        };
        let blen = base.unicode_len();
        let stem: &str = match find_last_char(base, '.') {
            None => {
                proof {
                    crate::store::lemma_reverse_first_none(base@, '.');
                }
                base
            },
            Some(d) => {
                proof {
                    crate::store::lemma_reverse_first_at(base@, '.', d as int);
                }
                if d == 0 {
                    base
                } else {
                    let st = base.substring_char(0, d);
                    assert(st@ =~= base@.take(d as int));
                    st
                }
            },
        };
        Some(String::from_str(stem))
    }

    /// Whether the archive contains a WASM module.
    pub fn has_wasm(&self) -> (r: bool)
        ensures
            r == has_name(self.entries@.map_values(|e: SyncEntry| entry_view(e)), "sync.wasm"@),
    {
        find_entry_index(&self.entries, "sync.wasm").is_some()
    }

    /// Whether the archive contains a proof sidecar.
    pub fn has_proof(&self) -> (r: bool)
        ensures
            r == has_name(self.entries@.map_values(|e: SyncEntry| entry_view(e)), "sync.proof"@),
    {
        find_entry_index(&self.entries, "sync.proof").is_some()
    }

    /// Whether the archive contains a context sidecar.
    pub fn has_context(&self) -> (r: bool)
        ensures
            r == has_name(
                self.entries@.map_values(|e: SyncEntry| entry_view(e)),
                "context.json"@,
            ),
    {
        find_entry_index(&self.entries, "context.json").is_some()
    }

    /// Whether the archive is a vault: the manifest's variant says so, or
    /// encryption is enabled.
    pub fn is_vault(&self) -> (r: bool)
        ensures
            r == (self.manifest.sync.variant == SyncVariant::Vault
                || self.manifest.encryption.enabled),
    {
        self.manifest.is_vault()
    }
}

/// The final path component of a string, without its extension: what
/// follows the last slash, cut at its last dot unless that dot leads.
pub open spec fn file_stem_of(path: Seq<char>) -> Seq<char> {
    let sl = crate::engine::first_char_idx(path.reverse(), '/');
    let base = if sl < 0 {
        path
    } else {
        path.skip(path.len() - sl)
    };
    let d = crate::engine::first_char_idx(base.reverse(), '.');
    if d < 0 || d == base.len() - 1 {
        base
    } else {
        base.take(base.len() - 1 - d)
    }
}

/// Read the payload bytes out of an archive's bytes, locating the payload
/// entry in the envelope itself. Succeeds exactly when the envelope parses,
/// a payload entry exists and its data is intact.
pub fn read_payload_bytes(bytes: &Vec<u8>) -> (r: Result<Vec<u8>, Error>)
    ensures
        r is Ok <==> (envelope_entries(bytes@) matches Some(es) && has_name(es, "payload"@)
            && envelope_data_ok(bytes@, idx_of_name(es, "payload"@))),
        r matches Ok(d) ==> d@ == envelope_data(
            bytes@,
            idx_of_name(envelope_entries(bytes@)->Some_0, "payload"@),
        ),
        r matches Ok(d) ==> ({
            let es = envelope_entries(bytes@)->Some_0;
            let pi = idx_of_name(es, "payload"@);
            es[pi].3 && es[pi].1 + es[pi].2 <= bytes@.len()
                ==> d@ == bytes@.subrange(es[pi].1 as int, es[pi].1 + es[pi].2)
        }),
{
    let entries = match zip_entry_list(bytes) {
        Some(v) => v,
        None => {
            return Err(Error::ZipError(String::from_str("invalid archive envelope")));
        },
    };
    let ghost es = envelope_entries(bytes@)->Some_0;
    proof {
        assert(entries@.map_values(|e: SyncEntry| entry_view(e)) =~= es);
    }
    let pi = match find_entry_index(&entries, "payload") {
        Some(i) => i,
        None => {
            return Err(Error::PayloadNotFound);
        },
    };
    proof {
        lemma_idx_found(es, "payload"@);
    }
    match zip_entry_bytes(bytes, pi) {
        Some(d) => Ok(d),
        None => Err(Error::ZipError(String::from_str("payload is unreadable"))),
    }
}


/// The parts a payload rewrite keeps: every entry except `payload`, in
/// order, with its data and whether it was stored.
pub open spec fn rebuilt_parts(bytes: Seq<u8>, es: Seq<(Seq<char>, u64, u64, bool)>, i: int)
    -> Seq<(Seq<char>, Seq<u8>, bool)>
    decreases i,
{
    if i <= 0 {
        Seq::empty()
    } else {
        rebuilt_parts(bytes, es, i - 1) + (if es[i - 1].0 != "payload"@ {
            seq![(es[i - 1].0, envelope_data(bytes, i - 1), es[i - 1].3)]
        } else {
            Seq::<(Seq<char>, Seq<u8>, bool)>::empty()
        })
    }
}

/// Whether archive bytes are exactly an envelope holding the given named
/// parts, each with its flagged method, every entry intact, every stored
/// entry's range inside the bytes.
pub open spec fn built_from(out: Seq<u8>, parts: Seq<(Seq<char>, Seq<u8>, bool)>) -> bool {
    &&& envelope_entries(out) is Some
    &&& ({
        let es2 = envelope_entries(out)->Some_0;
        &&& es2.len() == parts.len()
        &&& forall|i: int| 0 <= i < parts.len() ==> {
            &&& (#[trigger] es2[i]).0 == parts[i].0
            &&& es2[i].2 as nat == parts[i].1.len()
            &&& es2[i].3 == parts[i].2
            &&& (parts[i].2 ==> es2[i].1 + es2[i].2 <= out.len())
            &&& envelope_data_ok(out, i)
            &&& envelope_data(out, i) == parts[i].1
        }
    })
}

/// The full part list of a payload rewrite: every kept entry, then the new
/// payload, stored.
pub open spec fn update_parts_spec(bytes: Seq<u8>, new_payload: Seq<u8>)
    -> Seq<(Seq<char>, Seq<u8>, bool)> {
    let es = envelope_entries(bytes)->Some_0;
    rebuilt_parts(bytes, es, es.len() as int) + seq![("payload"@, new_payload, true)]
}

/// Whether every entry a rewrite must copy reads back cleanly.
pub open spec fn kept_entries_readable(bytes: Seq<u8>) -> bool {
    let es = envelope_entries(bytes)->Some_0;
    forall|j: int| 0 <= j < es.len() && (#[trigger] es[j]).0 != "payload"@
        ==> envelope_data_ok(bytes, j)
}

/// Whether a payload rewrite over these bytes succeeds: the envelope
/// parses, every kept entry reads back, and the writer accepts the parts.
pub open spec fn update_ok(bytes: Seq<u8>, new_payload: Seq<u8>) -> bool {
    &&& envelope_entries(bytes) is Some
    &&& kept_entries_readable(bytes)
    &&& crate::envelope::zip_built(update_parts_spec(bytes, new_payload)) is Some
}

/// Whether a payload rewrite succeeds and its result satisfies the layout
/// rules, so the index can be refreshed from it.
pub open spec fn update_reopen_ok(bytes: Seq<u8>, new_payload: Seq<u8>) -> bool {
    &&& update_ok(bytes, new_payload)
    &&& open_ok(crate::envelope::zip_built(update_parts_spec(bytes, new_payload))->Some_0)
}

/// No kept part is named `payload`.
proof fn lemma_rebuilt_not_payload(
    bytes: Seq<u8>,
    es: Seq<(Seq<char>, u64, u64, bool)>,
    i: int,
)
    ensures
        forall|a: int| 0 <= a < rebuilt_parts(bytes, es, i).len()
            ==> (#[trigger] rebuilt_parts(bytes, es, i)[a]).0 != "payload"@,
    decreases i,
{
    if i > 0 {
        lemma_rebuilt_not_payload(bytes, es, i - 1);
        let prev = rebuilt_parts(bytes, es, i - 1);
        let cur = rebuilt_parts(bytes, es, i);
        assert forall|a: int| 0 <= a < cur.len() implies (#[trigger] cur[a]).0 != "payload"@ by {
            if a < prev.len() {
                assert(cur[a] == prev[a]);
            } else {
                assert(es[i - 1].0 != "payload"@);
                assert(cur[a] == (es[i - 1].0, envelope_data(bytes, i - 1), es[i - 1].3));
            }
        }
    }
}

/// Rewrite the payload of an archive held in memory: every entry except
/// `payload` is copied into a fresh envelope with its name, bytes and
/// method, and a fresh `payload` entry with the new bytes, stored, is
/// appended. Succeeds exactly when the envelope parses, every kept entry
/// reads back, and the writer accepts the parts; on success the result is
/// an envelope holding exactly those parts, with the new payload as its
/// final entry.
pub fn update_payload_bytes(bytes: &Vec<u8>, new_payload: &Vec<u8>)
    -> (r: Result<Vec<u8>, Error>)
    ensures
        r is Ok <==> update_ok(bytes@, new_payload@),
        r matches Ok(out) ==> ({
            let parts = update_parts_spec(bytes@, new_payload@);
            &&& out@ == crate::envelope::zip_built(parts)->Some_0
            &&& built_from(out@, parts)
            &&& parts.last() == ("payload"@, new_payload@, true)
            &&& idx_of_name(envelope_entries(out@)->Some_0, "payload"@) == parts.len() - 1
        }),
        r matches Err(e) ==> e is ZipError,
{
    proof {
        reveal_strlit("payload");
    }
    let entries = match zip_entry_list(bytes) {
        Some(v) => v,
        None => {
            return Err(Error::ZipError(String::from_str("invalid archive envelope")));
        },
    };
    let ghost es = envelope_entries(bytes@)->Some_0;
    proof {
        assert(entries@.map_values(|e: SyncEntry| entry_view(e)) =~= es);
    }
    let n = entries.len();
    let mut parts: Vec<(String, Vec<u8>, bool)> = Vec::new();
    let mut i: usize = 0;
    while i < n
        invariant
            n == entries@.len(),
            n == es.len(),
            entries@.map_values(|e: SyncEntry| entry_view(e)) == es,
            envelope_entries(bytes@) == Some(es),
            forall|a: int, b: int| 0 <= a < b < es.len()
                ==> (#[trigger] es[a]).0 != (#[trigger] es[b]).0,
            i <= n,
            parts@.map_values(|p: (String, Vec<u8>, bool)| (p.0@, p.1@, p.2))
                =~= rebuilt_parts(bytes@, es, i as int),
            forall|a: int| 0 <= a < parts@.len()
                ==> exists|k: int| 0 <= k < i && (#[trigger] parts@[a]).0@ == es[k].0,
            forall|a: int, b: int| 0 <= a < b < parts@.len()
                ==> (#[trigger] parts@[a]).0@ != (#[trigger] parts@[b]).0@,
            forall|j: int| 0 <= j < i && (#[trigger] es[j]).0 != "payload"@
                ==> envelope_data_ok(bytes@, j),
        decreases n - i,
    {
        let ghost before = parts@.map_values(|p: (String, Vec<u8>, bool)| (p.0@, p.1@, p.2));
        if !str_eq(entries[i].name.as_str(), "payload") {
            let data = match zip_entry_bytes(bytes, i) {
                Some(d) => d,
                None => {
                    assert(es[i as int].0 != "payload"@);
                    assert(i < es.len());
                    assert(!envelope_data_ok(bytes@, i as int));
                    assert(!kept_entries_readable(bytes@));
                    return Err(Error::ZipError(String::from_str("entry is unreadable")));
                },
            };
            let ghost old_parts = parts@;
            parts.push((entries[i].name.clone(), data, entries[i].stored));
            proof {
                assert(es[i as int].0 != "payload"@);
                assert(parts@.map_values(|p: (String, Vec<u8>, bool)| (p.0@, p.1@, p.2))
                    =~= before + seq![(
                        es[i as int].0,
                        envelope_data(bytes@, i as int),
                        es[i as int].3,
                    )]);
                assert forall|a: int| 0 <= a < old_parts.len()
                    implies (#[trigger] old_parts[a]).0@ != es[i as int].0 by {
                    let k = choose|k: int| 0 <= k < i && old_parts[a].0@ == es[k].0;
                    assert(es[k].0 != es[i as int].0);
                }
                assert(forall|a: int| 0 <= a < old_parts.len()
                    ==> parts@[a] == old_parts[a]);
                assert(parts@.last().0@ == es[i as int].0);
            }
        } else {
            proof {
                assert(es[i as int].0 == "payload"@);
                assert(parts@.map_values(|p: (String, Vec<u8>, bool)| (p.0@, p.1@, p.2))
                    =~= rebuilt_parts(bytes@, es, i + 1));
            }
        }
        i += 1;
    }
    let ghost kept = parts@.map_values(|p: (String, Vec<u8>, bool)| (p.0@, p.1@, p.2));
    proof {
        lemma_rebuilt_not_payload(bytes@, es, n as int);
    }
    parts.push((String::from_str("payload"), new_payload.clone(), true));
    proof {
        assert(parts@.map_values(|p: (String, Vec<u8>, bool)| (p.0@, p.1@, p.2))
            =~= kept + seq![("payload"@, new_payload@, true)]);
        assert(crate::envelope::parts_view(parts@) =~= update_parts_spec(bytes@, new_payload@));
        assert forall|a: int, b: int| 0 <= a < b < parts@.len()
            implies (#[trigger] parts@[a]).0@ != (#[trigger] parts@[b]).0@ by {
            assert(forall|c: int| 0 <= c < parts@.len() - 1
                ==> (#[trigger] parts@[c]).0@ == kept[c].0 && kept[c].0 != "payload"@);
            assert(parts@.last().0@ == "payload"@);
        }
    }
    let out = match zip_build(&parts) {
        Some(o) => o,
        None => {
            return Err(Error::ZipError(String::from_str("archive could not be rebuilt")));
        },
    };
    proof {
        let full = update_parts_spec(bytes@, new_payload@);
        let es2 = envelope_entries(out@)->Some_0;
        assert(built_from(out@, full)) by {
            assert(forall|i2: int| 0 <= i2 < full.len()
                ==> (#[trigger] full[i2]) == parts@.map_values(
                    |p: (String, Vec<u8>, bool)| (p.0@, p.1@, p.2))[i2]);
        }
        assert(forall|j: int| 0 <= j < full.len() - 1
            ==> (#[trigger] es2[j]).0 != "payload"@);
        assert(es2[full.len() - 1].0 == "payload"@);
        lemma_idx_at(es2, "payload"@, full.len() - 1);
    }
    Ok(out)
}

impl SyncArchive {
    /// Rewrite the payload: compute the replacement archive bytes, then
    /// refresh this index by reopening them. Succeeds exactly when the
    /// rewrite succeeds and its result satisfies the layout rules. On
    /// success the returned bytes are what must replace the archive file,
    /// this index describes them, every kept entry keeps its name, bytes
    /// and method, and the payload is exactly the new bytes.
    pub fn update_payload(&mut self, bytes: &Vec<u8>, new_payload: &Vec<u8>)
        -> (r: Result<Vec<u8>, Error>)
        ensures
            r is Ok <==> update_reopen_ok(bytes@, new_payload@),
            r matches Ok(out) ==> ({
                let es2 = envelope_entries(out@)->Some_0;
                let pi = idx_of_name(es2, "payload"@);
                &&& built_from(out@, update_parts_spec(bytes@, new_payload@))
                &&& final(self).wf_for(out@)
                &&& final(self).path@ == old(self).path@
                &&& final(self).payload_size matches Some(sz) && sz as nat == new_payload@.len()
                &&& has_name(es2, "payload"@)
                &&& envelope_data_ok(out@, pi)
                &&& envelope_data(out@, pi) == new_payload@
            }),
            r is Err ==> *final(self) == *old(self),
    {
        let out = match update_payload_bytes(bytes, new_payload) {
            Ok(o) => o,
            Err(e) => {
                return Err(e);
            },
        };
        let reopened = match SyncArchive::open(self.path.as_str(), &out) {
            Ok(a) => a,
            Err(e) => {
                return Err(e);
            },
        };
        proof {
            let es2 = envelope_entries(out@)->Some_0;
            lemma_idx_found(es2, "payload"@);
        }
        *self = reopened;
        Ok(out)
    }
}

/// Offset stability: an index taken from archive bytes points its payload
/// fields at the envelope's `payload` entry, stored uncompressed — so a
/// whole-payload read returns the bytes at the recorded offset, for the
/// recorded size, as the read's own contract then states.
pub proof fn lemma_offset_stability(a: SyncArchive, bytes: Seq<u8>)
    requires
        a.wf_for(bytes),
        a.payload_offset is Some,
    ensures
        ({
            let es = envelope_entries(bytes)->Some_0;
            let pi = idx_of_name(es, "payload"@);
            &&& has_name(es, "payload"@)
            &&& es[pi].1 == a.payload_offset->0
            &&& es[pi].2 == a.payload_size->0
            &&& es[pi].3
            &&& es[pi].1 + es[pi].2 <= bytes.len()
            &&& envelope_data_ok(bytes, pi)
        }),
{
    let es = envelope_entries(bytes)->Some_0;
    if !has_name(es, "payload"@) {
        assert(a.payload_offset is None);
    }
}

/// Round trip through the envelope: an archive built from parts whose only
/// `payload` entry is the one at the given index reads that payload back,
/// byte for byte, and every other part keeps its name, data and method at
/// its index.
pub proof fn lemma_built_round_trip(out: Seq<u8>, parts: Seq<(Seq<char>, Seq<u8>, bool)>, pi: int)
    requires
        built_from(out, parts),
        0 <= pi < parts.len(),
        parts[pi].0 == "payload"@,
        forall|j: int| 0 <= j < parts.len() && j != pi ==> (#[trigger] parts[j]).0 != "payload"@,
    ensures
        ({
            let es = envelope_entries(out)->Some_0;
            &&& has_name(es, "payload"@)
            &&& idx_of_name(es, "payload"@) == pi
            &&& envelope_data_ok(out, pi)
            &&& envelope_data(out, pi) == parts[pi].1
            &&& forall|j: int| 0 <= j < parts.len()
                ==> (#[trigger] es[j]).0 == parts[j].0 && envelope_data(out, j) == parts[j].1
        }),
{
    let es = envelope_entries(out)->Some_0;
    assert(es[pi].0 == "payload"@);
    assert(forall|j: int| 0 <= j < pi ==> (#[trigger] es[j]).0 != "payload"@);
    lemma_idx_at(es, "payload"@, pi);
}

} // verus!
