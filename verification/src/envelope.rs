//! The archive envelope: a standard compressed-archive container handled by
//! the `zip` crate over in-memory bytes. The entry list, each entry's data,
//! and the bytes a build produces are named here, and the wrappers state
//! what the crate's reader and writer guarantee: entry names are unique, a
//! stored entry whose sizes agree has its data verbatim at its recorded
//! offset, and a built archive reads back as the parts it was built from.

use vstd::prelude::*;
use vstd::string::*;

verus! {

/// One entry of an archive envelope: its name, the byte offset of its data
/// within the outer file, its uncompressed size, and whether it is stored
/// without compression (with its recorded compressed and uncompressed
/// sizes agreeing, so the offset addresses the data verbatim).
#[derive(Debug, Clone)]
pub struct SyncEntry {
    /// Name of the entry (e.g. "manifest.toml", "payload", "sync.wasm").
    pub name: String,
    /// Byte offset of the entry data within the archive.
    pub offset: u64,
    /// Uncompressed size of the entry.
    pub size: u64,
    /// Whether the entry is stored without compression.
    pub stored: bool,
}

/// The view of an entry: name characters, offset, size, stored flag.
pub open spec fn entry_view(e: SyncEntry) -> (Seq<char>, u64, u64, bool) {
    (e.name@, e.offset, e.size, e.stored)
}

/// What the envelope reader parses from archive bytes: the entry list, by
/// index, or nothing when the bytes are not a well-formed envelope.
pub uninterp spec fn envelope_entries(bytes: Seq<u8>) -> Option<Seq<(Seq<char>, u64, u64, bool)>>;

/// The uncompressed data of the i-th entry of an envelope.
pub uninterp spec fn envelope_data(bytes: Seq<u8>, i: int) -> Seq<u8>;

/// Whether the i-th entry's data reads back cleanly (its compressed stream
/// and checksum are intact).
pub uninterp spec fn envelope_data_ok(bytes: Seq<u8>, i: int) -> bool;

/// The archive the envelope writer produces for a list of named parts,
/// each flagged stored or compressed, when writing succeeds.
pub uninterp spec fn zip_built(parts: Seq<(Seq<char>, Seq<u8>, bool)>) -> Option<Seq<u8>>;

/// Relies on `zip::ZipArchive`: parse the entry list of an archive held in
/// memory. Entry names are unique; an entry is flagged stored only when its
/// method is stored and its recorded compressed and uncompressed sizes
/// agree, and the data of such an entry, when its range lies inside the
/// bytes, is the byte range starting at its offset.
#[verifier::external_body]
pub(crate) fn zip_entry_list(bytes: &Vec<u8>) -> (r: Option<Vec<SyncEntry>>)
    ensures
        r is Some <==> envelope_entries(bytes@) is Some,
        r matches Some(v) ==> {
            let es = envelope_entries(bytes@)->Some_0;
            &&& v@.len() == es.len()
            &&& forall|i: int| 0 <= i < es.len() ==> entry_view(#[trigger] v@[i]) == es[i]
            &&& forall|i: int, j: int| 0 <= i < j < es.len() ==> es[i].0 != es[j].0
            &&& forall|i: int| 0 <= i < es.len() && (#[trigger] es[i]).3
                && es[i].1 + es[i].2 <= bytes@.len()
                ==> envelope_data(bytes@, i)
                    == bytes@.subrange(es[i].1 as int, es[i].1 + es[i].2)
        },
{
    let mut za = zip::ZipArchive::new(std::io::Cursor::new(bytes.as_slice())).ok()?;
    let mut v = Vec::new();
    for i in 0..za.len() {
        let f = za.by_index_raw(i).ok()?;
        let offset = f.data_start()?;
        v.push(SyncEntry {
            name: f.name().to_string(),
            offset,
            size: f.size(),
            stored: f.compression() == zip::CompressionMethod::Stored
                && f.compressed_size() == f.size(),
        });
    }
    Some(v)
}

/// Relies on `zip::ZipArchive`: read and decompress the i-th entry of an
/// archive held in memory. Over a well-formed envelope, reading succeeds
/// exactly when the index is in range and the entry's stream is intact.
#[verifier::external_body]
pub(crate) fn zip_entry_bytes(bytes: &Vec<u8>, i: usize) -> (r: Option<Vec<u8>>)
    ensures
        r is Some ==> (envelope_entries(bytes@) matches Some(es)
            ==> i < es.len() && envelope_data_ok(bytes@, i as int)),
        r is None ==> (envelope_entries(bytes@) matches Some(es)
            ==> !(i < es.len() && envelope_data_ok(bytes@, i as int))),
        r matches Some(d) ==> (envelope_entries(bytes@) is Some
            ==> d@ == envelope_data(bytes@, i as int)),
{
    let mut za = zip::ZipArchive::new(std::io::Cursor::new(bytes.as_slice())).ok()?;
    let mut f = za.by_index(i).ok()?;
    let mut d = Vec::new();
    std::io::Read::read_to_end(&mut f, &mut d).ok()?;
    Some(d)
}

/// The view of the parts handed to a build.
pub open spec fn parts_view(parts: Seq<(String, Vec<u8>, bool)>) -> Seq<(Seq<char>, Seq<u8>, bool)> {
    parts.map_values(|p: (String, Vec<u8>, bool)| (p.0@, p.1@, p.2))
}

/// Relies on `zip::ZipWriter`: build an archive holding the given parts, in
/// order, each stored or compressed as flagged. Whether and what the
/// writer produces depends on the parts alone; it succeeds whenever the
/// names are of ordinary length; and the result parses back as exactly
/// those entries, every entry intact, with the given data, a stored
/// entry's range inside the bytes.
#[verifier::external_body]
pub(crate) fn zip_build(parts: &Vec<(String, Vec<u8>, bool)>) -> (r: Option<Vec<u8>>)
    requires
        forall|i: int, j: int| 0 <= i < j < parts@.len()
            ==> (#[trigger] parts@[i]).0@ != (#[trigger] parts@[j]).0@,
    ensures
        r is Some <==> zip_built(parts_view(parts@)) is Some,
        (forall|i: int| 0 <= i < parts@.len() ==> (#[trigger] parts@[i]).0@.len() <= 16000)
            ==> r is Some,
        r matches Some(out) ==> out@ == zip_built(parts_view(parts@))->Some_0,
        r matches Some(out) ==> {
            let es = envelope_entries(out@)->Some_0;
            &&& envelope_entries(out@) is Some
            &&& es.len() == parts@.len()
            &&& forall|i: int| 0 <= i < parts@.len() ==> {
                &&& (#[trigger] es[i]).0 == parts@[i].0@
                &&& es[i].2 as nat == parts@[i].1@.len()
                &&& es[i].3 == parts@[i].2
                &&& (parts@[i].2 ==> es[i].1 + es[i].2 <= out@.len())
                &&& envelope_data_ok(out@, i)
                &&& envelope_data(out@, i) == parts@[i].1@
            }
        },
{
    let mut zw = zip::ZipWriter::new(std::io::Cursor::new(Vec::new()));
    for p in parts.iter() {
        let method = if p.2 {
            zip::CompressionMethod::Stored
        } else {
            zip::CompressionMethod::Deflated
        };
        let opts = zip::write::SimpleFileOptions::default()
            .compression_method(method)
            .large_file(true);
        zw.start_file(p.0.as_str(), opts).ok()?;
        std::io::Write::write_all(&mut zw, p.1.as_slice()).ok()?;
    }
    Some(zw.finish().ok()?.into_inner())
}

} // verus!
