//! Virtual file entries over archives: each payload is exposed as one file
//! whose display name joins the archive's stem with its declared display
//! extension, whose size is the payload size, and whose reads resolve to
//! positioned reads at the payload's stable offset.

use vstd::prelude::*;
use vstd::string::*;
use crate::Error;
use crate::archive::{SyncArchive, file_stem_of, has_name, idx_of_name};
use crate::envelope::entry_view;
use crate::store::joined_path;
use crate::strutil::{find_first_char, normalize_ext_exec, normalized_ext, str_ends_with};

verus! {

/// A virtual file entry mapped from a `.sync` archive.
#[derive(Debug, Clone)]
pub struct VfsEntry {
    /// Internal name of the entry (always "payload" for payload entries).
    pub name: String,
    /// User-visible display name with extension.
    pub display_name: String,
    /// Media type of the content.
    pub content_type: String,
    /// Path to the source `.sync` file.
    pub file_path: String,
    /// Virtual path where this entry appears.
    pub vfs_path: String,
    /// Byte offset within the archive.
    pub offset: u64,
    /// Size in bytes.
    pub size: u64,
    /// Whether the entry is read-only.
    pub read_only: bool,
}

/// Configuration for mounting.
#[derive(Debug, Clone)]
pub struct VfsMountConfig {
    /// Base path for mounting virtual entries.
    pub mount_path: String,
    /// Whether to expose entries as read-only.
    pub expose_as_read_only: bool,
    /// Whether to append the declared extension to display names.
    pub show_original_extension: bool,
}

impl Default for VfsMountConfig {
    fn default() -> (r: Self)
        ensures
            r.mount_path@ == "/"@,
            r.expose_as_read_only,
            r.show_original_extension,
    {
        VfsMountConfig {
            mount_path: String::from_str("/"),
            expose_as_read_only: true,
            show_original_extension: true,
        }
    }
}

/// The display name of a payload: the base name, with the normalized
/// display extension appended unless it is empty or already there.
pub open spec fn display_name_spec(base: Seq<char>, ext: Seq<char>, show: bool) -> Seq<char> {
    if !show {
        base
    } else {
        let n = normalized_ext(ext);
        if n.len() == 0 {
            base
        } else {
            let suffix = "."@ + n;
            if suffix.is_suffix_of(base) {
                base
            } else {
                base + suffix
            }
        }
    }
}

/// Build a display name from a base name and a declared extension.
pub fn build_display_name(base_name: &str, display_ext: &str, show_original_extension: bool)
    -> (r: String)
    ensures
        r@ == display_name_spec(base_name@, display_ext@, show_original_extension),
{
    proof {
        reveal_strlit(".");
    }
    if !show_original_extension {
        return String::from_str(base_name);
    }
    let n = normalize_ext_exec(display_ext);
    if n.unicode_len() == 0 {
        return String::from_str(base_name);
    }
    let mut suffix = String::from_str(".");
    suffix.append(n);
    if str_ends_with(base_name, suffix.as_str()) {
        String::from_str(base_name)
    } else {
        let mut s = String::from_str(base_name);
        s.append(suffix.as_str());
        s
    }
}

/// The display name the writable filesystem view gives an archive: a base
/// name that already has a dot is kept; otherwise the declared extension is
/// appended as for any payload.
pub open spec fn archive_display_name_spec(base: Seq<char>, ext: Seq<char>) -> Seq<char> {
    if crate::engine::first_char_idx(base, '.') >= 0 {
        base
    } else {
        display_name_spec(base, ext, true)
    }
}

/// The display name for an archive in the writable filesystem view.
pub fn display_name_for_archive(base_name: &str, display_ext: &str) -> (r: String)
    ensures
        r@ == archive_display_name_spec(base_name@, display_ext@),
{
    match find_first_char(base_name, '.') {
        Some(i) => {
            proof {
                crate::engine::lemma_first_char_at(base_name@, '.', i as int);
            }
            String::from_str(base_name)
        },
        None => {
            proof {
                crate::engine::lemma_first_char_none(base_name@, '.');
            }
            build_display_name(base_name, display_ext, true)
        },
    }
}

/// The final path component of a display name.
pub fn display_name_in_dir(display_name: &str) -> (r: String)
    ensures
        ({
            let sl = crate::engine::first_char_idx(display_name@.reverse(), '/');
            if sl < 0 {
                r@ == display_name@
            } else {
                r@ == display_name@.skip(display_name@.len() - sl)
            }
        }),
{
    let len = display_name.unicode_len();
    match crate::strutil::find_last_char(display_name, '/') {
        None => {
            proof {
                crate::store::lemma_reverse_first_none(display_name@, '/');
            }
            String::from_str(display_name)
        },
        Some(sl) => {
            proof {
                crate::store::lemma_reverse_first_at(display_name@, '/', sl as int);
            }
            let b = display_name.substring_char(sl + 1, len);
            assert(b@ =~= display_name@.skip(sl + 1));
            String::from_str(b)
        },
    }
}

/// Whether a name is silently ignored by the filesystem views: resource
/// forks and folder metadata.
pub fn is_ignored_name(name: &str) -> (r: bool)
    ensures
        r == ("._"@.is_prefix_of(name@) || name@ == ".DS_Store"@),
{
    proof {
        reveal_strlit("._");
        reveal_strlit(".DS_Store");
    }
    crate::strutil::str_starts_with(name, "._") || crate::strutil::str_eq(name, ".DS_Store")
}

/// A virtual filesystem mount over archives.
#[derive(Debug)]
pub struct VfsMount {
    /// The mount configuration.
    pub config: VfsMountConfig,
    /// The virtual file entries.
    pub entries: Vec<VfsEntry>,
}

impl VfsMount {
    /// A new empty mount with the given configuration.
    pub fn new(config: VfsMountConfig) -> (r: Self)
        ensures
            r.config == config,
            r.entries@.len() == 0,
    {
        VfsMount { config, entries: Vec::new() }
    }

    /// A mount over one archive, exposing its payload.
    pub fn from_archive(archive: &SyncArchive, config: VfsMountConfig)
        -> (r: Result<VfsMount, Error>)
        ensures
            r is Ok <==> has_name(
                archive.entries@.map_values(|e: crate::envelope::SyncEntry| entry_view(e)),
                "payload"@,
            ),
            r matches Ok(m) ==> m.config == config && m.entries@.len() == 1
                && payload_entry_matches(m.entries@[0], *archive, config),
    {
        let mut mount = Self::new(config);
        match mount.add_payload_from_archive(archive) {
            Ok(()) => Ok(mount),
            Err(e) => Err(e),
        }
    }

    /// Add the payload entry of an archive to this mount: its display name
    /// joins the archive's file stem with the manifest's display extension,
    /// its virtual path hangs under the mount path, and its offset and size
    /// are the payload's.
    pub fn add_payload_from_archive(&mut self, archive: &SyncArchive)
        -> (r: Result<(), Error>)
        ensures
            r is Ok <==> has_name(
                archive.entries@.map_values(|e: crate::envelope::SyncEntry| entry_view(e)),
                "payload"@,
            ),
            r matches Err(e) ==> e is PayloadNotFound && *final(self) == *old(self),
            r is Ok ==> final(self).config == old(self).config
                && final(self).entries@.len() == old(self).entries@.len() + 1
                && final(self).entries@.drop_last() == old(self).entries@
                && payload_entry_matches(
                    final(self).entries@.last(),
                    *archive,
                    old(self).config,
                ),
    {
        proof {
            reveal_strlit("payload");
        }
        let payload = match archive.payload_entry() {
            Some(e) => e,
            None => {
                return Err(Error::PayloadNotFound);
            },
        };
        proof {
            let es = archive.entries@.map_values(|en: crate::envelope::SyncEntry| entry_view(en));
            crate::archive::lemma_idx_found(es, "payload"@);
            assert(es[idx_of_name(es, "payload"@)]
                == entry_view(archive.entries@[idx_of_name(es, "payload"@)]));
        }
        let offset = payload.offset;
        let size = payload.size;
        let base_name = match archive.archive_file_stem() {
            Some(s) => s,
            None => String::from_str("payload"),
        };
        let display_name = build_display_name(
            base_name.as_str(),
            archive.manifest.sync.display_ext.as_str(),
            self.config.show_original_extension,
        );
        let vfs_path = join_mount(self.config.mount_path.as_str(), display_name.as_str());
        let entry = VfsEntry {
            name: String::from_str("payload"),
            display_name,
            content_type: archive.manifest.sync.content_type.clone(),
            file_path: archive.path.clone(),
            vfs_path,
            offset,
            size,
            read_only: self.config.expose_as_read_only,
        };
        self.entries.push(entry);
        proof {
            assert(final(self).entries@.drop_last() =~= old(self).entries@);
        }
        Ok(())
    }

    /// All virtual file entries.
    pub fn entries(&self) -> (r: &Vec<VfsEntry>)
        ensures
            r == self.entries,
    {
        &self.entries
    }

    /// The mount configuration.
    pub fn config(&self) -> (r: &VfsMountConfig)
        ensures
            r == self.config,
    {
        &self.config
    }

    /// The first payload entry, when one is mounted.
    pub fn get_payload_entry(&self) -> (r: Option<&VfsEntry>)
        ensures
            match r {
                Some(e) => exists|i: int| 0 <= i < self.entries@.len()
                    && *e == self.entries@[i] && e.name@ == "payload"@
                    && (forall|j: int| 0 <= j < i
                        ==> (#[trigger] self.entries@[j]).name@ != "payload"@),
                None => forall|i: int| 0 <= i < self.entries@.len()
                    ==> (#[trigger] self.entries@[i]).name@ != "payload"@,
            },
    {
        proof {
            reveal_strlit("payload");
        }
        let n = self.entries.len();
        let mut i: usize = 0;
        while i < n
            invariant
                n == self.entries@.len(),
                i <= n,
                forall|j: int| 0 <= j < i ==> (#[trigger] self.entries@[j]).name@ != "payload"@,
            decreases n - i,
        {
            if crate::strutil::str_eq(self.entries[i].name.as_str(), "payload") {
                return Some(&self.entries[i]);
            }
            i += 1;
        }
        None
    }
}

/// Whether a virtual entry is the payload view of an archive under a
/// configuration.
pub open spec fn payload_entry_matches(
    e: VfsEntry,
    archive: SyncArchive,
    config: VfsMountConfig,
) -> bool {
    let es = archive.entries@.map_values(|en: crate::envelope::SyncEntry| entry_view(en));
    let pi = idx_of_name(es, "payload"@);
    let base = if archive.path@.len() > 0 { file_stem_of(archive.path@) } else { "payload"@ };
    &&& e.name@ == "payload"@
    &&& e.display_name@ == display_name_spec(
        base,
        archive.manifest.sync.display_ext@,
        config.show_original_extension,
    )
    &&& e.content_type@ == archive.manifest.sync.content_type@
    &&& e.file_path@ == archive.path@
    &&& e.vfs_path@ == joined_path(config.mount_path@, e.display_name@)
    &&& e.offset == es[pi].1
    &&& e.size == es[pi].2
    &&& e.read_only == config.expose_as_read_only
}

/// Join a mount path and a display name with a single separator.
fn join_mount(mount: &str, name: &str) -> (r: String)
    ensures
        r@ == joined_path(mount@, name@),
{
    proof {
        reveal_strlit("/");
    }
    let mlen = mount.unicode_len();
    let mut s = String::from_str(mount);
    if !(mlen > 0 && mount.get_char(mlen - 1) == '/') {
        s.append("/");
    }
    s.append(name);
    s
}

} // verus!
