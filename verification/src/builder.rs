//! Builder for `.sync` archives: collects a manifest, payload bytes, module
//! bytes and optional context and proof sidecars, and emits the archive
//! bytes with every entry stored uncompressed. The manifest text is checked
//! to read back under the schema before it is sealed in, so the built
//! archive always satisfies the layout rules.

use vstd::prelude::*;
use vstd::string::*;
use crate::Error;
use crate::archive::{built_from, idx_of_name, open_ok};
use crate::envelope::{envelope_entries, zip_build};
use crate::manifest::SyncManifest;
use crate::manifest_io::manifest_printed;

verus! {

/// Builder for `.sync` archives.
#[derive(Debug)]
pub struct SyncBuilder {
    /// The manifest to seal in.
    pub manifest: Option<SyncManifest>,
    /// The payload bytes.
    pub payload: Option<Vec<u8>>,
    /// The context sidecar bytes.
    pub context: Option<Vec<u8>>,
    /// The module bytes.
    pub wasm: Option<Vec<u8>>,
    /// The proof sidecar bytes.
    pub proof_bytes: Option<Vec<u8>>,
}

impl SyncBuilder {
    /// An empty builder.
    pub fn new() -> (r: Self)
        ensures
            r.manifest is None,
            r.payload is None,
            r.context is None,
            r.wasm is None,
            r.proof_bytes is None,
    {
        SyncBuilder {
            manifest: None,
            payload: None,
            context: None,
            wasm: None,
            proof_bytes: None,
        }
    }

    /// Set the manifest for the archive.
    pub fn with_manifest(self, manifest: SyncManifest) -> (r: Self)
        ensures
            r == (SyncBuilder { manifest: Some(manifest), ..self }),
    {
        SyncBuilder { manifest: Some(manifest), ..self }
    }

    /// Set the payload as raw bytes.
    pub fn with_payload_bytes(self, payload: Vec<u8>) -> (r: Self)
        ensures
            r == (SyncBuilder { payload: Some(payload), ..self }),
    {
        SyncBuilder { payload: Some(payload), ..self }
    }

    /// Set the context sidecar as raw bytes.
    pub fn with_context_bytes(self, context: Vec<u8>) -> (r: Self)
        ensures
            r == (SyncBuilder { context: Some(context), ..self }),
    {
        SyncBuilder { context: Some(context), ..self }
    }

    /// Set the module as raw bytes.
    pub fn with_wasm_bytes(self, wasm: Vec<u8>) -> (r: Self)
        ensures
            r == (SyncBuilder { wasm: Some(wasm), ..self }),
    {
        SyncBuilder { wasm: Some(wasm), ..self }
    }

    /// Set the proof sidecar as raw bytes.
    pub fn with_proof_bytes(self, proof_bytes: Vec<u8>) -> (r: Self)
        ensures
            r == (SyncBuilder { proof_bytes: Some(proof_bytes), ..self }),
    {
        SyncBuilder { proof_bytes: Some(proof_bytes), ..self }
    }

    /// Build the archive bytes: `manifest.toml`, `payload` and `sync.wasm`
    /// in that order, then any `context.json` and `sync.proof`, every entry
    /// stored uncompressed. Fails exactly when a required component is
    /// absent or the policy values overflow the textual range, naming the
    /// first missing component. On success the bytes satisfy the layout
    /// rules, hold exactly the given parts, and the manifest entry reads
    /// back as the sealed manifest.
    pub fn build_bytes(&self) -> (r: Result<Vec<u8>, Error>)
        ensures
            self.manifest is None ==> (r matches Err(e) && e matches Error::MissingEntry(n)
                && n@ == "manifest.toml"@),
            self.manifest is Some && self.payload is None
                ==> (r matches Err(e) && e matches Error::MissingEntry(n)
                    && n@ == "payload"@),
            self.manifest is Some && self.payload is Some && self.wasm is None
                ==> (r matches Err(e) && e matches Error::MissingEntry(n)
                    && n@ == "sync.wasm"@),
            self.manifest is Some && self.payload is Some && self.wasm is Some
                && !(self.manifest->Some_0.policy.ttl <= 0x7fff_ffff_ffff_ffff
                    && self.manifest->Some_0.policy.timeout <= 0x7fff_ffff_ffff_ffff)
                ==> (r matches Err(e) && e is ManifestError),
            self.manifest is Some && self.payload is Some && self.wasm is Some
                && self.manifest->Some_0.policy.ttl <= 0x7fff_ffff_ffff_ffff
                && self.manifest->Some_0.policy.timeout <= 0x7fff_ffff_ffff_ffff
                ==> r is Ok,
            r matches Ok(out) ==> ({
                let es = envelope_entries(out@)->Some_0;
                &&& open_ok(out@)
                &&& self.payload is Some && self.wasm is Some && self.manifest is Some
                &&& exists|text: Seq<char>| {
                    &&& #[trigger] built_from(out@, builder_parts(
                        text,
                        self.payload->Some_0@,
                        self.wasm->Some_0@,
                        self.context,
                        self.proof_bytes,
                    ))
                    &&& manifest_printed(self.manifest->Some_0, text)
                    &&& vstd::utf8::decode_utf8(envelope_data(out@, 0)) == text
                }
                &&& idx_of_name(es, "payload"@) == 1
                &&& envelope_entries(out@)->Some_0.len()
                    == 3 + (if self.context is Some { 1int } else { 0 })
                        + (if self.proof_bytes is Some { 1int } else { 0 })
            }),
    {
        proof {
            reveal_strlit("manifest.toml");
            reveal_strlit("payload");
            reveal_strlit("sync.wasm");
            reveal_strlit("context.json");
            reveal_strlit("sync.proof");
            assert("manifest.toml"@.len() == 13 && "payload"@.len() == 7
                && "sync.wasm"@.len() == 9 && "context.json"@.len() == 12
                && "sync.proof"@.len() == 10);
        }
        let manifest = match &self.manifest {
            Some(m) => m,
            None => {
                return Err(Error::MissingEntry(String::from_str("manifest.toml")));
            },
        };
        let payload = match &self.payload {
            Some(p) => p,
            None => {
                return Err(Error::MissingEntry(String::from_str("payload")));
            },
        };
        let wasm = match &self.wasm {
            Some(w) => w,
            None => {
                return Err(Error::MissingEntry(String::from_str("sync.wasm")));
            },
        };
        if manifest.policy.ttl > 0x7fff_ffff_ffff_ffff
            || manifest.policy.timeout > 0x7fff_ffff_ffff_ffff {
            return Err(Error::ManifestError(String::from_str(
                "policy values overflow the manifest form",
            )));
        }
        let text = match manifest.to_toml_text() {
            Ok(t) => t,
            Err(e) => {
                return Err(e);
            },
        };
        let mut parts: Vec<(String, Vec<u8>, bool)> = Vec::new();
        parts.push((String::from_str("manifest.toml"), text.as_str().as_bytes_vec(), true));
        parts.push((String::from_str("payload"), payload.clone(), true));
        parts.push((String::from_str("sync.wasm"), wasm.clone(), true));
        if let Some(context) = &self.context {
            parts.push((String::from_str("context.json"), context.clone(), true));
        }
        if let Some(pr) = &self.proof_bytes {
            parts.push((String::from_str("sync.proof"), pr.clone(), true));
        }
        proof {
            let pv = crate::envelope::parts_view(parts@);
            assert(pv =~= builder_parts(
                text@,
                self.payload->Some_0@,
                self.wasm->Some_0@,
                self.context,
                self.proof_bytes,
            ));
            assert forall|i: int| 0 <= i < parts@.len()
                implies (#[trigger] parts@[i]).0@.len() <= 16000 by {
                assert(parts@[i].0@ == pv[i].0);
            }
        }
        let out = match zip_build(&parts) {
            Some(o) => o,
            None => {
                return Err(Error::ZipError(String::from_str("archive could not be built")));
            },
        };
        proof {
            let parts_spec = builder_parts(
                text@,
                self.payload->Some_0@,
                self.wasm->Some_0@,
                self.context,
                self.proof_bytes,
            );
            let es = envelope_entries(out@)->Some_0;
            assert(built_from(out@, parts_spec)) by {
                assert(forall|i: int| 0 <= i < parts_spec.len()
                    ==> (#[trigger] parts_spec[i]) == crate::envelope::parts_view(parts@)[i]);
            }
            assert(es[0].0 == "manifest.toml"@ && es[1].0 == "payload"@
                && es[2].0 == "sync.wasm"@);
            assert("manifest.toml"@ != "payload"@ && "manifest.toml"@ != "sync.wasm"@
                && "payload"@ != "sync.wasm"@);
            crate::archive::lemma_idx_at(es, "manifest.toml"@, 0);
            crate::archive::lemma_idx_at(es, "payload"@, 1);
            crate::archive::lemma_idx_at(es, "sync.wasm"@, 2);
            assert(envelope_data(out@, 0) == vstd::utf8::encode_utf8(text@));
            vstd::utf8::encode_utf8_valid_utf8(text@);
            vstd::utf8::encode_utf8_decode_utf8(text@);
            assert(vstd::utf8::decode_utf8(envelope_data(out@, 0)) == text@);
        }
        Ok(out)
    }
}

use crate::envelope::envelope_data;

/// The parts a build seals into the envelope, in order, each stored.
pub open spec fn builder_parts(
    text: Seq<char>,
    payload: Seq<u8>,
    wasm: Seq<u8>,
    context: Option<Vec<u8>>,
    proof_bytes: Option<Vec<u8>>,
) -> Seq<(Seq<char>, Seq<u8>, bool)> {
    seq![
        ("manifest.toml"@, vstd::utf8::encode_utf8(text), true),
        ("payload"@, payload, true),
        ("sync.wasm"@, wasm, true),
    ] + (match context {
        Some(c) => seq![("context.json"@, c@, true)],
        None => Seq::<(Seq<char>, Seq<u8>, bool)>::empty(),
    }) + (match proof_bytes {
        Some(p) => seq![("sync.proof"@, p@, true)],
        None => Seq::<(Seq<char>, Seq<u8>, bool)>::empty(),
    })
}

/// Opening what the builder wrote reads the manifest text the builder
/// sealed in: the manifest entry of a built archive is its first, so the
/// manifest a reader parses out of the archive is parsed from exactly the
/// printed text — and then agrees with the built manifest field for field,
/// by the round-trip law over printed manifests.
pub proof fn lemma_opened_manifest_text(
    m2: SyncManifest,
    out: Seq<u8>,
    text: Seq<char>,
)
    requires
        envelope_entries(out) is Some,
        envelope_entries(out)->Some_0.len() > 0,
        envelope_entries(out)->Some_0[0].0 == "manifest.toml"@,
        vstd::utf8::decode_utf8(envelope_data(out, 0)) == text,
        crate::manifest_io::manifest_fields_match(
            m2,
            vstd::utf8::decode_utf8(envelope_data(
                out,
                idx_of_name(envelope_entries(out)->Some_0, "manifest.toml"@),
            )),
        ),
    ensures
        crate::manifest_io::manifest_fields_match(m2, text),
{
    let es = envelope_entries(out)->Some_0;
    crate::archive::lemma_idx_at(es, "manifest.toml"@, 0);
}

} // verus!
