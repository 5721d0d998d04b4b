//! Canonical JSON for signing: objects serialize with their keys in sorted
//! order at every depth, arrays keep their order, strings are escaped as a
//! strict JSON emitter does, and whitespace is absent. The manifest's
//! canonical form (its signature section left out) and the signing payload
//! are both defined here, byte for byte.

use vstd::prelude::*;
use vstd::string::*;
use vstd::utf8::encode_utf8;
use crate::manifest::{SyncManifest, variant_name};

verus! {

/// The escape of one byte inside a JSON string: quote, backslash and the
/// named controls take two-character escapes, other control bytes take a
/// `\u00..` escape, everything else stands as itself.
pub open spec fn esc_byte(b: u8) -> Seq<u8> {
    if b == 0x22 {
        seq![0x5cu8, 0x22u8]
    } else if b == 0x5c {
        seq![0x5cu8, 0x5cu8]
    } else if b == 0x08 {
        seq![0x5cu8, 0x62u8]
    } else if b == 0x09 {
        seq![0x5cu8, 0x74u8]
    } else if b == 0x0a {
        seq![0x5cu8, 0x6eu8]
    } else if b == 0x0c {
        seq![0x5cu8, 0x66u8]
    } else if b == 0x0d {
        seq![0x5cu8, 0x72u8]
    } else if b < 0x20 {
        seq![0x5cu8, 0x75u8, 0x30u8, 0x30u8, hex_digit_byte(b / 16), hex_digit_byte(b % 16)]
    } else {
        seq![b]
    }
}

/// The lowercase hex digit byte for a value below sixteen.
pub open spec fn hex_digit_byte(n: u8) -> u8 {
    if n < 10 {
        (0x30 + n) as u8
    } else {
        (0x57 + n) as u8
    }
}

/// The escaped form of a byte sequence.
pub open spec fn escape_bytes(s: Seq<u8>) -> Seq<u8>
    decreases s.len(),
{
    if s.len() == 0 {
        Seq::empty()
    } else {
        escape_bytes(s.drop_last()) + esc_byte(s.last())
    }
}

/// The JSON rendering of a string: quoted and escaped UTF-8.
pub open spec fn jstr(s: Seq<char>) -> Seq<u8> {
    seq![0x22u8] + escape_bytes(encode_utf8(s)) + seq![0x22u8]
}

/// The JSON rendering of a boolean.
pub open spec fn jbool(b: bool) -> Seq<u8> {
    if b {
        encode_utf8("true"@)
    } else {
        encode_utf8("false"@)
    }
}

/// The JSON rendering of an unsigned number.
pub open spec fn jnum(n: nat) -> Seq<u8> {
    encode_utf8(crate::strutil::dec_str(n))
}

/// The JSON rendering of an absent optional string.
pub open spec fn jnull() -> Seq<u8> {
    encode_utf8("null"@)
}

/// The JSON rendering of an optional string.
pub open spec fn jopt(v: Option<String>) -> Seq<u8> {
    match v {
        Some(s) => jstr(s@),
        None => jnull(),
    }
}

/// The items of a JSON string array, comma separated.
pub open spec fn jarr_items(l: Seq<String>) -> Seq<u8>
    decreases l.len(),
{
    if l.len() == 0 {
        Seq::empty()
    } else if l.len() == 1 {
        jstr(l[0]@)
    } else {
        jarr_items(l.drop_last()) + encode_utf8(","@) + jstr(l.last()@)
    }
}

/// The JSON rendering of a string array.
pub open spec fn jarr(l: Seq<String>) -> Seq<u8> {
    encode_utf8("["@) + jarr_items(l) + encode_utf8("]"@)
}

/// Append the raw UTF-8 bytes of a fragment.
fn push_lit(out: &mut Vec<u8>, s: &str)
    ensures
        final(out)@ == old(out)@ + encode_utf8(s@),
{
    let b = s.as_bytes_vec();
    let n = b.len();
    let mut i: usize = 0;
    while i < n
        invariant
            n == b@.len(),
            b@ == encode_utf8(s@),
            i <= n,
            out@ =~= old(out)@ + b@.take(i as int),
        decreases n - i,
    {
        out.push(b[i]);
        proof {
            assert(out@ =~= old(out)@ + b@.take(i + 1));
        }
        i += 1;
    }
    proof {
        assert(out@ =~= old(out)@ + b@);
    }
}

/// Append one escaped byte.
fn push_escaped_byte(out: &mut Vec<u8>, b: u8)
    ensures
        final(out)@ == old(out)@ + esc_byte(b),
{
    if b == 0x22 {
        out.push(0x5c);
        out.push(0x22);
    } else if b == 0x5c {
        out.push(0x5c);
        out.push(0x5c);
    } else if b == 0x08 {
        out.push(0x5c);
        out.push(0x62);
    } else if b == 0x09 {
        out.push(0x5c);
        out.push(0x74);
    } else if b == 0x0a {
        out.push(0x5c);
        out.push(0x6e);
    } else if b == 0x0c {
        out.push(0x5c);
        out.push(0x66);
    } else if b == 0x0d {
        out.push(0x5c);
        out.push(0x72);
    } else if b < 0x20 {
        out.push(0x5c);
        out.push(0x75);
        out.push(0x30);
        out.push(0x30);
        let hi = b / 16;
        let lo = b % 16;
        out.push(if hi < 10 { 0x30 + hi } else { 0x57 + hi });
        out.push(if lo < 10 { 0x30 + lo } else { 0x57 + lo });
    } else {
        out.push(b);
    }
    proof {
        assert(final(out)@ =~= old(out)@ + esc_byte(b));
    }
}

/// Append a JSON string: quote, escaped content, quote.
fn push_jstr(out: &mut Vec<u8>, s: &str)
    ensures
        final(out)@ == old(out)@ + jstr(s@),
{
    out.push(0x22);
    let b = s.as_bytes_vec();
    let n = b.len();
    let mut i: usize = 0;
    while i < n
        invariant
            n == b@.len(),
            b@ == encode_utf8(s@),
            i <= n,
            out@ =~= old(out)@ + seq![0x22u8] + escape_bytes(b@.take(i as int)),
        decreases n - i,
    {
        proof {
            assert(b@.take(i + 1).drop_last() =~= b@.take(i as int));
            assert(b@.take(i + 1).last() == b@[i as int]);
        }
        push_escaped_byte(out, b[i]);
        i += 1;
    }
    proof {
        assert(b@.take(n as int) =~= b@);
    }
    out.push(0x22);
    proof {
        assert(final(out)@ =~= old(out)@ + jstr(s@));
    }
}

/// Append a JSON optional string: the string, or `null`.
fn push_jopt(out: &mut Vec<u8>, v: &Option<String>)
    ensures
        final(out)@ == old(out)@ + jopt(*v),
{
    match v {
        Some(s) => push_jstr(out, s.as_str()),
        None => push_lit(out, "null"),
    }
}

/// Append a JSON boolean.
fn push_jbool(out: &mut Vec<u8>, b: bool)
    ensures
        final(out)@ == old(out)@ + jbool(b),
{
    if b {
        push_lit(out, "true");
    } else {
        push_lit(out, "false");
    }
}

/// Append a JSON number.
fn push_jnum(out: &mut Vec<u8>, n: u64)
    ensures
        final(out)@ == old(out)@ + jnum(n as nat),
{
    let s = crate::strutil::u64_to_string(n);
    push_lit(out, s.as_str());
}

/// Append a JSON string array.
fn push_jarr(out: &mut Vec<u8>, l: &Vec<String>)
    ensures
        final(out)@ == old(out)@ + jarr(l@),
{
    push_lit(out, "[");
    let n = l.len();
    let mut i: usize = 0;
    while i < n
        invariant
            n == l@.len(),
            i <= n,
            out@ =~= old(out)@ + encode_utf8("["@) + jarr_items(l@.take(i as int)),
        decreases n - i,
    {
        proof {
            assert(l@.take(i + 1).drop_last() =~= l@.take(i as int));
            assert(l@.take(i + 1).last() == l@[i as int]);
        }
        if i > 0 {
            push_lit(out, ",");
        }
        push_jstr(out, l[i].as_str());
        proof {
            assert(out@ =~= old(out)@ + encode_utf8("["@) + jarr_items(l@.take(i + 1)));
        }
        i += 1;
    }
    proof {
        assert(l@.take(n as int) =~= l@);
    }
    push_lit(out, "]");
    proof {
        assert(final(out)@ =~= old(out)@ + jarr(l@));
    }
}

/// The canonical JSON of the encryption hint metadata.
pub open spec fn canon_enc_meta(m: SyncManifest) -> Seq<u8> {
    match m.encryption.meta {
        None => jnull(),
        Some(em) => encode_utf8("{\"hint\":"@) + jopt(em.hint)
            + encode_utf8(",\"kdf\":"@) + jopt(em.kdf)
            + encode_utf8(",\"keys\":"@) + jarr(em.keys@)
            + encode_utf8(",\"recipients\":"@) + jarr(em.recipients@)
            + encode_utf8("}"@),
    }
}

/// The canonical `capabilities` section and the `encryption` scalars.
pub open spec fn canon_caps(m: SyncManifest) -> Seq<u8> {
    encode_utf8("{\"capabilities\":{\"values\":"@) + jarr(m.capabilities.values@)
        + encode_utf8("},\"encryption\":{\"algorithm\":"@) + jopt(m.encryption.algorithm)
        + encode_utf8(",\"enabled\":"@) + jbool(m.encryption.enabled)
        + encode_utf8(",\"meta\":"@)
}

/// The canonical `capabilities` and `encryption` sections.
pub open spec fn canon_head(m: SyncManifest) -> Seq<u8> {
    canon_caps(m) + canon_enc_meta(m)
}

/// The canonical `meta` and `ownership` sections.
pub open spec fn canon_mid(m: SyncManifest) -> Seq<u8> {
    encode_utf8("},\"meta\":{\"created_at\":"@) + jstr(m.meta.created_at@)
        + encode_utf8(",\"created_by\":"@) + jstr(m.meta.created_by@)
        + encode_utf8(",\"hash_algo\":"@) + jstr(m.meta.hash_algo@)
        + encode_utf8("},\"ownership\":{\"owner_capsule\":"@) + jopt(m.ownership.owner_capsule)
        + encode_utf8(",\"write_allowed\":"@) + jbool(m.ownership.write_allowed)
}

/// The canonical `permissions` and `policy` sections.
pub open spec fn canon_policy(m: SyncManifest) -> Seq<u8> {
    encode_utf8("},\"permissions\":{\"allow_env\":"@) + jarr(m.permissions.allow_env@)
        + encode_utf8(",\"allow_hosts\":"@) + jarr(m.permissions.allow_hosts@)
        + encode_utf8("},\"policy\":{\"timeout\":"@) + jnum(m.policy.timeout as nat)
        + encode_utf8(",\"ttl\":"@) + jnum(m.policy.ttl as nat)
}

/// The canonical `sync` section.
pub open spec fn canon_sync(m: SyncManifest) -> Seq<u8> {
    encode_utf8("},\"sync\":{\"content_type\":"@) + jstr(m.sync.content_type@)
        + encode_utf8(",\"display_ext\":"@) + jstr(m.sync.display_ext@)
        + encode_utf8(",\"variant\":"@) + jstr(variant_name(m.sync.variant))
        + encode_utf8(",\"version\":"@) + jstr(m.sync.version@)
}

/// The canonical `verification` section.
pub open spec fn canon_verif(m: SyncManifest) -> Seq<u8> {
    encode_utf8("},\"verification\":{\"enabled\":"@) + jbool(m.verification.enabled)
        + encode_utf8(",\"proof_type\":"@) + jopt(m.verification.proof_type)
        + encode_utf8(",\"vm_type\":"@) + jopt(m.verification.vm_type)
        + encode_utf8("}}"@)
}

/// The canonical `sync` and `verification` sections.
pub open spec fn canon_tail(m: SyncManifest) -> Seq<u8> {
    canon_sync(m) + canon_verif(m)
}

/// The canonical JSON of a manifest, its signature section left out:
/// every object's keys in ascending order, arrays in order, no whitespace.
pub open spec fn manifest_canonical_json(m: SyncManifest) -> Seq<u8> {
    canon_head(m) + canon_mid(m) + canon_policy(m) + canon_tail(m)
}

fn emit_caps(out: &mut Vec<u8>, m: &SyncManifest)
    ensures
        final(out)@ == old(out)@ + canon_caps(*m),
{
    push_lit(out, "{\"capabilities\":{\"values\":");
    push_jarr(out, &m.capabilities.values);
    push_lit(out, "},\"encryption\":{\"algorithm\":");
    push_jopt(out, &m.encryption.algorithm);
    push_lit(out, ",\"enabled\":");
    push_jbool(out, m.encryption.enabled);
    push_lit(out, ",\"meta\":");
}

fn emit_enc_meta(out: &mut Vec<u8>, m: &SyncManifest)
    ensures
        final(out)@ == old(out)@ + canon_enc_meta(*m),
{
    match &m.encryption.meta {
        None => push_lit(out, "null"),
        Some(em) => {
            push_lit(out, "{\"hint\":");
            push_jopt(out, &em.hint);
            push_lit(out, ",\"kdf\":");
            push_jopt(out, &em.kdf);
            push_lit(out, ",\"keys\":");
            push_jarr(out, &em.keys);
            push_lit(out, ",\"recipients\":");
            push_jarr(out, &em.recipients);
            push_lit(out, "}");
        },
    }
}

fn emit_head(out: &mut Vec<u8>, m: &SyncManifest)
    ensures
        final(out)@ == old(out)@ + canon_head(*m),
{
    emit_caps(out, m);
    emit_enc_meta(out, m);
    proof {
        assert(final(out)@ =~= old(out)@ + canon_head(*m));
    }
}

fn emit_mid(out: &mut Vec<u8>, m: &SyncManifest)
    ensures
        final(out)@ == old(out)@ + canon_mid(*m),
{
    push_lit(out, "},\"meta\":{\"created_at\":");
    push_jstr(out, m.meta.created_at.as_str());
    push_lit(out, ",\"created_by\":");
    push_jstr(out, m.meta.created_by.as_str());
    push_lit(out, ",\"hash_algo\":");
    push_jstr(out, m.meta.hash_algo.as_str());
    push_lit(out, "},\"ownership\":{\"owner_capsule\":");
    push_jopt(out, &m.ownership.owner_capsule);
    push_lit(out, ",\"write_allowed\":");
    push_jbool(out, m.ownership.write_allowed);
}

fn emit_policy(out: &mut Vec<u8>, m: &SyncManifest)
    ensures
        final(out)@ == old(out)@ + canon_policy(*m),
{
    push_lit(out, "},\"permissions\":{\"allow_env\":");
    push_jarr(out, &m.permissions.allow_env);
    push_lit(out, ",\"allow_hosts\":");
    push_jarr(out, &m.permissions.allow_hosts);
    push_lit(out, "},\"policy\":{\"timeout\":");
    push_jnum(out, m.policy.timeout);
    push_lit(out, ",\"ttl\":");
    push_jnum(out, m.policy.ttl);
}

fn emit_sync_sec(out: &mut Vec<u8>, m: &SyncManifest)
    ensures
        final(out)@ == old(out)@ + canon_sync(*m),
{
    push_lit(out, "},\"sync\":{\"content_type\":");
    push_jstr(out, m.sync.content_type.as_str());
    push_lit(out, ",\"display_ext\":");
    push_jstr(out, m.sync.display_ext.as_str());
    push_lit(out, ",\"variant\":");
    push_jstr(out, m.sync.variant.as_str());
    push_lit(out, ",\"version\":");
    push_jstr(out, m.sync.version.as_str());
}

fn emit_verif(out: &mut Vec<u8>, m: &SyncManifest)
    ensures
        final(out)@ == old(out)@ + canon_verif(*m),
{
    push_lit(out, "},\"verification\":{\"enabled\":");
    push_jbool(out, m.verification.enabled);
    push_lit(out, ",\"proof_type\":");
    push_jopt(out, &m.verification.proof_type);
    push_lit(out, ",\"vm_type\":");
    push_jopt(out, &m.verification.vm_type);
    push_lit(out, "}}");
}

fn emit_tail(out: &mut Vec<u8>, m: &SyncManifest)
    ensures
        final(out)@ == old(out)@ + canon_tail(*m),
{
    emit_sync_sec(out, m);
    emit_verif(out, m);
    proof {
        assert(final(out)@ =~= old(out)@ + canon_tail(*m));
    }
}

/// Emit the canonical JSON of a manifest, its signature section left out.
pub fn canonical_manifest_json(m: &SyncManifest) -> (r: Vec<u8>)
    ensures
        r@ == manifest_canonical_json(*m),
{
    let mut out: Vec<u8> = Vec::new();
    emit_head(&mut out, m);
    emit_mid(&mut out, m);
    emit_policy(&mut out, m);
    emit_tail(&mut out, m);
    proof {
        assert(out@ =~= manifest_canonical_json(*m));
    }
    out
}

/// The canonical JSON of the signing payload: the manifest hash, the
/// payload hash or null, the signer, and the timestamp, keys in order.
pub open spec fn signing_payload_json(
    manifest_hash: Seq<char>,
    payload_hash: Option<String>,
    signer: Seq<char>,
    timestamp: Seq<char>,
) -> Seq<u8> {
    encode_utf8("{\"manifest_hash\":"@) + jstr(manifest_hash)
        + encode_utf8(",\"payload_hash\":"@) + jopt(payload_hash)
        + encode_utf8(",\"signer\":"@) + jstr(signer)
        + encode_utf8(",\"timestamp\":"@) + jstr(timestamp)
        + encode_utf8("}"@)
}

/// Emit the canonical signing payload.
pub fn signing_payload(
    manifest_hash: &str,
    payload_hash: &Option<String>,
    signer: &str,
    timestamp: &str,
) -> (r: Vec<u8>)
    ensures
        r@ == signing_payload_json(manifest_hash@, *payload_hash, signer@, timestamp@),
{
    let mut out: Vec<u8> = Vec::new();
    push_lit(&mut out, "{\"manifest_hash\":");
    push_jstr(&mut out, manifest_hash);
    push_lit(&mut out, ",\"payload_hash\":");
    push_jopt(&mut out, payload_hash);
    push_lit(&mut out, ",\"signer\":");
    push_jstr(&mut out, signer);
    push_lit(&mut out, ",\"timestamp\":");
    push_jstr(&mut out, timestamp);
    push_lit(&mut out, "}");
    proof {
        assert(out@ == signing_payload_json(manifest_hash@, *payload_hash, signer@, timestamp@));
    }
    out
}

} // verus!
