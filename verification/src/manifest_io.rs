//! Reading and writing the manifest's textual form. The TOML grammar itself
//! is the `toml` crate's; this module trusts a small set of field accessors
//! over the parsed document and a table builder for the printed one, and
//! verifies the schema on top: which sections and fields a manifest needs,
//! which defaults apply, and that a printed manifest reads back as itself.

use vstd::prelude::*;
use vstd::string::*;
use crate::Error;
use crate::manifest::{
    EncryptionMeta, ManifestCapabilities, ManifestEncryption, ManifestMetadata,
    ManifestOwnership, ManifestPermissions, ManifestPolicy, ManifestSignature,
    ManifestVerification, SyncManifest, SyncSection, SyncVariant,
};
use crate::strutil::str_eq;

verus! {

#[verifier::external_type_specification]
#[verifier::external_body]
#[verifier::reject_recursive_types(K)]
#[verifier::reject_recursive_types(V)]
pub struct ExTomlMap<K, V>(toml::map::Map<K, V>);

#[verifier::external_type_specification]
#[verifier::external_body]
pub struct ExTomlValue(toml::Value);

/// Whether a text parses as a TOML document.
pub uninterp spec fn toml_ok(text: Seq<char>) -> bool;

/// The string at a key path of a TOML text, when the path holds a string.
pub uninterp spec fn toml_str_of(text: Seq<char>, path: Seq<Seq<char>>) -> Option<Seq<char>>;

/// The unsigned integer at a key path, when the path holds one that fits.
pub uninterp spec fn toml_u64_of(text: Seq<char>, path: Seq<Seq<char>>) -> Option<u64>;

/// The boolean at a key path, when the path holds a boolean.
pub uninterp spec fn toml_bool_of(text: Seq<char>, path: Seq<Seq<char>>) -> Option<bool>;

/// The list of strings at a key path, when the path holds one.
pub uninterp spec fn toml_list_of(text: Seq<char>, path: Seq<Seq<char>>) -> Option<Seq<Seq<char>>>;

/// Whether a key path exists in a TOML text, as a value or a table.
pub uninterp spec fn toml_has_of(text: Seq<char>, path: Seq<Seq<char>>) -> bool;

/// Relies on `toml`'s parser: whether the text is a TOML document.
#[verifier::external_body]
fn toml_parse_ok(text: &str) -> (r: bool)
    ensures
        r == toml_ok(text@),
{
    text.parse::<toml::Table>().is_ok()
}

/// Relies on `toml`'s parser: the string at `[sec] key`.
#[verifier::external_body]
fn toml_get_str(text: &str, sec: &str, key: &str) -> (r: Option<String>)
    ensures
        r is Some <==> toml_str_of(text@, kp2(sec@, key@)) is Some,
        r matches Some(v) ==> toml_str_of(text@, kp2(sec@, key@)) == Some(v@),
{
    let t = text.parse::<toml::Table>().ok()?;
    Some(t.get(sec)?.get(key)?.as_str()?.to_string())
}

/// Relies on `toml`'s parser: the string at `[sec.sub] key`.
#[verifier::external_body]
fn toml_get_str3(text: &str, sec: &str, sub: &str, key: &str) -> (r: Option<String>)
    ensures
        r is Some <==> toml_str_of(text@, kp3(sec@, sub@, key@)) is Some,
        r matches Some(v) ==> toml_str_of(text@, kp3(sec@, sub@, key@)) == Some(v@),
{
    let t = text.parse::<toml::Table>().ok()?;
    Some(t.get(sec)?.get(sub)?.get(key)?.as_str()?.to_string())
}

/// Relies on `toml`'s parser: the unsigned integer at `[sec] key`.
#[verifier::external_body]
fn toml_get_u64(text: &str, sec: &str, key: &str) -> (r: Option<u64>)
    ensures
        r == toml_u64_of(text@, kp2(sec@, key@)),
{
    let t = text.parse::<toml::Table>().ok()?;
    u64::try_from(t.get(sec)?.get(key)?.as_integer()?).ok()
}

/// Relies on `toml`'s parser: the boolean at `[sec] key`.
#[verifier::external_body]
fn toml_get_bool(text: &str, sec: &str, key: &str) -> (r: Option<bool>)
    ensures
        r == toml_bool_of(text@, kp2(sec@, key@)),
{
    let t = text.parse::<toml::Table>().ok()?;
    t.get(sec)?.get(key)?.as_bool()
}

/// Relies on `toml`'s parser: the list of strings at `[sec] key`.
#[verifier::external_body]
fn toml_get_list(text: &str, sec: &str, key: &str) -> (r: Option<Vec<String>>)
    ensures
        r is Some <==> toml_list_of(text@, kp2(sec@, key@)) is Some,
        r matches Some(v) ==> toml_list_of(text@, kp2(sec@, key@)) == Some(v.deep_view()),
{
    let t = text.parse::<toml::Table>().ok()?;
    let arr = t.get(sec)?.get(key)?.as_array()?;
    arr.iter().map(|v| v.as_str().map(|s| s.to_string())).collect()
}

/// Relies on `toml`'s parser: the list of strings at `[sec.sub] key`.
#[verifier::external_body]
fn toml_get_list3(text: &str, sec: &str, sub: &str, key: &str) -> (r: Option<Vec<String>>)
    ensures
        r is Some <==> toml_list_of(text@, kp3(sec@, sub@, key@)) is Some,
        r matches Some(v) ==> toml_list_of(text@, kp3(sec@, sub@, key@)) == Some(v.deep_view()),
{
    let t = text.parse::<toml::Table>().ok()?;
    let arr = t.get(sec)?.get(sub)?.get(key)?.as_array()?;
    arr.iter().map(|v| v.as_str().map(|s| s.to_string())).collect()
}

/// Relies on `toml`'s parser: whether `[sec]` exists at all.
#[verifier::external_body]
fn toml_has(text: &str, sec: &str) -> (r: bool)
    ensures
        r == toml_has_of(text@, seq![sec@]),
{
    match text.parse::<toml::Table>() {
        Ok(t) => t.get(sec).is_some(),
        Err(_) => false,
    }
}

/// Relies on `toml`'s parser: whether `[sec] key` exists at all.
#[verifier::external_body]
fn toml_has2(text: &str, sec: &str, key: &str) -> (r: bool)
    ensures
        r == toml_has_of(text@, kp2(sec@, key@)),
{
    (|| Some(text.parse::<toml::Table>().ok()?.get(sec)?.get(key).is_some()))() == Some(true)
}

/// Relies on `toml`'s parser: whether `[sec.sub] key` exists at all.
#[verifier::external_body]
fn toml_has3(text: &str, sec: &str, sub: &str, key: &str) -> (r: bool)
    ensures
        r == toml_has_of(text@, kp3(sec@, sub@, key@)),
{
    (|| Some(text.parse::<toml::Table>().ok()?.get(sec)?.get(sub)?.get(key).is_some()))()
        == Some(true)
}

/// A scalar field value of the manifest's textual form.
pub enum LeafVal {
    /// A string value.
    S(Seq<char>),
    /// An unsigned integer value.
    U(u64),
    /// A boolean value.
    B(bool),
    /// A list of strings.
    L(Seq<Seq<char>>),
}

/// A field value of a section: a scalar, or one nested table of scalars.
pub enum FieldVal {
    /// A scalar value.
    V(LeafVal),
    /// A nested table.
    T(Map<Seq<char>, LeafVal>),
}

/// The fields a flat section table holds, keyed by name. A table built
/// only by this module's section builders holds scalars and at most one
/// level of nested tables.
pub uninterp spec fn sec_fields(t: toml::map::Map<String, toml::Value>)
    -> Map<Seq<char>, FieldVal>;

/// The sections a document table holds, keyed by name.
pub uninterp spec fn doc_sections(t: toml::map::Map<String, toml::Value>)
    -> Map<Seq<char>, Map<Seq<char>, FieldVal>>;

/// Relies on `toml::map::Map::new`: an empty table has no fields and no
/// sections.
#[verifier::external_body]
fn tbl_new() -> (r: toml::map::Map<String, toml::Value>)
    ensures
        sec_fields(r) == (Map::<Seq<char>, FieldVal>::empty()),
        doc_sections(r) == (Map::<Seq<char>, Map<Seq<char>, FieldVal>>::empty()),
{
    toml::map::Map::new()
}

/// Relies on `toml::map::Map::insert`: set a string field of a section.
#[verifier::external_body]
fn sec_set_str(t: &mut toml::map::Map<String, toml::Value>, key: &str, val: &str)
    ensures
        sec_fields(*final(t)) == sec_fields(*old(t)).insert(key@, FieldVal::V(LeafVal::S(val@))),
{
    t.insert(key.to_string(), toml::Value::String(val.to_string()));
}

/// Relies on `toml::map::Map::insert`: set an unsigned integer field.
#[verifier::external_body]
fn sec_set_u64(t: &mut toml::map::Map<String, toml::Value>, key: &str, val: u64)
    requires
        val <= 0x7fff_ffff_ffff_ffff,
    ensures
        sec_fields(*final(t)) == sec_fields(*old(t)).insert(key@, FieldVal::V(LeafVal::U(val))),
{
    t.insert(key.to_string(), toml::Value::Integer(val as i64));
}

/// Relies on `toml::map::Map::insert`: set a boolean field.
#[verifier::external_body]
fn sec_set_bool(t: &mut toml::map::Map<String, toml::Value>, key: &str, val: bool)
    ensures
        sec_fields(*final(t)) == sec_fields(*old(t)).insert(key@, FieldVal::V(LeafVal::B(val))),
{
    t.insert(key.to_string(), toml::Value::Boolean(val));
}

/// Relies on `toml::map::Map::insert`: set a string-list field.
#[verifier::external_body]
fn sec_set_list(t: &mut toml::map::Map<String, toml::Value>, key: &str, val: &Vec<String>)
    ensures
        sec_fields(*final(t)) == sec_fields(*old(t)).insert(
            key@,
            FieldVal::V(LeafVal::L(val.deep_view())),
        ),
{
    let arr: Vec<toml::Value> = val.iter().map(|s| toml::Value::String(s.clone())).collect();
    t.insert(key.to_string(), toml::Value::Array(arr));
}

/// Relies on `toml::map::Map::insert`: nest one table of scalars inside a
/// section. Every field of the nested table must be a scalar.
#[verifier::external_body]
fn sec_set_table(
    t: &mut toml::map::Map<String, toml::Value>,
    key: &str,
    sub: toml::map::Map<String, toml::Value>,
)
    requires
        forall|k: Seq<char>| #[trigger] sec_fields(sub).contains_key(k)
            ==> sec_fields(sub)[k] is V,
    ensures
        sec_fields(*final(t)) == sec_fields(*old(t)).insert(
            key@,
            FieldVal::T(Map::new(
                |k: Seq<char>| sec_fields(sub).contains_key(k),
                |k: Seq<char>| sec_fields(sub)[k]->V_0,
            )),
        ),
{
    t.insert(key.to_string(), toml::Value::Table(sub));
}

/// Relies on `toml::map::Map::insert`: add a section to the document.
#[verifier::external_body]
fn doc_set_section(
    t: &mut toml::map::Map<String, toml::Value>,
    sec: &str,
    sub: toml::map::Map<String, toml::Value>,
)
    ensures
        doc_sections(*final(t)) == doc_sections(*old(t)).insert(sec@, sec_fields(sub)),
{
    t.insert(sec.to_string(), toml::Value::Table(sub));
}

/// Relies on `toml::to_string_pretty` together with `toml`'s parser: a
/// document of sections prints as TOML that parses back to the same
/// fields. Printing a document of strings, bounded integers, booleans,
/// string lists and nested tables of those cannot fail; every field set
/// through this module's builders is read back by the matching accessor,
/// absent fields stay absent, and presence mirrors the built sections.
#[verifier::external_body]
fn tbl_to_pretty(t: &toml::map::Map<String, toml::Value>) -> (r: Option<String>)
    ensures
        r is Some,
        r matches Some(text) ==> {
            let d = doc_sections(*t);
            &&& toml_ok(text@)
            &&& forall|a: Seq<char>, b: Seq<char>|
                #![trigger toml_str_of(text@, kp2(a, b))]
                toml_str_of(text@, kp2(a, b)) == (if d.contains_key(a)
                    && d[a].contains_key(b) && d[a][b] is V && d[a][b]->V_0 is S {
                    Some(d[a][b]->V_0->S_0)
                } else {
                    None
                })
            &&& forall|a: Seq<char>, b: Seq<char>|
                #![trigger toml_u64_of(text@, kp2(a, b))]
                toml_u64_of(text@, kp2(a, b)) == (if d.contains_key(a)
                    && d[a].contains_key(b) && d[a][b] is V && d[a][b]->V_0 is U {
                    Some(d[a][b]->V_0->U_0)
                } else {
                    None
                })
            &&& forall|a: Seq<char>, b: Seq<char>|
                #![trigger toml_bool_of(text@, kp2(a, b))]
                toml_bool_of(text@, kp2(a, b)) == (if d.contains_key(a)
                    && d[a].contains_key(b) && d[a][b] is V && d[a][b]->V_0 is B {
                    Some(d[a][b]->V_0->B_0)
                } else {
                    None
                })
            &&& forall|a: Seq<char>, b: Seq<char>|
                #![trigger toml_list_of(text@, kp2(a, b))]
                toml_list_of(text@, kp2(a, b)) == (if d.contains_key(a)
                    && d[a].contains_key(b) && d[a][b] is V && d[a][b]->V_0 is L {
                    Some(d[a][b]->V_0->L_0)
                } else {
                    None
                })
            &&& forall|a: Seq<char>, b: Seq<char>, c: Seq<char>|
                #![trigger toml_str_of(text@, kp3(a, b, c))]
                toml_str_of(text@, kp3(a, b, c)) == (if d.contains_key(a)
                    && d[a].contains_key(b) && d[a][b] is T
                    && d[a][b]->T_0.contains_key(c) && d[a][b]->T_0[c] is S {
                    Some(d[a][b]->T_0[c]->S_0)
                } else {
                    None
                })
            &&& forall|a: Seq<char>, b: Seq<char>, c: Seq<char>|
                #![trigger toml_list_of(text@, kp3(a, b, c))]
                toml_list_of(text@, kp3(a, b, c)) == (if d.contains_key(a)
                    && d[a].contains_key(b) && d[a][b] is T
                    && d[a][b]->T_0.contains_key(c) && d[a][b]->T_0[c] is L {
                    Some(d[a][b]->T_0[c]->L_0)
                } else {
                    None
                })
            &&& forall|a: Seq<char>| #[trigger] toml_has_of(text@, seq![a]) == d.contains_key(a)
            &&& forall|a: Seq<char>, b: Seq<char>|
                #![trigger toml_has_of(text@, kp2(a, b))]
                toml_has_of(text@, kp2(a, b)) == (d.contains_key(a) && d[a].contains_key(b))
            &&& forall|a: Seq<char>, b: Seq<char>, c: Seq<char>|
                #![trigger toml_has_of(text@, kp3(a, b, c))]
                toml_has_of(text@, kp3(a, b, c)) == (d.contains_key(a) && d[a].contains_key(b)
                    && d[a][b] is T && d[a][b]->T_0.contains_key(c))
        },
{
    toml::to_string_pretty(t).ok()
}


/// Relies on `core::str::from_utf8`: the text of a UTF-8 byte sequence.
#[verifier::external_body]
fn bytes_to_str(data: &[u8]) -> (r: Option<&str>)
    ensures
        r is Some <==> vstd::utf8::valid_utf8(data@),
        r matches Some(s) ==> s@ == vstd::utf8::decode_utf8(data@),
{
    core::str::from_utf8(data).ok()
}

/// A two-segment key path.
pub open spec fn kp2(a: Seq<char>, b: Seq<char>) -> Seq<Seq<char>> {
    seq![a, b]
}

/// A three-segment key path.
pub open spec fn kp3(a: Seq<char>, b: Seq<char>, c: Seq<char>) -> Seq<Seq<char>> {
    seq![a, b, c]
}

/// An optional string field is well-typed: absent, or present as a string.
pub open spec fn opt_str_ok(text: Seq<char>, p: Seq<Seq<char>>) -> bool {
    toml_has_of(text, p) ==> toml_str_of(text, p) is Some
}

/// An optional boolean field is well-typed.
pub open spec fn opt_bool_ok(text: Seq<char>, p: Seq<Seq<char>>) -> bool {
    toml_has_of(text, p) ==> toml_bool_of(text, p) is Some
}

/// An optional string-list field is well-typed.
pub open spec fn opt_list_ok(text: Seq<char>, p: Seq<Seq<char>>) -> bool {
    toml_has_of(text, p) ==> toml_list_of(text, p) is Some
}

/// Whether a variant field value names a known variant.
pub open spec fn known_variant_name(s: Seq<char>) -> bool {
    s == "plain"@ || s == "vault"@ || s == "app"@ || s == "data"@
}

/// Whether a manifest text satisfies the schema: the `sync`, `meta` and
/// `policy` sections carry their required fields with the right types, the
/// optional sections carry only well-typed fields, a `variant` names a known
/// variant, and a `signature` section is complete.
pub open spec fn manifest_schema_ok(text: Seq<char>) -> bool {
    &&& toml_str_of(text, kp2("sync"@, "version"@)) is Some
    &&& toml_str_of(text, kp2("sync"@, "content_type"@)) is Some
    &&& toml_str_of(text, kp2("sync"@, "display_ext"@)) is Some
    &&& (toml_has_of(text, kp2("sync"@, "variant"@)) ==> (toml_str_of(
        text,
        kp2("sync"@, "variant"@),
    ) matches Some(v) && known_variant_name(v)))
    &&& toml_str_of(text, kp2("meta"@, "created_by"@)) is Some
    &&& toml_str_of(text, kp2("meta"@, "created_at"@)) is Some
    &&& toml_str_of(text, kp2("meta"@, "hash_algo"@)) is Some
    &&& toml_u64_of(text, kp2("policy"@, "ttl"@)) is Some
    &&& toml_u64_of(text, kp2("policy"@, "timeout"@)) is Some
    &&& opt_list_ok(text, kp2("permissions"@, "allow_hosts"@))
    &&& opt_list_ok(text, kp2("permissions"@, "allow_env"@))
    &&& opt_str_ok(text, kp2("ownership"@, "owner_capsule"@))
    &&& opt_bool_ok(text, kp2("ownership"@, "write_allowed"@))
    &&& opt_bool_ok(text, kp2("verification"@, "enabled"@))
    &&& opt_str_ok(text, kp2("verification"@, "vm_type"@))
    &&& opt_str_ok(text, kp2("verification"@, "proof_type"@))
    &&& opt_list_ok(text, kp2("capabilities"@, "values"@))
    &&& opt_bool_ok(text, kp2("encryption"@, "enabled"@))
    &&& opt_str_ok(text, kp2("encryption"@, "algorithm"@))
    &&& (toml_has_of(text, kp2("encryption"@, "meta"@)) ==> {
        &&& opt_list_ok(text, kp3("encryption"@, "meta"@, "keys"@))
        &&& opt_list_ok(text, kp3("encryption"@, "meta"@, "recipients"@))
        &&& opt_str_ok(text, kp3("encryption"@, "meta"@, "kdf"@))
        &&& opt_str_ok(text, kp3("encryption"@, "meta"@, "hint"@))
    })
    &&& (toml_has_of(text, seq!["signature"@]) ==> {
        &&& toml_str_of(text, kp2("signature"@, "algo"@)) is Some
        &&& toml_str_of(text, kp2("signature"@, "manifest_hash"@)) is Some
        &&& toml_str_of(text, kp2("signature"@, "timestamp"@)) is Some
        &&& toml_str_of(text, kp2("signature"@, "value"@)) is Some
        &&& opt_str_ok(text, kp2("signature"@, "payload_hash"@))
    })
}

/// An optional string field read back: present with these characters, or
/// absent and defaulted.
pub open spec fn opt_str_matches(text: Seq<char>, p: Seq<Seq<char>>, v: Option<String>) -> bool {
    match v {
        Some(x) => toml_has_of(text, p) && toml_str_of(text, p) == Some(x@),
        None => !toml_has_of(text, p),
    }
}

/// An optional boolean field read back, defaulting to false.
pub open spec fn opt_bool_matches(text: Seq<char>, p: Seq<Seq<char>>, v: bool) -> bool {
    if toml_has_of(text, p) {
        toml_bool_of(text, p) == Some(v)
    } else {
        v == false
    }
}

/// An optional string-list field read back, defaulting to empty.
pub open spec fn opt_list_matches(text: Seq<char>, p: Seq<Seq<char>>, v: Seq<String>) -> bool {
    if toml_has_of(text, p) {
        toml_list_of(text, p) == Some(v.map_values(|x: String| x@))
    } else {
        v.len() == 0
    }
}

/// Whether a manifest value is exactly what parsing the text yields.
pub open spec fn manifest_fields_match(m: SyncManifest, text: Seq<char>) -> bool {
    &&& toml_str_of(text, kp2("sync"@, "version"@)) == Some(m.sync.version@)
    &&& toml_str_of(text, kp2("sync"@, "content_type"@)) == Some(m.sync.content_type@)
    &&& toml_str_of(text, kp2("sync"@, "display_ext"@)) == Some(m.sync.display_ext@)
    &&& (if toml_has_of(text, kp2("sync"@, "variant"@)) {
        toml_str_of(text, kp2("sync"@, "variant"@))
            == Some(crate::manifest::variant_name(m.sync.variant))
    } else {
        m.sync.variant == SyncVariant::Plain
    })
    &&& toml_str_of(text, kp2("meta"@, "created_by"@)) == Some(m.meta.created_by@)
    &&& toml_str_of(text, kp2("meta"@, "created_at"@)) == Some(m.meta.created_at@)
    &&& toml_str_of(text, kp2("meta"@, "hash_algo"@)) == Some(m.meta.hash_algo@)
    &&& toml_u64_of(text, kp2("policy"@, "ttl"@)) == Some(m.policy.ttl)
    &&& toml_u64_of(text, kp2("policy"@, "timeout"@)) == Some(m.policy.timeout)
    &&& opt_list_matches(text, kp2("permissions"@, "allow_hosts"@), m.permissions.allow_hosts@)
    &&& opt_list_matches(text, kp2("permissions"@, "allow_env"@), m.permissions.allow_env@)
    &&& opt_str_matches(text, kp2("ownership"@, "owner_capsule"@), m.ownership.owner_capsule)
    &&& opt_bool_matches(text, kp2("ownership"@, "write_allowed"@), m.ownership.write_allowed)
    &&& opt_bool_matches(text, kp2("verification"@, "enabled"@), m.verification.enabled)
    &&& opt_str_matches(text, kp2("verification"@, "vm_type"@), m.verification.vm_type)
    &&& opt_str_matches(text, kp2("verification"@, "proof_type"@), m.verification.proof_type)
    &&& opt_list_matches(text, kp2("capabilities"@, "values"@), m.capabilities.values@)
    &&& opt_bool_matches(text, kp2("encryption"@, "enabled"@), m.encryption.enabled)
    &&& opt_str_matches(text, kp2("encryption"@, "algorithm"@), m.encryption.algorithm)
    &&& (match m.encryption.meta {
        Some(em) => {
            &&& toml_has_of(text, kp2("encryption"@, "meta"@))
            &&& opt_list_matches(text, kp3("encryption"@, "meta"@, "keys"@), em.keys@)
            &&& opt_list_matches(text, kp3("encryption"@, "meta"@, "recipients"@), em.recipients@)
            &&& opt_str_matches(text, kp3("encryption"@, "meta"@, "kdf"@), em.kdf)
            &&& opt_str_matches(text, kp3("encryption"@, "meta"@, "hint"@), em.hint)
        },
        None => !toml_has_of(text, kp2("encryption"@, "meta"@)),
    })
    &&& (match m.signature {
        Some(sig) => {
            &&& toml_has_of(text, seq!["signature"@])
            &&& toml_str_of(text, kp2("signature"@, "algo"@)) == Some(sig.algo@)
            &&& toml_str_of(text, kp2("signature"@, "manifest_hash"@)) == Some(sig.manifest_hash@)
            &&& toml_str_of(text, kp2("signature"@, "timestamp"@)) == Some(sig.timestamp@)
            &&& toml_str_of(text, kp2("signature"@, "value"@)) == Some(sig.value@)
            &&& opt_str_matches(text, kp2("signature"@, "payload_hash"@), sig.payload_hash)
        },
        None => !toml_has_of(text, seq!["signature"@]),
    })
}

/// Read an optional string field under the schema.
fn read_opt_str(text: &str, sec: &str, key: &str) -> (r: Result<Option<String>, Error>)
    ensures
        r is Err <==> !opt_str_ok(text@, kp2(sec@, key@)),
        r matches Err(e) ==> e is ManifestError,
        r matches Ok(v) ==> opt_str_matches(text@, kp2(sec@, key@), v),
{
    if toml_has2(text, sec, key) {
        match toml_get_str(text, sec, key) {
            Some(v) => Ok(Some(v)),
            None => Err(Error::ManifestError(String::from_str("field has the wrong type"))),
        }
    } else {
        Ok(None)
    }
}

/// Read an optional string field nested one level deeper.
fn read_opt_str3(text: &str, sec: &str, sub: &str, key: &str)
    -> (r: Result<Option<String>, Error>)
    ensures
        r is Err <==> !opt_str_ok(text@, kp3(sec@, sub@, key@)),
        r matches Err(e) ==> e is ManifestError,
        r matches Ok(v) ==> opt_str_matches(text@, kp3(sec@, sub@, key@), v),
{
    if toml_has3(text, sec, sub, key) {
        match toml_get_str3(text, sec, sub, key) {
            Some(v) => Ok(Some(v)),
            None => Err(Error::ManifestError(String::from_str("field has the wrong type"))),
        }
    } else {
        Ok(None)
    }
}

/// Read an optional boolean field under the schema, defaulting to false.
fn read_opt_bool(text: &str, sec: &str, key: &str) -> (r: Result<bool, Error>)
    ensures
        r is Err <==> !opt_bool_ok(text@, kp2(sec@, key@)),
        r matches Err(e) ==> e is ManifestError,
        r matches Ok(v) ==> opt_bool_matches(text@, kp2(sec@, key@), v),
{
    if toml_has2(text, sec, key) {
        match toml_get_bool(text, sec, key) {
            Some(v) => Ok(v),
            None => Err(Error::ManifestError(String::from_str("field has the wrong type"))),
        }
    } else {
        Ok(false)
    }
}

/// Read an optional string-list field under the schema, defaulting to empty.
fn read_opt_list(text: &str, sec: &str, key: &str) -> (r: Result<Vec<String>, Error>)
    ensures
        r is Err <==> !opt_list_ok(text@, kp2(sec@, key@)),
        r matches Err(e) ==> e is ManifestError,
        r matches Ok(v) ==> opt_list_matches(text@, kp2(sec@, key@), v@),
{
    if toml_has2(text, sec, key) {
        match toml_get_list(text, sec, key) {
            Some(v) => {
                proof {
                    assert(v.deep_view() =~= v@.map_values(|x: String| x@));
                }
                Ok(v)
            },
            None => Err(Error::ManifestError(String::from_str("field has the wrong type"))),
        }
    } else {
        Ok(Vec::new())
    }
}

/// Read an optional string-list field nested one level deeper.
fn read_opt_list3(text: &str, sec: &str, sub: &str, key: &str)
    -> (r: Result<Vec<String>, Error>)
    ensures
        r is Err <==> !opt_list_ok(text@, kp3(sec@, sub@, key@)),
        r matches Err(e) ==> e is ManifestError,
        r matches Ok(v) ==> opt_list_matches(text@, kp3(sec@, sub@, key@), v@),
{
    if toml_has3(text, sec, sub, key) {
        match toml_get_list3(text, sec, sub, key) {
            Some(v) => {
                proof {
                    assert(v.deep_view() =~= v@.map_values(|x: String| x@));
                }
                Ok(v)
            },
            None => Err(Error::ManifestError(String::from_str("field has the wrong type"))),
        }
    } else {
        Ok(Vec::new())
    }
}

/// Read a required string field.
fn read_req_str(text: &str, sec: &str, key: &str) -> (r: Result<String, Error>)
    ensures
        r is Err <==> toml_str_of(text@, kp2(sec@, key@)) is None,
        r matches Err(e) ==> e is ManifestError,
        r matches Ok(v) ==> toml_str_of(text@, kp2(sec@, key@)) == Some(v@),
    {
    match toml_get_str(text, sec, key) {
        Some(v) => Ok(v),
        None => Err(Error::ManifestError(String::from_str("missing required field"))),
    }
}

impl SyncManifest {
    /// Parse a manifest from its textual bytes. The bytes must be UTF-8 and
    /// valid TOML; the schema is then enforced exactly: required fields must
    /// be present with their types, optional sections default, an unknown
    /// variant is rejected, and unknown fields are ignored.
    pub fn from_toml(data: &[u8]) -> (r: Result<SyncManifest, Error>)
        ensures
            ({
                let text = vstd::utf8::decode_utf8(data@);
                let valid = vstd::utf8::valid_utf8(data@);
                &&& (r is Ok <==> valid && toml_ok(text) && manifest_schema_ok(text))
                &&& (r matches Ok(m) ==> manifest_fields_match(m, text))
                &&& (r matches Err(e) ==> (e is ManifestError || e is TomlError))
                &&& (r matches Err(e) && e is TomlError
                    ==> valid && !toml_ok(text))
            }),
    {
        proof {
            reveal_strlit("plain");
            reveal_strlit("vault");
            reveal_strlit("app");
            reveal_strlit("data");
        }
        let text = match bytes_to_str(data) {
            Some(t) => t,
            None => {
                return Err(Error::ManifestError(String::from_str("manifest is not UTF-8")));
            },
        };
        if !toml_parse_ok(text) {
            return Err(Error::TomlError(String::from_str("manifest is not valid TOML")));
        }
        let version = match read_req_str(text, "sync", "version") {
            Ok(v) => v,
            Err(e) => {
                return Err(e);
            },
        };
        let content_type = match read_req_str(text, "sync", "content_type") {
            Ok(v) => v,
            Err(e) => {
                return Err(e);
            },
        };
        let display_ext = match read_req_str(text, "sync", "display_ext") {
            Ok(v) => v,
            Err(e) => {
                return Err(e);
            },
        };
        let variant: SyncVariant = if toml_has2(text, "sync", "variant") {
            match toml_get_str(text, "sync", "variant") {
                Some(v) => {
                    if str_eq(v.as_str(), "plain") {
                        SyncVariant::Plain
                    } else if str_eq(v.as_str(), "vault") {
                        SyncVariant::Vault
                    } else if str_eq(v.as_str(), "app") {
                        SyncVariant::App
                    } else if str_eq(v.as_str(), "data") {
                        SyncVariant::Data
                    } else {
                        return Err(Error::ManifestError(String::from_str("unknown variant")));
                    }
                },
                None => {
                    return Err(Error::ManifestError(String::from_str("variant must be a string")));
                },
            }
        } else {
            SyncVariant::Plain
        };
        let created_by = match read_req_str(text, "meta", "created_by") {
            Ok(v) => v,
            Err(e) => {
                return Err(e);
            },
        };
        let created_at = match read_req_str(text, "meta", "created_at") {
            Ok(v) => v,
            Err(e) => {
                return Err(e);
            },
        };
        let hash_algo = match read_req_str(text, "meta", "hash_algo") {
            Ok(v) => v,
            Err(e) => {
                return Err(e);
            },
        };
        let ttl = match toml_get_u64(text, "policy", "ttl") {
            Some(v) => v,
            None => {
                return Err(Error::ManifestError(String::from_str("policy.ttl is required")));
            },
        };
        let timeout = match toml_get_u64(text, "policy", "timeout") {
            Some(v) => v,
            None => {
                return Err(Error::ManifestError(String::from_str("policy.timeout is required")));
            },
        };
        let allow_hosts = match read_opt_list(text, "permissions", "allow_hosts") {
            Ok(v) => v,
            Err(e) => {
                return Err(e);
            },
        };
        let allow_env = match read_opt_list(text, "permissions", "allow_env") {
            Ok(v) => v,
            Err(e) => {
                return Err(e);
            },
        };
        let owner_capsule = match read_opt_str(text, "ownership", "owner_capsule") {
            Ok(v) => v,
            Err(e) => {
                return Err(e);
            },
        };
        let write_allowed = match read_opt_bool(text, "ownership", "write_allowed") {
            Ok(v) => v,
            Err(e) => {
                return Err(e);
            },
        };
        let ver_enabled = match read_opt_bool(text, "verification", "enabled") {
            Ok(v) => v,
            Err(e) => {
                return Err(e);
            },
        };
        let vm_type = match read_opt_str(text, "verification", "vm_type") {
            Ok(v) => v,
            Err(e) => {
                return Err(e);
            },
        };
        let proof_type = match read_opt_str(text, "verification", "proof_type") {
            Ok(v) => v,
            Err(e) => {
                return Err(e);
            },
        };
        let cap_values = match read_opt_list(text, "capabilities", "values") {
            Ok(v) => v,
            Err(e) => {
                return Err(e);
            },
        };
        let enc_enabled = match read_opt_bool(text, "encryption", "enabled") {
            Ok(v) => v,
            Err(e) => {
                return Err(e);
            },
        };
        let enc_algorithm = match read_opt_str(text, "encryption", "algorithm") {
            Ok(v) => v,
            Err(e) => {
                return Err(e);
            },
        };
        let enc_meta: Option<EncryptionMeta> = if toml_has2(text, "encryption", "meta") {
            let keys = match read_opt_list3(text, "encryption", "meta", "keys") {
                Ok(v) => v,
                Err(e) => {
                    return Err(e);
                },
            };
            let recipients = match read_opt_list3(text, "encryption", "meta", "recipients") {
                Ok(v) => v,
                Err(e) => {
                    return Err(e);
                },
            };
            let kdf = match read_opt_str3(text, "encryption", "meta", "kdf") {
                Ok(v) => v,
                Err(e) => {
                    return Err(e);
                },
            };
            let hint = match read_opt_str3(text, "encryption", "meta", "hint") {
                Ok(v) => v,
                Err(e) => {
                    return Err(e);
                },
            };
            Some(EncryptionMeta { keys, recipients, kdf, hint })
        } else {
            None
        };
        let signature: Option<ManifestSignature> = if toml_has(text, "signature") {
            let algo = match toml_get_str(text, "signature", "algo") {
                Some(v) => v,
                None => {
                    return Err(Error::ManifestError(String::from_str("signature.algo missing")));
                },
            };
            let manifest_hash = match toml_get_str(text, "signature", "manifest_hash") {
                Some(v) => v,
                None => {
                    return Err(Error::ManifestError(
                        String::from_str("signature.manifest_hash missing"),
                    ));
                },
            };
            let timestamp = match toml_get_str(text, "signature", "timestamp") {
                Some(v) => v,
                None => {
                    return Err(Error::ManifestError(
                        String::from_str("signature.timestamp missing"),
                    ));
                },
            };
            let value = match toml_get_str(text, "signature", "value") {
                Some(v) => v,
                None => {
                    return Err(Error::ManifestError(String::from_str("signature.value missing")));
                },
            };
            let payload_hash = match read_opt_str(text, "signature", "payload_hash") {
            Ok(v) => v,
            Err(e) => {
                return Err(e);
            },
        };
            Some(ManifestSignature { algo, manifest_hash, payload_hash, timestamp, value })
        } else {
            None
        };
        Ok(SyncManifest {
            sync: SyncSection { version, content_type, display_ext, variant },
            meta: ManifestMetadata { created_by, created_at, hash_algo },
            policy: ManifestPolicy { ttl, timeout },
            permissions: ManifestPermissions { allow_hosts, allow_env },
            ownership: ManifestOwnership { owner_capsule, write_allowed },
            verification: ManifestVerification {
                enabled: ver_enabled,
                vm_type,
                proof_type,
            },
            capabilities: ManifestCapabilities { values: cap_values },
            signature,
            encryption: ManifestEncryption {
                enabled: enc_enabled,
                algorithm: enc_algorithm,
                meta: enc_meta,
            },
        })
    }
}



/// The built form of the `sync` section.
pub open spec fn sync_sec_map(m: SyncManifest) -> Map<Seq<char>, FieldVal> {
    Map::empty()
        .insert("version"@, FieldVal::V(LeafVal::S(m.sync.version@)))
        .insert("content_type"@, FieldVal::V(LeafVal::S(m.sync.content_type@)))
        .insert("display_ext"@, FieldVal::V(LeafVal::S(m.sync.display_ext@)))
        .insert("variant"@, FieldVal::V(LeafVal::S(crate::manifest::variant_name(m.sync.variant))))
}

/// The built form of the `meta` section.
pub open spec fn meta_sec_map(m: SyncManifest) -> Map<Seq<char>, FieldVal> {
    Map::empty()
        .insert("created_by"@, FieldVal::V(LeafVal::S(m.meta.created_by@)))
        .insert("created_at"@, FieldVal::V(LeafVal::S(m.meta.created_at@)))
        .insert("hash_algo"@, FieldVal::V(LeafVal::S(m.meta.hash_algo@)))
}

/// The built form of the `policy` section.
pub open spec fn policy_sec_map(m: SyncManifest) -> Map<Seq<char>, FieldVal> {
    Map::empty()
        .insert("ttl"@, FieldVal::V(LeafVal::U(m.policy.ttl)))
        .insert("timeout"@, FieldVal::V(LeafVal::U(m.policy.timeout)))
}

/// The built form of the `permissions` section.
pub open spec fn permissions_sec_map(m: SyncManifest) -> Map<Seq<char>, FieldVal> {
    Map::empty()
        .insert("allow_hosts"@, FieldVal::V(LeafVal::L(m.permissions.allow_hosts.deep_view())))
        .insert("allow_env"@, FieldVal::V(LeafVal::L(m.permissions.allow_env.deep_view())))
}

/// The built form of the `ownership` section.
pub open spec fn ownership_sec_map(m: SyncManifest) -> Map<Seq<char>, FieldVal> {
    (match m.ownership.owner_capsule {
        Some(oc) => Map::empty().insert("owner_capsule"@, FieldVal::V(LeafVal::S(oc@))),
        None => Map::empty(),
    }).insert("write_allowed"@, FieldVal::V(LeafVal::B(m.ownership.write_allowed)))
}

/// The built form of the `verification` section.
pub open spec fn verification_sec_map(m: SyncManifest) -> Map<Seq<char>, FieldVal> {
    let base = Map::empty().insert("enabled"@, FieldVal::V(LeafVal::B(m.verification.enabled)));
    let with_vm = match m.verification.vm_type {
        Some(v) => base.insert("vm_type"@, FieldVal::V(LeafVal::S(v@))),
        None => base,
    };
    match m.verification.proof_type {
        Some(v) => with_vm.insert("proof_type"@, FieldVal::V(LeafVal::S(v@))),
        None => with_vm,
    }
}

/// The built form of the `capabilities` section.
pub open spec fn capabilities_sec_map(m: SyncManifest) -> Map<Seq<char>, FieldVal> {
    Map::empty().insert("values"@, FieldVal::V(LeafVal::L(m.capabilities.values.deep_view())))
}

/// The built form of the encryption hint table.
pub open spec fn enc_meta_map(em: EncryptionMeta) -> Map<Seq<char>, LeafVal> {
    let base = Map::empty()
        .insert("keys"@, LeafVal::L(em.keys.deep_view()))
        .insert("recipients"@, LeafVal::L(em.recipients.deep_view()));
    let with_kdf = match em.kdf {
        Some(v) => base.insert("kdf"@, LeafVal::S(v@)),
        None => base,
    };
    match em.hint {
        Some(v) => with_kdf.insert("hint"@, LeafVal::S(v@)),
        None => with_kdf,
    }
}

/// The built form of the `encryption` section.
pub open spec fn encryption_sec_map(m: SyncManifest) -> Map<Seq<char>, FieldVal> {
    let base = Map::empty().insert("enabled"@, FieldVal::V(LeafVal::B(m.encryption.enabled)));
    let with_alg = match m.encryption.algorithm {
        Some(v) => base.insert("algorithm"@, FieldVal::V(LeafVal::S(v@))),
        None => base,
    };
    match m.encryption.meta {
        Some(em) => with_alg.insert("meta"@, FieldVal::T(enc_meta_map(em))),
        None => with_alg,
    }
}

/// The built form of the `signature` section.
pub open spec fn signature_sec_map(sig: ManifestSignature) -> Map<Seq<char>, FieldVal> {
    let base = Map::empty()
        .insert("algo"@, FieldVal::V(LeafVal::S(sig.algo@)))
        .insert("manifest_hash"@, FieldVal::V(LeafVal::S(sig.manifest_hash@)))
        .insert("timestamp"@, FieldVal::V(LeafVal::S(sig.timestamp@)))
        .insert("value"@, FieldVal::V(LeafVal::S(sig.value@)));
    match sig.payload_hash {
        Some(ph) => base.insert("payload_hash"@, FieldVal::V(LeafVal::S(ph@))),
        None => base,
    }
}

/// The built form of a whole manifest document.
pub open spec fn manifest_doc_map(m: SyncManifest)
    -> Map<Seq<char>, Map<Seq<char>, FieldVal>> {
    let base = Map::empty()
        .insert("sync"@, sync_sec_map(m))
        .insert("meta"@, meta_sec_map(m))
        .insert("policy"@, policy_sec_map(m))
        .insert("permissions"@, permissions_sec_map(m))
        .insert("ownership"@, ownership_sec_map(m))
        .insert("verification"@, verification_sec_map(m))
        .insert("capabilities"@, capabilities_sec_map(m))
        .insert("encryption"@, encryption_sec_map(m));
    match m.signature {
        Some(sig) => base.insert("signature"@, signature_sec_map(sig)),
        None => base,
    }
}

/// Whether a printed manifest text reads back as the manifest it came
/// from: the document parses, satisfies the schema, and every field of `m`
/// is exactly what the accessors yield.
pub open spec fn manifest_printed(m: SyncManifest, text: Seq<char>) -> bool {
    &&& toml_ok(text)
    &&& manifest_schema_ok(text)
    &&& toml_has_of(text, kp2("sync"@, "variant"@))
    &&& manifest_fields_match(m, text)
}

fn build_sync_sec(m: &SyncManifest) -> (r: toml::map::Map<String, toml::Value>)
    ensures
        sec_fields(r) == sync_sec_map(*m),
{
    let mut t = tbl_new();
    sec_set_str(&mut t, "version", m.sync.version.as_str());
    sec_set_str(&mut t, "content_type", m.sync.content_type.as_str());
    sec_set_str(&mut t, "display_ext", m.sync.display_ext.as_str());
    sec_set_str(&mut t, "variant", m.sync.variant.as_str());
    t
}

fn build_meta_sec(m: &SyncManifest) -> (r: toml::map::Map<String, toml::Value>)
    ensures
        sec_fields(r) == meta_sec_map(*m),
{
    let mut t = tbl_new();
    sec_set_str(&mut t, "created_by", m.meta.created_by.as_str());
    sec_set_str(&mut t, "created_at", m.meta.created_at.as_str());
    sec_set_str(&mut t, "hash_algo", m.meta.hash_algo.as_str());
    t
}

fn build_policy_sec(m: &SyncManifest) -> (r: toml::map::Map<String, toml::Value>)
    requires
        m.policy.ttl <= 0x7fff_ffff_ffff_ffff,
        m.policy.timeout <= 0x7fff_ffff_ffff_ffff,
    ensures
        sec_fields(r) == policy_sec_map(*m),
{
    let mut t = tbl_new();
    sec_set_u64(&mut t, "ttl", m.policy.ttl);
    sec_set_u64(&mut t, "timeout", m.policy.timeout);
    t
}

fn build_permissions_sec(m: &SyncManifest) -> (r: toml::map::Map<String, toml::Value>)
    ensures
        sec_fields(r) == permissions_sec_map(*m),
{
    let mut t = tbl_new();
    sec_set_list(&mut t, "allow_hosts", &m.permissions.allow_hosts);
    sec_set_list(&mut t, "allow_env", &m.permissions.allow_env);
    t
}

fn build_ownership_sec(m: &SyncManifest) -> (r: toml::map::Map<String, toml::Value>)
    ensures
        sec_fields(r) == ownership_sec_map(*m),
{
    let mut t = tbl_new();
    if let Some(oc) = &m.ownership.owner_capsule {
        sec_set_str(&mut t, "owner_capsule", oc.as_str());
    }
    sec_set_bool(&mut t, "write_allowed", m.ownership.write_allowed);
    t
}

fn build_verification_sec(m: &SyncManifest) -> (r: toml::map::Map<String, toml::Value>)
    ensures
        sec_fields(r) == verification_sec_map(*m),
{
    let mut t = tbl_new();
    sec_set_bool(&mut t, "enabled", m.verification.enabled);
    if let Some(v) = &m.verification.vm_type {
        sec_set_str(&mut t, "vm_type", v.as_str());
    }
    if let Some(v) = &m.verification.proof_type {
        sec_set_str(&mut t, "proof_type", v.as_str());
    }
    t
}

fn build_capabilities_sec(m: &SyncManifest) -> (r: toml::map::Map<String, toml::Value>)
    ensures
        sec_fields(r) == capabilities_sec_map(*m),
{
    let mut t = tbl_new();
    sec_set_list(&mut t, "values", &m.capabilities.values);
    t
}

fn build_encryption_sec(m: &SyncManifest) -> (r: toml::map::Map<String, toml::Value>)
    ensures
        sec_fields(r) == encryption_sec_map(*m),
{
    let mut t = tbl_new();
    sec_set_bool(&mut t, "enabled", m.encryption.enabled);
    if let Some(v) = &m.encryption.algorithm {
        sec_set_str(&mut t, "algorithm", v.as_str());
    }
    if let Some(em) = &m.encryption.meta {
        let mut sub = tbl_new();
        sec_set_list(&mut sub, "keys", &em.keys);
        sec_set_list(&mut sub, "recipients", &em.recipients);
        if let Some(v) = &em.kdf {
            sec_set_str(&mut sub, "kdf", v.as_str());
        }
        if let Some(v) = &em.hint {
            sec_set_str(&mut sub, "hint", v.as_str());
        }
        proof {
            assert(forall|k: Seq<char>| #[trigger] sec_fields(sub).contains_key(k)
                ==> sec_fields(sub)[k] is V);
        }
        sec_set_table(&mut t, "meta", sub);
        proof {
            let em0 = m.encryption.meta->Some_0;
            assert(sec_fields(t)["meta"@]->T_0 =~= enc_meta_map(em0));
            assert(sec_fields(t) =~= encryption_sec_map(*m));
        }
    }
    t
}

fn build_signature_sec(sig: &ManifestSignature) -> (r: toml::map::Map<String, toml::Value>)
    ensures
        sec_fields(r) == signature_sec_map(*sig),
{
    let mut t = tbl_new();
    sec_set_str(&mut t, "algo", sig.algo.as_str());
    sec_set_str(&mut t, "manifest_hash", sig.manifest_hash.as_str());
    sec_set_str(&mut t, "timestamp", sig.timestamp.as_str());
    sec_set_str(&mut t, "value", sig.value.as_str());
    if let Some(ph) = &sig.payload_hash {
        sec_set_str(&mut t, "payload_hash", ph.as_str());
    }
    t
}

impl SyncManifest {
    /// Serialize the manifest to its textual form: every populated section
    /// and field is written; unset optional fields are omitted; the printed
    /// text reads back as the same manifest, field for field. Policy values
    /// must fit the textual integer range; serialization then always
    /// succeeds.
    #[verifier::rlimit(100)]
    #[verifier::spinoff_prover]
    pub fn to_toml_text(&self) -> (r: Result<String, Error>)
        requires
            self.policy.ttl <= 0x7fff_ffff_ffff_ffff,
            self.policy.timeout <= 0x7fff_ffff_ffff_ffff,
        ensures
            r is Ok,
            r matches Ok(text) ==> manifest_printed(*self, text@),
    {
        let mut doc = tbl_new();
        doc_set_section(&mut doc, "sync", build_sync_sec(self));
        doc_set_section(&mut doc, "meta", build_meta_sec(self));
        doc_set_section(&mut doc, "policy", build_policy_sec(self));
        doc_set_section(&mut doc, "permissions", build_permissions_sec(self));
        doc_set_section(&mut doc, "ownership", build_ownership_sec(self));
        doc_set_section(&mut doc, "verification", build_verification_sec(self));
        doc_set_section(&mut doc, "capabilities", build_capabilities_sec(self));
        doc_set_section(&mut doc, "encryption", build_encryption_sec(self));
        if let Some(sig) = &self.signature {
            doc_set_section(&mut doc, "signature", build_signature_sec(sig));
        }
        let text = match tbl_to_pretty(&doc) {
            Some(text) => text,
            None => {
                return Err(Error::ManifestError(String::from_str(
                    "manifest could not be serialized",
                )));
            },
        };
        proof {
            lemma_section_names_distinct();
            lemma_field_names_distinct();
            assert(doc_sections(doc) =~= manifest_doc_map(*self));
            assert(self.permissions.allow_hosts@.map_values(|x: String| x@)
                =~= self.permissions.allow_hosts.deep_view());
            assert(self.permissions.allow_env@.map_values(|x: String| x@)
                =~= self.permissions.allow_env.deep_view());
            assert(self.capabilities.values@.map_values(|x: String| x@)
                =~= self.capabilities.values.deep_view());
            if self.encryption.meta is Some {
                let em = self.encryption.meta->Some_0;
                assert(em.keys@.map_values(|x: String| x@) =~= em.keys.deep_view());
                assert(em.recipients@.map_values(|x: String| x@) =~= em.recipients.deep_view());
            }
        }
        Ok(text)
    }
}

/// The nine section names are pairwise distinct.
proof fn lemma_section_names_distinct()
    ensures
        "sync"@ != "meta"@,
        "ownership"@ != "signature"@,
        "verification"@ != "capabilities"@,
        "sync"@.len() == 4 && "meta"@.len() == 4 && "policy"@.len() == 6
            && "permissions"@.len() == 11 && "ownership"@.len() == 9
            && "verification"@.len() == 12 && "capabilities"@.len() == 12
            && "signature"@.len() == 9 && "encryption"@.len() == 10,
{
    reveal_strlit("sync");
    reveal_strlit("meta");
    reveal_strlit("policy");
    reveal_strlit("permissions");
    reveal_strlit("ownership");
    reveal_strlit("verification");
    reveal_strlit("capabilities");
    reveal_strlit("signature");
    reveal_strlit("encryption");
    assert("sync"@[0] == 's' && "meta"@[0] == 'm');
    assert("ownership"@[0] == 'o' && "signature"@[0] == 's');
    assert("verification"@[0] == 'v' && "capabilities"@[0] == 'c');
}

/// The field names used within each section are pairwise distinct.
proof fn lemma_field_names_distinct()
    ensures
        "version"@ != "variant"@,
        "created_by"@ != "created_at"@,
        "owner_capsule"@ != "write_allowed"@,
        "enabled"@ != "vm_type"@,
        "keys"@ != "hint"@,
        "version"@.len() == 7 && "content_type"@.len() == 12 && "display_ext"@.len() == 11
            && "variant"@.len() == 7,
        "created_by"@.len() == 10 && "created_at"@.len() == 10 && "hash_algo"@.len() == 9,
        "ttl"@.len() == 3 && "timeout"@.len() == 7,
        "allow_hosts"@.len() == 11 && "allow_env"@.len() == 9,
        "owner_capsule"@.len() == 13 && "write_allowed"@.len() == 13,
        "enabled"@.len() == 7 && "vm_type"@.len() == 7 && "proof_type"@.len() == 10,
        "values"@.len() == 6,
        "algo"@.len() == 4 && "manifest_hash"@.len() == 13 && "payload_hash"@.len() == 12
            && "timestamp"@.len() == 9 && "value"@.len() == 5,
        "algorithm"@.len() == 9 && "keys"@.len() == 4 && "recipients"@.len() == 10
            && "kdf"@.len() == 3 && "hint"@.len() == 4,
        "plain"@.len() == 5 && "vault"@.len() == 5 && "app"@.len() == 3 && "data"@.len() == 4,
        "plain"@ != "vault"@,
{
    reveal_strlit("version");
    reveal_strlit("content_type");
    reveal_strlit("display_ext");
    reveal_strlit("variant");
    reveal_strlit("created_by");
    reveal_strlit("created_at");
    reveal_strlit("hash_algo");
    reveal_strlit("ttl");
    reveal_strlit("timeout");
    reveal_strlit("allow_hosts");
    reveal_strlit("allow_env");
    reveal_strlit("owner_capsule");
    reveal_strlit("write_allowed");
    reveal_strlit("enabled");
    reveal_strlit("vm_type");
    reveal_strlit("proof_type");
    reveal_strlit("values");
    reveal_strlit("algo");
    reveal_strlit("manifest_hash");
    reveal_strlit("payload_hash");
    reveal_strlit("timestamp");
    reveal_strlit("value");
    reveal_strlit("algorithm");
    reveal_strlit("keys");
    reveal_strlit("recipients");
    reveal_strlit("kdf");
    reveal_strlit("hint");
    reveal_strlit("plain");
    reveal_strlit("vault");
    reveal_strlit("app");
    reveal_strlit("data");
    assert("version"@[1] == 'e' && "variant"@[1] == 'a');
    assert("created_by"@[8] == 'b' && "created_at"@[8] == 'a');
    assert("owner_capsule"@[0] == 'o' && "write_allowed"@[0] == 'w');
    assert("enabled"@[0] == 'e' && "vm_type"@[0] == 'v');
    assert("keys"@[0] == 'k' && "hint"@[0] == 'h');
    assert("plain"@[0] == 'p' && "vault"@[0] == 'v');
}

/// Round trip: a manifest printed to text and a manifest parsed back from
/// that text agree on every field. Printing loses nothing and parsing
/// invents nothing.
pub proof fn lemma_manifest_round_trip(m1: SyncManifest, m2: SyncManifest, text: Seq<char>)
    requires
        manifest_printed(m1, text),
        manifest_fields_match(m2, text),
    ensures
        m2.sync.version@ == m1.sync.version@,
        m2.sync.content_type@ == m1.sync.content_type@,
        m2.sync.display_ext@ == m1.sync.display_ext@,
        m2.sync.variant == m1.sync.variant,
        m2.meta.created_by@ == m1.meta.created_by@,
        m2.meta.created_at@ == m1.meta.created_at@,
        m2.meta.hash_algo@ == m1.meta.hash_algo@,
        m2.policy == m1.policy,
        m2.permissions.allow_hosts@.map_values(|x: String| x@)
            == m1.permissions.allow_hosts@.map_values(|x: String| x@),
        m2.permissions.allow_env@.map_values(|x: String| x@)
            == m1.permissions.allow_env@.map_values(|x: String| x@),
        m2.ownership.owner_capsule is Some <==> m1.ownership.owner_capsule is Some,
        m2.ownership.owner_capsule is Some
            ==> m2.ownership.owner_capsule->Some_0@ == m1.ownership.owner_capsule->Some_0@,
        m2.ownership.write_allowed == m1.ownership.write_allowed,
        m2.verification.enabled == m1.verification.enabled,
        m2.verification.vm_type is Some <==> m1.verification.vm_type is Some,
        m2.verification.vm_type is Some
            ==> m2.verification.vm_type->Some_0@ == m1.verification.vm_type->Some_0@,
        m2.verification.proof_type is Some <==> m1.verification.proof_type is Some,
        m2.verification.proof_type is Some
            ==> m2.verification.proof_type->Some_0@ == m1.verification.proof_type->Some_0@,
        m2.capabilities.values@.map_values(|x: String| x@)
            == m1.capabilities.values@.map_values(|x: String| x@),
        m2.encryption.enabled == m1.encryption.enabled,
        m2.encryption.algorithm is Some <==> m1.encryption.algorithm is Some,
        m2.encryption.algorithm is Some
            ==> m2.encryption.algorithm->Some_0@ == m1.encryption.algorithm->Some_0@,
        m2.encryption.meta is Some <==> m1.encryption.meta is Some,
        m2.signature is Some <==> m1.signature is Some,
        m2.signature is Some ==> ({
            let s1 = m1.signature->Some_0;
            let s2 = m2.signature->Some_0;
            &&& s2.algo@ == s1.algo@
            &&& s2.manifest_hash@ == s1.manifest_hash@
            &&& s2.timestamp@ == s1.timestamp@
            &&& s2.value@ == s1.value@
            &&& (s2.payload_hash is Some <==> s1.payload_hash is Some)
            &&& (s2.payload_hash is Some
                ==> s2.payload_hash->Some_0@ == s1.payload_hash->Some_0@)
        }),
{
    lemma_field_names_distinct();
    let v1 = crate::manifest::variant_name(m1.sync.variant);
    let v2 = crate::manifest::variant_name(m2.sync.variant);
    assert(v1 == v2);
    assert(m2.sync.variant == m1.sync.variant) by {
        if m1.sync.variant != m2.sync.variant {
            assert(v1.len() == 5 || v1.len() == 3 || v1.len() == 4);
        }
    }
}

} // verus!
