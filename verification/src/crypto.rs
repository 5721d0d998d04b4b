//! Trusted bindings to the cryptographic building blocks: the content hash,
//! hex rendering, base58 and base64 codecs, Edwards-curve signature checks,
//! and the passphrase encryption wrapped around vault payloads. Each binding
//! either states its result exactly or gives it a name that the verified
//! callers' contracts are phrased over.

use vstd::prelude::*;
use vstd::string::*;
use crate::Error;
use crate::archive::{SyncArchive, read_payload_bytes};

verus! {

/// The thirty-two content-hash bytes of a byte sequence.
pub uninterp spec fn blake3_of(data: Seq<u8>) -> Seq<u8>;

/// Relies on `blake3::hash`: the content hash depends on the bytes alone
/// and is thirty-two bytes long.
#[verifier::external_body]
pub(crate) fn blake3_hash(data: &Vec<u8>) -> (r: Vec<u8>)
    ensures
        r@ == blake3_of(data@),
        r@.len() == 32,
{
    blake3::hash(data.as_slice()).as_bytes().to_vec()
}

/// The lowercase hex digit for a value below sixteen.
pub open spec fn hex_char(n: u8) -> char {
    if n == 0 { '0' }
    else if n == 1 { '1' }
    else if n == 2 { '2' }
    else if n == 3 { '3' }
    else if n == 4 { '4' }
    else if n == 5 { '5' }
    else if n == 6 { '6' }
    else if n == 7 { '7' }
    else if n == 8 { '8' }
    else if n == 9 { '9' }
    else if n == 10 { 'a' }
    else if n == 11 { 'b' }
    else if n == 12 { 'c' }
    else if n == 13 { 'd' }
    else if n == 14 { 'e' }
    else { 'f' }
}

/// The lowercase hex rendering of a byte sequence: two digits per byte,
/// high nibble first.
pub open spec fn hex_of(data: Seq<u8>) -> Seq<char> {
    Seq::new(data.len() * 2, |i: int|
        if i % 2 == 0 {
            hex_char(data[i / 2] / 16)
        } else {
            hex_char(data[i / 2] % 16)
        })
}

/// Relies on `hex::encode`: the lowercase hex rendering of bytes, exactly
/// two digits per byte, high nibble first.
#[verifier::external_body]
pub(crate) fn hex_encode(data: &Vec<u8>) -> (r: String)
    ensures
        r@ == hex_of(data@),
{
    hex::encode(data.as_slice())
}

/// The bytes a base58 string decodes to, when it is one.
pub uninterp spec fn b58_decode_of(s: Seq<char>) -> Option<Seq<u8>>;

/// Relies on `bs58::decode`: the decoded bytes depend on the string alone.
#[verifier::external_body]
pub(crate) fn bs58_decode(s: &str) -> (r: Option<Vec<u8>>)
    ensures
        r is Some <==> b58_decode_of(s@) is Some,
        r matches Some(v) ==> b58_decode_of(s@) == Some(v@),
{
    bs58::decode(s).into_vec().ok()
}

/// The bytes a standard-alphabet base64 string decodes to, when it is one.
pub uninterp spec fn b64_decode_of(s: Seq<char>) -> Option<Seq<u8>>;

/// The standard-alphabet base64 rendering of bytes.
pub uninterp spec fn b64_encode_of(data: Seq<u8>) -> Seq<char>;

/// Relies on `base64`'s standard engine: encoding depends on the bytes
/// alone, and what it encodes decodes back to the same bytes.
#[verifier::external_body]
pub fn encode_payload_base64(payload: &Vec<u8>) -> (r: String)
    ensures
        r@ == b64_encode_of(payload@),
        b64_decode_of(r@) == Some(payload@),
{
    base64::Engine::encode(&base64::engine::general_purpose::STANDARD, payload.as_slice())
}

/// Relies on `base64`'s standard engine: decoding depends on the string
/// alone and fails exactly on strings that are not base64.
#[verifier::external_body]
pub fn decode_payload_base64(value: &str) -> (r: Option<Vec<u8>>)
    ensures
        r is Some <==> b64_decode_of(value@) is Some,
        r matches Some(v) ==> b64_decode_of(value@) == Some(v@),
{
    base64::Engine::decode(&base64::engine::general_purpose::STANDARD, value).ok()
}

/// Whether thirty-two bytes decode to a valid Edwards-curve public key.
pub uninterp spec fn ed25519_key_valid(key: Seq<u8>) -> bool;

/// Whether a signature verifies under a key over a message.
pub uninterp spec fn ed25519_sig_valid(key: Seq<u8>, msg: Seq<u8>, sig: Seq<u8>) -> bool;

/// Relies on `ed25519_dalek::VerifyingKey::from_bytes`: whether the bytes
/// are a valid public key, a function of the bytes alone.
#[verifier::external_body]
pub(crate) fn ed25519_check_key(key: &Vec<u8>) -> (r: bool)
    requires
        key@.len() == 32,
    ensures
        r == ed25519_key_valid(key@),
{
    match <[u8; 32]>::try_from(key.as_slice()) {
        Ok(arr) => ed25519_dalek::VerifyingKey::from_bytes(&arr).is_ok(),
        Err(_) => false,
    }
}

/// Relies on `ed25519_dalek::VerifyingKey::verify`: whether the signature
/// verifies, a function of key, message and signature alone. A key that
/// does not decode verifies nothing.
#[verifier::external_body]
pub(crate) fn ed25519_verify(key: &Vec<u8>, msg: &Vec<u8>, sig: &Vec<u8>) -> (r: bool)
    requires
        key@.len() == 32,
        sig@.len() == 64,
    ensures
        r == (ed25519_key_valid(key@) && ed25519_sig_valid(key@, msg@, sig@)),
{
    let karr = match <[u8; 32]>::try_from(key.as_slice()) {
        Ok(a) => a,
        Err(_) => return false,
    };
    let vk = match ed25519_dalek::VerifyingKey::from_bytes(&karr) {
        Ok(k) => k,
        Err(_) => return false,
    };
    let sarr = match <[u8; 64]>::try_from(sig.as_slice()) {
        Ok(a) => a,
        Err(_) => return false,
    };
    let es = ed25519_dalek::Signature::from_bytes(&sarr);
    ed25519_dalek::Verifier::verify(&vk, msg.as_slice(), &es).is_ok()
}

/// The plaintext a passphrase-encrypted blob decrypts to under a
/// passphrase, when it does.
pub uninterp spec fn age_decrypt_of(data: Seq<u8>, pass: Seq<char>) -> Option<Seq<u8>>;

/// Relies on `age::Encryptor::with_user_passphrase`: whatever blob comes
/// back decrypts under the same passphrase to the plaintext that went in.
#[verifier::external_body]
pub fn encrypt_data(data: &Vec<u8>, password: &str) -> (r: Result<Vec<u8>, Error>)
    ensures
        r matches Ok(c) ==> age_decrypt_of(c@, password@) == Some(data@),
        r matches Err(e) ==> e is EncryptError,
{
    let pass = secrecy::SecretString::from(password.to_string());
    let enc = age::Encryptor::with_user_passphrase(pass);
    let mut out = Vec::new();
    let mut w = enc.wrap_output(&mut out)
        .map_err(|e| Error::EncryptError(e.to_string()))?;
    std::io::Write::write_all(&mut w, data.as_slice())
        .map_err(|e| Error::EncryptError(e.to_string()))?;
    w.finish().map_err(|e| Error::EncryptError(e.to_string()))?;
    Ok(out)
}

/// Relies on `age::Decryptor`: decryption depends on the blob and the
/// passphrase alone, and succeeds exactly when the blob is a
/// passphrase-encrypted file under that passphrase.
#[verifier::external_body]
pub fn decrypt_data(encrypted: &Vec<u8>, password: &str) -> (r: Result<Vec<u8>, Error>)
    ensures
        r is Ok <==> age_decrypt_of(encrypted@, password@) is Some,
        r matches Ok(d) ==> age_decrypt_of(encrypted@, password@) == Some(d@),
        r matches Err(e) ==> (e is DecryptError || e is InvalidFormat),
{
    let dec = age::Decryptor::new(encrypted.as_slice())
        .map_err(|e| Error::DecryptError(e.to_string()))?;
    let identity = age::scrypt::Identity::new(
        secrecy::SecretString::from(password.to_string()),
    );
    let mut reader = dec.decrypt(core::iter::once(&identity as &dyn age::Identity))
        .map_err(|e| Error::DecryptError(e.to_string()))?;
    let mut out = Vec::new();
    std::io::Read::read_to_end(&mut reader, &mut out)
        .map_err(|e| Error::DecryptError(e.to_string()))?;
    Ok(out)
}

impl SyncArchive {
    /// Read the payload, decrypting it when the archive is a vault; a plain
    /// archive's payload is returned as stored. Succeeds exactly when the
    /// payload is present and intact and, for a vault, decrypts under the
    /// passphrase.
    pub fn read_payload_with_password(&self, bytes: &Vec<u8>, password: &str)
        -> (r: Result<Vec<u8>, Error>)
        ensures
            r is Ok <==> ({
                let es = crate::envelope::envelope_entries(bytes@)->Some_0;
                let pi = crate::archive::idx_of_name(es, "payload"@);
                &&& crate::envelope::envelope_entries(bytes@) is Some
                &&& crate::archive::has_name(es, "payload"@)
                &&& crate::envelope::envelope_data_ok(bytes@, pi)
                &&& ((self.manifest.sync.variant == crate::manifest::SyncVariant::Vault
                        || self.manifest.encryption.enabled)
                    ==> age_decrypt_of(
                        crate::envelope::envelope_data(bytes@, pi),
                        password@,
                    ) is Some)
            }),
            r matches Ok(d) ==> ({
                let es = crate::envelope::envelope_entries(bytes@)->Some_0;
                let raw = crate::envelope::envelope_data(
                    bytes@,
                    crate::archive::idx_of_name(es, "payload"@),
                );
                if self.manifest.sync.variant == crate::manifest::SyncVariant::Vault
                    || self.manifest.encryption.enabled {
                    age_decrypt_of(raw, password@) == Some(d@)
                } else {
                    d@ == raw
                }
            }),
    {
        if !self.is_vault() {
            return read_payload_bytes(bytes);
        }
        let encrypted = match read_payload_bytes(bytes) {
            Ok(d) => d,
            Err(e) => {
                return Err(e);
            },
        };
        decrypt_data(&encrypted, password)
    }

    /// Write the payload, encrypting it first when the archive is a vault.
    /// For a plain archive this is exactly the atomic payload rewrite and
    /// succeeds with it; for a vault an encryption failure is reported as
    /// such. On success the returned bytes are the replacement archive, and
    /// its payload entry holds the (possibly encrypted) new bytes.
    pub fn write_payload_with_password(
        &mut self,
        bytes: &Vec<u8>,
        data: &Vec<u8>,
        password: &str,
    ) -> (r: Result<Vec<u8>, Error>)
        ensures
            !(old(self).manifest.sync.variant == crate::manifest::SyncVariant::Vault
                || old(self).manifest.encryption.enabled)
                ==> (r is Ok <==> crate::archive::update_reopen_ok(bytes@, data@)),
            r is Err ==> *final(self) == *old(self),
            r matches Ok(out) ==> ({
                let es2 = crate::envelope::envelope_entries(out@)->Some_0;
                let pi = crate::archive::idx_of_name(es2, "payload"@);
                let stored = crate::envelope::envelope_data(out@, pi);
                &&& final(self).wf_for(out@)
                &&& crate::archive::has_name(es2, "payload"@)
                &&& (if old(self).manifest.sync.variant == crate::manifest::SyncVariant::Vault
                        || old(self).manifest.encryption.enabled {
                    age_decrypt_of(stored, password@) == Some(data@)
                } else {
                    stored == data@
                })
            }),
    {
        let vault = self.is_vault();
        let to_write: Vec<u8> = if vault {
            match encrypt_data(data, password) {
                Ok(c) => c,
                Err(e) => {
                    return Err(e);
                },
            }
        } else {
            data.clone()
        };
        self.update_payload(bytes, &to_write)
    }
}

} // verus!
