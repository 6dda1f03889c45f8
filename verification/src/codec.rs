//! The text in which keys, ciphertexts and trapdoors are stored and exchanged.
//!
//! An entity is written as a JSON object of strings. Each field is named
//! after what it holds and carries the lower-case hexadecimal text of a byte
//! string; the field `version` tells the layout, so that later layouts can be
//! told apart:
//!
//! ```text
//! {"secret_key":"...64 digits...","version":"01"}
//! {"public_key":"...192 digits...","version":"01"}
//! {"ciphertext_digest":"...64 digits...","ciphertext_point":"...192 digits...","version":"01"}
//! {"trapdoor":"...96 digits...","version":"01"}
//! ```
//!
//! The JSON itself is written and read by `serde_json`. Every text that
//! leaves this module has been read back and found to hold the entity that
//! was written.

use crate::constant_time::bytes_equal;
use crate::digest::DIGEST_LEN;
use crate::error::PeksError;
use crate::group::{valid_g1, valid_g2};
use crate::hex;
use crate::scheme::{Ciphertext, CiphertextView, PublicKey, SecretKey, Trapdoor};
use crate::scalar::nonzero_scalar;
use std::collections::BTreeMap;
use vstd::prelude::*;

verus! {

/// The layout that this library writes.
pub const FORMAT_VERSION: u8 = 1;

/// The text of a JSON object of strings after one field was set, if the
/// object is one and the value is text.
pub uninterp spec fn json_with_field_of(object: Seq<u8>, key: Seq<char>, value: Seq<u8>) -> Option<
    Seq<u8>,
>;

/// The string that a JSON object of strings holds under a key, if the text is
/// such an object and has the key.
pub uninterp spec fn json_field_of(text: Seq<u8>, key: Seq<char>) -> Option<Seq<u8>>;

/// Calls `serde_json::from_slice` and `serde_json::to_vec` on a map from
/// strings to strings. The contract names what comes out of reading the
/// object, setting the field and writing the map again.
#[verifier::external_body]
fn json_with_field(object: &Vec<u8>, key: &str, value: &Vec<u8>) -> (out: Option<Vec<u8>>)
    ensures
        bytes_view(out) == json_with_field_of(object@, key@, value@),
{
    let mut fields: BTreeMap<String, String> = serde_json::from_slice(&object[..]).ok()?;
    fields.insert(key.to_string(), String::from_utf8(value.clone()).ok()?);
    serde_json::to_vec(&fields).ok()
}

/// Calls `serde_json::from_slice` for a map from strings to strings. The
/// contract names the string found under the key.
#[verifier::external_body]
fn json_field(text: &Vec<u8>, key: &str) -> (out: Option<Vec<u8>>)
    ensures
        bytes_view(out) == json_field_of(text@, key@),
{
    let fields: BTreeMap<String, String> = serde_json::from_slice(&text[..]).ok()?;
    Some(fields.get(key)?.clone().into_bytes())
}

/// The byte string that an optional buffer holds.
pub open spec fn bytes_view(buffer: Option<Vec<u8>>) -> Option<Seq<u8>> {
    match buffer {
        Some(bytes) => Some(bytes@),
        None => None,
    }
}

/// The text of the object without fields.
pub open spec fn empty_object() -> Seq<u8> {
    seq![0x7bu8, 0x7du8]
}

/// The text of an object after a byte string was stored under a key.
pub open spec fn with_bytes(object: Option<Seq<u8>>, key: Seq<char>, bytes: Seq<u8>) -> Option<
    Seq<u8>,
> {
    match object {
        Some(text) => json_with_field_of(text, key, hex::encoded(bytes)),
        None => None,
    }
}

/// The byte string that a text holds under a key.
pub open spec fn bytes_in(text: Seq<u8>, key: Seq<char>) -> Option<Seq<u8>> {
    match json_field_of(text, key) {
        Some(digits) => hex::decoded(digits),
        None => None,
    }
}

/// Whether a text is an object of the layout that this library reads.
pub open spec fn has_version(text: Seq<u8>) -> bool {
    bytes_in(text, "version"@) == Some(seq![FORMAT_VERSION])
}

/// The text of the object that holds the version alone.
pub open spec fn versioned_object() -> Option<Seq<u8>> {
    with_bytes(Some(empty_object()), "version"@, seq![FORMAT_VERSION])
}

/// The secret key that a text holds.
pub open spec fn secret_key_in(text: Seq<u8>) -> Option<Seq<u8>> {
    match bytes_in(text, "secret_key"@) {
        Some(scalar) => if has_version(text) && nonzero_scalar(scalar) {
            Some(scalar)
        } else {
            None
        },
        None => None,
    }
}

/// The public key that a text holds.
pub open spec fn public_key_in(text: Seq<u8>) -> Option<Seq<u8>> {
    match bytes_in(text, "public_key"@) {
        Some(point) => if has_version(text) && valid_g2(point) {
            Some(point)
        } else {
            None
        },
        None => None,
    }
}

/// The trapdoor that a text holds.
pub open spec fn trapdoor_in(text: Seq<u8>) -> Option<Seq<u8>> {
    match bytes_in(text, "trapdoor"@) {
        Some(point) => if has_version(text) && valid_g1(point) {
            Some(point)
        } else {
            None
        },
        None => None,
    }
}

/// The ciphertext that a text holds.
pub open spec fn ciphertext_in(text: Seq<u8>) -> Option<CiphertextView> {
    match (bytes_in(text, "ciphertext_point"@), bytes_in(text, "ciphertext_digest"@)) {
        (Some(point), Some(digest)) => if has_version(text) && valid_g2(point) && digest.len()
            == DIGEST_LEN {
            Some(CiphertextView { point, digest })
        } else {
            None
        },
        _ => None,
    }
}

/// The text of a secret key: what the writer produces, as long as it reads
/// back as the key.
pub open spec fn secret_key_text(secret: Seq<u8>) -> Option<Seq<u8>> {
    match with_bytes(versioned_object(), "secret_key"@, secret) {
        Some(text) => if secret_key_in(text) == Some(secret) {
            Some(text)
        } else {
            None
        },
        None => None,
    }
}

/// The text of a public key: what the writer produces, as long as it reads
/// back as the key.
pub open spec fn public_key_text(public: Seq<u8>) -> Option<Seq<u8>> {
    match with_bytes(versioned_object(), "public_key"@, public) {
        Some(text) => if public_key_in(text) == Some(public) {
            Some(text)
        } else {
            None
        },
        None => None,
    }
}

/// The text of a trapdoor: what the writer produces, as long as it reads back
/// as the trapdoor.
pub open spec fn trapdoor_text(trapdoor: Seq<u8>) -> Option<Seq<u8>> {
    match with_bytes(versioned_object(), "trapdoor"@, trapdoor) {
        Some(text) => if trapdoor_in(text) == Some(trapdoor) {
            Some(text)
        } else {
            None
        },
        None => None,
    }
}

/// The text of a ciphertext: what the writer produces, as long as it reads
/// back as the ciphertext.
pub open spec fn ciphertext_text(ciphertext: CiphertextView) -> Option<Seq<u8>> {
    match with_bytes(
        with_bytes(versioned_object(), "ciphertext_point"@, ciphertext.point),
        "ciphertext_digest"@,
        ciphertext.digest,
    ) {
        Some(text) => if ciphertext_in(text) == Some(ciphertext) {
            Some(text)
        } else {
            None
        },
        None => None,
    }
}

fn put(object: Option<Vec<u8>>, key: &str, bytes: &Vec<u8>) -> (out: Option<Vec<u8>>)
    ensures
        bytes_view(out) == with_bytes(bytes_view(object), key@, bytes@),
{
    match object {
        Some(text) => {
            let digits = hex::encode(bytes);
            json_with_field(&text, key, &digits)
        },
        None => None,
    }
}

fn get(text: &Vec<u8>, key: &str) -> (out: Option<Vec<u8>>)
    ensures
        bytes_view(out) == bytes_in(text@, key@),
{
    match json_field(text, key) {
        Some(digits) => hex::decode(&digits),
        None => None,
    }
}

fn start() -> (out: Option<Vec<u8>>)
    ensures
        bytes_view(out) == versioned_object(),
{
    let mut object: Vec<u8> = Vec::new();
    object.push(0x7b);
    object.push(0x7d);
    assert(object@ =~= empty_object());
    let mut version: Vec<u8> = Vec::new();
    version.push(FORMAT_VERSION);
    assert(version@ =~= seq![FORMAT_VERSION]);
    put(Some(object), "version", &version)
}

fn versioned(text: &Vec<u8>) -> (out: bool)
    ensures
        out == has_version(text@),
{
    match get(text, "version") {
        Some(version) => {
            let ok = version.len() == 1 && version[0] == FORMAT_VERSION;
            assert(ok == (version@ =~= seq![FORMAT_VERSION]));
            ok
        },
        None => false,
    }
}

impl SecretKey {
    /// Reads a secret key from its text.
    ///
    /// Fails with `MalformedInput` exactly when the text holds no secret key.
    pub fn from_text(text: &Vec<u8>) -> (out: Result<SecretKey, PeksError>)
        ensures
            match out {
                Ok(key) => secret_key_in(text@) == Some(key@),
                Err(error) => error == PeksError::MalformedInput && secret_key_in(text@) is None,
            },
    {
        if !versioned(text) {
            return Err(PeksError::MalformedInput);
        }
        match get(text, "secret_key") {
            Some(scalar) => SecretKey::from_bytes(scalar),
            None => Err(PeksError::MalformedInput),
        }
    }

    /// Writes the secret key as text.
    ///
    /// The text reads back as this key. Fails with `EncodingFailure` when the
    /// writer produces no text that does.
    pub fn to_text(&self) -> (out: Result<Vec<u8>, PeksError>)
        ensures
            match out {
                Ok(text) => secret_key_text(self@) == Some(text@),
                Err(error) => error == PeksError::EncodingFailure && secret_key_text(self@) is None,
            },
            out matches Ok(text) ==> secret_key_in(text@) == Some(self@),
    {
        match put(start(), "secret_key", self.as_bytes()) {
            Some(text) => {
                match SecretKey::from_text(&text) {
                    Ok(back) => {
                        if bytes_equal(back.as_bytes(), self.as_bytes()) {
                            Ok(text)
                        } else {
                            Err(PeksError::EncodingFailure)
                        }
                    },
                    Err(_) => Err(PeksError::EncodingFailure),
                }
            },
            None => Err(PeksError::EncodingFailure),
        }
    }
}

impl PublicKey {
    /// Reads a public key from its text.
    ///
    /// Fails with `MalformedInput` exactly when the text holds no public key.
    pub fn from_text(text: &Vec<u8>) -> (out: Result<PublicKey, PeksError>)
        ensures
            match out {
                Ok(key) => public_key_in(text@) == Some(key@),
                Err(error) => error == PeksError::MalformedInput && public_key_in(text@) is None,
            },
    {
        if !versioned(text) {
            return Err(PeksError::MalformedInput);
        }
        match get(text, "public_key") {
            Some(point) => PublicKey::from_bytes(point),
            None => Err(PeksError::MalformedInput),
        }
    }

    /// Writes the public key as text.
    ///
    /// The text reads back as this key. Fails with `EncodingFailure` when the
    /// writer produces no text that does.
    pub fn to_text(&self) -> (out: Result<Vec<u8>, PeksError>)
        ensures
            match out {
                Ok(text) => public_key_text(self@) == Some(text@),
                Err(error) => error == PeksError::EncodingFailure && public_key_text(self@) is None,
            },
            out matches Ok(text) ==> public_key_in(text@) == Some(self@),
    {
        match put(start(), "public_key", self.as_bytes()) {
            Some(text) => {
                match PublicKey::from_text(&text) {
                    Ok(back) => {
                        if bytes_equal(back.as_bytes(), self.as_bytes()) {
                            Ok(text)
                        } else {
                            Err(PeksError::EncodingFailure)
                        }
                    },
                    Err(_) => Err(PeksError::EncodingFailure),
                }
            },
            None => Err(PeksError::EncodingFailure),
        }
    }
}

impl Trapdoor {
    /// Reads a trapdoor from its text.
    ///
    /// Fails with `MalformedInput` exactly when the text holds no trapdoor.
    pub fn from_text(text: &Vec<u8>) -> (out: Result<Trapdoor, PeksError>)
        ensures
            match out {
                Ok(trapdoor) => trapdoor_in(text@) == Some(trapdoor@),
                Err(error) => error == PeksError::MalformedInput && trapdoor_in(text@) is None,
            },
    {
        if !versioned(text) {
            return Err(PeksError::MalformedInput);
        }
        match get(text, "trapdoor") {
            Some(point) => Trapdoor::from_bytes(point),
            None => Err(PeksError::MalformedInput),
        }
    }

    /// Writes the trapdoor as text.
    ///
    /// The text reads back as this trapdoor. Fails with `EncodingFailure`
    /// when the writer produces no text that does.
    pub fn to_text(&self) -> (out: Result<Vec<u8>, PeksError>)
        ensures
            match out {
                Ok(text) => trapdoor_text(self@) == Some(text@),
                Err(error) => error == PeksError::EncodingFailure && trapdoor_text(self@) is None,
            },
            out matches Ok(text) ==> trapdoor_in(text@) == Some(self@),
    {
        match put(start(), "trapdoor", self.as_bytes()) {
            Some(text) => {
                match Trapdoor::from_text(&text) {
                    Ok(back) => {
                        if bytes_equal(back.as_bytes(), self.as_bytes()) {
                            Ok(text)
                        } else {
                            Err(PeksError::EncodingFailure)
                        }
                    },
                    Err(_) => Err(PeksError::EncodingFailure),
                }
            },
            None => Err(PeksError::EncodingFailure),
        }
    }
}

impl Ciphertext {
    /// Reads a ciphertext from its text.
    ///
    /// Fails with `MalformedInput` exactly when the text holds no ciphertext.
    pub fn from_text(text: &Vec<u8>) -> (out: Result<Ciphertext, PeksError>)
        ensures
            match out {
                Ok(ciphertext) => ciphertext_in(text@) == Some(ciphertext@),
                Err(error) => error == PeksError::MalformedInput && ciphertext_in(text@) is None,
            },
    {
        if !versioned(text) {
            return Err(PeksError::MalformedInput);
        }
        match get(text, "ciphertext_point") {
            Some(point) => {
                match get(text, "ciphertext_digest") {
                    Some(digest) => Ciphertext::from_parts(point, digest),
                    None => Err(PeksError::MalformedInput),
                }
            },
            None => Err(PeksError::MalformedInput),
        }
    }

    /// Writes the ciphertext as text.
    ///
    /// The text reads back as this ciphertext. Fails with `EncodingFailure`
    /// when the writer produces no text that does.
    pub fn to_text(&self) -> (out: Result<Vec<u8>, PeksError>)
        ensures
            match out {
                Ok(text) => ciphertext_text(self@) == Some(text@),
                Err(error) => error == PeksError::EncodingFailure && ciphertext_text(self@) is None,
            },
            out matches Ok(text) ==> ciphertext_in(text@) == Some(self@),
    {
        let with_point = put(start(), "ciphertext_point", self.point());
        match put(with_point, "ciphertext_digest", self.digest()) {
            Some(text) => {
                match Ciphertext::from_text(&text) {
                    Ok(back) => {
                        let same_point = bytes_equal(back.point(), self.point());
                        let same_digest = bytes_equal(back.digest(), self.digest());
                        if same_point && same_digest {
                            Ok(text)
                        } else {
                            Err(PeksError::EncodingFailure)
                        }
                    },
                    Err(_) => Err(PeksError::EncodingFailure),
                }
            },
            None => Err(PeksError::EncodingFailure),
        }
    }
}

} // verus!
