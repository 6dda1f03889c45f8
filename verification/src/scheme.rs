//! The searchable-encryption scheme: keys, keyword ciphertexts, trapdoors
//! and the match test.
//!
//! A secret key is a scalar `a`, and its public key is `a` times the
//! generator of the second group. A keyword `w` is hashed to a point `H(w)`
//! of the first group. Its ciphertext under randomness `r` is the pair of
//! `r` times the generator and the digest of the pairing of `H(w)` with `r`
//! times the public key. The trapdoor for `w` is `a` times `H(w)`. A trapdoor
//! matches a ciphertext when the digest of its pairing with the ciphertext's
//! point is the ciphertext's digest.

use crate::constant_time::bytes_equal;
use crate::digest::{sha256, sha256_of, DIGEST_LEN};
use crate::entropy::{untouched, EntropySource};
use crate::error::PeksError;
use crate::field::{lemma_scalar_sum, scalar_add, valid_scalar};
use crate::group::{
    g1_check, g1_mul, g1_mul_of, g2_check, g2_generator_mul, g2_generator_mul_of, g2_mul,
    g2_mul_of, g2_sub, hash_g1_of, hash_to_g1, pairing, pairing_of, valid_g1, valid_g2, G1_LEN,
    G2_LEN,
};
use crate::scalar::{draw_outcome, nonzero_scalar, Scalar};
use vstd::prelude::*;

verus! {

/// What a ciphertext holds: a point of the second group and a digest.
pub struct CiphertextView {
    pub point: Seq<u8>,
    pub digest: Seq<u8>,
}

/// The public key that belongs to a secret scalar.
pub open spec fn public_key_of(secret: Seq<u8>) -> Seq<u8> {
    g2_generator_mul_of(secret)
}

/// The trapdoor that a secret scalar opens for a hashed keyword.
pub open spec fn trapdoor_for_point(secret: Seq<u8>, hashed: Seq<u8>) -> Seq<u8> {
    g1_mul_of(hashed, secret)
}

/// The ciphertext of a hashed keyword under a public key and a randomness.
pub open spec fn ciphertext_for_point(
    public: Seq<u8>,
    hashed: Seq<u8>,
    randomness: Seq<u8>,
) -> CiphertextView {
    CiphertextView {
        point: g2_generator_mul_of(randomness),
        digest: sha256_of(pairing_of(hashed, g2_mul_of(public, randomness))),
    }
}

/// Whether a keyword has an image in the first group.
pub open spec fn hashable(keyword: Seq<u8>) -> bool {
    valid_g1(hash_g1_of(keyword))
}

/// The trapdoor that a secret scalar opens for a keyword.
pub open spec fn trapdoor_of(secret: Seq<u8>, keyword: Seq<u8>) -> Seq<u8> {
    trapdoor_for_point(secret, hash_g1_of(keyword))
}

/// The ciphertext of a keyword under a public key and a randomness.
pub open spec fn ciphertext_of(
    public: Seq<u8>,
    keyword: Seq<u8>,
    randomness: Seq<u8>,
) -> CiphertextView {
    ciphertext_for_point(public, hash_g1_of(keyword), randomness)
}

/// Whether a ciphertext is one of the ciphertexts of a keyword under a
/// public key: the one that some non-zero randomness gives.
pub open spec fn encrypts(ciphertext: CiphertextView, public: Seq<u8>, keyword: Seq<u8>) -> bool {
    exists|randomness: Seq<u8>|
        nonzero_scalar(randomness) && ciphertext == #[trigger] ciphertext_of(
            public,
            keyword,
            randomness,
        )
}

/// Whether a trapdoor matches a ciphertext.
pub open spec fn is_match(ciphertext: CiphertextView, trapdoor: Seq<u8>) -> bool {
    sha256_of(pairing_of(trapdoor, ciphertext.point)) == ciphertext.digest
}

/// A secret key: a scalar other than zero.
pub struct SecretKey {
    scalar: Scalar,
}

/// A public key: a point of the second group.
pub struct PublicKey {
    point: Vec<u8>,
}

/// The searchable tag of one keyword: a point of the second group and a
/// digest.
pub struct Ciphertext {
    point: Vec<u8>,
    digest: Vec<u8>,
}

/// The token that lets its holder test ciphertexts for one keyword: a point
/// of the first group.
pub struct Trapdoor {
    point: Vec<u8>,
}

impl SecretKey {
    /// The 32 big-endian bytes of the secret scalar.
    pub closed spec fn view(&self) -> Seq<u8> {
        self.scalar@
    }

    /// Draws a fresh secret key.
    ///
    /// Fails with `RandomnessUnavailable` when the source yields no scalar.
    pub fn generate(rng: &mut EntropySource) -> (out: Result<SecretKey, PeksError>)
        ensures
            out matches Err(error) ==> error == PeksError::RandomnessUnavailable,
            draw_outcome(
                *old(rng),
                *final(rng),
                match out {
                    Ok(key) => Some(key@),
                    Err(_) => None,
                },
            ),
    {
        match Scalar::draw(rng) {
            Ok(scalar) => Ok(SecretKey { scalar }),
            Err(error) => Err(error),
        }
    }

    /// The secret key that holds a given scalar.
    pub fn from_scalar(scalar: Scalar) -> (out: SecretKey)
        ensures
            out@ == scalar@,
    {
        SecretKey { scalar }
    }

    /// Reads a secret key from the 32 big-endian bytes of its scalar.
    ///
    /// Fails with `MalformedInput` unless the bytes are a well-formed scalar
    /// other than zero.
    pub fn from_bytes(bytes: Vec<u8>) -> (out: Result<SecretKey, PeksError>)
        ensures
            out is Ok <==> nonzero_scalar(bytes@),
            out matches Ok(key) ==> key@ == bytes@,
            out matches Err(error) ==> error == PeksError::MalformedInput,
    {
        match Scalar::from_bytes(bytes) {
            Ok(scalar) => Ok(SecretKey { scalar }),
            Err(error) => Err(error),
        }
    }

    /// The 32 big-endian bytes of the secret scalar.
    pub fn as_bytes(&self) -> (out: &Vec<u8>)
        ensures
            out@ == self@,
            nonzero_scalar(out@),
    {
        self.scalar.as_bytes()
    }

    /// Derives the public key, with the secret scalar hidden behind a blinding
    /// scalar that is drawn for this one derivation.
    ///
    /// The result does not depend on what was drawn. Fails with
    /// `RandomnessUnavailable` when the source yields no blinding scalar.
    pub fn derive_public_key(&self, rng: &mut EntropySource) -> (out: Result<PublicKey, PeksError>)
        ensures
            out matches Ok(public) ==> public@ == public_key_of(self@),
            out matches Err(error) ==> error == PeksError::RandomnessUnavailable,
            exists|blind: Option<Seq<u8>>|
                #![trigger draw_outcome(*old(rng), *final(rng), blind)]
                draw_outcome(*old(rng), *final(rng), blind) && (out is Ok <==> blind is Some),
    {
        match Scalar::draw(rng) {
            Ok(blind) => {
                assert(draw_outcome(*old(rng), *rng, Some(blind@)));
                Ok(self.derive_public_key_blinded(&blind))
            },
            Err(error) => {
                assert(draw_outcome(*old(rng), *rng, None));
                Err(error)
            },
        }
    }

    /// Derives the public key under a given blinding scalar `b`: the sum of
    /// the secret scalar and `b` is multiplied into the generator, and `b`
    /// times the generator is taken away again.
    pub fn derive_public_key_blinded(&self, blind: &Scalar) -> (out: PublicKey)
        ensures
            out@ == public_key_of(self@),
            valid_g2(out@),
    {
        let secret = self.scalar.as_bytes();
        let mask = blind.as_bytes();
        let masked = scalar_add(secret, mask);
        proof {
            lemma_scalar_sum(secret@, mask@);
        }
        let masked_point = g2_generator_mul(&masked);
        let mask_point = g2_generator_mul(mask);
        let point = g2_sub(&masked_point, &mask_point);
        PublicKey { point }
    }

    /// Issues the trapdoor for a keyword.
    ///
    /// Fails with `EncodingFailure` exactly when the keyword has no image in
    /// the first group.
    pub fn issue_trapdoor(&self, keyword: &Vec<u8>) -> (out: Result<Trapdoor, PeksError>)
        ensures
            out is Ok <==> hashable(keyword@),
            out matches Ok(trapdoor) ==> trapdoor@ == trapdoor_of(self@, keyword@),
            out matches Err(error) ==> error == PeksError::EncodingFailure,
    {
        let hashed = hash_to_g1(keyword);
        self.issue_trapdoor_for_point(&hashed)
    }

    /// Issues the trapdoor for a keyword that was hashed already.
    ///
    /// Fails with `EncodingFailure` exactly when `hashed` is not a well-formed
    /// point of the first group.
    pub fn issue_trapdoor_for_point(&self, hashed: &Vec<u8>) -> (out: Result<Trapdoor, PeksError>)
        ensures
            out is Ok <==> valid_g1(hashed@),
            out matches Ok(trapdoor) ==> trapdoor@ == trapdoor_for_point(self@, hashed@),
            out matches Err(error) ==> error == PeksError::EncodingFailure,
    {
        if hashed.len() != G1_LEN {
            return Err(PeksError::EncodingFailure);
        }
        if !g1_check(hashed) {
            return Err(PeksError::EncodingFailure);
        }
        let point = g1_mul(hashed, self.scalar.as_bytes());
        Ok(Trapdoor { point })
    }
}

impl PublicKey {
    #[verifier::type_invariant]
    spec fn well_formed(&self) -> bool {
        valid_g2(self.point@)
    }

    /// The 96 bytes of the compressed point.
    pub closed spec fn view(&self) -> Seq<u8> {
        self.point@
    }

    /// Reads a public key from the 96 bytes of its compressed point.
    ///
    /// Fails with `MalformedInput` unless the bytes are a well-formed point of
    /// the second group.
    pub fn from_bytes(bytes: Vec<u8>) -> (out: Result<PublicKey, PeksError>)
        ensures
            out is Ok <==> valid_g2(bytes@),
            out matches Ok(key) ==> key@ == bytes@,
            out matches Err(error) ==> error == PeksError::MalformedInput,
    {
        if bytes.len() != G2_LEN {
            return Err(PeksError::MalformedInput);
        }
        if !g2_check(&bytes) {
            return Err(PeksError::MalformedInput);
        }
        Ok(PublicKey { point: bytes })
    }

    /// The 96 bytes of the compressed point.
    pub fn as_bytes(&self) -> (out: &Vec<u8>)
        ensures
            out@ == self@,
            valid_g2(out@),
    {
        proof {
            use_type_invariant(self);
        }
        &self.point
    }

    /// Encrypts a keyword under fresh randomness.
    ///
    /// The keyword is hashed first: a keyword without an image in the first
    /// group fails with `EncodingFailure` and leaves the source untouched.
    /// Then the randomness is drawn, which fails with `RandomnessUnavailable`
    /// when the source yields no scalar.
    pub fn encrypt(&self, keyword: &Vec<u8>, rng: &mut EntropySource) -> (out: Result<
        Ciphertext,
        PeksError,
    >)
        ensures
            !hashable(keyword@) ==> (out matches Err(error) && error
                == PeksError::EncodingFailure) && untouched(*old(rng), *final(rng)),
            hashable(keyword@) ==> exists|randomness: Option<Seq<u8>>|
                #![trigger draw_outcome(*old(rng), *final(rng), randomness)]
                draw_outcome(*old(rng), *final(rng), randomness) && match randomness {
                    Some(r) => (out matches Ok(ciphertext) && ciphertext@ == ciphertext_of(
                        self@,
                        keyword@,
                        r,
                    )),
                    None => (out matches Err(error) && error == PeksError::RandomnessUnavailable),
                },
            out matches Ok(ciphertext) ==> encrypts(ciphertext@, self@, keyword@),
    {
        let hashed = hash_to_g1(keyword);
        if !g1_check(&hashed) {
            return Err(PeksError::EncodingFailure);
        }
        match Scalar::draw(rng) {
            Ok(randomness) => {
                assert(draw_outcome(*old(rng), *rng, Some(randomness@)));
                Ok(self.seal(&hashed, &randomness))
            },
            Err(error) => {
                assert(draw_outcome(*old(rng), *rng, None));
                Err(error)
            },
        }
    }

    /// Encrypts a keyword under a given randomness.
    ///
    /// Fails with `EncodingFailure` exactly when the keyword has no image in
    /// the first group.
    pub fn encrypt_with(&self, keyword: &Vec<u8>, randomness: &Scalar) -> (out: Result<
        Ciphertext,
        PeksError,
    >)
        ensures
            out is Ok <==> hashable(keyword@),
            out matches Ok(ciphertext) ==> ciphertext@ == ciphertext_of(
                self@,
                keyword@,
                randomness@,
            ),
            out matches Err(error) ==> error == PeksError::EncodingFailure,
    {
        let hashed = hash_to_g1(keyword);
        self.encrypt_point_with(&hashed, randomness)
    }

    /// Encrypts a keyword that was hashed already, under a given randomness.
    ///
    /// Fails with `EncodingFailure` exactly when `hashed` is not a well-formed
    /// point of the first group.
    pub fn encrypt_point_with(&self, hashed: &Vec<u8>, randomness: &Scalar) -> (out: Result<
        Ciphertext,
        PeksError,
    >)
        ensures
            out is Ok <==> valid_g1(hashed@),
            out matches Ok(ciphertext) ==> ciphertext@ == ciphertext_for_point(
                self@,
                hashed@,
                randomness@,
            ),
            out matches Err(error) ==> error == PeksError::EncodingFailure,
    {
        if hashed.len() != G1_LEN {
            return Err(PeksError::EncodingFailure);
        }
        if !g1_check(hashed) {
            return Err(PeksError::EncodingFailure);
        }
        Ok(self.seal(hashed, randomness))
    }

    /// The ciphertext of a well-formed point: `r` times the generator, and
    /// the digest of the pairing of the point with `r` times this key.
    fn seal(&self, hashed: &Vec<u8>, randomness: &Scalar) -> (out: Ciphertext)
        requires
            valid_g1(hashed@),
        ensures
            out@ == ciphertext_for_point(self@, hashed@, randomness@),
    {
        proof {
            use_type_invariant(self);
        }
        let r = randomness.as_bytes();
        let point = g2_generator_mul(r);
        let shared = g2_mul(&self.point, r);
        let value = pairing(hashed, &shared);
        let digest = sha256(&value);
        Ciphertext { point, digest }
    }
}

impl Ciphertext {
    #[verifier::type_invariant]
    spec fn well_formed(&self) -> bool {
        valid_g2(self.point@) && self.digest@.len() == DIGEST_LEN
    }

    /// The point and the digest that the ciphertext holds.
    pub closed spec fn view(&self) -> CiphertextView {
        CiphertextView { point: self.point@, digest: self.digest@ }
    }

    /// Puts a ciphertext together from the 96 bytes of its point and the 32
    /// bytes of its digest.
    ///
    /// Fails with `MalformedInput` unless the point is a well-formed point of
    /// the second group and the digest has its length.
    pub fn from_parts(point: Vec<u8>, digest: Vec<u8>) -> (out: Result<Ciphertext, PeksError>)
        ensures
            out is Ok <==> valid_g2(point@) && digest@.len() == DIGEST_LEN,
            out matches Ok(ciphertext) ==> ciphertext@ == (CiphertextView {
                point: point@,
                digest: digest@,
            }),
            out matches Err(error) ==> error == PeksError::MalformedInput,
    {
        if point.len() != G2_LEN || digest.len() != DIGEST_LEN {
            return Err(PeksError::MalformedInput);
        }
        if !g2_check(&point) {
            return Err(PeksError::MalformedInput);
        }
        Ok(Ciphertext { point, digest })
    }

    /// The 96 bytes of the compressed point.
    pub fn point(&self) -> (out: &Vec<u8>)
        ensures
            out@ == self@.point,
            valid_g2(out@),
    {
        proof {
            use_type_invariant(self);
        }
        &self.point
    }

    /// The 32 bytes of the digest.
    pub fn digest(&self) -> (out: &Vec<u8>)
        ensures
            out@ == self@.digest,
            out@.len() == DIGEST_LEN,
    {
        proof {
            use_type_invariant(self);
        }
        &self.digest
    }
}

impl Trapdoor {
    #[verifier::type_invariant]
    spec fn well_formed(&self) -> bool {
        valid_g1(self.point@)
    }

    /// The 48 bytes of the compressed point.
    pub closed spec fn view(&self) -> Seq<u8> {
        self.point@
    }

    /// Reads a trapdoor from the 48 bytes of its compressed point.
    ///
    /// Fails with `MalformedInput` unless the bytes are a well-formed point of
    /// the first group.
    pub fn from_bytes(bytes: Vec<u8>) -> (out: Result<Trapdoor, PeksError>)
        ensures
            out is Ok <==> valid_g1(bytes@),
            out matches Ok(trapdoor) ==> trapdoor@ == bytes@,
            out matches Err(error) ==> error == PeksError::MalformedInput,
    {
        if bytes.len() != G1_LEN {
            return Err(PeksError::MalformedInput);
        }
        if !g1_check(&bytes) {
            return Err(PeksError::MalformedInput);
        }
        Ok(Trapdoor { point: bytes })
    }

    /// The 48 bytes of the compressed point.
    pub fn as_bytes(&self) -> (out: &Vec<u8>)
        ensures
            out@ == self@,
            valid_g1(out@),
    {
        proof {
            use_type_invariant(self);
        }
        &self.point
    }

    /// Tests whether this trapdoor matches a ciphertext.
    ///
    /// The digest of the pairing of the trapdoor with the ciphertext's point
    /// is compared with the ciphertext's digest, without a data-dependent
    /// exit.
    ///
    /// The test is complete: the trapdoor that a secret key issues for a
    /// keyword matches every ciphertext of that keyword under the public key
    /// of that secret key, whatever the randomness of the ciphertext.
    pub fn test(&self, ciphertext: &Ciphertext) -> (out: bool)
        ensures
            out == is_match(ciphertext@, self@),
            forall|secret: Seq<u8>, hashed: Seq<u8>, randomness: Seq<u8>|
                #![trigger trapdoor_for_point(secret, hashed), ciphertext_for_point(public_key_of(secret), hashed, randomness)]
                valid_scalar(secret) && valid_g1(hashed) && valid_scalar(randomness) && self@
                    == trapdoor_for_point(secret, hashed) && ciphertext@ == ciphertext_for_point(
                    public_key_of(secret),
                    hashed,
                    randomness,
                ) ==> out,
    {
        proof {
            use_type_invariant(self);
            use_type_invariant(ciphertext);
        }
        let value = pairing(&self.point, &ciphertext.point);
        let digest = sha256(&value);
        bytes_equal(&digest, &ciphertext.digest)
    }
}

} // verus!
