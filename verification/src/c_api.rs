//! The handle boundary: the five operations on opaque, owned buffers.
//!
//! A handle owns the text of one entity. The operations that create an entity
//! hand out a new handle; the match test borrows its two handles. A handle is
//! given up by the `peks_free_*` function of its kind, which takes it by
//! value, so that it cannot be used or released again. A handle can also be
//! null: it then owns nothing, and every operation on it reports
//! `InvalidHandle`. Where a handle has to stay in place, its `release` method
//! gives up the buffer and leaves the handle null.
//!
//! Handles cannot be copied, and those of secret keys cannot be printed.
//!
//! No operation panics. What a caller hands in is checked in a fixed order:
//! null handles first, then the text behind each handle, then the keyword,
//! and randomness is drawn only after all of these were found in order.

use crate::codec::{
    bytes_view, ciphertext_in, ciphertext_text, public_key_in, public_key_text, secret_key_in,
    secret_key_text, trapdoor_in, trapdoor_text,
};
use crate::entropy::{untouched, EntropySource};
use crate::error::PeksError;
use crate::field::valid_scalar;
use crate::group::hash_g1_of;
use crate::scalar::{draw_outcome, nonzero_scalar};
use crate::scheme::{
    ciphertext_for_point, ciphertext_of, encrypts, hashable, is_match, public_key_of,
    trapdoor_for_point, trapdoor_of, Ciphertext, CiphertextView, PublicKey, SecretKey, Trapdoor,
};
use vstd::prelude::*;

verus! {

/// The handle of a secret key.
pub struct CPeksSecretKey {
    buffer: Option<Vec<u8>>,
}

impl View for CPeksSecretKey {
    type V = Option<Seq<u8>>;

    /// The text that the handle owns; `None` for a null handle.
    closed spec fn view(&self) -> Option<Seq<u8>> {
        bytes_view(self.buffer)
    }
}

impl CPeksSecretKey {
    /// The null handle.
    pub fn null() -> (out: CPeksSecretKey)
        ensures
            out@ is None,
    {
        CPeksSecretKey { buffer: None }
    }

    /// A handle that takes over a buffer, such as one that was stored or
    /// received. The buffer is read when the handle is used.
    pub fn from_buffer(buffer: Vec<u8>) -> (out: CPeksSecretKey)
        ensures
            out@ == Some(buffer@),
    {
        CPeksSecretKey { buffer: Some(buffer) }
    }

    /// Whether the handle owns nothing.
    pub fn is_null(&self) -> (out: bool)
        ensures
            out == (self@ is None),
    {
        self.buffer.is_none()
    }

    /// The text that the handle owns.
    pub fn buffer(&self) -> (out: Option<&Vec<u8>>)
        ensures
            match out {
                Some(text) => self@ == Some(text@),
                None => self@ is None,
            },
    {
        self.buffer.as_ref()
    }

    /// Takes the text out of the handle, which ends the handle.
    pub fn into_buffer(self) -> (out: Option<Vec<u8>>)
        ensures
            bytes_view(out) == self@,
    {
        self.buffer
    }

    /// Gives up what the handle owns, and leaves it null.
    ///
    /// Fails with `InvalidHandle` exactly when the handle was null already.
    pub fn release(&mut self) -> (out: Result<(), PeksError>)
        ensures
            (out, final(self)@) == released(old(self)@),
    {
        if self.buffer.is_none() {
            return Err(PeksError::InvalidHandle);
        }
        self.buffer = None;
        Ok(())
    }
}

/// The handle of a public key.
pub struct CPeksPublicKey {
    buffer: Option<Vec<u8>>,
}

impl View for CPeksPublicKey {
    type V = Option<Seq<u8>>;

    /// The text that the handle owns; `None` for a null handle.
    closed spec fn view(&self) -> Option<Seq<u8>> {
        bytes_view(self.buffer)
    }
}

impl CPeksPublicKey {
    /// The null handle.
    pub fn null() -> (out: CPeksPublicKey)
        ensures
            out@ is None,
    {
        CPeksPublicKey { buffer: None }
    }

    /// A handle that takes over a buffer, such as one that was stored or
    /// received. The buffer is read when the handle is used.
    pub fn from_buffer(buffer: Vec<u8>) -> (out: CPeksPublicKey)
        ensures
            out@ == Some(buffer@),
    {
        CPeksPublicKey { buffer: Some(buffer) }
    }

    /// Whether the handle owns nothing.
    pub fn is_null(&self) -> (out: bool)
        ensures
            out == (self@ is None),
    {
        self.buffer.is_none()
    }

    /// The text that the handle owns.
    pub fn buffer(&self) -> (out: Option<&Vec<u8>>)
        ensures
            match out {
                Some(text) => self@ == Some(text@),
                None => self@ is None,
            },
    {
        self.buffer.as_ref()
    }

    /// Takes the text out of the handle, which ends the handle.
    pub fn into_buffer(self) -> (out: Option<Vec<u8>>)
        ensures
            bytes_view(out) == self@,
    {
        self.buffer
    }

    /// Gives up what the handle owns, and leaves it null.
    ///
    /// Fails with `InvalidHandle` exactly when the handle was null already.
    pub fn release(&mut self) -> (out: Result<(), PeksError>)
        ensures
            (out, final(self)@) == released(old(self)@),
    {
        if self.buffer.is_none() {
            return Err(PeksError::InvalidHandle);
        }
        self.buffer = None;
        Ok(())
    }
}

/// The handle of a keyword ciphertext.
pub struct CPeksCiphertext {
    buffer: Option<Vec<u8>>,
}

impl View for CPeksCiphertext {
    type V = Option<Seq<u8>>;

    /// The text that the handle owns; `None` for a null handle.
    closed spec fn view(&self) -> Option<Seq<u8>> {
        bytes_view(self.buffer)
    }
}

impl CPeksCiphertext {
    /// The null handle.
    pub fn null() -> (out: CPeksCiphertext)
        ensures
            out@ is None,
    {
        CPeksCiphertext { buffer: None }
    }

    /// A handle that takes over a buffer, such as one that was stored or
    /// received. The buffer is read when the handle is used.
    pub fn from_buffer(buffer: Vec<u8>) -> (out: CPeksCiphertext)
        ensures
            out@ == Some(buffer@),
    {
        CPeksCiphertext { buffer: Some(buffer) }
    }

    /// Whether the handle owns nothing.
    pub fn is_null(&self) -> (out: bool)
        ensures
            out == (self@ is None),
    {
        self.buffer.is_none()
    }

    /// The text that the handle owns.
    pub fn buffer(&self) -> (out: Option<&Vec<u8>>)
        ensures
            match out {
                Some(text) => self@ == Some(text@),
                None => self@ is None,
            },
    {
        self.buffer.as_ref()
    }

    /// Takes the text out of the handle, which ends the handle.
    pub fn into_buffer(self) -> (out: Option<Vec<u8>>)
        ensures
            bytes_view(out) == self@,
    {
        self.buffer
    }

    /// Gives up what the handle owns, and leaves it null.
    ///
    /// Fails with `InvalidHandle` exactly when the handle was null already.
    pub fn release(&mut self) -> (out: Result<(), PeksError>)
        ensures
            (out, final(self)@) == released(old(self)@),
    {
        if self.buffer.is_none() {
            return Err(PeksError::InvalidHandle);
        }
        self.buffer = None;
        Ok(())
    }
}

/// The handle of a trapdoor.
pub struct CPeksTrapdoor {
    buffer: Option<Vec<u8>>,
}

impl View for CPeksTrapdoor {
    type V = Option<Seq<u8>>;

    /// The text that the handle owns; `None` for a null handle.
    closed spec fn view(&self) -> Option<Seq<u8>> {
        bytes_view(self.buffer)
    }
}

impl CPeksTrapdoor {
    /// The null handle.
    pub fn null() -> (out: CPeksTrapdoor)
        ensures
            out@ is None,
    {
        CPeksTrapdoor { buffer: None }
    }

    /// A handle that takes over a buffer, such as one that was stored or
    /// received. The buffer is read when the handle is used.
    pub fn from_buffer(buffer: Vec<u8>) -> (out: CPeksTrapdoor)
        ensures
            out@ == Some(buffer@),
    {
        CPeksTrapdoor { buffer: Some(buffer) }
    }

    /// Whether the handle owns nothing.
    pub fn is_null(&self) -> (out: bool)
        ensures
            out == (self@ is None),
    {
        self.buffer.is_none()
    }

    /// The text that the handle owns.
    pub fn buffer(&self) -> (out: Option<&Vec<u8>>)
        ensures
            match out {
                Some(text) => self@ == Some(text@),
                None => self@ is None,
            },
    {
        self.buffer.as_ref()
    }

    /// Takes the text out of the handle, which ends the handle.
    pub fn into_buffer(self) -> (out: Option<Vec<u8>>)
        ensures
            bytes_view(out) == self@,
    {
        self.buffer
    }

    /// Gives up what the handle owns, and leaves it null.
    ///
    /// Fails with `InvalidHandle` exactly when the handle was null already.
    pub fn release(&mut self) -> (out: Result<(), PeksError>)
        ensures
            (out, final(self)@) == released(old(self)@),
    {
        if self.buffer.is_none() {
            return Err(PeksError::InvalidHandle);
        }
        self.buffer = None;
        Ok(())
    }
}

/// What releasing a handle gives, and what the handle owns afterwards:
/// nothing, whatever it owned before.
pub open spec fn released(handle: Option<Seq<u8>>) -> (Result<(), PeksError>, Option<Seq<u8>>) {
    match handle {
        Some(_) => (Ok(()), None),
        None => (Err(PeksError::InvalidHandle), None),
    }
}

/// The outcome of an operation that creates a handle: what the new handle
/// owns, or the error.
pub open spec fn issued<H: View<V = Option<Seq<u8>>>>(out: Result<H, PeksError>) -> Result<
    Option<Seq<u8>>,
    PeksError,
> {
    match out {
        Ok(handle) => Ok(handle@),
        Err(error) => Err(error),
    }
}

/// The outcome of wrapping a text that may have failed to be written.
pub open spec fn wrapped(text: Option<Seq<u8>>) -> Result<Option<Seq<u8>>, PeksError> {
    match text {
        Some(bytes) => Ok(Some(bytes)),
        None => Err(PeksError::EncodingFailure),
    }
}

/// The secret key behind a handle.
pub open spec fn secret_key_behind(handle: Option<Seq<u8>>) -> Result<Seq<u8>, PeksError> {
    match handle {
        None => Err(PeksError::InvalidHandle),
        Some(text) => match secret_key_in(text) {
            Some(secret) => Ok(secret),
            None => Err(PeksError::MalformedInput),
        },
    }
}

/// The public key behind a handle.
pub open spec fn public_key_behind(handle: Option<Seq<u8>>) -> Result<Seq<u8>, PeksError> {
    match handle {
        None => Err(PeksError::InvalidHandle),
        Some(text) => match public_key_in(text) {
            Some(public) => Ok(public),
            None => Err(PeksError::MalformedInput),
        },
    }
}

/// The ciphertext behind a handle.
pub open spec fn ciphertext_behind(handle: Option<Seq<u8>>) -> Result<CiphertextView, PeksError> {
    match handle {
        None => Err(PeksError::InvalidHandle),
        Some(text) => match ciphertext_in(text) {
            Some(ciphertext) => Ok(ciphertext),
            None => Err(PeksError::MalformedInput),
        },
    }
}

/// The trapdoor behind a handle.
pub open spec fn trapdoor_behind(handle: Option<Seq<u8>>) -> Result<Seq<u8>, PeksError> {
    match handle {
        None => Err(PeksError::InvalidHandle),
        Some(text) => match trapdoor_in(text) {
            Some(trapdoor) => Ok(trapdoor),
            None => Err(PeksError::MalformedInput),
        },
    }
}

/// What issuing a trapdoor gives for a secret-key handle and a keyword.
pub open spec fn issued_trapdoor(secret_key: Option<Seq<u8>>, keyword: Seq<u8>) -> Result<
    Option<Seq<u8>>,
    PeksError,
> {
    match secret_key_behind(secret_key) {
        Err(error) => Err(error),
        Ok(secret) => if hashable(keyword) {
            wrapped(trapdoor_text(trapdoor_of(secret, keyword)))
        } else {
            Err(PeksError::EncodingFailure)
        },
    }
}

/// What the match test gives for a ciphertext handle and a trapdoor handle.
pub open spec fn tested(ciphertext: Option<Seq<u8>>, trapdoor: Option<Seq<u8>>) -> Result<
    bool,
    PeksError,
> {
    if ciphertext is None || trapdoor is None {
        Err(PeksError::InvalidHandle)
    } else {
        match (ciphertext_behind(ciphertext), trapdoor_behind(trapdoor)) {
            (Ok(c), Ok(t)) => Ok(is_match(c, t)),
            _ => Err(PeksError::MalformedInput),
        }
    }
}

fn read_secret_key(handle: &CPeksSecretKey) -> (out: Result<SecretKey, PeksError>)
    ensures
        match out {
            Ok(key) => secret_key_behind(handle@) == Ok::<Seq<u8>, PeksError>(key@),
            Err(error) => secret_key_behind(handle@) == Err::<Seq<u8>, PeksError>(error),
        },
{
    match handle.buffer() {
        Some(text) => SecretKey::from_text(text),
        None => Err(PeksError::InvalidHandle),
    }
}

fn read_public_key(handle: &CPeksPublicKey) -> (out: Result<PublicKey, PeksError>)
    ensures
        match out {
            Ok(key) => public_key_behind(handle@) == Ok::<Seq<u8>, PeksError>(key@),
            Err(error) => public_key_behind(handle@) == Err::<Seq<u8>, PeksError>(error),
        },
{
    match handle.buffer() {
        Some(text) => PublicKey::from_text(text),
        None => Err(PeksError::InvalidHandle),
    }
}

/// Creates a secret key and hands out its handle.
///
/// Fails with `RandomnessUnavailable` when the source yields no scalar, and
/// with `EncodingFailure` when the key has no text.
pub fn gen_secret_key(rng: &mut EntropySource) -> (out: Result<CPeksSecretKey, PeksError>)
    ensures
        exists|secret: Option<Seq<u8>>|
            #![trigger draw_outcome(*old(rng), *final(rng), secret)]
            draw_outcome(*old(rng), *final(rng), secret) && issued(out) == match secret {
                Some(scalar) => wrapped(secret_key_text(scalar)),
                None => Err(PeksError::RandomnessUnavailable),
            },
{
    match SecretKey::generate(rng) {
        Ok(key) => {
            assert(draw_outcome(*old(rng), *rng, Some(key@)));
            match key.to_text() {
                Ok(text) => Ok(CPeksSecretKey::from_buffer(text)),
                Err(error) => Err(error),
            }
        },
        Err(error) => {
            assert(draw_outcome(*old(rng), *rng, None));
            Err(error)
        },
    }
}

/// Derives the public key of a secret key and hands out its handle.
///
/// Fails with `InvalidHandle` for a null handle, with `MalformedInput` when
/// the handle holds no secret key, with `RandomnessUnavailable` when the
/// source yields no blinding scalar, and with `EncodingFailure` when the
/// public key has no text. The first two leave the source untouched.
pub fn peks_gen_public_key(secret_key: &CPeksSecretKey, rng: &mut EntropySource) -> (out: Result<
    CPeksPublicKey,
    PeksError,
>)
    ensures
        match secret_key_behind(secret_key@) {
            Err(error) => issued(out) == Err::<Option<Seq<u8>>, PeksError>(error) && untouched(
                *old(rng),
                *final(rng),
            ),
            Ok(secret) => exists|blind: Option<Seq<u8>>|
                #![trigger draw_outcome(*old(rng), *final(rng), blind)]
                draw_outcome(*old(rng), *final(rng), blind) && issued(out) == match blind {
                    Some(_) => wrapped(public_key_text(public_key_of(secret))),
                    None => Err(PeksError::RandomnessUnavailable),
                },
        },
{
    let key = match read_secret_key(secret_key) {
        Ok(key) => key,
        Err(error) => {
            return Err(error);
        },
    };
    let ghost before = *rng;
    match key.derive_public_key(rng) {
        Ok(public) => {
            proof {
                let blind = choose|blind: Option<Seq<u8>>|
                    draw_outcome(before, *rng, blind) && blind is Some;
                assert(draw_outcome(*old(rng), *rng, blind));
            }
            match public.to_text() {
                Ok(text) => Ok(CPeksPublicKey::from_buffer(text)),
                Err(error) => Err(error),
            }
        },
        Err(error) => {
            proof {
                let blind = choose|blind: Option<Seq<u8>>|
                    draw_outcome(before, *rng, blind) && blind is None;
                assert(draw_outcome(*old(rng), *rng, blind));
            }
            Err(error)
        },
    }
}

/// Encrypts a keyword under a public key and hands out the handle of the
/// ciphertext.
///
/// Fails with `InvalidHandle` for a null handle, with `MalformedInput` when
/// the handle holds no public key, with `EncodingFailure` when the keyword
/// has no image in the group or the ciphertext has no text, and with
/// `RandomnessUnavailable` when the source yields no scalar. Nothing is drawn
/// from the source unless the handle and the keyword are in order.
pub fn peks_encrypt_keyword(
    public_key: &CPeksPublicKey,
    keyword: &Vec<u8>,
    rng: &mut EntropySource,
) -> (out: Result<CPeksCiphertext, PeksError>)
    ensures
        match public_key_behind(public_key@) {
            Err(error) => issued(out) == Err::<Option<Seq<u8>>, PeksError>(error) && untouched(
                *old(rng),
                *final(rng),
            ),
            Ok(public) => if hashable(keyword@) {
                exists|randomness: Option<Seq<u8>>|
                    #![trigger draw_outcome(*old(rng), *final(rng), randomness)]
                    draw_outcome(*old(rng), *final(rng), randomness) && issued(out)
                        == match randomness {
                        Some(r) => wrapped(ciphertext_text(ciphertext_of(public, keyword@, r))),
                        None => Err(PeksError::RandomnessUnavailable),
                    }
            } else {
                issued(out) == Err::<Option<Seq<u8>>, PeksError>(PeksError::EncodingFailure)
                    && untouched(*old(rng), *final(rng))
            },
        },
        out matches Ok(handle) ==> handle@ matches Some(text) && ciphertext_in(text) matches Some(
            ciphertext,
        ) && public_key_behind(public_key@) matches Ok(public) && encrypts(
            ciphertext,
            public,
            keyword@,
        ),
{
    let key = match read_public_key(public_key) {
        Ok(key) => key,
        Err(error) => {
            return Err(error);
        },
    };
    let ghost before = *rng;
    match key.encrypt(keyword, rng) {
        Ok(ciphertext) => {
            proof {
                let randomness = choose|randomness: Option<Seq<u8>>|
                    #![trigger draw_outcome(before, *rng, randomness)]
                    draw_outcome(before, *rng, randomness) && match randomness {
                        Some(r) => ciphertext@ == ciphertext_of(key@, keyword@, r),
                        None => false,
                    };
                assert(draw_outcome(*old(rng), *rng, randomness));
            }
            match ciphertext.to_text() {
                Ok(text) => Ok(CPeksCiphertext::from_buffer(text)),
                Err(error) => Err(error),
            }
        },
        Err(error) => {
            proof {
                if hashable(keyword@) {
                    let randomness = choose|randomness: Option<Seq<u8>>|
                        #![trigger draw_outcome(before, *rng, randomness)]
                        draw_outcome(before, *rng, randomness) && randomness is None;
                    assert(draw_outcome(*old(rng), *rng, randomness));
                }
            }
            Err(error)
        },
    }
}

/// Issues the trapdoor of a keyword under a secret key and hands out its
/// handle.
///
/// Nothing but the secret key and the keyword enters the result: the same
/// two always give the same text. Fails with `InvalidHandle` for a null
/// handle, with `MalformedInput` when the handle holds no secret key, and
/// with `EncodingFailure` when the keyword has no image in the group or the
/// trapdoor has no text.
pub fn peks_gen_trapdoor(secret_key: &CPeksSecretKey, keyword: &Vec<u8>) -> (out: Result<
    CPeksTrapdoor,
    PeksError,
>)
    ensures
        issued(out) == issued_trapdoor(secret_key@, keyword@),
{
    let key = match read_secret_key(secret_key) {
        Ok(key) => key,
        Err(error) => {
            return Err(error);
        },
    };
    let trapdoor = match key.issue_trapdoor(keyword) {
        Ok(trapdoor) => trapdoor,
        Err(error) => {
            return Err(error);
        },
    };
    match trapdoor.to_text() {
        Ok(text) => Ok(CPeksTrapdoor::from_buffer(text)),
        Err(error) => Err(error),
    }
}

/// Tests whether a trapdoor matches a ciphertext. Both handles are borrowed.
///
/// A mismatch is `Ok(false)`. Fails with `InvalidHandle` when either handle
/// is null, and otherwise with `MalformedInput` when either holds no entity
/// of its kind.
///
/// The test is complete: the trapdoor that a secret key issued for a keyword
/// matches every ciphertext of that keyword under the public key of that
/// secret key.
pub fn peks_test(ciphertext: &CPeksCiphertext, trapdoor: &CPeksTrapdoor) -> (out: Result<
    bool,
    PeksError,
>)
    ensures
        out == tested(ciphertext@, trapdoor@),
        forall|secret: Seq<u8>, keyword: Seq<u8>|
            #![trigger trapdoor_of(secret, keyword)]
            valid_scalar(secret) && hashable(keyword) && trapdoor_behind(trapdoor@) == Ok::<
                Seq<u8>,
                PeksError,
            >(trapdoor_of(secret, keyword)) && (ciphertext_behind(ciphertext@) matches Ok(c)
                && encrypts(c, public_key_of(secret), keyword)) ==> out == Ok::<bool, PeksError>(
                true,
            ),
{
    let (ciphertext_text, trapdoor_text) = match (ciphertext.buffer(), trapdoor.buffer()) {
        (Some(c), Some(t)) => (c, t),
        _ => {
            return Err(PeksError::InvalidHandle);
        },
    };
    let c = match Ciphertext::from_text(ciphertext_text) {
        Ok(c) => c,
        Err(error) => {
            return Err(error);
        },
    };
    let t = match Trapdoor::from_text(trapdoor_text) {
        Ok(t) => t,
        Err(error) => {
            return Err(error);
        },
    };
    let matched = t.test(&c);
    proof {
        assert forall|secret: Seq<u8>, keyword: Seq<u8>|
            #![trigger trapdoor_of(secret, keyword)]
            valid_scalar(secret) && hashable(keyword) && t@ == trapdoor_of(secret, keyword)
                && encrypts(c@, public_key_of(secret), keyword) implies matched by {
            let randomness = choose|randomness: Seq<u8>|
                nonzero_scalar(randomness) && c@ == #[trigger] ciphertext_of(
                    public_key_of(secret),
                    keyword,
                    randomness,
                );
            let hashed = hash_g1_of(keyword);
            assert(t@ == trapdoor_for_point(secret, hashed));
            assert(c@ == ciphertext_for_point(public_key_of(secret), hashed, randomness));
        }
    }
    Ok(matched)
}

/// Releases the handle of a secret key.
///
/// Fails with `InvalidHandle` exactly when the handle is null.
pub fn peks_free_secret_key(secret_key: CPeksSecretKey) -> (out: Result<(), PeksError>)
    ensures
        out == released(secret_key@).0,
{
    let mut handle = secret_key;
    handle.release()
}

/// Releases the handle of a public key.
///
/// Fails with `InvalidHandle` exactly when the handle is null.
pub fn peks_free_public_key(public_key: CPeksPublicKey) -> (out: Result<(), PeksError>)
    ensures
        out == released(public_key@).0,
{
    let mut handle = public_key;
    handle.release()
}

/// Releases the handle of a ciphertext.
///
/// Fails with `InvalidHandle` exactly when the handle is null.
pub fn peks_free_ciphertext(ciphertext: CPeksCiphertext) -> (out: Result<(), PeksError>)
    ensures
        out == released(ciphertext@).0,
{
    let mut handle = ciphertext;
    handle.release()
}

/// Releases the handle of a trapdoor.
///
/// Fails with `InvalidHandle` exactly when the handle is null.
pub fn peks_free_trapdoor(trapdoor: CPeksTrapdoor) -> (out: Result<(), PeksError>)
    ensures
        out == released(trapdoor@).0,
{
    let mut handle = trapdoor;
    handle.release()
}

} // verus!
