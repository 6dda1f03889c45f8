//! What holds of the operations taken together.

use crate::c_api::{
    issued_trapdoor, public_key_behind, released, secret_key_behind, tested, trapdoor_behind,
    wrapped,
};
use crate::codec::{
    ciphertext_in, ciphertext_text, public_key_in, public_key_text, secret_key_in,
    secret_key_text, trapdoor_in, trapdoor_text,
};
use crate::error::PeksError;
use crate::scheme::{hashable, is_match, trapdoor_of, CiphertextView};
use vstd::prelude::*;

verus! {

/// Issuing a trapdoor is deterministic: two trapdoors that were issued under
/// the same secret key for the same keyword are the same bytes, and so are
/// their texts.
pub proof fn lemma_trapdoor_is_deterministic(
    secret: Seq<u8>,
    keyword: Seq<u8>,
    first: Seq<u8>,
    second: Seq<u8>,
)
    requires
        first == trapdoor_of(secret, keyword),
        second == trapdoor_of(secret, keyword),
    ensures
        first == second,
        trapdoor_text(first) == trapdoor_text(second),
{
}

/// Issuing a trapdoor through handles is deterministic: two calls with the
/// same secret-key text and the same keyword end alike, and where they
/// succeed the two handles own the same text.
pub proof fn lemma_trapdoor_handle_is_deterministic(
    secret_key: Option<Seq<u8>>,
    keyword: Seq<u8>,
    first: Result<Option<Seq<u8>>, PeksError>,
    second: Result<Option<Seq<u8>>, PeksError>,
)
    requires
        first == issued_trapdoor(secret_key, keyword),
        second == issued_trapdoor(secret_key, keyword),
    ensures
        first == second,
{
}

/// The text of a secret key reads back as the key.
pub proof fn lemma_secret_key_round_trip(secret: Seq<u8>, text: Seq<u8>)
    requires
        secret_key_text(secret) == Some(text),
    ensures
        secret_key_in(text) == Some(secret),
{
}

/// The text of a public key reads back as the key.
pub proof fn lemma_public_key_round_trip(public: Seq<u8>, text: Seq<u8>)
    requires
        public_key_text(public) == Some(text),
    ensures
        public_key_in(text) == Some(public),
{
}

/// The text of a ciphertext reads back as the ciphertext.
pub proof fn lemma_ciphertext_round_trip(ciphertext: CiphertextView, text: Seq<u8>)
    requires
        ciphertext_text(ciphertext) == Some(text),
    ensures
        ciphertext_in(text) == Some(ciphertext),
{
}

/// The text of a trapdoor reads back as the trapdoor.
pub proof fn lemma_trapdoor_round_trip(trapdoor: Seq<u8>, text: Seq<u8>)
    requires
        trapdoor_text(trapdoor) == Some(text),
    ensures
        trapdoor_in(text) == Some(trapdoor),
{
}

/// Writing and reading does not change what the match test says: a test on
/// the texts of a ciphertext and a trapdoor gives what the test on the two
/// themselves gives.
pub proof fn lemma_test_survives_round_trip(
    ciphertext: CiphertextView,
    trapdoor: Seq<u8>,
    ciphertext_handle: Seq<u8>,
    trapdoor_handle: Seq<u8>,
)
    requires
        ciphertext_text(ciphertext) == Some(ciphertext_handle),
        trapdoor_text(trapdoor) == Some(trapdoor_handle),
    ensures
        tested(Some(ciphertext_handle), Some(trapdoor_handle)) == Ok::<bool, PeksError>(
            is_match(ciphertext, trapdoor),
        ),
{
}

/// Writing and reading does not change a key: behind the handle that owns
/// the text of a secret key stands that key, and likewise for a public key,
/// so that every operation on the handle works on the key that was written.
pub proof fn lemma_keys_survive_round_trip(
    secret: Seq<u8>,
    secret_handle: Seq<u8>,
    public: Seq<u8>,
    public_handle: Seq<u8>,
    keyword: Seq<u8>,
)
    requires
        secret_key_text(secret) == Some(secret_handle),
        public_key_text(public) == Some(public_handle),
    ensures
        secret_key_behind(Some(secret_handle)) == Ok::<Seq<u8>, PeksError>(secret),
        public_key_behind(Some(public_handle)) == Ok::<Seq<u8>, PeksError>(public),
        hashable(keyword) ==> issued_trapdoor(Some(secret_handle), keyword) == wrapped(
            trapdoor_text(trapdoor_of(secret, keyword)),
        ),
{
}

/// A handle is released once: releasing a handle that owns a buffer
/// succeeds and leaves it null, and releasing it again reports
/// `InvalidHandle` and leaves it null.
pub proof fn lemma_release_once(handle: Option<Seq<u8>>)
    ensures
        handle is Some ==> released(handle).0 is Ok,
        handle is None ==> released(handle).0 == Err::<(), PeksError>(PeksError::InvalidHandle),
        released(handle).1 is None,
        released(released(handle).1).0 == Err::<(), PeksError>(PeksError::InvalidHandle),
{
}

/// A released handle is of no use: the match test reports `InvalidHandle`
/// when either of its handles was released, whatever the other owns.
pub proof fn lemma_released_handle_is_invalid(handle: Option<Seq<u8>>, other: Option<Seq<u8>>)
    ensures
        tested(released(handle).1, other) == Err::<bool, PeksError>(PeksError::InvalidHandle),
        tested(other, released(handle).1) == Err::<bool, PeksError>(PeksError::InvalidHandle),
        trapdoor_behind(released(handle).1) == Err::<Seq<u8>, PeksError>(
            PeksError::InvalidHandle,
        ),
{
}

} // verus!
