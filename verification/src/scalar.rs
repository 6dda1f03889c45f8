//! Non-zero scalars: secret exponents, blinding values and per-ciphertext
//! randomness.

use crate::constant_time::all_zero;
use crate::entropy::EntropySource;
use crate::error::PeksError;
use crate::field::{
    be_value, entropy_bound, le_value, lemma_scalar_of_value, lemma_zero_value, scalar_check,
    scalar_from_entropy, scalar_of_entropy, valid_scalar, ENTROPY_LEN, SCALAR_LEN,
};
use vstd::prelude::*;

verus! {

/// Number of candidates that are tried before a source is given up.
pub const MAX_DRAWS: usize = 64;

/// A well-formed scalar other than zero.
pub open spec fn nonzero_scalar(bytes: Seq<u8>) -> bool {
    valid_scalar(bytes) && be_value(bytes) != 0
}

/// The non-zero scalar that one block of random bytes stands for, if any:
/// a block of `ENTROPY_LEN` bytes whose number, with the top bit dropped,
/// lies between zero and the group order.
pub open spec fn scalar_of_block(block: Seq<u8>) -> Option<Seq<u8>> {
    if block.len() == ENTROPY_LEN {
        match scalar_of_entropy(block) {
            Some(scalar) => if be_value(scalar) == 0 {
                None
            } else {
                Some(scalar)
            },
            None => None,
        }
    } else {
        None
    }
}

/// What drawing a scalar from a byte stream gives: the scalar of the first of
/// at most `draws` blocks that stands for one, and the rest of the stream.
/// Without such a block there is no scalar, and the stream is consumed up to
/// the point at which the search ended.
pub open spec fn scalar_of_stream(stream: Seq<u8>, draws: nat) -> (Option<Seq<u8>>, Seq<u8>)
    decreases draws,
{
    if draws == 0 || stream.len() < ENTROPY_LEN {
        (None, stream)
    } else {
        match scalar_of_block(stream.take(ENTROPY_LEN as int)) {
            Some(scalar) => (Some(scalar), stream.skip(ENTROPY_LEN as int)),
            None => scalar_of_stream(stream.skip(ENTROPY_LEN as int), (draws - 1) as nat),
        }
    }
}

/// How a source stands after a scalar was drawn from it, and what was drawn.
///
/// A fixed source yields what `scalar_of_stream` says. Of the system source
/// it is only known that a scalar that came out is well formed and not zero.
pub open spec fn draw_outcome(
    before: EntropySource,
    after: EntropySource,
    scalar: Option<Seq<u8>>,
) -> bool {
    &&& after.is_system() == before.is_system()
    &&& scalar matches Some(bytes) ==> nonzero_scalar(bytes)
    &&& !before.is_system() ==> (scalar, after.remaining()) == scalar_of_stream(
        before.remaining(),
        MAX_DRAWS as nat,
    )
}

/// A scalar of the group order field that is not zero.
pub struct Scalar {
    bytes: Vec<u8>,
}

impl Scalar {
    #[verifier::type_invariant]
    spec fn well_formed(&self) -> bool {
        nonzero_scalar(self.bytes@)
    }

    /// The 32 big-endian bytes of the scalar.
    pub closed spec fn view(&self) -> Seq<u8> {
        self.bytes@
    }

    /// Reads a scalar from its 32 big-endian bytes.
    ///
    /// Fails with `MalformedInput` unless the bytes are a well-formed scalar
    /// other than zero.
    pub fn from_bytes(bytes: Vec<u8>) -> (out: Result<Scalar, PeksError>)
        ensures
            out is Ok <==> nonzero_scalar(bytes@),
            out matches Ok(scalar) ==> scalar@ == bytes@,
            out matches Err(error) ==> error == PeksError::MalformedInput,
    {
        if bytes.len() != SCALAR_LEN {
            return Err(PeksError::MalformedInput);
        }
        if !scalar_check(&bytes) {
            return Err(PeksError::MalformedInput);
        }
        proof {
            lemma_zero_value(bytes@);
        }
        if all_zero(&bytes) {
            return Err(PeksError::MalformedInput);
        }
        Ok(Scalar { bytes })
    }

    /// Turns one block of random bytes into a scalar, if the block stands for
    /// a scalar other than zero.
    pub fn from_entropy(block: &Vec<u8>) -> (out: Option<Scalar>)
        ensures
            match out {
                Some(scalar) => scalar_of_block(block@) == Some(scalar@) && nonzero_scalar(
                    scalar@,
                ),
                None => scalar_of_block(block@) is None,
            },
    {
        if block.len() != ENTROPY_LEN {
            return None;
        }
        match scalar_from_entropy(block) {
            Some(bytes) => {
                proof {
                    lemma_scalar_of_value(le_value(block@) % entropy_bound());
                    lemma_zero_value(bytes@);
                }
                if all_zero(&bytes) {
                    None
                } else {
                    Some(Scalar { bytes })
                }
            },
            None => None,
        }
    }

    /// Draws a scalar from a source of randomness.
    ///
    /// Blocks of `ENTROPY_LEN` bytes are drawn until one stands for a scalar
    /// other than zero. Fails with `RandomnessUnavailable` when the source
    /// gives no block, or when `MAX_DRAWS` blocks in a row stood for none.
    pub fn draw(rng: &mut EntropySource) -> (out: Result<Scalar, PeksError>)
        ensures
            out matches Err(error) ==> error == PeksError::RandomnessUnavailable,
            draw_outcome(
                *old(rng),
                *final(rng),
                match out {
                    Ok(scalar) => Some(scalar@),
                    Err(_) => None,
                },
            ),
    {
        let mut attempt: usize = 0;
        while attempt < MAX_DRAWS
            invariant
                attempt <= MAX_DRAWS,
                rng.is_system() == old(rng).is_system(),
                !rng.is_system() ==> scalar_of_stream(old(rng).remaining(), MAX_DRAWS as nat)
                    == scalar_of_stream(rng.remaining(), (MAX_DRAWS - attempt) as nat),
            decreases MAX_DRAWS - attempt,
        {
            match rng.draw(ENTROPY_LEN) {
                None => {
                    return Err(PeksError::RandomnessUnavailable);
                },
                Some(block) => {
                    match Scalar::from_entropy(&block) {
                        Some(scalar) => {
                            return Ok(scalar);
                        },
                        None => {},
                    }
                },
            }
            attempt += 1;
        }
        Err(PeksError::RandomnessUnavailable)
    }

    /// The 32 big-endian bytes of the scalar.
    pub fn as_bytes(&self) -> (out: &Vec<u8>)
        ensures
            out@ == self@,
            nonzero_scalar(out@),
    {
        proof {
            use_type_invariant(self);
        }
        &self.bytes
    }
}

} // verus!
