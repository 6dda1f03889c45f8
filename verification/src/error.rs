//! The ways in which an operation of this library can fail.

use vstd::prelude::*;

verus! {

/// Why an operation produced no result.
#[derive(Clone, Copy, Debug, PartialEq, Eq, Structural)]
pub enum PeksError {
    /// The source of randomness gave no usable bytes.
    RandomnessUnavailable,
    /// A buffer does not decode as the entity that was expected.
    MalformedInput,
    /// A value has no encoding: a keyword has no image in the group, or an
    /// entity has no text that reads back as itself.
    EncodingFailure,
    /// A handle is null, or was released before.
    InvalidHandle,
}

impl PeksError {
    /// A number that identifies the error across a language boundary; zero is
    /// left free to mean success.
    pub fn code(&self) -> (code: u8)
        ensures
            code == self.spec_code(),
            1 <= code <= 4,
    {
        match self {
            PeksError::RandomnessUnavailable => 1,
            PeksError::MalformedInput => 2,
            PeksError::EncodingFailure => 3,
            PeksError::InvalidHandle => 4,
        }
    }

    /// The number that `code` returns.
    pub open spec fn spec_code(&self) -> u8 {
        match self {
            PeksError::RandomnessUnavailable => 1,
            PeksError::MalformedInput => 2,
            PeksError::EncodingFailure => 3,
            PeksError::InvalidHandle => 4,
        }
    }

    /// The error that a code stands for, if it stands for one.
    pub fn from_code(code: u8) -> (out: Option<PeksError>)
        ensures
            match out {
                Some(error) => error.spec_code() == code,
                None => code == 0 || code > 4,
            },
    {
        if code == 1 {
            Some(PeksError::RandomnessUnavailable)
        } else if code == 2 {
            Some(PeksError::MalformedInput)
        } else if code == 3 {
            Some(PeksError::EncodingFailure)
        } else if code == 4 {
            Some(PeksError::InvalidHandle)
        } else {
            None
        }
    }
}

} // verus!
