//! Where random bytes come from.
//!
//! Every operation that needs randomness is handed an [`EntropySource`]. The
//! system source asks the operating system on each draw. A fixed source hands
//! out a given byte string from front to back, so that a run can be repeated.

use rand_core::{OsRng, RngCore};
use vstd::prelude::*;

verus! {

/// A provider of random bytes.
pub struct EntropySource {
    /// The bytes of a fixed source; `None` for the system source.
    stream: Option<Vec<u8>>,
    /// How many bytes of a fixed source have been handed out.
    used: usize,
}

/// Calls `RngCore::try_fill_bytes` on `rand_core::OsRng`. The bytes depend on
/// chance, so the contract claims only the length of a block that came back.
#[verifier::external_body]
fn os_entropy(len: usize) -> (out: Option<Vec<u8>>)
    ensures
        out matches Some(block) ==> block@.len() == len,
{
    let mut block = vec![0u8; len];
    OsRng.try_fill_bytes(&mut block).ok()?;
    Some(block)
}

/// Whether nothing was drawn from a source between two moments.
pub open spec fn untouched(before: EntropySource, after: EntropySource) -> bool {
    after.is_system() == before.is_system() && after.remaining() == before.remaining()
}

impl EntropySource {
    #[verifier::type_invariant]
    spec fn well_formed(&self) -> bool {
        match self.stream {
            Some(bytes) => self.used <= bytes@.len(),
            None => self.used == 0,
        }
    }

    /// Whether the bytes come from the operating system.
    pub closed spec fn is_system(&self) -> bool {
        self.stream is None
    }

    /// The bytes that a fixed source has yet to hand out; empty for the system
    /// source.
    pub closed spec fn remaining(&self) -> Seq<u8> {
        match self.stream {
            Some(bytes) => bytes@.skip(self.used as int),
            None => Seq::empty(),
        }
    }

    /// The source backed by the operating system.
    pub fn system() -> (out: EntropySource)
        ensures
            out.is_system(),
    {
        EntropySource { stream: None, used: 0 }
    }

    /// A source that hands out `bytes`, front to back, and then fails.
    pub fn fixed(bytes: Vec<u8>) -> (out: EntropySource)
        ensures
            !out.is_system(),
            out.remaining() == bytes@,
    {
        EntropySource { stream: Some(bytes), used: 0 }
    }

    /// Draws `len` random bytes, or `None` if the source cannot give them.
    ///
    /// A fixed source gives its next `len` bytes as long as it has that many,
    /// and is left unchanged when it has not. Of the system source only the
    /// length of the block is known.
    pub fn draw(&mut self, len: usize) -> (out: Option<Vec<u8>>)
        ensures
            final(self).is_system() == old(self).is_system(),
            out matches Some(block) ==> block@.len() == len,
            !old(self).is_system() ==> match out {
                Some(block) => len <= old(self).remaining().len() && block@ == old(
                    self,
                ).remaining().take(len as int) && final(self).remaining() == old(
                    self,
                ).remaining().skip(len as int),
                None => len > old(self).remaining().len() && final(self).remaining() == old(
                    self,
                ).remaining(),
            },
    {
        proof {
            use_type_invariant(&*self);
        }
        match &self.stream {
            None => os_entropy(len),
            Some(bytes) => {
                if len > bytes.len() - self.used {
                    return None;
                }
                let start: usize = self.used;
                let mut block: Vec<u8> = Vec::with_capacity(len);
                let mut i: usize = 0;
                while i < len
                    invariant
                        i <= len,
                        start + len <= bytes@.len() <= usize::MAX,
                        block@ == bytes@.subrange(start as int, start + i),
                    decreases len - i,
                {
                    block.push(bytes[start + i]);
                    i += 1;
                }
                assert(block@ == bytes@.skip(start as int).take(len as int));
                assert(bytes@.skip(start + len) == bytes@.skip(start as int).skip(len as int));
                self.used = start + len;
                Some(block)
            },
        }
    }
}

} // verus!
