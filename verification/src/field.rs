//! The scalars of the pairing groups: the integers below the group order,
//! written as 32 big-endian bytes.
//!
//! The arithmetic is done by the `paired` crate. What its functions return
//! is stated here over the numbers that the bytes denote; that what comes
//! back is again a well-formed scalar is proved from those statements.

use fff::{Field, PrimeField, PrimeFieldRepr};
use paired::bls12_381::{Fr, FrRepr};
use vstd::prelude::*;

verus! {

/// Length in bytes of an encoded scalar.
pub const SCALAR_LEN: usize = 32;

/// Number of random bytes that one candidate scalar is made from.
pub const ENTROPY_LEN: usize = 32;

/// The order of the pairing groups, a prime of 255 bits.
pub open spec fn group_order() -> nat {
    0x73eda753299d7d483339d80809a1d80553bda402fffe5bfeffffffff00000001nat
}

/// Two to the power of 255: the bound below which a block of random bytes is
/// brought before it is held against the group order.
pub open spec fn entropy_bound() -> nat {
    0x8000000000000000000000000000000000000000000000000000000000000000nat
}

/// The number of byte strings of a given length.
pub open spec fn pow256(len: nat) -> nat
    decreases len,
{
    if len == 0 {
        1
    } else {
        256 * pow256((len - 1) as nat)
    }
}

/// The number that a byte string denotes when its first byte weighs most.
pub open spec fn be_value(bytes: Seq<u8>) -> nat
    decreases bytes.len(),
{
    if bytes.len() == 0 {
        0
    } else {
        be_value(bytes.drop_last()) * 256 + bytes.last() as nat
    }
}

/// The number that a byte string denotes when its first byte weighs least.
pub open spec fn le_value(bytes: Seq<u8>) -> nat
    decreases bytes.len(),
{
    if bytes.len() == 0 {
        0
    } else {
        bytes.first() as nat + 256 * le_value(bytes.drop_first())
    }
}

/// The big-endian byte string of a given length that denotes a number.
pub open spec fn be_bytes(value: nat, len: nat) -> Seq<u8>
    decreases len,
{
    if len == 0 {
        Seq::empty()
    } else {
        be_bytes(value / 256, (len - 1) as nat).push((value % 256) as u8)
    }
}

/// A well-formed scalar: 32 bytes that denote a number below the group order.
pub open spec fn valid_scalar(bytes: Seq<u8>) -> bool {
    bytes.len() == SCALAR_LEN && be_value(bytes) < group_order()
}

/// The scalar that a block of 32 random bytes stands for: the block is read
/// with its first byte weighing least, its top bit is dropped, and what is
/// left is accepted if it is below the group order.
pub open spec fn scalar_of_entropy(entropy: Seq<u8>) -> Option<Seq<u8>> {
    let value = le_value(entropy) % entropy_bound();
    if value < group_order() {
        Some(be_bytes(value, SCALAR_LEN as nat))
    } else {
        None
    }
}

/// The sum of two scalars in the field of the group order.
pub open spec fn scalar_sum(a: Seq<u8>, b: Seq<u8>) -> Seq<u8> {
    be_bytes((be_value(a) + be_value(b)) % group_order(), SCALAR_LEN as nat)
}

/// A byte string written by `be_bytes` has the length that was asked for.
pub proof fn lemma_be_bytes_len(value: nat, len: nat)
    ensures
        be_bytes(value, len).len() == len,
    decreases len,
{
    if len > 0 {
        lemma_be_bytes_len(value / 256, (len - 1) as nat);
    }
}

/// A number that fits into `len` bytes is denoted by its byte string.
pub proof fn lemma_be_value_of_be_bytes(value: nat, len: nat)
    requires
        value < pow256(len),
    ensures
        be_value(be_bytes(value, len)) == value,
    decreases len,
{
    if len > 0 {
        let rest = be_bytes(value / 256, (len - 1) as nat);
        let bytes = be_bytes(value, len);
        lemma_be_value_of_be_bytes(value / 256, (len - 1) as nat);
        assert(bytes.drop_last() =~= rest);
        assert(bytes.last() == (value % 256) as u8);
        assert(bytes.len() > 0);
    }
}

/// The byte strings that denote zero are those of zero bytes.
pub proof fn lemma_zero_value(bytes: Seq<u8>)
    ensures
        be_value(bytes) == 0 <==> (forall|i: int| 0 <= i < bytes.len() ==> bytes[i] == 0),
    decreases bytes.len(),
{
    if bytes.len() > 0 {
        lemma_zero_value(bytes.drop_last());
        if be_value(bytes) == 0 {
            assert forall|i: int| 0 <= i < bytes.len() implies bytes[i] == 0 by {
                if i < bytes.len() - 1 {
                    assert(bytes.drop_last()[i] == bytes[i]);
                }
            }
        } else if forall|i: int| 0 <= i < bytes.len() ==> bytes[i] == 0 {
            assert forall|i: int| 0 <= i < bytes.drop_last().len() implies bytes.drop_last()[i]
                == 0 by {
                assert(bytes.drop_last()[i] == bytes[i]);
            }
            assert(bytes.last() == 0);
        }
    }
}

/// Every number below the group order fits into 32 bytes.
pub proof fn lemma_group_order_fits()
    ensures
        group_order() < pow256(SCALAR_LEN as nat),
{
    reveal_with_fuel(pow256, 33);
}

/// The byte string of a number below the group order is a well-formed
/// scalar that denotes the number.
pub proof fn lemma_scalar_of_value(value: nat)
    requires
        value < group_order(),
    ensures
        valid_scalar(be_bytes(value, SCALAR_LEN as nat)),
        be_value(be_bytes(value, SCALAR_LEN as nat)) == value,
{
    lemma_group_order_fits();
    lemma_be_bytes_len(value, SCALAR_LEN as nat);
    lemma_be_value_of_be_bytes(value, SCALAR_LEN as nat);
}

/// The sum of two scalars is a well-formed scalar, and denotes the sum of
/// the two numbers modulo the group order.
pub proof fn lemma_scalar_sum(a: Seq<u8>, b: Seq<u8>)
    ensures
        valid_scalar(scalar_sum(a, b)),
        be_value(scalar_sum(a, b)) == (be_value(a) + be_value(b)) % group_order(),
{
    lemma_scalar_of_value((be_value(a) + be_value(b)) % group_order());
}

/// Calls `PrimeFieldRepr::read_be` and `PrimeField::from_repr` on `Fr`. The
/// contract claims that the decoding succeeds exactly when the number that
/// the bytes denote is below the group order.
#[verifier::external_body]
pub(crate) fn scalar_check(bytes: &Vec<u8>) -> (ok: bool)
    requires
        bytes@.len() == SCALAR_LEN,
    ensures
        ok == (be_value(bytes@) < group_order()),
{
    let mut repr = FrRepr::default();
    repr.read_be(&bytes[..]).unwrap();
    Fr::from_repr(repr).is_ok()
}

/// Calls `PrimeField::from_random_bytes` on `Fr`. The contract claims that
/// the block is read as a little-endian number, that its top bit is dropped,
/// and that the number is accepted exactly when it is below the group order;
/// what comes back are the big-endian bytes of that number.
#[verifier::external_body]
pub(crate) fn scalar_from_entropy(entropy: &Vec<u8>) -> (out: Option<Vec<u8>>)
    requires
        entropy@.len() == ENTROPY_LEN,
    ensures
        match out {
            Some(scalar) => scalar_of_entropy(entropy@) == Some(scalar@),
            None => scalar_of_entropy(entropy@) is None,
        },
{
    let scalar = Fr::from_random_bytes(&entropy[..])?;
    let mut out = Vec::new();
    scalar.into_repr().write_be(&mut out).unwrap();
    Some(out)
}

/// Calls `Field::add_assign` on `Fr`. The contract claims that what comes
/// back are the big-endian bytes of the sum modulo the group order.
#[verifier::external_body]
pub(crate) fn scalar_add(a: &Vec<u8>, b: &Vec<u8>) -> (out: Vec<u8>)
    requires
        valid_scalar(a@),
        valid_scalar(b@),
    ensures
        out@ == scalar_sum(a@, b@),
{
    let mut repr = FrRepr::default();
    repr.read_be(&a[..]).unwrap();
    let mut sum = Fr::from_repr(repr).unwrap();
    repr.read_be(&b[..]).unwrap();
    sum.add_assign(&Fr::from_repr(repr).unwrap());
    let mut out = Vec::new();
    sum.into_repr().write_be(&mut out).unwrap();
    out
}

} // verus!
