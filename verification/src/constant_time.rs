//! Comparison of byte strings without a data-dependent exit.

use vstd::prelude::*;

verus! {

proof fn lemma_fold_difference(acc: u8, a: u8, b: u8)
    ensures
        (acc | (a ^ b)) == 0 <==> (acc == 0 && a == b),
{
    assert((acc | (a ^ b)) == 0 <==> (acc == 0 && a == b)) by (bit_vector);
}

proof fn lemma_fold_byte(acc: u8, a: u8)
    ensures
        (acc | a) == 0 <==> (acc == 0 && a == 0),
{
    assert((acc | a) == 0 <==> (acc == 0 && a == 0)) by (bit_vector);
}

/// Whether two byte strings are equal.
///
/// Strings of equal length are read to the end whatever they hold: the
/// differences of all positions are folded together and tested once.
pub fn bytes_equal(a: &Vec<u8>, b: &Vec<u8>) -> (equal: bool)
    ensures
        equal == (a@ == b@),
{
    if a.len() != b.len() {
        return false;
    }
    let mut folded: u8 = 0;
    let mut i: usize = 0;
    assert(a@.take(0) =~= b@.take(0));
    while i < a.len()
        invariant
            i <= a@.len(),
            a@.len() == b@.len(),
            folded == 0 <==> a@.take(i as int) == b@.take(i as int),
        decreases a@.len() - i,
    {
        proof {
            lemma_fold_difference(folded, a@[i as int], b@[i as int]);
            let next: int = i + 1;
            assert(a@.take(next).drop_last() == a@.take(i as int));
            assert(b@.take(next).drop_last() == b@.take(i as int));
            assert(a@.take(next).last() == a@[i as int]);
            assert(b@.take(next).last() == b@[i as int]);
            if a@.take(i as int) == b@.take(i as int) && a@[i as int] == b@[i as int] {
                assert(a@.take(next) == b@.take(next));
            }
        }
        folded = folded | (a[i] ^ b[i]);
        i += 1;
    }
    assert(a@.take(a@.len() as int) == a@);
    assert(b@.take(b@.len() as int) == b@);
    folded == 0
}

/// Whether every byte of a string is zero.
pub fn all_zero(bytes: &Vec<u8>) -> (zero: bool)
    ensures
        zero == is_all_zero(bytes@),
{
    let mut folded: u8 = 0;
    let mut i: usize = 0;
    while i < bytes.len()
        invariant
            i <= bytes@.len(),
            folded == 0 <==> is_all_zero(bytes@.take(i as int)),
        decreases bytes@.len() - i,
    {
        proof {
            lemma_fold_byte(folded, bytes@[i as int]);
            let next: int = i + 1;
            if is_all_zero(bytes@.take(next)) {
                assert forall|j: int| 0 <= j < i implies bytes@.take(i as int)[j] == 0 by {
                    assert(bytes@.take(next)[j] == 0);
                }
                assert(bytes@.take(next)[i as int] == 0);
            }
        }
        folded = folded | bytes[i];
        i += 1;
    }
    assert(bytes@.take(bytes@.len() as int) == bytes@);
    folded == 0
}

/// Whether every byte of a string is zero.
pub open spec fn is_all_zero(bytes: Seq<u8>) -> bool {
    forall|i: int| 0 <= i < bytes.len() ==> bytes[i] == 0
}

} // verus!
