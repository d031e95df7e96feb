//! Small operations on byte strings.

use vstd::prelude::*;

verus! {

/// Copies a byte string.
pub fn copy_of(bytes: &Vec<u8>) -> (copy: Vec<u8>)
    ensures
        copy@ == bytes@,
{
    let mut copy: Vec<u8> = Vec::new();
    let mut i: usize = 0;
    while i < bytes.len()
        invariant
            i <= bytes.len(),
            copy@ == bytes@.take(i as int),
        decreases bytes.len() - i,
    {
        copy.push(bytes[i]);
        i += 1;
    }
    copy
}

/// Compares two byte strings byte by byte and without stopping at the first
/// difference, so that the time taken depends on the lengths alone.
pub fn constant_time_eq(left: &[u8], right: &[u8]) -> (equal: bool)
    ensures
        equal == (left@ == right@),
{
    if left.len() != right.len() {
        return false;
    }
    let mut difference: u8 = 0;
    let mut i: usize = 0;
    while i < right.len()
        invariant
            i <= right.len(),
            right.len() == left.len(),
            (difference == 0) == (left@.take(i as int) =~= right@.take(i as int)),
        decreases right.len() - i,
    {
        let a = left[i];
        let b = right[i];
        proof {
            assert((difference | (a ^ b)) == 0 <==> difference == 0 && a == b) by (bit_vector);
            if left@.take(i + 1) == right@.take(i + 1) {
                assert(left@.take(i + 1).last() == right@.take(i + 1).last());
            }
        }
        difference = difference | (a ^ b);
        i += 1;
    }
    proof {
        assert(left@.take(i as int) == left@);
        assert(right@.take(i as int) == right@);
    }
    difference == 0
}

} // verus!
