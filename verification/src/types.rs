//! Plain value types and small verified helpers over them.

use vstd::prelude::*;

verus! {

/// A 32-byte on-chain account address.
pub type Address = [u8; 32];

/// A 32-byte hash value.
pub type Digest32 = [u8; 32];

/// Equality of two 32-byte values, stated over their views.
pub fn bytes32_eq(a: &[u8; 32], b: &[u8; 32]) -> (r: bool)
    ensures
        r <==> a@ == b@,
{
    let mut i: usize = 0;
    while i < 32
        invariant
            i <= 32,
            forall|j: int| 0 <= j < i ==> a@[j] == b@[j],
        decreases 32 - i,
    {
        if a[i] != b[i] {
            return false;
        }
        i = i + 1;
    }
    assert(a@ =~= b@);
    true
}

/// Whether `list` holds `a`, stated over the view of `list`.
pub fn contains_address(list: &Vec<Address>, a: &Address) -> (r: bool)
    ensures
        r <==> list@.contains(*a),
{
    let mut i: usize = 0;
    while i < list.len()
        invariant
            i <= list@.len(),
            forall|j: int| 0 <= j < i ==> list@[j] != *a,
        decreases list@.len() - i,
    {
        if bytes32_eq(&list[i], a) {
            assert(list@[i as int] =~= *a);
            return true;
        }
        i = i + 1;
    }
    false
}

} // verus!
