//! Equality on fixed-size byte strings and on chain accounts.
use vstd::prelude::*;

use crate::types::ChainAccount;

verus! {

broadcast use vstd::array::group_array_axioms;

/// Compares two byte arrays of the same length, byte by byte.
pub fn bytes_eq<const N: usize>(a: &[u8; N], b: &[u8; N]) -> (r: bool)
    ensures
        r == (*a == *b),
{
    let mut i: usize = 0;
    while i < N
        invariant
            0 <= i <= N,
            forall|j: int| 0 <= j < i ==> a[j] == b[j],
        decreases N - i,
    {
        if a[i] != b[i] {
            assert(a@[i as int] != b@[i as int]);
            return false;
        }
        i = i + 1;
    }
    assert(*a =~= *b);
    true
}

/// Compares two chain accounts: same chain and same address bytes.
pub fn same_account(a: &ChainAccount, b: &ChainAccount) -> (r: bool)
    ensures
        r == (*a == *b),
{
    match (a, b) {
        (ChainAccount::Gate(x), ChainAccount::Gate(y)) => bytes_eq(x, y),
        (ChainAccount::Eth(x), ChainAccount::Eth(y)) => bytes_eq(x, y),
        _ => false,
    }
}

} // verus!
