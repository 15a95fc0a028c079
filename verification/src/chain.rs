//! Hash chains: repeated application of the backend's digest.

use vstd::prelude::*;
use crate::hash::WinternitzHash;

verus! {

/// The byte strings of a row of 32-byte values, in order.
pub open spec fn chains(rows: Seq<[u8; 32]>) -> Seq<Seq<u8>> {
    rows.map_values(|row: [u8; 32]| row@)
}

/// The value `n` applications of the digest away from `x`.
pub open spec fn iterate<H: WinternitzHash>(x: Seq<u8>, n: nat) -> Seq<u8>
    decreases n,
{
    if n == 0 {
        x
    } else {
        H::digest(iterate::<H>(x, (n - 1) as nat))
    }
}

/// The digest that a message is signed under: the digest of its digest.
/// Byte `i` of it governs chain `i` and no other.
pub open spec fn message_digest<H: WinternitzHash>(message: Seq<u8>) -> Seq<u8> {
    H::digest(H::digest(message))
}

/// Walking `a` steps and then `b` more is walking `a + b` steps.
pub proof fn lemma_iterate_add<H: WinternitzHash>(x: Seq<u8>, a: nat, b: nat)
    ensures
        iterate::<H>(iterate::<H>(x, a), b) == iterate::<H>(x, a + b),
    decreases b,
{
    if b > 0 {
        lemma_iterate_add::<H>(x, a, (b - 1) as nat);
    }
}

/// One step from `x` is the digest of `x`.
pub proof fn lemma_iterate_one<H: WinternitzHash>(x: Seq<u8>)
    ensures
        iterate::<H>(x, 1) == H::digest(x),
{
    assert(iterate::<H>(x, 0) == x);
}

/// Whether the digest takes `x` and `y`, which differ, to one value.
pub open spec fn collide<H: WinternitzHash>(x: Seq<u8>, y: Seq<u8>) -> bool {
    x != y && H::digest(x) == H::digest(y)
}

/// Two values that differ and are the same after `n` steps pass a collision
/// of the digest on the way: at some step before `n` they still differ, and
/// one step later they are one.
pub proof fn lemma_same_end_needs_collision<H: WinternitzHash>(a: Seq<u8>, b: Seq<u8>, n: nat)
    requires
        a != b,
        iterate::<H>(a, n) == iterate::<H>(b, n),
    ensures
        exists|k: nat| k < n && collide::<H>(#[trigger] iterate::<H>(a, k), iterate::<H>(b, k)),
    decreases n,
{
    if n > 0 {
        let before = (n - 1) as nat;
        if iterate::<H>(a, before) == iterate::<H>(b, before) {
            lemma_same_end_needs_collision::<H>(a, b, before);
        } else {
            assert(collide::<H>(iterate::<H>(a, before), iterate::<H>(b, before)));
        }
    }
}

/// A row is determined by the byte strings it holds.
pub proof fn lemma_rows_determined<const N: usize>(a: [[u8; 32]; N], b: [[u8; 32]; N])
    requires
        chains(a@) == chains(b@),
    ensures
        a == b,
{
    assert forall|i: int| 0 <= i < N implies a[i] == b[i] by {
        assert(chains(a@)[i] == chains(b@)[i]);
    }
}

/// Applies the hash `steps` times, starting from `start`.
pub fn advance<H: WinternitzHash>(start: &[u8; 32], steps: u16) -> (end: [u8; 32])
    ensures
        end@ == iterate::<H>(start@, steps as nat),
{
    let mut value: [u8; 32] = *start;
    let mut done: u16 = 0;
    while done < steps
        invariant
            done <= steps,
            value@ == iterate::<H>(start@, done as nat),
        decreases steps - done,
    {
        value = H::hash(&value);
        done += 1;
    }
    value
}

/// Whether two 32-byte values hold the same bytes.
pub fn same_bytes(a: &[u8; 32], b: &[u8; 32]) -> (same: bool)
    ensures
        same == (a@ == b@),
{
    let mut i: usize = 0;
    while i < 32
        invariant
            i <= 32,
            forall|j: int| 0 <= j < i ==> a@[j] == b@[j],
        decreases 32 - i,
    {
        if a[i] != b[i] {
            return false;
        }
        i += 1;
    }
    assert(a@ =~= b@);
    true
}

/// Whether two rows hold the same values at every position.
pub fn same_rows<const N: usize>(a: &[[u8; 32]; N], b: &[[u8; 32]; N]) -> (same: bool)
    ensures
        same == (chains(a@) == chains(b@)),
{
    let mut i: usize = 0;
    while i < N
        invariant
            i <= N,
            forall|j: int| 0 <= j < i ==> chains(a@)[j] == chains(b@)[j],
        decreases N - i,
    {
        if !same_bytes(&a[i], &b[i]) {
            assert(chains(a@)[i as int] != chains(b@)[i as int]);
            return false;
        }
        i += 1;
    }
    assert(chains(a@) =~= chains(b@));
    true
}

} // verus!
