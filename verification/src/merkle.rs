//! Pairwise reduction of an ordered row of leaves to one root.

use vstd::prelude::*;
use crate::chain::chains;
use crate::hash::WinternitzHash;

verus! {

/// The root of the binary tree over the `span` leaves that start at `first`.
///
/// A tree over one leaf is that leaf. A wider tree is parted in the middle
/// and hashes the root of its left part followed by the root of its right
/// part, so that a leaf with a lower index always stands before one with a
/// higher index. Over a span that is a power of two the parts are halves, and
/// the tree is the pairwise reduction of its leaves, level by level.
pub open spec fn node<H: WinternitzHash>(leaves: Seq<Seq<u8>>, first: int, span: nat) -> Seq<u8>
    decreases span,
{
    if span <= 1 {
        leaves[first]
    } else {
        let left = span / 2;
        let right = (span - left) as nat;
        H::digest(node::<H>(leaves, first, left) + node::<H>(leaves, first + left, right))
    }
}

/// A tree depends on the leaves under it and on nothing else: where row `b`,
/// moved by `shift`, agrees with row `a` on a window of `span` leaves, the
/// two have the same root there.
pub proof fn lemma_node_window<H: WinternitzHash>(
    a: Seq<Seq<u8>>,
    b: Seq<Seq<u8>>,
    first: int,
    shift: int,
    span: nat,
)
    requires
        span >= 1,
        forall|j: int| first <= j < first + span ==> #[trigger] a[j] == b[j + shift],
    ensures
        node::<H>(a, first, span) == node::<H>(b, first + shift, span),
    decreases span,
{
    if span > 1 {
        let left = span / 2;
        lemma_node_window::<H>(a, b, first, shift, left);
        lemma_node_window::<H>(a, b, first + left, shift, (span - left) as nat);
    }
}

/// One level of the reduction: the nodes paired up in index order, (0, 1),
/// (2, 3) and so on, each pair hashed with the lower index first.
pub open spec fn pair_up<H: WinternitzHash>(nodes: Seq<Seq<u8>>) -> Seq<Seq<u8>> {
    Seq::new(nodes.len() / 2, |i: int| H::digest(nodes[2 * i] + nodes[2 * i + 1]))
}

/// Whether `n` is 1, 2, 4, 8 and so on.
pub open spec fn is_power_of_two(n: nat) -> bool
    decreases n,
{
    n == 1 || (n >= 2 && n % 2 == 0 && is_power_of_two(n / 2))
}

/// The spans of the trees over 32 leaves are powers of two.
pub proof fn lemma_spans_are_powers_of_two()
    ensures
        is_power_of_two(1),
        is_power_of_two(2),
        is_power_of_two(4),
        is_power_of_two(8),
        is_power_of_two(16),
        is_power_of_two(32),
{
    reveal_with_fuel(is_power_of_two, 6);
}

/// The tree over a window of the leaves is the tree over the matching window
/// of the level above them, which is half as wide.
pub proof fn lemma_node_by_levels<H: WinternitzHash>(leaves: Seq<Seq<u8>>, first: int, span: nat)
    requires
        span >= 2,
        is_power_of_two(span),
        0 <= first,
        first % 2 == 0,
        first + span <= leaves.len(),
    ensures
        node::<H>(leaves, first, span) == node::<H>(pair_up::<H>(leaves), first / 2, span / 2),
    decreases span,
{
    if span == 2 {
        assert(node::<H>(leaves, first, 1) == leaves[first]);
        assert(node::<H>(leaves, first + 1, 1) == leaves[first + 1]);
    } else {
        let half = span / 2;
        assert(is_power_of_two(half));
        lemma_node_by_levels::<H>(leaves, first, half);
        lemma_node_by_levels::<H>(leaves, first + half, half);
    }
}

/// Computes the root of the tree over `leaves[first .. first + span]`.
pub fn merkle_node<H: WinternitzHash>(leaves: &[[u8; 32]], first: usize, span: usize) -> (root:
    [u8; 32])
    requires
        1 <= span,
        first + span <= leaves.len(),
    ensures
        root@ == node::<H>(chains(leaves@), first as int, span as nat),
    decreases span,
{
    if span == 1 {
        leaves[first]
    } else {
        let half: usize = span / 2;
        let left = merkle_node::<H>(leaves, first, half);
        let right = merkle_node::<H>(leaves, first + half, span - half);
        H::hash_pair(&left, &right)
    }
}

} // verus!
