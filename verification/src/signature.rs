//! Signatures, their recovery to chain tips, and the two-part split.

use vstd::prelude::*;
use crate::address::WinternitzAddress;
use crate::chain::{advance, chains, iterate, message_digest, same_rows};
use crate::hash::WinternitzHash;
use crate::merkle::{merkle_node, node};
use crate::pubkey::{address_of, pairing_root, WinternitzPubkey};

verus! {

/// The candidate tips of the chains in `part`, where `part[i]` is the value
/// of chain `first + i`: each value moved on by as many steps as the digest
/// byte of its chain says.
pub open spec fn tips_from<H: WinternitzHash>(
    part: Seq<Seq<u8>>,
    message: Seq<u8>,
    first: int,
) -> Seq<Seq<u8>> {
    Seq::new(
        part.len(),
        |i: int| iterate::<H>(part[i], message_digest::<H>(message)[first + i] as nat),
    )
}

/// The candidate tips of all 32 chains of a signature.
pub open spec fn recovered_tips<H: WinternitzHash>(
    signature: Seq<Seq<u8>>,
    message: Seq<u8>,
) -> Seq<Seq<u8>> {
    tips_from::<H>(signature, message, 0)
}

/// Direct verification: every candidate tip of `signature` under `message`
/// is the tip that `tips` holds for its chain. One chain that differs
/// rejects the whole signature.
pub open spec fn verifies<H: WinternitzHash>(
    signature: Seq<Seq<u8>>,
    message: Seq<u8>,
    tips: Seq<Seq<u8>>,
) -> bool {
    recovered_tips::<H>(signature, message) == tips
}

/// Compact verification: the candidate tips of `signature` under `message`
/// have the address `address`.
pub open spec fn verifies_address<H: WinternitzHash>(
    signature: Seq<Seq<u8>>,
    message: Seq<u8>,
    address: Seq<u8>,
) -> bool {
    address_of::<H>(recovered_tips::<H>(signature, message)) == address
}

/// The Merkle root over the tips of chains 0 to 27, with `pairing` standing
/// in for the subtree over chains 28 to 31.
pub open spec fn spliced_root<H: WinternitzHash>(tips: Seq<Seq<u8>>, pairing: Seq<u8>) -> Seq<u8> {
    let upper = H::digest(node::<H>(tips, 24, 4) + pairing);
    let right = H::digest(node::<H>(tips, 16, 8) + upper);
    H::digest(node::<H>(tips, 0, 16) + right)
}

/// The pairing hash that chains 28 to 31 of a signature recover.
pub open spec fn recovered_pairing<H: WinternitzHash>(
    execute: Seq<Seq<u8>>,
    message: Seq<u8>,
) -> Seq<u8> {
    node::<H>(tips_from::<H>(execute, message, 28), 0, 4)
}

/// The address that chains 0 to 27 of a signature recover, given a pairing
/// hash for the other four.
pub open spec fn recovered_address<H: WinternitzHash>(
    prime: Seq<Seq<u8>>,
    message: Seq<u8>,
    pairing: Seq<u8>,
) -> Seq<u8> {
    H::digest(spliced_root::<H>(tips_from::<H>(prime, message, 0), pairing))
}

/// Moves every value of `row` on by the count of its chain, where `row[i]`
/// belongs to chain `first + i`.
fn recover_row<H: WinternitzHash, const N: usize>(
    row: &[[u8; 32]; N],
    counts: &[u8; 32],
    first: usize,
) -> (tips: [[u8; 32]; N])
    requires
        first + N <= 32,
    ensures
        chains(tips@) == Seq::new(
            N as nat,
            |i: int| iterate::<H>(row@[i]@, counts@[first + i] as nat),
        ),
{
    let mut tips: [[u8; 32]; N] = *row;
    let mut i: usize = 0;
    while i < N
        invariant
            i <= N,
            first + N <= 32,
            forall|j: int| 0 <= j < i ==> tips@[j]@ == iterate::<H>(
                row@[j]@,
                counts@[first + j] as nat,
            ),
        decreases N - i,
    {
        let count: u8 = counts[first + i];
        tips[i] = advance::<H>(&row[i], count as u16);
        i += 1;
    }
    assert(chains(tips@) =~= Seq::new(
        N as nat,
        |i: int| iterate::<H>(row@[i]@, counts@[first + i] as nat),
    ));
    tips
}

/// The 32 partial chain values that sign one message.
#[derive(Debug)]
pub struct WinternitzSignature(pub [[u8; 32]; 32]);

/// The values of chains 0 to 27 of a signature.
#[derive(Debug)]
pub struct WinternitzPrimeSignature(pub [[u8; 32]; 28]);

/// The values of chains 28 to 31 of a signature.
#[derive(Debug)]
pub struct WinternitzExecuteSignature(pub [[u8; 32]; 4]);

impl View for WinternitzSignature {
    type V = Seq<Seq<u8>>;

    open spec fn view(&self) -> Seq<Seq<u8>> {
        chains(self.0@)
    }
}

impl View for WinternitzPrimeSignature {
    type V = Seq<Seq<u8>>;

    open spec fn view(&self) -> Seq<Seq<u8>> {
        chains(self.0@)
    }
}

impl View for WinternitzExecuteSignature {
    type V = Seq<Seq<u8>>;

    open spec fn view(&self) -> Seq<Seq<u8>> {
        chains(self.0@)
    }
}

impl From<[[u8; 32]; 32]> for WinternitzSignature {
    fn from(value: [[u8; 32]; 32]) -> (signature: Self) {
        WinternitzSignature(value)
    }
}

impl vstd::std_specs::convert::FromSpecImpl<[[u8; 32]; 32]> for WinternitzSignature {
    open spec fn obeys_from_spec() -> bool {
        true
    }

    open spec fn from_spec(value: [[u8; 32]; 32]) -> Self {
        WinternitzSignature(value)
    }
}

impl PartialEq for WinternitzSignature {
    fn eq(&self, other: &Self) -> (same: bool) {
        same_rows(&self.0, &other.0)
    }
}

impl vstd::std_specs::cmp::PartialEqSpecImpl for WinternitzSignature {
    open spec fn obeys_eq_spec() -> bool {
        true
    }

    open spec fn eq_spec(&self, other: &Self) -> bool {
        self@ == other@
    }
}

impl PartialEq for WinternitzPrimeSignature {
    fn eq(&self, other: &Self) -> (same: bool) {
        same_rows(&self.0, &other.0)
    }
}

impl vstd::std_specs::cmp::PartialEqSpecImpl for WinternitzPrimeSignature {
    open spec fn obeys_eq_spec() -> bool {
        true
    }

    open spec fn eq_spec(&self, other: &Self) -> bool {
        self@ == other@
    }
}

impl PartialEq for WinternitzExecuteSignature {
    fn eq(&self, other: &Self) -> (same: bool) {
        same_rows(&self.0, &other.0)
    }
}

impl vstd::std_specs::cmp::PartialEqSpecImpl for WinternitzExecuteSignature {
    open spec fn obeys_eq_spec() -> bool {
        true
    }

    open spec fn eq_spec(&self, other: &Self) -> bool {
        self@ == other@
    }
}

impl WinternitzPrimeSignature {
    /// The candidate address of the signer, from chains 0 to 27 and a pairing
    /// hash that stands in for chains 28 to 31.
    pub fn recover_address<H: WinternitzHash>(
        &self,
        message: &[u8],
        pairing_hash: &[u8; 32],
    ) -> (address: WinternitzAddress)
        ensures
            address@ == recovered_address::<H>(self@, message@, pairing_hash@),
    {
        let v = H::hashd(message);
        let h = recover_row::<H, 28>(&self.0, &v, 0);
        assert(chains(h@) =~= tips_from::<H>(self@, message@, 0));
        let low = merkle_node::<H>(&h, 0, 16);
        let mid = merkle_node::<H>(&h, 16, 8);
        let high = merkle_node::<H>(&h, 24, 4);
        let upper = H::hash_pair(&high, pairing_hash);
        let right = H::hash_pair(&mid, &upper);
        let root = H::hash_pair(&low, &right);
        WinternitzAddress::from(H::hash(&root))
    }
}

impl WinternitzExecuteSignature {
    /// The candidate pairing hash, from chains 28 to 31.
    pub fn recover_pairing_hash<H: WinternitzHash>(&self, message: &[u8]) -> (pairing: [u8; 32])
        ensures
            pairing@ == recovered_pairing::<H>(self@, message@),
    {
        let v = H::hashd(message);
        let h = recover_row::<H, 4>(&self.0, &v, 28);
        assert(chains(h@) =~= tips_from::<H>(self@, message@, 28));
        merkle_node::<H>(&h, 0, 4)
    }
}

impl WinternitzSignature {
    /// The candidate public key: every chain moved on to its tip.
    pub fn recover_pubkey<H: WinternitzHash>(&self, message: &[u8]) -> (pubkey: WinternitzPubkey)
        ensures
            pubkey@ == recovered_tips::<H>(self@, message@),
    {
        let v = H::hashd(message);
        let tips = recover_row::<H, 32>(&self.0, &v, 0);
        WinternitzPubkey::from(tips)
    }

    /// Direct verification: whether every candidate tip is the tip that
    /// `pubkey` holds for its chain.
    pub fn verify<H: WinternitzHash>(&self, message: &[u8], pubkey: &WinternitzPubkey) -> (ok:
        bool)
        ensures
            ok == verifies::<H>(self@, message@, pubkey@),
    {
        self.recover_pubkey::<H>(message) == *pubkey
    }

    /// Compact verification: whether the candidate tips have the address
    /// `address`.
    pub fn verify_address<H: WinternitzHash>(
        &self,
        message: &[u8],
        address: &WinternitzAddress,
    ) -> (ok: bool)
        ensures
            ok == verifies_address::<H>(self@, message@, address@),
    {
        self.recover_pubkey::<H>(message).address::<H>() == *address
    }

    /// Parts a signature for verification in two stages: the pairing hash of
    /// the recovered tips 28 to 31, chains 0 to 27, and chains 28 to 31.
    pub fn split<H: WinternitzHash>(&self, message: &[u8]) -> (parts: (
        [u8; 32],
        WinternitzPrimeSignature,
        WinternitzExecuteSignature,
    ))
        ensures
            parts.0@ == pairing_root::<H>(recovered_tips::<H>(self@, message@)),
            parts.1@ == self@.subrange(0, 28),
            parts.2@ == self@.subrange(28, 32),
    {
        let pairing_hash = self.recover_pubkey::<H>(message).pairing_hash::<H>();
        let mut prime: [[u8; 32]; 28] = [[0u8; 32]; 28];
        let mut i: usize = 0;
        while i < 28
            invariant
                i <= 28,
                forall|j: int| 0 <= j < i ==> prime@[j] == self.0@[j],
            decreases 28 - i,
        {
            prime[i] = self.0[i];
            i += 1;
        }
        let mut execute: [[u8; 32]; 4] = [[0u8; 32]; 4];
        let mut k: usize = 0;
        while k < 4
            invariant
                k <= 4,
                forall|j: int| 0 <= j < k ==> execute@[j] == self.0@[28 + j],
            decreases 4 - k,
        {
            execute[k] = self.0[28 + k];
            k += 1;
        }
        (pairing_hash, WinternitzPrimeSignature(prime), WinternitzExecuteSignature(execute))
    }
}

} // verus!
