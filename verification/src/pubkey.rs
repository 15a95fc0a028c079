//! Public keys: the tips of the 32 hash chains.

use vstd::prelude::*;
use crate::address::WinternitzAddress;
use crate::chain::{chains, same_rows};
use crate::hash::WinternitzHash;
use crate::merkle::{merkle_node, node};

verus! {

/// The Merkle root of 32 chain tips.
pub open spec fn merkle_root<H: WinternitzHash>(tips: Seq<Seq<u8>>) -> Seq<u8> {
    node::<H>(tips, 0, 32)
}

/// The commitment to chain tips 28 to 31: the root of the subtree over them.
pub open spec fn pairing_root<H: WinternitzHash>(tips: Seq<Seq<u8>>) -> Seq<u8> {
    node::<H>(tips, 28, 4)
}

/// The address of 32 chain tips: the digest of their Merkle root.
pub open spec fn address_of<H: WinternitzHash>(tips: Seq<Seq<u8>>) -> Seq<u8> {
    H::digest(merkle_root::<H>(tips))
}

/// The 32 chain tips of a key pair, in chain order.
#[derive(Debug)]
pub struct WinternitzPubkey(pub [[u8; 32]; 32]);

impl View for WinternitzPubkey {
    type V = Seq<Seq<u8>>;

    open spec fn view(&self) -> Seq<Seq<u8>> {
        chains(self.0@)
    }
}

impl From<[[u8; 32]; 32]> for WinternitzPubkey {
    fn from(value: [[u8; 32]; 32]) -> (key: Self) {
        WinternitzPubkey(value)
    }
}

impl vstd::std_specs::convert::FromSpecImpl<[[u8; 32]; 32]> for WinternitzPubkey {
    open spec fn obeys_from_spec() -> bool {
        true
    }

    open spec fn from_spec(value: [[u8; 32]; 32]) -> Self {
        WinternitzPubkey(value)
    }
}

impl PartialEq for WinternitzPubkey {
    fn eq(&self, other: &Self) -> (same: bool) {
        same_rows(&self.0, &other.0)
    }
}

impl vstd::std_specs::cmp::PartialEqSpecImpl for WinternitzPubkey {
    open spec fn obeys_eq_spec() -> bool {
        true
    }

    open spec fn eq_spec(&self, other: &Self) -> bool {
        self@ == other@
    }
}

impl WinternitzPubkey {
    /// Reduces the 32 chain tips pairwise, lower index first, to one root.
    pub fn merklize<H: WinternitzHash>(&self) -> (root: [u8; 32])
        ensures
            root@ == merkle_root::<H>(self@),
    {
        merkle_node::<H>(&self.0, 0, 32)
    }

    /// The root of the subtree over chain tips 28 to 31.
    pub fn pairing_hash<H: WinternitzHash>(&self) -> (root: [u8; 32])
        ensures
            root@ == pairing_root::<H>(self@),
    {
        merkle_node::<H>(&self.0, 28, 4)
    }

    /// The address: the digest of the Merkle root.
    pub fn address<H: WinternitzHash>(&self) -> (address: WinternitzAddress)
        ensures
            address@ == address_of::<H>(self@),
    {
        WinternitzAddress::from(H::hash(&self.merklize::<H>()))
    }
}

} // verus!
