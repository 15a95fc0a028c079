//! Private keys: the seeds of the 32 hash chains.

use core::str::FromStr;
use vstd::prelude::*;
use crate::chain::{advance, chains, iterate, message_digest};
use crate::hash::WinternitzHash;
use crate::pubkey::WinternitzPubkey;
use crate::signature::WinternitzSignature;

verus! {

/// The tips of the chains that grow from `seeds`: each seed moved on by the
/// full chain length of 256 steps.
pub open spec fn chain_tips<H: WinternitzHash>(seeds: Seq<Seq<u8>>) -> Seq<Seq<u8>> {
    Seq::new(32, |i: int| iterate::<H>(seeds[i], 256))
}

/// The signature of `message` under `seeds`: seed `i` moved on by 256 less
/// byte `i` of the message digest.
pub open spec fn signed_chains<H: WinternitzHash>(
    seeds: Seq<Seq<u8>>,
    message: Seq<u8>,
) -> Seq<Seq<u8>> {
    Seq::new(
        32,
        |i: int| iterate::<H>(seeds[i], (256 - message_digest::<H>(message)[i]) as nat),
    )
}

/// The child numbers that `bip32` reads from a derivation path text, where it
/// accepts the text.
pub uninterp spec fn bip32_path(text: Seq<char>) -> Option<Seq<u32>>;

/// The private key bytes that `bip32` derives from a 64-byte seed along a
/// path of child numbers, where the derivation succeeds.
pub uninterp spec fn bip32_key(seed: Seq<u8>, path: Seq<u32>) -> Option<Seq<u8>>;

/// The 32 seeds derived from a master seed and a path text: seed `i` is the
/// private key of child `i` of the key at the path. There are none where the
/// text is no path or a derivation fails.
pub open spec fn derived_seeds(seed: Seq<u8>, path: Seq<char>) -> Option<Seq<Seq<u8>>> {
    match bip32_path(path) {
        Some(base) => {
            if forall|i: int| 0 <= i < 32 ==> bip32_key(seed, #[trigger] base.push(i as u32))
                is Some {
                Some(Seq::new(32, |i: int| bip32_key(seed, base.push(i as u32))->0))
            } else {
                None
            }
        },
        None => None,
    }
}

/// The error type of `bip32`.
#[verifier::external_type_specification]
#[verifier::external_body]
pub struct ExBip32Error(bip32::Error);

/// Calls `DerivationPath::from_str`, which reads a path text (`m`, then
/// child numbers after `/`, a hardened one marked by `'` or `h`) or refuses
/// it. The child numbers come back as the integers they are held as.
#[verifier::external_body]
fn parse_path(text: &str) -> (outcome: Result<Vec<u32>, bip32::Error>)
    ensures
        match outcome {
            Ok(path) => bip32_path(text@) == Some(path@),
            Err(_) => bip32_path(text@) is None,
        },
{
    bip32::DerivationPath::from_str(text).map(|path| path.iter().map(|child| child.0).collect())
}

/// Calls `XPrv::derive_from_path`, which makes the root key of `seed` and
/// derives a child for each number of `path` in turn, stopping at the first
/// derivation that fails. The key's 32 private bytes come back.
#[verifier::external_body]
fn derive_key(seed: &[u8; 64], path: &Vec<u32>) -> (outcome: Result<[u8; 32], bip32::Error>)
    ensures
        match outcome {
            Ok(key) => bip32_key(seed@, path@) == Some(key@),
            Err(_) => bip32_key(seed@, path@) is None,
        },
{
    let mut full = bip32::DerivationPath::default();
    full.extend(path.iter().map(|child| bip32::ChildNumber(*child)));
    bip32::XPrv::derive_from_path(&bip32::Seed::new(*seed), &full)
        .map(|key| key.private_key().to_bytes().into())
}

/// Calls `rand::random`, which fills the value from the thread-local
/// generator. Nothing is claimed of the bytes that come back.
#[verifier::external_body]
fn random_seeds() -> [[u8; 32]; 32] {
    rand::random()
}

/// A key could not be derived: the path text is malformed or a child
/// derivation failed. The fault of `bip32` is carried unchanged.
#[derive(Debug)]
pub struct DerivationError(pub bip32::Error);

/// The 32 seeds of a key pair, in chain order. A key signs one message.
#[derive(Debug)]
pub struct WinternitzPrivkey(pub [[u8; 32]; 32]);

impl View for WinternitzPrivkey {
    type V = Seq<Seq<u8>>;

    open spec fn view(&self) -> Seq<Seq<u8>> {
        chains(self.0@)
    }
}

impl From<[[u8; 32]; 32]> for WinternitzPrivkey {
    fn from(value: [[u8; 32]; 32]) -> (key: Self) {
        WinternitzPrivkey(value)
    }
}

impl vstd::std_specs::convert::FromSpecImpl<[[u8; 32]; 32]> for WinternitzPrivkey {
    open spec fn obeys_from_spec() -> bool {
        true
    }

    open spec fn from_spec(value: [[u8; 32]; 32]) -> Self {
        WinternitzPrivkey(value)
    }
}

impl WinternitzPrivkey {
    /// A fresh key of 32 random seeds.
    #[inline(always)]
    pub fn generate() -> Self {
        WinternitzPrivkey(random_seeds())
    }

    /// Derives a key from a master seed and a derivation path: seed `i` is
    /// the private key of child `i` of the key at `path`.
    pub fn from_seed(seed: [u8; 64], path: &str) -> (outcome: Result<Self, DerivationError>)
        ensures
            match outcome {
                Ok(key) => derived_seeds(seed@, path@) == Some(key@),
                Err(_) => derived_seeds(seed@, path@) is None,
            },
    {
        let mut children = match parse_path(path) {
            Ok(base) => base,
            Err(fault) => {
                return Err(DerivationError(fault));
            },
        };
        let ghost base = children@;
        let mut seeds: [[u8; 32]; 32] = [[0u8; 32]; 32];
        let mut i: u32 = 0;
        while i < 32
            invariant
                i <= 32,
                children@ == base,
                bip32_path(path@) == Some(base),
                forall|j: int|
                    0 <= j < i ==> bip32_key(seed@, #[trigger] base.push(j as u32)) == Some(
                        seeds@[j]@,
                    ),
            decreases 32 - i,
        {
            children.push(i);
            match derive_key(&seed, &children) {
                Ok(child) => {
                    seeds[i as usize] = child;
                },
                Err(fault) => {
                    return Err(DerivationError(fault));
                },
            }
            children.pop();
            i += 1;
        }
        assert(chains(seeds@) =~= Seq::new(
            32,
            |i: int| bip32_key(seed@, base.push(i as u32))->0,
        ));
        Ok(WinternitzPrivkey(seeds))
    }

    /// Signs `message`: chain `i` is walked from its seed for 256 steps less
    /// byte `i` of the message digest.
    #[inline(always)]
    pub fn sign<H: WinternitzHash>(&self, message: &[u8]) -> (signature: WinternitzSignature)
        ensures
            signature@ == signed_chains::<H>(self@, message@),
    {
        let v: [u8; 32] = H::hashd(message);
        let mut sig: [[u8; 32]; 32] = self.0;
        let mut i: usize = 0;
        while i < 32
            invariant
                i <= 32,
                forall|j: int| 0 <= j < i ==> sig@[j]@ == iterate::<H>(
                    self.0@[j]@,
                    (256 - v@[j]) as nat,
                ),
            decreases 32 - i,
        {
            let steps: u16 = 256 - v[i] as u16;
            sig[i] = advance::<H>(&self.0[i], steps);
            i += 1;
        }
        WinternitzSignature::from(sig)
    }

    /// Derives the public key: every chain walked from its seed to its tip.
    #[inline(always)]
    pub fn pubkey<H: WinternitzHash>(&self) -> (pubkey: WinternitzPubkey)
        ensures
            pubkey@ == chain_tips::<H>(self@),
    {
        let mut tips: [[u8; 32]; 32] = self.0;
        let mut i: usize = 0;
        while i < 32
            invariant
                i <= 32,
                forall|j: int| 0 <= j < i ==> tips@[j]@ == iterate::<H>(self.0@[j]@, 256),
            decreases 32 - i,
        {
            tips[i] = advance::<H>(&self.0[i], 256);
            i += 1;
        }
        WinternitzPubkey::from(tips)
    }
}

} // verus!
