//! What holds between key derivation, signing, recovery and the split.
//!
//! Each law is stated over the same spec functions that the contracts of the
//! executable functions use, for every key, every message and every backend.

use vstd::prelude::*;
use crate::chain::{
    collide, iterate, lemma_iterate_add, lemma_iterate_one, lemma_rows_determined,
    lemma_same_end_needs_collision, message_digest,
};
use crate::hash::WinternitzHash;
use crate::merkle::{
    lemma_node_by_levels, lemma_node_window, lemma_spans_are_powers_of_two, node, pair_up,
};
use crate::privkey::{chain_tips, signed_chains, WinternitzPrivkey};
use crate::pubkey::{address_of, merkle_root, pairing_root, WinternitzPubkey};
use crate::signature::{
    recovered_address, recovered_pairing, recovered_tips, tips_from, verifies, verifies_address,
    WinternitzSignature,
};

verus! {

/// Round trip: a key's signature of a message verifies under that message,
/// directly against the key's public key and compactly against the key's
/// address. The tips recovered from it are the public key itself.
pub proof fn lemma_signature_verifies<H: WinternitzHash>(key: WinternitzPrivkey, message: Seq<u8>)
    ensures
        verifies::<H>(signed_chains::<H>(key@, message), message, chain_tips::<H>(key@)),
        verifies_address::<H>(
            signed_chains::<H>(key@, message),
            message,
            address_of::<H>(chain_tips::<H>(key@)),
        ),
        recovered_tips::<H>(signed_chains::<H>(key@, message), message) == chain_tips::<H>(key@),
{
    let digest = message_digest::<H>(message);
    let signature = signed_chains::<H>(key@, message);
    assert forall|i: int| 0 <= i < 32 implies recovered_tips::<H>(signature, message)[i]
        == chain_tips::<H>(key@)[i] by {
        lemma_iterate_add::<H>(key@[i], (256 - digest[i]) as nat, digest[i] as nat);
    }
    assert(recovered_tips::<H>(signature, message) =~= chain_tips::<H>(key@));
}

/// What an altered signature takes: where two signatures both verify
/// against the same tips under one message and differ in chain `i`, the two
/// values of that chain pass a collision of the backend within the steps
/// that the digest byte of the chain counts. Where that byte is 0 there is
/// no step to take, and no altered value verifies.
pub proof fn lemma_altered_chain_needs_collision<H: WinternitzHash>(
    signature: Seq<Seq<u8>>,
    altered: Seq<Seq<u8>>,
    message: Seq<u8>,
    tips: Seq<Seq<u8>>,
    i: int,
)
    requires
        signature.len() == 32,
        altered.len() == 32,
        0 <= i < 32,
        altered[i] != signature[i],
        verifies::<H>(signature, message, tips),
        verifies::<H>(altered, message, tips),
    ensures
        exists|k: nat|
            k < message_digest::<H>(message)[i] && collide::<H>(
                #[trigger] iterate::<H>(altered[i], k),
                iterate::<H>(signature[i], k),
            ),
{
    let steps = message_digest::<H>(message)[i] as nat;
    assert(recovered_tips::<H>(signature, message)[i] == iterate::<H>(signature[i], steps));
    assert(recovered_tips::<H>(altered, message)[i] == iterate::<H>(altered[i], steps));
    lemma_same_end_needs_collision::<H>(altered[i], signature[i], steps);
}

/// Determinism of key derivation: two public keys that both meet the
/// contract of `pubkey` for one private key are equal, byte for byte.
pub proof fn lemma_pubkey_determined<H: WinternitzHash>(
    key: WinternitzPrivkey,
    first: WinternitzPubkey,
    second: WinternitzPubkey,
)
    requires
        first@ == chain_tips::<H>(key@),
        second@ == chain_tips::<H>(key@),
    ensures
        first == second,
{
    lemma_rows_determined(first.0, second.0);
}

/// Determinism of signing: two signatures that both meet the contract of
/// `sign` for one key and one message are equal, byte for byte.
pub proof fn lemma_signature_determined<H: WinternitzHash>(
    key: WinternitzPrivkey,
    message: Seq<u8>,
    first: WinternitzSignature,
    second: WinternitzSignature,
)
    requires
        first@ == signed_chains::<H>(key@, message),
        second@ == signed_chains::<H>(key@, message),
    ensures
        first == second,
{
    lemma_rows_determined(first.0, second.0);
}

/// Zero digest byte: where byte `i` of the message digest is 0, the
/// signature reveals the whole chain `i`, that is the public key's tip.
pub proof fn lemma_zero_byte_reveals_tip<H: WinternitzHash>(
    key: WinternitzPrivkey,
    message: Seq<u8>,
    i: int,
)
    requires
        0 <= i < 32,
        message_digest::<H>(message)[i] == 0,
    ensures
        signed_chains::<H>(key@, message)[i] == chain_tips::<H>(key@)[i],
{
}

/// Greatest digest byte: where byte `i` of the message digest is 255, the
/// signature value of chain `i` is one hash application away from the seed.
pub proof fn lemma_max_byte_is_one_step<H: WinternitzHash>(
    key: WinternitzPrivkey,
    message: Seq<u8>,
    i: int,
)
    requires
        0 <= i < 32,
        message_digest::<H>(message)[i] == 255,
    ensures
        signed_chains::<H>(key@, message)[i] == H::digest(key@[i]),
{
    lemma_iterate_one::<H>(key@[i]);
}

/// Address consistency: the address of a key is the digest of the Merkle
/// root of its public key.
pub proof fn lemma_address_is_digest_of_root<H: WinternitzHash>(key: WinternitzPrivkey)
    ensures
        address_of::<H>(chain_tips::<H>(key@)) == H::digest(
            merkle_root::<H>(chain_tips::<H>(key@)),
        ),
{
}

/// The pairing hash pairs tips 28 with 29 and 30 with 31, and then the two
/// results, each time with the lower index first.
pub proof fn lemma_pairing_root_pairs<H: WinternitzHash>(tips: Seq<Seq<u8>>)
    ensures
        pairing_root::<H>(tips) == H::digest(
            H::digest(tips[28] + tips[29]) + H::digest(tips[30] + tips[31]),
        ),
{
    assert(node::<H>(tips, 28, 1) == tips[28]);
    assert(node::<H>(tips, 29, 1) == tips[29]);
    assert(node::<H>(tips, 30, 1) == tips[30]);
    assert(node::<H>(tips, 31, 1) == tips[31]);
    assert(node::<H>(tips, 28, 2) == H::digest(tips[28] + tips[29]));
    assert(node::<H>(tips, 30, 2) == H::digest(tips[30] + tips[31]));
}

/// The Merkle root is what five rounds of pairing up leave: 32 tips become
/// 16 nodes, then 8, 4, 2 and the one root.
pub proof fn lemma_merkle_root_by_levels<H: WinternitzHash>(tips: Seq<Seq<u8>>)
    requires
        tips.len() == 32,
    ensures
        merkle_root::<H>(tips) == pair_up::<H>(
            pair_up::<H>(pair_up::<H>(pair_up::<H>(pair_up::<H>(tips)))),
        )[0],
{
    let sixteen = pair_up::<H>(tips);
    let eight = pair_up::<H>(sixteen);
    let four = pair_up::<H>(eight);
    let two = pair_up::<H>(four);
    let one = pair_up::<H>(two);
    lemma_spans_are_powers_of_two();
    lemma_node_by_levels::<H>(tips, 0, 32);
    lemma_node_by_levels::<H>(sixteen, 0, 16);
    lemma_node_by_levels::<H>(eight, 0, 8);
    lemma_node_by_levels::<H>(four, 0, 4);
    lemma_node_by_levels::<H>(two, 0, 2);
}

/// The two stages of split verification, run on the two parts of any
/// signature, recover what recovery of the whole signature does: the
/// execute part recovers the pairing hash of the candidate tips, and the
/// prime part, given that pairing hash, recovers their address.
pub proof fn lemma_split_agrees_with_recovery<H: WinternitzHash>(
    signature: Seq<Seq<u8>>,
    message: Seq<u8>,
)
    requires
        signature.len() == 32,
    ensures
        recovered_pairing::<H>(signature.subrange(28, 32), message) == pairing_root::<H>(
            recovered_tips::<H>(signature, message),
        ),
        recovered_address::<H>(
            signature.subrange(0, 28),
            message,
            pairing_root::<H>(recovered_tips::<H>(signature, message)),
        ) == address_of::<H>(recovered_tips::<H>(signature, message)),
{
    let tips = recovered_tips::<H>(signature, message);
    let low = tips_from::<H>(signature.subrange(0, 28), message, 0);
    let high = tips_from::<H>(signature.subrange(28, 32), message, 28);
    assert forall|j: int| 0 <= j < 4 implies #[trigger] high[j] == tips[j + 28] by {}
    lemma_node_window::<H>(high, tips, 0, 28, 4);
    assert forall|j: int| 0 <= j < 28 implies #[trigger] low[j] == tips[j + 0] by {}
    lemma_node_window::<H>(low, tips, 0, 0, 16);
    lemma_node_window::<H>(low, tips, 16, 0, 8);
    lemma_node_window::<H>(low, tips, 24, 0, 4);
    assert(node::<H>(tips, 24, 8) == H::digest(node::<H>(tips, 24, 4) + node::<H>(tips, 28, 4)));
    assert(node::<H>(tips, 16, 16) == H::digest(
        node::<H>(tips, 16, 8) + node::<H>(tips, 24, 8),
    ));
    assert(node::<H>(tips, 0, 32) == H::digest(node::<H>(tips, 0, 16) + node::<H>(tips, 16, 16)));
}

/// Split equivalence: where the signature of a message under a key is split
/// at that message, the execute part recovers the pairing hash that the
/// split gave, and the prime part, given it, recovers the key's address.
pub proof fn lemma_split_recovers_address<H: WinternitzHash>(
    key: WinternitzPrivkey,
    message: Seq<u8>,
)
    ensures
        ({
            let signature = signed_chains::<H>(key@, message);
            let pairing = pairing_root::<H>(recovered_tips::<H>(signature, message));
            &&& recovered_pairing::<H>(signature.subrange(28, 32), message) == pairing
            &&& recovered_address::<H>(signature.subrange(0, 28), message, pairing)
                == address_of::<H>(chain_tips::<H>(key@))
        }),
{
    lemma_split_agrees_with_recovery::<H>(signed_chains::<H>(key@, message), message);
    lemma_signature_verifies::<H>(key, message);
}

} // verus!
