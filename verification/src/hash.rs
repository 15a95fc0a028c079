//! The one-way hash capability and its two backends.
//!
//! A backend is a function from byte strings to 32-byte digests. Everything
//! else in the crate is generic over [`WinternitzHash`] and reasons about a
//! backend through [`WinternitzHash::digest`] alone; a key, its signature and
//! its address only agree with each other under one and the same backend.

use vstd::prelude::*;

verus! {

/// The Keccak-256 digest of a byte string.
pub uninterp spec fn keccak256(data: Seq<u8>) -> Seq<u8>;

/// The SHA-256 digest of a byte string.
pub uninterp spec fn sha256(data: Seq<u8>) -> Seq<u8>;

/// The byte strings that a list of slices holds, in order.
pub open spec fn parts(list: Seq<&[u8]>) -> Seq<Seq<u8>> {
    list.map_values(|part: &[u8]| part@)
}

/// A list of two slices holds the first followed by the second.
pub proof fn lemma_parts_of_pair(list: Seq<&[u8]>)
    requires
        list.len() == 2,
    ensures
        parts(list).flatten() == list[0]@ + list[1]@,
{
    let p = parts(list);
    assert(p.drop_first().drop_first().flatten() == Seq::<u8>::empty());
    assert(p.drop_first().flatten() == p[1] + Seq::<u8>::empty());
}

/// Calls `solana_nostd_keccak::hash`, which returns the Keccak-256 digest of
/// `data`.
#[verifier::external_body]
fn keccak_one(data: &[u8]) -> (out: [u8; 32])
    ensures
        out@ == keccak256(data@),
{
    solana_nostd_keccak::hash(data)
}

/// Calls `solana_nostd_keccak::hashv`, which hashes the slices of `data` as if
/// they were concatenated and returns the Keccak-256 digest.
#[verifier::external_body]
fn keccak_many(data: &[&[u8]]) -> (out: [u8; 32])
    ensures
        out@ == keccak256(parts(data@).flatten()),
{
    solana_nostd_keccak::hashv(data)
}

/// Calls `solana_nostd_sha256::hash`, which returns the SHA-256 digest of
/// `data`.
#[verifier::external_body]
fn sha256_one(data: &[u8]) -> (out: [u8; 32])
    ensures
        out@ == sha256(data@),
{
    solana_nostd_sha256::hash(data)
}

/// Calls `solana_nostd_sha256::hashv`, which hashes the slices of `data` as if
/// they were concatenated and returns the SHA-256 digest.
#[verifier::external_body]
fn sha256_many(data: &[&[u8]]) -> (out: [u8; 32])
    ensures
        out@ == sha256(parts(data@).flatten()),
{
    solana_nostd_sha256::hashv(data)
}

/// A one-way hash function with 32-byte digests.
///
/// The four operations are views of one function, `digest`: of a buffer, of
/// a buffer twice, of several buffers taken as one, and of two buffers taken
/// as one.
pub trait WinternitzHash {
    /// The function that this backend computes.
    spec fn digest(msg: Seq<u8>) -> Seq<u8>;

    /// The digest of `msg`.
    fn hash(msg: &[u8]) -> (d: [u8; 32])
        ensures
            d@ == Self::digest(msg@),
    ;

    /// The digest of the digest of `msg`.
    fn hashd(msg: &[u8]) -> (d: [u8; 32])
        ensures
            d@ == Self::digest(Self::digest(msg@)),
    ;

    /// The digest of the concatenation of the slices of `msg`.
    fn hashv(msg: &[&[u8]]) -> (d: [u8; 32])
        ensures
            d@ == Self::digest(parts(msg@).flatten()),
    ;

    /// The digest of `a` followed by `b`.
    fn hash_pair(a: &[u8], b: &[u8]) -> (d: [u8; 32])
        ensures
            d@ == Self::digest(a@ + b@),
    ;
}

/// The Keccak-256 backend.
pub struct WinternitzKeccak;

impl WinternitzHash for WinternitzKeccak {
    open spec fn digest(msg: Seq<u8>) -> Seq<u8> {
        keccak256(msg)
    }

    #[inline(always)]
    fn hash(msg: &[u8]) -> (d: [u8; 32]) {
        keccak_one(msg)
    }

    #[inline(always)]
    fn hashd(msg: &[u8]) -> (d: [u8; 32]) {
        Self::hash(&Self::hash(msg))
    }

    #[inline(always)]
    fn hashv(msg: &[&[u8]]) -> (d: [u8; 32]) {
        keccak_many(msg)
    }

    #[inline(always)]
    fn hash_pair(a: &[u8], b: &[u8]) -> (d: [u8; 32]) {
        let pair: [&[u8]; 2] = [a, b];
        proof {
            lemma_parts_of_pair(pair@);
        }
        Self::hashv(&pair)
    }
}

/// The SHA-256 backend.
pub struct WinternitzSha256;

impl WinternitzHash for WinternitzSha256 {
    open spec fn digest(msg: Seq<u8>) -> Seq<u8> {
        sha256(msg)
    }

    #[inline(always)]
    fn hash(msg: &[u8]) -> (d: [u8; 32]) {
        sha256_one(msg)
    }

    #[inline(always)]
    fn hashd(msg: &[u8]) -> (d: [u8; 32]) {
        Self::hash(&Self::hash(msg))
    }

    #[inline(always)]
    fn hashv(msg: &[&[u8]]) -> (d: [u8; 32]) {
        sha256_many(msg)
    }

    #[inline(always)]
    fn hash_pair(a: &[u8], b: &[u8]) -> (d: [u8; 32]) {
        let pair: [&[u8]; 2] = [a, b];
        proof {
            lemma_parts_of_pair(pair@);
        }
        Self::hashv(&pair)
    }
}

} // verus!
