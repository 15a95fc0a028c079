use winternitz::hash::{WinternitzHash, WinternitzKeccak, WinternitzSha256};

fn digest_of(text: &str) -> [u8; 32] {
    let bytes = hex::decode(text).unwrap();
    let mut out = [0u8; 32];
    out.copy_from_slice(&bytes);
    out
}

#[test]
fn sha256_hash_known_answers() {
    assert_eq!(
        WinternitzSha256::hash(b"test"),
        digest_of("9f86d081884c7d659a2feaa0c55ad015a3bf4f1b2b0b822cd15d6c15b0f00a08")
    );
    assert_eq!(
        WinternitzSha256::hash(b"abc"),
        digest_of("ba7816bf8f01cfea414140de5dae2223b00361a396177a9cb410ff61f20015ad")
    );
    assert_eq!(
        WinternitzSha256::hash(b""),
        digest_of("e3b0c44298fc1c149afbf4c8996fb92427ae41e4649b934ca495991b7852b855")
    );
}

#[test]
fn keccak_hash_known_answers() {
    assert_eq!(
        WinternitzKeccak::hash(b"test"),
        digest_of("9c22ff5f21f0b81b113e63f7db6da94fedef11b2119b4088b89664fb9a3cb658")
    );
    assert_eq!(
        WinternitzKeccak::hash(b"abc"),
        digest_of("4e03657aea45a94fc7d47ba826c8d667c0d1e6e33a64a036ec44f58fa12d6c45")
    );
    assert_eq!(
        WinternitzKeccak::hash(b""),
        digest_of("c5d2460186f7233c927e7db2dcc703c0e500b653ca82273b7bfad8045d85a470")
    );
}

#[test]
fn hashd_is_hash_of_hash() {
    assert_eq!(
        WinternitzSha256::hashd(b"test"),
        digest_of("954d5a49fd70d9b8bcdb35d252267829957f7ef7fa6c74f88419bdc5e82209f4")
    );
    assert_eq!(
        WinternitzKeccak::hashd(b"test"),
        digest_of("805dc8973ad04df3f1195bda4e1a00894dbedce0288eb8c6a3bf8d228616489e")
    );
    assert_eq!(
        WinternitzSha256::hashd(b"test"),
        WinternitzSha256::hash(&WinternitzSha256::hash(b"test"))
    );
    assert_eq!(
        WinternitzKeccak::hashd(b"test"),
        WinternitzKeccak::hash(&WinternitzKeccak::hash(b"test"))
    );
}

#[test]
fn hashv_is_hash_of_concatenation() {
    let parts: [&[u8]; 3] = [b"a", b"", b"bc"];
    assert_eq!(WinternitzSha256::hashv(&parts), WinternitzSha256::hash(b"abc"));
    assert_eq!(WinternitzKeccak::hashv(&parts), WinternitzKeccak::hash(b"abc"));
    let none: [&[u8]; 0] = [];
    assert_eq!(WinternitzSha256::hashv(&none), WinternitzSha256::hash(b""));
    assert_eq!(WinternitzKeccak::hashv(&none), WinternitzKeccak::hash(b""));
}

#[test]
fn hash_pair_is_hash_of_both_in_order() {
    assert_eq!(
        WinternitzSha256::hash_pair(b"a", b"b"),
        digest_of("fb8e20fc2e4c3f248c60c39bd652f3c1347298bb977b8b4d5903b85055620603")
    );
    assert_eq!(
        WinternitzKeccak::hash_pair(b"a", b"b"),
        digest_of("67fad3bfa1e0321bd021ca805ce14876e50acac8ca8532eda8cbf924da565160")
    );
    assert_eq!(WinternitzSha256::hash_pair(b"a", b"bc"), WinternitzSha256::hash(b"abc"));
    assert_eq!(WinternitzKeccak::hash_pair(b"ab", b"c"), WinternitzKeccak::hash(b"abc"));
}

#[test]
fn hash_pair_order_matters() {
    assert_ne!(WinternitzSha256::hash_pair(b"a", b"b"), WinternitzSha256::hash_pair(b"b", b"a"));
    assert_ne!(WinternitzKeccak::hash_pair(b"a", b"b"), WinternitzKeccak::hash_pair(b"b", b"a"));
}

#[test]
fn backends_differ() {
    assert_ne!(WinternitzSha256::hash(b"test"), WinternitzKeccak::hash(b"test"));
}
