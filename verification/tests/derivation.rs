use winternitz::hash::WinternitzKeccak;
use winternitz::privkey::WinternitzPrivkey;

fn master_seed() -> [u8; 64] {
    let bytes = hex::decode(
        "fffcf9f6f3f0edeae7e4e1dedbd8d5d2cfccc9c6c3c0bdbab7b4b1aeaba8a5a2\
         9f9c999693908d8a8784817e7b7875726f6c696663605d5a5754514e4b484542",
    )
    .unwrap();
    let mut out = [0u8; 64];
    out.copy_from_slice(&bytes);
    out
}

fn seed_of(text: &str) -> [u8; 32] {
    let bytes = hex::decode(text).unwrap();
    let mut out = [0u8; 32];
    out.copy_from_slice(&bytes);
    out
}

#[test]
fn from_seed_at_the_root() {
    let key = WinternitzPrivkey::from_seed(master_seed(), "m").unwrap();
    assert_eq!(
        key.0[0],
        seed_of("abe74a98f6c7eabee0428f53798f0ab8aa1bd37873999041703c742f15ac7e1e")
    );
    assert_eq!(
        key.0[1],
        seed_of("63bbae9fe4abd1ff6ac75ab7306ea1d91a743246be33b2c6eb6fef812180924d")
    );
    assert_eq!(
        key.0[31],
        seed_of("9f9bf12b64af566b9aa9087a44c557591512b355a3c88092b20c6ed601e263c4")
    );
}

#[test]
fn from_seed_below_a_child() {
    let key = WinternitzPrivkey::from_seed(master_seed(), "m/0").unwrap();
    assert_eq!(
        key.0[0],
        seed_of("4be27cf28dde18c88d1a7afc16a8177ebbdae8f3c3e8d67f390bd6e6560322fa")
    );
    assert_eq!(
        key.0[1],
        seed_of("fb1e5b0be9e72c9e158b33ad5d68c59e6d5b853ec56beb0b7ee1c13e5e200e47")
    );
    assert_eq!(
        key.0[31],
        seed_of("fab7672e1f86428a32d9a66b6ea1cc0a93f54c691220eaf2ea9cbc5e8c1abaa6")
    );
}

#[test]
fn from_seed_below_hardened_children() {
    let key = WinternitzPrivkey::from_seed(master_seed(), "m/44'/501'").unwrap();
    assert_eq!(
        key.0[0],
        seed_of("7515e17c7d1c751d7bfd9a8a88602825d0868b62749c8de6f8b066c7a388a129")
    );
    assert_eq!(
        key.0[1],
        seed_of("a49e0ee15211ed76c2997df7a90a4bede8ca0e16e4d9179e88b71e6df799fb97")
    );
    assert_eq!(
        key.0[31],
        seed_of("21db8020bb4c84ebf20be4201dfb4f4f840a5e314c56fcbbb96716b0fa75424b")
    );
    let same = WinternitzPrivkey::from_seed(master_seed(), "m/44h/501h").unwrap();
    assert_eq!(same.0, key.0);
}

#[test]
fn from_seed_is_deterministic_and_path_dependent() {
    let first = WinternitzPrivkey::from_seed(master_seed(), "m/0").unwrap();
    let again = WinternitzPrivkey::from_seed(master_seed(), "m/0").unwrap();
    let other = WinternitzPrivkey::from_seed(master_seed(), "m/1").unwrap();
    assert_eq!(first.0, again.0);
    assert_ne!(first.0, other.0);
    for i in 0..32usize {
        for j in (i + 1)..32usize {
            assert_ne!(first.0[i], first.0[j]);
        }
    }
}

#[test]
fn from_seed_key_signs() {
    let key = WinternitzPrivkey::from_seed(master_seed(), "m/44'/501'/0'").unwrap();
    let pubkey = key.pubkey::<WinternitzKeccak>();
    let signature = key.sign::<WinternitzKeccak>(b"test");
    assert!(signature.verify::<WinternitzKeccak>(b"test", &pubkey));
}

#[test]
fn from_seed_refuses_a_path_without_prefix() {
    let error = WinternitzPrivkey::from_seed(master_seed(), "0/1").unwrap_err();
    assert_eq!(error.0, bip32::Error::Decode);
    let error = WinternitzPrivkey::from_seed(master_seed(), "").unwrap_err();
    assert_eq!(error.0, bip32::Error::Decode);
}

#[test]
fn from_seed_refuses_a_bad_child_number() {
    let error = WinternitzPrivkey::from_seed(master_seed(), "m/abc").unwrap_err();
    assert_eq!(error.0, bip32::Error::ChildNumber);
    let error = WinternitzPrivkey::from_seed(master_seed(), "m/2147483648").unwrap_err();
    assert_eq!(error.0, bip32::Error::ChildNumber);
    let error = WinternitzPrivkey::from_seed(master_seed(), "m/").unwrap_err();
    assert_eq!(error.0, bip32::Error::ChildNumber);
}

#[test]
fn from_seed_refuses_a_path_too_deep() {
    let mut path = String::from("m");
    for _ in 0..255usize {
        path.push_str("/0'");
    }
    let error = WinternitzPrivkey::from_seed(master_seed(), &path).unwrap_err();
    assert_eq!(error.0, bip32::Error::Depth);
    let mut path = String::from("m");
    for _ in 0..254usize {
        path.push_str("/0'");
    }
    assert!(WinternitzPrivkey::from_seed(master_seed(), &path).is_ok());
}
