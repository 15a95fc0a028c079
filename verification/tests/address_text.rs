use winternitz::address::WinternitzAddress;
use winternitz::hash::WinternitzSha256;
use winternitz::privkey::WinternitzPrivkey;

const SAMPLE: [u8; 32] = [
    7, 224, 70, 147, 60, 112, 144, 250, 46, 62, 133, 57, 252, 149, 220, 143, 237, 77, 21, 208, 191,
    61, 58, 206, 152, 136, 129, 103, 129, 48, 141, 139,
];

#[test]
fn address_from_bytes() {
    assert_eq!(WinternitzAddress::from(SAMPLE).0, SAMPLE);
}

#[test]
fn address_to_base58() {
    assert_eq!(
        WinternitzAddress::from(SAMPLE).to_base58(),
        "XkCriyrNwS3G4rzAXtG5B1nnvb5Ka1JtCku93VqeKAr"
    );
    assert_eq!(
        WinternitzAddress::from([0u8; 32]).to_base58(),
        "11111111111111111111111111111111"
    );
    assert_eq!(
        WinternitzAddress::from([255u8; 32]).to_base58(),
        "JEKNVnkbo3jma5nREBBJCDoXFVeKkD56V3xKrvRmWxFG"
    );
    assert_eq!(WinternitzAddress::from([255u8; 32]).to_base58().len(), 44);
}

#[test]
fn address_of_a_key_as_text() {
    let mut seeds = [[0u8; 32]; 32];
    for (i, seed) in seeds.iter_mut().enumerate() {
        *seed = [i as u8; 32];
    }
    let address = WinternitzPrivkey::from(seeds)
        .pubkey::<WinternitzSha256>()
        .address::<WinternitzSha256>();
    assert_eq!(address.to_base58(), "Bg9njgrbE8sg69rL4qW8gDtRPQsq1Gbn3pnaLuyacAU3");
}

#[test]
fn address_try_from_text() {
    let text = "XkCriyrNwS3G4rzAXtG5B1nnvb5Ka1JtCku93VqeKAr";
    let address = WinternitzAddress::try_from(text).unwrap();
    assert_eq!(address.0, SAMPLE);
    let zero = WinternitzAddress::try_from("11111111111111111111111111111111").unwrap();
    assert_eq!(zero.0, [0u8; 32]);
}

#[test]
fn address_text_round_trip() {
    let address = WinternitzAddress::from(SAMPLE);
    let back = WinternitzAddress::try_from(address.to_base58().as_str()).unwrap();
    assert_eq!(back, address);
}

#[test]
fn address_try_from_invalid_character() {
    let error = WinternitzAddress::try_from("l").unwrap_err();
    assert_eq!(error.0, fd_bs58::Error::InvalidCharacter);
    let error = WinternitzAddress::try_from("1111111111111111111111111111111O").unwrap_err();
    assert_eq!(error.0, fd_bs58::Error::InvalidCharacter);
}

#[test]
fn address_try_from_too_long() {
    let error =
        WinternitzAddress::try_from("4uQeVj5tqViQh7yWWGStvkEG1Zmhx6uasJtWCJziofLRda4").unwrap_err();
    assert_eq!(error.0, fd_bs58::Error::InputTooLong);
}

#[test]
fn address_try_from_too_short() {
    let error = WinternitzAddress::try_from("4uQeVj5tqViQh7yWWGStvkEG1Zmhx6uasJtWCJz").unwrap_err();
    assert_eq!(error.0, fd_bs58::Error::InputTooShort);
    let error = WinternitzAddress::try_from("").unwrap_err();
    assert_eq!(error.0, fd_bs58::Error::InputTooShort);
}

#[test]
fn address_try_from_too_large_a_number() {
    let error =
        WinternitzAddress::try_from("JEKNVnkbo3jma5nREBBJCDoXFVeKkD56V3xKrvRmWxFJ").unwrap_err();
    assert_eq!(error.0, fd_bs58::Error::InvalidByteAmount);
}

#[test]
fn address_equality() {
    let mut other = SAMPLE;
    other[31] ^= 1;
    assert!(WinternitzAddress::from(SAMPLE) == WinternitzAddress::from(SAMPLE));
    assert!(WinternitzAddress::from(SAMPLE) != WinternitzAddress::from(other));
}

#[test]
fn address_text_is_at_most_44_characters() {
    for zeros in 0..=32usize {
        for fill in [1u8, 0x7f, 0xff] {
            let mut bytes = [fill; 32];
            for byte in bytes.iter_mut().take(zeros) {
                *byte = 0;
            }
            let text = WinternitzAddress::from(bytes).to_base58();
            assert!(text.len() <= 44);
            assert!(text.len() >= 32);
            assert!(text.is_ascii());
            assert_eq!(WinternitzAddress::try_from(text.as_str()).unwrap().0, bytes);
        }
    }
}

#[test]
fn address_to_array_string() {
    let string = WinternitzAddress::from(SAMPLE).to_array_string();
    assert_eq!(string.as_str(), "XkCriyrNwS3G4rzAXtG5B1nnvb5Ka1JtCku93VqeKAr");
    assert_eq!(string.as_str().len(), 43);
    let string = WinternitzAddress::from([255u8; 32]).to_array_string();
    assert_eq!(string.as_str(), "JEKNVnkbo3jma5nREBBJCDoXFVeKkD56V3xKrvRmWxFG");
    assert_eq!(string.as_str().len(), 44);
    let string = WinternitzAddress::from([0u8; 32]).to_array_string();
    assert_eq!(string.as_str(), "11111111111111111111111111111111");
    assert_eq!(string.as_str(), WinternitzAddress::from([0u8; 32]).to_base58());
}
