//! The 32-byte identity of a key pair, and its base58 text.

use core::fmt::Write;

use arraystring::{typenum::U44, ArrayString};
use vstd::prelude::*;
use vstd::string::is_ascii_spec_bytes;
use vstd::utf8::is_ascii_chars;
use crate::chain::same_bytes;

verus! {

/// The base58 text that `fd_bs58` gives to 32 bytes.
pub uninterp spec fn base58_encode_32(bytes: Seq<u8>) -> Seq<char>;

/// The 32 bytes that `fd_bs58` reads from a text, where it accepts the text.
pub uninterp spec fn base58_decode_32(text: Seq<char>) -> Option<Seq<u8>>;

/// The characters that an address string holds.
pub uninterp spec fn held_text(string: AddressString) -> Seq<char>;

/// The error type of `fd_bs58`.
#[verifier::external_type_specification]
#[verifier::external_body]
pub struct ExBase58Error(fd_bs58::Error);

/// Calls `fd_bs58::encode_32`, which renders 32 bytes as base58 text. The
/// text is a function of the bytes. Its characters are of the base58
/// alphabet, which is ASCII, and it has at most 44 of them: of the 45
/// base-58 digits that the encoder computes, it always drops at least one
/// leading zero.
#[verifier::external_body]
fn encode_base58(bytes: &[u8; 32]) -> (text: String)
    ensures
        text@ == base58_encode_32(bytes@),
        text@.len() <= 44,
        is_ascii_chars(text@),
{
    fd_bs58::encode_32(bytes)
}

/// Calls `ArrayString::new` for an empty string of capacity 44 and writes
/// `text` to it through the string's `core::fmt::Write::write_str`, which
/// appends a text that fits within the capacity and fails on one that does
/// not.
#[verifier::external_body]
fn write_text(text: &str) -> (string: AddressString)
    requires
        text.len() <= 44,
    ensures
        held_text(string) == text@,
{
    let mut array_str = ArrayString::<U44>::new();
    write!(&mut array_str, "{}", text).expect("Writing to ArrayString failed");
    AddressString { text: array_str }
}

/// Calls `ArrayString::as_str`, which hands out the whole text that the
/// string holds.
#[verifier::external_body]
fn read_text(string: &AddressString) -> (text: &str)
    ensures
        text@ == held_text(*string),
{
    string.text.as_str()
}

/// Calls `fd_bs58::decode_32`, which reads base58 text as 32 bytes, or
/// refuses it: a character outside the alphabet, a text too long or too
/// short, or a number that 32 bytes cannot hold. What it returns is a
/// function of the text.
#[verifier::external_body]
fn decode_base58(text: &str) -> (outcome: Result<[u8; 32], fd_bs58::Error>)
    ensures
        match outcome {
            Ok(bytes) => base58_decode_32(text@) == Some(bytes@),
            Err(_) => base58_decode_32(text@) is None,
        },
{
    fd_bs58::decode_32(text)
}

/// The base58 text of an address in a string of capacity 44 that lives on
/// the stack.
#[verifier::external_body]
pub struct AddressString {
    text: ArrayString<U44>,
}

impl View for AddressString {
    type V = Seq<char>;

    open spec fn view(&self) -> Seq<char> {
        held_text(*self)
    }
}

impl AddressString {
    /// The text that the string holds.
    pub fn as_str(&self) -> (text: &str)
        ensures
            text@ == self@,
    {
        read_text(self)
    }
}

/// A text that is not the base58 form of 32 bytes, with the codec's reason.
#[derive(Debug)]
pub struct DecodeError(pub fd_bs58::Error);

/// The address of a key pair: the digest of the Merkle root of its public key.
#[derive(Debug)]
pub struct WinternitzAddress(pub [u8; 32]);

impl View for WinternitzAddress {
    type V = Seq<u8>;

    open spec fn view(&self) -> Seq<u8> {
        self.0@
    }
}

impl From<[u8; 32]> for WinternitzAddress {
    fn from(value: [u8; 32]) -> (address: Self) {
        WinternitzAddress(value)
    }
}

impl vstd::std_specs::convert::FromSpecImpl<[u8; 32]> for WinternitzAddress {
    open spec fn obeys_from_spec() -> bool {
        true
    }

    open spec fn from_spec(value: [u8; 32]) -> Self {
        WinternitzAddress(value)
    }
}

impl TryFrom<&str> for WinternitzAddress {
    type Error = DecodeError;

    /// Reads an address from its base58 text. Malformed text is refused
    /// before anything else is done with it.
    fn try_from(value: &str) -> (outcome: Result<Self, DecodeError>)
        ensures
            match outcome {
                Ok(address) => base58_decode_32(value@) == Some(address@),
                Err(_) => base58_decode_32(value@) is None,
            },
    {
        match decode_base58(value) {
            Ok(bytes) => Ok(WinternitzAddress::from(bytes)),
            Err(reason) => Err(DecodeError(reason)),
        }
    }
}

impl vstd::std_specs::convert::TryFromSpecImpl<&str> for WinternitzAddress {
    /// The codec's reason for a refusal is carried, not modelled, so the
    /// contract of `try_from` is stated on the function itself.
    open spec fn obeys_try_from_spec() -> bool {
        false
    }

    open spec fn try_from_spec(value: &str) -> Result<Self, DecodeError> {
        arbitrary()
    }
}

impl PartialEq for WinternitzAddress {
    fn eq(&self, other: &Self) -> (same: bool) {
        same_bytes(&self.0, &other.0)
    }
}

impl vstd::std_specs::cmp::PartialEqSpecImpl for WinternitzAddress {
    open spec fn obeys_eq_spec() -> bool {
        true
    }

    open spec fn eq_spec(&self, other: &Self) -> bool {
        self@ == other@
    }
}

impl WinternitzAddress {
    /// The base58 text of the address, of at most 44 characters.
    pub fn to_base58(&self) -> (text: String)
        ensures
            text@ == base58_encode_32(self@),
            text@.len() <= 44,
            is_ascii_chars(text@),
    {
        encode_base58(&self.0)
    }

    /// The base58 text of the address in a string on the stack.
    pub fn to_array_string(&self) -> (string: AddressString)
        ensures
            string@ == base58_encode_32(self@),
    {
        let encoded = self.to_base58();
        let text = encoded.as_str();
        proof {
            is_ascii_spec_bytes(text);
        }
        write_text(text)
    }
}

} // verus!
