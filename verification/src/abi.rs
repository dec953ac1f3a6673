//! The value handed back to the host: bytes in the contract ABI encoding,
//! written as hexadecimal text after `0x`.
//!
//! The ABI encoding itself is the work of `ethabi`; this module names its
//! result and states exactly the text that is printed for it.

use crate::decimal::digit_char;
use vstd::prelude::*;
use vstd::string::*;

verus! {

/// The ABI encoding of one string: what `ethabi::encode` returns for the
/// single token `Token::String` that holds `text`.
pub uninterp spec fn abi_string(text: Seq<char>) -> Seq<u8>;

/// The longest text, in bytes, that is handed to the encoder. The encoder
/// counts the padded text and its two header words in thirty-two bits; a text
/// of this size stays far below what that can hold.
pub const ABI_TEXT_MAX: usize = 0x4000_0000;

/// The lower-case hexadecimal digit for a value below sixteen.
pub open spec fn hex_digit(nibble: nat) -> char
    recommends
        nibble < 16,
{
    if nibble < 10 {
        digit_char(nibble)
    } else if nibble == 10 {
        'a'
    } else if nibble == 11 {
        'b'
    } else if nibble == 12 {
        'c'
    } else if nibble == 13 {
        'd'
    } else if nibble == 14 {
        'e'
    } else {
        'f'
    }
}

/// Two lower-case digits for each byte, the high half first.
pub open spec fn hex_text(bytes: Seq<u8>) -> Seq<char> {
    Seq::new(
        2 * bytes.len(),
        |i: int|
            if i % 2 == 0 {
                hex_digit((bytes[i / 2] / 16) as nat)
            } else {
                hex_digit((bytes[i / 2] % 16) as nat)
            },
    )
}

/// The text printed for encoded bytes: `0x` and their hexadecimal digits.
pub open spec fn output_text(bytes: Seq<u8>) -> Seq<char> {
    "0x"@ + hex_text(bytes)
}

/// `ethabi::encode`, called on the one token `Token::String(text)`. Its result
/// depends on the text alone and is named [`abi_string`]. The encoder does its
/// arithmetic on lengths in `u32`, which a text within [`ABI_TEXT_MAX`] cannot
/// overflow.
#[verifier::external_body]
fn abi_encode_string(text: &str) -> (bytes: Vec<u8>)
    requires
        text.spec_bytes().len() <= ABI_TEXT_MAX,
    ensures
        bytes@ == abi_string(text@),
{
    ethabi::encode(&[ethabi::Token::String(text.to_string())])
}

/// `hex::encode`: each byte becomes two characters of `0123456789abcdef`, the
/// one for its high four bits and then the one for its low four bits.
#[verifier::external_body]
fn hex_encode(bytes: &[u8]) -> (text: String)
    ensures
        text@ == hex_text(bytes@),
{
    hex::encode(bytes)
}

/// The text printed for encoded bytes.
pub fn encoded_output(bytes: &[u8]) -> (text: String)
    ensures
        text@ == output_text(bytes@),
{
    let digits = hex_encode(bytes);
    let mut text = String::from_str("0x");
    text.append(digits.as_str());
    text
}

/// The text printed for the empty value: `0x` and nothing more.
pub fn empty_output() -> (text: String)
    ensures
        text@ == "0x"@,
        text@ == output_text(Seq::<u8>::empty()),
{
    let text = String::from_str("0x");
    assert("0x"@ + hex_text(Seq::<u8>::empty()) =~= "0x"@);
    text
}

/// The text printed for a channel address: the address as one ABI string, in
/// hexadecimal after `0x`.
pub fn address_output(address: &str) -> (text: String)
    requires
        address.spec_bytes().len() <= ABI_TEXT_MAX,
    ensures
        text@ == output_text(abi_string(address@)),
{
    let encoded = abi_encode_string(address);
    encoded_output(encoded.as_slice())
}

} // verus!
