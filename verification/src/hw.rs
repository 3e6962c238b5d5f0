//! Signing devices.

use liana::miniscript::bitcoin::bip32::Fingerprint;
use vstd::prelude::*;

verus! {

/// A connected signing device, by what is shown of it.
#[derive(Debug, PartialEq, Eq)]
pub struct HardwareWallet {
    /// The make of the device.
    pub kind: String,
    /// The fingerprint of the device's master key.
    pub fingerprint: [u8; 4],
}

/// The character that stands for a hexadecimal digit, in lower case.
pub open spec fn hex_digit(d: nat) -> char {
    if d == 0 {
        '0'
    } else if d == 1 {
        '1'
    } else if d == 2 {
        '2'
    } else if d == 3 {
        '3'
    } else if d == 4 {
        '4'
    } else if d == 5 {
        '5'
    } else if d == 6 {
        '6'
    } else if d == 7 {
        '7'
    } else if d == 8 {
        '8'
    } else if d == 9 {
        '9'
    } else if d == 10 {
        'a'
    } else if d == 11 {
        'b'
    } else if d == 12 {
        'c'
    } else if d == 13 {
        'd'
    } else if d == 14 {
        'e'
    } else {
        'f'
    }
}

/// Bytes in hexadecimal notation: the bytes in order, each as two digits in
/// lower case, the high one first.
pub open spec fn lower_hex(bytes: Seq<u8>) -> Seq<char>
    decreases bytes.len(),
{
    if bytes.len() == 0 {
        Seq::empty()
    } else {
        lower_hex(bytes.drop_last()).push(hex_digit(bytes.last() as nat / 16)).push(
            hex_digit(bytes.last() as nat % 16),
        )
    }
}

/// Hexadecimal notation takes two characters for each byte.
pub proof fn lower_hex_has_two_digits_a_byte(bytes: Seq<u8>)
    ensures
        lower_hex(bytes).len() == 2 * bytes.len(),
    decreases bytes.len(),
{
    if bytes.len() > 0 {
        lower_hex_has_two_digits_a_byte(bytes.drop_last());
    }
}

/// A fingerprint as text.
///
/// This is `Display` of `bitcoin::bip32::Fingerprint`, which writes the
/// fingerprint's four bytes in order, each as two hexadecimal digits in
/// lower case.
#[verifier::external_body]
pub(crate) fn fingerprint_text(fingerprint: &[u8; 4]) -> (text: String)
    ensures
        text@ == lower_hex(fingerprint@),
{
    Fingerprint::from(fingerprint).to_string()
}

} // verus!
