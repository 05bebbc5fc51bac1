//! The Base64 payload of a data URL, decoded with the `base64` crate.

use vstd::prelude::*;

use base64::Engine;

use crate::text::{decimal, push_decimal, second_field, second_field_of};

verus! {

/// Why a text is not standard, padded Base64: the cases of `base64::DecodeError`.
#[derive(Clone, Copy, Debug, PartialEq, Eq, Structural)]
pub enum Base64Error {
    /// A symbol outside the alphabet, at an offset.
    InvalidByte(usize, u8),
    /// A number of symbols that no encoding produces.
    InvalidLength(usize),
    /// A last symbol whose unused bits are not zero, at an offset.
    InvalidLastSymbol(usize, u8),
    /// Padding that is missing or not canonical.
    InvalidPadding,
}

/// What the `base64` crate's `STANDARD` engine decodes `input` to.
pub uninterp spec fn standard_decode(input: Seq<char>) -> Result<Seq<u8>, Base64Error>;

/// Decodes `input` with `base64::engine::general_purpose::STANDARD`.
/// The contract claims only that the outcome is the one named by
/// `standard_decode` for the same text; the variants of the crate's
/// `DecodeError` are carried over one for one.
#[verifier::external_body]
fn decode_standard(input: &str) -> (r: Result<Vec<u8>, Base64Error>)
    ensures
        match r {
            Ok(bytes) => standard_decode(input@) == Ok::<Seq<u8>, Base64Error>(bytes@),
            Err(e) => standard_decode(input@) == Err::<Seq<u8>, Base64Error>(e),
        },
{
    match base64::engine::general_purpose::STANDARD.decode(input) {
        Ok(bytes) => Ok(bytes),
        Err(base64::DecodeError::InvalidByte(at, b)) => Err(Base64Error::InvalidByte(at, b)),
        Err(base64::DecodeError::InvalidLength(n)) => Err(Base64Error::InvalidLength(n)),
        Err(base64::DecodeError::InvalidLastSymbol(at, b)) => Err(Base64Error::InvalidLastSymbol(at, b)),
        Err(base64::DecodeError::InvalidPadding) => Err(Base64Error::InvalidPadding),
    }
}

/// The message that `base64::DecodeError` displays for `e`.
pub open spec fn error_text(e: Base64Error) -> Seq<char> {
    match e {
        Base64Error::InvalidByte(at, b) => "Invalid symbol "@ + decimal(b as nat) + ", offset "@
            + decimal(at as nat) + "."@,
        Base64Error::InvalidLength(n) => "Invalid input length: "@ + decimal(n as nat),
        Base64Error::InvalidLastSymbol(at, b) => "Invalid last symbol "@ + decimal(b as nat)
            + ", offset "@ + decimal(at as nat) + "."@,
        Base64Error::InvalidPadding => "Invalid padding"@,
    }
}

impl Base64Error {
    /// The error's message, as `to_string` gives it.
    pub fn message(&self) -> (m: String)
        ensures
            m@ == error_text(*self),
    {
        match self {
            Base64Error::InvalidByte(at, b) => {
                let mut m = String::from_str("Invalid symbol ");
                push_decimal(&mut m, *b as u64);
                m.append(", offset ");
                push_decimal(&mut m, *at as u64);
                m.append(".");
                m
            },
            Base64Error::InvalidLength(n) => {
                let mut m = String::from_str("Invalid input length: ");
                push_decimal(&mut m, *n as u64);
                m
            },
            Base64Error::InvalidLastSymbol(at, b) => {
                let mut m = String::from_str("Invalid last symbol ");
                push_decimal(&mut m, *b as u64);
                m.append(", offset ");
                push_decimal(&mut m, *at as u64);
                m.append(".");
                m
            },
            Base64Error::InvalidPadding => String::from_str("Invalid padding"),
        }
    }
}

/// Turns a decoding outcome into the bytes, or into the error's message.
pub fn report_decoding(r: Result<Vec<u8>, Base64Error>) -> (out: Result<Vec<u8>, String>)
    ensures
        match (r, out) {
            (Ok(b), Ok(o)) => o@ == b@,
            (Err(e), Err(m)) => m@ == error_text(e),
            _ => false,
        },
{
    match r {
        Ok(bytes) => Ok(bytes),
        Err(e) => Err(e.message()),
    }
}

/// The Base64 payload of a data URL and the bytes it decodes to.
#[derive(Debug, PartialEq)]
pub struct Payload {
    pub text: String,
    pub bytes: Vec<u8>,
}

/// Splits a data URL such as `data:image/png;base64,AAAA` at its commas,
/// takes the second field as the Base64 text and decodes it.
pub fn decode_data_url(data_url: &str) -> (r: Result<Payload, String>)
    ensures
        match (standard_decode(second_field(data_url@)), r) {
            (Ok(b), Ok(p)) => p.text@ == second_field(data_url@) && p.bytes@ == b,
            (Err(e), Err(m)) => m@ == error_text(e),
            _ => false,
        },
{
    let text = second_field_of(data_url);
    let decoded = decode_standard(text.as_str());
    match report_decoding(decoded) {
        Ok(bytes) => Ok(Payload { text, bytes }),
        Err(m) => Err(m),
    }
}

} // verus!
