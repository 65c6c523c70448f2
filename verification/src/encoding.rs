//! Base64, the form in which raw profile data travels.

use base64::engine::general_purpose::STANDARD;
use base64::{DecodeError, Engine};
use vstd::prelude::*;

verus! {

/// Why a text is not base64.
#[derive(Clone, Copy, Debug, PartialEq, Eq)]
pub enum Base64Error {
    /// A byte that is no base64 symbol, and where it stands.
    InvalidByte { offset: usize, byte: u8 },
    /// A number of symbols that no data encodes to.
    InvalidLength { length: usize },
    /// A last symbol with bits that the data has no room for, and where it stands.
    InvalidLastSymbol { offset: usize, byte: u8 },
    /// Padding that is missing or wrong.
    InvalidPadding,
}

/// The base64 text of data: what the `STANDARD` engine of `base64` encodes it to.
pub uninterp spec fn base64_encoded(data: Seq<u8>) -> Seq<char>;

/// The data that a base64 text stands for, or what is wrong with the text: what the `STANDARD`
/// engine of `base64` decodes it to.
pub uninterp spec fn base64_decoded(text: Seq<char>) -> Result<Seq<u8>, Base64Error>;

/// The number of base64 symbols, padding counted, for data of `n` bytes.
pub open spec fn base64_length(n: nat) -> nat {
    (n + 2) / 3 * 4
}

/// Encodes data as base64.
///
/// Calls `Engine::encode` of `base64` on its `STANDARD` engine. Trusted: the text depends on the
/// data alone, and decoding it with the same engine gives the data back. The call panics where
/// the text would be longer than any allocation can be.
#[verifier::external_body]
pub(crate) fn encode(data: &Vec<u8>) -> (r: String)
    requires
        base64_length(data@.len()) <= isize::MAX,
    ensures
        r@ == base64_encoded(data@),
        base64_decoded(r@) is Ok,
        base64_decoded(r@)->Ok_0 == data@,
{
    STANDARD.encode(data)
}

/// Decodes base64.
///
/// Calls `Engine::decode` of `base64` on its `STANDARD` engine. Trusted: the outcome depends on
/// the text alone.
#[verifier::external_body]
pub(crate) fn decode(text: &str) -> (r: Result<Vec<u8>, Base64Error>)
    ensures
        r is Ok <==> base64_decoded(text@) is Ok,
        r is Ok ==> r->Ok_0@ == base64_decoded(text@)->Ok_0,
        r is Err ==> r->Err_0 == base64_decoded(text@)->Err_0,
{
    STANDARD.decode(text).map_err(|e| match e {
        DecodeError::InvalidByte(offset, byte) => Base64Error::InvalidByte { offset, byte },
        DecodeError::InvalidLength(length) => Base64Error::InvalidLength { length },
        DecodeError::InvalidLastSymbol(offset, byte) => Base64Error::InvalidLastSymbol { offset, byte },
        DecodeError::InvalidPadding => Base64Error::InvalidPadding,
    })
}

/// Base64 has four symbols for every three bytes, and for what is left of less.
pub proof fn law_four_symbols_for_three_bytes(n: nat, rest: nat)
    requires
        0 < rest <= 3,
    ensures
        base64_length(0) == 0,
        base64_length(3 * n + rest) == 4 * n + 4,
{
    assert((3 * n + rest + 2) / 3 == n + 1);
}

} // verus!
