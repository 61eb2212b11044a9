//! Why a request to create a token was turned down.

use vstd::prelude::*;

use crate::chain::{generic_err, generic_err_of};

verus! {

/// The rule that a request to create a token broke.
#[derive(Clone, Copy, Debug, PartialEq, Eq, Structural)]
pub enum ValidationError {
    /// The name has fewer than 3 or more than 50 bytes.
    InvalidName,
    /// The ticker symbol has fewer than 3 or more than 12 bytes, or a byte that
    /// is neither an ASCII digit, an ASCII letter nor the dash.
    InvalidSymbol,
    /// The token declares more than 18 decimals.
    InvalidDecimals,
}

impl ValidationError {
    /// The fixed description of the broken rule.
    pub open spec fn text(self) -> Seq<char> {
        match self {
            ValidationError::InvalidName => "Name is not in the expected format (3-50 UTF-8 bytes)"@,
            ValidationError::InvalidSymbol => "Ticker symbol is not in expected format [a-zA-Z0-9\\-]{3,12}"@,
            ValidationError::InvalidDecimals => "Decimals must not exceed 18"@,
        }
    }

    /// The fixed description of the broken rule, for people to read.
    pub fn message(&self) -> (s: &'static str)
        ensures
            s@ == self.text(),
    {
        match self {
            ValidationError::InvalidName => "Name is not in the expected format (3-50 UTF-8 bytes)",
            ValidationError::InvalidSymbol => "Ticker symbol is not in expected format [a-zA-Z0-9\\-]{3,12}",
            ValidationError::InvalidDecimals => "Decimals must not exceed 18",
        }
    }

    /// The chain's generic error that carries this rule's description, for a
    /// contract that reports failures as `StdError`.
    pub fn to_std_error(&self) -> (e: cosmwasm_std::StdError)
        ensures
            e == generic_err_of(self.text()),
    {
        generic_err(self.message())
    }
}

} // verus!
