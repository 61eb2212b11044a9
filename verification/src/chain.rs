//! The types of the chain's own crates that the messages carry, and the one
//! call into them that the library makes.

use vstd::prelude::*;

verus! {

/// `cosmwasm_std::Uint128`, an amount of tokens. Carried through unread.
#[verifier::external_type_specification]
#[verifier::external_body]
pub struct ExUint128(cosmwasm_std::Uint128);

/// `cosmwasm_std::Binary`, an opaque payload. Carried through unread.
#[verifier::external_type_specification]
#[verifier::external_body]
pub struct ExBinary(cosmwasm_std::Binary);

/// `cosmwasm_std::StdError`, the error type that contracts hand to the chain.
#[verifier::external_type_specification]
#[verifier::external_body]
pub struct ExStdError(cosmwasm_std::StdError);

/// `cw20::Cw20Coin`, an address with its starting balance. Carried through unread.
#[verifier::external_type_specification]
#[verifier::external_body]
pub struct ExCw20Coin(cw20::Cw20Coin);

/// `cw20::Logo`, a logo by reference or by content. Carried through unread.
#[verifier::external_type_specification]
#[verifier::external_body]
pub struct ExLogo(cw20::Logo);

/// `cw20::Expiration`, the point at which an allowance lapses. Carried through unread.
#[verifier::external_type_specification]
#[verifier::external_body]
pub struct ExExpiration(cw20::Expiration);

/// `cw20::MinterResponse`, the minting authority: who may mint, and the hard
/// cap on the total supply if there is one. Both fields are public in `cw20`
/// and are read as they stand.
#[verifier::external_type_specification]
pub struct ExMinterResponse(cw20::MinterResponse);

/// `Clone` of `cosmwasm_std::Uint128`, which is `Copy`: the clone is the value.
pub assume_specification[ <cosmwasm_std::Uint128 as Clone>::clone ](
    x: &cosmwasm_std::Uint128,
) -> (res: cosmwasm_std::Uint128)
    ensures
        res == *x,
;

/// `Clone` of `cosmwasm_std::Binary`, derived there: the clone holds the same bytes.
pub assume_specification[ <cosmwasm_std::Binary as Clone>::clone ](
    x: &cosmwasm_std::Binary,
) -> (res: cosmwasm_std::Binary)
    ensures
        res == *x,
;

/// `Clone` of `cw20::Logo`, derived there: the clone is the same variant with
/// the same content.
pub assume_specification[ <cw20::Logo as Clone>::clone ](x: &cw20::Logo) -> (res: cw20::Logo)
    ensures
        res == *x,
;

/// The error that `cosmwasm_std::StdError::generic_err` builds from the message
/// `msg`: its `GenericErr` variant, holding `msg` and nothing else.
pub uninterp spec fn generic_err_of(msg: Seq<char>) -> cosmwasm_std::StdError;

/// Calls `cosmwasm_std::StdError::generic_err`, which moves the message into
/// the `GenericErr` variant unchanged. The contract names that value and claims
/// no more: the same message gives the same error. (The crate's `backtraces`
/// feature, which would add a captured trace, is not switched on.)
#[verifier::external_body]
pub(crate) fn generic_err(msg: &str) -> (e: cosmwasm_std::StdError)
    ensures
        e == generic_err_of(msg@),
{
    cosmwasm_std::StdError::generic_err(msg)
}

} // verus!
