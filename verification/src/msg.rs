//! The messages a token contract accepts and answers, and the validation of
//! the one that creates it.

use vstd::prelude::*;
use vstd::utf8::encode_utf8;

use cosmwasm_std::{Binary, Uint128};
use cw20::{Cw20Coin, Expiration, Logo, MinterResponse};

use crate::error::ValidationError;
use crate::rules::{
    check_name_bytes, check_symbol_bytes, lemma_symbol_bytes_iff_chars, name_bytes_ok,
    symbol_byte, symbol_bytes_ok, symbol_char, symbol_chars_ok, MAX_DECIMALS,
};

verus! {

/// A command that changes the token's state.
#[derive(Clone, Debug, PartialEq)]
pub enum ExecuteMsg {
    /// Moves tokens to another account without triggering actions.
    Transfer { recipient: String, amount: Uint128 },
    /// Destroys tokens forever.
    Burn { amount: Uint128 },
    /// Moves tokens to a contract and triggers an action on it.
    Send { contract: String, amount: Uint128, msg: Binary },
    /// If authorized, creates `amount` new tokens and adds them to the
    /// recipient's balance.
    Mint { recipient: String, amount: Uint128 },
    /// Lets `spender` use `amount` more of the sender's tokens. An expiration,
    /// where given, replaces the current one.
    IncreaseAllowance { spender: String, amount: Uint128, expires: Option<Expiration> },
    /// Lowers by `amount` what `spender` may use of the sender's tokens. An
    /// expiration, where given, replaces the current one.
    DecreaseAllowance { spender: String, amount: Uint128, expires: Option<Expiration> },
    /// Moves tokens from `owner` to `recipient`, within the sender's allowance.
    TransferFrom { owner: String, recipient: String, amount: Uint128 },
    /// Destroys tokens of `owner`, within the sender's allowance.
    BurnFrom { owner: String, amount: Uint128 },
    /// Moves tokens from `owner` to a contract and triggers an action on it,
    /// within the sender's allowance.
    SendFrom { owner: String, contract: String, amount: Uint128, msg: Binary },
    /// If authorized, updates the marketing metadata. `None` leaves a field as
    /// it is; `Some` of the empty string clears it.
    UpdateMarketing {
        /// A URL pointing to the project behind this token.
        project: Option<String>,
        /// A longer description of the token and its utility.
        description: Option<String>,
        /// The address, if any, that may update this metadata.
        marketing: Option<String>,
    },
    /// If sent by the marketing role, stores a new logo for the token.
    UploadLogo(Logo),
    /// The current minter names a new one. `None` removes the token's minter
    /// forever.
    UpdateMinter { new_minter: Option<String> },
    /// Adds an address to the minters. Only the current minter may do so.
    AddMinter { minter: String },
    /// Removes an address from the minters. Only the current minter may do so.
    RemoveMinter { minter: String },
}

/// The marketing metadata a token may be created with.
#[derive(Clone, Debug, PartialEq)]
pub struct InstantiateMarketingInfo {
    pub project: Option<String>,
    pub description: Option<String>,
    pub marketing: Option<String>,
    pub logo: Option<Logo>,
}

/// The request that creates a token.
#[derive(Clone, Debug, PartialEq)]
pub struct InstantiateMsg {
    pub name: String,
    pub symbol: String,
    pub decimals: u8,
    pub initial_balances: Vec<Cw20Coin>,
    pub mint: Option<MinterResponse>,
    pub marketing: Option<InstantiateMarketingInfo>,
}

impl InstantiateMsg {
    /// The bytes of the name's UTF-8 encoding.
    pub open spec fn name_bytes(&self) -> Seq<u8> {
        encode_utf8(self.name@)
    }

    /// The bytes of the symbol's UTF-8 encoding.
    pub open spec fn symbol_bytes(&self) -> Seq<u8> {
        encode_utf8(self.symbol@)
    }

    /// The hard cap on the total supply: that of the minting authority, where
    /// there is one and it has a cap.
    pub open spec fn cap(&self) -> Option<Uint128> {
        match self.mint {
            Some(m) => m.cap,
            None => None,
        }
    }

    /// What validation says of this request: the first rule it breaks, taking
    /// the name first, then the symbol, then the decimals; `Ok` if it breaks none.
    pub open spec fn verdict(&self) -> Result<(), ValidationError> {
        if !name_bytes_ok(self.name_bytes()) {
            Err(ValidationError::InvalidName)
        } else if !symbol_bytes_ok(self.symbol_bytes()) {
            Err(ValidationError::InvalidSymbol)
        } else if self.decimals > MAX_DECIMALS {
            Err(ValidationError::InvalidDecimals)
        } else {
            Ok(())
        }
    }

    /// The hard cap on the total supply, if the request sets one.
    pub fn get_cap(&self) -> (cap: Option<Uint128>)
        ensures
            cap == self.cap(),
    {
        match &self.mint {
            Some(m) => m.cap,
            None => None,
        }
    }

    /// Checks the name, then the symbol, then the decimals, and reports the
    /// first rule that is broken.
    pub fn validate(&self) -> (r: Result<(), ValidationError>)
        ensures
            r == self.verdict(),
    {
        if !self.has_valid_name() {
            return Err(ValidationError::InvalidName);
        }
        if !self.has_valid_symbol() {
            return Err(ValidationError::InvalidSymbol);
        }
        if self.decimals > MAX_DECIMALS {
            return Err(ValidationError::InvalidDecimals);
        }
        Ok(())
    }

    /// Whether the name has between 3 and 50 bytes.
    pub fn has_valid_name(&self) -> (ok: bool)
        ensures
            ok == name_bytes_ok(self.name_bytes()),
    {
        check_name_bytes(self.name.as_str().as_bytes())
    }

    /// Whether the symbol has between 3 and 12 bytes, each an ASCII digit, an
    /// ASCII letter or the dash.
    pub fn has_valid_symbol(&self) -> (ok: bool)
        ensures
            ok == symbol_bytes_ok(self.symbol_bytes()),
    {
        check_symbol_bytes(self.symbol.as_str().as_bytes())
    }
}

/// A request whose name has fewer than 3 or more than 50 bytes is turned down
/// for its name, whatever its symbol and decimals.
pub proof fn lemma_name_out_of_range_is_invalid_name(msg: InstantiateMsg)
    requires
        msg.name_bytes().len() < 3 || msg.name_bytes().len() > 50,
    ensures
        msg.verdict() == Err::<(), ValidationError>(ValidationError::InvalidName),
{
}

/// A name of 3 to 50 bytes passes the name check, whatever the symbol and the
/// decimals are: the request is never turned down for its name.
pub proof fn lemma_name_in_range_passes(msg: InstantiateMsg)
    requires
        3 <= msg.name_bytes().len() <= 50,
    ensures
        name_bytes_ok(msg.name_bytes()),
        msg.verdict() != Err::<(), ValidationError>(ValidationError::InvalidName),
{
}

/// A request with a well-formed name whose symbol has fewer than 3 or more
/// than 12 bytes is turned down for its symbol.
pub proof fn lemma_symbol_out_of_range_is_invalid_symbol(msg: InstantiateMsg)
    requires
        name_bytes_ok(msg.name_bytes()),
        msg.symbol_bytes().len() < 3 || msg.symbol_bytes().len() > 12,
    ensures
        msg.verdict() == Err::<(), ValidationError>(ValidationError::InvalidSymbol),
{
}

/// A symbol of 3 to 12 characters, each an ASCII digit, an ASCII letter or the
/// dash, passes the symbol check: the request is never turned down for it.
pub proof fn lemma_symbol_from_alphabet_passes(msg: InstantiateMsg)
    requires
        3 <= msg.symbol@.len() <= 12,
        forall|i: int| 0 <= i < msg.symbol@.len() ==> symbol_char(#[trigger] msg.symbol@[i]),
    ensures
        symbol_bytes_ok(msg.symbol_bytes()),
        msg.verdict() != Err::<(), ValidationError>(ValidationError::InvalidSymbol),
{
    assert(symbol_chars_ok(msg.symbol@));
    lemma_symbol_bytes_iff_chars(msg.symbol@);
}

/// A request with a well-formed name whose symbol holds a byte that is neither
/// an ASCII digit, an ASCII letter nor the dash is turned down for its symbol,
/// at whatever place the byte stands and however long the symbol is.
pub proof fn lemma_foreign_byte_is_invalid_symbol(msg: InstantiateMsg, at: int)
    requires
        name_bytes_ok(msg.name_bytes()),
        0 <= at < msg.symbol_bytes().len(),
        !symbol_byte(msg.symbol_bytes()[at]),
    ensures
        msg.verdict() == Err::<(), ValidationError>(ValidationError::InvalidSymbol),
{
}

/// A request with a well-formed name whose symbol holds a character that is
/// neither an ASCII digit, an ASCII letter nor the dash is turned down for its
/// symbol. This covers every character beyond ASCII.
pub proof fn lemma_foreign_char_is_invalid_symbol(msg: InstantiateMsg, at: int)
    requires
        name_bytes_ok(msg.name_bytes()),
        0 <= at < msg.symbol@.len(),
        !symbol_char(msg.symbol@[at]),
    ensures
        msg.verdict() == Err::<(), ValidationError>(ValidationError::InvalidSymbol),
{
    lemma_symbol_bytes_iff_chars(msg.symbol@);
}

/// With a well-formed name and symbol, the decimals decide: up to 18 the
/// request is accepted, from 19 on it is turned down for its decimals.
pub proof fn lemma_decimals_decide(msg: InstantiateMsg)
    requires
        name_bytes_ok(msg.name_bytes()),
        symbol_bytes_ok(msg.symbol_bytes()),
    ensures
        msg.decimals <= 18 ==> msg.verdict() == Ok::<(), ValidationError>(()),
        msg.decimals >= 19 ==> msg.verdict() == Err::<(), ValidationError>(
            ValidationError::InvalidDecimals,
        ),
{
}

/// Validation has no hidden state: its result is decided by the name, the
/// symbol and the decimals alone, so two requests that agree on these, and a
/// request validated a second time, get the same result.
pub proof fn lemma_verdict_is_a_function_of_three_fields(a: InstantiateMsg, b: InstantiateMsg)
    requires
        a.name@ == b.name@,
        a.symbol@ == b.symbol@,
        a.decimals == b.decimals,
    ensures
        a.verdict() == b.verdict(),
{
}

impl Default for InstantiateMsg {
    /// The empty request: no name, no symbol, no decimals, nobody holds or
    /// mints anything. It is not a valid request; it is a value to start from.
    fn default() -> (m: Self)
        ensures
            m.name@ == Seq::<char>::empty(),
            m.symbol@ == Seq::<char>::empty(),
            m.decimals == 0,
            m.initial_balances@ == Seq::<Cw20Coin>::empty(),
            m.mint is None,
            m.marketing is None,
    {
        InstantiateMsg {
            name: String::new(),
            symbol: String::new(),
            decimals: 0,
            initial_balances: Vec::new(),
            mint: None,
            marketing: None,
        }
    }
}

/// A question put to the token. Each variant has one fixed shape of answer.
#[derive(Clone, Debug, PartialEq)]
pub enum QueryMsg {
    /// The current balance of the given address, 0 if unset.
    Balance { address: String },
    /// The token's metadata: name, decimals, supply and the like.
    TokenInfo {},
    /// Who can mint, and the hard cap on the total supply after minting.
    Minter {},
    /// How much `spender` may use from the account of `owner`, 0 if unset.
    Allowance { owner: String, spender: String },
    /// All allowances that `owner` has approved, page by page.
    AllAllowances { owner: String, start_after: Option<String>, limit: Option<u32> },
    /// All allowances that `spender` has been granted, page by page.
    AllSpenderAllowances { spender: String, start_after: Option<String>, limit: Option<u32> },
    /// All accounts that have a balance, page by page.
    AllAccounts { start_after: Option<String>, limit: Option<u32> },
    /// The marketing metadata: description, logo, project URL and the like.
    MarketingInfo {},
    /// The embedded logo data, if any is stored on chain.
    DownloadLogo {},
    /// All addresses among the minters, page by page.
    Minters { start_after: Option<String>, limit: Option<u32> },
}

/// The request to migrate the contract. It carries no data.
#[derive(Clone, Debug, PartialEq)]
pub struct MigrateMsg {}

/// The answer to `QueryMsg::Minters`.
#[derive(Clone, Debug, PartialEq)]
pub struct MintersResponse {
    pub minters: Vec<String>,
}

} // verus!
