use vstd::prelude::*;
use crate::errors::ErrorCode;
use crate::identity::Identity;

verus! {

/// Length in bytes of a stored token account.
pub const TOKEN_ACCOUNT_LEN: usize = 165;

/// Length in bytes of a stored mint.
pub const MINT_LEN: usize = 82;

/// The amount that `spl_token` reads out of the stored bytes of a token
/// account, or `None` where it rejects them.
pub uninterp spec fn unpacked_amount(data: Seq<u8>) -> Option<u64>;

/// The address that the associated-token-account convention derives for a
/// wallet and a mint, each given by its 32 bytes.
pub uninterp spec fn associated_address(wallet: Seq<u8>, mint: Seq<u8>) -> Seq<u8>;

/// Whether the associated-token-account convention yields an address for a
/// wallet and a mint, each given by its 32 bytes.
pub uninterp spec fn address_derivable(wallet: Seq<u8>, mint: Seq<u8>) -> bool;

/// The identity of the Token-2022 program, byte by byte.
pub open spec fn token_2022_id_bytes() -> Seq<u8> {
    seq![
        6u8, 221u8, 246u8, 225u8, 238u8, 117u8, 143u8, 222u8,
        24u8, 66u8, 93u8, 188u8, 228u8, 108u8, 205u8, 218u8,
        182u8, 26u8, 252u8, 77u8, 131u8, 185u8, 13u8, 39u8,
        254u8, 189u8, 249u8, 40u8, 216u8, 161u8, 139u8, 252u8,
    ]
}

/// Reads the amount of a token account from its stored bytes.
///
/// Trusted: calls `spl_token::state::Account::unpack` and hands out the
/// `amount` field. The contract names that result, and claims of it only
/// that bytes of any length but 165 are rejected, as `unpack` does before
/// it reads anything.
#[verifier::external_body]
pub(crate) fn unpack_amount(data: &Vec<u8>) -> (r: Option<u64>)
    ensures
        r == unpacked_amount(data@),
        data@.len() != TOKEN_ACCOUNT_LEN ==> r is None,
{
    match <spl_token::state::Account as solana_program::program_pack::Pack>::unpack(data) {
        Ok(account) => Some(account.amount),
        Err(_) => None,
    }
}

/// Tells whether the associated-token-account convention yields an address
/// for `wallet` and `mint`.
///
/// Trusted: calls `solana_program::pubkey::Pubkey::try_find_program_address`
/// with the seeds and the program that
/// `get_associated_token_address` derives with: the wallet, the token
/// program and the mint, under the associated-token-account program. That
/// search tries the bump seeds from 255 downwards and returns nothing only
/// where none yields an address off the curve. The contract names the
/// answer.
#[verifier::external_body]
fn can_derive_address(wallet: &Identity, mint: &Identity) -> (r: bool)
    ensures
        r == address_derivable(wallet.bytes@, mint.bytes@),
{
    let token_program = anchor_spl::token::ID;
    solana_program::pubkey::Pubkey::try_find_program_address(
        &[&wallet.bytes[..], token_program.as_ref(), &mint.bytes[..]],
        &anchor_spl::associated_token::ID,
    ).is_some()
}

/// Derives the settlement account of `wallet` for the token `mint`.
///
/// Trusted: calls `anchor_spl::associated_token::get_associated_token_address`,
/// a function of its two arguments alone; the contract names its result.
/// That function panics where the search for a bump seed finds none, so
/// the call is admitted only where the search is known to succeed.
#[verifier::external_body]
fn associated_token_address(wallet: &Identity, mint: &Identity) -> (r: Identity)
    requires
        address_derivable(wallet.bytes@, mint.bytes@),
    ensures
        r.bytes@ == associated_address(wallet.bytes@, mint.bytes@),
{
    let wallet_key = solana_program::pubkey::Pubkey::new_from_array(wallet.bytes);
    let mint_key = solana_program::pubkey::Pubkey::new_from_array(mint.bytes);
    Identity {
        bytes: anchor_spl::associated_token::get_associated_token_address(
            &wallet_key,
            &mint_key,
        ).to_bytes(),
    }
}

/// The identity that has the given 32 bytes.
pub open spec fn identity_of(bytes: Seq<u8>) -> Identity {
    choose|id: Identity| id.bytes@ == bytes
}

/// The settlement account of `wallet` for the token `mint`, where the
/// convention yields one.
pub open spec fn ata_of(wallet: Identity, mint: Identity) -> Option<Identity> {
    if address_derivable(wallet.bytes@, mint.bytes@) {
        Some(identity_of(associated_address(wallet.bytes@, mint.bytes@)))
    } else {
        None
    }
}

/// Derives the settlement account of `wallet` for the token `mint`, or
/// finds that the convention yields none.
pub fn settlement_account(wallet: &Identity, mint: &Identity) -> (r: Option<Identity>)
    ensures
        r == ata_of(*wallet, *mint),
{
    if !can_derive_address(wallet, mint) {
        return None;
    }
    let r = associated_token_address(wallet, mint);
    proof {
        let named = identity_of(associated_address(wallet.bytes@, mint.bytes@));
        assert(named.bytes@ == r.bytes@);
        assert(named.bytes =~= r.bytes);
    }
    Some(r)
}

/// The system program's identity, which owns every plain wallet.
///
/// Trusted: `solana_program::system_program::ID` is declared as the
/// all-zero address; the contract claims exactly those bytes.
#[verifier::external_body]
pub(crate) fn system_program_id() -> (r: Identity)
    ensures
        r.is_zero(),
{
    Identity { bytes: solana_program::system_program::ID.to_bytes() }
}

/// The Token-2022 program's identity.
///
/// Trusted: `spl_token_2022::id` returns the address that the crate
/// declares; the contract claims its 32 bytes.
#[verifier::external_body]
pub(crate) fn token_2022_program_id() -> (r: Identity)
    ensures
        r.bytes@ == token_2022_id_bytes(),
{
    Identity { bytes: spl_token_2022::id().to_bytes() }
}

/// The balance held in a token account, read from its stored bytes.
pub fn get_token_balance(data: &Vec<u8>) -> (r: Result<u64, ErrorCode>)
    ensures
        r == balance_spec(data@),
        data@.len() != TOKEN_ACCOUNT_LEN ==> r is Err,
{
    balance_of(unpack_amount(data))
}

/// The balance of a token account with stored bytes `data`.
pub open spec fn balance_spec(data: Seq<u8>) -> Result<u64, ErrorCode> {
    match unpacked_amount(data) {
        Some(amount) => Ok(amount),
        None => Err(ErrorCode::TokenAccountCreationFailed),
    }
}

/// Turns the outcome of reading a token account into a balance, or into
/// the error for an account that could not be read.
pub fn balance_of(unpacked: Option<u64>) -> (r: Result<u64, ErrorCode>)
    ensures
        unpacked matches Some(amount) ==> r == Ok::<u64, ErrorCode>(amount),
        unpacked is None ==> r == Err::<u64, ErrorCode>(ErrorCode::TokenAccountCreationFailed),
{
    match unpacked {
        Some(amount) => Ok(amount),
        None => Err(ErrorCode::TokenAccountCreationFailed),
    }
}

/// Whether stored data of this length is a token account.
pub fn is_token_account(data_len: usize) -> (r: bool)
    ensures
        r == (data_len == TOKEN_ACCOUNT_LEN),
{
    data_len == TOKEN_ACCOUNT_LEN
}

/// Whether stored data of this length is a mint.
pub fn is_mint_account(data_len: usize) -> (r: bool)
    ensures
        r == (data_len == MINT_LEN),
{
    data_len == MINT_LEN
}

} // verus!
