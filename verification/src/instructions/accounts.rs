//! What an instruction reads of the accounts it is given, what it asks the
//! token program to do, and the checks shared by several instructions.
use vstd::prelude::*;

use crate::error::RoastError;
use crate::pda::{associated_address, associated_token_address, key_option_view};
use crate::pubkey::Pubkey;

verus! {

/// A system account: its address, whether it signed, and its lamports.
#[derive(Clone, Copy, Debug, PartialEq, Eq)]
pub struct Wallet {
    pub key: Pubkey,
    pub is_signer: bool,
    pub lamports: u64,
}

/// A token account: its address, the wallet that owns it, its mint and balance.
#[derive(Clone, Copy, Debug, PartialEq, Eq)]
pub struct TokenAccount {
    pub key: Pubkey,
    pub owner: Pubkey,
    pub mint: Pubkey,
    pub amount: u64,
}

/// A mint: its address and the number of decimals of its tokens.
#[derive(Clone, Copy, Debug, PartialEq, Eq)]
pub struct Mint {
    pub key: Pubkey,
    pub decimals: u8,
}

/// A checked transfer that the token program is asked to make: `amount`
/// tokens of `mint` (with `decimals`) from `from` to `to`, signed by `authority`.
#[derive(Clone, Copy, Debug, PartialEq, Eq)]
pub struct TokenTransfer {
    pub from: Pubkey,
    pub to: Pubkey,
    pub authority: Pubkey,
    pub mint: Pubkey,
    pub amount: u64,
    pub decimals: u8,
}

/// A token account that the token program is asked to close, sending its
/// lamports to `destination`, signed by `authority`.
#[derive(Clone, Copy, Debug, PartialEq, Eq)]
pub struct CloseTokenAccount {
    pub account: Pubkey,
    pub destination: Pubkey,
    pub authority: Pubkey,
}

/// The refusal, if any, of a token account that must be the associated token
/// account of `wallet` for `mint`: it must be owned by the wallet, and its
/// address must be the wallet's associated address for the mint. Where no bump
/// derives an associated address at all (the associated token program's own
/// derivation panics then), the account is refused as not associated.
pub open spec fn associated_token_error(account: TokenAccount, wallet: Seq<u8>, mint: Seq<u8>) -> Option<RoastError> {
    if account.owner@ != wallet {
        Some(RoastError::ConstraintTokenOwner)
    } else if associated_address(wallet, mint) != Some(account.key@) {
        Some(RoastError::ConstraintAssociated)
    } else {
        None
    }
}

/// A refusal as the result of a check.
pub open spec fn check_result(e: Option<RoastError>) -> Result<(), RoastError> {
    match e {
        Some(err) => Err(err),
        None => Ok(()),
    }
}

/// Checks that `account` is the associated token account of `wallet` for `mint`.
pub fn check_associated_token(account: &TokenAccount, wallet: &Pubkey, mint: &Pubkey) -> (r: Result<(), RoastError>)
    ensures
        r == check_result(associated_token_error(*account, wallet@, mint@)),
{
    if !account.owner.key_eq(wallet) {
        return Err(RoastError::ConstraintTokenOwner);
    }
    match associated_token_address(wallet, mint) {
        Some(k) => {
            if k.key_eq(&account.key) {
                Ok(())
            } else {
                Err(RoastError::ConstraintAssociated)
            }
        },
        None => Err(RoastError::ConstraintAssociated),
    }
}

/// Checks that the account given for a program is that program.
pub fn check_program(given: &Pubkey, expected: &Pubkey) -> (r: Result<(), RoastError>)
    ensures
        r == (if given@ == expected@ { Ok(()) } else { Err(RoastError::InvalidProgramId) }),
{
    if given.key_eq(expected) {
        Ok(())
    } else {
        Err(RoastError::InvalidProgramId)
    }
}

} // verus!
