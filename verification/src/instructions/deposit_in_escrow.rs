//! The roaster moves tokens into the escrow.
use vstd::prelude::*;

use crate::error::{ErrorCode, RoastError};
use crate::instructions::accounts::{
    associated_token_error, check_associated_token, check_program, Mint, TokenAccount,
    TokenTransfer, Wallet,
};
use crate::pda::{derived_address, escrow_pda_address, escrow_signer_seeds_of};
use crate::pubkey::{token_program_id, token_program_key, Pubkey};
use crate::state::roast_escrow::RoastEscrow;

verus! {

/// The accounts of `deposit_in_escrow`.
#[derive(Clone, Copy, Debug)]
pub struct DepositInEscrow {
    /// The roaster, who signs and pays.
    pub roaster: Wallet,
    /// The escrow PDA: the one stored in the roast, and the address its seeds
    /// and stored bump derive.
    pub escrow_pda: Pubkey,
    /// The roaster's associated token account for the roast's mint.
    pub roaster_token_account: TokenAccount,
    /// The escrow PDA's associated token account for the roast's mint.
    pub escrow_pda_token_account: TokenAccount,
    pub mint: Mint,
    pub token_program: Pubkey,
}

/// Whether `key` is the address that the roast's escrow seeds and stored bump
/// derive under `program_id` (which need not be the escrow PDA stored in the
/// roast).
pub open spec fn derives_escrow_pda(escrow: RoastEscrow, program_id: Seq<u8>, key: Seq<u8>) -> bool {
    derived_address(escrow_signer_seeds_of(escrow), program_id) == Some(key)
}

/// The refusal, if any, of a deposit of `amount` tokens into this roast with
/// these accounts, in the order the checks are made. The escrow PDA must be
/// both the one its seeds derive and the one stored in the roast.
pub open spec fn deposit_error(escrow: RoastEscrow, accounts: DepositInEscrow, program_id: Seq<u8>, amount: u64) -> Option<RoastError> {
    if !accounts.roaster.is_signer {
        Some(RoastError::AccountNotSigner)
    } else if accounts.token_program@ != token_program_id() {
        Some(RoastError::InvalidProgramId)
    } else if escrow.roaster@ != accounts.roaster.key@ {
        Some(RoastError::ConstraintHasOne)
    } else if !derives_escrow_pda(escrow, program_id, accounts.escrow_pda@) {
        Some(RoastError::ConstraintSeeds)
    } else if accounts.escrow_pda@ != escrow.escrow_pda@ {
        Some(RoastError::Program(ErrorCode::IncorrectEscrowPda))
    } else if associated_token_error(accounts.roaster_token_account, accounts.roaster.key@, escrow.mint@) is Some {
        associated_token_error(accounts.roaster_token_account, accounts.roaster.key@, escrow.mint@)
    } else if associated_token_error(accounts.escrow_pda_token_account, accounts.escrow_pda@, escrow.mint@) is Some {
        associated_token_error(accounts.escrow_pda_token_account, accounts.escrow_pda@, escrow.mint@)
    } else if amount == 0 {
        Some(RoastError::Program(ErrorCode::AmountMustBeGreaterThanZero))
    } else {
        None
    }
}

/// The transfer a deposit asks for: `amount` tokens from the roaster's token
/// account into the escrow PDA's, signed by the roaster.
pub open spec fn deposit_transfer(accounts: DepositInEscrow, amount: u64) -> TokenTransfer {
    TokenTransfer {
        from: accounts.roaster_token_account.key,
        to: accounts.escrow_pda_token_account.key,
        authority: accounts.roaster.key,
        mint: accounts.mint.key,
        amount,
        decimals: accounts.mint.decimals,
    }
}

/// Checks the accounts of a deposit of `amount` tokens into the roast and
/// gives the transfer that moves them from the roaster into the escrow.
pub fn deposit_in_escrow(escrow: &RoastEscrow, accounts: &DepositInEscrow, program_id: &Pubkey, amount: u64) -> (r: Result<TokenTransfer, RoastError>)
    ensures
        r == (match deposit_error(*escrow, *accounts, program_id@, amount) {
            Some(e) => Err(e),
            None => Ok(deposit_transfer(*accounts, amount)),
        }),
{
    if !accounts.roaster.is_signer {
        return Err(RoastError::AccountNotSigner);
    }
    check_program(&accounts.token_program, &token_program_key())?;
    if !escrow.roaster.key_eq(&accounts.roaster.key) {
        return Err(RoastError::ConstraintHasOne);
    }
    match escrow_pda_address(escrow, program_id) {
        Some(k) => {
            if !k.key_eq(&accounts.escrow_pda) {
                return Err(RoastError::ConstraintSeeds);
            }
        },
        None => {
            return Err(RoastError::ConstraintSeeds);
        },
    }
    if !accounts.escrow_pda.key_eq(&escrow.escrow_pda) {
        return Err(RoastError::Program(ErrorCode::IncorrectEscrowPda));
    }
    check_associated_token(&accounts.roaster_token_account, &accounts.roaster.key, &escrow.mint)?;
    check_associated_token(&accounts.escrow_pda_token_account, &accounts.escrow_pda, &escrow.mint)?;
    if amount == 0 {
        return Err(RoastError::Program(ErrorCode::AmountMustBeGreaterThanZero));
    }
    Ok(TokenTransfer {
        from: accounts.roaster_token_account.key,
        to: accounts.escrow_pda_token_account.key,
        authority: accounts.roaster.key,
        mint: accounts.mint.key,
        amount,
        decimals: accounts.mint.decimals,
    })
}

} // verus!
