//! Settles the escrow by the receiver's answer and closes its token account.
use vstd::prelude::*;

use crate::error::{ErrorCode, RoastError};
use crate::instructions::accounts::{
    associated_token_error, check_associated_token, check_program, CloseTokenAccount, Mint,
    TokenAccount, TokenTransfer,
};
use crate::instructions::deposit_in_escrow::derives_escrow_pda;
use crate::pda::{escrow_pda_address, escrow_signer_seeds, escrow_signer_seeds_of, seeds_view};
use crate::pubkey::{system_program_id, system_program_key, token_program_id, token_program_key, Pubkey};
use crate::state::roast_escrow::{RoastEscrow, RoastStatus};

verus! {

/// The accounts of `execute_transfer`. Nobody has to sign: the escrow PDA
/// signs the token program's instructions with its seeds.
#[derive(Clone, Copy, Debug)]
pub struct ExecuteTransfer {
    /// The escrow PDA: the one stored in the roast, and the address its seeds
    /// and stored bump derive.
    pub escrow_pda: Pubkey,
    /// The escrow PDA's associated token account for the roast's mint.
    pub escrow_pda_token_account: TokenAccount,
    /// The roaster's associated token account for the roast's mint.
    pub roaster_token_account: TokenAccount,
    /// The receiver's associated token account for the roast's mint.
    pub receiver_token_account: TokenAccount,
    pub mint: Mint,
    pub token_program: Pubkey,
    pub system_program: Pubkey,
}

/// What settling a roast asks the token program to do, and the seeds the
/// escrow PDA signs those instructions with.
#[derive(Debug)]
pub struct Settlement {
    /// The escrowed amount's transfer: to the receiver when accepted, back to
    /// the roaster when rejected.
    pub transfer: TokenTransfer,
    /// Closing the escrow's token account.
    pub close: CloseTokenAccount,
    /// The escrow PDA's seeds with its bump.
    pub signer_seeds: Vec<Vec<u8>>,
}

/// The refusal, if any, of settling this roast with these accounts, in the
/// order the checks are made: the accounts (the escrow PDA must be both the
/// one its seeds derive and the one stored in the roast), then a roast that the
/// receiver has not answered yet.
pub open spec fn execute_error(escrow: RoastEscrow, accounts: ExecuteTransfer, program_id: Seq<u8>) -> Option<RoastError> {
    if accounts.token_program@ != token_program_id() || accounts.system_program@ != system_program_id() {
        Some(RoastError::InvalidProgramId)
    } else if !derives_escrow_pda(escrow, program_id, accounts.escrow_pda@) {
        Some(RoastError::ConstraintSeeds)
    } else if accounts.escrow_pda@ != escrow.escrow_pda@ {
        Some(RoastError::Program(ErrorCode::IncorrectEscrowPda))
    } else if associated_token_error(accounts.escrow_pda_token_account, accounts.escrow_pda@, escrow.mint@) is Some {
        associated_token_error(accounts.escrow_pda_token_account, accounts.escrow_pda@, escrow.mint@)
    } else if associated_token_error(accounts.roaster_token_account, escrow.roaster@, escrow.mint@) is Some {
        associated_token_error(accounts.roaster_token_account, escrow.roaster@, escrow.mint@)
    } else if associated_token_error(accounts.receiver_token_account, escrow.receiver@, escrow.mint@) is Some {
        associated_token_error(accounts.receiver_token_account, escrow.receiver@, escrow.mint@)
    } else if escrow.status == RoastStatus::Pending {
        Some(RoastError::Program(ErrorCode::InvalidStatusForTransfer))
    } else {
        None
    }
}

/// The transfer of the escrowed amount that settling asks for: to the
/// receiver's token account when the roast was accepted, back to the roaster's
/// when it was rejected.
pub open spec fn settlement_transfer(escrow: RoastEscrow, accounts: ExecuteTransfer) -> TokenTransfer {
    TokenTransfer {
        from: accounts.escrow_pda_token_account.key,
        to: if escrow.status == RoastStatus::Accepted {
            accounts.receiver_token_account.key
        } else {
            accounts.roaster_token_account.key
        },
        authority: accounts.escrow_pda,
        mint: accounts.mint.key,
        amount: escrow.amount,
        decimals: accounts.mint.decimals,
    }
}

/// Closing the escrow's token account: its lamports go to the receiver when
/// the roast was accepted, to the roaster otherwise.
pub open spec fn settlement_close(escrow: RoastEscrow, accounts: ExecuteTransfer) -> CloseTokenAccount {
    CloseTokenAccount {
        account: accounts.escrow_pda_token_account.key,
        destination: if escrow.status == RoastStatus::Accepted {
            escrow.receiver
        } else {
            escrow.roaster
        },
        authority: accounts.escrow_pda,
    }
}

/// Checks the accounts of a settlement and gives what it asks the token
/// program to do: pay the escrowed amount to the receiver when the roast was
/// accepted, refund it to the roaster when it was rejected, then close the
/// escrow's token account. A roast not answered yet is not settled.
pub fn execute_transfer(escrow: &RoastEscrow, accounts: &ExecuteTransfer, program_id: &Pubkey) -> (r: Result<Settlement, RoastError>)
    ensures
        r is Ok <==> execute_error(*escrow, *accounts, program_id@) is None,
        r matches Err(e) ==> execute_error(*escrow, *accounts, program_id@) == Some(e),
        r matches Ok(s) ==> {
            &&& s.transfer == settlement_transfer(*escrow, *accounts)
            &&& s.close == settlement_close(*escrow, *accounts)
            &&& seeds_view(s.signer_seeds@) == escrow_signer_seeds_of(*escrow)
        },
{
    check_program(&accounts.token_program, &token_program_key())?;
    check_program(&accounts.system_program, &system_program_key())?;
    match escrow_pda_address(escrow, program_id) {
        Some(k) => {
            if !k.key_eq(&accounts.escrow_pda) {
                return Err(RoastError::ConstraintSeeds);
            }
        },
        None => {
            return Err(RoastError::ConstraintSeeds);
        },
    }
    if !accounts.escrow_pda.key_eq(&escrow.escrow_pda) {
        return Err(RoastError::Program(ErrorCode::IncorrectEscrowPda));
    }
    check_associated_token(&accounts.escrow_pda_token_account, &accounts.escrow_pda, &escrow.mint)?;
    check_associated_token(&accounts.roaster_token_account, &escrow.roaster, &escrow.mint)?;
    check_associated_token(&accounts.receiver_token_account, &escrow.receiver, &escrow.mint)?;
    let to = match escrow.status {
        RoastStatus::Pending => {
            return Err(RoastError::Program(ErrorCode::InvalidStatusForTransfer));
        },
        RoastStatus::Accepted => accounts.receiver_token_account.key,
        RoastStatus::Rejected => accounts.roaster_token_account.key,
    };
    let transfer = TokenTransfer {
        from: accounts.escrow_pda_token_account.key,
        to,
        authority: accounts.escrow_pda,
        mint: accounts.mint.key,
        amount: escrow.amount,
        decimals: accounts.mint.decimals,
    };
    let destination = match escrow.status {
        RoastStatus::Accepted => escrow.receiver,
        _ => escrow.roaster,
    };
    let close = CloseTokenAccount {
        account: accounts.escrow_pda_token_account.key,
        destination,
        authority: accounts.escrow_pda,
    };
    Ok(Settlement { transfer, close, signer_seeds: escrow_signer_seeds(escrow) })
}

} // verus!
