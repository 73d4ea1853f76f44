//! Closes the roast account once the receiver has answered, paying its
//! lamports out.
use vstd::prelude::*;

use crate::error::{ErrorCode, RoastError};
use crate::instructions::accounts::Wallet;
use crate::pubkey::Pubkey;
use crate::state::roast_escrow::{RoastEscrow, RoastStatus};

verus! {

/// The accounts of `close_roast_escrow`. The roaster must sign and be the
/// roaster stored in the roast; the receiver account must be the roast's
/// receiver when the roast was accepted, and is not read otherwise.
#[derive(Clone, Copy, Debug)]
pub struct CloseRoastEscrow {
    pub roast_escrow: Pubkey,
    /// Lamports held by the roast account.
    pub roast_escrow_lamports: u64,
    /// Receives the lamports when the roast was accepted.
    pub receiver: Wallet,
    /// Signs; receives the lamports when the roast was rejected.
    pub roaster: Wallet,
}

/// Where the roast account's lamports went.
#[derive(Clone, Copy, Debug, PartialEq, Eq)]
pub struct RentRefund {
    /// The account paid.
    pub beneficiary: Pubkey,
    /// Its lamports afterwards.
    pub beneficiary_lamports: u64,
    /// The roast account's lamports afterwards.
    pub roast_escrow_lamports: u64,
}

/// The refusal, if any, of closing this roast with these accounts, in the
/// order the checks are made: the signer, the roast account not closed into
/// itself, the roaster against the roast's, a roast not answered yet, and for
/// an accepted roast the receiver against the roast's.
pub open spec fn close_error(escrow: RoastEscrow, accounts: CloseRoastEscrow) -> Option<RoastError> {
    if !accounts.roaster.is_signer {
        Some(RoastError::AccountNotSigner)
    } else if accounts.roast_escrow@ == accounts.roaster.key@ {
        Some(RoastError::ConstraintClose)
    } else if accounts.roaster.key@ != escrow.roaster@ {
        Some(RoastError::Program(ErrorCode::UnauthorizedAction))
    } else if escrow.status == RoastStatus::Pending {
        Some(RoastError::Program(ErrorCode::RoastNotCompleted))
    } else if escrow.status == RoastStatus::Accepted && accounts.receiver.key@ != escrow.receiver@ {
        Some(RoastError::Program(ErrorCode::UnauthorizedAction))
    } else {
        None
    }
}

/// The account that is paid: the receiver when the roast was accepted, the
/// roaster otherwise.
pub open spec fn close_beneficiary(escrow: RoastEscrow, accounts: CloseRoastEscrow) -> Wallet {
    if escrow.status == RoastStatus::Accepted {
        accounts.receiver
    } else {
        accounts.roaster
    }
}

/// Whether the beneficiary's balance can take the roast account's lamports.
pub open spec fn close_fits(escrow: RoastEscrow, accounts: CloseRoastEscrow) -> bool {
    close_beneficiary(escrow, accounts).lamports + accounts.roast_escrow_lamports <= u64::MAX
}

/// What closing this roast with these accounts gives.
pub open spec fn close_outcome(escrow: RoastEscrow, accounts: CloseRoastEscrow) -> Result<RentRefund, RoastError> {
    match close_error(escrow, accounts) {
        Some(e) => Err(e),
        None => Ok(
            RentRefund {
                beneficiary: close_beneficiary(escrow, accounts).key,
                beneficiary_lamports: (close_beneficiary(escrow, accounts).lamports
                    + accounts.roast_escrow_lamports) as u64,
                roast_escrow_lamports: 0,
            },
        ),
    }
}

/// Whether closing, if it is not refused, can add the roast account's
/// lamports to the beneficiary's without passing `u64::MAX`.
pub fn close_can_pay(escrow: &RoastEscrow, accounts: &CloseRoastEscrow) -> (r: bool)
    ensures
        r == (close_error(*escrow, *accounts) is None ==> close_fits(*escrow, *accounts)),
{
    if !accounts.roaster.is_signer || accounts.roast_escrow.key_eq(&accounts.roaster.key)
        || !accounts.roaster.key.key_eq(&escrow.roaster) {
        return true;
    }
    let beneficiary = match escrow.status {
        RoastStatus::Pending => {
            return true;
        },
        RoastStatus::Accepted => {
            if !accounts.receiver.key.key_eq(&escrow.receiver) {
                return true;
            }
            accounts.receiver.lamports
        },
        RoastStatus::Rejected => accounts.roaster.lamports,
    };
    beneficiary <= u64::MAX - accounts.roast_escrow_lamports
}

/// Moves all the roast account's lamports to the roast's receiver when it was
/// accepted, or back to its roaster when it was rejected; only the roaster
/// closes, and a pending roast is not closed.
pub fn close_roast_escrow(escrow: &RoastEscrow, accounts: &CloseRoastEscrow) -> (r: Result<RentRefund, RoastError>)
    requires
        close_error(*escrow, *accounts) is None ==> close_fits(*escrow, *accounts),
    ensures
        r == close_outcome(*escrow, *accounts),
{
    if !accounts.roaster.is_signer {
        return Err(RoastError::AccountNotSigner);
    }
    if accounts.roast_escrow.key_eq(&accounts.roaster.key) {
        return Err(RoastError::ConstraintClose);
    }
    if !accounts.roaster.key.key_eq(&escrow.roaster) {
        return Err(RoastError::Program(ErrorCode::UnauthorizedAction));
    }
    match escrow.status {
        RoastStatus::Pending => Err(RoastError::Program(ErrorCode::RoastNotCompleted)),
        RoastStatus::Accepted => {
            if !accounts.receiver.key.key_eq(&escrow.receiver) {
                return Err(RoastError::Program(ErrorCode::UnauthorizedAction));
            }
            Ok(
                RentRefund {
                    beneficiary: accounts.receiver.key,
                    beneficiary_lamports: accounts.receiver.lamports + accounts.roast_escrow_lamports,
                    roast_escrow_lamports: 0,
                },
            )
        },
        RoastStatus::Rejected => Ok(
            RentRefund {
                beneficiary: accounts.roaster.key,
                beneficiary_lamports: accounts.roaster.lamports + accounts.roast_escrow_lamports,
                roast_escrow_lamports: 0,
            },
        ),
    }
}

} // verus!
