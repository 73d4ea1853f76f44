//! The receiver accepts or rejects the roast.
use vstd::prelude::*;

use crate::error::RoastError;
use crate::instructions::accounts::Wallet;
use crate::state::roast_escrow::{with_status, RoastEscrow, RoastStatus};

verus! {

/// The accounts of `receiver_responds`: the receiver, who must sign and be the
/// receiver stored in the roast.
#[derive(Clone, Copy, Debug)]
pub struct ReceiverResponds {
    pub receiver: Wallet,
}

/// The refusal, if any, of a response by these accounts to this roast.
pub open spec fn respond_error(escrow: RoastEscrow, accounts: ReceiverResponds) -> Option<RoastError> {
    if !accounts.receiver.is_signer {
        Some(RoastError::AccountNotSigner)
    } else if escrow.receiver@ != accounts.receiver.key@ {
        Some(RoastError::ConstraintHasOne)
    } else {
        None
    }
}

/// The status that an answer gives the roast.
pub open spec fn response_status(accepted: bool) -> RoastStatus {
    if accepted {
        RoastStatus::Accepted
    } else {
        RoastStatus::Rejected
    }
}

/// Records the receiver's answer: `Accepted` when `accepted`, else `Rejected`.
/// The answer can be given again, and the last one counts; nothing else of the
/// roast changes.
pub fn receiver_responds(escrow: &mut RoastEscrow, accounts: &ReceiverResponds, accepted: bool) -> (r: Result<(), RoastError>)
    ensures
        respond_error(*old(escrow), *accounts) is None ==> r is Ok && *final(escrow) == with_status(
            *old(escrow),
            response_status(accepted),
        ),
        respond_error(*old(escrow), *accounts) matches Some(e) ==> r == Err::<(), RoastError>(e)
            && *final(escrow) == *old(escrow),
{
    if !accounts.receiver.is_signer {
        return Err(RoastError::AccountNotSigner);
    }
    if !escrow.receiver.key_eq(&accounts.receiver.key) {
        return Err(RoastError::ConstraintHasOne);
    }
    escrow.status = if accepted {
        RoastStatus::Accepted
    } else {
        RoastStatus::Rejected
    };
    Ok(())
}

} // verus!
