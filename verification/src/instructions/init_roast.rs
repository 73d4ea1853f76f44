//! The roaster opens a roast: its account, its escrow PDA and the message.
use vstd::prelude::*;

use crate::error::{ErrorCode, RoastError};
use crate::instructions::accounts::{check_program, Mint, Wallet};
use crate::pda::{escrow_seeds, find_escrow_pda_address, find_pda, find_roast_escrow_address, is_canonical_address, roast_escrow_seeds};
use crate::pubkey::{
    associated_token_program_id, associated_token_program_key, system_program_id,
    system_program_key, token_program_id, token_program_key, Pubkey,
};
use crate::state::roast_escrow::{RoastEscrow, RoastStatus, MAX_ROAST_LENGTH};

verus! {

/// The accounts of `initialize_roast` that it checks or records.
#[derive(Clone, Copy, Debug)]
pub struct InitializeRoast {
    /// The roaster, who signs and pays for the new accounts.
    pub roaster: Wallet,
    /// The new roast account, at the canonical address of its seeds.
    pub roast_escrow: Pubkey,
    /// The new escrow PDA, at the canonical address of its seeds.
    pub escrow_pda: Pubkey,
    /// The mint of the escrowed tokens; the roast records it.
    pub mint: Mint,
    /// The receiver; any account.
    pub receiver: Pubkey,
    pub system_program: Pubkey,
    pub token_program: Pubkey,
    pub associated_token_program: Pubkey,
}

/// The refusal, if any, of opening a roast of `amount` tokens of `mint` with
/// these accounts and message bytes, in the order the checks are made: the
/// accounts, then the mint named against the mint account, a zero amount, and
/// a message longer than `MAX_ROAST_LENGTH`. Where no bump derives a
/// canonical address for the seeds (the framework's search panics then), the
/// account is refused by its seeds.
pub open spec fn init_error(
    accounts: InitializeRoast,
    program_id: Seq<u8>,
    message: Seq<u8>,
    amount: u64,
    mint: Pubkey,
    seed_id: u64,
) -> Option<RoastError> {
    if !accounts.roaster.is_signer {
        Some(RoastError::AccountNotSigner)
    } else if accounts.system_program@ != system_program_id() || accounts.token_program@
        != token_program_id() || accounts.associated_token_program@ != associated_token_program_id() {
        Some(RoastError::InvalidProgramId)
    } else if !is_canonical_address(
        roast_escrow_seeds(accounts.roaster.key@, accounts.receiver@, seed_id),
        program_id,
        accounts.roast_escrow@,
    ) {
        Some(RoastError::ConstraintSeeds)
    } else if !is_canonical_address(
        escrow_seeds(accounts.roaster.key@, accounts.receiver@, seed_id),
        program_id,
        accounts.escrow_pda@,
    ) {
        Some(RoastError::ConstraintSeeds)
    } else if mint@ != accounts.mint.key@ {
        Some(RoastError::Program(ErrorCode::MintMismatch))
    } else if amount == 0 {
        Some(RoastError::Program(ErrorCode::AmountMustBeGreaterThanZero))
    } else if message.len() > MAX_ROAST_LENGTH {
        Some(RoastError::Program(ErrorCode::RoastMessageTooLong))
    } else {
        None
    }
}

/// Whether `escrow` is the roast that these accounts and arguments open: the
/// given parties, message bytes, amount, mint and seed id, the given escrow
/// PDA, pending, with the bump of the roast account's own address.
pub open spec fn is_new_roast(
    escrow: RoastEscrow,
    accounts: InitializeRoast,
    program_id: Seq<u8>,
    message: Seq<u8>,
    amount: u64,
    mint: Pubkey,
    seed_id: u64,
) -> bool {
    &&& escrow.roaster == accounts.roaster.key
    &&& escrow.receiver == accounts.receiver
    &&& escrow.roast_message@ == message
    &&& escrow.amount == amount
    &&& escrow.mint == mint
    &&& escrow.escrow_pda == accounts.escrow_pda
    &&& escrow.status == RoastStatus::Pending
    &&& escrow.seed_id == seed_id
    &&& find_pda(roast_escrow_seeds(accounts.roaster.key@, accounts.receiver@, seed_id), program_id)
        == Some((accounts.roast_escrow@, escrow.bump))
}

/// Checks the accounts and opens the roast with the message's bytes.
pub fn initialize_roast_bytes(
    accounts: &InitializeRoast,
    program_id: &Pubkey,
    message: Vec<u8>,
    amount: u64,
    mint: Pubkey,
    seed_id: u64,
) -> (r: Result<RoastEscrow, RoastError>)
    ensures
        r is Ok <==> init_error(*accounts, program_id@, message@, amount, mint, seed_id) is None,
        r matches Err(e) ==> init_error(*accounts, program_id@, message@, amount, mint, seed_id) == Some(e),
        r matches Ok(escrow) ==> is_new_roast(escrow, *accounts, program_id@, message@, amount, mint, seed_id),
{
    if !accounts.roaster.is_signer {
        return Err(RoastError::AccountNotSigner);
    }
    check_program(&accounts.system_program, &system_program_key())?;
    check_program(&accounts.token_program, &token_program_key())?;
    check_program(&accounts.associated_token_program, &associated_token_program_key())?;
    let bump = match find_roast_escrow_address(&accounts.roaster.key, &accounts.receiver, seed_id, program_id) {
        Some((k, b)) => {
            if !k.key_eq(&accounts.roast_escrow) {
                return Err(RoastError::ConstraintSeeds);
            }
            b
        },
        None => {
            return Err(RoastError::ConstraintSeeds);
        },
    };
    match find_escrow_pda_address(&accounts.roaster.key, &accounts.receiver, seed_id, program_id) {
        Some((k, _)) => {
            if !k.key_eq(&accounts.escrow_pda) {
                return Err(RoastError::ConstraintSeeds);
            }
        },
        None => {
            return Err(RoastError::ConstraintSeeds);
        },
    }
    if !mint.key_eq(&accounts.mint.key) {
        return Err(RoastError::Program(ErrorCode::MintMismatch));
    }
    if amount == 0 {
        return Err(RoastError::Program(ErrorCode::AmountMustBeGreaterThanZero));
    }
    if message.len() > MAX_ROAST_LENGTH {
        return Err(RoastError::Program(ErrorCode::RoastMessageTooLong));
    }
    Ok(RoastEscrow {
        roaster: accounts.roaster.key,
        receiver: accounts.receiver,
        roast_message: message,
        amount,
        mint,
        escrow_pda: accounts.escrow_pda,
        status: RoastStatus::Pending,
        seed_id,
        bump,
    })
}

/// Opens a roast of `amount` tokens of `mint` with `roast_message`, whose
/// UTF-8 bytes are stored.
pub fn initialize_roast(
    accounts: &InitializeRoast,
    program_id: &Pubkey,
    roast_message: String,
    amount: u64,
    mint: Pubkey,
    seed_id: u64,
) -> (r: Result<RoastEscrow, RoastError>)
    ensures
        r is Ok <==> init_error(*accounts, program_id@, vstd::utf8::encode_utf8(roast_message@), amount, mint, seed_id) is None,
        r matches Err(e) ==> init_error(*accounts, program_id@, vstd::utf8::encode_utf8(roast_message@), amount, mint, seed_id) == Some(e),
        r matches Ok(escrow) ==> is_new_roast(
            escrow,
            *accounts,
            program_id@,
            vstd::utf8::encode_utf8(roast_message@),
            amount,
            mint,
            seed_id,
        ),
{
    let message_bytes = roast_message.as_str().as_bytes();
    let message = vstd::slice::slice_to_vec(message_bytes);
    initialize_roast_bytes(accounts, program_id, message, amount, mint, seed_id)
}

} // verus!
