use anchor_lang::error::ErrorCode as A;
use anchor_lang::prelude::Pubkey as SolKey;
use paytoroast::error::ERROR_CODE_OFFSET;
use paytoroast::pda::{
    associated_token_address, escrow_pda_address, escrow_pda_seeds, escrow_signer_seeds,
    find_escrow_pda_address, find_roast_escrow_address, roast_escrow_pda_seeds, u64_le_bytes,
};
use paytoroast::pubkey::{
    associated_token_program_key, roast_program_key, system_program_key, token_program_key,
};
use paytoroast::state::roast_escrow::{
    MAX_ROAST_LENGTH, ROAST_ESCROW_FIXED_LEN, ROAST_ESCROW_INIT_SPACE,
};
use paytoroast::{
    close_can_pay, close_roast_escrow, deposit_in_escrow, execute_transfer, initialize_roast,
    initialize_roast_bytes, receiver_responds, CloseRoastEscrow, DepositInEscrow, ErrorCode,
    ExecuteTransfer, InitializeRoast, Mint, Pubkey, ReceiverResponds, RoastError, RoastEscrow,
    RoastStatus, TokenAccount, TokenTransfer, Wallet,
};

fn key(b: u8) -> Pubkey {
    let mut bytes = [b; 32];
    bytes[0] = 0xA5;
    Pubkey::new_from_array(bytes)
}

fn sol(k: &Pubkey) -> SolKey {
    SolKey::new_from_array(k.to_bytes())
}

fn lib(k: &SolKey) -> Pubkey {
    Pubkey::new_from_array(k.to_bytes())
}

fn program() -> Pubkey {
    roast_program_key()
}

fn roaster() -> Pubkey {
    key(1)
}

fn receiver() -> Pubkey {
    key(2)
}

fn mint_key() -> Pubkey {
    key(3)
}

fn ata(wallet: &Pubkey, mint: &Pubkey) -> Pubkey {
    lib(&anchor_spl::associated_token::get_associated_token_address(&sol(wallet), &sol(mint)))
}

fn find(prefix: &[u8], roaster: &Pubkey, receiver: &Pubkey, seed_id: u64) -> (Pubkey, u8) {
    let (k, b) = SolKey::find_program_address(
        &[prefix, &roaster.to_bytes(), &receiver.to_bytes(), &seed_id.to_le_bytes()],
        &sol(&program()),
    );
    (lib(&k), b)
}

/// A roast whose stored bump is the escrow PDA's own bump, so that the seeds
/// checks of deposits and settlements accept its escrow PDA.
fn escrow_with(status: RoastStatus, amount: u64) -> RoastEscrow {
    let seed_id = 7u64;
    let (pda, bump) = find(b"escrow", &roaster(), &receiver(), seed_id);
    RoastEscrow {
        roaster: roaster(),
        receiver: receiver(),
        roast_message: b"your code compiles on the first try, suspicious".to_vec(),
        amount,
        mint: mint_key(),
        escrow_pda: pda,
        status,
        seed_id,
        bump,
    }
}

fn token_account(wallet: &Pubkey, amount: u64) -> TokenAccount {
    TokenAccount { key: ata(wallet, &mint_key()), owner: *wallet, mint: mint_key(), amount }
}

fn mint() -> Mint {
    Mint { key: mint_key(), decimals: 6 }
}

fn init_accounts(seed_id: u64) -> InitializeRoast {
    let (roast_escrow, _) = find(b"roast_escrow", &roaster(), &receiver(), seed_id);
    let (escrow_pda, _) = find(b"escrow", &roaster(), &receiver(), seed_id);
    InitializeRoast {
        roaster: Wallet { key: roaster(), is_signer: true, lamports: 10_000_000 },
        roast_escrow,
        escrow_pda,
        mint: mint(),
        receiver: receiver(),
        system_program: system_program_key(),
        token_program: token_program_key(),
        associated_token_program: associated_token_program_key(),
    }
}

fn deposit_accounts(escrow: &RoastEscrow) -> DepositInEscrow {
    DepositInEscrow {
        roaster: Wallet { key: escrow.roaster, is_signer: true, lamports: 5_000_000 },
        escrow_pda: escrow.escrow_pda,
        roaster_token_account: token_account(&escrow.roaster, 1_000),
        escrow_pda_token_account: token_account(&escrow.escrow_pda, 0),
        mint: mint(),
        token_program: token_program_key(),
    }
}

fn execute_accounts(escrow: &RoastEscrow) -> ExecuteTransfer {
    ExecuteTransfer {
        escrow_pda: escrow.escrow_pda,
        escrow_pda_token_account: token_account(&escrow.escrow_pda, escrow.amount),
        roaster_token_account: token_account(&escrow.roaster, 0),
        receiver_token_account: token_account(&escrow.receiver, 0),
        mint: mint(),
        token_program: token_program_key(),
        system_program: system_program_key(),
    }
}

fn close_accounts(escrow_lamports: u64) -> CloseRoastEscrow {
    CloseRoastEscrow {
        roast_escrow: key(9),
        roast_escrow_lamports: escrow_lamports,
        receiver: Wallet { key: receiver(), is_signer: false, lamports: 1_000 },
        roaster: Wallet { key: roaster(), is_signer: true, lamports: 2_000 },
    }
}

#[test]
fn program_ids_are_the_deployed_programs() {
    assert_eq!(token_program_key().to_bytes(), anchor_spl::token::ID.to_bytes());
    assert_eq!(
        associated_token_program_key().to_bytes(),
        anchor_spl::associated_token::ID.to_bytes()
    );
    assert_eq!(
        system_program_key().to_bytes(),
        anchor_lang::solana_program::system_program::ID.to_bytes()
    );
    let deployed: SolKey = "6iEFedqxjyCaJPcBZzp1w7D3TT8wPRCdvveMZe8FcgCm".parse().unwrap();
    assert_eq!(roast_program_key().to_bytes(), deployed.to_bytes());
}

#[test]
fn le_bytes_match_std() {
    for x in [0u64, 1, 255, 256, 0x0102_0304_0506_0708, u64::MAX, 7] {
        assert_eq!(u64_le_bytes(x), x.to_le_bytes().to_vec());
    }
}

#[test]
fn seeds_are_prefix_parties_and_seed_id() {
    let seeds = escrow_pda_seeds(&roaster(), &receiver(), 258);
    assert_eq!(seeds.len(), 4);
    assert_eq!(seeds[0], b"escrow".to_vec());
    assert_eq!(seeds[1], roaster().to_bytes().to_vec());
    assert_eq!(seeds[2], receiver().to_bytes().to_vec());
    assert_eq!(seeds[3], vec![2, 1, 0, 0, 0, 0, 0, 0]);
    let seeds = roast_escrow_pda_seeds(&roaster(), &receiver(), 258);
    assert_eq!(seeds[0], b"roast_escrow".to_vec());
    let escrow = escrow_with(RoastStatus::Pending, 10);
    let signer = escrow_signer_seeds(&escrow);
    assert_eq!(signer.len(), 5);
    assert_eq!(signer[3], 7u64.to_le_bytes().to_vec());
    assert_eq!(signer[4], vec![escrow.bump]);
}

#[test]
fn found_addresses_match_solana() {
    for seed_id in [0u64, 1, 42, u64::MAX] {
        let (k, b) = find(b"escrow", &roaster(), &receiver(), seed_id);
        let found = find_escrow_pda_address(&roaster(), &receiver(), seed_id, &program()).unwrap();
        assert_eq!(found, (k, b));
        assert_ne!(found.0, program());
        let (k, b) = find(b"roast_escrow", &roaster(), &receiver(), seed_id);
        let found = find_roast_escrow_address(&roaster(), &receiver(), seed_id, &program()).unwrap();
        assert_eq!(found, (k, b));
    }
}

#[test]
fn associated_token_address_matches_spl() {
    for w in [roaster(), receiver(), key(44)] {
        let expected = ata(&w, &mint_key());
        assert_eq!(associated_token_address(&w, &mint_key()), Some(expected));
        assert_ne!(expected, w);
    }
}

#[test]
fn escrow_pda_address_uses_stored_bump() {
    let escrow = escrow_with(RoastStatus::Pending, 10);
    assert_eq!(escrow_pda_address(&escrow, &program()), Some(escrow.escrow_pda));
    let mut other = escrow_with(RoastStatus::Pending, 10);
    other.bump = escrow.bump.wrapping_sub(1);
    let expected = SolKey::create_program_address(
        &[b"escrow", &roaster().to_bytes(), &receiver().to_bytes(), &7u64.to_le_bytes(), &[other.bump]],
        &sol(&program()),
    )
    .ok()
    .map(|k| lib(&k));
    assert_eq!(escrow_pda_address(&other, &program()), expected);
    assert_ne!(escrow_pda_address(&other, &program()), Some(escrow.escrow_pda));
}

#[test]
fn key_equality_is_bytewise() {
    assert!(key(1).key_eq(&key(1)));
    assert!(!key(1).key_eq(&key(2)));
    let mut bytes = key(1).to_bytes();
    bytes[31] = 0;
    assert!(!key(1).key_eq(&Pubkey::new_from_array(bytes)));
    assert_eq!(key(5).to_vec(), key(5).to_bytes().to_vec());
}

#[test]
fn error_codes_and_messages() {
    assert_eq!(ERROR_CODE_OFFSET, anchor_lang::error::ERROR_CODE_OFFSET);
    assert_eq!(ErrorCode::RoastMessageTooLong.code(), 6000);
    assert_eq!(ErrorCode::RoastNotCompleted.code(), 6001);
    assert_eq!(ErrorCode::InvalidStatusForTransfer.code(), 6002);
    assert_eq!(ErrorCode::IncorrectEscrowPda.code(), 6003);
    assert_eq!(ErrorCode::UnauthorizedAction.code(), 6004);
    assert_eq!(ErrorCode::MintMismatch.code(), 6005);
    assert_eq!(ErrorCode::AmountMustBeGreaterThanZero.code(), 6006);
    assert_eq!(ErrorCode::RoastMessageTooLong.msg(), "The roast message is too long.");
    assert_eq!(ErrorCode::RoastNotCompleted.msg(), "The roast is not yet completed.");
    assert_eq!(ErrorCode::MintMismatch.msg(), "Mint Mismatch.");
    assert_eq!(ErrorCode::AmountMustBeGreaterThanZero.msg(), "Amount must be greater than zero.");
}

#[test]
fn refusal_codes_match_anchor() {
    assert_eq!(RoastError::AccountNotSigner.code(), A::AccountNotSigner as u32);
    assert_eq!(RoastError::InvalidProgramId.code(), A::InvalidProgramId as u32);
    assert_eq!(RoastError::ConstraintHasOne.code(), A::ConstraintHasOne as u32);
    assert_eq!(RoastError::ConstraintSeeds.code(), A::ConstraintSeeds as u32);
    assert_eq!(RoastError::ConstraintTokenOwner.code(), A::ConstraintTokenOwner as u32);
    assert_eq!(RoastError::ConstraintAssociated.code(), A::ConstraintAssociated as u32);
    assert_eq!(RoastError::ConstraintClose.code(), A::ConstraintClose as u32);
    assert_eq!(RoastError::Program(ErrorCode::RoastNotCompleted).code(), 6001);
}

#[test]
fn account_spaces() {
    assert_eq!(MAX_ROAST_LENGTH, 280);
    assert_eq!(ROAST_ESCROW_INIT_SPACE, 438);
    assert_eq!(ROAST_ESCROW_FIXED_LEN, 158);
    assert_eq!(paytoroast::state::roast_state::ROAST_STATE_INIT_SPACE, 1269);
    assert_eq!(paytoroast::state::state::ROAST_STATE_INIT_SPACE, 391);
    let mut escrow = escrow_with(RoastStatus::Pending, 1);
    escrow.roast_message = vec![b'a'; 280];
    assert!(escrow.fits_account_space());
    escrow.roast_message = vec![b'a'; 281];
    assert!(!escrow.fits_account_space());
    assert!(escrow.is_pending());
    escrow.status = RoastStatus::Rejected;
    assert!(!escrow.is_pending());
}

#[test]
fn initialize_opens_pending_roast() {
    let accounts = init_accounts(3);
    let escrow = initialize_roast(
        &accounts,
        &program(),
        String::from("you debug with println and pray"),
        500,
        mint_key(),
        3,
    )
    .unwrap();
    let (_, bump) = find(b"roast_escrow", &roaster(), &receiver(), 3);
    assert_eq!(escrow.roaster, roaster());
    assert_eq!(escrow.receiver, receiver());
    assert_eq!(escrow.roast_message, b"you debug with println and pray".to_vec());
    assert_eq!(escrow.amount, 500);
    assert_eq!(escrow.mint, mint_key());
    assert_eq!(escrow.escrow_pda, accounts.escrow_pda);
    assert_eq!(escrow.status, RoastStatus::Pending);
    assert_eq!(escrow.seed_id, 3);
    assert_eq!(escrow.bump, bump);
}

#[test]
fn initialize_stores_utf8_bytes() {
    let escrow = initialize_roast(&init_accounts(4), &program(), String::from("🔥é"), 1, mint_key(), 4)
        .unwrap();
    assert_eq!(escrow.roast_message, "🔥é".as_bytes().to_vec());
    assert_eq!(escrow.roast_message.len(), 6);
}

#[test]
fn initialize_message_limits() {
    let accounts = init_accounts(5);
    let ok = initialize_roast_bytes(&accounts, &program(), vec![b'x'; 249], 1, mint_key(), 5);
    assert_eq!(ok.unwrap().roast_message.len(), 249);
    let at_max = initialize_roast(&accounts, &program(), "x".repeat(280), 1, mint_key(), 5).unwrap();
    assert_eq!(at_max.roast_message, vec![b'x'; 280]);
    assert!(at_max.fits_account_space());
    let too_long = initialize_roast(&accounts, &program(), "x".repeat(281), 1, mint_key(), 5);
    assert_eq!(too_long.unwrap_err(), RoastError::Program(ErrorCode::RoastMessageTooLong));
    // 140 two-byte characters are 280 bytes; one more is too long.
    let wide = initialize_roast(&accounts, &program(), "é".repeat(140), 1, mint_key(), 5).unwrap();
    assert_eq!(wide.roast_message.len(), 280);
    let wider = initialize_roast(&accounts, &program(), "é".repeat(141), 1, mint_key(), 5);
    assert_eq!(wider.unwrap_err(), RoastError::Program(ErrorCode::RoastMessageTooLong));
    let empty = initialize_roast(&accounts, &program(), String::new(), 1, mint_key(), 5).unwrap();
    assert!(empty.roast_message.is_empty());
}

#[test]
fn initialize_checks_mint_and_amount() {
    let accounts = init_accounts(5);
    assert_eq!(
        initialize_roast(&accounts, &program(), String::from("a"), 1, key(60), 5).unwrap_err(),
        RoastError::Program(ErrorCode::MintMismatch)
    );
    assert_eq!(
        initialize_roast(&accounts, &program(), String::from("a"), 0, mint_key(), 5).unwrap_err(),
        RoastError::Program(ErrorCode::AmountMustBeGreaterThanZero)
    );
    // The mint is checked before the amount, and both before the message.
    assert_eq!(
        initialize_roast(&accounts, &program(), "x".repeat(300), 0, key(60), 5).unwrap_err(),
        RoastError::Program(ErrorCode::MintMismatch)
    );
    assert_eq!(
        initialize_roast(&accounts, &program(), "x".repeat(300), 0, mint_key(), 5).unwrap_err(),
        RoastError::Program(ErrorCode::AmountMustBeGreaterThanZero)
    );
}

#[test]
fn initialize_refusals() {
    let good = init_accounts(6);
    let msg = || String::from("hi");
    let mut a = good;
    a.roaster.is_signer = false;
    assert_eq!(initialize_roast(&a, &program(), msg(), 1, mint_key(), 6).unwrap_err(), RoastError::AccountNotSigner);
    let mut a = good;
    a.token_program = key(8);
    assert_eq!(initialize_roast(&a, &program(), msg(), 1, mint_key(), 6).unwrap_err(), RoastError::InvalidProgramId);
    let mut a = good;
    a.system_program = key(8);
    assert_eq!(initialize_roast(&a, &program(), msg(), 1, mint_key(), 6).unwrap_err(), RoastError::InvalidProgramId);
    let mut a = good;
    a.associated_token_program = token_program_key();
    assert_eq!(initialize_roast(&a, &program(), msg(), 1, mint_key(), 6).unwrap_err(), RoastError::InvalidProgramId);
    let mut a = good;
    a.roast_escrow = a.escrow_pda;
    assert_eq!(initialize_roast(&a, &program(), msg(), 1, mint_key(), 6).unwrap_err(), RoastError::ConstraintSeeds);
    let mut a = good;
    a.escrow_pda = a.roast_escrow;
    assert_eq!(initialize_roast(&a, &program(), msg(), 1, mint_key(), 6).unwrap_err(), RoastError::ConstraintSeeds);
    // The accounts derive from seed id 6, not 7.
    assert_eq!(initialize_roast(&good, &program(), msg(), 1, mint_key(), 7).unwrap_err(), RoastError::ConstraintSeeds);
    // The checks on accounts come before the message's length.
    let mut a = good;
    a.roaster.is_signer = false;
    assert_eq!(initialize_roast(&a, &program(), "x".repeat(300), 1, mint_key(), 6).unwrap_err(), RoastError::AccountNotSigner);
}

#[test]
fn receiver_accepts_and_rejects() {
    let answer = ReceiverResponds { receiver: Wallet { key: receiver(), is_signer: true, lamports: 0 } };
    let mut escrow = escrow_with(RoastStatus::Pending, 10);
    assert_eq!(receiver_responds(&mut escrow, &answer, true), Ok(()));
    assert_eq!(escrow.status, RoastStatus::Accepted);
    assert_eq!(escrow.amount, 10);
    assert_eq!(receiver_responds(&mut escrow, &answer, false), Ok(()));
    assert_eq!(escrow.status, RoastStatus::Rejected);
    assert_eq!(escrow.roaster, roaster());
}

#[test]
fn only_receiver_may_respond() {
    let mut escrow = escrow_with(RoastStatus::Pending, 10);
    let unsigned = ReceiverResponds { receiver: Wallet { key: receiver(), is_signer: false, lamports: 0 } };
    assert_eq!(receiver_responds(&mut escrow, &unsigned, true), Err(RoastError::AccountNotSigner));
    let stranger = ReceiverResponds { receiver: Wallet { key: roaster(), is_signer: true, lamports: 0 } };
    assert_eq!(receiver_responds(&mut escrow, &stranger, true), Err(RoastError::ConstraintHasOne));
    assert_eq!(escrow.status, RoastStatus::Pending);
}

#[test]
fn deposit_moves_tokens_into_escrow() {
    let escrow = escrow_with(RoastStatus::Pending, 10);
    let accounts = deposit_accounts(&escrow);
    let transfer = deposit_in_escrow(&escrow, &accounts, &program(), 250).unwrap();
    assert_eq!(
        transfer,
        TokenTransfer {
            from: ata(&roaster(), &mint_key()),
            to: ata(&escrow.escrow_pda, &mint_key()),
            authority: roaster(),
            mint: mint_key(),
            amount: 250,
            decimals: 6,
        }
    );
}

#[test]
fn deposit_refusals() {
    let escrow = escrow_with(RoastStatus::Pending, 10);
    let good = deposit_accounts(&escrow);
    let mut a = good;
    a.roaster.is_signer = false;
    assert_eq!(deposit_in_escrow(&escrow, &a, &program(), 1), Err(RoastError::AccountNotSigner));
    let mut a = good;
    a.token_program = system_program_key();
    assert_eq!(deposit_in_escrow(&escrow, &a, &program(), 1), Err(RoastError::InvalidProgramId));
    let mut a = good;
    a.roaster.key = receiver();
    assert_eq!(deposit_in_escrow(&escrow, &a, &program(), 1), Err(RoastError::ConstraintHasOne));
    let mut a = good;
    a.escrow_pda = key(77);
    assert_eq!(deposit_in_escrow(&escrow, &a, &program(), 1), Err(RoastError::ConstraintSeeds));
    let mut a = good;
    a.roaster_token_account.owner = receiver();
    assert_eq!(deposit_in_escrow(&escrow, &a, &program(), 1), Err(RoastError::ConstraintTokenOwner));
    let mut a = good;
    a.roaster_token_account.key = key(78);
    assert_eq!(deposit_in_escrow(&escrow, &a, &program(), 1), Err(RoastError::ConstraintAssociated));
    let mut a = good;
    a.escrow_pda_token_account = token_account(&escrow.escrow_pda, 0);
    a.escrow_pda_token_account.key = ata(&escrow.escrow_pda, &key(79));
    assert_eq!(deposit_in_escrow(&escrow, &a, &program(), 1), Err(RoastError::ConstraintAssociated));
    let mut a = good;
    a.escrow_pda_token_account.owner = roaster();
    assert_eq!(deposit_in_escrow(&escrow, &a, &program(), 1), Err(RoastError::ConstraintTokenOwner));
    assert_eq!(
        deposit_in_escrow(&escrow, &good, &program(), 0),
        Err(RoastError::Program(ErrorCode::AmountMustBeGreaterThanZero))
    );
}

#[test]
fn deposit_only_into_the_roasts_own_escrow() {
    // The seeds and bump derive the escrow PDA given, but the roast records
    // another one.
    let mut escrow = escrow_with(RoastStatus::Pending, 10);
    let accounts = deposit_accounts(&escrow);
    escrow.escrow_pda = key(55);
    assert_eq!(
        deposit_in_escrow(&escrow, &accounts, &program(), 10),
        Err(RoastError::Program(ErrorCode::IncorrectEscrowPda))
    );
}

#[test]
fn execute_pays_receiver_when_accepted() {
    let escrow = escrow_with(RoastStatus::Accepted, 900);
    let accounts = execute_accounts(&escrow);
    let s = execute_transfer(&escrow, &accounts, &program()).unwrap();
    let t = s.transfer;
    assert_eq!(t.from, ata(&escrow.escrow_pda, &mint_key()));
    assert_eq!(t.to, ata(&receiver(), &mint_key()));
    assert_eq!(t.authority, escrow.escrow_pda);
    assert_eq!(t.amount, 900);
    assert_eq!(t.decimals, 6);
    assert_eq!(s.close.account, ata(&escrow.escrow_pda, &mint_key()));
    assert_eq!(s.close.destination, receiver());
    assert_eq!(s.close.authority, escrow.escrow_pda);
    assert_eq!(s.signer_seeds, escrow_signer_seeds(&escrow));
}

#[test]
fn execute_refunds_roaster_when_rejected() {
    let escrow = escrow_with(RoastStatus::Rejected, 900);
    let s = execute_transfer(&escrow, &execute_accounts(&escrow), &program()).unwrap();
    let t = s.transfer;
    assert_eq!(t.to, ata(&roaster(), &mint_key()));
    assert_eq!(t.amount, 900);
    assert_eq!(s.close.destination, roaster());
}

#[test]
fn execute_refuses_pending_roast() {
    let escrow = escrow_with(RoastStatus::Pending, 900);
    assert_eq!(
        execute_transfer(&escrow, &execute_accounts(&escrow), &program()).unwrap_err(),
        RoastError::Program(ErrorCode::InvalidStatusForTransfer)
    );
    // Account checks come first.
    let mut a = execute_accounts(&escrow);
    a.token_program = key(1);
    assert_eq!(execute_transfer(&escrow, &a, &program()).unwrap_err(), RoastError::InvalidProgramId);
}

#[test]
fn execute_only_from_the_roasts_own_escrow() {
    let mut escrow = escrow_with(RoastStatus::Accepted, 900);
    let accounts = execute_accounts(&escrow);
    escrow.escrow_pda = key(56);
    assert_eq!(
        execute_transfer(&escrow, &accounts, &program()).unwrap_err(),
        RoastError::Program(ErrorCode::IncorrectEscrowPda)
    );
}

#[test]
fn execute_refusals() {
    let escrow = escrow_with(RoastStatus::Accepted, 900);
    let good = execute_accounts(&escrow);
    let mut a = good;
    a.token_program = key(1);
    assert_eq!(execute_transfer(&escrow, &a, &program()).unwrap_err(), RoastError::InvalidProgramId);
    let mut a = good;
    a.system_program = token_program_key();
    assert_eq!(execute_transfer(&escrow, &a, &program()).unwrap_err(), RoastError::InvalidProgramId);
    let mut a = good;
    a.escrow_pda = roaster();
    assert_eq!(execute_transfer(&escrow, &a, &program()).unwrap_err(), RoastError::ConstraintSeeds);
    let mut a = good;
    a.receiver_token_account = token_account(&roaster(), 0);
    assert_eq!(execute_transfer(&escrow, &a, &program()).unwrap_err(), RoastError::ConstraintTokenOwner);
    let mut a = good;
    a.receiver_token_account.key = a.roaster_token_account.key;
    assert_eq!(execute_transfer(&escrow, &a, &program()).unwrap_err(), RoastError::ConstraintAssociated);
    let mut a = good;
    a.roaster_token_account.owner = receiver();
    assert_eq!(execute_transfer(&escrow, &a, &program()).unwrap_err(), RoastError::ConstraintTokenOwner);
    let mut a = good;
    a.escrow_pda_token_account.key = key(3);
    assert_eq!(execute_transfer(&escrow, &a, &program()).unwrap_err(), RoastError::ConstraintAssociated);
    // Settling from another program's derivation is refused.
    assert_eq!(execute_transfer(&escrow, &good, &key(12)).unwrap_err(), RoastError::ConstraintSeeds);
}

#[test]
fn close_pays_rent_by_answer() {
    let accepted = escrow_with(RoastStatus::Accepted, 1);
    let r = close_roast_escrow(&accepted, &close_accounts(3_000_000)).unwrap();
    assert_eq!(r.beneficiary, receiver());
    assert_eq!(r.beneficiary_lamports, 3_001_000);
    assert_eq!(r.roast_escrow_lamports, 0);
    let rejected = escrow_with(RoastStatus::Rejected, 1);
    let r = close_roast_escrow(&rejected, &close_accounts(3_000_000)).unwrap();
    assert_eq!(r.beneficiary, roaster());
    assert_eq!(r.beneficiary_lamports, 3_002_000);
    assert_eq!(r.roast_escrow_lamports, 0);
}

#[test]
fn close_refusals() {
    let pending = escrow_with(RoastStatus::Pending, 1);
    assert_eq!(
        close_roast_escrow(&pending, &close_accounts(10)),
        Err(RoastError::Program(ErrorCode::RoastNotCompleted))
    );
    let accepted = escrow_with(RoastStatus::Accepted, 1);
    let mut a = close_accounts(10);
    a.roaster.is_signer = false;
    assert_eq!(close_roast_escrow(&accepted, &a), Err(RoastError::AccountNotSigner));
    let mut a = close_accounts(10);
    a.roast_escrow = roaster();
    assert_eq!(close_roast_escrow(&accepted, &a), Err(RoastError::ConstraintClose));
}

#[test]
fn close_only_by_the_roasts_parties() {
    let accepted = escrow_with(RoastStatus::Accepted, 1);
    let mut a = close_accounts(500);
    a.receiver.key = key(99);
    assert_eq!(close_roast_escrow(&accepted, &a), Err(RoastError::Program(ErrorCode::UnauthorizedAction)));
    let rejected = escrow_with(RoastStatus::Rejected, 1);
    let mut a = close_accounts(500);
    a.roaster.key = key(98);
    assert_eq!(close_roast_escrow(&rejected, &a), Err(RoastError::Program(ErrorCode::UnauthorizedAction)));
    // A rejected roast refunds its roaster whatever receiver account is given.
    let mut a = close_accounts(500);
    a.receiver.key = key(99);
    let r = close_roast_escrow(&rejected, &a).unwrap();
    assert_eq!(r.beneficiary, roaster());
    assert_eq!(r.beneficiary_lamports, 2_500);
    // The roaster is checked before the status.
    let pending = escrow_with(RoastStatus::Pending, 1);
    let mut a = close_accounts(500);
    a.roaster.key = key(98);
    assert_eq!(close_roast_escrow(&pending, &a), Err(RoastError::Program(ErrorCode::UnauthorizedAction)));
}

#[test]
fn close_can_pay_checks_the_beneficiary_balance() {
    let accepted = escrow_with(RoastStatus::Accepted, 1);
    let mut a = close_accounts(10);
    assert!(close_can_pay(&accepted, &a));
    a.receiver.lamports = u64::MAX - 9;
    assert!(!close_can_pay(&accepted, &a));
    // A rejected roast pays the roaster, whose balance has room.
    let rejected = escrow_with(RoastStatus::Rejected, 1);
    assert!(close_can_pay(&rejected, &a));
    // A pending roast, or an accepted one naming another receiver, is
    // refused before any lamports move.
    let pending = escrow_with(RoastStatus::Pending, 1);
    assert!(close_can_pay(&pending, &a));
    a.receiver.key = key(97);
    assert!(close_can_pay(&accepted, &a));
}

/// The first seed id for which the roast account and the escrow PDA have the
/// same canonical bump.
fn seed_id_with_shared_bump() -> u64 {
    (0u64..1000)
        .find(|s| {
            find(b"roast_escrow", &roaster(), &receiver(), *s).1 == find(b"escrow", &roaster(), &receiver(), *s).1
        })
        .unwrap()
}

#[test]
fn accepted_roast_lifecycle_pays_receiver() {
    let seed_id = seed_id_with_shared_bump();
    let mut escrow = initialize_roast(&init_accounts(seed_id), &program(), String::from("nice"), 700, mint_key(), seed_id)
        .unwrap();
    let deposit = deposit_in_escrow(&escrow, &deposit_accounts(&escrow), &program(), 700).unwrap();
    assert_eq!(deposit.amount, 700);
    let answer = ReceiverResponds { receiver: Wallet { key: receiver(), is_signer: true, lamports: 0 } };
    receiver_responds(&mut escrow, &answer, true).unwrap();
    let s = execute_transfer(&escrow, &execute_accounts(&escrow), &program()).unwrap();
    let t = s.transfer;
    assert_eq!(t.from, deposit.to);
    assert_eq!(t.to, ata(&receiver(), &mint_key()));
    assert_eq!(t.amount, 700);
    let r = close_roast_escrow(&escrow, &close_accounts(2_000)).unwrap();
    assert_eq!(r.beneficiary, receiver());
}

#[test]
fn rejected_roast_lifecycle_refunds_roaster() {
    let seed_id = seed_id_with_shared_bump();
    let mut escrow = initialize_roast(&init_accounts(seed_id), &program(), String::from("meh"), 40, mint_key(), seed_id)
        .unwrap();
    let deposit = deposit_in_escrow(&escrow, &deposit_accounts(&escrow), &program(), 40).unwrap();
    let answer = ReceiverResponds { receiver: Wallet { key: receiver(), is_signer: true, lamports: 0 } };
    receiver_responds(&mut escrow, &answer, false).unwrap();
    let s = execute_transfer(&escrow, &execute_accounts(&escrow), &program()).unwrap();
    let t = s.transfer;
    assert_eq!(t.from, deposit.to);
    assert_eq!(t.to, deposit.from);
    assert_eq!(t.amount, 40);
    assert_eq!(s.close.destination, roaster());
    let r = close_roast_escrow(&escrow, &close_accounts(2_000)).unwrap();
    assert_eq!(r.beneficiary, roaster());
}

#[test]
fn stored_bump_of_roast_account_can_miss_escrow_pda() {
    // The roast stores its own account's bump and later checks the escrow PDA
    // with it; where the two canonical bumps differ, deposits are refused.
    let seed_id = (0u64..1000)
        .find(|s| find(b"roast_escrow", &roaster(), &receiver(), *s).1 != find(b"escrow", &roaster(), &receiver(), *s).1)
        .unwrap();
    let escrow = initialize_roast(&init_accounts(seed_id), &program(), String::from("x"), 1, mint_key(), seed_id)
        .unwrap();
    assert_eq!(
        deposit_in_escrow(&escrow, &deposit_accounts(&escrow), &program(), 1),
        Err(RoastError::ConstraintSeeds)
    );
}
