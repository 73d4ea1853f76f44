//! What holds of the escrow across its instructions.
use vstd::prelude::*;

use crate::error::{error_index, roast_error_code, ErrorCode, RoastError};
use crate::instructions::accounts::{associated_token_error, TokenAccount, TokenTransfer};
use crate::instructions::close_roast_escrow::{
    close_beneficiary, close_error, close_fits, close_outcome, CloseRoastEscrow,
};
use crate::instructions::deposit_in_escrow::{deposit_error, deposit_transfer, derives_escrow_pda, DepositInEscrow};
use crate::instructions::execute_transfer::{execute_error, settlement_close, settlement_transfer, ExecuteTransfer};
use crate::instructions::init_roast::{init_error, is_new_roast, InitializeRoast};
use crate::instructions::receiver_respond::{respond_error, response_status, ReceiverResponds};
use crate::pda::{
    associated_address, derived_address, escrow_seed_prefix, escrow_seeds, escrow_signer_seeds_of,
    find_from, find_pda, is_canonical_address, le_bytes, roast_escrow_seed_prefix,
    roast_escrow_seeds, with_bump,
};
use crate::pubkey::associated_token_program_id;
use crate::pubkey::{system_program_id, token_program_id, Pubkey};
use crate::state::roast_escrow::{
    serialized_len, with_status, RoastEscrow, RoastStatus, MAX_ROAST_LENGTH, ROAST_ESCROW_INIT_SPACE,
};

verus! {

/// Token balances by account address after a checked transfer between two
/// different accounts: the amount leaves `from` and arrives at `to`.
pub open spec fn after_transfer(ledger: Map<Seq<u8>, int>, t: TokenTransfer) -> Map<Seq<u8>, int> {
    ledger.insert(t.from@, ledger[t.from@] - t.amount).insert(t.to@, ledger[t.to@] + t.amount)
}

/// Accept the roast and get the cash, reject it and the roaster is refunded,
/// over a roast's whole life: it is opened, the roaster deposits the roast's
/// amount, the receiver answers, and the escrow is settled through the
/// deposit's escrow and roaster accounts and the receiver's associated token
/// account. Settling is then accepted, and with the token accounts involved
/// distinct, the escrow ends as it began, and when accepted
/// the receiver's token account gains the amount the roaster's lost; when
/// rejected both end as they began.
pub proof fn roast_round_trip_balances(
    escrow: RoastEscrow,
    opening: InitializeRoast,
    program_id: Seq<u8>,
    message: Seq<u8>,
    amount: u64,
    mint: Pubkey,
    seed_id: u64,
    deposit: DepositInEscrow,
    answer: ReceiverResponds,
    accepted: bool,
    settle: ExecuteTransfer,
    ledger: Map<Seq<u8>, int>,
)
    requires
        init_error(opening, program_id, message, amount, mint, seed_id) is None,
        is_new_roast(escrow, opening, program_id, message, amount, mint, seed_id),
        deposit_error(escrow, deposit, program_id, escrow.amount) is None,
        respond_error(escrow, answer) is None,
        settle.escrow_pda == deposit.escrow_pda,
        settle.escrow_pda_token_account == deposit.escrow_pda_token_account,
        settle.roaster_token_account == deposit.roaster_token_account,
        settle.receiver_token_account.owner@ == escrow.receiver@,
        associated_address(escrow.receiver@, escrow.mint@) == Some(settle.receiver_token_account.key@),
        settle.token_program@ == token_program_id(),
        settle.system_program@ == system_program_id(),
        deposit.roaster_token_account.key@ != deposit.escrow_pda_token_account.key@,
        deposit.roaster_token_account.key@ != settle.receiver_token_account.key@,
        deposit.escrow_pda_token_account.key@ != settle.receiver_token_account.key@,
    ensures
        ({
            let answered = with_status(escrow, response_status(accepted));
            let funded = after_transfer(ledger, deposit_transfer(deposit, escrow.amount));
            let settled = after_transfer(funded, settlement_transfer(answered, settle));
            let roaster_account = deposit.roaster_token_account.key@;
            let escrow_account = deposit.escrow_pda_token_account.key@;
            let receiver_account = settle.receiver_token_account.key@;
            &&& amount > 0
            &&& execute_error(answered, settle, program_id) is None
            &&& settled[escrow_account] == ledger[escrow_account]
            &&& accepted ==> settled[receiver_account] == ledger[receiver_account] + amount
                && settled[roaster_account] == ledger[roaster_account] - amount
            &&& !accepted ==> settled[receiver_account] == ledger[receiver_account]
                && settled[roaster_account] == ledger[roaster_account]
        }),
{
    let answered = with_status(escrow, response_status(accepted));
    assert(settle.escrow_pda_token_account.key@ == deposit.escrow_pda_token_account.key@);
    assert(settle.roaster_token_account.key@ == deposit.roaster_token_account.key@);
}

/// Accept the roast and get the cash, reject it and the roaster is refunded:
/// once the receiver's answer is recorded, settling transfers the whole
/// escrowed amount out of the escrow PDA's token account, signed by the escrow
/// PDA, into the receiver's associated token account for the roast's mint when
/// accepted, and into the roaster's when rejected; the escrow token account's
/// lamports go to the same party.
pub proof fn answered_roast_is_settled_to_the_chosen_party(
    escrow: RoastEscrow,
    answer: ReceiverResponds,
    accepted: bool,
    accounts: ExecuteTransfer,
    program_id: Seq<u8>,
)
    requires
        respond_error(escrow, answer) is None,
        execute_error(with_status(escrow, response_status(accepted)), accounts, program_id) is None,
    ensures
        ({
            let answered = with_status(escrow, response_status(accepted));
            let paid = if accepted { escrow.receiver } else { escrow.roaster };
            let paid_account = if accepted {
                accounts.receiver_token_account
            } else {
                accounts.roaster_token_account
            };
            &&& settlement_transfer(answered, accounts) == TokenTransfer {
                from: accounts.escrow_pda_token_account.key,
                to: paid_account.key,
                authority: accounts.escrow_pda,
                mint: accounts.mint.key,
                amount: escrow.amount,
                decimals: accounts.mint.decimals,
            }
            &&& accounts.escrow_pda@ == escrow.escrow_pda@
            &&& associated_address(paid@, escrow.mint@) == Some(paid_account.key@)
            &&& associated_address(accounts.escrow_pda@, escrow.mint@) == Some(
                accounts.escrow_pda_token_account.key@,
            )
            &&& derived_address(escrow_signer_seeds_of(escrow), program_id) == Some(accounts.escrow_pda@)
            &&& settlement_close(answered, accounts).destination == paid
        }),
{
}

/// Only the receiver answers: a response is taken exactly when the receiver
/// stored in the roast signs it.
pub proof fn only_the_receiver_answers(escrow: RoastEscrow, answer: ReceiverResponds)
    ensures
        respond_error(escrow, answer) is None <==> (answer.receiver.is_signer && answer.receiver.key@
            == escrow.receiver@),
{
}

/// The last answer counts: answering again replaces the earlier answer, is
/// taken from the same accounts, and leaves the rest of the roast as it was.
pub proof fn last_answer_counts(escrow: RoastEscrow, answer: ReceiverResponds, first: bool, second: bool)
    ensures
        respond_error(with_status(escrow, response_status(first)), answer) == respond_error(escrow, answer),
        with_status(with_status(escrow, response_status(first)), response_status(second))
            == with_status(escrow, response_status(second)),
{
}

/// Which answer was given does not change whether the settlement's accounts
/// are accepted.
pub proof fn answer_keeps_settlement_accounts(
    escrow: RoastEscrow,
    first: bool,
    second: bool,
    accounts: ExecuteTransfer,
    program_id: Seq<u8>,
)
    ensures
        execute_error(with_status(escrow, response_status(first)), accounts, program_id)
            == execute_error(with_status(escrow, response_status(second)), accounts, program_id),
{
}

/// A roast is settled only once answered: a pending roast is always refused,
/// and where its accounts would settle an answered roast it is refused as not
/// ready for transfer.
pub proof fn pending_roast_is_not_settled(escrow: RoastEscrow, accounts: ExecuteTransfer, program_id: Seq<u8>)
    requires
        escrow.status == RoastStatus::Pending,
    ensures
        execute_error(escrow, accounts, program_id) is Some,
        execute_error(with_status(escrow, RoastStatus::Accepted), accounts, program_id) is None
            ==> execute_error(escrow, accounts, program_id) == Some(
            RoastError::Program(ErrorCode::InvalidStatusForTransfer),
        ),
{
}

/// Deposits go where settlement takes from: a deposit and a settlement of the
/// same roast that are both accepted name the roast's own escrow PDA and the
/// same escrow token account, and the deposit moves the given, non-zero amount
/// from the roaster's associated token account for the roast's mint into it,
/// signed by the roaster.
pub proof fn deposit_and_settlement_share_the_escrow(
    escrow: RoastEscrow,
    deposit: DepositInEscrow,
    settle: ExecuteTransfer,
    program_id: Seq<u8>,
    amount: u64,
)
    requires
        deposit_error(escrow, deposit, program_id, amount) is None,
        execute_error(escrow, settle, program_id) is None,
    ensures
        amount > 0,
        deposit.escrow_pda@ == escrow.escrow_pda@,
        deposit.escrow_pda@ == settle.escrow_pda@,
        associated_address(escrow.escrow_pda@, escrow.mint@) == Some(deposit.escrow_pda_token_account.key@),
        deposit.escrow_pda_token_account.key@ == settle.escrow_pda_token_account.key@,
        deposit.roaster.key@ == escrow.roaster@,
        associated_address(escrow.roaster@, escrow.mint@) == Some(deposit.roaster_token_account.key@),
        deposit_transfer(deposit, amount).amount == amount,
        deposit_transfer(deposit, amount).to == deposit.escrow_pda_token_account.key,
        deposit_transfer(deposit, amount).from == deposit.roaster_token_account.key,
        deposit_transfer(deposit, amount).authority == deposit.roaster.key,
{
}

/// The roast account is closed only once the receiver has answered: with the
/// roast's roaster signing, its receiver given, and the roast account not
/// closed into itself, closing is refused exactly while the roast is pending.
/// (For a rejected roast the receiver account given does not matter.)
pub proof fn close_waits_for_the_answer(escrow: RoastEscrow, accounts: CloseRoastEscrow)
    requires
        accounts.roaster.is_signer,
        accounts.roast_escrow@ != accounts.roaster.key@,
        accounts.roaster.key@ == escrow.roaster@,
        accounts.receiver.key@ == escrow.receiver@,
    ensures
        close_error(escrow, accounts) == Some(RoastError::Program(ErrorCode::RoastNotCompleted))
            <==> escrow.status == RoastStatus::Pending,
        close_error(escrow, accounts) is None <==> escrow.status != RoastStatus::Pending,
{
}

/// Only the roast's roaster closes it, and an accepted roast only naming the
/// roast's receiver.
pub proof fn only_the_roaster_closes(escrow: RoastEscrow, accounts: CloseRoastEscrow)
    requires
        close_error(escrow, accounts) is None,
    ensures
        accounts.roaster.is_signer,
        accounts.roaster.key@ == escrow.roaster@,
        escrow.status == RoastStatus::Accepted ==> accounts.receiver.key@ == escrow.receiver@,
{
}

/// The roast account's rent goes to the roast's receiver when it was accepted
/// and back to its roaster when it was rejected.
pub proof fn rent_follows_the_answer(escrow: RoastEscrow, accounts: CloseRoastEscrow)
    requires
        close_error(escrow, accounts) is None,
    ensures
        escrow.status == RoastStatus::Accepted ==> close_beneficiary(escrow, accounts).key@
            == escrow.receiver@,
        escrow.status == RoastStatus::Rejected ==> close_beneficiary(escrow, accounts).key@
            == escrow.roaster@,
{
}

/// Closing moves lamports and never creates or loses them: the roast account
/// is emptied into the paid party, the other party keeps its lamports, and the
/// three accounts hold together what they held before.
pub proof fn close_conserves_lamports(escrow: RoastEscrow, accounts: CloseRoastEscrow)
    requires
        close_error(escrow, accounts) is None,
        close_fits(escrow, accounts),
    ensures
        close_outcome(escrow, accounts) matches Ok(refund) && {
            let other = if escrow.status == RoastStatus::Accepted {
                accounts.roaster.lamports
            } else {
                accounts.receiver.lamports
            };
            &&& refund.roast_escrow_lamports == 0
            &&& refund.beneficiary_lamports + refund.roast_escrow_lamports + other
                == accounts.receiver.lamports + accounts.roaster.lamports
                + accounts.roast_escrow_lamports
        },
{
}

/// The canonical address that a search finds is derived by its seeds and the
/// bump found with it, and no higher bump it tried derives an address; a
/// search that finds nothing tried bumps none of which derives one.
pub proof fn found_address_is_derived(seeds: Seq<Seq<u8>>, program_id: Seq<u8>, bump: int)
    requires
        bump <= 255,
    ensures
        find_from(seeds, program_id, bump) matches Some((k, b)) ==> {
            &&& 1 <= b <= bump
            &&& derived_address(with_bump(seeds, b), program_id) == Some(k)
            &&& forall|c: u8| b < c && c <= bump ==> derived_address(with_bump(seeds, c), program_id) is None
        },
        find_from(seeds, program_id, bump) is None ==> forall|c: u8|
            1 <= c && c <= bump ==> derived_address(with_bump(seeds, c), program_id) is None,
    decreases bump,
{
    if bump >= 1 {
        found_address_is_derived(seeds, program_id, bump - 1);
        match derived_address(with_bump(seeds, bump as u8), program_id) {
            Some(_) => {},
            None => {
                assert forall|c: u8| 1 <= c && c <= bump && derived_address(with_bump(seeds, c), program_id) is Some
                    implies c < bump by {
                    if c == bump {
                        assert(c == bump as u8);
                    }
                }
            },
        }
    }
}

/// A newly opened roast is pending, escrows a non-zero amount of the mint
/// account's tokens, and keeps a message of at most `MAX_ROAST_LENGTH` bytes,
/// which fits the space allocated for the roast account.
pub proof fn new_roast_is_pending_and_fits(
    escrow: RoastEscrow,
    accounts: InitializeRoast,
    program_id: Seq<u8>,
    message: Seq<u8>,
    amount: u64,
    mint: Pubkey,
    seed_id: u64,
)
    requires
        init_error(accounts, program_id, message, amount, mint, seed_id) is None,
        is_new_roast(escrow, accounts, program_id, message, amount, mint, seed_id),
    ensures
        escrow.status == RoastStatus::Pending,
        escrow.amount > 0,
        escrow.mint@ == accounts.mint.key@,
        escrow.roast_message@.len() <= MAX_ROAST_LENGTH,
        serialized_len(escrow.roast_message@.len()) <= ROAST_ESCROW_INIT_SPACE,
{
}

/// A newly opened roast's escrow PDA passes the seeds check of deposits and
/// settlements when the bump stored with the roast (the roast account's own
/// bump) is also the escrow PDA's bump.
pub proof fn new_roast_escrow_pda_is_recognized(
    escrow: RoastEscrow,
    accounts: InitializeRoast,
    program_id: Seq<u8>,
    message: Seq<u8>,
    amount: u64,
    mint: Pubkey,
    seed_id: u64,
)
    requires
        init_error(accounts, program_id, message, amount, mint, seed_id) is None,
        is_new_roast(escrow, accounts, program_id, message, amount, mint, seed_id),
        find_pda(escrow_seeds(escrow.roaster@, escrow.receiver@, seed_id), program_id) matches Some(
            (_, b),
        ) && b == escrow.bump,
    ensures
        derives_escrow_pda(escrow, program_id, escrow.escrow_pda@),
{
    found_address_is_derived(escrow_seeds(escrow.roaster@, escrow.receiver@, seed_id), program_id, 255);
}

/// Opening records what was sent: the roaster who signed, the receiver given,
/// exactly the message bytes sent, the amount, the mint, the escrow PDA given
/// and the seed id, pending, with the bump of the roast account's own
/// canonical address.
pub proof fn new_roast_records_what_was_sent(
    escrow: RoastEscrow,
    accounts: InitializeRoast,
    program_id: Seq<u8>,
    message: Seq<u8>,
    amount: u64,
    mint: Pubkey,
    seed_id: u64,
)
    requires
        is_new_roast(escrow, accounts, program_id, message, amount, mint, seed_id),
    ensures
        escrow.roast_message@ == message,
        escrow.roast_message@.len() == message.len(),
        forall|i: int| 0 <= i < message.len() ==> escrow.roast_message@[i] == message[i],
        escrow.roaster == accounts.roaster.key,
        escrow.receiver == accounts.receiver,
        escrow.amount == amount,
        escrow.mint == mint,
        escrow.escrow_pda == accounts.escrow_pda,
        escrow.status == RoastStatus::Pending,
        escrow.seed_id == seed_id,
        find_pda(roast_escrow_seeds(accounts.roaster.key@, accounts.receiver@, seed_id), program_id)
            == Some((accounts.roast_escrow@, escrow.bump)),
{
}

/// When opening is refused and when it is not: it goes through exactly when
/// the roaster signs, the three programs are the system, token and associated
/// token programs, both accounts sit at the canonical addresses of their
/// seeds, the mint named is the mint account, the amount is not zero and the
/// message has at most `MAX_ROAST_LENGTH` bytes.
pub proof fn opening_is_refused_exactly_when(
    accounts: InitializeRoast,
    program_id: Seq<u8>,
    message: Seq<u8>,
    amount: u64,
    mint: Pubkey,
    seed_id: u64,
)
    ensures
        init_error(accounts, program_id, message, amount, mint, seed_id) is None <==> {
            &&& accounts.roaster.is_signer
            &&& accounts.system_program@ == system_program_id()
            &&& accounts.token_program@ == token_program_id()
            &&& accounts.associated_token_program@ == associated_token_program_id()
            &&& is_canonical_address(roast_escrow_seeds(accounts.roaster.key@, accounts.receiver@, seed_id), program_id, accounts.roast_escrow@)
            &&& is_canonical_address(escrow_seeds(accounts.roaster.key@, accounts.receiver@, seed_id), program_id, accounts.escrow_pda@)
            &&& mint@ == accounts.mint.key@
            &&& amount > 0
            &&& message.len() <= MAX_ROAST_LENGTH
        },
        amount == 0 ==> init_error(accounts, program_id, message, amount, mint, seed_id) is Some,
        message.len() > MAX_ROAST_LENGTH ==> init_error(accounts, program_id, message, amount, mint, seed_id) is Some,
{
}

/// A token account passes the associated-account check exactly when the
/// wallet owns it and it sits at the wallet's associated address for the mint.
pub proof fn associated_check_exactly_when(account: TokenAccount, wallet: Seq<u8>, mint: Seq<u8>)
    ensures
        associated_token_error(account, wallet, mint) is None <==> (account.owner@ == wallet
            && associated_address(wallet, mint) == Some(account.key@)),
{
}

/// A deposit transfers exactly the amount given, of the mint account given
/// with that mint's decimals, from the token account given as the roaster's
/// into the one given as the escrow's, signed by the roaster; when the deposit
/// is accepted, these are the roaster's and the roast's own escrow PDA's
/// associated token accounts for the roast's mint.
pub proof fn deposit_moves_the_amount_given(
    escrow: RoastEscrow,
    accounts: DepositInEscrow,
    program_id: Seq<u8>,
    amount: u64,
)
    ensures
        deposit_transfer(accounts, amount).amount == amount,
        deposit_transfer(accounts, amount).mint == accounts.mint.key,
        deposit_transfer(accounts, amount).decimals == accounts.mint.decimals,
        deposit_transfer(accounts, amount).from == accounts.roaster_token_account.key,
        deposit_transfer(accounts, amount).to == accounts.escrow_pda_token_account.key,
        deposit_transfer(accounts, amount).authority == accounts.roaster.key,
        deposit_error(escrow, accounts, program_id, amount) is None ==> {
            let t = deposit_transfer(accounts, amount);
            &&& associated_address(escrow.roaster@, escrow.mint@) == Some(t.from@)
            &&& associated_address(escrow.escrow_pda@, escrow.mint@) == Some(t.to@)
            &&& t.authority@ == escrow.roaster@
        },
{
}

/// A deposit is refused for its amount only when the amount is zero: any two
/// non-zero amounts are refused alike, so a deposit of any positive amount,
/// smaller or larger than the roast's, goes through on accounts that a deposit
/// of one token goes through on; a zero amount is refused, after the same
/// account checks.
pub proof fn deposit_refuses_only_zero_amounts(
    escrow: RoastEscrow,
    accounts: DepositInEscrow,
    program_id: Seq<u8>,
    amount: u64,
    other: u64,
)
    ensures
        amount > 0 && other > 0 ==> deposit_error(escrow, accounts, program_id, amount)
            == deposit_error(escrow, accounts, program_id, other),
        deposit_error(escrow, accounts, program_id, 1) is None ==> deposit_error(
            escrow,
            accounts,
            program_id,
            0,
        ) == Some(RoastError::Program(ErrorCode::AmountMustBeGreaterThanZero)),
        deposit_error(escrow, accounts, program_id, 1) is Some ==> deposit_error(
            escrow,
            accounts,
            program_id,
            0,
        ) == deposit_error(escrow, accounts, program_id, 1),
{
}

/// When a deposit is refused and when it is not: it goes through exactly when
/// the roaster signs and is the roast's roaster, the token program is given,
/// the escrow PDA is the roast's own and its seeds derive it, both token
/// accounts pass the associated-account check for the roast's mint, and the
/// amount is not zero.
pub proof fn deposit_is_refused_exactly_when(
    escrow: RoastEscrow,
    accounts: DepositInEscrow,
    program_id: Seq<u8>,
    amount: u64,
)
    ensures
        deposit_error(escrow, accounts, program_id, amount) is None <==> {
            &&& accounts.roaster.is_signer
            &&& accounts.token_program@ == token_program_id()
            &&& accounts.roaster.key@ == escrow.roaster@
            &&& derived_address(escrow_signer_seeds_of(escrow), program_id) == Some(accounts.escrow_pda@)
            &&& accounts.escrow_pda@ == escrow.escrow_pda@
            &&& accounts.roaster_token_account.owner@ == escrow.roaster@
            &&& associated_address(escrow.roaster@, escrow.mint@) == Some(accounts.roaster_token_account.key@)
            &&& accounts.escrow_pda_token_account.owner@ == escrow.escrow_pda@
            &&& associated_address(escrow.escrow_pda@, escrow.mint@) == Some(accounts.escrow_pda_token_account.key@)
            &&& amount > 0
        },
{
}

/// Settling closes the escrow PDA's own token account, the one the escrowed
/// amount is transferred out of, with the escrow PDA as authority, into the
/// wallet of the party the amount is paid to: the receiver when accepted, the
/// roaster when rejected. The transfer carries the roast's whole amount, the
/// mint account given and its decimals, and goes to that party's associated
/// token account for the roast's mint.
pub proof fn settlement_closes_the_escrow_token_account(
    escrow: RoastEscrow,
    accounts: ExecuteTransfer,
    program_id: Seq<u8>,
)
    requires
        execute_error(escrow, accounts, program_id) is None,
    ensures
        ({
            let t = settlement_transfer(escrow, accounts);
            let c = settlement_close(escrow, accounts);
            let paid = if escrow.status == RoastStatus::Accepted { escrow.receiver } else { escrow.roaster };
            &&& escrow.status != RoastStatus::Pending
            &&& c.account == accounts.escrow_pda_token_account.key
            &&& c.account == t.from
            &&& c.authority == accounts.escrow_pda
            &&& c.authority == t.authority
            &&& c.destination == paid
            &&& associated_address(c.destination@, escrow.mint@) == Some(t.to@)
            &&& associated_address(escrow.escrow_pda@, escrow.mint@) == Some(c.account@)
            &&& t.amount == escrow.amount
            &&& t.mint == accounts.mint.key
            &&& t.decimals == accounts.mint.decimals
            &&& t.to == (if escrow.status == RoastStatus::Accepted {
                accounts.receiver_token_account.key
            } else {
                accounts.roaster_token_account.key
            })
        }),
{
}

/// When settling is refused and when it is not: it goes through exactly when
/// the token and system programs are given, the escrow PDA is the roast's own
/// and its seeds derive it, the three token accounts pass the associated-account
/// checks of the escrow PDA, the roaster and the receiver for the roast's mint,
/// and the roast has been answered.
pub proof fn settlement_is_refused_exactly_when(
    escrow: RoastEscrow,
    accounts: ExecuteTransfer,
    program_id: Seq<u8>,
)
    ensures
        execute_error(escrow, accounts, program_id) is None <==> {
            &&& accounts.token_program@ == token_program_id()
            &&& accounts.system_program@ == system_program_id()
            &&& derived_address(escrow_signer_seeds_of(escrow), program_id) == Some(accounts.escrow_pda@)
            &&& accounts.escrow_pda@ == escrow.escrow_pda@
            &&& associated_token_error(accounts.escrow_pda_token_account, escrow.escrow_pda@, escrow.mint@) is None
            &&& associated_token_error(accounts.roaster_token_account, escrow.roaster@, escrow.mint@) is None
            &&& associated_token_error(accounts.receiver_token_account, escrow.receiver@, escrow.mint@) is None
            &&& escrow.status != RoastStatus::Pending
        },
{
}

/// Closing pays the roast account's lamports to the roast's receiver when it
/// was accepted and back to its roaster when it was rejected, whatever the
/// balances: the refund names that party, adds the roast account's lamports to
/// that party's balance, and leaves the roast account empty.
pub proof fn close_pays_the_answered_party(escrow: RoastEscrow, accounts: CloseRoastEscrow)
    requires
        close_error(escrow, accounts) is None,
        close_fits(escrow, accounts),
    ensures
        close_outcome(escrow, accounts) matches Ok(refund) && {
            &&& refund.beneficiary == (if escrow.status == RoastStatus::Accepted {
                accounts.receiver.key
            } else {
                accounts.roaster.key
            })
            &&& refund.beneficiary@ == (if escrow.status == RoastStatus::Accepted {
                escrow.receiver@
            } else {
                escrow.roaster@
            })
            &&& refund.beneficiary_lamports == (if escrow.status == RoastStatus::Accepted {
                accounts.receiver.lamports
            } else {
                accounts.roaster.lamports
            }) + accounts.roast_escrow_lamports
            &&& refund.roast_escrow_lamports == 0
        },
{
}

/// A refused close gives the refusal and nothing else, and closing is refused
/// exactly when the roaster does not sign, the roast account would close into
/// itself, the roaster is not the roast's, the roast is pending, or an accepted
/// roast names another receiver.
pub proof fn close_is_refused_exactly_when(escrow: RoastEscrow, accounts: CloseRoastEscrow)
    ensures
        close_error(escrow, accounts) matches Some(e) ==> close_outcome(escrow, accounts) == Err::<
            crate::instructions::close_roast_escrow::RentRefund,
            RoastError,
        >(e),
        close_error(escrow, accounts) is None <==> {
            &&& accounts.roaster.is_signer
            &&& accounts.roast_escrow@ != accounts.roaster.key@
            &&& accounts.roaster.key@ == escrow.roaster@
            &&& escrow.status != RoastStatus::Pending
            &&& escrow.status == RoastStatus::Accepted ==> accounts.receiver.key@ == escrow.receiver@
        },
{
}

/// Answering sets the status to accepted or rejected as answered and keeps
/// every other field of the roast.
pub proof fn answer_sets_only_the_status(escrow: RoastEscrow, accepted: bool)
    ensures
        ({
            let answered = with_status(escrow, response_status(accepted));
            &&& answered.status == (if accepted { RoastStatus::Accepted } else { RoastStatus::Rejected })
            &&& answered.roaster == escrow.roaster
            &&& answered.receiver == escrow.receiver
            &&& answered.roast_message == escrow.roast_message
            &&& answered.amount == escrow.amount
            &&& answered.mint == escrow.mint
            &&& answered.escrow_pda == escrow.escrow_pda
            &&& answered.seed_id == escrow.seed_id
            &&& answered.bump == escrow.bump
        }),
{
}

/// The value of little-endian bytes.
pub open spec fn le_value(bytes: Seq<u8>) -> nat
    decreases bytes.len(),
{
    if bytes.len() == 0 {
        0
    } else {
        bytes[0] as nat + 256 * le_value(bytes.drop_first())
    }
}

/// 256 to the power `n`.
pub open spec fn pow256(n: nat) -> nat
    decreases n,
{
    if n == 0 {
        1
    } else {
        256 * pow256((n - 1) as nat)
    }
}

/// The `n` little-endian bytes of a number below 256 to the `n` are `n` bytes
/// that read back as that number.
pub proof fn le_bytes_read_back(x: nat, n: nat)
    requires
        x < pow256(n),
    ensures
        le_bytes(x, n).len() == n,
        le_value(le_bytes(x, n)) == x,
    decreases n,
{
    if n > 0 {
        let q = x / 256;
        let r = x % 256;
        assert(x == 256 * q + r);
        let p = pow256((n - 1) as nat);
        assert(x < 256 * p);
        assert(q < p) by (nonlinear_arith)
            requires
                x == 256 * q + r,
                0 <= r < 256,
                x < 256 * p,
        ;
        le_bytes_read_back(q, (n - 1) as nat);
        let b = le_bytes(x, n);
        assert(b.drop_first() =~= le_bytes(q, (n - 1) as nat));
    }
}

/// The seeds the escrow PDA signs with are `"escrow"`, the roaster, the
/// receiver, the eight little-endian bytes of the seed id and the stored bump;
/// the seed-id bytes read back as the seed id, so different seed ids give
/// different seeds. The roast account's seeds differ from them in their first
/// seed only.
pub proof fn escrow_seeds_name_the_roast(e: RoastEscrow, f: RoastEscrow)
    ensures
        escrow_signer_seeds_of(e).len() == 5,
        escrow_signer_seeds_of(e)[0] == escrow_seed_prefix(),
        escrow_signer_seeds_of(e)[1] == e.roaster@,
        escrow_signer_seeds_of(e)[2] == e.receiver@,
        escrow_signer_seeds_of(e)[3].len() == 8,
        le_value(escrow_signer_seeds_of(e)[3]) == e.seed_id,
        escrow_signer_seeds_of(e)[4] == seq![e.bump],
        e.seed_id != f.seed_id ==> escrow_signer_seeds_of(e) != escrow_signer_seeds_of(f),
        roast_escrow_seeds(e.roaster@, e.receiver@, e.seed_id)[0] != escrow_seeds(e.roaster@, e.receiver@, e.seed_id)[0],
        roast_escrow_seeds(e.roaster@, e.receiver@, e.seed_id).drop_first()
            == escrow_seeds(e.roaster@, e.receiver@, e.seed_id).drop_first(),
{
    reveal_with_fuel(pow256, 9);
    assert(pow256(8) == 0x1_0000_0000_0000_0000);
    le_bytes_read_back(e.seed_id as nat, 8);
    le_bytes_read_back(f.seed_id as nat, 8);
    if e.seed_id != f.seed_id {
        assert(escrow_signer_seeds_of(e)[3] != escrow_signer_seeds_of(f)[3]);
    }
    assert(roast_escrow_seed_prefix().len() != escrow_seed_prefix().len());
    assert(roast_escrow_seeds(e.roaster@, e.receiver@, e.seed_id).drop_first()
        =~= escrow_seeds(e.roaster@, e.receiver@, e.seed_id).drop_first());
}

/// Which refusal opening gives: an unsigned opening is refused as unsigned;
/// with the accounts in order, a mint named other than the mint account is a
/// mint mismatch, then a zero amount is refused as such, then a message over
/// `MAX_ROAST_LENGTH` bytes as too long.
pub proof fn opening_refusals_name_their_cause(
    accounts: InitializeRoast,
    program_id: Seq<u8>,
    message: Seq<u8>,
    amount: u64,
    mint: Pubkey,
    seed_id: u64,
)
    ensures
        !accounts.roaster.is_signer ==> init_error(accounts, program_id, message, amount, mint, seed_id)
            == Some(RoastError::AccountNotSigner),
        ({
            let accounts_in_order = {
                &&& accounts.roaster.is_signer
                &&& accounts.system_program@ == system_program_id()
                &&& accounts.token_program@ == token_program_id()
                &&& accounts.associated_token_program@ == associated_token_program_id()
                &&& is_canonical_address(roast_escrow_seeds(accounts.roaster.key@, accounts.receiver@, seed_id), program_id, accounts.roast_escrow@)
                &&& is_canonical_address(escrow_seeds(accounts.roaster.key@, accounts.receiver@, seed_id), program_id, accounts.escrow_pda@)
            };
            let e = init_error(accounts, program_id, message, amount, mint, seed_id);
            &&& accounts_in_order && mint@ != accounts.mint.key@ ==> e == Some(RoastError::Program(ErrorCode::MintMismatch))
            &&& accounts_in_order && mint@ == accounts.mint.key@ && amount == 0 ==> e == Some(
                RoastError::Program(ErrorCode::AmountMustBeGreaterThanZero),
            )
            &&& accounts_in_order && mint@ == accounts.mint.key@ && amount > 0 && message.len() > MAX_ROAST_LENGTH
                ==> e == Some(RoastError::Program(ErrorCode::RoastMessageTooLong))
        }),
{
}

/// Which refusal a deposit gives: an unsigned one as unsigned; signed with the
/// token program, a signer other than the roast's roaster as a has-one
/// violation; and where the seeds derive the escrow PDA given but the roast
/// records another, as an incorrect escrow PDA.
pub proof fn deposit_refusals_name_their_cause(
    escrow: RoastEscrow,
    accounts: DepositInEscrow,
    program_id: Seq<u8>,
    amount: u64,
)
    ensures
        !accounts.roaster.is_signer ==> deposit_error(escrow, accounts, program_id, amount) == Some(
            RoastError::AccountNotSigner,
        ),
        accounts.roaster.is_signer && accounts.token_program@ == token_program_id()
            && accounts.roaster.key@ != escrow.roaster@ ==> deposit_error(escrow, accounts, program_id, amount)
            == Some(RoastError::ConstraintHasOne),
        accounts.roaster.is_signer && accounts.token_program@ == token_program_id()
            && accounts.roaster.key@ == escrow.roaster@
            && derived_address(escrow_signer_seeds_of(escrow), program_id) == Some(accounts.escrow_pda@)
            && accounts.escrow_pda@ != escrow.escrow_pda@ ==> deposit_error(escrow, accounts, program_id, amount)
            == Some(RoastError::Program(ErrorCode::IncorrectEscrowPda)),
{
}

/// Which refusal settling gives: where the seeds derive the escrow PDA given
/// but the roast records another, an incorrect escrow PDA; where every account
/// is in order but the roast is pending, an invalid status for transfer.
pub proof fn settlement_refusals_name_their_cause(
    escrow: RoastEscrow,
    accounts: ExecuteTransfer,
    program_id: Seq<u8>,
)
    ensures
        accounts.token_program@ == token_program_id() && accounts.system_program@ == system_program_id()
            && derived_address(escrow_signer_seeds_of(escrow), program_id) == Some(accounts.escrow_pda@)
            && accounts.escrow_pda@ != escrow.escrow_pda@ ==> execute_error(escrow, accounts, program_id)
            == Some(RoastError::Program(ErrorCode::IncorrectEscrowPda)),
        execute_error(with_status(escrow, RoastStatus::Rejected), accounts, program_id) is None
            && escrow.status == RoastStatus::Pending ==> execute_error(escrow, accounts, program_id)
            == Some(RoastError::Program(ErrorCode::InvalidStatusForTransfer)),
{
}

/// Which refusal closing gives: unsigned as unsigned; signed by an account
/// other than the roast's roaster, or naming another receiver for an accepted
/// roast, as an unauthorized action; a pending roast as not completed.
pub proof fn close_refusals_name_their_cause(escrow: RoastEscrow, accounts: CloseRoastEscrow)
    ensures
        !accounts.roaster.is_signer ==> close_error(escrow, accounts) == Some(RoastError::AccountNotSigner),
        accounts.roaster.is_signer && accounts.roast_escrow@ != accounts.roaster.key@
            && accounts.roaster.key@ != escrow.roaster@ ==> close_error(escrow, accounts) == Some(
            RoastError::Program(ErrorCode::UnauthorizedAction),
        ),
        accounts.roaster.is_signer && accounts.roast_escrow@ != accounts.roaster.key@
            && accounts.roaster.key@ == escrow.roaster@ && escrow.status == RoastStatus::Accepted
            && accounts.receiver.key@ != escrow.receiver@ ==> close_error(escrow, accounts) == Some(
            RoastError::Program(ErrorCode::UnauthorizedAction),
        ),
        accounts.roaster.is_signer && accounts.roast_escrow@ != accounts.roaster.key@
            && accounts.roaster.key@ == escrow.roaster@ && escrow.status == RoastStatus::Pending
            ==> close_error(escrow, accounts) == Some(RoastError::Program(ErrorCode::RoastNotCompleted)),
{
}

/// Which refusal an answer gives: unsigned as unsigned, signed by another
/// account than the roast's receiver as a has-one violation.
pub proof fn answer_refusals_name_their_cause(escrow: RoastEscrow, answer: ReceiverResponds)
    ensures
        !answer.receiver.is_signer ==> respond_error(escrow, answer) == Some(RoastError::AccountNotSigner),
        answer.receiver.is_signer && answer.receiver.key@ != escrow.receiver@ ==> respond_error(escrow, answer)
            == Some(RoastError::ConstraintHasOne),
{
}

/// The program's own errors are numbered from 6000 in the order they are
/// declared, each with its own number; the framework's refusals keep the
/// framework's numbers.
pub proof fn error_numbers(e: ErrorCode, f: ErrorCode, r: RoastError, q: RoastError)
    ensures
        error_index(ErrorCode::RoastMessageTooLong) == 0,
        error_index(ErrorCode::RoastNotCompleted) == 1,
        error_index(ErrorCode::InvalidStatusForTransfer) == 2,
        error_index(ErrorCode::IncorrectEscrowPda) == 3,
        error_index(ErrorCode::UnauthorizedAction) == 4,
        error_index(ErrorCode::MintMismatch) == 5,
        error_index(ErrorCode::AmountMustBeGreaterThanZero) == 6,
        e != f ==> error_index(e) != error_index(f),
        roast_error_code(RoastError::AccountNotSigner) == 3010,
        roast_error_code(RoastError::InvalidProgramId) == 3008,
        roast_error_code(RoastError::ConstraintHasOne) == 2001,
        roast_error_code(RoastError::ConstraintSeeds) == 2006,
        roast_error_code(RoastError::ConstraintTokenOwner) == 2015,
        roast_error_code(RoastError::ConstraintAssociated) == 2009,
        roast_error_code(RoastError::ConstraintClose) == 2011,
        roast_error_code(RoastError::Program(e)) == 6000 + error_index(e),
        r != q ==> roast_error_code(r) != roast_error_code(q),
{
}

/// The seeds' fixed parts: `"escrow"` and `"roast_escrow"` as bytes, the
/// roast account's seeds `["roast_escrow", roaster, receiver, seed id]`, and an
/// associated token account's seeds `[wallet, token program, mint]`; the
/// canonical address of seeds is the one the bump search finds; a message of
/// `MAX_ROAST_LENGTH` bytes fills the roast account exactly.
pub proof fn seed_and_space_constants(roaster: Seq<u8>, receiver: Seq<u8>, seed_id: u64, seeds: Seq<Seq<u8>>, program_id: Seq<u8>, key: Seq<u8>, n: nat)
    ensures
        escrow_seed_prefix() == seq![101u8, 115, 99, 114, 111, 119],
        roast_escrow_seed_prefix() == seq![114u8, 111, 97, 115, 116, 95, 101, 115, 99, 114, 111, 119],
        roast_escrow_seeds(roaster, receiver, seed_id) == seq![
            seq![114u8, 111, 97, 115, 116, 95, 101, 115, 99, 114, 111, 119],
            roaster,
            receiver,
            le_bytes(seed_id as nat, 8),
        ],
        crate::pda::associated_token_seeds(roaster, receiver) == seq![roaster, token_program_id(), receiver],
        is_canonical_address(seeds, program_id, key) <==> (find_pda(seeds, program_id) matches Some((k, _)) && k == key),
        find_pda(seeds, program_id) == find_from(seeds, program_id, 255),
        serialized_len(MAX_ROAST_LENGTH as nat) == ROAST_ESCROW_INIT_SPACE,
        serialized_len(n + 1) == serialized_len(n) + 1,
{
}

/// The well-known addresses are the deployed programs': the SPL token program
/// (`TokenkegQfeZyiNwAJbNbGKPFXCWuBvf9Ss623VQ5DA`), the associated token
/// account program (`ATokenGPvbdGVxr1b2hvZbsiqW5xWH25efTNsLJA8knL`), the
/// system program (all zeros) and this program
/// (`6iEFedqxjyCaJPcBZzp1w7D3TT8wPRCdvveMZe8FcgCm`); no two are the same.
pub proof fn well_known_program_ids()
    ensures
        token_program_id() == seq![
            6u8, 221, 246, 225, 215, 101, 161, 147, 217, 203, 225, 70, 206, 235, 121, 172,
            28, 180, 133, 237, 95, 91, 55, 145, 58, 140, 245, 133, 126, 255, 0, 169,
        ],
        associated_token_program_id() == seq![
            140u8, 151, 37, 143, 78, 36, 137, 241, 187, 61, 16, 41, 20, 142, 13, 131,
            11, 90, 19, 153, 218, 255, 16, 132, 4, 142, 123, 216, 219, 233, 248, 89,
        ],
        system_program_id().len() == 32,
        forall|i: int| 0 <= i < 32 ==> system_program_id()[i] == 0u8,
        crate::pubkey::roast_program_id() == seq![
            84u8, 218, 59, 135, 6, 107, 113, 126, 203, 45, 206, 23, 70, 189, 163, 231,
            154, 83, 227, 37, 186, 118, 75, 61, 241, 103, 110, 66, 166, 10, 142, 30,
        ],
        token_program_id() != associated_token_program_id(),
        token_program_id() != system_program_id(),
        associated_token_program_id() != system_program_id(),
{
    assert(token_program_id()[0] != associated_token_program_id()[0]);
    assert(token_program_id()[0] != system_program_id()[0]);
    assert(associated_token_program_id()[0] != system_program_id()[0]);
}

} // verus!
