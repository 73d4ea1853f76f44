//! The program's instructions, each as the checks it makes on the accounts
//! it is given and what it decides.
pub mod accounts;
pub mod close_roast_escrow;
pub mod deposit_in_escrow;
pub mod execute_transfer;
pub mod init_roast;
pub mod receiver_respond;

pub use accounts::{CloseTokenAccount, Mint, TokenAccount, TokenTransfer, Wallet};
pub use close_roast_escrow::{close_can_pay, close_roast_escrow, CloseRoastEscrow, RentRefund};
pub use deposit_in_escrow::{deposit_in_escrow, DepositInEscrow};
pub use execute_transfer::{execute_transfer, ExecuteTransfer, Settlement};
pub use init_roast::{initialize_roast, initialize_roast_bytes, InitializeRoast};
pub use receiver_respond::{receiver_responds, ReceiverResponds};
