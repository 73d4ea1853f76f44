//! The accounts that the program stores.
pub mod roast_escrow;
pub mod roast_state;
pub mod state;
