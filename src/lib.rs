//! A two-party escrow: a maker locks tokens of one mint in a vault owned by a
//! program-derived address, and a taker may later swap them for tokens of a
//! second mint, or the maker may take them back.
//!
//! The taker must wait five days after the escrow was opened, while the maker
//! may cancel at any time, even at once. This asymmetry is deliberate and kept
//! as it stands.

pub mod address;
pub mod codec;
pub mod error;
pub mod laws;
pub mod ledger;
pub mod make;
pub mod refund;
pub mod state;
pub mod table;
pub mod take;
pub mod vault;

pub use address::{
    escrow_seeds, escrow_signer, escrow_signer_seeds, find_escrow_address, seed_le_bytes,
    verify_escrow_address, Pubkey,
};
pub use error::{ErrorCode, EscrowError};
pub use ledger::{Ledger, Signer, TokenAccount};
pub use make::{make, Make};
pub use refund::{refund, Refund};
pub use state::{Escrow, ACCOUNT_SPACE, INIT_SPACE};
pub use take::{check_holdings, take, Take, FIVE_DAYS};
pub use vault::withdraw_and_close;
