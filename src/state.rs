use crate::address::Pubkey;
use vstd::prelude::*;

verus! {

/// The record of one open escrow.
#[derive(Clone, Copy, Debug)]
pub struct Escrow {
    /// Chosen by the maker to tell its escrows apart.
    pub seed: u64,
    /// The depositor.
    pub maker: Pubkey,
    /// The mint of the deposited tokens.
    pub mint_a: Pubkey,
    /// The mint of the tokens that the maker asks for.
    pub mint_b: Pubkey,
    /// How many tokens of `mint_b` the maker asks for.
    pub receive: u64,
    /// The ledger time at which the escrow was opened.
    pub created_at: i64,
    /// The bump seed that makes the escrow address a program address.
    pub bump: u8,
}

/// Bytes of the record's fields: seed, three addresses, receive, created_at, bump.
pub const INIT_SPACE: usize = 121;

/// Bytes of the stored account: an 8-byte type tag, then the fields.
pub const ACCOUNT_SPACE: usize = 129;

} // verus!
