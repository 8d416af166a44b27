use crate::address::{created_program_address, escrow_signer_seeds_spec, Pubkey};
use crate::error::EscrowError;
use crate::ledger::{balance, credited, transfer_spec, Ledger, Signer, TokenAccount, TOKEN_ACCOUNT_RENT};
use vstd::prelude::*;

verus! {

/// What emptying the vault into `destination` and closing it does to the
/// token accounts and the native balances: the vault's storage deposit goes
/// to the maker. The escrow program signs for the vault with the record's
/// seeds and bump: the address they stand for is the only authority it has.
pub open spec fn drain_spec(
    l: Ledger,
    maker: Seq<u8>,
    escrow: Seq<u8>,
    vault: Seq<u8>,
    destination: Seq<u8>,
) -> Result<(Map<Seq<u8>, TokenAccount>, Map<Seq<u8>, u64>), EscrowError> {
    if vault == destination {
        Err(EscrowError::ConstraintDuplicateMutableAccount)
    } else if !l.records().contains_key(escrow) {
        Err(EscrowError::AccountNotFound)
    } else if !l.tokens().contains_key(vault) {
        Err(EscrowError::AccountNotFound)
    } else {
        let rec = l.records()[escrow];
        match created_program_address(escrow_signer_seeds_spec(maker, rec.seed, rec.bump), l.program()@) {
            None => Err(EscrowError::ConstraintSeeds),
            Some(authority) => if balance(l.lamports(), maker) + TOKEN_ACCOUNT_RENT > u64::MAX {
                Err(EscrowError::ArithmeticOverflow)
            } else {
                match transfer_spec(l.tokens(), vault, destination, l.tokens()[vault].amount, authority) {
                    Err(e) => Err(e),
                    Ok(m) => Ok((m.remove(vault), credited(l.lamports(), maker, TOKEN_ACCOUNT_RENT as int))),
                }
            },
        }
    }
}

/// Moves every token of the vault to `destination` and closes the vault, as
/// one step: on failure nothing changes.
pub fn withdraw_and_close(
    ledger: &mut Ledger,
    maker: &Pubkey,
    escrow: &Pubkey,
    vault: &Pubkey,
    destination: &Pubkey,
) -> (r: Result<(), EscrowError>)
    requires
        old(ledger).well_formed(),
    ensures
        final(ledger).well_formed(),
        final(ledger).program() == old(ledger).program(),
        final(ledger).clock() == old(ledger).clock(),
        final(ledger).records() == old(ledger).records(),
        match drain_spec(*old(ledger), maker@, escrow@, vault@, destination@) {
            Ok((m, w)) => r is Ok && final(ledger).tokens() == m && final(ledger).lamports() == w,
            Err(e) => r == Err::<(), EscrowError>(e) && final(ledger).tokens() == old(ledger).tokens()
                && final(ledger).lamports() == old(ledger).lamports(),
        },
{
    if vault.key_eq(destination) {
        return Err(EscrowError::ConstraintDuplicateMutableAccount);
    }
    let rec = match ledger.get_escrow(escrow) {
        Some(rec) => rec,
        None => return Err(EscrowError::AccountNotFound),
    };
    let held = match ledger.get_token_account(vault) {
        Some(v) => v,
        None => return Err(EscrowError::AccountNotFound),
    };
    let program_id = ledger.program_id();
    let authority = match Signer::for_escrow(maker, rec.seed, rec.bump, &program_id) {
        Some(a) => a,
        None => return Err(EscrowError::ConstraintSeeds),
    };
    if ledger.get_lamports(maker) > u64::MAX - TOKEN_ACCOUNT_RENT {
        return Err(EscrowError::ArithmeticOverflow);
    }
    match ledger.transfer(vault, destination, held.amount, &authority) {
        Ok(()) => {},
        Err(e) => return Err(e),
    }
    proof {
        assert(ledger.tokens().contains_key(vault@));
        assert(ledger.tokens()[vault@].amount == 0);
        assert(ledger.tokens()[vault@].owner@ == authority.key()@);
    }
    match ledger.close_account(vault, maker, &authority) {
        Ok(()) => {},
        Err(e) => return Err(e),
    }
    Ok(())
}

} // verus!
