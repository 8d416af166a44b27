use crate::address::{
    created_program_address, escrow_seeds_spec, escrow_signer_seeds_spec, find_escrow_address,
    found_program_address, is_on_curve, on_curve, Pubkey,
};
use crate::error::{ErrorCode, EscrowError};
use crate::ledger::{
    balance, credited, with_amount, Ledger, Signer, TokenAccount, RECORD_RENT, TOKEN_ACCOUNT_RENT,
};
use crate::state::Escrow;
use vstd::prelude::*;

verus! {

/// The accounts that opening an escrow names.
#[derive(Clone, Copy, Debug)]
pub struct Make {
    pub maker: Pubkey,
    pub mint_a: Pubkey,
    pub mint_b: Pubkey,
    /// The maker's holding of `mint_a` that pays the deposit.
    pub maker_ata_a: Pubkey,
    /// Where the record is to be created: the address derived from the
    /// maker and the seed.
    pub escrow: Pubkey,
    /// Where the vault is to be created.
    pub vault: Pubkey,
}

/// Whether opening an escrow on `l` fails, and with which error.
pub open spec fn make_check(l: Ledger, a: Make, signer: Pubkey, seed: u64, deposit: u64) -> Result<(), EscrowError> {
    let t = l.tokens();
    let found = found_program_address(escrow_seeds_spec(a.maker@, seed), l.program()@);
    if signer@ != a.maker@ || !on_curve(a.maker@) {
        Err(EscrowError::MissingRequiredSignature)
    } else if !t.contains_key(a.maker_ata_a@) {
        Err(EscrowError::AccountNotFound)
    } else if t[a.maker_ata_a@].mint@ != a.mint_a@ {
        Err(EscrowError::Program(ErrorCode::ConstraintTokenMint))
    } else if t[a.maker_ata_a@].owner@ != a.maker@ {
        Err(EscrowError::Program(ErrorCode::ConstraintTokenOwner))
    } else if found is None {
        Err(EscrowError::NoViableBump)
    } else if found.unwrap().0 != a.escrow@ {
        Err(EscrowError::ConstraintSeeds)
    } else if l.records().contains_key(a.escrow@) || t.contains_key(a.vault@) {
        Err(EscrowError::AccountAlreadyInUse)
    } else if t[a.maker_ata_a@].amount < deposit {
        Err(EscrowError::InsufficientFunds)
    } else if balance(l.lamports(), a.maker@) < TOKEN_ACCOUNT_RENT + RECORD_RENT {
        Err(EscrowError::InsufficientLamports)
    } else {
        Ok(())
    }
}

/// The record that opening an escrow writes.
pub open spec fn made_record(l: Ledger, a: Make, seed: u64, receive: u64) -> Escrow {
    Escrow {
        seed,
        maker: a.maker,
        mint_a: a.mint_a,
        mint_b: a.mint_b,
        receive,
        created_at: l.clock(),
        bump: found_program_address(escrow_seeds_spec(a.maker@, seed), l.program()@).unwrap().1,
    }
}

/// The token accounts after opening an escrow: `deposit` tokens leave the
/// maker's holding for a new vault of `mint_a` owned by the escrow address.
pub open spec fn made_tokens(l: Ledger, a: Make, deposit: u64) -> Map<Seq<u8>, TokenAccount> {
    let t = l.tokens();
    t.insert(a.maker_ata_a@, with_amount(t[a.maker_ata_a@], t[a.maker_ata_a@].amount - deposit)).insert(
        a.vault@,
        TokenAccount { mint: a.mint_a, owner: a.escrow, amount: deposit },
    )
}

/// The native balances after opening an escrow: the maker pays the storage
/// deposits of the record and of the vault.
pub open spec fn made_lamports(l: Ledger, a: Make) -> Map<Seq<u8>, u64> {
    credited(l.lamports(), a.maker@, -((TOKEN_ACCOUNT_RENT + RECORD_RENT) as int))
}

/// Opens an escrow: writes the record at the address derived from the maker
/// and `seed`, creates the vault owned by that address, and moves `deposit`
/// tokens of `mint_a` from the maker into it. Either all of it happens or,
/// with the error of the first failed check, none of it.
pub fn make(ledger: &mut Ledger, signer: &Signer, accounts: &Make, seed: u64, deposit: u64, receive: u64) -> (r: Result<
    (),
    EscrowError,
>)
    requires
        old(ledger).well_formed(),
    ensures
        final(ledger).well_formed(),
        final(ledger).program() == old(ledger).program(),
        final(ledger).clock() == old(ledger).clock(),
        r == make_check(*old(ledger), *accounts, signer.key(), seed, deposit),
        r is Ok ==> signer.key()@ == accounts.maker@ && on_curve(accounts.maker@) && !on_curve(accounts.escrow@),
        r is Ok ==> final(ledger).tokens() == made_tokens(*old(ledger), *accounts, deposit)
            && final(ledger).records() == old(ledger).records().insert(
            accounts.escrow@,
            made_record(*old(ledger), *accounts, seed, receive),
        ) && created_program_address(
            escrow_signer_seeds_spec(
                accounts.maker@,
                seed,
                made_record(*old(ledger), *accounts, seed, receive).bump,
            ),
            old(ledger).program()@,
        ) == Some(accounts.escrow@),
        r is Ok ==> final(ledger).lamports() == made_lamports(*old(ledger), *accounts),
        r is Err ==> final(ledger).tokens() == old(ledger).tokens() && final(ledger).records() == old(
            ledger,
        ).records() && final(ledger).lamports() == old(ledger).lamports(),
{
    if !signer.key_of().key_eq(&accounts.maker) || !is_on_curve(&accounts.maker) {
        return Err(EscrowError::MissingRequiredSignature);
    }
    let ata = match ledger.get_token_account(&accounts.maker_ata_a) {
        Some(h) => h,
        None => return Err(EscrowError::AccountNotFound),
    };
    if !ata.mint.key_eq(&accounts.mint_a) {
        return Err(EscrowError::Program(ErrorCode::ConstraintTokenMint));
    }
    if !ata.owner.key_eq(&accounts.maker) {
        return Err(EscrowError::Program(ErrorCode::ConstraintTokenOwner));
    }
    let program_id = ledger.program_id();
    let (address, bump) = match find_escrow_address(&accounts.maker, seed, &program_id) {
        Some(found) => found,
        None => return Err(EscrowError::NoViableBump),
    };
    if !address.key_eq(&accounts.escrow) {
        return Err(EscrowError::ConstraintSeeds);
    }
    if ledger.get_escrow(&accounts.escrow).is_some() || ledger.get_token_account(&accounts.vault).is_some() {
        return Err(EscrowError::AccountAlreadyInUse);
    }
    if ata.amount < deposit {
        return Err(EscrowError::InsufficientFunds);
    }
    if ledger.get_lamports(&accounts.maker) < TOKEN_ACCOUNT_RENT + RECORD_RENT {
        return Err(EscrowError::InsufficientLamports);
    }
    let ghost l0 = *ledger;
    let record = Escrow {
        seed,
        maker: accounts.maker,
        mint_a: accounts.mint_a,
        mint_b: accounts.mint_b,
        receive,
        created_at: ledger.now(),
        bump,
    };
    ledger.insert_escrow(&accounts.escrow, record);
    match ledger.create_token_account(&accounts.vault, &accounts.mint_a, &accounts.escrow) {
        Ok(()) => {},
        Err(e) => return Err(e),
    }
    match ledger.transfer(&accounts.maker_ata_a, &accounts.vault, deposit, signer) {
        Ok(()) => {},
        Err(e) => return Err(e),
    }
    ledger.debit_lamports(&accounts.maker, TOKEN_ACCOUNT_RENT + RECORD_RENT);
    proof {
        assert(ledger.tokens() =~= made_tokens(l0, *accounts, deposit));
    }
    Ok(())
}

} // verus!
