use crate::address::{
    created_program_address, escrow_signer_seeds_spec, is_on_curve, on_curve, verify_escrow_address, Pubkey,
};
use crate::error::{ErrorCode, EscrowError};
use crate::ledger::{
    balance, credited, with_amount, Ledger, Signer, TokenAccount, RECORD_RENT, TOKEN_ACCOUNT_RENT,
};
use crate::take::deposits_returned;
use crate::vault::withdraw_and_close;
use vstd::prelude::*;

verus! {

/// The accounts that a refund names.
#[derive(Clone, Copy, Debug)]
pub struct Refund {
    pub maker: Pubkey,
    pub mint_a: Pubkey,
    /// The maker's holding of `mint_a` that gets the deposit back.
    pub maker_ata_a: Pubkey,
    pub escrow: Pubkey,
    pub vault: Pubkey,
}

/// Whether a refund on `l` fails, and with which error. No clock is read:
/// the maker may cancel at any time.
pub open spec fn refund_check(l: Ledger, a: Refund, signer: Pubkey) -> Result<(), EscrowError> {
    let t = l.tokens();
    if signer@ != a.maker@ || !on_curve(a.maker@) {
        Err(EscrowError::MissingRequiredSignature)
    } else if a.maker_ata_a@ == a.vault@ {
        Err(EscrowError::ConstraintDuplicateMutableAccount)
    } else if !l.records().contains_key(a.escrow@) {
        Err(EscrowError::AccountNotFound)
    } else if l.records()[a.escrow@].maker@ != a.maker@ || l.records()[a.escrow@].mint_a@ != a.mint_a@ {
        Err(EscrowError::ConstraintHasOne)
    } else if created_program_address(
        escrow_signer_seeds_spec(a.maker@, l.records()[a.escrow@].seed, l.records()[a.escrow@].bump),
        l.program()@,
    ) != Some(a.escrow@) {
        Err(EscrowError::ConstraintSeeds)
    } else if !t.contains_key(a.maker_ata_a@) || !t.contains_key(a.vault@) {
        Err(EscrowError::AccountNotFound)
    } else if t[a.maker_ata_a@].owner@ != a.maker@ {
        Err(EscrowError::Program(ErrorCode::ConstraintTokenOwner))
    } else if t[a.maker_ata_a@].mint@ != a.mint_a@ {
        Err(EscrowError::Program(ErrorCode::ConstraintTokenMint))
    } else if t[a.vault@].owner@ != a.escrow@ {
        Err(EscrowError::Program(ErrorCode::ConstraintTokenOwner))
    } else if t[a.vault@].mint@ != a.mint_a@ {
        Err(EscrowError::Program(ErrorCode::ConstraintTokenMint))
    } else if t[a.maker_ata_a@].amount + t[a.vault@].amount > u64::MAX {
        Err(EscrowError::ArithmeticOverflow)
    } else if balance(l.lamports(), a.maker@) + TOKEN_ACCOUNT_RENT + RECORD_RENT > u64::MAX {
        Err(EscrowError::ArithmeticOverflow)
    } else {
        Ok(())
    }
}

/// The token accounts after a refund: the vault's whole balance is back
/// with the maker and the vault is gone.
pub open spec fn refund_tokens(l: Ledger, a: Refund) -> Map<Seq<u8>, TokenAccount> {
    let t = l.tokens();
    t.insert(
        a.maker_ata_a@,
        with_amount(t[a.maker_ata_a@], t[a.maker_ata_a@].amount + t[a.vault@].amount),
    ).remove(a.vault@)
}

impl Refund {
    /// Returns the vault's tokens to the maker and closes the vault.
    pub fn refund_and_close_vault(&self, ledger: &mut Ledger) -> (r: Result<(), EscrowError>)
        requires
            old(ledger).well_formed(),
        ensures
            final(ledger).well_formed(),
            final(ledger).program() == old(ledger).program(),
            final(ledger).clock() == old(ledger).clock(),
            final(ledger).records() == old(ledger).records(),
            match crate::vault::drain_spec(
                *old(ledger),
                self.maker@,
                self.escrow@,
                self.vault@,
                self.maker_ata_a@,
            ) {
                Ok((m, w)) => r is Ok && final(ledger).tokens() == m && final(ledger).lamports() == w,
                Err(e) => r == Err::<(), EscrowError>(e) && final(ledger).tokens() == old(
                    ledger,
                ).tokens() && final(ledger).lamports() == old(ledger).lamports(),
            },
    {
        withdraw_and_close(ledger, &self.maker, &self.escrow, &self.vault, &self.maker_ata_a)
    }

    fn check(&self, ledger: &Ledger, signer: &Signer) -> (r: Result<(), EscrowError>)
        requires
            ledger.well_formed(),
        ensures
            r == refund_check(*ledger, *self, signer.key()),
    {
        if !signer.key_of().key_eq(&self.maker) || !is_on_curve(&self.maker) {
            return Err(EscrowError::MissingRequiredSignature);
        }
        if self.maker_ata_a.key_eq(&self.vault) {
            return Err(EscrowError::ConstraintDuplicateMutableAccount);
        }
        let rec = match ledger.get_escrow(&self.escrow) {
            Some(rec) => rec,
            None => return Err(EscrowError::AccountNotFound),
        };
        if !(rec.maker.key_eq(&self.maker) && rec.mint_a.key_eq(&self.mint_a)) {
            return Err(EscrowError::ConstraintHasOne);
        }
        let program_id = ledger.program_id();
        if !verify_escrow_address(&self.maker, rec.seed, rec.bump, &program_id, &self.escrow) {
            return Err(EscrowError::ConstraintSeeds);
        }
        let (ata, v) = match (
            ledger.get_token_account(&self.maker_ata_a),
            ledger.get_token_account(&self.vault),
        ) {
            (Some(ata), Some(v)) => (ata, v),
            _ => return Err(EscrowError::AccountNotFound),
        };
        if !ata.owner.key_eq(&self.maker) {
            return Err(EscrowError::Program(ErrorCode::ConstraintTokenOwner));
        }
        if !ata.mint.key_eq(&self.mint_a) {
            return Err(EscrowError::Program(ErrorCode::ConstraintTokenMint));
        }
        if !v.owner.key_eq(&self.escrow) {
            return Err(EscrowError::Program(ErrorCode::ConstraintTokenOwner));
        }
        if !v.mint.key_eq(&self.mint_a) {
            return Err(EscrowError::Program(ErrorCode::ConstraintTokenMint));
        }
        if ata.amount > u64::MAX - v.amount {
            return Err(EscrowError::ArithmeticOverflow);
        }
        if ledger.get_lamports(&self.maker) > u64::MAX - TOKEN_ACCOUNT_RENT - RECORD_RENT {
            return Err(EscrowError::ArithmeticOverflow);
        }
        Ok(())
    }
}

/// Cancels an escrow: the maker gets the vault's whole balance back, and the
/// vault and the record are closed. Either all of it happens or, with the
/// error of the first failed check, none of it.
pub fn refund(ledger: &mut Ledger, signer: &Signer, accounts: &Refund) -> (r: Result<(), EscrowError>)
    requires
        old(ledger).well_formed(),
    ensures
        final(ledger).well_formed(),
        final(ledger).program() == old(ledger).program(),
        final(ledger).clock() == old(ledger).clock(),
        r == refund_check(*old(ledger), *accounts, signer.key()),
        r is Ok ==> signer.key()@ == accounts.maker@ && on_curve(accounts.maker@),
        r is Ok ==> final(ledger).tokens() == refund_tokens(*old(ledger), *accounts)
            && final(ledger).records() == old(ledger).records().remove(accounts.escrow@),
        r is Ok ==> final(ledger).lamports() == deposits_returned(*old(ledger), accounts.maker@),
        r is Err ==> final(ledger).tokens() == old(ledger).tokens() && final(ledger).records() == old(
            ledger,
        ).records() && final(ledger).lamports() == old(ledger).lamports(),
{
    match accounts.check(ledger, signer) {
        Ok(()) => {},
        Err(e) => return Err(e),
    }
    let ghost l0 = *ledger;
    match accounts.refund_and_close_vault(ledger) {
        Ok(()) => {},
        Err(e) => return Err(e),
    }
    ledger.close_record(&accounts.escrow, &accounts.maker);
    proof {
        assert(ledger.tokens() =~= refund_tokens(l0, *accounts));
    }
    Ok(())
}

} // verus!
