use crate::address::{
    created_program_address, escrow_signer_seeds_spec, is_on_curve, on_curve, verify_escrow_address, Pubkey,
};
use crate::error::{ErrorCode, EscrowError};
use crate::ledger::{
    balance, credited, with_amount, Ledger, Signer, TokenAccount, RECORD_RENT, TOKEN_ACCOUNT_RENT,
};
use crate::state::Escrow;
use crate::vault::withdraw_and_close;
use vstd::prelude::*;

verus! {

/// How long after opening an escrow a taker must wait, in seconds.
pub const FIVE_DAYS: i64 = 432000;

/// The accounts that a swap names.
#[derive(Clone, Copy, Debug)]
pub struct Take {
    pub taker: Pubkey,
    pub maker: Pubkey,
    pub mint_a: Pubkey,
    pub mint_b: Pubkey,
    /// Receives the vault's tokens of `mint_a`.
    pub taker_ata_a: Pubkey,
    /// Pays the maker's tokens of `mint_b`.
    pub taker_ata_b: Pubkey,
    /// Receives the tokens of `mint_b`.
    pub maker_ata_b: Pubkey,
    /// The escrow record.
    pub escrow: Pubkey,
    /// The vault that holds the deposit.
    pub vault: Pubkey,
}

/// The parties and the token accounts that the swap writes are all distinct.
pub open spec fn take_accounts_distinct(a: Take) -> bool {
    &&& a.taker@ != a.maker@
    &&& a.taker_ata_a@ != a.taker_ata_b@
    &&& a.taker_ata_a@ != a.maker_ata_b@
    &&& a.taker_ata_a@ != a.vault@
    &&& a.taker_ata_b@ != a.maker_ata_b@
    &&& a.taker_ata_b@ != a.vault@
    &&& a.maker_ata_b@ != a.vault@
}

/// The protocol's checks on the loaded holdings and on the clock, in order:
/// owner then mint of each holding, then the waiting period.
pub open spec fn holdings_check(
    a: Take,
    taker_a: TokenAccount,
    taker_b: TokenAccount,
    maker_b: TokenAccount,
    vault: TokenAccount,
    created_at: i64,
    now: i64,
) -> Result<(), ErrorCode> {
    if taker_a.owner@ != a.taker@ {
        Err(ErrorCode::ConstraintTokenOwner)
    } else if taker_a.mint@ != a.mint_a@ {
        Err(ErrorCode::ConstraintTokenMint)
    } else if taker_b.owner@ != a.taker@ {
        Err(ErrorCode::ConstraintTokenOwner)
    } else if taker_b.mint@ != a.mint_b@ {
        Err(ErrorCode::ConstraintTokenMint)
    } else if maker_b.owner@ != a.maker@ {
        Err(ErrorCode::ConstraintTokenOwner)
    } else if maker_b.mint@ != a.mint_b@ {
        Err(ErrorCode::ConstraintTokenMint)
    } else if vault.owner@ != a.escrow@ {
        Err(ErrorCode::ConstraintTokenOwner)
    } else if vault.mint@ != a.mint_a@ {
        Err(ErrorCode::ConstraintTokenMint)
    } else if (now as int) < created_at as int + FIVE_DAYS as int {
        Err(ErrorCode::TooEarlyToTake)
    } else {
        Ok(())
    }
}

/// The record names the maker and the two mints of the swap.
pub open spec fn record_matches(a: Take, rec: Escrow) -> bool {
    rec.maker@ == a.maker@ && rec.mint_a@ == a.mint_a@ && rec.mint_b@ == a.mint_b@
}

/// The account constraints of a swap, then the protocol's checks on the
/// holdings and the clock. Token amounts play no part.
pub open spec fn validate_check(l: Ledger, a: Take) -> Result<(), EscrowError> {
    let t = l.tokens();
    if !take_accounts_distinct(a) {
        Err(EscrowError::ConstraintDuplicateMutableAccount)
    } else if !l.records().contains_key(a.escrow@) {
        Err(EscrowError::AccountNotFound)
    } else if !record_matches(a, l.records()[a.escrow@]) {
        Err(EscrowError::ConstraintHasOne)
    } else if created_program_address(
        escrow_signer_seeds_spec(a.maker@, l.records()[a.escrow@].seed, l.records()[a.escrow@].bump),
        l.program()@,
    ) != Some(a.escrow@) {
        Err(EscrowError::ConstraintSeeds)
    } else if !t.contains_key(a.taker_ata_a@) || !t.contains_key(a.taker_ata_b@) || !t.contains_key(
        a.maker_ata_b@,
    ) || !t.contains_key(a.vault@) {
        Err(EscrowError::AccountNotFound)
    } else {
        let rec = l.records()[a.escrow@];
        match holdings_check(
            a,
            t[a.taker_ata_a@],
            t[a.taker_ata_b@],
            t[a.maker_ata_b@],
            t[a.vault@],
            rec.created_at,
            l.clock(),
        ) {
            Err(c) => Err(EscrowError::Program(c)),
            Ok(()) => Ok(()),
        }
    }
}

/// Whether both transfers of a swap fit: the taker can pay `receive`, and
/// neither the maker's nor the taker's balance overflows.
pub open spec fn amounts_check(l: Ledger, a: Take) -> Result<(), EscrowError> {
    let t = l.tokens();
    let receive = l.records()[a.escrow@].receive;
    if t[a.taker_ata_b@].amount < receive {
        Err(EscrowError::InsufficientFunds)
    } else if t[a.maker_ata_b@].amount + receive > u64::MAX {
        Err(EscrowError::ArithmeticOverflow)
    } else if t[a.taker_ata_a@].amount + t[a.vault@].amount > u64::MAX {
        Err(EscrowError::ArithmeticOverflow)
    } else if balance(l.lamports(), a.maker@) + TOKEN_ACCOUNT_RENT + RECORD_RENT > u64::MAX {
        Err(EscrowError::ArithmeticOverflow)
    } else {
        Ok(())
    }
}

/// The native balances after the vault and the record are closed: both
/// storage deposits go to the maker.
pub open spec fn deposits_returned(l: Ledger, maker: Seq<u8>) -> Map<Seq<u8>, u64> {
    credited(credited(l.lamports(), maker, TOKEN_ACCOUNT_RENT as int), maker, RECORD_RENT as int)
}

/// Whether a swap on `l` with the accounts `a` fails, and with which error:
/// first the taker's signature, then the account constraints and the
/// protocol's checks, then the amounts.
pub open spec fn take_check(l: Ledger, a: Take, signer: Pubkey) -> Result<(), EscrowError> {
    if signer@ != a.taker@ || !on_curve(a.taker@) {
        Err(EscrowError::MissingRequiredSignature)
    } else {
        match validate_check(l, a) {
            Err(e) => Err(e),
            Ok(()) => amounts_check(l, a),
        }
    }
}

/// The token accounts after a successful swap: `receive` tokens of `mint_b`
/// go from the taker to the maker, the vault's whole balance goes to the
/// taker, and the vault is gone.
pub open spec fn take_tokens(l: Ledger, a: Take) -> Map<Seq<u8>, TokenAccount> {
    let t = l.tokens();
    let receive = l.records()[a.escrow@].receive;
    t.insert(a.taker_ata_b@, with_amount(t[a.taker_ata_b@], t[a.taker_ata_b@].amount - receive)).insert(
        a.maker_ata_b@,
        with_amount(t[a.maker_ata_b@], t[a.maker_ata_b@].amount + receive),
    ).insert(
        a.taker_ata_a@,
        with_amount(t[a.taker_ata_a@], t[a.taker_ata_a@].amount + t[a.vault@].amount),
    ).remove(a.vault@)
}

fn check_holding(h: &TokenAccount, owner: &Pubkey, mint: &Pubkey) -> (r: Result<(), ErrorCode>)
    ensures
        r == (if h.owner@ != owner@ {
            Err(ErrorCode::ConstraintTokenOwner)
        } else if h.mint@ != mint@ {
            Err(ErrorCode::ConstraintTokenMint)
        } else {
            Ok(())
        }),
{
    if !h.owner.key_eq(owner) {
        return Err(ErrorCode::ConstraintTokenOwner);
    }
    if !h.mint.key_eq(mint) {
        return Err(ErrorCode::ConstraintTokenMint);
    }
    Ok(())
}

/// The protocol's checks on the holdings and the clock.
pub fn check_holdings(
    a: &Take,
    taker_a: &TokenAccount,
    taker_b: &TokenAccount,
    maker_b: &TokenAccount,
    vault: &TokenAccount,
    created_at: i64,
    now: i64,
) -> (r: Result<(), ErrorCode>)
    ensures
        r == holdings_check(*a, *taker_a, *taker_b, *maker_b, *vault, created_at, now),
{
    check_holding(taker_a, &a.taker, &a.mint_a)?;
    check_holding(taker_b, &a.taker, &a.mint_b)?;
    check_holding(maker_b, &a.maker, &a.mint_b)?;
    check_holding(vault, &a.escrow, &a.mint_a)?;
    if (now as i128) < created_at as i128 + FIVE_DAYS as i128 {
        return Err(ErrorCode::TooEarlyToTake);
    }
    Ok(())
}

impl Take {
    fn distinct(&self) -> (r: bool)
        ensures
            r == take_accounts_distinct(*self),
    {
        !self.taker.key_eq(&self.maker) && !self.taker_ata_a.key_eq(&self.taker_ata_b)
            && !self.taker_ata_a.key_eq(&self.maker_ata_b) && !self.taker_ata_a.key_eq(&self.vault)
            && !self.taker_ata_b.key_eq(&self.maker_ata_b) && !self.taker_ata_b.key_eq(&self.vault)
            && !self.maker_ata_b.key_eq(&self.vault)
    }

    /// Checks the accounts of a swap: they are distinct and exist, the
    /// record belongs to its address, parties and mints, each holding has
    /// the right owner and mint, and the waiting period is over.
    pub fn validate(&self, ledger: &Ledger) -> (r: Result<(), EscrowError>)
        requires
            ledger.well_formed(),
        ensures
            r == validate_check(*ledger, *self),
    {
        if !self.distinct() {
            return Err(EscrowError::ConstraintDuplicateMutableAccount);
        }
        let rec = match ledger.get_escrow(&self.escrow) {
            Some(rec) => rec,
            None => return Err(EscrowError::AccountNotFound),
        };
        if !(rec.maker.key_eq(&self.maker) && rec.mint_a.key_eq(&self.mint_a) && rec.mint_b.key_eq(
            &self.mint_b,
        )) {
            return Err(EscrowError::ConstraintHasOne);
        }
        let program_id = ledger.program_id();
        if !verify_escrow_address(&self.maker, rec.seed, rec.bump, &program_id, &self.escrow) {
            return Err(EscrowError::ConstraintSeeds);
        }
        let taker_a = ledger.get_token_account(&self.taker_ata_a);
        let taker_b = ledger.get_token_account(&self.taker_ata_b);
        let maker_b = ledger.get_token_account(&self.maker_ata_b);
        let vault = ledger.get_token_account(&self.vault);
        match (taker_a, taker_b, maker_b, vault) {
            (Some(ta), Some(tb), Some(mb), Some(v)) => {
                match check_holdings(self, &ta, &tb, &mb, &v, rec.created_at, ledger.now()) {
                    Err(c) => Err(EscrowError::Program(c)),
                    Ok(()) => Ok(()),
                }
            },
            _ => Err(EscrowError::AccountNotFound),
        }
    }

    /// Pays the maker: moves `receive` tokens of `mint_b` from the taker's
    /// holding to the maker's, signed for by `signer`.
    pub fn deposit(&self, ledger: &mut Ledger, signer: &Signer) -> (r: Result<(), EscrowError>)
        requires
            old(ledger).well_formed(),
        ensures
            final(ledger).well_formed(),
            final(ledger).program() == old(ledger).program(),
            final(ledger).clock() == old(ledger).clock(),
            final(ledger).records() == old(ledger).records(),
            final(ledger).lamports() == old(ledger).lamports(),
            !old(ledger).records().contains_key(self.escrow@) ==> r == Err::<(), EscrowError>(
                EscrowError::AccountNotFound,
            ) && final(ledger).tokens() == old(ledger).tokens(),
            old(ledger).records().contains_key(self.escrow@) ==> match crate::ledger::transfer_spec(
                old(ledger).tokens(),
                self.taker_ata_b@,
                self.maker_ata_b@,
                old(ledger).records()[self.escrow@].receive,
                signer.key()@,
            ) {
                Ok(m) => r is Ok && final(ledger).tokens() == m,
                Err(e) => r == Err::<(), EscrowError>(e) && final(ledger).tokens() == old(
                    ledger,
                ).tokens(),
            },
    {
        let rec = match ledger.get_escrow(&self.escrow) {
            Some(rec) => rec,
            None => return Err(EscrowError::AccountNotFound),
        };
        ledger.transfer(&self.taker_ata_b, &self.maker_ata_b, rec.receive, signer)
    }

    /// Moves the vault's whole balance to the taker and closes the vault.
    pub fn withdraw_and_close_vault(&self, ledger: &mut Ledger) -> (r: Result<(), EscrowError>)
        requires
            old(ledger).well_formed(),
        ensures
            final(ledger).well_formed(),
            final(ledger).program() == old(ledger).program(),
            final(ledger).clock() == old(ledger).clock(),
            final(ledger).records() == old(ledger).records(),
            match crate::vault::drain_spec(
                *old(ledger),
                self.maker@,
                self.escrow@,
                self.vault@,
                self.taker_ata_a@,
            ) {
                Ok((m, w)) => r is Ok && final(ledger).tokens() == m && final(ledger).lamports() == w,
                Err(e) => r == Err::<(), EscrowError>(e) && final(ledger).tokens() == old(
                    ledger,
                ).tokens() && final(ledger).lamports() == old(ledger).lamports(),
            },
    {
        withdraw_and_close(ledger, &self.maker, &self.escrow, &self.vault, &self.taker_ata_a)
    }
}

fn check_amounts(ledger: &Ledger, a: &Take) -> (r: Result<(), EscrowError>)
    requires
        ledger.well_formed(),
        validate_check(*ledger, *a) is Ok,
    ensures
        r == amounts_check(*ledger, *a),
{
    let rec = match ledger.get_escrow(&a.escrow) {
        Some(rec) => rec,
        None => return Err(EscrowError::AccountNotFound),
    };
    match (
        ledger.get_token_account(&a.taker_ata_a),
        ledger.get_token_account(&a.taker_ata_b),
        ledger.get_token_account(&a.maker_ata_b),
        ledger.get_token_account(&a.vault),
    ) {
        (Some(ta), Some(tb), Some(mb), Some(v)) => {
            if tb.amount < rec.receive {
                return Err(EscrowError::InsufficientFunds);
            }
            if mb.amount > u64::MAX - rec.receive {
                return Err(EscrowError::ArithmeticOverflow);
            }
            if ta.amount > u64::MAX - v.amount {
                return Err(EscrowError::ArithmeticOverflow);
            }
            if ledger.get_lamports(&a.maker) > u64::MAX - TOKEN_ACCOUNT_RENT - RECORD_RENT {
                return Err(EscrowError::ArithmeticOverflow);
            }
            Ok(())
        },
        _ => Err(EscrowError::AccountNotFound),
    }
}

/// Swaps: the taker pays `receive` tokens of `mint_b` to the maker and gets
/// the whole vault; the vault and the record are closed. Either all of it
/// happens or, with the error of the first failed check, none of it.
pub fn take(ledger: &mut Ledger, signer: &Signer, accounts: &Take) -> (r: Result<(), EscrowError>)
    requires
        old(ledger).well_formed(),
    ensures
        final(ledger).well_formed(),
        final(ledger).program() == old(ledger).program(),
        final(ledger).clock() == old(ledger).clock(),
        r == take_check(*old(ledger), *accounts, signer.key()),
        r is Ok ==> signer.key()@ == accounts.taker@ && on_curve(accounts.taker@),
        r is Ok ==> final(ledger).tokens() == take_tokens(*old(ledger), *accounts)
            && final(ledger).records() == old(ledger).records().remove(accounts.escrow@),
        r is Ok ==> final(ledger).lamports() == deposits_returned(*old(ledger), accounts.maker@),
        r is Err ==> final(ledger).tokens() == old(ledger).tokens() && final(ledger).records() == old(
            ledger,
        ).records() && final(ledger).lamports() == old(ledger).lamports(),
{
    if !signer.key_of().key_eq(&accounts.taker) || !is_on_curve(&accounts.taker) {
        return Err(EscrowError::MissingRequiredSignature);
    }
    match accounts.validate(ledger) {
        Ok(()) => {},
        Err(e) => return Err(e),
    }
    match check_amounts(ledger, accounts) {
        Ok(()) => {},
        Err(e) => return Err(e),
    }
    let ghost l0 = *ledger;
    match accounts.deposit(ledger, signer) {
        Ok(()) => {},
        Err(e) => return Err(e),
    }
    let ghost l1 = *ledger;
    proof {
        assert(l1.records() == l0.records());
        assert(l1.tokens()[accounts.vault@] == l0.tokens()[accounts.vault@]);
    }
    match accounts.withdraw_and_close_vault(ledger) {
        Ok(()) => {},
        Err(e) => return Err(e),
    }
    ledger.close_record(&accounts.escrow, &accounts.maker);
    proof {
        assert(ledger.tokens() =~= take_tokens(l0, *accounts));
    }
    Ok(())
}

} // verus!
