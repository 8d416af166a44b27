use crate::address::{
    created_program_address, escrow_signer, escrow_signer_seeds_spec, is_on_curve, on_curve, Pubkey,
};
use crate::error::EscrowError;
use crate::state::Escrow;
use crate::table::{
    find_key, lemma_view_at, lemma_view_push, lemma_view_remove, lemma_view_update, lookup,
    table_view, unique_keys,
};
use vstd::prelude::*;

verus! {

/// A holding of tokens of one mint.
#[derive(Clone, Copy, Debug)]
pub struct TokenAccount {
    pub mint: Pubkey,
    pub owner: Pubkey,
    pub amount: u64,
}

/// Who signs an operation: the holder of a key, or the escrow program
/// presenting the seeds of one of its escrow addresses.
#[derive(Clone, Copy, Debug)]
pub struct Signer {
    key: Pubkey,
}

impl Signer {
    /// The address that signed.
    pub closed spec fn key(&self) -> Pubkey {
        self.key
    }

    /// The signature of a key holder. Only an address on the curve has a
    /// private key: a program address is refused.
    pub fn new(key: &Pubkey) -> (r: Option<Signer>)
        ensures
            match r {
                Some(s) => s.key() == *key && on_curve(key@),
                None => !on_curve(key@),
            },
    {
        if is_on_curve(key) {
            Some(Signer { key: *key })
        } else {
            None
        }
    }

    /// The escrow program's signature for the escrow address that the seeds
    /// of `maker` and `seed` with `bump` stand for. Only this crate makes one.
    pub(crate) fn for_escrow(maker: &Pubkey, seed: u64, bump: u8, program_id: &Pubkey) -> (r: Option<Signer>)
        ensures
            match r {
                Some(s) => created_program_address(escrow_signer_seeds_spec(maker@, seed, bump), program_id@)
                    == Some(s.key()@),
                None => created_program_address(escrow_signer_seeds_spec(maker@, seed, bump), program_id@) is None,
            },
    {
        match escrow_signer(maker, seed, bump, program_id) {
            Some(a) => Some(Signer { key: a }),
            None => None,
        }
    }

    pub fn key_of(&self) -> (r: Pubkey)
        ensures
            r == self.key(),
    {
        self.key
    }
}

/// The accounts that the escrow program touches: token accounts and escrow
/// records, each at its own address, and the ledger's clock.
pub struct Ledger {
    /// The address of the escrow program, under which escrow addresses derive.
    program_id: Pubkey,
    /// The current ledger time, in seconds.
    now: i64,
    token_accounts: Vec<(Pubkey, TokenAccount)>,
    escrows: Vec<(Pubkey, Escrow)>,
    wallets: Vec<(Pubkey, u64)>,
}

/// The storage deposit that a token account holds (165 bytes of data).
pub const TOKEN_ACCOUNT_RENT: u64 = 2039280;

/// The storage deposit that an escrow record holds (129 bytes of data).
pub const RECORD_RENT: u64 = 1788720;

/// The native balance at `k`; an address never credited holds nothing.
pub open spec fn balance(m: Map<Seq<u8>, u64>, k: Seq<u8>) -> int {
    if m.contains_key(k) {
        m[k] as int
    } else {
        0
    }
}

/// The native balances after `x` more are credited to `k`.
pub open spec fn credited(m: Map<Seq<u8>, u64>, k: Seq<u8>, x: int) -> Map<Seq<u8>, u64> {
    m.insert(k, (balance(m, k) + x) as u64)
}

pub open spec fn with_amount(a: TokenAccount, amount: int) -> TokenAccount {
    TokenAccount { amount: amount as u64, ..a }
}

/// What a token transfer does to the token accounts: the checks in the order
/// that the token program makes them, then the move.
pub open spec fn transfer_spec(
    m: Map<Seq<u8>, TokenAccount>,
    from: Seq<u8>,
    to: Seq<u8>,
    amount: u64,
    authority: Seq<u8>,
) -> Result<Map<Seq<u8>, TokenAccount>, EscrowError> {
    if !m.contains_key(from) || !m.contains_key(to) {
        Err(EscrowError::AccountNotFound)
    } else if m[from].amount < amount {
        Err(EscrowError::InsufficientFunds)
    } else if m[from].mint@ != m[to].mint@ {
        Err(EscrowError::MintMismatch)
    } else if m[from].owner@ != authority {
        Err(EscrowError::OwnerMismatch)
    } else if from == to {
        Ok(m)
    } else if m[to].amount + amount > u64::MAX {
        Err(EscrowError::ArithmeticOverflow)
    } else {
        Ok(
            m.insert(from, with_amount(m[from], m[from].amount - amount)).insert(
                to,
                with_amount(m[to], m[to].amount + amount),
            ),
        )
    }
}

/// What closing a token account does to the token accounts and the native
/// balances: its storage deposit goes to `destination`.
pub open spec fn close_spec(
    m: Map<Seq<u8>, TokenAccount>,
    lamports: Map<Seq<u8>, u64>,
    account: Seq<u8>,
    destination: Seq<u8>,
    authority: Seq<u8>,
) -> Result<(Map<Seq<u8>, TokenAccount>, Map<Seq<u8>, u64>), EscrowError> {
    if !m.contains_key(account) {
        Err(EscrowError::AccountNotFound)
    } else if m[account].amount != 0 {
        Err(EscrowError::NonNativeHasBalance)
    } else if m[account].owner@ != authority {
        Err(EscrowError::OwnerMismatch)
    } else if balance(lamports, destination) + TOKEN_ACCOUNT_RENT > u64::MAX {
        Err(EscrowError::ArithmeticOverflow)
    } else {
        Ok((m.remove(account), credited(lamports, destination, TOKEN_ACCOUNT_RENT as int)))
    }
}

impl Ledger {
    /// Addresses are unique in each table.
    pub closed spec fn well_formed(&self) -> bool {
        unique_keys(self.token_accounts@) && unique_keys(self.escrows@) && unique_keys(self.wallets@)
    }

    /// The address of the escrow program.
    pub closed spec fn program(&self) -> Pubkey {
        self.program_id
    }

    /// The ledger's current time.
    pub closed spec fn clock(&self) -> i64 {
        self.now
    }

    pub fn program_id(&self) -> (r: Pubkey)
        ensures
            r == self.program(),
    {
        self.program_id
    }

    pub fn now(&self) -> (r: i64)
        ensures
            r == self.clock(),
    {
        self.now
    }

    /// The token accounts, by address.
    pub closed spec fn tokens(&self) -> Map<Seq<u8>, TokenAccount> {
        table_view(self.token_accounts@)
    }

    /// The escrow records, by address.
    pub closed spec fn records(&self) -> Map<Seq<u8>, Escrow> {
        table_view(self.escrows@)
    }

    /// The native balances, by address.
    pub closed spec fn lamports(&self) -> Map<Seq<u8>, u64> {
        table_view(self.wallets@)
    }

    /// An empty ledger for the program `program_id` at time `now`.
    pub fn new(program_id: Pubkey, now: i64) -> (r: Ledger)
        ensures
            r.well_formed(),
            r.program() == program_id,
            r.clock() == now,
            r.tokens() == Map::<Seq<u8>, TokenAccount>::empty(),
            r.records() == Map::<Seq<u8>, Escrow>::empty(),
            r.lamports() == Map::<Seq<u8>, u64>::empty(),
    {
        let r = Ledger { program_id, now, token_accounts: Vec::new(), escrows: Vec::new(), wallets: Vec::new() };
        proof {
            assert(r.lamports() =~= Map::<Seq<u8>, u64>::empty());
            assert(r.tokens() =~= Map::<Seq<u8>, TokenAccount>::empty());
            assert(r.records() =~= Map::<Seq<u8>, Escrow>::empty());
        }
        r
    }

    /// Moves the clock to `now`.
    pub fn set_time(&mut self, now: i64)
        ensures
            final(self).clock() == now,
            final(self).program() == old(self).program(),
            final(self).tokens() == old(self).tokens(),
            final(self).records() == old(self).records(),
            final(self).lamports() == old(self).lamports(),
            final(self).well_formed() == old(self).well_formed(),
    {
        self.now = now;
    }

    pub fn get_token_account(&self, address: &Pubkey) -> (r: Option<TokenAccount>)
        requires
            self.well_formed(),
        ensures
            r == lookup(self.tokens(), address@),
    {
        match find_key(&self.token_accounts, address) {
            Some(i) => {
                proof {
                    lemma_view_at(self.token_accounts@, i as int);
                }
                Some(self.token_accounts[i].1)
            },
            None => None,
        }
    }

    pub fn get_escrow(&self, address: &Pubkey) -> (r: Option<Escrow>)
        requires
            self.well_formed(),
        ensures
            r == lookup(self.records(), address@),
    {
        match find_key(&self.escrows, address) {
            Some(i) => {
                proof {
                    lemma_view_at(self.escrows@, i as int);
                }
                Some(self.escrows[i].1)
            },
            None => None,
        }
    }

    /// Creates an empty token account of `mint` owned by `owner` at `address`.
    pub fn create_token_account(&mut self, address: &Pubkey, mint: &Pubkey, owner: &Pubkey) -> (r: Result<(), EscrowError>)
        requires
            old(self).well_formed(),
        ensures
            final(self).well_formed(),
            final(self).program() == old(self).program(),
            final(self).clock() == old(self).clock(),
            final(self).lamports() == old(self).lamports(),
            final(self).records() == old(self).records(),
            r is Ok <==> !old(self).tokens().contains_key(address@),
            r is Ok ==> final(self).tokens() == old(self).tokens().insert(
                address@,
                TokenAccount { mint: *mint, owner: *owner, amount: 0 },
            ),
            r is Err ==> r == Err::<(), EscrowError>(EscrowError::AccountAlreadyInUse) && final(self).tokens()
                == old(self).tokens(),
    {
        match find_key(&self.token_accounts, address) {
            Some(i) => {
                proof {
                    lemma_view_at(self.token_accounts@, i as int);
                }
                Err(EscrowError::AccountAlreadyInUse)
            },
            None => {
                self.insert_token_account(address, TokenAccount { mint: *mint, owner: *owner, amount: 0 });
                Ok(())
            },
        }
    }

    fn insert_token_account(&mut self, address: &Pubkey, account: TokenAccount)
        requires
            old(self).well_formed(),
            !old(self).tokens().contains_key(address@),
        ensures
            final(self).well_formed(),
            final(self).program() == old(self).program(),
            final(self).clock() == old(self).clock(),
            final(self).lamports() == old(self).lamports(),
            final(self).records() == old(self).records(),
            final(self).tokens() == old(self).tokens().insert(address@, account),
    {
        proof {
            lemma_view_push(self.token_accounts@, *address, account);
        }
        self.token_accounts.push((*address, account));
    }

    /// Sets the entry at an existing address.
    fn update_token_account(&mut self, address: &Pubkey, account: TokenAccount)
        requires
            old(self).well_formed(),
            old(self).tokens().contains_key(address@),
        ensures
            final(self).well_formed(),
            final(self).program() == old(self).program(),
            final(self).clock() == old(self).clock(),
            final(self).lamports() == old(self).lamports(),
            final(self).records() == old(self).records(),
            final(self).tokens() == old(self).tokens().insert(address@, account),
    {
        match find_key(&self.token_accounts, address) {
            Some(i) => {
                let k = self.token_accounts[i].0;
                proof {
                    lemma_view_update(self.token_accounts@, i as int, account);
                }
                self.token_accounts.set(i, (k, account));
            },
            None => {},
        }
    }

    fn remove_token_account(&mut self, address: &Pubkey)
        requires
            old(self).well_formed(),
        ensures
            final(self).well_formed(),
            final(self).program() == old(self).program(),
            final(self).clock() == old(self).clock(),
            final(self).lamports() == old(self).lamports(),
            final(self).records() == old(self).records(),
            final(self).tokens() == old(self).tokens().remove(address@),
    {
        match find_key(&self.token_accounts, address) {
            Some(i) => {
                proof {
                    lemma_view_remove(self.token_accounts@, i as int);
                }
                self.token_accounts.remove(i);
            },
            None => {
                proof {
                    assert(old(self).tokens().remove(address@) =~= old(self).tokens());
                }
            },
        }
    }

    pub(crate) fn insert_escrow(&mut self, address: &Pubkey, record: Escrow)
        requires
            old(self).well_formed(),
            !old(self).records().contains_key(address@),
        ensures
            final(self).well_formed(),
            final(self).program() == old(self).program(),
            final(self).clock() == old(self).clock(),
            final(self).lamports() == old(self).lamports(),
            final(self).tokens() == old(self).tokens(),
            final(self).records() == old(self).records().insert(address@, record),
    {
        proof {
            lemma_view_push(self.escrows@, *address, record);
        }
        self.escrows.push((*address, record));
    }

    pub(crate) fn remove_escrow(&mut self, address: &Pubkey)
        requires
            old(self).well_formed(),
        ensures
            final(self).well_formed(),
            final(self).program() == old(self).program(),
            final(self).clock() == old(self).clock(),
            final(self).lamports() == old(self).lamports(),
            final(self).tokens() == old(self).tokens(),
            final(self).records() == old(self).records().remove(address@),
    {
        match find_key(&self.escrows, address) {
            Some(i) => {
                proof {
                    lemma_view_remove(self.escrows@, i as int);
                }
                self.escrows.remove(i);
            },
            None => {
                proof {
                    assert(old(self).records().remove(address@) =~= old(self).records());
                }
            },
        }
    }

    /// The native balance at `address`.
    pub fn get_lamports(&self, address: &Pubkey) -> (r: u64)
        requires
            self.well_formed(),
        ensures
            r as int == balance(self.lamports(), address@),
    {
        match find_key(&self.wallets, address) {
            Some(i) => {
                proof {
                    lemma_view_at(self.wallets@, i as int);
                }
                self.wallets[i].1
            },
            None => 0,
        }
    }

    fn set_lamports(&mut self, address: &Pubkey, value: u64)
        requires
            old(self).well_formed(),
        ensures
            final(self).well_formed(),
            final(self).program() == old(self).program(),
            final(self).clock() == old(self).clock(),
            final(self).tokens() == old(self).tokens(),
            final(self).records() == old(self).records(),
            final(self).lamports() == old(self).lamports().insert(address@, value),
    {
        match find_key(&self.wallets, address) {
            Some(i) => {
                let k = self.wallets[i].0;
                proof {
                    lemma_view_update(self.wallets@, i as int, value);
                }
                self.wallets.set(i, (k, value));
            },
            None => {
                proof {
                    lemma_view_push(self.wallets@, *address, value);
                }
                self.wallets.push((*address, value));
            },
        }
    }

    /// Credits `amount` native units to `address`.
    pub fn airdrop(&mut self, address: &Pubkey, amount: u64) -> (r: Result<(), EscrowError>)
        requires
            old(self).well_formed(),
        ensures
            final(self).well_formed(),
            final(self).program() == old(self).program(),
            final(self).clock() == old(self).clock(),
            final(self).tokens() == old(self).tokens(),
            final(self).records() == old(self).records(),
            r is Ok <==> balance(old(self).lamports(), address@) + amount <= u64::MAX,
            r is Ok ==> final(self).lamports() == credited(old(self).lamports(), address@, amount as int),
            r is Err ==> r == Err::<(), EscrowError>(EscrowError::ArithmeticOverflow) && final(self).lamports()
                == old(self).lamports(),
    {
        let bal = self.get_lamports(address);
        if bal > u64::MAX - amount {
            return Err(EscrowError::ArithmeticOverflow);
        }
        self.set_lamports(address, bal + amount);
        Ok(())
    }

    /// Takes `amount` native units from `address`, which holds at least that.
    pub(crate) fn debit_lamports(&mut self, address: &Pubkey, amount: u64)
        requires
            old(self).well_formed(),
            balance(old(self).lamports(), address@) >= amount,
        ensures
            final(self).well_formed(),
            final(self).program() == old(self).program(),
            final(self).clock() == old(self).clock(),
            final(self).tokens() == old(self).tokens(),
            final(self).records() == old(self).records(),
            final(self).lamports() == credited(old(self).lamports(), address@, -(amount as int)),
    {
        let bal = self.get_lamports(address);
        self.set_lamports(address, bal - amount);
    }

    /// Closes the record at `address`; its storage deposit goes to `destination`.
    pub(crate) fn close_record(&mut self, address: &Pubkey, destination: &Pubkey)
        requires
            old(self).well_formed(),
            balance(old(self).lamports(), destination@) + RECORD_RENT <= u64::MAX,
        ensures
            final(self).well_formed(),
            final(self).program() == old(self).program(),
            final(self).clock() == old(self).clock(),
            final(self).tokens() == old(self).tokens(),
            final(self).records() == old(self).records().remove(address@),
            final(self).lamports() == credited(old(self).lamports(), destination@, RECORD_RENT as int),
    {
        self.remove_escrow(address);
        let bal = self.get_lamports(destination);
        self.set_lamports(destination, bal + RECORD_RENT);
    }

    /// Adds `amount` new tokens to the account at `address`.
    pub fn mint_to(&mut self, address: &Pubkey, amount: u64) -> (r: Result<(), EscrowError>)
        requires
            old(self).well_formed(),
        ensures
            final(self).well_formed(),
            final(self).program() == old(self).program(),
            final(self).clock() == old(self).clock(),
            final(self).lamports() == old(self).lamports(),
            final(self).records() == old(self).records(),
            !old(self).tokens().contains_key(address@) ==> r == Err::<(), EscrowError>(EscrowError::AccountNotFound),
            old(self).tokens().contains_key(address@) && old(self).tokens()[address@].amount + amount > u64::MAX
                ==> r == Err::<(), EscrowError>(EscrowError::ArithmeticOverflow),
            r is Ok <==> old(self).tokens().contains_key(address@) && old(self).tokens()[address@].amount + amount
                <= u64::MAX,
            r is Ok ==> final(self).tokens() == old(self).tokens().insert(
                address@,
                with_amount(old(self).tokens()[address@], old(self).tokens()[address@].amount + amount),
            ),
            r is Err ==> final(self).tokens() == old(self).tokens(),
    {
        match self.get_token_account(address) {
            None => Err(EscrowError::AccountNotFound),
            Some(a) => {
                if a.amount > u64::MAX - amount {
                    Err(EscrowError::ArithmeticOverflow)
                } else {
                    self.update_token_account(address, TokenAccount { amount: a.amount + amount, ..a });
                    Ok(())
                }
            },
        }
    }

    /// Moves `amount` tokens from `from` to `to`, signed for by `authority`.
    pub fn transfer(&mut self, from: &Pubkey, to: &Pubkey, amount: u64, authority: &Signer) -> (r: Result<(), EscrowError>)
        requires
            old(self).well_formed(),
        ensures
            final(self).well_formed(),
            final(self).program() == old(self).program(),
            final(self).clock() == old(self).clock(),
            final(self).lamports() == old(self).lamports(),
            final(self).records() == old(self).records(),
            match transfer_spec(old(self).tokens(), from@, to@, amount, authority.key()@) {
                Ok(m) => r is Ok && final(self).tokens() == m,
                Err(e) => r == Err::<(), EscrowError>(e) && final(self).tokens() == old(self).tokens(),
            },
    {
        let src = self.get_token_account(from);
        let dst = self.get_token_account(to);
        match (src, dst) {
            (Some(s), Some(d)) => {
                if s.amount < amount {
                    return Err(EscrowError::InsufficientFunds);
                }
                if !s.mint.key_eq(&d.mint) {
                    return Err(EscrowError::MintMismatch);
                }
                if !s.owner.key_eq(&authority.key) {
                    return Err(EscrowError::OwnerMismatch);
                }
                if from.key_eq(to) {
                    return Ok(());
                }
                if d.amount > u64::MAX - amount {
                    return Err(EscrowError::ArithmeticOverflow);
                }
                self.update_token_account(from, TokenAccount { amount: s.amount - amount, ..s });
                self.update_token_account(to, TokenAccount { amount: d.amount + amount, ..d });
                Ok(())
            },
            _ => Err(EscrowError::AccountNotFound),
        }
    }

    /// Closes the empty token account at `address`, signed for by `authority`;
    /// its storage deposit goes to `destination`.
    pub fn close_account(&mut self, address: &Pubkey, destination: &Pubkey, authority: &Signer) -> (r: Result<
        (),
        EscrowError,
    >)
        requires
            old(self).well_formed(),
        ensures
            final(self).well_formed(),
            final(self).program() == old(self).program(),
            final(self).clock() == old(self).clock(),
            final(self).records() == old(self).records(),
            match close_spec(old(self).tokens(), old(self).lamports(), address@, destination@, authority.key()@) {
                Ok((m, w)) => r is Ok && final(self).tokens() == m && final(self).lamports() == w,
                Err(e) => r == Err::<(), EscrowError>(e) && final(self).tokens() == old(self).tokens()
                    && final(self).lamports() == old(self).lamports(),
            },
    {
        match self.get_token_account(address) {
            None => Err(EscrowError::AccountNotFound),
            Some(a) => {
                if a.amount != 0 {
                    return Err(EscrowError::NonNativeHasBalance);
                }
                if !a.owner.key_eq(&authority.key) {
                    return Err(EscrowError::OwnerMismatch);
                }
                let bal = self.get_lamports(destination);
                if bal > u64::MAX - TOKEN_ACCOUNT_RENT {
                    return Err(EscrowError::ArithmeticOverflow);
                }
                self.remove_token_account(address);
                self.set_lamports(destination, bal + TOKEN_ACCOUNT_RENT);
                Ok(())
            },
        }
    }
}

} // verus!
