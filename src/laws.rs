use crate::address::{
    created_program_address, escrow_seeds_spec, escrow_signer_seeds_spec, found_program_address, on_curve,
};
use crate::address::Pubkey;
use crate::error::{ErrorCode, EscrowError};
use crate::ledger::{balance, Ledger};
use crate::make::{made_lamports, made_record, made_tokens, make_check, Make};
use crate::refund::{refund_check, refund_tokens, Refund};
use crate::take::{deposits_returned, take_accounts_distinct, take_check, take_tokens, validate_check, Take, FIVE_DAYS};
use vstd::prelude::*;

verus! {

/// `l1` is the ledger that a successful `make` on `l0` leaves.
pub open spec fn made_from(l0: Ledger, l1: Ledger, a: Make, s: Pubkey, seed: u64, deposit: u64, receive: u64) -> bool {
    &&& make_check(l0, a, s, seed, deposit) is Ok
    &&& !on_curve(a.escrow@)
    &&& l1.program() == l0.program()
    &&& l1.tokens() == made_tokens(l0, a, deposit)
    &&& l1.lamports() == made_lamports(l0, a)
    &&& l1.records() == l0.records().insert(a.escrow@, made_record(l0, a, seed, receive))
    &&& created_program_address(
        escrow_signer_seeds_spec(a.maker@, seed, made_record(l0, a, seed, receive).bump),
        l0.program()@,
    ) == Some(a.escrow@)
}

/// Opening an escrow locks exactly the deposit in a vault of the first mint
/// owned by the escrow address, which is the address derived from the maker
/// and the seed; the record holds the inputs and the time of opening.
pub proof fn open_locks_deposit(l: Ledger, a: Make, s: Pubkey, seed: u64, deposit: u64, receive: u64)
    requires
        make_check(l, a, s, seed, deposit) is Ok,
    ensures
        s@ == a.maker@ && on_curve(a.maker@),
        made_tokens(l, a, deposit).contains_key(a.vault@),
        made_tokens(l, a, deposit)[a.vault@].amount == deposit,
        made_tokens(l, a, deposit)[a.vault@].owner == a.escrow,
        made_tokens(l, a, deposit)[a.vault@].mint == a.mint_a,
        made_tokens(l, a, deposit)[a.maker_ata_a@].amount == l.tokens()[a.maker_ata_a@].amount - deposit,
        found_program_address(escrow_seeds_spec(a.maker@, seed), l.program()@) == Some(
            (a.escrow@, made_record(l, a, seed, receive).bump),
        ),
        made_record(l, a, seed, receive).seed == seed,
        made_record(l, a, seed, receive).maker == a.maker,
        made_record(l, a, seed, receive).mint_a == a.mint_a,
        made_record(l, a, seed, receive).mint_b == a.mint_b,
        made_record(l, a, seed, receive).receive == receive,
        made_record(l, a, seed, receive).created_at == l.clock(),
{
}

/// The accounts of a swap pass every check that comes before the clock's:
/// they are distinct and exist, and the record belongs to them.
pub open spec fn take_accounts_ready(l: Ledger, a: Take) -> bool {
    let t = l.tokens();
    &&& take_accounts_distinct(a)
    &&& l.records().contains_key(a.escrow@)
    &&& l.records()[a.escrow@].maker@ == a.maker@
    &&& l.records()[a.escrow@].mint_a@ == a.mint_a@
    &&& l.records()[a.escrow@].mint_b@ == a.mint_b@
    &&& created_program_address(
        escrow_signer_seeds_spec(a.maker@, l.records()[a.escrow@].seed, l.records()[a.escrow@].bump),
        l.program()@,
    ) == Some(a.escrow@)
    &&& t.contains_key(a.taker_ata_a@)
    &&& t.contains_key(a.taker_ata_b@)
    &&& t.contains_key(a.maker_ata_b@)
    &&& t.contains_key(a.vault@)
}

/// Each holding of a swap has the owner and the mint it should have.
pub open spec fn take_holdings_correct(l: Ledger, a: Take) -> bool {
    let t = l.tokens();
    &&& t[a.taker_ata_a@].owner@ == a.taker@ && t[a.taker_ata_a@].mint@ == a.mint_a@
    &&& t[a.taker_ata_b@].owner@ == a.taker@ && t[a.taker_ata_b@].mint@ == a.mint_b@
    &&& t[a.maker_ata_b@].owner@ == a.maker@ && t[a.maker_ata_b@].mint@ == a.mint_b@
    &&& t[a.vault@].owner@ == a.escrow@ && t[a.vault@].mint@ == a.mint_a@
}

/// A swap before the waiting period has ended fails, whatever the accounts
/// and whoever signs; with accounts that are otherwise right, `validate`
/// fails with `TooEarlyToTake`. A failed swap changes nothing (see `take`).
pub proof fn take_too_early_fails(l: Ledger, a: Take, s: Pubkey)
    requires
        l.records().contains_key(a.escrow@),
        (l.clock() as int) < l.records()[a.escrow@].created_at as int + FIVE_DAYS as int,
    ensures
        validate_check(l, a) is Err,
        take_check(l, a, s) is Err,
        take_accounts_ready(l, a) && take_holdings_correct(l, a) ==> validate_check(l, a) == Err::<
            (),
            EscrowError,
        >(EscrowError::Program(ErrorCode::TooEarlyToTake)),
{
}

/// A swap with a holding of the wrong owner or mint fails, also once the
/// waiting period has ended; with accounts that are otherwise right,
/// `validate` fails with `ConstraintTokenOwner` or `ConstraintTokenMint`.
pub proof fn take_wrong_holding_fails(l: Ledger, a: Take, s: Pubkey)
    requires
        take_accounts_ready(l, a),
        !take_holdings_correct(l, a),
    ensures
        take_check(l, a, s) is Err,
        validate_check(l, a) == Err::<(), EscrowError>(EscrowError::Program(ErrorCode::ConstraintTokenOwner))
            || validate_check(l, a) == Err::<(), EscrowError>(
            EscrowError::Program(ErrorCode::ConstraintTokenMint),
        ),
{
}

/// `validate` succeeds exactly when the accounts are in order, every holding
/// has the right owner and mint, and the waiting period is over (the guard
/// is inclusive). Its result does not depend on any token amount, and with
/// the accounts in order it fails only with one of the protocol's errors.
pub proof fn validate_exact(l: Ledger, a: Take)
    ensures
        validate_check(l, a) is Ok <==> take_accounts_ready(l, a) && take_holdings_correct(l, a) && l.clock()
            as int >= l.records()[a.escrow@].created_at as int + FIVE_DAYS as int,
        take_accounts_ready(l, a) ==> (validate_check(l, a) is Ok || validate_check(l, a) matches Err(
            EscrowError::Program(_),
        )),
{
}

/// Two ledgers that differ only in token amounts give `validate` the same
/// answer.
pub proof fn validate_ignores_amounts(l1: Ledger, l2: Ledger, a: Take)
    requires
        l1.program() == l2.program(),
        l1.clock() == l2.clock(),
        l1.records() == l2.records(),
        l1.tokens().dom() == l2.tokens().dom(),
        forall|k: Seq<u8>|
            #[trigger] l1.tokens().contains_key(k) ==> l1.tokens()[k].owner == l2.tokens()[k].owner
                && l1.tokens()[k].mint == l2.tokens()[k].mint,
    ensures
        validate_check(l1, a) == validate_check(l2, a),
{
}

/// Opening an escrow touches no other escrow: every other record and every
/// token account owned by another escrow address (never a key holder's) stay
/// as they were.
pub proof fn make_leaves_other_escrows(
    l: Ledger,
    a: Make,
    s: Pubkey,
    seed: u64,
    deposit: u64,
    receive: u64,
    other: Seq<u8>,
    other_vault: Seq<u8>,
)
    requires
        make_check(l, a, s, seed, deposit) is Ok,
        l.records().contains_key(other),
        l.tokens().contains_key(other_vault),
        l.tokens()[other_vault].owner@ == other,
        !on_curve(other),
    ensures
        made_tokens(l, a, deposit)[other_vault] == l.tokens()[other_vault],
        l.records().insert(a.escrow@, made_record(l, a, seed, receive))[other] == l.records()[other],
{
}

/// A swap on an escrow opened with `deposit` and `receive`, once the waiting
/// period has ended and with every holding right, succeeds when the taker
/// can pay and no balance overflows; then the taker gains exactly the
/// deposit, the maker gains exactly `receive`, the taker pays exactly
/// `receive`, the vault and the record are gone, and the maker has back the
/// native balance it had before opening.
pub proof fn take_after_open_swaps(
    l0: Ledger,
    l1: Ledger,
    m: Make,
    ms: Pubkey,
    a: Take,
    s: Pubkey,
    seed: u64,
    deposit: u64,
    receive: u64,
)
    requires
        made_from(l0, l1, m, ms, seed, deposit, receive),
        s@ == a.taker@,
        on_curve(a.taker@),
        a.maker == m.maker,
        a.mint_a == m.mint_a,
        a.mint_b == m.mint_b,
        a.escrow == m.escrow,
        a.vault == m.vault,
        take_accounts_distinct(a),
        l1.tokens().contains_key(a.taker_ata_a@),
        l1.tokens().contains_key(a.taker_ata_b@),
        l1.tokens().contains_key(a.maker_ata_b@),
        take_holdings_correct(l1, a),
        l1.clock() as int >= l0.clock() as int + FIVE_DAYS as int,
        l1.tokens()[a.taker_ata_b@].amount >= receive,
        l1.tokens()[a.maker_ata_b@].amount + receive <= u64::MAX,
        l1.tokens()[a.taker_ata_a@].amount + deposit <= u64::MAX,
    ensures
        take_check(l1, a, s) is Ok,
        take_tokens(l1, a)[a.taker_ata_a@].amount == l1.tokens()[a.taker_ata_a@].amount + deposit,
        take_tokens(l1, a)[a.maker_ata_b@].amount == l1.tokens()[a.maker_ata_b@].amount + receive,
        take_tokens(l1, a)[a.taker_ata_b@].amount == l1.tokens()[a.taker_ata_b@].amount - receive,
        !take_tokens(l1, a).contains_key(a.vault@),
        !l1.records().remove(a.escrow@).contains_key(a.escrow@),
        deposits_returned(l1, a.maker@)[a.maker@] == balance(l0.lamports(), a.maker@),
{
    assert(l1.records()[a.escrow@] == made_record(l0, m, seed, receive));
    assert(l1.tokens()[a.vault@].amount == deposit);
}

/// Whether a refund goes through, and what it does, does not depend on the
/// clock.
pub proof fn refund_any_time(l1: Ledger, l2: Ledger, a: Refund, s: Pubkey)
    requires
        l1.program() == l2.program(),
        l1.tokens() == l2.tokens(),
        l1.records() == l2.records(),
        l1.lamports() == l2.lamports(),
    ensures
        refund_check(l1, a, s) == refund_check(l2, a, s),
        refund_tokens(l1, a) == refund_tokens(l2, a),
{
}

/// A refund right after opening succeeds and gives the maker back exactly
/// the token and native balances it had before; the vault and the record
/// are gone.
pub proof fn refund_after_open_restores(
    l0: Ledger,
    l1: Ledger,
    m: Make,
    s: Pubkey,
    a: Refund,
    seed: u64,
    deposit: u64,
    receive: u64,
)
    requires
        made_from(l0, l1, m, s, seed, deposit, receive),
        a.maker == m.maker,
        a.mint_a == m.mint_a,
        a.maker_ata_a == m.maker_ata_a,
        a.escrow == m.escrow,
        a.vault == m.vault,
    ensures
        refund_check(l1, a, s) is Ok,
        refund_tokens(l1, a)[a.maker_ata_a@].amount == l0.tokens()[a.maker_ata_a@].amount,
        !refund_tokens(l1, a).contains_key(a.vault@),
        !l1.records().remove(a.escrow@).contains_key(a.escrow@),
        deposits_returned(l1, a.maker@)[a.maker@] == balance(l0.lamports(), a.maker@),
{
    assert(l1.records()[a.escrow@] == made_record(l0, m, seed, receive));
}

/// Once a swap has closed the escrow, a refund of it fails.
pub proof fn refund_after_take_fails(l1: Ledger, l2: Ledger, t: Take, ts: Pubkey, a: Refund, s: Pubkey)
    requires
        take_check(l1, t, ts) is Ok,
        l2.records() == l1.records().remove(t.escrow@),
        a.escrow == t.escrow,
    ensures
        refund_check(l2, a, s) is Err,
{
}

/// Once a refund has closed the escrow, a swap of it fails.
pub proof fn take_after_refund_fails(l1: Ledger, l2: Ledger, a: Refund, s: Pubkey, t: Take, ts: Pubkey)
    requires
        refund_check(l1, a, s) is Ok,
        l2.records() == l1.records().remove(a.escrow@),
        t.escrow == a.escrow,
    ensures
        take_check(l2, t, ts) is Err,
{
}

} // verus!
