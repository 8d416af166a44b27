use anchor_escrow::ledger::{RECORD_RENT, TOKEN_ACCOUNT_RENT};
use anchor_escrow::{
    escrow_seeds, find_escrow_address, make, refund, seed_le_bytes, take, verify_escrow_address,
    ErrorCode, EscrowError, Ledger, Make, Pubkey, Refund, Signer, Take, TokenAccount, FIVE_DAYS,
};
use sha2::{Digest, Sha256};
use std::str::FromStr;

const START: i64 = 1_700_000_000;
const FUNDS: u64 = 10_000_000_000;

fn key(b: u8) -> Pubkey {
    Pubkey::new_from_array([b; 32])
}

/// An address on the curve, as a key holder's is.
fn holder(tag: u8) -> Pubkey {
    for i in 0..=255u8 {
        let mut bytes = [tag; 32];
        bytes[1] = i;
        if anchor_lang::prelude::Pubkey::new_from_array(bytes).is_on_curve() {
            return Pubkey::new_from_array(bytes);
        }
    }
    panic!("no key on the curve");
}

fn sign(k: &Pubkey) -> Signer {
    Signer::new(k).unwrap()
}

fn program_id() -> Pubkey {
    let id = anchor_lang::prelude::Pubkey::from_str("FircrADQ2wgGuvpm8qneNCfKM7o5zoHTWnDQxngpTQ3J").unwrap();
    Pubkey::new_from_array(id.to_bytes())
}

struct World {
    ledger: Ledger,
    maker: Pubkey,
    taker: Pubkey,
    mint_a: Pubkey,
    mint_b: Pubkey,
    maker_ata_a: Pubkey,
    maker_ata_b: Pubkey,
    taker_ata_a: Pubkey,
    taker_ata_b: Pubkey,
    escrow: Pubkey,
    vault: Pubkey,
}

fn setup() -> World {
    let mut ledger = Ledger::new(program_id(), START);
    let maker = holder(1);
    let taker = holder(2);
    let mint_a = key(3);
    let mint_b = key(4);
    let maker_ata_a = key(5);
    let maker_ata_b = key(6);
    let taker_ata_a = key(7);
    let taker_ata_b = key(8);
    let vault = key(9);
    ledger.create_token_account(&maker_ata_a, &mint_a, &maker).unwrap();
    ledger.create_token_account(&maker_ata_b, &mint_b, &maker).unwrap();
    ledger.create_token_account(&taker_ata_a, &mint_a, &taker).unwrap();
    ledger.create_token_account(&taker_ata_b, &mint_b, &taker).unwrap();
    ledger.airdrop(&maker, FUNDS).unwrap();
    ledger.mint_to(&maker_ata_a, 1000000000).unwrap();
    ledger.mint_to(&taker_ata_b, 1000000000).unwrap();
    let (escrow, _) = find_escrow_address(&maker, 123, &program_id()).unwrap();
    World { ledger, maker, taker, mint_a, mint_b, maker_ata_a, maker_ata_b, taker_ata_a, taker_ata_b, escrow, vault }
}

fn make_accounts(w: &World) -> Make {
    Make {
        maker: w.maker,
        mint_a: w.mint_a,
        mint_b: w.mint_b,
        maker_ata_a: w.maker_ata_a,
        escrow: w.escrow,
        vault: w.vault,
    }
}

fn take_accounts(w: &World) -> Take {
    Take {
        taker: w.taker,
        maker: w.maker,
        mint_a: w.mint_a,
        mint_b: w.mint_b,
        taker_ata_a: w.taker_ata_a,
        taker_ata_b: w.taker_ata_b,
        maker_ata_b: w.maker_ata_b,
        escrow: w.escrow,
        vault: w.vault,
    }
}

fn refund_accounts(w: &World) -> Refund {
    Refund { maker: w.maker, mint_a: w.mint_a, maker_ata_a: w.maker_ata_a, escrow: w.escrow, vault: w.vault }
}

fn do_make(w: &mut World, seed: u64, deposit: u64, receive: u64) -> Result<(), EscrowError> {
    let a = make_accounts(w);
    make(&mut w.ledger, &sign(&w.maker), &a, seed, deposit, receive)
}

fn do_take(w: &mut World) -> Result<(), EscrowError> {
    let a = take_accounts(w);
    take(&mut w.ledger, &sign(&w.taker), &a)
}

fn do_refund(w: &mut World) -> Result<(), EscrowError> {
    let a = refund_accounts(w);
    refund(&mut w.ledger, &sign(&w.maker), &a)
}

fn amount(l: &Ledger, k: &Pubkey) -> u64 {
    l.get_token_account(k).unwrap().amount
}

#[test]
fn test_make() {
    let mut w = setup();
    let accounts = make_accounts(&w);
    make(&mut w.ledger, &sign(&w.maker), &accounts, 123u64, 10, 10).unwrap();

    let vault_data = w.ledger.get_token_account(&w.vault).unwrap();
    assert_eq!(vault_data.amount, 10);
    assert_eq!(vault_data.owner.bytes, w.escrow.bytes);
    assert_eq!(vault_data.mint.bytes, w.mint_a.bytes);

    let escrow_data = w.ledger.get_escrow(&w.escrow).unwrap();
    assert_eq!(escrow_data.seed, 123u64);
    assert_eq!(escrow_data.maker.bytes, w.maker.bytes);
    assert_eq!(escrow_data.mint_a.bytes, w.mint_a.bytes);
    assert_eq!(escrow_data.mint_b.bytes, w.mint_b.bytes);
    assert_eq!(escrow_data.receive, 10);
    assert_eq!(w.ledger.get_lamports(&w.maker), FUNDS - TOKEN_ACCOUNT_RENT - RECORD_RENT);
}

#[test]
fn test_take() {
    let mut w = setup();
    let accounts = make_accounts(&w);
    make(&mut w.ledger, &sign(&w.maker), &accounts, 123u64, 10, 10).unwrap();

    let now = w.ledger.now();
    w.ledger.set_time(now + 5 * 24 * 60 * 60);

    do_take(&mut w).unwrap();

    let taker_ata_a_data = w.ledger.get_token_account(&w.taker_ata_a).unwrap();
    assert_eq!(taker_ata_a_data.amount, 10);
    assert_eq!(taker_ata_a_data.owner.bytes, w.taker.bytes);
    assert_eq!(taker_ata_a_data.mint.bytes, w.mint_a.bytes);

    let maker_ata_b_data = w.ledger.get_token_account(&w.maker_ata_b).unwrap();
    assert_eq!(maker_ata_b_data.amount, 10);
    assert_eq!(maker_ata_b_data.owner.bytes, w.maker.bytes);
    assert_eq!(maker_ata_b_data.mint.bytes, w.mint_b.bytes);

    assert_eq!(amount(&w.ledger, &w.taker_ata_b), 1000000000 - 10);

    assert!(w.ledger.get_token_account(&w.vault).is_none(), "Vault should be closed");
    assert!(w.ledger.get_escrow(&w.escrow).is_none(), "Escrow should be closed");
    assert_eq!(w.ledger.get_lamports(&w.maker), FUNDS);
}

#[test]
fn test_refund() {
    let mut w = setup();
    let accounts = make_accounts(&w);
    make(&mut w.ledger, &sign(&w.maker), &accounts, 123u64, 10, 10).unwrap();

    do_refund(&mut w).unwrap();

    let maker_ata_a_data = w.ledger.get_token_account(&w.maker_ata_a).unwrap();
    assert_eq!(maker_ata_a_data.amount, 1000000000);
    assert_eq!(maker_ata_a_data.owner.bytes, w.maker.bytes);
    assert_eq!(maker_ata_a_data.mint.bytes, w.mint_a.bytes);

    assert!(w.ledger.get_token_account(&w.vault).is_none(), "Vault should be closed");
    assert!(w.ledger.get_escrow(&w.escrow).is_none(), "Escrow should be closed");
    assert_eq!(w.ledger.get_lamports(&w.maker), FUNDS);
}

#[test]
fn take_immediately_is_too_early_then_succeeds_after_five_days() {
    let mut w = setup();
    do_make(&mut w, 123, 10, 10).unwrap();
    let r = do_take(&mut w);
    assert_eq!(r, Err(EscrowError::Program(ErrorCode::TooEarlyToTake)));
    assert_eq!(amount(&w.ledger, &w.vault), 10);
    assert_eq!(amount(&w.ledger, &w.taker_ata_a), 0);
    assert_eq!(amount(&w.ledger, &w.taker_ata_b), 1000000000);
    assert!(w.ledger.get_escrow(&w.escrow).is_some());

    w.ledger.set_time(START + FIVE_DAYS - 1);
    let r = do_take(&mut w);
    assert_eq!(r, Err(EscrowError::Program(ErrorCode::TooEarlyToTake)));

    w.ledger.set_time(START + FIVE_DAYS);
    do_take(&mut w).unwrap();
    assert_eq!(amount(&w.ledger, &w.taker_ata_a), 10);
    assert_eq!(amount(&w.ledger, &w.maker_ata_b), 10);
    assert!(w.ledger.get_token_account(&w.vault).is_none());
    assert!(w.ledger.get_escrow(&w.escrow).is_none());
}

#[test]
fn take_with_wrong_mint_or_owner_fails_after_guard() {
    let mut w = setup();
    do_make(&mut w, 123, 10, 10).unwrap();
    w.ledger.set_time(START + FIVE_DAYS + 100);

    // A holding of the taker in the wrong mint.
    let wrong_mint = key(20);
    w.ledger.create_token_account(&wrong_mint, &w.mint_b, &w.taker).unwrap();
    let mut a = take_accounts(&w);
    a.taker_ata_a = wrong_mint;
    assert_eq!(take(&mut w.ledger, &sign(&w.taker), &a), Err(EscrowError::Program(ErrorCode::ConstraintTokenMint)));

    // A holding of mint B that the maker owns, named as the taker's.
    let mut a = take_accounts(&w);
    a.taker_ata_b = key(21);
    w.ledger.create_token_account(&a.taker_ata_b, &w.mint_b, &w.maker).unwrap();
    assert_eq!(take(&mut w.ledger, &sign(&w.taker), &a), Err(EscrowError::Program(ErrorCode::ConstraintTokenOwner)));

    // The maker's holding of mint B owned by someone else.
    let mut a = take_accounts(&w);
    a.maker_ata_b = key(22);
    w.ledger.create_token_account(&a.maker_ata_b, &w.mint_b, &key(30)).unwrap();
    assert_eq!(take(&mut w.ledger, &sign(&w.taker), &a), Err(EscrowError::Program(ErrorCode::ConstraintTokenOwner)));

    // Nothing moved.
    assert_eq!(amount(&w.ledger, &w.vault), 10);
    assert_eq!(amount(&w.ledger, &w.taker_ata_b), 1000000000);
    assert!(w.ledger.get_escrow(&w.escrow).is_some());
}

#[test]
fn take_with_vault_of_other_owner_fails() {
    let mut w = setup();
    do_make(&mut w, 123, 10, 10).unwrap();
    w.ledger.set_time(START + FIVE_DAYS);
    let fake_vault = key(23);
    w.ledger.create_token_account(&fake_vault, &w.mint_a, &w.maker).unwrap();
    let mut a = take_accounts(&w);
    a.vault = fake_vault;
    assert_eq!(take(&mut w.ledger, &sign(&w.taker), &a), Err(EscrowError::Program(ErrorCode::ConstraintTokenOwner)));
}

#[test]
fn refund_after_take_and_take_after_refund_fail() {
    let mut w = setup();
    do_make(&mut w, 123, 10, 10).unwrap();
    w.ledger.set_time(START + FIVE_DAYS);
    do_take(&mut w).unwrap();
    assert_eq!(do_refund(&mut w), Err(EscrowError::AccountNotFound));

    let mut w = setup();
    do_make(&mut w, 123, 10, 10).unwrap();
    do_refund(&mut w).unwrap();
    w.ledger.set_time(START + FIVE_DAYS);
    assert_eq!(do_take(&mut w), Err(EscrowError::AccountNotFound));
    assert_eq!(amount(&w.ledger, &w.taker_ata_b), 1000000000);
}

#[test]
fn refund_long_after_open_returns_deposit() {
    let mut w = setup();
    do_make(&mut w, 123, 250, 7).unwrap();
    assert_eq!(amount(&w.ledger, &w.maker_ata_a), 1000000000 - 250);
    w.ledger.set_time(START + 10 * FIVE_DAYS);
    do_refund(&mut w).unwrap();
    assert_eq!(amount(&w.ledger, &w.maker_ata_a), 1000000000);
}

#[test]
fn make_errors() {
    let mut w = setup();
    let mut a = make_accounts(&w);
    a.escrow = key(40);
    assert_eq!(make(&mut w.ledger, &sign(&w.maker), &a, 123, 10, 10), Err(EscrowError::ConstraintSeeds));

    let a = make_accounts(&w);
    assert_eq!(make(&mut w.ledger, &sign(&w.maker), &a, 123, 1000000001, 10), Err(EscrowError::InsufficientFunds));

    let mut a = make_accounts(&w);
    a.maker_ata_a = w.taker_ata_a;
    assert_eq!(make(&mut w.ledger, &sign(&w.maker), &a, 123, 10, 10), Err(EscrowError::Program(ErrorCode::ConstraintTokenOwner)));

    let mut a = make_accounts(&w);
    a.maker_ata_a = w.maker_ata_b;
    assert_eq!(make(&mut w.ledger, &sign(&w.maker), &a, 123, 10, 10), Err(EscrowError::Program(ErrorCode::ConstraintTokenMint)));

    let mut a = make_accounts(&w);
    a.maker_ata_a = key(41);
    assert_eq!(make(&mut w.ledger, &sign(&w.maker), &a, 123, 10, 10), Err(EscrowError::AccountNotFound));

    let mut a = make_accounts(&w);
    a.vault = w.taker_ata_a;
    assert_eq!(make(&mut w.ledger, &sign(&w.maker), &a, 123, 10, 10), Err(EscrowError::AccountAlreadyInUse));

    assert_eq!(amount(&w.ledger, &w.maker_ata_a), 1000000000);
    let a = make_accounts(&w);
    make(&mut w.ledger, &sign(&w.maker), &a, 123, 10, 10).unwrap();
    assert_eq!(make(&mut w.ledger, &sign(&w.maker), &a, 123, 10, 10), Err(EscrowError::AccountAlreadyInUse));
}

#[test]
fn take_errors() {
    let mut w = setup();
    do_make(&mut w, 123, 10, 2000000000).unwrap();
    w.ledger.set_time(START + FIVE_DAYS);
    assert_eq!(do_take(&mut w), Err(EscrowError::InsufficientFunds));

    let mut a = take_accounts(&w);
    a.maker_ata_b = a.taker_ata_b;
    assert_eq!(take(&mut w.ledger, &sign(&w.taker), &a), Err(EscrowError::ConstraintDuplicateMutableAccount));

    let mut a = take_accounts(&w);
    a.mint_b = key(50);
    assert_eq!(take(&mut w.ledger, &sign(&w.taker), &a), Err(EscrowError::ConstraintHasOne));

    let mut a = take_accounts(&w);
    a.escrow = key(51);
    assert_eq!(take(&mut w.ledger, &sign(&w.taker), &a), Err(EscrowError::AccountNotFound));
}

#[test]
fn escrow_address_matches_program_derivation() {
    let maker = holder(1);
    let (addr, bump) = find_escrow_address(&maker, 123, &program_id()).unwrap();
    assert!(Signer::new(&addr).is_none());
    let pid = anchor_lang::prelude::Pubkey::new_from_array(program_id().bytes);
    let (expected, expected_bump) = anchor_lang::prelude::Pubkey::find_program_address(
        &[b"escrow", &maker.bytes, &123u64.to_le_bytes()],
        &pid,
    );
    assert_eq!(addr.bytes, expected.to_bytes());
    assert_eq!(bump, expected_bump);
    assert!(verify_escrow_address(&maker, 123, bump, &program_id(), &addr));
    assert!(!verify_escrow_address(&maker, 124, bump, &program_id(), &addr));
    assert!(!verify_escrow_address(&maker, 123, bump, &program_id(), &maker));
    let (other, _) = find_escrow_address(&maker, 124, &program_id()).unwrap();
    assert_ne!(other.bytes, addr.bytes);
}

#[test]
fn seeds_are_tag_maker_and_little_endian_seed() {
    assert_eq!(seed_le_bytes(0x0102030405060708), vec![8, 7, 6, 5, 4, 3, 2, 1]);
    let s = escrow_seeds(&key(7), 123);
    assert_eq!(s.len(), 3);
    assert_eq!(s[0], b"escrow".to_vec());
    assert_eq!(s[1], vec![7u8; 32]);
    assert_eq!(s[2], 123u64.to_le_bytes().to_vec());
}

#[test]
fn error_messages() {
    assert_eq!(ErrorCode::TooEarlyToTake.message(), "Tokens cannot be claimed yet");
    assert_eq!(ErrorCode::ConstraintTokenMint.message(), "Invalid token mint provided");
    assert_eq!(ErrorCode::ConstraintTokenOwner.message(), "Invalid token owner");
}

#[test]
fn ledger_transfer_and_close_rules() {
    let mut l = Ledger::new(program_id(), 0);
    let (a, b, c) = (key(1), key(2), key(3));
    let (o1, o2) = (holder(20), holder(21));
    l.create_token_account(&a, &key(10), &o1).unwrap();
    l.create_token_account(&b, &key(10), &o2).unwrap();
    l.create_token_account(&c, &key(11), &o2).unwrap();
    assert_eq!(l.create_token_account(&a, &key(10), &o1), Err(EscrowError::AccountAlreadyInUse));
    l.mint_to(&a, 5).unwrap();
    assert_eq!(l.transfer(&a, &b, 6, &sign(&o1)), Err(EscrowError::InsufficientFunds));
    assert_eq!(l.transfer(&a, &c, 1, &sign(&o1)), Err(EscrowError::MintMismatch));
    assert_eq!(l.transfer(&a, &b, 1, &sign(&o2)), Err(EscrowError::OwnerMismatch));
    l.transfer(&a, &b, 5, &sign(&o1)).unwrap();
    let held: TokenAccount = l.get_token_account(&b).unwrap();
    assert_eq!((held.mint.bytes, held.owner.bytes, held.amount), ([10u8; 32], o2.bytes, 5));
    assert_eq!(amount(&l, &a), 0);
    assert_eq!(l.close_account(&b, &o2, &sign(&o2)), Err(EscrowError::NonNativeHasBalance));
    assert_eq!(l.close_account(&a, &o2, &sign(&o2)), Err(EscrowError::OwnerMismatch));
    l.close_account(&a, &o1, &sign(&o1)).unwrap();
    assert_eq!(l.get_lamports(&o1), TOKEN_ACCOUNT_RENT);
    assert!(l.get_token_account(&a).is_none());
    assert_eq!(l.mint_to(&b, u64::MAX), Err(EscrowError::ArithmeticOverflow));
}

fn sample_record() -> anchor_escrow::Escrow {
    anchor_escrow::Escrow {
        seed: 123,
        maker: key(1),
        mint_a: key(3),
        mint_b: key(4),
        receive: 10,
        created_at: -5,
        bump: 254,
    }
}

#[test]
fn record_layout_is_tag_then_little_endian_fields() {
    let bytes = sample_record().try_serialize();
    assert_eq!(bytes.len(), anchor_escrow::ACCOUNT_SPACE);
    assert_eq!(bytes.len(), 8 + anchor_escrow::INIT_SPACE);
    let digest = Sha256::digest(b"account:Escrow");
    assert_eq!(&bytes[0..8], &digest[0..8]);
    assert_eq!(&bytes[8..16], &123u64.to_le_bytes());
    assert_eq!(&bytes[16..48], &[1u8; 32]);
    assert_eq!(&bytes[48..80], &[3u8; 32]);
    assert_eq!(&bytes[80..112], &[4u8; 32]);
    assert_eq!(&bytes[112..120], &10u64.to_le_bytes());
    assert_eq!(&bytes[120..128], &(-5i64).to_le_bytes());
    assert_eq!(bytes[128], 254);
}

#[test]
fn record_round_trip_and_errors() {
    let mut bytes = sample_record().try_serialize();
    bytes.extend_from_slice(&[7, 7, 7]);
    let back = anchor_escrow::Escrow::try_deserialize(&bytes).unwrap();
    assert_eq!(back.seed, 123);
    assert_eq!(back.maker.bytes, [1u8; 32]);
    assert_eq!(back.mint_a.bytes, [3u8; 32]);
    assert_eq!(back.mint_b.bytes, [4u8; 32]);
    assert_eq!(back.receive, 10);
    assert_eq!(back.created_at, -5);
    assert_eq!(back.bump, 254);

    assert_eq!(
        anchor_escrow::Escrow::try_deserialize(&bytes[0..7]).map(|e| e.seed),
        Err(EscrowError::AccountDiscriminatorNotFound)
    );
    assert_eq!(
        anchor_escrow::Escrow::try_deserialize(&bytes[0..128]).map(|e| e.seed),
        Err(EscrowError::AccountDidNotDeserialize)
    );
    bytes[3] ^= 1;
    assert_eq!(
        anchor_escrow::Escrow::try_deserialize(&bytes).map(|e| e.seed),
        Err(EscrowError::AccountDiscriminatorMismatch)
    );
}

#[test]
fn stored_record_after_make_reads_back() {
    let mut w = setup();
    do_make(&mut w, 123, 10, 10).unwrap();
    let rec = w.ledger.get_escrow(&w.escrow).unwrap();
    let (_, bump) = find_escrow_address(&w.maker, 123, &program_id()).unwrap();
    assert_eq!(rec.bump, bump);
    assert_eq!(rec.created_at, START);
    let back = anchor_escrow::Escrow::try_deserialize(&rec.try_serialize()).unwrap();
    assert_eq!((back.seed, back.receive, back.created_at, back.bump), (123, 10, START, bump));
}

#[test]
fn take_steps_one_by_one() {
    let mut w = setup();
    do_make(&mut w, 123, 10, 10).unwrap();
    w.ledger.set_time(START + FIVE_DAYS);
    let a = take_accounts(&w);
    assert_eq!(a.validate(&w.ledger), Ok(()));
    a.deposit(&mut w.ledger, &sign(&w.taker)).unwrap();
    assert_eq!(amount(&w.ledger, &w.maker_ata_b), 10);
    assert_eq!(amount(&w.ledger, &w.taker_ata_b), 1000000000 - 10);
    a.withdraw_and_close_vault(&mut w.ledger).unwrap();
    assert_eq!(amount(&w.ledger, &w.taker_ata_a), 10);
    assert!(w.ledger.get_token_account(&w.vault).is_none());
    // The record stays until the swap as a whole closes it.
    assert!(w.ledger.get_escrow(&w.escrow).is_some());
}

#[test]
fn holdings_checks_in_order() {
    let w = setup();
    let a = take_accounts(&w);
    let good = |owner: Pubkey, mint: Pubkey| TokenAccount { mint, owner, amount: 0 };
    let ta = good(w.taker, w.mint_a);
    let tb = good(w.taker, w.mint_b);
    let mb = good(w.maker, w.mint_b);
    let v = good(w.escrow, w.mint_a);
    assert_eq!(anchor_escrow::check_holdings(&a, &ta, &tb, &mb, &v, 0, FIVE_DAYS), Ok(()));
    assert_eq!(
        anchor_escrow::check_holdings(&a, &ta, &tb, &mb, &v, 0, FIVE_DAYS - 1),
        Err(ErrorCode::TooEarlyToTake)
    );
    assert_eq!(
        anchor_escrow::check_holdings(&a, &ta, &tb, &mb, &v, i64::MAX, i64::MAX),
        Err(ErrorCode::TooEarlyToTake)
    );
    let bad = good(w.maker, w.mint_b);
    assert_eq!(
        anchor_escrow::check_holdings(&a, &ta, &tb, &mb, &bad, 0, FIVE_DAYS),
        Err(ErrorCode::ConstraintTokenOwner)
    );
    let bad = good(w.escrow, w.mint_b);
    assert_eq!(
        anchor_escrow::check_holdings(&a, &ta, &tb, &mb, &bad, 0, FIVE_DAYS),
        Err(ErrorCode::ConstraintTokenMint)
    );
}

#[test]
fn operations_need_the_party_to_sign() {
    let mut w = setup();
    let a = make_accounts(&w);
    assert_eq!(
        make(&mut w.ledger, &sign(&w.taker), &a, 123, 10, 10),
        Err(EscrowError::MissingRequiredSignature)
    );
    do_make(&mut w, 123, 10, 10).unwrap();
    w.ledger.set_time(START + FIVE_DAYS);
    let t = take_accounts(&w);
    assert_eq!(take(&mut w.ledger, &sign(&w.maker), &t), Err(EscrowError::MissingRequiredSignature));
    let r = refund_accounts(&w);
    assert_eq!(refund(&mut w.ledger, &sign(&w.taker), &r), Err(EscrowError::MissingRequiredSignature));
    assert_eq!(amount(&w.ledger, &w.vault), 10);
}

#[test]
fn another_escrows_vault_cannot_fund_an_open() {
    let mut w = setup();
    do_make(&mut w, 123, 10, 10).unwrap();
    // The escrow address has no key, so nobody can sign as it.
    assert!(Signer::new(&w.escrow).is_none());
    // A key holder naming the vault as its own holding fails on the owner.
    let (escrow2, _) = find_escrow_address(&w.maker, 124, &program_id()).unwrap();
    let a = Make {
        maker: w.maker,
        mint_a: w.mint_a,
        mint_b: w.mint_b,
        maker_ata_a: w.vault,
        escrow: escrow2,
        vault: key(60),
    };
    assert_eq!(
        make(&mut w.ledger, &sign(&w.maker), &a, 124, 10, 10),
        Err(EscrowError::Program(ErrorCode::ConstraintTokenOwner))
    );
    assert_eq!(amount(&w.ledger, &w.vault), 10);
}

#[test]
fn validate_ignores_amounts_and_guard_is_inclusive() {
    let mut w = setup();
    do_make(&mut w, 123, 10, 2000000000).unwrap();
    w.ledger.set_time(START + FIVE_DAYS - 1);
    let a = take_accounts(&w);
    assert_eq!(a.validate(&w.ledger), Err(EscrowError::Program(ErrorCode::TooEarlyToTake)));
    w.ledger.set_time(START + FIVE_DAYS);
    // The taker cannot pay, yet validate passes: only the swap checks amounts.
    assert_eq!(a.validate(&w.ledger), Ok(()));
    assert_eq!(do_take(&mut w), Err(EscrowError::InsufficientFunds));
}

#[test]
fn open_needs_the_storage_deposits() {
    let mut w = setup();
    let poor = holder(70);
    w.ledger.create_token_account(&key(71), &w.mint_a, &poor).unwrap();
    w.ledger.mint_to(&key(71), 50).unwrap();
    w.ledger.airdrop(&poor, TOKEN_ACCOUNT_RENT + RECORD_RENT - 1).unwrap();
    let (escrow, _) = find_escrow_address(&poor, 1, &program_id()).unwrap();
    let a = Make { maker: poor, mint_a: w.mint_a, mint_b: w.mint_b, maker_ata_a: key(71), escrow, vault: key(72) };
    assert_eq!(make(&mut w.ledger, &sign(&poor), &a, 1, 10, 10), Err(EscrowError::InsufficientLamports));
    w.ledger.airdrop(&poor, 1).unwrap();
    make(&mut w.ledger, &sign(&poor), &a, 1, 10, 10).unwrap();
    assert_eq!(w.ledger.get_lamports(&poor), 0);
    let r = Refund { maker: poor, mint_a: w.mint_a, maker_ata_a: key(71), escrow, vault: key(72) };
    refund(&mut w.ledger, &sign(&poor), &r).unwrap();
    assert_eq!(w.ledger.get_lamports(&poor), TOKEN_ACCOUNT_RENT + RECORD_RENT);
    assert_eq!(amount(&w.ledger, &key(71)), 50);
}
