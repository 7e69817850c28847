use escrow::derive::{
    escrow_address, escrow_signer_seeds, find_escrow_address, is_escrow_address, seed_bytes,
};
use escrow::ledger::Ledger;
use escrow::make::Make;
use escrow::refund::Refund;
use escrow::state::{Escrow, EscrowError, Slot};
use escrow::take::Take;

const MAKER: u64 = 1;
const TAKER: u64 = 2;
const MINT_A: u64 = 10;
const MINT_B: u64 = 20;
const RECORD_RENT: u64 = 100;
const VAULT_RENT: u64 = 200;
const MAKER_LAMPORTS: u64 = 10_000;

struct Setup {
    ledger: Ledger,
    mint_a: usize,
    mint_b: usize,
    maker_a: usize,
    maker_b: usize,
    taker_a: usize,
    taker_b: usize,
    maker_wallet: usize,
}

fn setup(taker_b_amount: u64) -> Setup {
    let mut ledger = Ledger::new(RECORD_RENT, VAULT_RENT);
    let mint_a = ledger.add_mint(MINT_A, 6);
    let mint_b = ledger.add_mint(MINT_B, 9);
    let maker_a = ledger.add_account(MAKER, MINT_A, 1_000);
    let maker_b = ledger.add_account(MAKER, MINT_B, 0);
    let taker_a = ledger.add_account(TAKER, MINT_A, 0);
    let taker_b = ledger.add_account(TAKER, MINT_B, taker_b_amount);
    let maker_wallet = ledger.add_wallet(MAKER, MAKER_LAMPORTS);
    Setup { ledger, mint_a, mint_b, maker_a, maker_b, taker_a, taker_b, maker_wallet }
}

fn make_args(s: &Setup, seed: u64) -> Make {
    Make {
        maker: MAKER,
        seed,
        amount: 100,
        receive: 50,
        mint_a: s.mint_a,
        mint_b: s.mint_b,
        decimals: 6,
        bump: 254,
        maker_ata_a: s.maker_a,
        maker_wallet: s.maker_wallet,
    }
}

fn take_args(s: &Setup, seed: u64) -> Take {
    Take {
        maker: MAKER,
        taker: TAKER,
        seed,
        mint_a: s.mint_a,
        mint_b: s.mint_b,
        maker_wallet: s.maker_wallet,
        maker_ata_b: s.maker_b,
        taker_ata_a: s.taker_a,
        taker_ata_b: s.taker_b,
    }
}

fn refund_args(s: &Setup, signer: u64, seed: u64) -> Refund {
    Refund {
        signer,
        maker: MAKER,
        seed,
        mint_a: s.mint_a,
        maker_ata_a: s.maker_a,
        maker_wallet: s.maker_wallet,
    }
}

#[test]
fn make_fills_vault_and_record() {
    let mut s = setup(50);
    let m = make_args(&s, 1);
    assert_eq!(s.ledger.make(&m), Ok(()));
    assert_eq!(s.ledger.vault_balance(MAKER, 1), Some(100));
    let rec = s.ledger.escrow(MAKER, 1).unwrap();
    assert_eq!(rec.seed, 1);
    assert_eq!(rec.maker, MAKER);
    assert_eq!(rec.mint_a, MINT_A);
    assert_eq!(rec.mint_b, MINT_B);
    assert_eq!(rec.receive, 50);
    assert_eq!(rec.bump, 254);
    assert_eq!(s.ledger.balance(s.maker_a), Some(900));
    assert_eq!(s.ledger.lamports(s.maker_wallet), Some(MAKER_LAMPORTS - RECORD_RENT - VAULT_RENT));
    assert_eq!(s.ledger.open_escrows(), 1);
}

#[test]
fn take_swaps_and_closes() {
    let mut s = setup(50);
    assert_eq!(s.ledger.make(&make_args(&s, 1)), Ok(()));
    assert_eq!(s.ledger.vault_balance(MAKER, 1), Some(100));
    let t = take_args(&s, 1);
    assert_eq!(t.withdraw_and_close_vault(&mut s.ledger), Ok(()));
    assert_eq!(s.ledger.balance(s.taker_a), Some(100));
    assert_eq!(s.ledger.balance(s.taker_b), Some(0));
    assert_eq!(s.ledger.balance(s.maker_b), Some(50));
    assert_eq!(s.ledger.balance(s.maker_a), Some(900));
    assert_eq!(s.ledger.lamports(s.maker_wallet), Some(MAKER_LAMPORTS));
    assert_eq!(s.ledger.escrow(MAKER, 1), None);
    assert_eq!(s.ledger.vault_balance(MAKER, 1), None);
    assert_eq!(s.ledger.open_escrows(), 0);
}

#[test]
fn take_underfunded_changes_nothing() {
    let mut s = setup(10);
    assert_eq!(s.ledger.make(&make_args(&s, 1)), Ok(()));
    let t = take_args(&s, 1);
    assert_eq!(t.withdraw_and_close_vault(&mut s.ledger), Err(EscrowError::InsufficientFunds));
    assert_eq!(s.ledger.vault_balance(MAKER, 1), Some(100));
    assert!(s.ledger.escrow(MAKER, 1).is_some());
    assert_eq!(s.ledger.balance(s.taker_a), Some(0));
    assert_eq!(s.ledger.balance(s.taker_b), Some(10));
    assert_eq!(s.ledger.balance(s.maker_b), Some(0));
    assert_eq!(s.ledger.lamports(s.maker_wallet), Some(MAKER_LAMPORTS - RECORD_RENT - VAULT_RENT));
}

#[test]
fn refund_returns_vault_then_take_fails() {
    let mut s = setup(50);
    assert_eq!(s.ledger.make(&make_args(&s, 1)), Ok(()));
    assert_eq!(s.ledger.refund(&refund_args(&s, MAKER, 1)), Ok(()));
    assert_eq!(s.ledger.balance(s.maker_a), Some(1_000));
    assert_eq!(s.ledger.lamports(s.maker_wallet), Some(MAKER_LAMPORTS));
    assert_eq!(s.ledger.escrow(MAKER, 1), None);
    assert_eq!(s.ledger.vault_balance(MAKER, 1), None);
    let t = take_args(&s, 1);
    assert_eq!(t.withdraw_and_close_vault(&mut s.ledger), Err(EscrowError::EscrowNotFound));
    assert_eq!(s.ledger.balance(s.taker_b), Some(50));
    assert_eq!(s.ledger.balance(s.taker_a), Some(0));
}

#[test]
fn take_then_refund_fails() {
    let mut s = setup(50);
    assert_eq!(s.ledger.make(&make_args(&s, 1)), Ok(()));
    let t = take_args(&s, 1);
    assert_eq!(t.withdraw_and_close_vault(&mut s.ledger), Ok(()));
    assert_eq!(s.ledger.refund(&refund_args(&s, MAKER, 1)), Err(EscrowError::EscrowNotFound));
    assert_eq!(t.withdraw_and_close_vault(&mut s.ledger), Err(EscrowError::EscrowNotFound));
    assert_eq!(s.ledger.balance(s.maker_a), Some(900));
}

#[test]
fn make_same_seed_twice_refused() {
    let mut s = setup(50);
    assert_eq!(s.ledger.make(&make_args(&s, 1)), Ok(()));
    assert_eq!(s.ledger.make(&make_args(&s, 1)), Err(EscrowError::EscrowExists));
    assert_eq!(s.ledger.balance(s.maker_a), Some(900));
    assert_eq!(s.ledger.open_escrows(), 1);
    assert_eq!(s.ledger.make(&make_args(&s, 2)), Ok(()));
    assert_eq!(s.ledger.open_escrows(), 2);
    assert_eq!(s.ledger.balance(s.maker_a), Some(800));
}

#[test]
fn refund_by_other_refused() {
    let mut s = setup(50);
    assert_eq!(s.ledger.make(&make_args(&s, 1)), Ok(()));
    assert_eq!(s.ledger.refund(&refund_args(&s, TAKER, 1)), Err(EscrowError::Unauthorized));
    assert_eq!(s.ledger.vault_balance(MAKER, 1), Some(100));
    assert_eq!(s.ledger.balance(s.maker_a), Some(900));
}

#[test]
fn make_decimals_mismatch() {
    let mut s = setup(50);
    let mut m = make_args(&s, 1);
    m.decimals = 9;
    assert_eq!(s.ledger.make(&m), Err(EscrowError::DecimalsMismatch));
    assert_eq!(s.ledger.open_escrows(), 0);
    assert_eq!(s.ledger.balance(s.maker_a), Some(1_000));
}

#[test]
fn make_insufficient_funds() {
    let mut s = setup(50);
    let mut m = make_args(&s, 1);
    m.amount = 1_001;
    assert_eq!(s.ledger.make(&m), Err(EscrowError::InsufficientFunds));
    assert_eq!(s.ledger.lamports(s.maker_wallet), Some(MAKER_LAMPORTS));
    assert_eq!(s.ledger.open_escrows(), 0);
}

#[test]
fn make_insufficient_lamports() {
    let mut ledger = Ledger::new(RECORD_RENT, VAULT_RENT);
    let mint_a = ledger.add_mint(MINT_A, 6);
    let mint_b = ledger.add_mint(MINT_B, 9);
    let maker_a = ledger.add_account(MAKER, MINT_A, 1_000);
    let maker_wallet = ledger.add_wallet(MAKER, RECORD_RENT + VAULT_RENT - 1);
    let m = Make {
        maker: MAKER,
        seed: 1,
        amount: 100,
        receive: 50,
        mint_a,
        mint_b,
        decimals: 6,
        bump: 255,
        maker_ata_a: maker_a,
        maker_wallet,
    };
    assert_eq!(ledger.make(&m), Err(EscrowError::InsufficientLamports));
    assert_eq!(ledger.balance(maker_a), Some(1_000));
}

#[test]
fn make_wrong_account_holder() {
    let mut s = setup(50);
    let mut m = make_args(&s, 1);
    m.maker_ata_a = s.taker_a;
    assert_eq!(s.ledger.make(&m), Err(EscrowError::InvalidAccount));
    m.maker_ata_a = 99;
    assert_eq!(s.ledger.make(&m), Err(EscrowError::InvalidAccount));
}

#[test]
fn take_wrong_mint() {
    let mut s = setup(50);
    assert_eq!(s.ledger.make(&make_args(&s, 1)), Ok(()));
    let mut t = take_args(&s, 1);
    t.mint_b = s.mint_a;
    assert_eq!(t.withdraw_and_close_vault(&mut s.ledger), Err(EscrowError::MintMismatch));
    assert_eq!(s.ledger.vault_balance(MAKER, 1), Some(100));
}

#[test]
fn take_wrong_account() {
    let mut s = setup(50);
    assert_eq!(s.ledger.make(&make_args(&s, 1)), Ok(()));
    let mut t = take_args(&s, 1);
    t.taker_ata_b = s.maker_b;
    assert_eq!(t.withdraw_and_close_vault(&mut s.ledger), Err(EscrowError::InvalidAccount));
    assert_eq!(s.ledger.vault_balance(MAKER, 1), Some(100));
}

#[test]
fn take_overflow_refused() {
    let mut s = setup(50);
    assert_eq!(s.ledger.make(&make_args(&s, 1)), Ok(()));
    let full = s.ledger.add_account(TAKER, MINT_A, u64::MAX - 99);
    let mut t = take_args(&s, 1);
    t.taker_ata_a = full;
    assert_eq!(t.withdraw_and_close_vault(&mut s.ledger), Err(EscrowError::Overflow));
    assert_eq!(s.ledger.balance(s.taker_b), Some(50));
    assert_eq!(s.ledger.vault_balance(MAKER, 1), Some(100));
}

#[test]
fn take_unknown_seed() {
    let mut s = setup(50);
    assert_eq!(s.ledger.make(&make_args(&s, 1)), Ok(()));
    let t = take_args(&s, 7);
    assert_eq!(t.withdraw_and_close_vault(&mut s.ledger), Err(EscrowError::EscrowNotFound));
}

#[test]
fn seed_bytes_little_endian() {
    assert_eq!(seed_bytes(0x0102030405060708), vec![8, 7, 6, 5, 4, 3, 2, 1]);
    assert_eq!(seed_bytes(1), vec![1, 0, 0, 0, 0, 0, 0, 0]);
}

#[test]
fn signer_seeds_layout() {
    let maker = [7u8; 32];
    let seeds = escrow_signer_seeds(&maker, 1, 253);
    assert_eq!(seeds.len(), 4);
    assert_eq!(seeds[0], b"escrow".to_vec());
    assert_eq!(seeds[1], maker.to_vec());
    assert_eq!(seeds[2], 1u64.to_le_bytes().to_vec());
    assert_eq!(seeds[3], vec![253]);
}

#[test]
fn derived_address_round_trip() {
    let program = [3u8; 32];
    let maker = [7u8; 32];
    let (address, bump) = find_escrow_address(&program, &maker, 1).unwrap();
    assert!(bump >= 1);
    assert_ne!(address, maker);
    assert_ne!(address, program);
    assert_eq!(escrow_address(&program, &maker, 1, bump), Some(address));
    assert!(is_escrow_address(&program, &maker, 1, bump, &address));
    assert!(!is_escrow_address(&program, &maker, 2, bump, &address));
    let (other, _) = find_escrow_address(&program, &maker, 2).unwrap();
    assert_ne!(other, address);
}

#[test]
fn load_escrow_then_take() {
    let mut s = setup(50);
    let slot = Slot {
        record: Escrow { seed: 9, maker: MAKER, mint_a: MINT_A, mint_b: MINT_B, receive: 50, bump: 250 },
        vault: 70,
        record_rent: 5,
        vault_rent: 6,
    };
    assert_eq!(s.ledger.load_escrow(slot), Ok(()));
    assert_eq!(s.ledger.load_escrow(slot), Err(EscrowError::EscrowExists));
    assert_eq!(s.ledger.slot(0), Some(slot));
    assert_eq!(s.ledger.find_escrow(MAKER, 9), Some(0));
    let t = take_args(&s, 9);
    assert_eq!(t.withdraw_and_close_vault(&mut s.ledger), Ok(()));
    assert_eq!(s.ledger.balance(s.taker_a), Some(70));
    assert_eq!(s.ledger.lamports(s.maker_wallet), Some(MAKER_LAMPORTS + 11));
    assert_eq!(s.ledger.wallet(s.maker_wallet).unwrap().key, MAKER);
    assert_eq!(s.ledger.mint(s.mint_b).unwrap().decimals, 9);
    assert_eq!(s.ledger.account(s.maker_b).unwrap().amount, 50);
    assert_eq!(s.ledger.record_rent(), RECORD_RENT);
    assert_eq!(s.ledger.vault_rent(), VAULT_RENT);
}
