use anchor_lang::prelude::Pubkey;

use escrow_market::accounts::{TokenAccount, Wallet};
use escrow_market::errors::ErrorKind;
use escrow_market::marketplace::{initialize, Market, Purchase};
use escrow_market::policy::settlement_split;

fn addr(n: u8) -> Vec<u8> {
    vec![n; 32]
}

fn program_id() -> Vec<u8> {
    addr(7)
}

fn fresh_market(fee: u16) -> Market {
    initialize(program_id(), addr(1), b"suqmart".to_vec(), fee).expect("root setup")
}

fn maker_ata(maker: &[u8], mint: &[u8], amount: u64) -> TokenAccount {
    TokenAccount { owner: maker.to_vec(), mint: mint.to_vec(), amount }
}

#[test]
fn split_of_price_10000_fee_500() {
    let s = settlement_split(10000, 500).unwrap();
    assert_eq!(s.proceeds, 9500);
    assert_eq!(s.fee, 500);
}

#[test]
fn split_fails_when_fee_exceeds_price() {
    assert_eq!(settlement_split(100, 500), Err(ErrorKind::ArithmeticError));
}

#[test]
fn split_of_price_equal_to_fee_is_zero_proceeds() {
    let s = settlement_split(500, 500).unwrap();
    assert_eq!(s.proceeds, 0);
    assert_eq!(s.fee, 500);
}

#[test]
fn initialize_rejects_fee_above_bound() {
    let r = initialize(program_id(), addr(1), b"suqmart".to_vec(), 10001);
    assert!(matches!(r, Err(ErrorKind::ConfigurationError)));
}

#[test]
fn initialize_rejects_long_name() {
    let r = initialize(program_id(), addr(1), vec![97u8; 33], 500);
    assert!(matches!(r, Err(ErrorKind::ConfigurationError)));
}

#[test]
fn initialize_derives_the_documented_addresses() {
    let m = fresh_market(500);
    let pk = Pubkey::try_from(program_id().as_slice()).unwrap();
    let (expected, bump) = Pubkey::find_program_address(&[b"marketplace", b"suqmart"], &pk);
    assert_eq!(m.address, expected.to_bytes().to_vec());
    assert_eq!(m.marketplace.bump, bump);
    let (treasury, tbump) =
        Pubkey::find_program_address(&[b"treasury", expected.to_bytes().as_ref()], &pk);
    assert_eq!(m.treasury_address, treasury.to_bytes().to_vec());
    assert_eq!(m.marketplace.treasury_bump, tbump);
    let (rewards, rbump) =
        Pubkey::find_program_address(&[b"rewards", expected.to_bytes().as_ref()], &pk);
    assert_eq!(m.rewards_address, rewards.to_bytes().to_vec());
    assert_eq!(m.marketplace.rewards_bump, rbump);
    assert_eq!(m.treasury_lamports, 0);
    assert_eq!(m.rewards_minted, 0);
    assert_eq!(m.escrows.len(), 0);
}

#[test]
fn listing_moves_one_unit_into_custody() {
    let mut m = fresh_market(500);
    let maker = addr(2);
    let mint = addr(3);
    let mut ata = maker_ata(&maker, &mint, 4);
    m.listing(&maker, &mint, &mut ata, 10000).unwrap();
    assert_eq!(ata.amount, 3);
    assert_eq!(m.escrows.len(), 1);
    assert_eq!(m.escrows[0].vault.amount, 1);
    assert_eq!(m.escrows[0].vault.mint, mint);
    assert_eq!(m.escrows[0].listing.price, 10000);
    assert_eq!(m.escrows[0].listing.maker, maker);
    // the custody move-authority is the record's derived control address
    assert_eq!(m.escrows[0].vault.owner, m.escrows[0].address);
    let pk = Pubkey::try_from(program_id().as_slice()).unwrap();
    let (expected, bump) =
        Pubkey::find_program_address(&[m.address.as_slice(), mint.as_slice()], &pk);
    assert_eq!(m.escrows[0].address, expected.to_bytes().to_vec());
    assert_eq!(m.escrows[0].listing.bump, bump);
}

#[test]
fn second_offer_for_same_asset_fails_closed() {
    let mut m = fresh_market(500);
    let maker = addr(2);
    let mint = addr(3);
    let mut ata = maker_ata(&maker, &mint, 4);
    m.listing(&maker, &mint, &mut ata, 10000).unwrap();
    let other = addr(4);
    let mut other_ata = maker_ata(&other, &mint, 9);
    let r = m.listing(&other, &mint, &mut other_ata, 1);
    assert_eq!(r, Err(ErrorKind::CapacityError));
    // the existing record and custody are untouched, so is the attacker's account
    assert_eq!(other_ata.amount, 9);
    assert_eq!(m.escrows.len(), 1);
    assert_eq!(m.escrows[0].listing.maker, maker);
    assert_eq!(m.escrows[0].listing.price, 10000);
    assert_eq!(m.escrows[0].vault.amount, 1);
}

#[test]
fn listing_without_the_asset_fails() {
    let mut m = fresh_market(500);
    let maker = addr(2);
    let mint = addr(3);
    let mut ata = maker_ata(&maker, &mint, 0);
    assert_eq!(m.listing(&maker, &mint, &mut ata, 10000), Err(ErrorKind::ArithmeticError));
    assert_eq!(m.escrows.len(), 0);
}

#[test]
fn listing_with_foreign_account_fails() {
    let mut m = fresh_market(500);
    let maker = addr(2);
    let mint = addr(3);
    let mut ata = maker_ata(&addr(9), &mint, 5);
    assert_eq!(m.listing(&maker, &mint, &mut ata, 10000), Err(ErrorKind::AuthorizationError));
    assert_eq!(ata.amount, 5);
}

#[test]
fn open_then_cancel_restores_everything() {
    let mut m = fresh_market(500);
    let maker = addr(2);
    let mint = addr(3);
    let mut ata = maker_ata(&maker, &mint, 4);
    m.listing(&maker, &mint, &mut ata, 10000).unwrap();
    m.delist(&maker, &mint, &mut ata).unwrap();
    assert_eq!(ata.amount, 4);
    assert_eq!(m.escrows.len(), 0);
    assert_eq!(m.treasury_lamports, 0);
    assert_eq!(m.rewards_minted, 0);
}

#[test]
fn cancel_by_stranger_fails() {
    let mut m = fresh_market(500);
    let maker = addr(2);
    let mint = addr(3);
    let mut ata = maker_ata(&maker, &mint, 4);
    m.listing(&maker, &mint, &mut ata, 10000).unwrap();
    let stranger = addr(9);
    let mut stranger_ata = maker_ata(&stranger, &mint, 0);
    let r = m.delist(&stranger, &mint, &mut stranger_ata);
    assert_eq!(r, Err(ErrorKind::AuthorizationError));
    assert_eq!(m.escrows.len(), 1);
    assert_eq!(stranger_ata.amount, 0);
}

#[test]
fn cancel_without_record_fails() {
    let mut m = fresh_market(500);
    let maker = addr(2);
    let mut ata = maker_ata(&maker, &addr(3), 4);
    assert_eq!(m.delist(&maker, &addr(3), &mut ata), Err(ErrorKind::AuthorizationError));
}

fn settlement_accounts(m: &Market, maker: &[u8], mint: &[u8], taker_funds: u64) -> Purchase {
    Purchase {
        taker: Wallet { owner: addr(5), lamports: taker_funds },
        maker: Wallet { owner: maker.to_vec(), lamports: 100 },
        taker_ata: TokenAccount { owner: addr(5), mint: mint.to_vec(), amount: 0 },
        taker_ata_reward: TokenAccount {
            owner: addr(5),
            mint: m.rewards_address.clone(),
            amount: 0,
        },
    }
}

#[test]
fn settlement_splits_price_delivers_asset_and_mints_one_reward() {
    let mut m = fresh_market(500);
    let maker = addr(2);
    let mint = addr(3);
    let mut ata = maker_ata(&maker, &mint, 1);
    m.listing(&maker, &mint, &mut ata, 10000).unwrap();
    let mut p = settlement_accounts(&m, &maker, &mint, 25000);
    m.purchase(&mut p, &mint).unwrap();
    assert_eq!(p.maker.lamports, 100 + 9500);
    assert_eq!(m.treasury_lamports, 500);
    assert_eq!(p.taker.lamports, 25000 - 10000);
    assert_eq!(p.taker_ata.amount, 1);
    assert_eq!(p.taker_ata_reward.amount, 1);
    assert_eq!(m.rewards_minted, 1);
    assert_eq!(m.escrows.len(), 0);
    // a second settlement of the same offer finds the record absent and
    // fails closed, moving nothing
    let mut late = settlement_accounts(&m, &maker, &mint, 25000);
    assert_eq!(m.purchase(&mut late, &mint), Err(ErrorKind::AuthorizationError));
    assert_eq!(late.taker.lamports, 25000);
    assert_eq!(m.treasury_lamports, 500);
}

#[test]
fn settlement_fails_with_arithmetic_error_when_fee_exceeds_price() {
    let mut m = fresh_market(500);
    let maker = addr(2);
    let mint = addr(3);
    let mut ata = maker_ata(&maker, &mint, 1);
    m.listing(&maker, &mint, &mut ata, 100).unwrap();
    let mut p = settlement_accounts(&m, &maker, &mint, 25000);
    assert_eq!(m.purchase(&mut p, &mint), Err(ErrorKind::ArithmeticError));
    assert_eq!(m.escrows.len(), 1);
    assert_eq!(m.escrows[0].vault.amount, 1);
    assert_eq!(p.taker.lamports, 25000);
    assert_eq!(p.maker.lamports, 100);
    assert_eq!(m.treasury_lamports, 0);
}

#[test]
fn failed_settlement_has_no_effect() {
    let mut m = fresh_market(500);
    let maker = addr(2);
    let mint = addr(3);
    let mut ata = maker_ata(&maker, &mint, 1);
    m.listing(&maker, &mint, &mut ata, 10000).unwrap();
    // the buyer cannot cover proceeds + fee
    let mut p = settlement_accounts(&m, &maker, &mint, 9999);
    assert_eq!(m.purchase(&mut p, &mint), Err(ErrorKind::ArithmeticError));
    assert_eq!(p.taker.lamports, 9999);
    assert_eq!(p.maker.lamports, 100);
    assert_eq!(m.treasury_lamports, 0);
    assert_eq!(p.taker_ata.amount, 0);
    assert_eq!(p.taker_ata_reward.amount, 0);
    assert_eq!(m.escrows.len(), 1);
    assert_eq!(m.escrows[0].vault.amount, 1);
    // after the failed attempt a funded buyer still settles normally
    let mut q = settlement_accounts(&m, &maker, &mint, 10000);
    m.purchase(&mut q, &mint).unwrap();
    assert_eq!(q.taker.lamports, 0);
    assert_eq!(m.escrows.len(), 0);
}

#[test]
fn settlement_without_record_fails_closed() {
    let mut m = fresh_market(500);
    let maker = addr(2);
    let mint = addr(3);
    let mut p = settlement_accounts(&m, &maker, &mint, 25000);
    assert_eq!(m.purchase(&mut p, &mint), Err(ErrorKind::AuthorizationError));
    assert_eq!(p.taker.lamports, 25000);
}

#[test]
fn settlement_with_wrong_reward_account_fails() {
    let mut m = fresh_market(500);
    let maker = addr(2);
    let mint = addr(3);
    let mut ata = maker_ata(&maker, &mint, 1);
    m.listing(&maker, &mint, &mut ata, 10000).unwrap();
    let mut p = settlement_accounts(&m, &maker, &mint, 25000);
    p.taker_ata_reward.mint = addr(8);
    assert_eq!(m.purchase(&mut p, &mint), Err(ErrorKind::AuthorizationError));
    assert_eq!(m.escrows.len(), 1);
}

#[test]
fn initialize_is_idempotent_on_the_same_name() {
    let a = fresh_market(500);
    let b = fresh_market(500);
    assert_eq!(a, b);
}

#[test]
fn offers_are_scoped_per_root() {
    // the same asset can be offered under two different roots: the record
    // address embeds the root, so the collision point is per (root, asset)
    let mut m1 = fresh_market(500);
    let mut m2 = initialize(program_id(), addr(1), b"other".to_vec(), 500).unwrap();
    let maker = addr(2);
    let mint = addr(3);
    let mut ata = maker_ata(&maker, &mint, 2);
    m1.listing(&maker, &mint, &mut ata, 10000).unwrap();
    m2.listing(&maker, &mint, &mut ata, 20000).unwrap();
    assert_eq!(ata.amount, 0);
    assert_ne!(m1.escrows[0].address, m2.escrows[0].address);
    // each record's authority moves only its own custody account
    assert_eq!(m1.escrows[0].vault.owner, m1.escrows[0].address);
    assert_eq!(m2.escrows[0].vault.owner, m2.escrows[0].address);
}
