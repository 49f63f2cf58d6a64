use std::str::FromStr;

use nft_issuance::address::{assert_derivation, make_collection_seeds, make_config_seeds, Address};
use nft_issuance::instruction::{configure, create_token, mint};
use nft_issuance::state::{ConfigureArgs, CreateTokenArgs};
use nft_issuance::error::AppError;
use solana_program::pubkey::Pubkey;

fn addr(p: &Pubkey) -> Address {
    Address::new(p.to_bytes())
}

fn named(s: &str) -> Address {
    addr(&Pubkey::from_str(s).unwrap())
}

#[test]
fn builders_pin_the_service_ids() {
    let a = Address::new([1; 32]);
    let ix = configure(&a, &a, &a, ConfigureArgs { authority: a }).unwrap();
    assert_eq!(ix.accounts[2].pubkey, named("SysvarRent111111111111111111111111111111111"));
    assert_eq!(ix.accounts[3].pubkey, named("11111111111111111111111111111111"));
    assert!(!ix.accounts[2].is_writable && !ix.accounts[2].is_signer);
    assert!(ix.accounts[0].is_signer && ix.accounts[0].is_writable);
    let args = CreateTokenArgs { decimals: 0, name: String::new(), symbol: String::new(), uri: String::new() };
    let ix = create_token(&a, &a, &a, &a, &a, &a, &a, &a, args).unwrap();
    assert_eq!(ix.accounts.len(), 10);
    assert_eq!(ix.accounts[7].pubkey, named("TokenkegQfeZyiNwAJbNbGKPFXCWuBvf9Ss623VQ5DA"));
    assert_eq!(ix.data, vec![6u8, 0, 0, 0, 0, 0, 0, 0, 0, 0, 0, 0, 0, 0]);
}

#[test]
fn mint_builder_lists_eighteen_accounts() {
    let keys: Vec<Address> = (0..16).map(|i| Address::new([i as u8 + 1; 32])).collect();
    let ix = mint(
        &keys[0], &keys[1], &keys[2], &keys[3], &keys[4], &keys[5], &keys[6], &keys[7], &keys[8], &keys[9],
        &keys[10], &keys[11], &keys[12], &keys[13], &keys[14], &keys[15], &keys[0],
    )
    .unwrap();
    assert_eq!(ix.program_id, keys[0]);
    assert_eq!(ix.accounts.len(), 18);
    assert_eq!(ix.data, vec![4u8]);
    assert!(ix.accounts[2].is_signer);
    assert_eq!(ix.accounts[13].pubkey, keys[14]);
    assert!(!ix.accounts[14].is_writable);
    assert_eq!(ix.accounts[16].pubkey, named("SysvarRent111111111111111111111111111111111"));
}

#[test]
fn derivation_accepts_the_derived_address_only() {
    let program = Address::new([7u8; 32]);
    let seeds = make_config_seeds(&program);
    let (expected, bump) =
        Pubkey::find_program_address(&[&[7u8; 32][..], b"config"], &Pubkey::new_from_array([7u8; 32]));
    assert_eq!(assert_derivation(&program, &addr(&expected), &seeds), Ok(bump));
    assert_ne!(addr(&expected), program);
    let mut other = expected.to_bytes();
    other[0] ^= 1;
    assert_eq!(assert_derivation(&program, &Address::new(other), &seeds), Err(AppError::InvalidSeeds));
}

#[test]
fn derivation_is_deterministic() {
    let program = Address::new([9u8; 32]);
    let mint = Address::new([3u8; 32]);
    let (key, _) = Pubkey::find_program_address(
        &[&[9u8; 32][..], &[3u8; 32][..], b"collection"],
        &Pubkey::new_from_array([9u8; 32]),
    );
    let first = assert_derivation(&program, &addr(&key), &make_collection_seeds(&program, &mint));
    let second = assert_derivation(&program, &addr(&key), &make_collection_seeds(&program, &mint));
    assert!(first.is_ok());
    assert_eq!(first, second);
}

#[test]
fn derivation_refuses_too_many_seeds() {
    let program = Address::new([1u8; 32]);
    let seeds: Vec<Vec<u8>> = (0..17).map(|i| vec![i as u8]).collect();
    assert_eq!(assert_derivation(&program, &program, &seeds), Err(AppError::InvalidSeeds));
}
