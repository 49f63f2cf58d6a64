use std::collections::HashMap;

use std::str::FromStr;

use nft_issuance::address::Address;
use nft_issuance::error::AppError;
use nft_issuance::instruction::AppInstruction;
use nft_issuance::processor::{process_instruction, Effect, LedgerAccount};
use nft_issuance::state::{
    decode_collection, decode_config, decode_user, encode_collection, AddCollectionArgs, AddPromotionArgs,
    CollectionData, ConfigureArgs, CreateCollectionArgs, CreateTokenArgs, Creator, MAX_SUPPLY,
};
use solana_program::pubkey::Pubkey;

const PROGRAM: [u8; 32] = [10; 32];
const ADMIN: [u8; 32] = [11; 32];
const COLLECTION_MINT: [u8; 32] = [12; 32];
const BUYER: [u8; 32] = [13; 32];
const TREASURY: [u8; 32] = [14; 32];
const PRICE: u64 = 500;

fn named(s: &str) -> Address {
    Address::new(Pubkey::from_str(s).unwrap().to_bytes())
}
fn rent_sysvar_id() -> Address {
    named("SysvarRent111111111111111111111111111111111")
}
fn system_program_id() -> Address {
    named("11111111111111111111111111111111")
}
fn token_program_id() -> Address {
    named("TokenkegQfeZyiNwAJbNbGKPFXCWuBvf9Ss623VQ5DA")
}
fn metadata_program_id() -> Address {
    named("metaqbxxUerdq28cj1RbAWkYQm3ybzjb6a8bt518x1s")
}
const START: u64 = 1000;

fn derive(seeds: &[&[u8]]) -> Address {
    let (k, _) = Pubkey::find_program_address(seeds, &Pubkey::new_from_array(PROGRAM));
    Address::new(k.to_bytes())
}

fn config_key() -> Address {
    derive(&[&PROGRAM, b"config"])
}
fn collection_key() -> Address {
    derive(&[&PROGRAM, &COLLECTION_MINT, b"collection"])
}
fn pda_creator_key() -> Address {
    derive(&[&PROGRAM, &COLLECTION_MINT, b"pda_creator"])
}
fn promotion_key() -> Address {
    let c = collection_key();
    derive(&[&PROGRAM, &c.bytes])
}
fn user_key(user: [u8; 32]) -> Address {
    derive(&[&PROGRAM, &user, b"user_info"])
}

/// Account contents by key; an absent key is an empty account of the system program.
struct Ledger {
    slots: HashMap<[u8; 32], (Address, Vec<u8>)>,
    transfers: Vec<(Address, Address, u64)>,
}

impl Ledger {
    fn new() -> Ledger {
        Ledger { slots: HashMap::new(), transfers: Vec::new() }
    }

    fn account(&self, key: Address, signer: bool) -> LedgerAccount {
        let (owner, data) = self.slots.get(&key.bytes).cloned().unwrap_or((system_program_id(), Vec::new()));
        LedgerAccount { key, owner, is_signer: signer, data }
    }

    fn accounts(&self, keys: &[(Address, bool)]) -> Vec<LedgerAccount> {
        keys.iter().map(|(k, s)| self.account(*k, *s)).collect()
    }

    /// Runs an operation and, when it succeeds, applies its allocations,
    /// transfers and writes.
    fn run(&mut self, keys: &[(Address, bool)], payload: &[u8], now: u64) -> Result<Vec<Effect>, AppError> {
        let accounts = self.accounts(keys);
        let effects = process_instruction(&Address::new(PROGRAM), &accounts, payload, now)?;
        for e in &effects {
            match e {
                Effect::Allocate { account, space, .. } => {
                    self.slots.insert(keys[*account].0.bytes, (Address::new(PROGRAM), vec![0; *space]));
                }
                Effect::Transfer { from, to, lamports } => {
                    self.transfers.push((keys[*from].0, keys[*to].0, *lamports));
                }
                Effect::Write { account, data } => {
                    let slot = self.slots.get_mut(&keys[*account].0.bytes).expect("write to an allocated slot");
                    slot.1[..data.len()].copy_from_slice(data);
                }
                _ => {}
            }
        }
        Ok(effects)
    }

    fn data(&self, key: Address) -> Vec<u8> {
        self.slots.get(&key.bytes).map(|s| s.1.clone()).unwrap_or_default()
    }
}

fn configure_keys(signer: [u8; 32]) -> Vec<(Address, bool)> {
    vec![(Address::new(signer), true), (config_key(), false), (rent_sysvar_id(), false), (system_program_id(), false)]
}

fn configure_payload(admin: [u8; 32]) -> Vec<u8> {
    AppInstruction::Configure(ConfigureArgs { authority: Address::new(admin) }).pack().unwrap()
}

fn collection_args(creators: usize) -> AddCollectionArgs {
    AddCollectionArgs {
        max_supply: 9999,
        collection_mint: Address::new(COLLECTION_MINT),
        admin: Address::new(ADMIN),
        pda_creator: Address::new([0; 32]),
        creators: (0..creators).map(|i| Creator { address: Address::new([40 + i as u8; 32]), verified: false, share: 25 }).collect(),
        fee: 500,
        name: "Club".to_string(),
        symbol: "CLB".to_string(),
        uri: "https://club/1.json".to_string(),
    }
}

fn add_collection_keys() -> Vec<(Address, bool)> {
    vec![
        (Address::new(ADMIN), true),
        (config_key(), false),
        (Address::new(COLLECTION_MINT), false),
        (pda_creator_key(), false),
        (collection_key(), false),
        (rent_sysvar_id(), false),
        (system_program_id(), false),
    ]
}

fn add_promotion_keys() -> Vec<(Address, bool)> {
    vec![
        (Address::new(ADMIN), true),
        (config_key(), false),
        (Address::new(COLLECTION_MINT), false),
        (collection_key(), false),
        (promotion_key(), false),
        (rent_sysvar_id(), false),
        (system_program_id(), false),
    ]
}

fn promotion_payload() -> Vec<u8> {
    AppInstruction::AddPromotion(AddPromotionArgs {
        sale_price: PRICE,
        public_start_ts: START,
        collection: Address::new([0; 32]),
        char_addr: Address::new(TREASURY),
    })
    .pack()
    .unwrap()
}

fn mint_keys(buyer: [u8; 32], treasury: [u8; 32]) -> Vec<(Address, bool)> {
    vec![
        (Address::new(buyer), true),
        (pda_creator_key(), false),
        (Address::new([20; 32]), true),
        (Address::new([21; 32]), false),
        (Address::new([22; 32]), false),
        (Address::new([23; 32]), false),
        (Address::new(COLLECTION_MINT), false),
        (Address::new([24; 32]), false),
        (Address::new([25; 32]), false),
        (Address::new([26; 32]), false),
        (promotion_key(), false),
        (collection_key(), false),
        (Address::new(treasury), false),
        (user_key(buyer), false),
        (metadata_program_id(), false),
        (token_program_id(), false),
        (rent_sysvar_id(), false),
        (system_program_id(), false),
    ]
}

/// Configure, AddCollection and AddPromotion, all by the admin.
fn set_up() -> Ledger {
    let mut l = Ledger::new();
    l.run(&configure_keys(ADMIN), &configure_payload(ADMIN), 0).unwrap();
    let payload = AppInstruction::AddCollection(collection_args(2)).pack().unwrap();
    l.run(&add_collection_keys(), &payload, 0).unwrap();
    l.run(&add_promotion_keys(), &promotion_payload(), 0).unwrap();
    l
}

fn mint_payload() -> Vec<u8> {
    AppInstruction::Mint.pack().unwrap()
}

#[test]
fn end_to_end_sale() {
    let mut l = set_up();
    let collection = decode_collection(&l.data(collection_key())).unwrap();
    assert_eq!(collection.max_supply, 0);
    assert_eq!(collection.admin, Address::new(ADMIN));
    assert_eq!(collection.pda_creator, pda_creator_key());

    let effects = l.run(&mint_keys(BUYER, TREASURY), &mint_payload(), START).unwrap();
    assert_eq!(l.transfers, vec![(Address::new(BUYER), Address::new(TREASURY), PRICE)]);
    assert!(matches!(effects[0], Effect::Transfer { from: 0, to: 12, lamports: PRICE }));
    assert_eq!(decode_user(&l.data(user_key(BUYER))).unwrap().minted, 1);
    assert_eq!(decode_collection(&l.data(collection_key())).unwrap().max_supply, 1);
}

#[test]
fn sale_plan_is_signed_by_the_collection_authority() {
    let mut l = set_up();
    let effects = l.run(&mint_keys(BUYER, TREASURY), &mint_payload(), START + 5).unwrap();
    assert_eq!(effects.len(), 8);
    match &effects[1] {
        Effect::CreateMetadata { update_authority, creators, collection, signer_seeds, name, fee, .. } => {
            assert_eq!(*update_authority, 1);
            assert_eq!(creators.len(), 3);
            assert_eq!(creators[0], Creator { address: pda_creator_key(), verified: true, share: 0 });
            assert_eq!(creators[1].address, Address::new([40; 32]));
            assert_eq!(*collection, Some(Address::new(COLLECTION_MINT)));
            assert_eq!(signer_seeds.len(), 4);
            assert_eq!(signer_seeds[2], b"pda_creator".to_vec());
            assert_eq!(name, "Club");
            assert_eq!(*fee, 500);
        }
        other => panic!("unexpected {:?}", other),
    }
    assert!(matches!(effects[2], Effect::CreateMasterEdition { edition: 5, mint: 2, update_authority: 1, metadata: 4, .. }));
    assert!(matches!(effects[3], Effect::VerifyCollection { metadata: 4, collection_authority: 1, collection_mint: 6, .. }));
    assert!(matches!(effects[4], Effect::Burn { account: 3, mint: 2, owner: 0, amount: 1 }));
    assert!(matches!(effects[5], Effect::Allocate { account: 13, space: 2, .. }));
}

#[test]
fn supply_counts_each_sale() {
    let mut l = set_up();
    for n in 1..=3u64 {
        l.run(&mint_keys(BUYER, TREASURY), &mint_payload(), START + n).unwrap();
        assert_eq!(decode_collection(&l.data(collection_key())).unwrap().max_supply, n);
    }
    assert_eq!(decode_user(&l.data(user_key(BUYER))).unwrap().minted, 3);
    let other = [15u8; 32];
    l.run(&mint_keys(other, TREASURY), &mint_payload(), START).unwrap();
    assert_eq!(decode_user(&l.data(user_key(other))).unwrap().minted, 1);
    assert_eq!(decode_collection(&l.data(collection_key())).unwrap().max_supply, 4);
}

#[test]
fn sold_out_at_the_ceiling() {
    let mut l = set_up();
    let mut c = decode_collection(&l.data(collection_key())).unwrap();
    c.max_supply = MAX_SUPPLY - 1;
    let bytes = encode_collection(&c);
    l.slots.get_mut(&collection_key().bytes).unwrap().1[..bytes.len()].copy_from_slice(&bytes);
    l.run(&mint_keys(BUYER, TREASURY), &mint_payload(), START).unwrap();
    assert_eq!(decode_collection(&l.data(collection_key())).unwrap().max_supply, MAX_SUPPLY);
    let r = l.run(&mint_keys(BUYER, TREASURY), &mint_payload(), START);
    assert!(matches!(r, Err(AppError::SoldOut)));
    assert_eq!(decode_collection(&l.data(collection_key())).unwrap().max_supply, MAX_SUPPLY);
    assert_eq!(l.transfers.len(), 1);
}

#[test]
fn sale_not_open_before_start() {
    let mut l = set_up();
    let r = l.run(&mint_keys(BUYER, TREASURY), &mint_payload(), START - 1);
    assert!(matches!(r, Err(AppError::SaleNotOpen)));
    assert!(l.transfers.is_empty());
    assert!(l.data(user_key(BUYER)).is_empty());
    assert_eq!(decode_collection(&l.data(collection_key())).unwrap().max_supply, 0);
}

#[test]
fn wrong_treasury_is_refused() {
    let mut l = set_up();
    let r = l.run(&mint_keys(BUYER, [99; 32]), &mint_payload(), START);
    assert!(matches!(r, Err(AppError::InvalidTreasury)));
}

#[test]
fn configure_rotates_admin_and_gates_authority() {
    let mut l = Ledger::new();
    let first = l.run(&configure_keys(ADMIN), &configure_payload(ADMIN), 0).unwrap();
    assert!(matches!(first[0], Effect::Allocate { account: 1, space: 32, .. }));
    // a second call by the admin takes the update path: no allocation
    let second = l.run(&configure_keys(ADMIN), &configure_payload(BUYER), 0).unwrap();
    assert_eq!(second.len(), 1);
    assert!(matches!(second[0], Effect::Write { account: 1, .. }));
    assert_eq!(decode_config(&l.data(config_key())).unwrap().authority, Address::new(BUYER));
    // the old admin is now refused and the record stays
    let r = l.run(&configure_keys(ADMIN), &configure_payload(ADMIN), 0);
    assert!(matches!(r, Err(AppError::InvalidAuthority)));
    assert_eq!(decode_config(&l.data(config_key())).unwrap().authority, Address::new(BUYER));
}

#[test]
fn re_adding_a_collection_keeps_its_counter() {
    let mut l = set_up();
    l.run(&mint_keys(BUYER, TREASURY), &mint_payload(), START).unwrap();
    let mut args = collection_args(1);
    args.name = "Renamed".to_string();
    let effects = l.run(&add_collection_keys(), &AppInstruction::AddCollection(args).pack().unwrap(), 0).unwrap();
    assert_eq!(effects.len(), 1);
    let c = decode_collection(&l.data(collection_key())).unwrap();
    assert_eq!((c.max_supply, c.name.as_str(), c.creators.len()), (1, "Renamed", 1));
}

#[test]
fn re_adding_a_promotion_overwrites_it() {
    let mut l = set_up();
    let payload = AppInstruction::AddPromotion(AddPromotionArgs {
        sale_price: 9,
        public_start_ts: 5,
        collection: Address::new([0; 32]),
        char_addr: Address::new(TREASURY),
    })
    .pack()
    .unwrap();
    let effects = l.run(&add_promotion_keys(), &payload, 0).unwrap();
    assert_eq!(effects.len(), 1);
    l.run(&mint_keys(BUYER, TREASURY), &mint_payload(), 5).unwrap();
    assert_eq!(l.transfers, vec![(Address::new(BUYER), Address::new(TREASURY), 9)]);
}

#[test]
fn only_the_admin_adds_collections() {
    let mut l = set_up();
    let mut keys = add_collection_keys();
    keys[0] = (Address::new(BUYER), true);
    let r = l.run(&keys, &AppInstruction::AddCollection(collection_args(0)).pack().unwrap(), 0);
    assert!(matches!(r, Err(AppError::InvalidAuthority)));
}

#[test]
fn creator_list_and_slot_size_are_bounded() {
    let mut l = set_up();
    let r = l.run(&add_collection_keys(), &AppInstruction::AddCollection(collection_args(5)).pack().unwrap(), 0);
    assert!(matches!(r, Err(AppError::TooManyCreators)));
    let mut args = collection_args(4);
    args.uri = "u".repeat(300);
    let r = l.run(&add_collection_keys(), &AppInstruction::AddCollection(args).pack().unwrap(), 0);
    assert!(matches!(r, Err(AppError::AccountDataTooSmall)));
}

#[test]
fn account_shape_errors() {
    let mut l = set_up();
    // too few accounts
    let keys = configure_keys(ADMIN);
    assert!(matches!(l.run(&keys[..3], &configure_payload(ADMIN), 0), Err(AppError::NotEnoughAccountKeys)));
    // a substituted service identity
    let mut keys = configure_keys(ADMIN);
    keys[2] = (Address::new([1; 32]), false);
    assert!(matches!(l.run(&keys, &configure_payload(ADMIN), 0), Err(AppError::IncorrectProgramId)));
    // a missing signature
    let mut keys = configure_keys(ADMIN);
    keys[0].1 = false;
    assert!(matches!(l.run(&keys, &configure_payload(ADMIN), 0), Err(AppError::MissingRequiredSignature)));
    // an address that is not the derived one
    let mut keys = configure_keys(ADMIN);
    keys[1] = (Address::new([2; 32]), false);
    assert!(matches!(l.run(&keys, &configure_payload(ADMIN), 0), Err(AppError::InvalidSeeds)));
    // a slot of the wrong length
    l.slots.get_mut(&config_key().bytes).unwrap().1.push(0);
    assert!(matches!(l.run(&configure_keys(ADMIN), &configure_payload(ADMIN), 0), Err(AppError::InvalidAccountData)));
    // a slot that this program does not own
    let slot = l.slots.get_mut(&config_key().bytes).unwrap();
    slot.1.pop();
    slot.0 = Address::new([3; 32]);
    assert!(matches!(l.run(&configure_keys(ADMIN), &configure_payload(ADMIN), 0), Err(AppError::IllegalOwner)));
    // a payload that does not decode
    assert!(matches!(l.run(&configure_keys(ADMIN), &[9, 9], 0), Err(AppError::InvalidInstructionData)));
}

#[test]
fn user_counter_overflow_is_refused() {
    let mut l = set_up();
    l.slots.insert(user_key(BUYER).bytes, (Address::new(PROGRAM), vec![0xff, 0xff]));
    let r = l.run(&mint_keys(BUYER, TREASURY), &mint_payload(), START);
    assert!(matches!(r, Err(AppError::ArithmeticOverflow)));
}

fn create_collection_keys() -> Vec<(Address, bool)> {
    vec![
        (Address::new(ADMIN), true),
        (Address::new(COLLECTION_MINT), true),
        (pda_creator_key(), false),
        (Address::new([26; 32]), false),
        (Address::new([24; 32]), false),
        (Address::new([25; 32]), false),
        (metadata_program_id(), false),
        (token_program_id(), false),
        (rent_sysvar_id(), false),
        (system_program_id(), false),
    ]
}

#[test]
fn create_and_approve_collection_plan() {
    let mut l = Ledger::new();
    let args = CreateCollectionArgs { fee: 300, name: "Club".to_string(), symbol: "CLB".to_string(), uri: "u".to_string() };
    let payload = AppInstruction::CreateAndApproveCollection(args).pack().unwrap();
    let effects = l.run(&create_collection_keys(), &payload, 0).unwrap();
    assert_eq!(effects.len(), 3);
    match &effects[0] {
        Effect::CreateMetadata { creators, collection, signer_seeds, fee, update_authority, .. } => {
            assert_eq!(creators, &vec![Creator { address: Address::new(ADMIN), verified: true, share: 100 }]);
            assert!(collection.is_none());
            assert!(signer_seeds.is_empty());
            assert_eq!((*fee, *update_authority), (300, 0));
        }
        other => panic!("unexpected {:?}", other),
    }
    assert!(matches!(effects[1], Effect::CreateMasterEdition { edition: 5, mint: 1, .. }));
    assert!(matches!(effects[2], Effect::ApproveCollectionAuthority { record: 3, new_authority: 2, metadata: 4, mint: 1 }));

    let mut keys: Vec<(Address, bool)> = create_collection_keys();
    keys.remove(5);
    let effects = l.run(&keys, &AppInstruction::ApproveCollection.pack().unwrap(), 0).unwrap();
    assert_eq!(effects.len(), 1);
    let mut keys = create_collection_keys();
    keys[6] = (Address::new([1; 32]), false);
    assert!(matches!(l.run(&keys, &payload, 0), Err(AppError::IncorrectProgramId)));
}

fn token_keys(signer: [u8; 32]) -> Vec<(Address, bool)> {
    let mint = [30u8; 32];
    vec![
        (Address::new(signer), true),
        (derive(&[&PROGRAM, &mint, b"config"]), false),
        (Address::new(mint), false),
        (derive(&[&PROGRAM, &mint, b"mint_vault"]), false),
        (derive(&[&PROGRAM, &mint, b"mint_auth"]), false),
        (Address::new([31; 32]), false),
        (metadata_program_id(), false),
        (token_program_id(), false),
        (rent_sysvar_id(), false),
        (system_program_id(), false),
    ]
}

#[test]
fn create_token_then_update_by_creator_only() {
    let mut l = Ledger::new();
    let args = CreateTokenArgs { decimals: 6, name: "Gold".to_string(), symbol: "GLD".to_string(), uri: "g".to_string() };
    let payload = AppInstruction::CreateToken(args).pack().unwrap();
    let effects = l.run(&token_keys(ADMIN), &payload, 0).unwrap();
    assert_eq!(effects.len(), 5);
    assert!(matches!(effects[0], Effect::Allocate { account: 1, space: 115, .. }));
    assert!(matches!(effects[1], Effect::CreateMint { mint: 2, authority: 4, decimals: 6 }));
    assert!(matches!(effects[2], Effect::CreateVault { vault: 3, mint: 2, owner: 4, .. }));
    assert!(matches!(effects[3], Effect::CreateMetadata { metadata: 5, mint: 2, fee: 0, .. }));

    let args = CreateTokenArgs { decimals: 2, name: "Silver".to_string(), symbol: "SLV".to_string(), uri: "s".to_string() };
    let payload = AppInstruction::CreateToken(args).pack().unwrap();
    let effects = l.run(&token_keys(ADMIN), &payload, 0).unwrap();
    assert_eq!(effects.len(), 1);
    let r = l.run(&token_keys(BUYER), &payload, 0);
    assert!(matches!(r, Err(AppError::InvalidAuthority)));
    let long = CreateTokenArgs { decimals: 2, name: "n".repeat(40), symbol: "s".repeat(10), uri: String::new() };
    let r = l.run(&token_keys(ADMIN), &AppInstruction::CreateToken(long).pack().unwrap(), 0);
    assert!(matches!(r, Err(AppError::AccountDataTooSmall)));
}

#[test]
fn collection_slot_length_is_fixed() {
    assert_eq!(CollectionData::LEN, 487);
}
