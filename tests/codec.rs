use borsh::BorshSerialize;
use nft_issuance::address::Address;
use nft_issuance::error::AppError;
use nft_issuance::instruction::AppInstruction;
use nft_issuance::state::{
    decode_collection, decode_promotion, decode_token, decode_user, encode_collection, encode_promotion,
    encode_token, encode_user, AddCollectionArgs, AddPromotionArgs, CollectionData, ConfigureArgs,
    CreateCollectionArgs, CreateTokenArgs, Creator, TokenData, UserData,
};

fn sample_collection() -> AddCollectionArgs {
    AddCollectionArgs {
        max_supply: 7,
        collection_mint: Address::new([1; 32]),
        admin: Address::new([2; 32]),
        pda_creator: Address::new([3; 32]),
        creators: vec![Creator { address: Address::new([4; 32]), verified: false, share: 100 }],
        fee: 500,
        name: "Héllo".to_string(),
        symbol: "HLO".to_string(),
        uri: "https://x/y.json".to_string(),
    }
}

#[test]
fn promotion_payload_matches_borsh() {
    let args = AddPromotionArgs {
        sale_price: 1_000_000_007,
        public_start_ts: 1_700_000_000,
        collection: Address::new([5; 32]),
        char_addr: Address::new([6; 32]),
    };
    let ours = AppInstruction::AddPromotion(args).pack().unwrap();
    let theirs = (5u8, 1_000_000_007u64, 1_700_000_000u64, [5u8; 32], [6u8; 32]).try_to_vec().unwrap();
    assert_eq!(ours, theirs);
}

#[test]
fn collection_payload_matches_borsh() {
    let c = sample_collection();
    let ours = AppInstruction::AddCollection(c.clone()).pack().unwrap();
    let creators = vec![([4u8; 32], false, 100u8)];
    let theirs = (
        3u8,
        7u64,
        [1u8; 32],
        [2u8; 32],
        [3u8; 32],
        creators,
        500u16,
        "Héllo".to_string(),
        "HLO".to_string(),
        "https://x/y.json".to_string(),
    )
        .try_to_vec()
        .unwrap();
    assert_eq!(ours, theirs);
}

#[test]
fn text_payloads_match_borsh() {
    let cc = CreateCollectionArgs { fee: 250, name: "A".to_string(), symbol: "B".to_string(), uri: "C".to_string() };
    let ours = AppInstruction::CreateAndApproveCollection(cc).pack().unwrap();
    let theirs = (1u8, 250u16, "A".to_string(), "B".to_string(), "C".to_string()).try_to_vec().unwrap();
    assert_eq!(ours, theirs);
    let ct = CreateTokenArgs { decimals: 9, name: "Tok".to_string(), symbol: "T".to_string(), uri: "u".to_string() };
    let ours = AppInstruction::CreateToken(ct).pack().unwrap();
    let theirs = (6u8, 9u8, "Tok".to_string(), "T".to_string(), "u".to_string()).try_to_vec().unwrap();
    assert_eq!(ours, theirs);
    let ours = AppInstruction::Configure(ConfigureArgs { authority: Address::new([8; 32]) }).pack().unwrap();
    assert_eq!(ours, (0u8, [8u8; 32]).try_to_vec().unwrap());
    assert_eq!(AppInstruction::Mint.pack().unwrap(), vec![4u8]);
    assert_eq!(AppInstruction::ApproveCollection.pack().unwrap(), vec![2u8]);
}

#[test]
fn payloads_round_trip() {
    let c = sample_collection();
    let bytes = AppInstruction::AddCollection(c.clone()).pack().unwrap();
    match AppInstruction::unpack(&bytes).unwrap() {
        AppInstruction::AddCollection(d) => {
            assert_eq!(d.max_supply, 7);
            assert_eq!(d.name, "Héllo");
            assert_eq!(d.uri, c.uri);
            assert_eq!(d.creators, c.creators);
            assert_eq!(d.admin, c.admin);
        }
        other => panic!("decoded {:?}", other),
    }
    let ct = CreateTokenArgs { decimals: 2, name: "N".to_string(), symbol: "S".to_string(), uri: "U".to_string() };
    match AppInstruction::unpack(&AppInstruction::CreateToken(ct).pack().unwrap()).unwrap() {
        AppInstruction::CreateToken(d) => {
            assert_eq!(d.decimals, 2);
            assert_eq!((d.name.as_str(), d.symbol.as_str(), d.uri.as_str()), ("N", "S", "U"));
        }
        other => panic!("decoded {:?}", other),
    }
}

#[test]
fn malformed_payloads_are_refused() {
    assert!(matches!(AppInstruction::unpack(&[]), Err(AppError::InvalidInstructionData)));
    assert!(matches!(AppInstruction::unpack(&[7]), Err(AppError::InvalidInstructionData)));
    assert!(matches!(AppInstruction::unpack(&[4, 0]), Err(AppError::InvalidInstructionData)));
    assert!(matches!(AppInstruction::unpack(&[0, 1, 2]), Err(AppError::InvalidInstructionData)));
    // a string that is not UTF-8
    let bad = vec![1u8, 0, 0, 1, 0, 0, 0, 0xff, 0, 0, 0, 0, 0, 0, 0, 0];
    assert!(matches!(AppInstruction::unpack(&bad), Err(AppError::InvalidInstructionData)));
    // the same layout with valid text decodes
    let good = vec![1u8, 0, 0, 1, 0, 0, 0, b'a', 0, 0, 0, 0, 0, 0, 0, 0];
    assert!(AppInstruction::unpack(&good).is_ok());
}

#[test]
fn records_round_trip_in_their_slots() {
    let c = sample_collection();
    let mut slot = vec![0u8; CollectionData::LEN];
    let bytes = encode_collection(&c);
    slot[..bytes.len()].copy_from_slice(&bytes);
    let d = decode_collection(&slot).unwrap();
    assert_eq!(d.max_supply, 7);
    assert_eq!(d.symbol, "HLO");
    assert_eq!(decode_collection(&bytes).unwrap_err(), AppError::InvalidAccountData);

    let p = AddPromotionArgs { sale_price: 3, public_start_ts: 4, collection: Address::new([1; 32]), char_addr: Address::new([2; 32]) };
    let q = decode_promotion(&encode_promotion(&p)).unwrap();
    assert_eq!((q.sale_price, q.public_start_ts, q.char_addr), (3, 4, Address::new([2; 32])));

    assert_eq!(encode_user(&UserData { minted: 258 }), vec![2u8, 1]);
    assert_eq!(decode_user(&[2, 1]).unwrap(), UserData { minted: 258 });
    assert_eq!(decode_user(&[2, 1, 0]), Err(AppError::InvalidAccountData));

    let t = TokenData { creator: Address::new([1; 32]), decimals: 6, name: "Gold".to_string(), symbol: "GLD".to_string(), mint: Address::new([9; 32]) };
    let mut slot = vec![0u8; TokenData::LEN];
    let bytes = encode_token(&t);
    slot[..bytes.len()].copy_from_slice(&bytes);
    let u = decode_token(&slot).unwrap();
    assert_eq!((u.name.as_str(), u.symbol.as_str(), u.decimals, u.mint), ("Gold", "GLD", 6, Address::new([9; 32])));
}
