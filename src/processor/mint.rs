//! `Mint`: sells one NFT of a collection under its promotion's rules.
use vstd::prelude::*;

use crate::address::{
    assert_derivation, collection_seeds, derivation_check, make_collection_seeds, make_pda_creator_seeds,
    make_promotion_seeds, make_user_seeds, pda_creator_seeds, promotion_seeds, push_bump, user_seeds,
    with_bump, Address,
};
use crate::error::AppError;
use crate::processor::approve_collection::{assert_services, services_pinned};
use crate::processor::{
    write_into, zeroed, assert_owned_by, assert_signer, effects_view, outcome_view, Effect, EffectModel, LedgerAccount,
};
use crate::state::{
    collection_bytes, creators_view, encode_collection, encode_user, lemma_collection_at, lemma_user_round_trip, lemma_collection_parsed, parse_collection, parse_promotion, parse_user, user_bytes,
    CollectionData, CollectionModel, Creator, CreatorModel, PromotionData, UserData, MAX_SUPPLY,
};

verus! {

/// The Collection record after one more sale.
pub open spec fn after_sale(c: CollectionModel) -> CollectionModel {
    CollectionModel { max_supply: (c.max_supply + 1) as u64, ..c }
}

/// The creator list of a minted NFT: the collection's minting authority first,
/// verified with no share, then the collection's own creators unchanged.
pub open spec fn nft_creators(pda: Seq<u8>, c: CollectionModel) -> Seq<CreatorModel> {
    seq![CreatorModel { address: pda, verified: true, share: 0 }] + c.creators
}

/// The counter of the signer's User record before the sale: zero for an empty slot.
pub open spec fn minted_before(accs: Seq<LedgerAccount>) -> u16 {
    if accs[13].data@.len() == 0 {
        0
    } else {
        parse_user(accs[13].data@).unwrap()
    }
}

/// The plan of a sale, in order: payment to the treasury; the NFT's metadata,
/// master edition and collection verification, signed by the collection's
/// minting authority; the burn of the buyer's ticket token; the User record
/// (allocated when empty) and the Collection record, each counting one more.
pub open spec fn mint_plan(program: Seq<u8>, accs: Seq<LedgerAccount>, price: u64, c: CollectionModel) -> Seq<EffectModel> {
    let pda_bump = derivation_check(program, accs[1].key@, pda_creator_seeds(program, accs[6].key@)).unwrap();
    let signer_seeds = with_bump(pda_creator_seeds(program, accs[6].key@), pda_bump);
    let user_bump = derivation_check(program, accs[13].key@, user_seeds(program, accs[0].key@)).unwrap();
    let calls = seq![
        EffectModel::Transfer { from: 0, to: 12, lamports: price },
        EffectModel::CreateMetadata {
            metadata: 4,
            mint: 2,
            update_authority: 1,
            name: c.name,
            symbol: c.symbol,
            uri: c.uri,
            fee: c.fee,
            creators: nft_creators(accs[1].key@, c),
            collection: Some(accs[6].key@),
            signer_seeds,
        },
        EffectModel::CreateMasterEdition { edition: 5, mint: 2, update_authority: 1, metadata: 4, signer_seeds },
        EffectModel::VerifyCollection {
            metadata: 4,
            collection_authority: 1,
            collection_mint: 6,
            collection_metadata: 7,
            collection_master_edition: 8,
            authority_record: 9,
            signer_seeds,
        },
        EffectModel::Burn { account: 3, mint: 2, owner: 0, amount: 1 },
    ];
    let alloc = if accs[13].data@.len() == 0 {
        seq![
            EffectModel::Allocate {
                account: 13,
                space: UserData::LEN as nat,
                seeds: with_bump(user_seeds(program, accs[0].key@), user_bump),
            },
        ]
    } else {
        seq![]
    };
    calls + alloc + seq![
        EffectModel::Write { account: 13, data: user_bytes((minted_before(accs) + 1) as u16) },
        EffectModel::Write { account: 11, data: collection_bytes(after_sale(c)) },
    ]
}

/// What `Mint` does at ledger time `now`. Accounts: signer (buyer), the
/// collection's minting authority, NFT mint, buyer's token account, NFT
/// metadata, NFT master edition, collection mint, collection metadata,
/// collection master edition, authority record, Promotion, Collection,
/// treasury, User slot, metadata service, token service, rent sysvar, system
/// program.
pub open spec fn mint_outcome(program: Seq<u8>, accs: Seq<LedgerAccount>, now: u64) -> Result<Seq<EffectModel>, AppError> {
    if accs.len() < 18 {
        Err(AppError::NotEnoughAccountKeys)
    } else if !services_pinned(accs, 14) {
        Err(AppError::IncorrectProgramId)
    } else if !accs[0].is_signer {
        Err(AppError::MissingRequiredSignature)
    } else if derivation_check(program, accs[11].key@, collection_seeds(program, accs[6].key@)) is Err {
        Err(AppError::InvalidSeeds)
    } else if derivation_check(program, accs[10].key@, promotion_seeds(program, accs[11].key@)) is Err {
        Err(AppError::InvalidSeeds)
    } else if accs[10].owner@ != program || accs[11].owner@ != program {
        Err(AppError::IllegalOwner)
    } else if parse_promotion(accs[10].data@) is None || parse_collection(accs[11].data@) is None {
        Err(AppError::InvalidAccountData)
    } else {
        let pro = parse_promotion(accs[10].data@).unwrap();
        let c = parse_collection(accs[11].data@).unwrap();
        if accs[12].key@ != pro.char_addr {
            Err(AppError::InvalidTreasury)
        } else if derivation_check(program, accs[13].key@, user_seeds(program, accs[0].key@)) is Err {
            Err(AppError::InvalidSeeds)
        } else if now < pro.public_start_ts {
            Err(AppError::SaleNotOpen)
        } else if c.max_supply >= MAX_SUPPLY {
            Err(AppError::SoldOut)
        } else if derivation_check(program, accs[1].key@, pda_creator_seeds(program, accs[6].key@)) is Err {
            Err(AppError::InvalidSeeds)
        } else if accs[13].data@.len() != 0 && accs[13].owner@ != program {
            Err(AppError::IllegalOwner)
        } else if accs[13].data@.len() != 0 && parse_user(accs[13].data@) is None {
            Err(AppError::InvalidAccountData)
        } else if minted_before(accs) == u16::MAX {
            Err(AppError::ArithmeticOverflow)
        } else {
            Ok(mint_plan(program, accs, pro.sale_price, c))
        }
    }
}

#[verifier::spinoff_prover]
#[verifier::rlimit(50)]
pub fn process_mint(program_id: &Address, accounts: &[LedgerAccount], now: u64) -> (r: Result<Vec<Effect>, AppError>)
    ensures
        outcome_view(r) == mint_outcome(program_id@, accounts@, now),
{
    if accounts.len() < 18 {
        return Err(AppError::NotEnoughAccountKeys);
    }
    let signer_info = &accounts[0];
    let pda_creator_info = &accounts[1];
    let collection_mint = &accounts[6];
    let promotion_info = &accounts[10];
    let collection_info = &accounts[11];
    let charge_info = &accounts[12];
    let user_info = &accounts[13];
    assert_services(accounts, 14)?;
    assert_signer(signer_info)?;
    assert_derivation(program_id, &collection_info.key, &make_collection_seeds(program_id, &collection_mint.key))?;
    assert_derivation(program_id, &promotion_info.key, &make_promotion_seeds(program_id, &collection_info.key))?;
    assert_owned_by(promotion_info, program_id)?;
    assert_owned_by(collection_info, program_id)?;

    let pro_data = PromotionData::from_account_info(promotion_info)?;
    let mut collection_data = CollectionData::from_account_info(collection_info)?;
    let ghost c = collection_data@;
    proof {
        lemma_collection_parsed(collection_info.data@, 0);
    }
    if charge_info.key != pro_data.char_addr {
        return Err(AppError::InvalidTreasury);
    }
    let user_seed_list = make_user_seeds(program_id, &signer_info.key);
    let user_bump = assert_derivation(program_id, &user_info.key, &user_seed_list)?;

    // the sale window and the supply ceiling
    if now < pro_data.public_start_ts {
        return Err(AppError::SaleNotOpen);
    }
    if collection_data.max_supply >= MAX_SUPPLY {
        return Err(AppError::SoldOut);
    }

    let pda_seeds = make_pda_creator_seeds(program_id, &collection_mint.key);
    let pda_bump = assert_derivation(program_id, &pda_creator_info.key, &pda_seeds)?;

    let fresh = user_info.data.len() == 0;
    let minted: u16 = if fresh {
        0
    } else {
        assert_owned_by(user_info, program_id)?;
        UserData::from_account_info(user_info)?.minted
    };
    if minted == u16::MAX {
        return Err(AppError::ArithmeticOverflow);
    }
    let user_record = encode_user(&UserData { minted: minted + 1 });

    collection_data.max_supply = collection_data.max_supply + 1;
    assert(collection_data@ == after_sale(c));
    let collection_record = encode_collection(&collection_data);

    let mut creators: Vec<Creator> = vec![Creator { address: pda_creator_info.key, verified: true, share: 0 }];
    let mut i: usize = 0;
    while i < collection_data.creators.len()
        invariant
            0 <= i <= collection_data.creators@.len(),
            creators_view(collection_data.creators@) == c.creators,
            creators_view(creators@) == nft_creators(pda_creator_info.key@, c).subrange(0, i + 1),
        decreases collection_data.creators@.len() - i,
    {
        let item = collection_data.creators[i];
        let ghost prev = creators@;
        creators.push(item);
        proof {
            assert(item@ == c.creators[i as int]);
            assert(nft_creators(pda_creator_info.key@, c)[i + 1] == c.creators[i as int]);
            assert(creators_view(creators@) =~= creators_view(prev).push(item@));
        }
        i = i + 1;
        assert(creators_view(creators@) =~= nft_creators(pda_creator_info.key@, c).subrange(0, i + 1));
    }
    assert(nft_creators(pda_creator_info.key@, c).subrange(0, i + 1) =~= nft_creators(pda_creator_info.key@, c));

    let mut effects: Vec<Effect> = vec![
        Effect::Transfer { from: 0, to: 12, lamports: pro_data.sale_price },
        Effect::CreateMetadata {
            metadata: 4,
            mint: 2,
            update_authority: 1,
            name: collection_data.name,
            symbol: collection_data.symbol,
            uri: collection_data.uri,
            fee: collection_data.fee,
            creators,
            collection: Some(collection_mint.key),
            signer_seeds: push_bump(&pda_seeds, pda_bump),
        },
        Effect::CreateMasterEdition {
            edition: 5,
            mint: 2,
            update_authority: 1,
            metadata: 4,
            signer_seeds: push_bump(&pda_seeds, pda_bump),
        },
        Effect::VerifyCollection {
            metadata: 4,
            collection_authority: 1,
            collection_mint: 6,
            collection_metadata: 7,
            collection_master_edition: 8,
            authority_record: 9,
            signer_seeds: push_bump(&pda_seeds, pda_bump),
        },
        Effect::Burn { account: 3, mint: 2, owner: 0, amount: 1 },
    ];
    if fresh {
        effects.push(Effect::Allocate { account: 13, space: UserData::LEN, seeds: push_bump(&user_seed_list, user_bump) });
    }
    effects.push(Effect::Write { account: 13, data: user_record });
    effects.push(Effect::Write { account: 11, data: collection_record });
    proof {
        let plan = mint_plan(program_id@, accounts@, pro_data.sale_price, c);
        let ev = effects_view(effects@);
        assert(minted_before(accounts@) == minted);
        assert(ev.len() == plan.len());
        assert(ev[0] == plan[0]);
        assert(ev[1] == plan[1]);
        assert(ev[2] == plan[2]);
        assert(ev[3] == plan[3]);
        assert(ev[4] == plan[4]);
        if fresh {
            assert(ev[5] == plan[5]);
        }
        assert(ev[ev.len() - 2] == plan[plan.len() - 2]);
        assert(ev[ev.len() - 1] == plan[plan.len() - 1]);
        assert(ev =~= plan);
    }
    Ok(effects)
}

/// The checks of a sale that come before the sale window: accounts, services,
/// signature, derivations, ownership, record formats, treasury, and the
/// buyer's User address.
pub open spec fn sale_prechecks_pass(program: Seq<u8>, accs: Seq<LedgerAccount>) -> bool {
    &&& accs.len() >= 18
    &&& services_pinned(accs, 14)
    &&& accs[0].is_signer
    &&& derivation_check(program, accs[11].key@, collection_seeds(program, accs[6].key@)) is Ok
    &&& derivation_check(program, accs[10].key@, promotion_seeds(program, accs[11].key@)) is Ok
    &&& accs[10].owner@ == program && accs[11].owner@ == program
    &&& parse_promotion(accs[10].data@) is Some
    &&& parse_collection(accs[11].data@) is Some
    &&& accs[12].key@ == parse_promotion(accs[10].data@).unwrap().char_addr
    &&& derivation_check(program, accs[13].key@, user_seeds(program, accs[0].key@)) is Ok
}

/// Before the promotion's public start time a sale is refused with
/// `SaleNotOpen` once the earlier checks pass, and never goes through: no
/// value moves and no service is called.
pub proof fn lemma_sale_window(program: Seq<u8>, accs: Seq<LedgerAccount>, now: u64)
    requires
        accs.len() >= 18,
        parse_promotion(accs[10].data@) is Some,
        now < parse_promotion(accs[10].data@).unwrap().public_start_ts,
    ensures
        mint_outcome(program, accs, now) is Err,
        sale_prechecks_pass(program, accs) ==> mint_outcome(program, accs, now) == Err::<Seq<EffectModel>, AppError>(
            AppError::SaleNotOpen,
        ),
{
}

/// At the supply ceiling a sale is refused with `SoldOut` once the earlier
/// checks pass and the sale window is open, and never goes through, so the
/// counter stays at the ceiling.
pub proof fn lemma_sold_out(program: Seq<u8>, accs: Seq<LedgerAccount>, now: u64)
    requires
        accs.len() >= 18,
        parse_collection(accs[11].data@) is Some,
        parse_collection(accs[11].data@).unwrap().max_supply >= MAX_SUPPLY,
    ensures
        mint_outcome(program, accs, now) is Err,
        sale_prechecks_pass(program, accs) && now >= parse_promotion(accs[10].data@).unwrap().public_start_ts
            ==> mint_outcome(program, accs, now) == Err::<Seq<EffectModel>, AppError>(AppError::SoldOut),
{
}

/// The Collection slot after a sale: the plan's last write applied to it.
pub open spec fn collection_after(program: Seq<u8>, accs: Seq<LedgerAccount>, now: u64) -> Seq<u8> {
    match mint_outcome(program, accs, now) {
        Ok(effs) => match effs.last() {
            EffectModel::Write { data, .. } => write_into(accs[11].data@, data),
            _ => accs[11].data@,
        },
        Err(_) => accs[11].data@,
    }
}

/// The buyer's User slot after a sale: allocated when it was empty, then the
/// plan's write to it applied.
pub open spec fn user_after(program: Seq<u8>, accs: Seq<LedgerAccount>, now: u64) -> Seq<u8> {
    let before = if accs[13].data@.len() == 0 {
        zeroed(UserData::LEN as nat)
    } else {
        accs[13].data@
    };
    match mint_outcome(program, accs, now) {
        Ok(effs) => match effs[effs.len() - 2] {
            EffectModel::Write { data, .. } => write_into(before, data),
            _ => accs[13].data@,
        },
        Err(_) => accs[13].data@,
    }
}

/// A sale that goes through leaves a Collection record that reads back as
/// the old one with its counter one higher, below the ceiling, and a User
/// record whose counter is one higher than before (one for a new buyer).
pub proof fn lemma_sale_counts_one(program: Seq<u8>, accs: Seq<LedgerAccount>, now: u64)
    requires
        mint_outcome(program, accs, now) is Ok,
    ensures
        parse_collection(accs[11].data@) is Some,
        parse_collection(accs[11].data@).unwrap().max_supply < MAX_SUPPLY,
        parse_collection(collection_after(program, accs, now)) == Some(
            after_sale(parse_collection(accs[11].data@).unwrap()),
        ),
        parse_user(user_after(program, accs, now)) == Some((minted_before(accs) + 1) as u16),
{
    lemma_mint_ok(program, accs, now);
    lemma_collection_rewrite(accs[11].data@);
    lemma_sale_counts_user(program, accs, now);
}

proof fn lemma_mint_ok(program: Seq<u8>, accs: Seq<LedgerAccount>, now: u64)
    requires
        mint_outcome(program, accs, now) is Ok,
    ensures
        parse_collection(accs[11].data@) is Some,
        parse_collection(accs[11].data@).unwrap().max_supply < MAX_SUPPLY,
        mint_outcome(program, accs, now).unwrap().last() == (EffectModel::Write {
            account: 11,
            data: collection_bytes(after_sale(parse_collection(accs[11].data@).unwrap())),
        }),
{
}

/// Writing back a Collection with its counter one higher, over the slot it
/// was read from, reads back as that Collection.
proof fn lemma_collection_rewrite(b: Seq<u8>)
    requires
        parse_collection(b) is Some,
        parse_collection(b).unwrap().max_supply < MAX_SUPPLY,
    ensures
        parse_collection(write_into(b, collection_bytes(after_sale(parse_collection(b).unwrap())))) == Some(
            after_sale(parse_collection(b).unwrap()),
        ),
{
    let c = parse_collection(b).unwrap();
    let c2 = after_sale(c);
    lemma_collection_parsed(b, 0);
    let d = collection_bytes(c2);
    assert(d.len() == collection_bytes(c).len());
    let suffix = b.subrange(d.len() as int, b.len() as int);
    lemma_collection_at(c2, Seq::<u8>::empty(), suffix);
    assert(Seq::<u8>::empty() + d + suffix =~= write_into(b, d));
}

proof fn lemma_sale_counts_user(program: Seq<u8>, accs: Seq<LedgerAccount>, now: u64)
    requires
        mint_outcome(program, accs, now) is Ok,
    ensures
        parse_user(user_after(program, accs, now)) == Some((minted_before(accs) + 1) as u16),
{
    let effs = mint_outcome(program, accs, now).unwrap();
    let u = user_bytes((minted_before(accs) + 1) as u16);
    assert(effs[effs.len() - 2] == EffectModel::Write { account: 13, data: u });
    let before = if accs[13].data@.len() == 0 {
        zeroed(UserData::LEN as nat)
    } else {
        accs[13].data@
    };
    assert(write_into(before, u) =~= u);
    lemma_user_round_trip((minted_before(accs) + 1) as u16);
}

/// Sales count exactly: along a run of sales that all go through, each on the
/// Collection slot that the previous one left, the counter grows by one per
/// sale, so a fresh collection (counter zero) stands at N after N sales.
pub proof fn lemma_supply_counts_sales(program: Seq<u8>, runs: Seq<Seq<LedgerAccount>>, times: Seq<u64>)
    requires
        runs.len() > 0,
        times.len() == runs.len(),
        forall|i: int| 0 <= i < runs.len() ==> (#[trigger] mint_outcome(program, runs[i], times[i])) is Ok,
        forall|i: int|
            0 <= i < runs.len() - 1 ==> (#[trigger] runs[i + 1])[11].data@ == collection_after(program, runs[i], times[i]),
    ensures
        parse_collection(collection_after(program, runs.last(), times.last())) is Some,
        parse_collection(collection_after(program, runs.last(), times.last())).unwrap().max_supply
            == parse_collection(runs[0][11].data@).unwrap().max_supply + runs.len(),
    decreases runs.len(),
{
    let n = runs.len() - 1;
    assert(mint_outcome(program, runs[n], times[n]) is Ok);
    lemma_sale_counts_one(program, runs[n], times[n]);
    if n > 0 {
        let r2 = runs.drop_last();
        let t2 = times.drop_last();
        assert forall|i: int| 0 <= i < r2.len() implies (#[trigger] mint_outcome(program, r2[i], t2[i])) is Ok by {
            assert(r2[i] == runs[i] && t2[i] == times[i]);
            assert(mint_outcome(program, runs[i], times[i]) is Ok);
        }
        assert forall|i: int| 0 <= i < r2.len() - 1 implies (#[trigger] r2[i + 1])[11].data@ == collection_after(program, r2[i], t2[i]) by {
            assert(r2[i + 1] == runs[i + 1] && r2[i] == runs[i] && t2[i] == times[i]);
        }
        lemma_supply_counts_sales(program, r2, t2);
        assert(runs[n] == runs[n - 1 + 1]);
        assert(r2.last() == runs[n - 1] && t2.last() == times[n - 1]);
        assert(r2[0] == runs[0]);
    }
}

} // verus!
