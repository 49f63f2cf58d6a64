//! `AddPromotion`: registers or rewrites the sale promotion of a collection.
use vstd::prelude::*;

use crate::address::{
    assert_derivation, collection_seeds, config_seeds, derivation_check, make_collection_seeds,
    make_config_seeds, make_promotion_seeds, promotion_seeds, push_bump, rent_sysvar_id, rent_sysvar_key,
    system_program_id, system_program_key, with_bump, Address,
};
use crate::error::AppError;
use crate::processor::{
    assert_eq_key, assert_owned_by, assert_signer, effects_view, outcome_view, Effect, EffectModel,
    LedgerAccount,
};
use crate::state::{
    encode_promotion, parse_collection, parse_config, parse_promotion, promotion_bytes, AddPromotionArgs,
    CollectionData, ConfigureData, PromotionData, PromotionModel,
};

verus! {

/// The record that `AddPromotion` writes: price, start time and treasury from
/// the bundle, the collection reference from the Collection record.
pub open spec fn new_promotion(args: PromotionModel, collection_mint: Seq<u8>) -> PromotionModel {
    PromotionModel {
        sale_price: args.sale_price,
        public_start_ts: args.public_start_ts,
        collection: collection_mint,
        char_addr: args.char_addr,
    }
}

/// What `AddPromotion` does. Accounts: signer, Configuration, collection
/// mint, Collection, Promotion slot, rent sysvar, system program. Only the
/// admin may call it; an empty Promotion slot is allocated.
pub open spec fn add_promotion_outcome(program: Seq<u8>, accs: Seq<LedgerAccount>, args: PromotionModel) -> Result<Seq<EffectModel>, AppError> {
    if accs.len() < 7 {
        Err(AppError::NotEnoughAccountKeys)
    } else if accs[5].key@ != rent_sysvar_key() || accs[6].key@ != system_program_key() {
        Err(AppError::IncorrectProgramId)
    } else if !accs[0].is_signer {
        Err(AppError::MissingRequiredSignature)
    } else if derivation_check(program, accs[3].key@, collection_seeds(program, accs[2].key@)) is Err {
        Err(AppError::InvalidSeeds)
    } else if derivation_check(program, accs[1].key@, config_seeds(program)) is Err {
        Err(AppError::InvalidSeeds)
    } else if parse_config(accs[1].data@) is None {
        Err(AppError::InvalidAccountData)
    } else if parse_config(accs[1].data@).unwrap() != accs[0].key@ {
        Err(AppError::InvalidAuthority)
    } else if accs[1].owner@ != program || accs[3].owner@ != program {
        Err(AppError::IllegalOwner)
    } else if parse_collection(accs[3].data@) is None {
        Err(AppError::InvalidAccountData)
    } else if derivation_check(program, accs[4].key@, promotion_seeds(program, accs[3].key@)) is Err {
        Err(AppError::InvalidSeeds)
    } else {
        let bump = derivation_check(program, accs[4].key@, promotion_seeds(program, accs[3].key@)).unwrap();
        let write = EffectModel::Write {
            account: 4,
            data: promotion_bytes(new_promotion(args, parse_collection(accs[3].data@).unwrap().collection_mint)),
        };
        if accs[4].data@.len() == 0 {
            Ok(
                seq![
                    EffectModel::Allocate {
                        account: 4,
                        space: PromotionData::LEN as nat,
                        seeds: with_bump(promotion_seeds(program, accs[3].key@), bump),
                    },
                    write,
                ],
            )
        } else if accs[4].owner@ != program {
            Err(AppError::IllegalOwner)
        } else if parse_promotion(accs[4].data@) is None {
            Err(AppError::InvalidAccountData)
        } else {
            Ok(seq![write])
        }
    }
}

pub fn process_add_promotion(program_id: &Address, accounts: &[LedgerAccount], args: AddPromotionArgs) -> (r: Result<Vec<Effect>, AppError>)
    ensures
        outcome_view(r) == add_promotion_outcome(program_id@, accounts@, args@),
{
    if accounts.len() < 7 {
        return Err(AppError::NotEnoughAccountKeys);
    }
    let signer_info = &accounts[0];
    let config_info = &accounts[1];
    let collection_mint = &accounts[2];
    let collection_info = &accounts[3];
    let promotion_info = &accounts[4];
    assert_eq_key(&accounts[5], &rent_sysvar_id())?;
    assert_eq_key(&accounts[6], &system_program_id())?;
    assert_signer(signer_info)?;
    assert_derivation(program_id, &collection_info.key, &make_collection_seeds(program_id, &collection_mint.key))?;
    assert_derivation(program_id, &config_info.key, &make_config_seeds(program_id))?;

    let config_data = ConfigureData::from_account_info(config_info)?;
    if config_data.authority != signer_info.key {
        return Err(AppError::InvalidAuthority);
    }
    assert_owned_by(config_info, program_id)?;
    assert_owned_by(collection_info, program_id)?;
    let collection_data = CollectionData::from_account_info(collection_info)?;

    let seeds = make_promotion_seeds(program_id, &collection_info.key);
    let bump = assert_derivation(program_id, &promotion_info.key, &seeds)?;
    let mut effects: Vec<Effect> = Vec::new();
    if promotion_info.data.len() == 0 {
        effects.push(Effect::Allocate { account: 4, space: PromotionData::LEN, seeds: push_bump(&seeds, bump) });
    } else {
        assert_owned_by(promotion_info, program_id)?;
        PromotionData::from_account_info(promotion_info)?;
    }
    let record = AddPromotionArgs {
        sale_price: args.sale_price,
        public_start_ts: args.public_start_ts,
        collection: collection_data.collection_mint,
        char_addr: args.char_addr,
    };
    let data = encode_promotion(&record);
    effects.push(Effect::Write { account: 4, data });
    proof {
        assert(effects_view(effects@) =~= add_promotion_outcome(program_id@, accounts@, args@).unwrap());
    }
    Ok(effects)
}

} // verus!
