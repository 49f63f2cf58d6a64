//! `AddCollection`: registers a collection, or rewrites its metadata fields.
use vstd::prelude::*;

use crate::address::{
    assert_derivation, collection_seeds, config_seeds, derivation_check, make_collection_seeds,
    make_config_seeds, make_pda_creator_seeds, pda_creator_seeds, push_bump, rent_sysvar_id,
    rent_sysvar_key, system_program_id, system_program_key, with_bump, Address,
};
use crate::error::AppError;
use crate::processor::{
    assert_eq_key, assert_owned_by, assert_signer, effects_view, outcome_view, Effect, EffectModel,
    LedgerAccount,
};
use crate::state::{
    collection_bytes, collection_fits, collection_len, encode_collection, parse_collection, parse_config,
    AddCollectionArgs, CollectionData, CollectionModel, ConfigureData, MAX_CREATORS,
};

verus! {

/// The record that `AddCollection` writes: the bundle's admin, creators, fee
/// and texts, the supplied mint and minting authority, and the supply counter
/// that the slot already held.
pub open spec fn updated_collection(supply: u64, mint: Seq<u8>, pda: Seq<u8>, args: CollectionModel) -> CollectionModel {
    CollectionModel {
        max_supply: supply,
        collection_mint: mint,
        admin: args.admin,
        pda_creator: pda,
        creators: args.creators,
        fee: args.fee,
        name: args.name,
        symbol: args.symbol,
        uri: args.uri,
    }
}

/// What `AddCollection` does. Accounts: signer, Configuration, collection
/// mint, the mint's derived minting authority, Collection slot, rent sysvar,
/// system program. Only the admin may call it; an empty slot is allocated.
pub open spec fn add_collection_outcome(program: Seq<u8>, accs: Seq<LedgerAccount>, args: CollectionModel) -> Result<Seq<EffectModel>, AppError> {
    if accs.len() < 7 {
        Err(AppError::NotEnoughAccountKeys)
    } else if accs[5].key@ != rent_sysvar_key() || accs[6].key@ != system_program_key() {
        Err(AppError::IncorrectProgramId)
    } else if !accs[0].is_signer {
        Err(AppError::MissingRequiredSignature)
    } else if derivation_check(program, accs[3].key@, pda_creator_seeds(program, accs[2].key@)) is Err {
        Err(AppError::InvalidSeeds)
    } else if derivation_check(program, accs[4].key@, collection_seeds(program, accs[2].key@)) is Err {
        Err(AppError::InvalidSeeds)
    } else if derivation_check(program, accs[1].key@, config_seeds(program)) is Err {
        Err(AppError::InvalidSeeds)
    } else if parse_config(accs[1].data@) is None {
        Err(AppError::InvalidAccountData)
    } else if parse_config(accs[1].data@).unwrap() != accs[0].key@ {
        Err(AppError::InvalidAuthority)
    } else if accs[1].owner@ != program {
        Err(AppError::IllegalOwner)
    } else if args.creators.len() > MAX_CREATORS {
        Err(AppError::TooManyCreators)
    } else if collection_len(args) > CollectionData::LEN {
        Err(AppError::AccountDataTooSmall)
    } else {
        let bump = derivation_check(program, accs[4].key@, collection_seeds(program, accs[2].key@)).unwrap();
        if accs[4].data@.len() == 0 {
            Ok(
                seq![
                    EffectModel::Allocate {
                        account: 4,
                        space: CollectionData::LEN as nat,
                        seeds: with_bump(collection_seeds(program, accs[2].key@), bump),
                    },
                    EffectModel::Write {
                        account: 4,
                        data: collection_bytes(updated_collection(0, accs[2].key@, accs[3].key@, args)),
                    },
                ],
            )
        } else if accs[4].owner@ != program {
            Err(AppError::IllegalOwner)
        } else {
            match parse_collection(accs[4].data@) {
                None => Err(AppError::InvalidAccountData),
                Some(old) => Ok(
                    seq![
                        EffectModel::Write {
                            account: 4,
                            data: collection_bytes(updated_collection(old.max_supply, accs[2].key@, accs[3].key@, args)),
                        },
                    ],
                ),
            }
        }
    }
}

pub fn process_add_collection(program_id: &Address, accounts: &[LedgerAccount], args: AddCollectionArgs) -> (r: Result<Vec<Effect>, AppError>)
    ensures
        outcome_view(r) == add_collection_outcome(program_id@, accounts@, args@),
{
    if accounts.len() < 7 {
        return Err(AppError::NotEnoughAccountKeys);
    }
    let signer_info = &accounts[0];
    let config_info = &accounts[1];
    let collection_mint = &accounts[2];
    let pda_creator_info = &accounts[3];
    let collection_info = &accounts[4];
    assert_eq_key(&accounts[5], &rent_sysvar_id())?;
    assert_eq_key(&accounts[6], &system_program_id())?;
    assert_signer(signer_info)?;
    assert_derivation(program_id, &pda_creator_info.key, &make_pda_creator_seeds(program_id, &collection_mint.key))?;
    let seeds = make_collection_seeds(program_id, &collection_mint.key);
    let bump = assert_derivation(program_id, &collection_info.key, &seeds)?;
    assert_derivation(program_id, &config_info.key, &make_config_seeds(program_id))?;

    let config_data = ConfigureData::from_account_info(config_info)?;
    if config_data.authority != signer_info.key {
        return Err(AppError::InvalidAuthority);
    }
    assert_owned_by(config_info, program_id)?;
    collection_fits(&args)?;

    let mut effects: Vec<Effect> = Vec::new();
    let supply: u64;
    if collection_info.data.len() == 0 {
        effects.push(Effect::Allocate { account: 4, space: CollectionData::LEN, seeds: push_bump(&seeds, bump) });
        supply = 0;
    } else {
        assert_owned_by(collection_info, program_id)?;
        let old = CollectionData::from_account_info(collection_info)?;
        supply = old.max_supply;
    }
    let ghost args_view = args@;
    let record = AddCollectionArgs {
        max_supply: supply,
        collection_mint: collection_mint.key,
        admin: args.admin,
        pda_creator: pda_creator_info.key,
        creators: args.creators,
        fee: args.fee,
        name: args.name,
        symbol: args.symbol,
        uri: args.uri,
    };
    assert(record@ == updated_collection(supply, accounts@[2].key@, accounts@[3].key@, args_view));
    let data = encode_collection(&record);
    effects.push(Effect::Write { account: 4, data });
    proof {
        assert(effects_view(effects@) =~= add_collection_outcome(program_id@, accounts@, args_view).unwrap());
    }
    Ok(effects)
}

} // verus!
