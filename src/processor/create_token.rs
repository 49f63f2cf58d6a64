//! `CreateToken`: creates a fungible token with its vault and metadata, or
//! lets its creator rewrite the Token record.
use vstd::prelude::*;

use crate::address::{
    assert_derivation, derivation_check, make_mint_auth_seeds, make_token_seeds, make_vault_seeds,
    mint_auth_seeds, push_bump, token_seeds, vault_seeds, with_bump, Address,
};
use crate::codec::string_len;
use crate::error::AppError;
use crate::processor::approve_collection::{assert_services, services_pinned};
use crate::processor::create_collection::{make_sole_creator, sole_creator};
use crate::processor::{
    assert_owned_by, assert_signer, effects_view, outcome_view, Effect, EffectModel, LedgerAccount,
};
use crate::state::{decode_token, encode_token, parse_token, token_bytes, token_len, CreateTokenArgs, TokenData, TokenModel};

verus! {

/// The Token record that `CreateToken` writes: the signer as creator, the
/// arguments' decimals, name and symbol, and the supplied mint.
pub open spec fn new_token(signer: Seq<u8>, mint: Seq<u8>, decimals: u8, name: Seq<char>, symbol: Seq<char>) -> TokenModel {
    TokenModel { creator: signer, decimals, name, symbol, mint }
}

/// What `CreateToken` does. Accounts: signer, Token slot, mint, vault, the
/// mint's derived authority, metadata, metadata service, token service, rent
/// sysvar, system program. On an empty slot the token is created; on an
/// existing one only its creator may rewrite the record, and the services are
/// not called again.
pub open spec fn create_token_outcome(program: Seq<u8>, accs: Seq<LedgerAccount>, decimals: u8, name: Seq<char>, symbol: Seq<char>, uri: Seq<char>) -> Result<Seq<EffectModel>, AppError> {
    if accs.len() < 10 {
        Err(AppError::NotEnoughAccountKeys)
    } else if !services_pinned(accs, 6) {
        Err(AppError::IncorrectProgramId)
    } else if !accs[0].is_signer {
        Err(AppError::MissingRequiredSignature)
    } else if derivation_check(program, accs[1].key@, token_seeds(program, accs[2].key@)) is Err
        || derivation_check(program, accs[3].key@, vault_seeds(program, accs[2].key@)) is Err
        || derivation_check(program, accs[4].key@, mint_auth_seeds(program, accs[2].key@)) is Err {
        Err(AppError::InvalidSeeds)
    } else {
        let record = new_token(accs[0].key@, accs[2].key@, decimals, name, symbol);
        let write = EffectModel::Write { account: 1, data: token_bytes(record) };
        if token_len(record) > TokenData::LEN {
            Err(AppError::AccountDataTooSmall)
        } else if accs[1].data@.len() == 0 {
            let bump = derivation_check(program, accs[1].key@, token_seeds(program, accs[2].key@)).unwrap();
            let vault_bump = derivation_check(program, accs[3].key@, vault_seeds(program, accs[2].key@)).unwrap();
            let auth_bump = derivation_check(program, accs[4].key@, mint_auth_seeds(program, accs[2].key@)).unwrap();
            Ok(
                seq![
                    EffectModel::Allocate {
                        account: 1,
                        space: TokenData::LEN as nat,
                        seeds: with_bump(token_seeds(program, accs[2].key@), bump),
                    },
                    EffectModel::CreateMint { mint: 2, authority: 4, decimals },
                    EffectModel::CreateVault {
                        vault: 3,
                        mint: 2,
                        owner: 4,
                        vault_seeds: with_bump(vault_seeds(program, accs[2].key@), vault_bump),
                        owner_seeds: with_bump(mint_auth_seeds(program, accs[2].key@), auth_bump),
                    },
                    EffectModel::CreateMetadata {
                        metadata: 5,
                        mint: 2,
                        update_authority: 0,
                        name,
                        symbol,
                        uri,
                        fee: 0,
                        creators: sole_creator(accs[0].key@),
                        collection: None,
                        signer_seeds: seq![],
                    },
                    write,
                ],
            )
        } else if accs[1].owner@ != program {
            Err(AppError::IllegalOwner)
        } else if parse_token(accs[1].data@) is None {
            Err(AppError::InvalidAccountData)
        } else if parse_token(accs[1].data@).unwrap().creator != accs[0].key@ {
            Err(AppError::InvalidAuthority)
        } else {
            Ok(seq![write])
        }
    }
}

pub fn process_create_token(program_id: &Address, accounts: &[LedgerAccount], args: CreateTokenArgs) -> (r: Result<Vec<Effect>, AppError>)
    ensures
        outcome_view(r) == create_token_outcome(program_id@, accounts@, args.decimals, args.name@, args.symbol@, args.uri@),
{
    if accounts.len() < 10 {
        return Err(AppError::NotEnoughAccountKeys);
    }
    let signer_info = &accounts[0];
    let token_info = &accounts[1];
    let mint = &accounts[2];
    assert_services(accounts, 6)?;
    assert_signer(signer_info)?;
    let seeds = make_token_seeds(program_id, &mint.key);
    let bump = assert_derivation(program_id, &token_info.key, &seeds)?;
    let vault_seed_list = make_vault_seeds(program_id, &mint.key);
    let vault_bump = assert_derivation(program_id, &accounts[3].key, &vault_seed_list)?;
    let auth_seed_list = make_mint_auth_seeds(program_id, &mint.key);
    let auth_bump = assert_derivation(program_id, &accounts[4].key, &auth_seed_list)?;

    let ghost (decimals, name, symbol, uri) = (args.decimals, args.name@, args.symbol@, args.uri@);
    let name_len = string_len(&args.name);
    let symbol_len = string_len(&args.symbol);
    if name_len > TokenData::LEN || symbol_len > TokenData::LEN || 73 + name_len + symbol_len > TokenData::LEN {
        return Err(AppError::AccountDataTooSmall);
    }
    let record = TokenData {
        creator: signer_info.key,
        decimals: args.decimals,
        name: args.name,
        symbol: args.symbol,
        mint: mint.key,
    };
    let data = encode_token(&record);

    let mut effects: Vec<Effect> = Vec::new();
    if token_info.data.len() == 0 {
        effects.push(Effect::Allocate { account: 1, space: TokenData::LEN, seeds: push_bump(&seeds, bump) });
        effects.push(Effect::CreateMint { mint: 2, authority: 4, decimals: args.decimals });
        effects.push(
            Effect::CreateVault {
                vault: 3,
                mint: 2,
                owner: 4,
                vault_seeds: push_bump(&vault_seed_list, vault_bump),
                owner_seeds: push_bump(&auth_seed_list, auth_bump),
            },
        );
        effects.push(
            Effect::CreateMetadata {
                metadata: 5,
                mint: 2,
                update_authority: 0,
                name: record.name,
                symbol: record.symbol,
                uri: args.uri,
                fee: 0,
                creators: make_sole_creator(&signer_info.key),
                collection: None,
                signer_seeds: Vec::new(),
            },
        );
    } else {
        assert_owned_by(token_info, program_id)?;
        let current = decode_token(token_info.data.as_slice())?;
        if current.creator != signer_info.key {
            return Err(AppError::InvalidAuthority);
        }
    }
    effects.push(Effect::Write { account: 1, data });
    proof {
        assert(crate::address::seeds_view(Seq::<Vec<u8>>::empty()) =~= Seq::<Seq<u8>>::empty());
        assert(effects_view(effects@) =~= create_token_outcome(program_id@, accounts@, decimals, name, symbol, uri).unwrap());
    }
    Ok(effects)
}

} // verus!
