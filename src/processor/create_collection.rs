//! `CreateAndApproveCollection`: creates the collection NFT's metadata and
//! master edition, then approves the derived minting authority.
use vstd::prelude::*;

use crate::address::{assert_derivation, derivation_check, make_pda_creator_seeds, pda_creator_seeds, Address};
use crate::error::AppError;
use crate::processor::approve_collection::{approve_effect, assert_services, services_pinned};
use crate::processor::{assert_signer, effects_view, outcome_view, Effect, EffectModel, LedgerAccount};
use crate::state::{CreateCollectionArgs, Creator, CreatorModel};

verus! {

/// The creator list of an NFT that the signer creates: the signer alone,
/// verified, with the whole share.
pub open spec fn sole_creator(signer: Seq<u8>) -> Seq<CreatorModel> {
    seq![CreatorModel { address: signer, verified: true, share: 100 }]
}

pub fn make_sole_creator(signer: &Address) -> (r: Vec<Creator>)
    ensures
        crate::state::creators_view(r@) == sole_creator(signer@),
{
    let r: Vec<Creator> = vec![Creator { address: *signer, verified: true, share: 100 }];
    assert(crate::state::creators_view(r@) =~= sole_creator(signer@));
    r
}

/// What `CreateAndApproveCollection` does. Accounts: signer, collection mint,
/// its derived minting authority, authority record, metadata, master edition,
/// metadata service, token service, rent sysvar, system program.
pub open spec fn create_collection_outcome(program: Seq<u8>, accs: Seq<LedgerAccount>, fee: u16, name: Seq<char>, symbol: Seq<char>, uri: Seq<char>) -> Result<Seq<EffectModel>, AppError> {
    if accs.len() < 10 {
        Err(AppError::NotEnoughAccountKeys)
    } else if !services_pinned(accs, 6) {
        Err(AppError::IncorrectProgramId)
    } else if !accs[0].is_signer {
        Err(AppError::MissingRequiredSignature)
    } else if derivation_check(program, accs[2].key@, pda_creator_seeds(program, accs[1].key@)) is Err {
        Err(AppError::InvalidSeeds)
    } else {
        Ok(
            seq![
                EffectModel::CreateMetadata {
                    metadata: 4,
                    mint: 1,
                    update_authority: 0,
                    name,
                    symbol,
                    uri,
                    fee,
                    creators: sole_creator(accs[0].key@),
                    collection: None,
                    signer_seeds: seq![],
                },
                EffectModel::CreateMasterEdition { edition: 5, mint: 1, update_authority: 0, metadata: 4, signer_seeds: seq![] },
                approve_effect(),
            ],
        )
    }
}

pub fn process_create_collection(program_id: &Address, accounts: &[LedgerAccount], args: CreateCollectionArgs) -> (r: Result<Vec<Effect>, AppError>)
    ensures
        outcome_view(r) == create_collection_outcome(program_id@, accounts@, args.fee, args.name@, args.symbol@, args.uri@),
{
    if accounts.len() < 10 {
        return Err(AppError::NotEnoughAccountKeys);
    }
    assert_services(accounts, 6)?;
    assert_signer(&accounts[0])?;
    assert_derivation(program_id, &accounts[2].key, &make_pda_creator_seeds(program_id, &accounts[1].key))?;
    let ghost (fee, name, symbol, uri) = (args.fee, args.name@, args.symbol@, args.uri@);
    let effects: Vec<Effect> = vec![
        Effect::CreateMetadata {
            metadata: 4,
            mint: 1,
            update_authority: 0,
            name: args.name,
            symbol: args.symbol,
            uri: args.uri,
            fee: args.fee,
            creators: make_sole_creator(&accounts[0].key),
            collection: None,
            signer_seeds: Vec::new(),
        },
        Effect::CreateMasterEdition { edition: 5, mint: 1, update_authority: 0, metadata: 4, signer_seeds: Vec::new() },
        Effect::ApproveCollectionAuthority { record: 3, new_authority: 2, metadata: 4, mint: 1 },
    ];
    proof {
        seeds_empty_view();
        assert(effects_view(effects@) =~= create_collection_outcome(program_id@, accounts@, fee, name, symbol, uri).unwrap());
    }
    Ok(effects)
}

proof fn seeds_empty_view()
    ensures
        crate::address::seeds_view(Seq::<Vec<u8>>::empty()) == Seq::<Seq<u8>>::empty(),
{
    assert(crate::address::seeds_view(Seq::<Vec<u8>>::empty()) =~= Seq::<Seq<u8>>::empty());
}

} // verus!
