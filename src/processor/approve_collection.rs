//! `ApproveCollection`: makes a collection's derived minting authority a
//! collection-authority delegate of its metadata record.
use vstd::prelude::*;

use crate::address::{
    assert_derivation, derivation_check, make_pda_creator_seeds, metadata_program_id, metadata_program_key,
    pda_creator_seeds, rent_sysvar_id, rent_sysvar_key, system_program_id, system_program_key,
    token_program_id, token_program_key, Address,
};
use crate::error::AppError;
use crate::processor::{assert_eq_key, assert_signer, effects_view, outcome_view, Effect, EffectModel, LedgerAccount};

verus! {

/// Whether the four service accounts at `first`.. are, in order, the
/// metadata service, the token service, the rent sysvar and the system program.
pub open spec fn services_pinned(accs: Seq<LedgerAccount>, first: int) -> bool {
    &&& accs[first].key@ == metadata_program_key()
    &&& accs[first + 1].key@ == token_program_key()
    &&& accs[first + 2].key@ == rent_sysvar_key()
    &&& accs[first + 3].key@ == system_program_key()
}

/// Checks the four service accounts at `first`..: metadata service, token
/// service, rent sysvar, system program.
pub fn assert_services(accounts: &[LedgerAccount], first: usize) -> (r: Result<(), AppError>)
    requires
        first + 4 <= accounts@.len(),
    ensures
        r == (if services_pinned(accounts@, first as int) {
            Ok(())
        } else {
            Err(AppError::IncorrectProgramId)
        }),
{
    assert_eq_key(&accounts[first], &metadata_program_id())?;
    assert_eq_key(&accounts[first + 1], &token_program_id())?;
    assert_eq_key(&accounts[first + 2], &rent_sysvar_id())?;
    assert_eq_key(&accounts[first + 3], &system_program_id())?;
    Ok(())
}

/// The approval call: the record at 3 makes the authority at 2 a delegate of
/// the metadata at 4 of the mint at 1.
pub open spec fn approve_effect() -> EffectModel {
    EffectModel::ApproveCollectionAuthority { record: 3, new_authority: 2, metadata: 4, mint: 1 }
}

/// What `ApproveCollection` does. Accounts: signer, collection mint, its
/// derived minting authority, authority record, metadata, metadata service,
/// token service, rent sysvar, system program.
pub open spec fn approve_collection_outcome(program: Seq<u8>, accs: Seq<LedgerAccount>) -> Result<Seq<EffectModel>, AppError> {
    if accs.len() < 9 {
        Err(AppError::NotEnoughAccountKeys)
    } else if !services_pinned(accs, 5) {
        Err(AppError::IncorrectProgramId)
    } else if !accs[0].is_signer {
        Err(AppError::MissingRequiredSignature)
    } else if derivation_check(program, accs[2].key@, pda_creator_seeds(program, accs[1].key@)) is Err {
        Err(AppError::InvalidSeeds)
    } else {
        Ok(seq![approve_effect()])
    }
}

pub fn process_approve_collection(program_id: &Address, accounts: &[LedgerAccount]) -> (r: Result<Vec<Effect>, AppError>)
    ensures
        outcome_view(r) == approve_collection_outcome(program_id@, accounts@),
{
    if accounts.len() < 9 {
        return Err(AppError::NotEnoughAccountKeys);
    }
    assert_services(accounts, 5)?;
    assert_signer(&accounts[0])?;
    assert_derivation(program_id, &accounts[2].key, &make_pda_creator_seeds(program_id, &accounts[1].key))?;
    let effects: Vec<Effect> = vec![Effect::ApproveCollectionAuthority { record: 3, new_authority: 2, metadata: 4, mint: 1 }];
    proof {
        assert(effects_view(effects@) =~= approve_collection_outcome(program_id@, accounts@).unwrap());
    }
    Ok(effects)
}

} // verus!
