//! `Configure`: installs or rotates the program admin.
use vstd::prelude::*;

use crate::address::{
    assert_derivation, config_seeds, derivation_check, make_config_seeds, push_bump, rent_sysvar_id,
    rent_sysvar_key, system_program_id, system_program_key, with_bump, Address,
};
use crate::error::AppError;
use crate::processor::{
    assert_eq_key, assert_owned_by, assert_signer, effects_view, outcome_view, Effect, EffectModel,
    LedgerAccount,
};
use crate::state::{config_bytes, encode_config, parse_config, ConfigureArgs, ConfigureData};

verus! {

/// What `Configure` does. Accounts: signer, Configuration slot, rent sysvar,
/// system program. An empty slot is allocated and takes the new admin
/// unconditionally; an existing one only from its current admin.
pub open spec fn configure_outcome(program: Seq<u8>, accs: Seq<LedgerAccount>, authority: Seq<u8>) -> Result<Seq<EffectModel>, AppError> {
    if accs.len() < 4 {
        Err(AppError::NotEnoughAccountKeys)
    } else if accs[2].key@ != rent_sysvar_key() || accs[3].key@ != system_program_key() {
        Err(AppError::IncorrectProgramId)
    } else if !accs[0].is_signer {
        Err(AppError::MissingRequiredSignature)
    } else {
        match derivation_check(program, accs[1].key@, config_seeds(program)) {
            Err(e) => Err(e),
            Ok(bump) => if accs[1].data@.len() == 0 {
                Ok(
                    seq![
                        EffectModel::Allocate { account: 1, space: ConfigureData::LEN as nat, seeds: with_bump(config_seeds(program), bump) },
                        EffectModel::Write { account: 1, data: config_bytes(authority) },
                    ],
                )
            } else {
                match parse_config(accs[1].data@) {
                    None => Err(AppError::InvalidAccountData),
                    Some(admin) => if admin != accs[0].key@ {
                        Err(AppError::InvalidAuthority)
                    } else if accs[1].owner@ != program {
                        Err(AppError::IllegalOwner)
                    } else {
                        Ok(seq![EffectModel::Write { account: 1, data: config_bytes(authority) }])
                    },
                }
            },
        }
    }
}

pub fn process_configure(program_id: &Address, accounts: &[LedgerAccount], args: ConfigureArgs) -> (r: Result<Vec<Effect>, AppError>)
    ensures
        outcome_view(r) == configure_outcome(program_id@, accounts@, args.authority@),
{
    if accounts.len() < 4 {
        return Err(AppError::NotEnoughAccountKeys);
    }
    let signer_info = &accounts[0];
    let config_info = &accounts[1];
    assert_eq_key(&accounts[2], &rent_sysvar_id())?;
    assert_eq_key(&accounts[3], &system_program_id())?;
    assert_signer(signer_info)?;
    let seeds = make_config_seeds(program_id);
    let bump = assert_derivation(program_id, &config_info.key, &seeds)?;

    let mut effects: Vec<Effect> = Vec::new();
    if config_info.data.len() == 0 {
        effects.push(Effect::Allocate { account: 1, space: ConfigureData::LEN, seeds: push_bump(&seeds, bump) });
    } else {
        let current = ConfigureData::from_account_info(config_info)?;
        if current.authority != signer_info.key {
            return Err(AppError::InvalidAuthority);
        }
        assert_owned_by(config_info, program_id)?;
    }
    let data = encode_config(&ConfigureData { authority: args.authority });
    effects.push(Effect::Write { account: 1, data });
    proof {
        assert(effects_view(effects@) =~= configure_outcome(program_id@, accounts@, args.authority@).unwrap());
    }
    Ok(effects)
}

/// Once the Configuration exists, a signer other than its admin is refused
/// with an authority error, and the plan is empty: the record stays as it is.
pub proof fn lemma_configure_authority_gating(program: Seq<u8>, accs: Seq<LedgerAccount>, authority: Seq<u8>)
    requires
        accs.len() >= 4,
        accs[2].key@ == rent_sysvar_key(),
        accs[3].key@ == system_program_key(),
        accs[0].is_signer,
        derivation_check(program, accs[1].key@, config_seeds(program)) is Ok,
        parse_config(accs[1].data@) is Some,
        parse_config(accs[1].data@).unwrap() != accs[0].key@,
    ensures
        configure_outcome(program, accs, authority) == Err::<Seq<EffectModel>, AppError>(AppError::InvalidAuthority),
{
}

} // verus!
