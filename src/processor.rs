//! The operation handlers. Each takes the accounts that the operation names,
//! as they stand before it, and either refuses the operation or returns the
//! ordered plan of effects that carries it out: slot allocations, calls into
//! the token and metadata services, a value transfer, and record writes, the
//! writes last. The host runs the plan as one atomic unit.
use vstd::prelude::*;

use crate::address::{seeds_view, Address};
use crate::error::AppError;
use crate::instruction::{parse_instruction, AppInstruction, InstructionModel};
use crate::state::{creators_view, Creator, CreatorModel};
use add_collection::{add_collection_outcome, process_add_collection};
use add_promotion::{add_promotion_outcome, process_add_promotion};
use approve_collection::{approve_collection_outcome, process_approve_collection};
use configure::{configure_outcome, process_configure};
use create_collection::{create_collection_outcome, process_create_collection};
use create_token::{create_token_outcome, process_create_token};
use mint::{mint_outcome, process_mint};

pub mod add_collection;
pub mod add_promotion;
pub mod approve_collection;
pub mod configure;
pub mod create_collection;
pub mod create_token;
pub mod mint;

verus! {

/// One account of an operation, as the host hands it over.
#[derive(Clone, Debug)]
pub struct LedgerAccount {
    pub key: Address,
    /// The program that owns the account.
    pub owner: Address,
    pub is_signer: bool,
    pub data: Vec<u8>,
}

/// One step of a plan. Accounts are named by their position in the
/// operation's account list; the signer (position 0) pays for every
/// allocation and call, and is the mint authority of every metadata call.
#[derive(Clone, Debug)]
pub enum Effect {
    /// Fund and allocate the empty slot `account` with `space` zero bytes,
    /// owned by this program, signed for by the derivation `seeds` (bump included).
    Allocate { account: usize, space: usize, seeds: Vec<Vec<u8>> },
    /// Move `lamports` of native value from `from` to `to`.
    Transfer { from: usize, to: usize, lamports: u64 },
    /// Create the metadata record of `mint`; signed by `signer_seeds` when not empty.
    CreateMetadata {
        metadata: usize,
        mint: usize,
        update_authority: usize,
        name: String,
        symbol: String,
        uri: String,
        fee: u16,
        creators: Vec<Creator>,
        collection: Option<Address>,
        signer_seeds: Vec<Vec<u8>>,
    },
    /// Create the master edition of `mint`, capped at zero further copies.
    CreateMasterEdition {
        edition: usize,
        mint: usize,
        update_authority: usize,
        metadata: usize,
        signer_seeds: Vec<Vec<u8>>,
    },
    /// Approve `new_authority` as collection-authority delegate of `mint`'s metadata.
    ApproveCollectionAuthority { record: usize, new_authority: usize, metadata: usize, mint: usize },
    /// Verify the collection membership of the metadata `metadata`.
    VerifyCollection {
        metadata: usize,
        collection_authority: usize,
        collection_mint: usize,
        collection_metadata: usize,
        collection_master_edition: usize,
        authority_record: usize,
        signer_seeds: Vec<Vec<u8>>,
    },
    /// Create and initialize the fungible mint `mint` under `authority`.
    CreateMint { mint: usize, authority: usize, decimals: u8 },
    /// Create the token account `vault` of `mint` owned by `owner`.
    CreateVault { vault: usize, mint: usize, owner: usize, vault_seeds: Vec<Vec<u8>>, owner_seeds: Vec<Vec<u8>> },
    /// Burn `amount` tokens of `mint` from `account`, authorized by `owner`.
    Burn { account: usize, mint: usize, owner: usize, amount: u64 },
    /// Write `data` at the start of the slot `account`; the rest is kept.
    Write { account: usize, data: Vec<u8> },
}

pub enum EffectModel {
    Allocate { account: nat, space: nat, seeds: Seq<Seq<u8>> },
    Transfer { from: nat, to: nat, lamports: u64 },
    CreateMetadata {
        metadata: nat,
        mint: nat,
        update_authority: nat,
        name: Seq<char>,
        symbol: Seq<char>,
        uri: Seq<char>,
        fee: u16,
        creators: Seq<CreatorModel>,
        collection: Option<Seq<u8>>,
        signer_seeds: Seq<Seq<u8>>,
    },
    CreateMasterEdition { edition: nat, mint: nat, update_authority: nat, metadata: nat, signer_seeds: Seq<Seq<u8>> },
    ApproveCollectionAuthority { record: nat, new_authority: nat, metadata: nat, mint: nat },
    VerifyCollection {
        metadata: nat,
        collection_authority: nat,
        collection_mint: nat,
        collection_metadata: nat,
        collection_master_edition: nat,
        authority_record: nat,
        signer_seeds: Seq<Seq<u8>>,
    },
    CreateMint { mint: nat, authority: nat, decimals: u8 },
    CreateVault { vault: nat, mint: nat, owner: nat, vault_seeds: Seq<Seq<u8>>, owner_seeds: Seq<Seq<u8>> },
    Burn { account: nat, mint: nat, owner: nat, amount: u64 },
    Write { account: nat, data: Seq<u8> },
}

pub open spec fn address_opt_view(a: Option<Address>) -> Option<Seq<u8>> {
    match a {
        Some(x) => Some(x@),
        None => None,
    }
}

impl View for Effect {
    type V = EffectModel;

    open spec fn view(&self) -> EffectModel {
        match *self {
            Effect::Allocate { account, space, seeds } => EffectModel::Allocate {
                account: account as nat,
                space: space as nat,
                seeds: seeds_view(seeds@),
            },
            Effect::Transfer { from, to, lamports } => EffectModel::Transfer {
                from: from as nat,
                to: to as nat,
                lamports,
            },
            Effect::CreateMetadata {
                metadata,
                mint,
                update_authority,
                name,
                symbol,
                uri,
                fee,
                creators,
                collection,
                signer_seeds,
            } => EffectModel::CreateMetadata {
                metadata: metadata as nat,
                mint: mint as nat,
                update_authority: update_authority as nat,
                name: name@,
                symbol: symbol@,
                uri: uri@,
                fee,
                creators: creators_view(creators@),
                collection: address_opt_view(collection),
                signer_seeds: seeds_view(signer_seeds@),
            },
            Effect::CreateMasterEdition { edition, mint, update_authority, metadata, signer_seeds } =>
                EffectModel::CreateMasterEdition {
                edition: edition as nat,
                mint: mint as nat,
                update_authority: update_authority as nat,
                metadata: metadata as nat,
                signer_seeds: seeds_view(signer_seeds@),
            },
            Effect::ApproveCollectionAuthority { record, new_authority, metadata, mint } =>
                EffectModel::ApproveCollectionAuthority {
                record: record as nat,
                new_authority: new_authority as nat,
                metadata: metadata as nat,
                mint: mint as nat,
            },
            Effect::VerifyCollection {
                metadata,
                collection_authority,
                collection_mint,
                collection_metadata,
                collection_master_edition,
                authority_record,
                signer_seeds,
            } => EffectModel::VerifyCollection {
                metadata: metadata as nat,
                collection_authority: collection_authority as nat,
                collection_mint: collection_mint as nat,
                collection_metadata: collection_metadata as nat,
                collection_master_edition: collection_master_edition as nat,
                authority_record: authority_record as nat,
                signer_seeds: seeds_view(signer_seeds@),
            },
            Effect::CreateMint { mint, authority, decimals } => EffectModel::CreateMint {
                mint: mint as nat,
                authority: authority as nat,
                decimals,
            },
            Effect::CreateVault { vault, mint, owner, vault_seeds, owner_seeds } => EffectModel::CreateVault {
                vault: vault as nat,
                mint: mint as nat,
                owner: owner as nat,
                vault_seeds: seeds_view(vault_seeds@),
                owner_seeds: seeds_view(owner_seeds@),
            },
            Effect::Burn { account, mint, owner, amount } => EffectModel::Burn {
                account: account as nat,
                mint: mint as nat,
                owner: owner as nat,
                amount,
            },
            Effect::Write { account, data } => EffectModel::Write { account: account as nat, data: data@ },
        }
    }
}

pub open spec fn effects_view(v: Seq<Effect>) -> Seq<EffectModel> {
    v.map_values(|e: Effect| e@)
}

/// What a handler's result says: the refusal, or the plan's effects.
pub open spec fn outcome_view(r: Result<Vec<Effect>, AppError>) -> Result<Seq<EffectModel>, AppError> {
    match r {
        Ok(v) => Ok(effects_view(v@)),
        Err(e) => Err(e),
    }
}

/// The content of a slot after `data` is written at its start.
pub open spec fn write_into(slot: Seq<u8>, data: Seq<u8>) -> Seq<u8> {
    data + slot.subrange(data.len() as int, slot.len() as int)
}

/// A slot just allocated with `space` bytes.
pub open spec fn zeroed(space: nat) -> Seq<u8> {
    Seq::new(space, |i: int| 0u8)
}

pub open spec fn is_allocation_of(e: EffectModel, account: nat) -> bool {
    match e {
        EffectModel::Allocate { account: a, .. } => a == account,
        _ => false,
    }
}

/// Whether a plan allocates the slot at `account`.
pub open spec fn allocates(effs: Seq<EffectModel>, account: nat) -> bool {
    exists|i: int| 0 <= i < effs.len() && is_allocation_of(#[trigger] effs[i], account)
}

/// Checks that the signer signed.
pub fn assert_signer(a: &LedgerAccount) -> (r: Result<(), AppError>)
    ensures
        r == (if a.is_signer {
            Ok(())
        } else {
            Err(AppError::MissingRequiredSignature)
        }),
{
    if a.is_signer {
        Ok(())
    } else {
        Err(AppError::MissingRequiredSignature)
    }
}

/// Checks that an account is the pinned identity `id`.
pub fn assert_eq_key(a: &LedgerAccount, id: &Address) -> (r: Result<(), AppError>)
    ensures
        r == (if a.key@ == id@ {
            Ok(())
        } else {
            Err(AppError::IncorrectProgramId)
        }),
{
    if a.key == *id {
        Ok(())
    } else {
        Err(AppError::IncorrectProgramId)
    }
}

/// Checks that an account is owned by this program.
pub fn assert_owned_by(a: &LedgerAccount, program_id: &Address) -> (r: Result<(), AppError>)
    ensures
        r == (if a.owner@ == program_id@ {
            Ok(())
        } else {
            Err(AppError::IllegalOwner)
        }),
{
    if a.owner == *program_id {
        Ok(())
    } else {
        Err(AppError::IllegalOwner)
    }
}

/// What an operation does: a payload that does not decode is refused before
/// anything else; otherwise the handler of its variant decides.
pub open spec fn instruction_outcome(program: Seq<u8>, accs: Seq<LedgerAccount>, input: Seq<u8>, now: u64) -> Result<Seq<EffectModel>, AppError> {
    match parse_instruction(input) {
        None => Err(AppError::InvalidInstructionData),
        Some(m) => match m {
            InstructionModel::Configure { authority } => configure_outcome(program, accs, authority),
            InstructionModel::CreateAndApproveCollection { fee, name, symbol, uri } => create_collection_outcome(
                program,
                accs,
                fee,
                name,
                symbol,
                uri,
            ),
            InstructionModel::ApproveCollection => approve_collection_outcome(program, accs),
            InstructionModel::AddCollection(c) => add_collection_outcome(program, accs, c),
            InstructionModel::Mint => mint_outcome(program, accs, now),
            InstructionModel::AddPromotion(p) => add_promotion_outcome(program, accs, p),
            InstructionModel::CreateToken { decimals, name, symbol, uri } => create_token_outcome(
                program,
                accs,
                decimals,
                name,
                symbol,
                uri,
            ),
        },
    }
}

/// Decodes the payload and runs the matching handler at ledger time `now`.
pub fn process_instruction(program_id: &Address, accounts: &[LedgerAccount], input: &[u8], now: u64) -> (r: Result<Vec<Effect>, AppError>)
    ensures
        outcome_view(r) == instruction_outcome(program_id@, accounts@, input@, now),
{
    let instruction = AppInstruction::unpack(input)?;
    match instruction {
        AppInstruction::Configure(args) => process_configure(program_id, accounts, args),
        AppInstruction::Mint => process_mint(program_id, accounts, now),
        AppInstruction::CreateAndApproveCollection(args) => process_create_collection(program_id, accounts, args),
        AppInstruction::ApproveCollection => process_approve_collection(program_id, accounts),
        AppInstruction::AddCollection(args) => process_add_collection(program_id, accounts, args),
        AppInstruction::AddPromotion(args) => process_add_promotion(program_id, accounts, args),
        AppInstruction::CreateToken(args) => process_create_token(program_id, accounts, args),
    }
}

/// Whether an outcome, if a plan, leaves the slot at `account` unallocated.
pub open spec fn never_allocates(o: Result<Seq<EffectModel>, AppError>, account: nat) -> bool {
    match o {
        Ok(effs) => !allocates(effs, account),
        Err(_) => true,
    }
}

/// Creation is idempotent: once a record's slot holds data, `Configure`,
/// `AddCollection`, `AddPromotion`, `CreateToken` and `Mint` (for the buyer's
/// User record) never allocate it again, and take their update path instead.
pub proof fn lemma_bootstrap_idempotent(
    program: Seq<u8>,
    accs: Seq<LedgerAccount>,
    authority: Seq<u8>,
    collection: crate::state::CollectionModel,
    promotion: crate::state::PromotionModel,
    decimals: u8,
    name: Seq<char>,
    symbol: Seq<char>,
    uri: Seq<char>,
    now: u64,
)
    ensures
        accs.len() > 1 && accs[1].data@.len() > 0 ==> never_allocates(configure_outcome(program, accs, authority), 1),
        accs.len() > 1 && accs[1].data@.len() > 0 ==> never_allocates(
            create_token_outcome(program, accs, decimals, name, symbol, uri),
            1,
        ),
        accs.len() > 4 && accs[4].data@.len() > 0 ==> never_allocates(add_collection_outcome(program, accs, collection), 4),
        accs.len() > 4 && accs[4].data@.len() > 0 ==> never_allocates(add_promotion_outcome(program, accs, promotion), 4),
        accs.len() > 13 && accs[13].data@.len() > 0 ==> never_allocates(mint_outcome(program, accs, now), 13),
{
    if accs.len() > 13 && accs[13].data@.len() > 0 {
        lemma_mint_keeps_user_slot(program, accs, now);
    }
    if accs.len() > 4 && accs[4].data@.len() > 0 {
        if let Ok(effs) = add_collection_outcome(program, accs, collection) {
            assert(!is_allocation_of(effs[0], 4));
        }
        if let Ok(effs) = add_promotion_outcome(program, accs, promotion) {
            assert(!is_allocation_of(effs[0], 4));
        }
    }
    if accs.len() > 1 && accs[1].data@.len() > 0 {
        if let Ok(effs) = configure_outcome(program, accs, authority) {
            assert(!is_allocation_of(effs[0], 1));
        }
        if let Ok(effs) = create_token_outcome(program, accs, decimals, name, symbol, uri) {
            assert(!is_allocation_of(effs[0], 1));
        }
    }
}

proof fn lemma_mint_keeps_user_slot(program: Seq<u8>, accs: Seq<LedgerAccount>, now: u64)
    requires
        accs.len() > 13,
        accs[13].data@.len() > 0,
    ensures
        never_allocates(mint_outcome(program, accs, now), 13),
{
    if let Ok(effs) = mint_outcome(program, accs, now) {
        assert(effs.len() == 7);
        assert forall|i: int| 0 <= i < effs.len() implies !is_allocation_of(#[trigger] effs[i], 13) by {
            assert(0 <= i < 7);
        }
    }
}

} // verus!
