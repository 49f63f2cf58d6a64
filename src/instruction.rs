//! The operation payload: a one-byte tag, then the variant's fields in
//! declaration order, with the record encodings of `state`. A payload is
//! accepted only if it is consumed to its last byte.
use vstd::prelude::*;

use crate::address::{
    rent_sysvar_id, rent_sysvar_key, system_program_id, system_program_key, token_program_id,
    token_program_key, Address,
};
use crate::codec::{
    lemma_string_at, lemma_u16_at, push_string, push_u16, push_u8, read_string, read_u16, string_at,
    string_bytes, string_fits, string_len, u16_at, u16_bytes,
};
use crate::error::AppError;
use crate::state::{
    collection_at, collection_bytes, collection_wf, encode_collection, encode_promotion,
    lemma_collection_at, lemma_promotion_at, promotion_at, promotion_bytes, read_collection,
    read_promotion, AddCollectionArgs, AddPromotionArgs, CollectionModel, ConfigureArgs, CreateCollectionArgs,
    CreateTokenArgs, PromotionModel,
};

verus! {

/// One operation.
#[derive(Clone, Debug)]
pub enum AppInstruction {
    Configure(ConfigureArgs),
    CreateAndApproveCollection(CreateCollectionArgs),
    ApproveCollection,
    AddCollection(AddCollectionArgs),
    Mint,
    AddPromotion(AddPromotionArgs),
    CreateToken(CreateTokenArgs),
}

pub enum InstructionModel {
    Configure { authority: Seq<u8> },
    CreateAndApproveCollection { fee: u16, name: Seq<char>, symbol: Seq<char>, uri: Seq<char> },
    ApproveCollection,
    AddCollection(CollectionModel),
    Mint,
    AddPromotion(PromotionModel),
    CreateToken { decimals: u8, name: Seq<char>, symbol: Seq<char>, uri: Seq<char> },
}

impl View for AppInstruction {
    type V = InstructionModel;

    open spec fn view(&self) -> InstructionModel {
        match self {
            AppInstruction::Configure(a) => InstructionModel::Configure { authority: a.authority@ },
            AppInstruction::CreateAndApproveCollection(a) => InstructionModel::CreateAndApproveCollection {
                fee: a.fee,
                name: a.name@,
                symbol: a.symbol@,
                uri: a.uri@,
            },
            AppInstruction::ApproveCollection => InstructionModel::ApproveCollection,
            AppInstruction::AddCollection(a) => InstructionModel::AddCollection(a@),
            AppInstruction::Mint => InstructionModel::Mint,
            AppInstruction::AddPromotion(a) => InstructionModel::AddPromotion(a@),
            AppInstruction::CreateToken(a) => InstructionModel::CreateToken {
                decimals: a.decimals,
                name: a.name@,
                symbol: a.symbol@,
                uri: a.uri@,
            },
        }
    }
}

/// Three string fields in a row.
pub open spec fn texts_bytes(n: Seq<char>, s: Seq<char>, u: Seq<char>) -> Seq<u8> {
    string_bytes(n) + string_bytes(s) + string_bytes(u)
}

/// Three string fields at `at`, and the position after them.
pub open spec fn texts_at(b: Seq<u8>, at: int) -> Option<(Seq<char>, Seq<char>, Seq<char>, int)> {
    match string_at(b, at) {
        Some(n) => match string_at(b, n.1) {
            Some(s) => match string_at(b, s.1) {
                Some(u) => Some((n.0, s.0, u.0, u.1)),
                None => None,
            },
            None => None,
        },
        None => None,
    }
}

pub open spec fn instruction_wf(m: InstructionModel) -> bool {
    match m {
        InstructionModel::Configure { authority } => authority.len() == 32,
        InstructionModel::CreateAndApproveCollection { name, symbol, uri, .. } => string_fits(name)
            && string_fits(symbol) && string_fits(uri),
        InstructionModel::AddCollection(c) => collection_wf(c),
        InstructionModel::AddPromotion(p) => p.collection.len() == 32 && p.char_addr.len() == 32,
        InstructionModel::CreateToken { name, symbol, uri, .. } => string_fits(name) && string_fits(symbol)
            && string_fits(uri),
        _ => true,
    }
}

/// The payload of an operation.
pub open spec fn instruction_bytes(m: InstructionModel) -> Seq<u8> {
    match m {
        InstructionModel::Configure { authority } => seq![0u8] + authority,
        InstructionModel::CreateAndApproveCollection { fee, name, symbol, uri } => seq![1u8] + u16_bytes(fee)
            + texts_bytes(name, symbol, uri),
        InstructionModel::ApproveCollection => seq![2u8],
        InstructionModel::AddCollection(c) => seq![3u8] + collection_bytes(c),
        InstructionModel::Mint => seq![4u8],
        InstructionModel::AddPromotion(p) => seq![5u8] + promotion_bytes(p),
        InstructionModel::CreateToken { decimals, name, symbol, uri } => seq![6u8, decimals] + texts_bytes(
            name,
            symbol,
            uri,
        ),
    }
}

/// The operation a payload holds, if it is well-formed and has no trailing bytes.
pub open spec fn parse_instruction(b: Seq<u8>) -> Option<InstructionModel> {
    if b.len() == 0 {
        None
    } else if b[0] == 0 {
        if b.len() == 33 {
            Some(InstructionModel::Configure { authority: b.subrange(1, 33) })
        } else {
            None
        }
    } else if b[0] == 1 {
        if b.len() >= 3 && texts_at(b, 3) is Some && texts_at(b, 3).unwrap().3 == b.len() {
            let t = texts_at(b, 3).unwrap();
            Some(InstructionModel::CreateAndApproveCollection { fee: u16_at(b, 1), name: t.0, symbol: t.1, uri: t.2 })
        } else {
            None
        }
    } else if b[0] == 2 {
        if b.len() == 1 {
            Some(InstructionModel::ApproveCollection)
        } else {
            None
        }
    } else if b[0] == 3 {
        if collection_at(b, 1) is Some && collection_at(b, 1).unwrap().1 == b.len() {
            Some(InstructionModel::AddCollection(collection_at(b, 1).unwrap().0))
        } else {
            None
        }
    } else if b[0] == 4 {
        if b.len() == 1 {
            Some(InstructionModel::Mint)
        } else {
            None
        }
    } else if b[0] == 5 {
        if promotion_at(b, 1) is Some && promotion_at(b, 1).unwrap().1 == b.len() {
            Some(InstructionModel::AddPromotion(promotion_at(b, 1).unwrap().0))
        } else {
            None
        }
    } else if b[0] == 6 {
        if b.len() >= 2 && texts_at(b, 2) is Some && texts_at(b, 2).unwrap().3 == b.len() {
            let t = texts_at(b, 2).unwrap();
            Some(InstructionModel::CreateToken { decimals: b[1], name: t.0, symbol: t.1, uri: t.2 })
        } else {
            None
        }
    } else {
        None
    }
}

proof fn lemma_texts_at(n: Seq<char>, s: Seq<char>, u: Seq<char>, pre: Seq<u8>)
    requires
        string_fits(n),
        string_fits(s),
        string_fits(u),
    ensures
        texts_at(pre + texts_bytes(n, s, u), pre.len() as int) == Some(
            (n, s, u, (pre.len() + texts_bytes(n, s, u).len()) as int),
        ),
{
    let bn = string_bytes(n);
    let bs = string_bytes(s);
    let bu = string_bytes(u);
    let e = Seq::<u8>::empty();
    let b = pre + texts_bytes(n, s, u);
    assert(b =~= pre + bn + (bs + bu));
    lemma_string_at(n, pre, bs + bu);
    assert(b =~= (pre + bn) + bs + bu);
    lemma_string_at(s, pre + bn, bu);
    assert(b =~= (pre + bn + bs) + bu + e);
    lemma_string_at(u, pre + bn + bs, e);
}

proof fn lemma_create_collection_payload(fee: u16, name: Seq<char>, symbol: Seq<char>, uri: Seq<char>)
    requires
        string_fits(name),
        string_fits(symbol),
        string_fits(uri),
    ensures
        ({
            let b = seq![1u8] + u16_bytes(fee) + texts_bytes(name, symbol, uri);
            &&& b[0] == 1 && b.len() >= 3
            &&& u16_at(b, 1) == fee
            &&& texts_at(b, 3) == Some((name, symbol, uri, b.len() as int))
        }),
{
    lemma_u16_at(fee, seq![1u8], texts_bytes(name, symbol, uri));
    lemma_texts_at(name, symbol, uri, seq![1u8] + u16_bytes(fee));
}

proof fn lemma_create_token_payload(decimals: u8, name: Seq<char>, symbol: Seq<char>, uri: Seq<char>)
    requires
        string_fits(name),
        string_fits(symbol),
        string_fits(uri),
    ensures
        ({
            let b = seq![6u8, decimals] + texts_bytes(name, symbol, uri);
            &&& b[0] == 6 && b[1] == decimals && b.len() >= 2
            &&& texts_at(b, 2) == Some((name, symbol, uri, b.len() as int))
        }),
{
    lemma_texts_at(name, symbol, uri, seq![6u8, decimals]);
}

proof fn lemma_add_collection_payload(c: CollectionModel)
    requires
        collection_wf(c),
    ensures
        ({
            let b = seq![3u8] + collection_bytes(c);
            &&& b[0] == 3
            &&& collection_at(b, 1) == Some((c, b.len() as int))
        }),
{
    let e = Seq::<u8>::empty();
    lemma_collection_at(c, seq![3u8], e);
    assert(seq![3u8] + collection_bytes(c) =~= seq![3u8] + collection_bytes(c) + e);
}

proof fn lemma_add_promotion_payload(p: PromotionModel)
    requires
        p.collection.len() == 32,
        p.char_addr.len() == 32,
    ensures
        ({
            let b = seq![5u8] + promotion_bytes(p);
            &&& b[0] == 5
            &&& promotion_at(b, 1) == Some((p, b.len() as int))
        }),
{
    let e = Seq::<u8>::empty();
    lemma_promotion_at(p, seq![5u8], e);
    assert(seq![5u8] + promotion_bytes(p) =~= seq![5u8] + promotion_bytes(p) + e);
}

/// Decoding a payload recovers the operation it encodes.
pub proof fn lemma_instruction_round_trip(m: InstructionModel)
    requires
        instruction_wf(m),
    ensures
        parse_instruction(instruction_bytes(m)) == Some(m),
{
    let b = instruction_bytes(m);
    match m {
        InstructionModel::Configure { authority } => {
            assert(b.subrange(1, 33) =~= authority);
        },
        InstructionModel::CreateAndApproveCollection { fee, name, symbol, uri } => {
            lemma_create_collection_payload(fee, name, symbol, uri);
        },
        InstructionModel::AddCollection(c) => {
            lemma_add_collection_payload(c);
        },
        InstructionModel::AddPromotion(p) => {
            lemma_add_promotion_payload(p);
        },
        InstructionModel::CreateToken { decimals, name, symbol, uri } => {
            lemma_create_token_payload(decimals, name, symbol, uri);
        },
        _ => {},
    }
}

fn read_texts(b: &[u8], at: usize) -> (r: Option<(String, String, String, usize)>)
    ensures
        match texts_at(b@, at as int) {
            Some(t) => r matches Some(q) && q.0@ == t.0 && q.1@ == t.1 && q.2@ == t.2 && q.3 == t.3,
            None => r is None,
        },
{
    let (name, p) = match read_string(b, at) {
        Some(x) => x,
        None => return None,
    };
    let (symbol, p) = match read_string(b, p) {
        Some(x) => x,
        None => return None,
    };
    let (uri, p) = match read_string(b, p) {
        Some(x) => x,
        None => return None,
    };
    Some((name, symbol, uri, p))
}

fn push_texts(buf: &mut Vec<u8>, n: &String, s: &String, u: &String)
    requires
        string_fits(n@),
        string_fits(s@),
        string_fits(u@),
    ensures
        final(buf)@ == old(buf)@ + texts_bytes(n@, s@, u@),
{
    push_string(buf, n);
    push_string(buf, s);
    push_string(buf, u);
    assert(buf@ =~= old(buf)@ + texts_bytes(n@, s@, u@));
}

/// Whether three strings fit their u32 length prefixes.
fn texts_fit(n: &String, s: &String, u: &String) -> (r: bool)
    ensures
        r == (string_fits(n@) && string_fits(s@) && string_fits(u@)),
{
    string_len(n) <= u32::MAX as usize && string_len(s) <= u32::MAX as usize && string_len(u) <= u32::MAX as usize
}

impl AppInstruction {
    /// Decodes a payload; any malformed or unknown payload is refused.
    pub fn unpack(input: &[u8]) -> (r: Result<AppInstruction, AppError>)
        ensures
            match parse_instruction(input@) {
                Some(m) => r matches Ok(i) && i@ == m,
                None => r == Err::<AppInstruction, AppError>(AppError::InvalidInstructionData),
            },
    {
        let len = input.len();
        if len == 0 {
            return Err(AppError::InvalidInstructionData);
        }
        let tag = input[0];
        if tag == 0 {
            if len != 33 {
                return Err(AppError::InvalidInstructionData);
            }
            Ok(AppInstruction::Configure(ConfigureArgs { authority: Address::read(input, 1) }))
        } else if tag == 1 {
            if len < 3 {
                return Err(AppError::InvalidInstructionData);
            }
            let fee = read_u16(input, 1);
            match read_texts(input, 3) {
                Some((name, symbol, uri, end)) => {
                    if end != len {
                        return Err(AppError::InvalidInstructionData);
                    }
                    Ok(AppInstruction::CreateAndApproveCollection(CreateCollectionArgs { fee, name, symbol, uri }))
                },
                None => Err(AppError::InvalidInstructionData),
            }
        } else if tag == 2 {
            if len != 1 {
                return Err(AppError::InvalidInstructionData);
            }
            Ok(AppInstruction::ApproveCollection)
        } else if tag == 3 {
            match read_collection(input, 1) {
                Some((c, end)) => {
                    if end != len {
                        return Err(AppError::InvalidInstructionData);
                    }
                    Ok(AppInstruction::AddCollection(c))
                },
                None => Err(AppError::InvalidInstructionData),
            }
        } else if tag == 4 {
            if len != 1 {
                return Err(AppError::InvalidInstructionData);
            }
            Ok(AppInstruction::Mint)
        } else if tag == 5 {
            match read_promotion(input, 1) {
                Some((p, end)) => {
                    if end != len {
                        return Err(AppError::InvalidInstructionData);
                    }
                    Ok(AppInstruction::AddPromotion(p))
                },
                None => Err(AppError::InvalidInstructionData),
            }
        } else if tag == 6 {
            if len < 2 {
                return Err(AppError::InvalidInstructionData);
            }
            let decimals = input[1];
            match read_texts(input, 2) {
                Some((name, symbol, uri, end)) => {
                    if end != len {
                        return Err(AppError::InvalidInstructionData);
                    }
                    Ok(AppInstruction::CreateToken(CreateTokenArgs { decimals, name, symbol, uri }))
                },
                None => Err(AppError::InvalidInstructionData),
            }
        } else {
            Err(AppError::InvalidInstructionData)
        }
    }

    /// Encodes the operation; a text longer than its length prefix can count
    /// is refused.
    pub fn pack(&self) -> (r: Result<Vec<u8>, AppError>)
        ensures
            instruction_wf(self@) ==> (r matches Ok(b) && b@ == instruction_bytes(self@)),
            !instruction_wf(self@) ==> r == Err::<Vec<u8>, AppError>(AppError::InvalidInstructionData),
    {
        let mut buf: Vec<u8> = Vec::new();
        match self {
            AppInstruction::Configure(a) => {
                push_u8(&mut buf, 0);
                let k = a.authority.to_vec();
                crate::codec::push_bytes(&mut buf, k.as_slice());
            },
            AppInstruction::CreateAndApproveCollection(a) => {
                if !texts_fit(&a.name, &a.symbol, &a.uri) {
                    return Err(AppError::InvalidInstructionData);
                }
                push_u8(&mut buf, 1);
                push_u16(&mut buf, a.fee);
                push_texts(&mut buf, &a.name, &a.symbol, &a.uri);
            },
            AppInstruction::ApproveCollection => {
                push_u8(&mut buf, 2);
            },
            AppInstruction::AddCollection(a) => {
                if a.creators.len() > u32::MAX as usize || !texts_fit(&a.name, &a.symbol, &a.uri) {
                    return Err(AppError::InvalidInstructionData);
                }
                push_u8(&mut buf, 3);
                let body = encode_collection(a);
                crate::codec::push_bytes(&mut buf, body.as_slice());
            },
            AppInstruction::Mint => {
                push_u8(&mut buf, 4);
            },
            AppInstruction::AddPromotion(a) => {
                push_u8(&mut buf, 5);
                let body = encode_promotion(a);
                crate::codec::push_bytes(&mut buf, body.as_slice());
            },
            AppInstruction::CreateToken(a) => {
                if !texts_fit(&a.name, &a.symbol, &a.uri) {
                    return Err(AppError::InvalidInstructionData);
                }
                push_u8(&mut buf, 6);
                push_u8(&mut buf, a.decimals);
                push_texts(&mut buf, &a.name, &a.symbol, &a.uri);
            },
        }
        assert(buf@ =~= instruction_bytes(self@));
        Ok(buf)
    }
}

/// One account of an outgoing operation: its key, whether it signs, and
/// whether the operation may write it.
#[derive(Clone, Copy, Debug)]
pub struct AccountMeta {
    pub pubkey: Address,
    pub is_signer: bool,
    pub is_writable: bool,
}

/// An operation ready to be submitted to the ledger.
#[derive(Clone, Debug)]
pub struct Instruction {
    pub program_id: Address,
    pub accounts: Vec<AccountMeta>,
    pub data: Vec<u8>,
}

pub open spec fn metas_view(v: Seq<AccountMeta>) -> Seq<(Seq<u8>, bool, bool)> {
    v.map_values(|m: AccountMeta| (m.pubkey@, m.is_signer, m.is_writable))
}

/// A writable account; `signs` tells whether it signs.
pub open spec fn w(key: Seq<u8>, signs: bool) -> (Seq<u8>, bool, bool) {
    (key, signs, true)
}

/// A read-only account that does not sign.
pub open spec fn ro(key: Seq<u8>) -> (Seq<u8>, bool, bool) {
    (key, false, false)
}

fn writable(key: &Address, signs: bool) -> (r: AccountMeta)
    ensures
        r.pubkey@ == key@ && r.is_signer == signs && r.is_writable,
{
    AccountMeta { pubkey: *key, is_signer: signs, is_writable: true }
}

fn readonly(key: &Address) -> (r: AccountMeta)
    ensures
        r.pubkey@ == key@ && !r.is_signer && !r.is_writable,
{
    AccountMeta { pubkey: *key, is_signer: false, is_writable: false }
}

/// Builds `Configure`.
pub fn configure(program_id: &Address, signer: &Address, config_info: &Address, args: ConfigureArgs) -> (r: Result<Instruction, AppError>)
    ensures
        r matches Ok(ix) && ix.program_id == *program_id
            && ix.data@ == instruction_bytes(InstructionModel::Configure { authority: args.authority@ })
            && metas_view(ix.accounts@) == seq![w(signer@, true), w(config_info@, false), ro(rent_sysvar_key()), ro(system_program_key())],
{
    let accounts: Vec<AccountMeta> = vec![
        writable(signer, true),
        writable(config_info, false),
        readonly(&rent_sysvar_id()),
        readonly(&system_program_id()),
    ];
    let data = AppInstruction::Configure(args).pack()?;
    assert(metas_view(accounts@) =~= seq![w(signer@, true), w(config_info@, false), ro(rent_sysvar_key()), ro(system_program_key())]);
    Ok(Instruction { program_id: *program_id, accounts, data })
}

/// Builds `CreateAndApproveCollection`; texts too long for their length
/// prefix are refused.
pub fn create_collection(
    program_id: &Address,
    signer: &Address,
    mint: &Address,
    pda_creator_info: &Address,
    collection_authority_record: &Address,
    metadata_info: &Address,
    edition_info: &Address,
    metadata_program_info: &Address,
    token_program: &Address,
    args: CreateCollectionArgs,
) -> (r: Result<Instruction, AppError>)
    ensures
        ({
            let m = InstructionModel::CreateAndApproveCollection { fee: args.fee, name: args.name@, symbol: args.symbol@, uri: args.uri@ };
            &&& instruction_wf(m) <==> r is Ok
            &&& r matches Ok(ix) ==> ix.program_id == *program_id && ix.data@ == instruction_bytes(m)
                && metas_view(ix.accounts@) == seq![
                    w(signer@, true), w(mint@, true), w(pda_creator_info@, false), w(collection_authority_record@, false),
                    w(metadata_info@, false), w(edition_info@, false), ro(metadata_program_info@), ro(token_program@),
                    ro(rent_sysvar_key()), ro(system_program_key())]
        }),
{
    let accounts: Vec<AccountMeta> = vec![
        writable(signer, true),
        writable(mint, true),
        writable(pda_creator_info, false),
        writable(collection_authority_record, false),
        writable(metadata_info, false),
        writable(edition_info, false),
        readonly(metadata_program_info),
        readonly(token_program),
        readonly(&rent_sysvar_id()),
        readonly(&system_program_id()),
    ];
    let data = AppInstruction::CreateAndApproveCollection(args).pack()?;
    assert(metas_view(accounts@) =~= seq![
        w(signer@, true), w(mint@, true), w(pda_creator_info@, false), w(collection_authority_record@, false),
        w(metadata_info@, false), w(edition_info@, false), ro(metadata_program_info@), ro(token_program@),
        ro(rent_sysvar_key()), ro(system_program_key())]);
    Ok(Instruction { program_id: *program_id, accounts, data })
}

/// Builds `ApproveCollection`.
pub fn approve_collection(
    program_id: &Address,
    signer: &Address,
    mint: &Address,
    pda_creator_info: &Address,
    collection_authority_record: &Address,
    metadata_info: &Address,
    metadata_program_info: &Address,
    token_program: &Address,
) -> (r: Result<Instruction, AppError>)
    ensures
        r matches Ok(ix) && ix.program_id == *program_id
            && ix.data@ == instruction_bytes(InstructionModel::ApproveCollection)
            && metas_view(ix.accounts@) == seq![
                w(signer@, true), w(mint@, true), w(pda_creator_info@, false), w(collection_authority_record@, false),
                w(metadata_info@, false), ro(metadata_program_info@), ro(token_program@), ro(rent_sysvar_key()),
                ro(system_program_key())],
{
    let accounts: Vec<AccountMeta> = vec![
        writable(signer, true),
        writable(mint, true),
        writable(pda_creator_info, false),
        writable(collection_authority_record, false),
        writable(metadata_info, false),
        readonly(metadata_program_info),
        readonly(token_program),
        readonly(&rent_sysvar_id()),
        readonly(&system_program_id()),
    ];
    let data = AppInstruction::ApproveCollection.pack()?;
    assert(metas_view(accounts@) =~= seq![
        w(signer@, true), w(mint@, true), w(pda_creator_info@, false), w(collection_authority_record@, false),
        w(metadata_info@, false), ro(metadata_program_info@), ro(token_program@), ro(rent_sysvar_key()),
        ro(system_program_key())]);
    Ok(Instruction { program_id: *program_id, accounts, data })
}

/// Builds `AddCollection`; a bundle whose texts or creator count exceed
/// their length prefixes is refused.
pub fn add_collection(
    program_id: &Address,
    signer: &Address,
    config: &Address,
    collection_mint: &Address,
    pda_creator_info: &Address,
    collection_info: &Address,
    args: AddCollectionArgs,
) -> (r: Result<Instruction, AppError>)
    ensures
        ({
            let m = InstructionModel::AddCollection(args@);
            &&& instruction_wf(m) <==> r is Ok
            &&& r matches Ok(ix) ==> ix.program_id == *program_id && ix.data@ == instruction_bytes(m)
                && metas_view(ix.accounts@) == seq![
                    w(signer@, true), w(config@, false), w(collection_mint@, false), w(pda_creator_info@, false),
                    w(collection_info@, false), ro(rent_sysvar_key()), ro(system_program_key())]
        }),
{
    let accounts: Vec<AccountMeta> = vec![
        writable(signer, true),
        writable(config, false),
        writable(collection_mint, false),
        writable(pda_creator_info, false),
        writable(collection_info, false),
        readonly(&rent_sysvar_id()),
        readonly(&system_program_id()),
    ];
    proof {
        assert forall|i: int| 0 <= i < args@.creators.len() implies (#[trigger] args@.creators[i]).address.len() == 32 by {
            assert(args@.creators[i] == args.creators@[i]@);
        }
    }
    let data = AppInstruction::AddCollection(args).pack()?;
    assert(metas_view(accounts@) =~= seq![
        w(signer@, true), w(config@, false), w(collection_mint@, false), w(pda_creator_info@, false),
        w(collection_info@, false), ro(rent_sysvar_key()), ro(system_program_key())]);
    Ok(Instruction { program_id: *program_id, accounts, data })
}

/// Builds `AddPromotion`.
pub fn add_promotion(
    program_id: &Address,
    signer: &Address,
    config: &Address,
    collection_mint: &Address,
    collection_info: &Address,
    promotion_info: &Address,
    args: AddPromotionArgs,
) -> (r: Result<Instruction, AppError>)
    ensures
        r matches Ok(ix) && ix.program_id == *program_id
            && ix.data@ == instruction_bytes(InstructionModel::AddPromotion(args@))
            && metas_view(ix.accounts@) == seq![
                w(signer@, true), w(config@, false), w(collection_mint@, false), w(collection_info@, false),
                w(promotion_info@, false), ro(rent_sysvar_key()), ro(system_program_key())],
{
    let accounts: Vec<AccountMeta> = vec![
        writable(signer, true),
        writable(config, false),
        writable(collection_mint, false),
        writable(collection_info, false),
        writable(promotion_info, false),
        readonly(&rent_sysvar_id()),
        readonly(&system_program_id()),
    ];
    let data = AppInstruction::AddPromotion(args).pack()?;
    assert(metas_view(accounts@) =~= seq![
        w(signer@, true), w(config@, false), w(collection_mint@, false), w(collection_info@, false),
        w(promotion_info@, false), ro(rent_sysvar_key()), ro(system_program_key())]);
    Ok(Instruction { program_id: *program_id, accounts, data })
}

/// Builds `Mint`.
pub fn mint(
    program_id: &Address,
    signer: &Address,
    pda_creator_info: &Address,
    mint_info: &Address,
    token_account: &Address,
    metadata_info: &Address,
    edition_info: &Address,
    collection_mint: &Address,
    collection_metadata: &Address,
    collection_master_edition_account: &Address,
    collection_authority_record: &Address,
    promotion_info: &Address,
    collection_info: &Address,
    charge_info: &Address,
    user_info: &Address,
    metadata_program_info: &Address,
    token_program_info: &Address,
) -> (r: Result<Instruction, AppError>)
    ensures
        r matches Ok(ix) && ix.program_id == *program_id
            && ix.data@ == instruction_bytes(InstructionModel::Mint)
            && metas_view(ix.accounts@) == seq![
                w(signer@, true), w(pda_creator_info@, false), w(mint_info@, true), w(token_account@, false),
                w(metadata_info@, false), w(edition_info@, false), w(collection_mint@, false),
                w(collection_metadata@, false), w(collection_master_edition_account@, false),
                w(collection_authority_record@, false), w(promotion_info@, false), w(collection_info@, false),
                w(charge_info@, false), w(user_info@, false), ro(metadata_program_info@), ro(token_program_info@),
                ro(rent_sysvar_key()), ro(system_program_key())],
{
    let accounts: Vec<AccountMeta> = vec![
        writable(signer, true),
        writable(pda_creator_info, false),
        writable(mint_info, true),
        writable(token_account, false),
        writable(metadata_info, false),
        writable(edition_info, false),
        writable(collection_mint, false),
        writable(collection_metadata, false),
        writable(collection_master_edition_account, false),
        writable(collection_authority_record, false),
        writable(promotion_info, false),
        writable(collection_info, false),
        writable(charge_info, false),
        writable(user_info, false),
        readonly(metadata_program_info),
        readonly(token_program_info),
        readonly(&rent_sysvar_id()),
        readonly(&system_program_id()),
    ];
    let data = AppInstruction::Mint.pack()?;
    assert(metas_view(accounts@) =~= seq![
        w(signer@, true), w(pda_creator_info@, false), w(mint_info@, true), w(token_account@, false),
        w(metadata_info@, false), w(edition_info@, false), w(collection_mint@, false),
        w(collection_metadata@, false), w(collection_master_edition_account@, false),
        w(collection_authority_record@, false), w(promotion_info@, false), w(collection_info@, false),
        w(charge_info@, false), w(user_info@, false), ro(metadata_program_info@), ro(token_program_info@),
        ro(rent_sysvar_key()), ro(system_program_key())]);
    Ok(Instruction { program_id: *program_id, accounts, data })
}

/// Builds `CreateToken`; texts too long for their length prefix are refused.
pub fn create_token(
    program_id: &Address,
    signer: &Address,
    config_info: &Address,
    mint: &Address,
    mint_vault: &Address,
    mint_auth: &Address,
    metadata_key: &Address,
    metadata_program: &Address,
    args: CreateTokenArgs,
) -> (r: Result<Instruction, AppError>)
    ensures
        ({
            let m = InstructionModel::CreateToken { decimals: args.decimals, name: args.name@, symbol: args.symbol@, uri: args.uri@ };
            &&& instruction_wf(m) <==> r is Ok
            &&& r matches Ok(ix) ==> ix.program_id == *program_id && ix.data@ == instruction_bytes(m)
                && metas_view(ix.accounts@) == seq![
                    w(signer@, true), w(config_info@, false), w(mint@, false), w(mint_vault@, false),
                    w(mint_auth@, false), w(metadata_key@, false), ro(metadata_program@), ro(token_program_key()),
                    ro(rent_sysvar_key()), ro(system_program_key())]
        }),
{
    let accounts: Vec<AccountMeta> = vec![
        writable(signer, true),
        writable(config_info, false),
        writable(mint, false),
        writable(mint_vault, false),
        writable(mint_auth, false),
        writable(metadata_key, false),
        readonly(metadata_program),
        readonly(&token_program_id()),
        readonly(&rent_sysvar_id()),
        readonly(&system_program_id()),
    ];
    let data = AppInstruction::CreateToken(args).pack()?;
    assert(metas_view(accounts@) =~= seq![
        w(signer@, true), w(config_info@, false), w(mint@, false), w(mint_vault@, false),
        w(mint_auth@, false), w(metadata_key@, false), ro(metadata_program@), ro(token_program_key()),
        ro(rent_sysvar_key()), ro(system_program_key())]);
    Ok(Instruction { program_id: *program_id, accounts, data })
}

} // verus!
