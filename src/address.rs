use vstd::prelude::*;

use crate::error::AppError;

verus! {

/// A 32-byte ledger identity: a signing key, a program or a derived address.
#[derive(Clone, Copy, Debug)]
pub struct Address {
    pub bytes: [u8; 32],
}

impl View for Address {
    type V = Seq<u8>;

    open spec fn view(&self) -> Seq<u8> {
        self.bytes@
    }
}

impl PartialEq for Address {
    fn eq(&self, o: &Address) -> (r: bool) {
        let mut i: usize = 0;
        while i < 32
            invariant
                0 <= i <= 32,
                forall|j: int| 0 <= j < i ==> self.bytes@[j] == o.bytes@[j],
            decreases 32 - i,
        {
            if self.bytes[i] != o.bytes[i] {
                return false;
            }
            i = i + 1;
        }
        assert(self.bytes@ =~= o.bytes@);
        true
    }
}

impl vstd::std_specs::cmp::PartialEqSpecImpl for Address {
    open spec fn obeys_eq_spec() -> bool {
        true
    }

    open spec fn eq_spec(&self, o: &Address) -> bool {
        self@ == o@
    }
}

impl Address {
    pub fn new(bytes: [u8; 32]) -> (r: Address)
        ensures
            r.bytes == bytes,
    {
        Address { bytes }
    }

    /// The bytes of the address, as a vector.
    pub fn to_vec(&self) -> (r: Vec<u8>)
        ensures
            r@ == self@,
    {
        let mut v: Vec<u8> = Vec::new();
        let mut i: usize = 0;
        while i < 32
            invariant
                0 <= i <= 32,
                v@ == self@.subrange(0, i as int),
            decreases 32 - i,
        {
            v.push(self.bytes[i]);
            i = i + 1;
            assert(v@ =~= self@.subrange(0, i as int));
        }
        assert(self@.subrange(0, 32) =~= self@);
        v
    }

    /// Reads an address from 32 bytes of `b` starting at `at`.
    pub fn read(b: &[u8], at: usize) -> (r: Address)
        requires
            at + 32 <= b@.len(),
        ensures
            r@ == b@.subrange(at as int, at + 32),
    {
        let n = b.len();
        let mut bytes: [u8; 32] = [0u8; 32];
        let mut i: usize = 0;
        while i < 32
            invariant
                0 <= i <= 32,
                n == b@.len(),
                at + 32 <= b@.len(),
                forall|j: int| 0 <= j < i ==> bytes@[j] == b@[at + j],
            decreases 32 - i,
        {
            bytes[i] = b[at + i];
            i = i + 1;
        }
        let r = Address { bytes };
        assert(r@ =~= b@.subrange(at as int, at + 32));
        r
    }
}

/// The byte strings that a list of seed vectors holds.
pub open spec fn seeds_view(s: Seq<Vec<u8>>) -> Seq<Seq<u8>> {
    s.map_values(|v: Vec<u8>| v@)
}

/// The address that the ledger derives for a program from a list of seeds,
/// with its bump, or none when no bump gives an address off the signing curve
/// (or the seeds exceed the ledger's limits).
pub uninterp spec fn program_address(seeds: Seq<Seq<u8>>, program: Seq<u8>) -> Option<(Seq<u8>, u8)>;

/// Relies on solana_program's `Pubkey::try_find_program_address`, a function of
/// the seeds and the program identity alone: it returns the derived address and
/// its bump, or none.
#[verifier::external_body]
fn try_find_program_address(seeds: &Vec<Vec<u8>>, program: &Address) -> (r: Option<(Address, u8)>)
    ensures
        r is None ==> program_address(seeds_view(seeds@), program@) is None,
        r matches Some(p) ==> program_address(seeds_view(seeds@), program@) == Some((p.0@, p.1)),
{
    let refs: Vec<&[u8]> = seeds.iter().map(|s| s.as_slice()).collect();
    let program = solana_program::pubkey::Pubkey::new_from_array(program.bytes);
    solana_program::pubkey::Pubkey::try_find_program_address(&refs, &program).map(
        |(k, b)| (Address { bytes: k.to_bytes() }, b),
    )
}

/// The outcome of validating `key` against the address derived from `seeds`:
/// the bump when they agree, an error otherwise.
pub open spec fn derivation_check(program: Seq<u8>, key: Seq<u8>, seeds: Seq<Seq<u8>>) -> Result<u8, AppError> {
    match program_address(seeds, program) {
        Some(d) => if d.0 == key {
            Ok(d.1)
        } else {
            Err(AppError::InvalidSeeds)
        },
        None => Err(AppError::InvalidSeeds),
    }
}

/// Derives the address for `seeds` and checks that `key` is that address.
pub fn assert_derivation(program_id: &Address, key: &Address, seeds: &Vec<Vec<u8>>) -> (r: Result<u8, AppError>)
    ensures
        r == derivation_check(program_id@, key@, seeds_view(seeds@)),
{
    match try_find_program_address(seeds, program_id) {
        Some((derived, bump)) => {
            if derived == *key {
                Ok(bump)
            } else {
                Err(AppError::InvalidSeeds)
            }
        },
        None => Err(AppError::InvalidSeeds),
    }
}

/// Validation through derivation is deterministic and admits one address only:
/// two keys accepted for the same seeds are the same key with the same bump,
/// the accepted key is the derived one, and every other key is refused.
pub proof fn lemma_derivation_sound(program: Seq<u8>, seeds: Seq<Seq<u8>>, k1: Seq<u8>, k2: Seq<u8>)
    ensures
        derivation_check(program, k1, seeds) is Ok && derivation_check(program, k2, seeds) is Ok
            ==> k1 == k2 && derivation_check(program, k1, seeds) == derivation_check(program, k2, seeds),
        derivation_check(program, k1, seeds) is Ok <==> (program_address(seeds, program) matches Some(d) && d.0 == k1),
        derivation_check(program, k1, seeds) is Ok && k2 != k1 ==> derivation_check(program, k2, seeds) == Err::<u8, AppError>(AppError::InvalidSeeds),
{
}

// ---- seed tags ----
/// "config"
pub open spec fn tag_config() -> Seq<u8> {
    seq![99u8, 111, 110, 102, 105, 103]
}

/// "collection"
pub open spec fn tag_collection() -> Seq<u8> {
    seq![99u8, 111, 108, 108, 101, 99, 116, 105, 111, 110]
}

/// "pda_creator"
pub open spec fn tag_pda_creator() -> Seq<u8> {
    seq![112u8, 100, 97, 95, 99, 114, 101, 97, 116, 111, 114]
}

/// "user_info"
pub open spec fn tag_user_info() -> Seq<u8> {
    seq![117u8, 115, 101, 114, 95, 105, 110, 102, 111]
}

/// "mint_vault"
pub open spec fn tag_mint_vault() -> Seq<u8> {
    seq![109u8, 105, 110, 116, 95, 118, 97, 117, 108, 116]
}

/// "mint_auth"
pub open spec fn tag_mint_auth() -> Seq<u8> {
    seq![109u8, 105, 110, 116, 95, 97, 117, 116, 104]
}

/// Seeds of the Configuration singleton: (program, "config").
pub open spec fn config_seeds(program: Seq<u8>) -> Seq<Seq<u8>> {
    seq![program, tag_config()]
}

/// Seeds of a Collection record: (program, collection mint, "collection").
pub open spec fn collection_seeds(program: Seq<u8>, mint: Seq<u8>) -> Seq<Seq<u8>> {
    seq![program, mint, tag_collection()]
}

/// Seeds of a collection's minting authority: (program, collection mint, "pda_creator").
pub open spec fn pda_creator_seeds(program: Seq<u8>, mint: Seq<u8>) -> Seq<Seq<u8>> {
    seq![program, mint, tag_pda_creator()]
}

/// Seeds of a Promotion: (program, collection record address).
pub open spec fn promotion_seeds(program: Seq<u8>, collection: Seq<u8>) -> Seq<Seq<u8>> {
    seq![program, collection]
}

/// Seeds of a User record: (program, user, "user_info").
pub open spec fn user_seeds(program: Seq<u8>, user: Seq<u8>) -> Seq<Seq<u8>> {
    seq![program, user, tag_user_info()]
}

/// Seeds of a Token record: (program, mint, "config").
pub open spec fn token_seeds(program: Seq<u8>, mint: Seq<u8>) -> Seq<Seq<u8>> {
    seq![program, mint, tag_config()]
}

/// Seeds of a token's vault: (program, mint, "mint_vault").
pub open spec fn vault_seeds(program: Seq<u8>, mint: Seq<u8>) -> Seq<Seq<u8>> {
    seq![program, mint, tag_mint_vault()]
}

/// Seeds of a token's minting authority: (program, mint, "mint_auth").
pub open spec fn mint_auth_seeds(program: Seq<u8>, mint: Seq<u8>) -> Seq<Seq<u8>> {
    seq![program, mint, tag_mint_auth()]
}

/// The seeds followed by the one-byte bump: what signs for a derived address.
pub open spec fn with_bump(seeds: Seq<Seq<u8>>, bump: u8) -> Seq<Seq<u8>> {
    seeds.push(seq![bump])
}

fn seeds2(a: Vec<u8>, b: Vec<u8>) -> (r: Vec<Vec<u8>>)
    ensures
        seeds_view(r@) == seq![a@, b@],
{
    let r: Vec<Vec<u8>> = vec![a, b];
    assert(seeds_view(r@) =~= seq![a@, b@]);
    r
}

fn seeds3(a: Vec<u8>, b: Vec<u8>, c: Vec<u8>) -> (r: Vec<Vec<u8>>)
    ensures
        seeds_view(r@) == seq![a@, b@, c@],
{
    let r: Vec<Vec<u8>> = vec![a, b, c];
    assert(seeds_view(r@) =~= seq![a@, b@, c@]);
    r
}

pub fn make_config_seeds(program: &Address) -> (r: Vec<Vec<u8>>)
    ensures
        seeds_view(r@) == config_seeds(program@),
{
    seeds2(program.to_vec(), vec![99u8, 111, 110, 102, 105, 103])
}

pub fn make_collection_seeds(program: &Address, mint: &Address) -> (r: Vec<Vec<u8>>)
    ensures
        seeds_view(r@) == collection_seeds(program@, mint@),
{
    seeds3(program.to_vec(), mint.to_vec(), vec![99u8, 111, 108, 108, 101, 99, 116, 105, 111, 110])
}

pub fn make_pda_creator_seeds(program: &Address, mint: &Address) -> (r: Vec<Vec<u8>>)
    ensures
        seeds_view(r@) == pda_creator_seeds(program@, mint@),
{
    seeds3(program.to_vec(), mint.to_vec(), vec![112u8, 100, 97, 95, 99, 114, 101, 97, 116, 111, 114])
}

pub fn make_promotion_seeds(program: &Address, collection: &Address) -> (r: Vec<Vec<u8>>)
    ensures
        seeds_view(r@) == promotion_seeds(program@, collection@),
{
    seeds2(program.to_vec(), collection.to_vec())
}

pub fn make_user_seeds(program: &Address, user: &Address) -> (r: Vec<Vec<u8>>)
    ensures
        seeds_view(r@) == user_seeds(program@, user@),
{
    seeds3(program.to_vec(), user.to_vec(), vec![117u8, 115, 101, 114, 95, 105, 110, 102, 111])
}

pub fn make_token_seeds(program: &Address, mint: &Address) -> (r: Vec<Vec<u8>>)
    ensures
        seeds_view(r@) == token_seeds(program@, mint@),
{
    seeds3(program.to_vec(), mint.to_vec(), vec![99u8, 111, 110, 102, 105, 103])
}

pub fn make_vault_seeds(program: &Address, mint: &Address) -> (r: Vec<Vec<u8>>)
    ensures
        seeds_view(r@) == vault_seeds(program@, mint@),
{
    seeds3(program.to_vec(), mint.to_vec(), vec![109u8, 105, 110, 116, 95, 118, 97, 117, 108, 116])
}

pub fn make_mint_auth_seeds(program: &Address, mint: &Address) -> (r: Vec<Vec<u8>>)
    ensures
        seeds_view(r@) == mint_auth_seeds(program@, mint@),
{
    seeds3(program.to_vec(), mint.to_vec(), vec![109u8, 105, 110, 116, 95, 97, 117, 116, 104])
}

/// Appends the bump to a copy of the seeds.
pub fn push_bump(seeds: &Vec<Vec<u8>>, bump: u8) -> (r: Vec<Vec<u8>>)
    ensures
        seeds_view(r@) == with_bump(seeds_view(seeds@), bump),
{
    let mut r: Vec<Vec<u8>> = Vec::new();
    let mut i: usize = 0;
    while i < seeds.len()
        invariant
            0 <= i <= seeds@.len(),
            r@.len() == i,
            forall|j: int| 0 <= j < i ==> #[trigger] r@[j]@ == seeds@[j]@,
        decreases seeds@.len() - i,
    {
        let c = seeds[i].clone();
        assert(c@ =~= seeds@[i as int]@);
        r.push(c);
        i = i + 1;
    }
    let b: Vec<u8> = vec![bump];
    r.push(b);
    assert(r@[r@.len() - 1]@ =~= seq![bump]);
    assert(seeds_view(r@) =~= with_bump(seeds_view(seeds@), bump));
    r
}

// ---- pinned service identities ----
/// SysvarRent111111111111111111111111111111111
pub open spec fn rent_sysvar_key() -> Seq<u8> {
    seq![6u8, 167, 213, 23, 25, 44, 92, 81, 33, 140, 201, 76, 61, 74, 241, 127, 88, 218, 238, 8, 155, 161, 253, 68, 227, 219, 217, 138, 0, 0, 0, 0]
}

/// 11111111111111111111111111111111
pub open spec fn system_program_key() -> Seq<u8> {
    Seq::new(32, |i: int| 0u8)
}

/// TokenkegQfeZyiNwAJbNbGKPFXCWuBvf9Ss623VQ5DA
pub open spec fn token_program_key() -> Seq<u8> {
    seq![6u8, 221, 246, 225, 215, 101, 161, 147, 217, 203, 225, 70, 206, 235, 121, 172, 28, 180, 133, 237, 95, 91, 55, 145, 58, 140, 245, 133, 126, 255, 0, 169]
}

/// metaqbxxUerdq28cj1RbAWkYQm3ybzjb6a8bt518x1s
pub open spec fn metadata_program_key() -> Seq<u8> {
    seq![11u8, 112, 101, 177, 227, 209, 124, 69, 56, 157, 82, 127, 107, 4, 195, 205, 88, 184, 108, 115, 26, 160, 253, 181, 73, 182, 209, 188, 3, 248, 41, 70]
}

/// Relies on solana_program's `sysvar::rent::id()`, declared as
/// "SysvarRent111111111111111111111111111111111" (the bytes below in base58).
#[verifier::external_body]
pub(crate) fn rent_sysvar_id() -> (r: Address)
    ensures
        r@ == rent_sysvar_key(),
{
    Address { bytes: solana_program::sysvar::rent::id().to_bytes() }
}

/// Relies on solana_program's `system_program::id()`, declared as
/// "11111111111111111111111111111111": thirty-two zero bytes.
#[verifier::external_body]
pub(crate) fn system_program_id() -> (r: Address)
    ensures
        r@ == system_program_key(),
{
    Address { bytes: solana_program::system_program::id().to_bytes() }
}

/// Relies on spl_token's `id()`, declared as
/// "TokenkegQfeZyiNwAJbNbGKPFXCWuBvf9Ss623VQ5DA".
#[verifier::external_body]
pub(crate) fn token_program_id() -> (r: Address)
    ensures
        r@ == token_program_key(),
{
    Address { bytes: spl_token::id().to_bytes() }
}

/// Relies on mpl_token_metadata's `MPL_TOKEN_METADATA_ID`, declared as
/// "metaqbxxUerdq28cj1RbAWkYQm3ybzjb6a8bt518x1s".
#[verifier::external_body]
pub(crate) fn metadata_program_id() -> (r: Address)
    ensures
        r@ == metadata_program_key(),
{
    Address { bytes: mpl_token_metadata::programs::MPL_TOKEN_METADATA_ID.to_bytes() }
}

} // verus!
