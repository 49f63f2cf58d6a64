//! The fixed-layout records kept in program-owned slots, and the argument
//! bundles that share their layouts, with their binary encodings.
use vstd::prelude::*;
use vstd::utf8::encode_utf8;

use crate::address::Address;
use crate::codec::{
    lemma_string_at, lemma_u16_at, lemma_u32_at, lemma_u64_at, push_bytes, push_string, push_u16, push_u32,
    push_u64, push_u8, read_string, read_u16, read_u32, read_u64, string_at, string_bytes, string_fits,
    string_len, u16_at, u16_bytes, u32_at, u32_bytes, u64_at, u64_bytes,
};
use crate::error::AppError;
use crate::processor::LedgerAccount;

verus! {

broadcast use vstd::utf8::group_utf8_lib;

/// The most creator entries a Collection record holds.
pub const MAX_CREATORS: usize = 4;

/// The supply ceiling of every collection.
pub const MAX_SUPPLY: u64 = 10000;

/// One entry of a royalty creator list.
#[derive(Clone, Copy, Debug)]
pub struct Creator {
    pub address: Address,
    pub verified: bool,
    pub share: u8,
}

pub struct CreatorModel {
    pub address: Seq<u8>,
    pub verified: bool,
    pub share: u8,
}

impl View for Creator {
    type V = CreatorModel;

    open spec fn view(&self) -> CreatorModel {
        CreatorModel { address: self.address@, verified: self.verified, share: self.share }
    }
}

impl PartialEq for Creator {
    fn eq(&self, o: &Creator) -> (r: bool) {
        self.address == o.address && self.verified == o.verified && self.share == o.share
    }
}

impl vstd::std_specs::cmp::PartialEqSpecImpl for Creator {
    open spec fn obeys_eq_spec() -> bool {
        true
    }

    open spec fn eq_spec(&self, o: &Creator) -> bool {
        self@ == o@
    }
}

pub open spec fn creators_view(cs: Seq<Creator>) -> Seq<CreatorModel> {
    cs.map_values(|c: Creator| c@)
}

pub open spec fn bool_byte(b: bool) -> u8 {
    if b {
        1
    } else {
        0
    }
}

pub open spec fn creator_bytes(c: CreatorModel) -> Seq<u8> {
    c.address + seq![bool_byte(c.verified), c.share]
}

/// The entries of a creator list, one after another.
pub open spec fn creators_body(cs: Seq<CreatorModel>) -> Seq<u8>
    decreases cs.len(),
{
    if cs.len() == 0 {
        seq![]
    } else {
        creators_body(cs.drop_last()) + creator_bytes(cs.last())
    }
}

/// A creator list: its count as a u32, then its entries.
pub open spec fn creators_bytes(cs: Seq<CreatorModel>) -> Seq<u8> {
    u32_bytes(cs.len() as u32) + creators_body(cs)
}

pub open spec fn creator_at(b: Seq<u8>, at: int) -> CreatorModel {
    CreatorModel { address: b.subrange(at, at + 32), verified: b[at + 32] == 1, share: b[at + 33] }
}

/// The creator list at `at` and the position after it; each entry's flag byte
/// must be 0 or 1.
pub open spec fn creators_at(b: Seq<u8>, at: int) -> Option<(Seq<CreatorModel>, int)> {
    if 0 <= at && at + 4 <= b.len() {
        let n = u32_at(b, at) as int;
        if at + 4 + 34 * n <= b.len() && forall|i: int|
            0 <= i < n ==> #[trigger] b[at + 4 + 34 * i + 32] <= 1 {
            Some((Seq::new(n as nat, |i: int| creator_at(b, at + 4 + 34 * i)), at + 4 + 34 * n))
        } else {
            None
        }
    } else {
        None
    }
}

pub open spec fn creators_wf(cs: Seq<CreatorModel>) -> bool {
    cs.len() <= u32::MAX && forall|i: int| 0 <= i < cs.len() ==> (#[trigger] cs[i]).address.len() == 32
}

proof fn lemma_creators_body(cs: Seq<CreatorModel>)
    requires
        creators_wf(cs),
    ensures
        creators_body(cs).len() == 34 * cs.len(),
        forall|i: int, k: int|
            0 <= i < cs.len() && 0 <= k < 34 ==> #[trigger] creators_body(cs)[34 * i + k]
                == creator_bytes(cs[i])[k],
    decreases cs.len(),
{
    if cs.len() > 0 {
        let init = cs.drop_last();
        assert(creators_wf(init)) by {
            assert forall|i: int| 0 <= i < init.len() implies (#[trigger] init[i]).address.len() == 32 by {
                assert(init[i] == cs[i]);
            }
        }
        lemma_creators_body(init);
        assert(cs.last() == cs[cs.len() - 1]);
        assert forall|i: int, k: int|
            0 <= i < cs.len() && 0 <= k < 34 implies #[trigger] creators_body(cs)[34 * i + k]
                == creator_bytes(cs[i])[k] by {
            if i < cs.len() - 1 {
                assert(init[i] == cs[i]);
                assert(creators_body(init)[34 * i + k] == creator_bytes(init[i])[k]);
            }
        }
    }
}

/// A creator list written between `pre` and `post` reads back at the end of `pre`.
pub proof fn lemma_creators_at(cs: Seq<CreatorModel>, pre: Seq<u8>, post: Seq<u8>)
    requires
        creators_wf(cs),
    ensures
        creators_at(pre + creators_bytes(cs) + post, pre.len() as int) == Some(
            (cs, (pre.len() + creators_bytes(cs).len()) as int),
        ),
{
    let n = cs.len() as u32;
    let body = creators_body(cs);
    let b = pre + creators_bytes(cs) + post;
    let at = pre.len() as int;
    lemma_creators_body(cs);
    assert(b =~= pre + u32_bytes(n) + (body + post));
    lemma_u32_at(n, pre, body + post);
    assert(u32_at(b, at) == n);
    assert forall|i: int| 0 <= i < n implies #[trigger] b[at + 4 + 34 * i + 32] <= 1 by {
        assert(b[at + 4 + 34 * i + 32] == body[34 * i + 32]);
        assert(creator_bytes(cs[i])[32] == bool_byte(cs[i].verified));
    }
    let parsed = Seq::new(n as nat, |i: int| creator_at(b, at + 4 + 34 * i));
    assert forall|i: int| 0 <= i < n implies parsed[i] == cs[i] by {
        let c = cs[i];
        assert(creator_at(b, at + 4 + 34 * i).address =~= c.address) by {
            assert forall|k: int| 0 <= k < 32 implies b[at + 4 + 34 * i + k] == c.address[k] by {
                assert(b[at + 4 + 34 * i + k] == body[34 * i + k]);
                assert(creator_bytes(c)[k] == c.address[k]);
            }
        }
        assert(b[at + 4 + 34 * i + 32] == body[34 * i + 32]);
        assert(b[at + 4 + 34 * i + 33] == body[34 * i + 33]);
        assert(creator_bytes(c)[32] == bool_byte(c.verified));
        assert(creator_bytes(c)[33] == c.share);
    }
    assert(parsed =~= cs);
}

// ---- Configuration ----
#[derive(Clone, Copy, Debug)]
pub struct ConfigureArgs {
    /// The admin to install.
    pub authority: Address,
}

#[derive(Clone, Copy, Debug)]
pub struct ConfigureData {
    /// The program admin.
    pub authority: Address,
}

impl ConfigureData {
    pub const LEN: usize = 32;
}

pub open spec fn config_bytes(authority: Seq<u8>) -> Seq<u8> {
    authority
}

/// The admin stored in a Configuration slot, if the slot is well-formed.
pub open spec fn parse_config(b: Seq<u8>) -> Option<Seq<u8>> {
    if b.len() == 32 {
        Some(b)
    } else {
        None
    }
}

pub fn encode_config(c: &ConfigureData) -> (r: Vec<u8>)
    ensures
        r@ == config_bytes(c.authority@),
{
    c.authority.to_vec()
}

pub fn decode_config(b: &[u8]) -> (r: Result<ConfigureData, AppError>)
    ensures
        match parse_config(b@) {
            Some(a) => r matches Ok(c) && c.authority@ == a,
            None => r == Err::<ConfigureData, AppError>(AppError::InvalidAccountData),
        },
{
    if b.len() != ConfigureData::LEN {
        return Err(AppError::InvalidAccountData);
    }
    let a = Address::read(b, 0);
    assert(b@.subrange(0, 32) =~= b@);
    Ok(ConfigureData { authority: a })
}

impl ConfigureData {
    /// The Configuration held by an account.
    pub fn from_account_info(a: &LedgerAccount) -> (r: Result<ConfigureData, AppError>)
        ensures
            match parse_config(a.data@) {
                Some(x) => r matches Ok(c) && c.authority@ == x,
                None => r == Err::<ConfigureData, AppError>(AppError::InvalidAccountData),
            },
    {
        decode_config(a.data.as_slice())
    }
}

// ---- Collection ----
/// The fields of a Collection record; `AddCollection` carries the same bundle.
#[derive(Clone, Debug)]
pub struct AddCollectionArgs {
    /// Running supply counter.
    pub max_supply: u64,
    pub collection_mint: Address,
    pub admin: Address,
    /// The collection's derived minting authority.
    pub pda_creator: Address,
    pub creators: Vec<Creator>,
    /// Royalty in basis points.
    pub fee: u16,
    pub name: String,
    pub symbol: String,
    pub uri: String,
}

pub type CollectionData = AddCollectionArgs;

pub struct CollectionModel {
    pub max_supply: u64,
    pub collection_mint: Seq<u8>,
    pub admin: Seq<u8>,
    pub pda_creator: Seq<u8>,
    pub creators: Seq<CreatorModel>,
    pub fee: u16,
    pub name: Seq<char>,
    pub symbol: Seq<char>,
    pub uri: Seq<char>,
}

impl View for AddCollectionArgs {
    type V = CollectionModel;

    open spec fn view(&self) -> CollectionModel {
        CollectionModel {
            max_supply: self.max_supply,
            collection_mint: self.collection_mint@,
            admin: self.admin@,
            pda_creator: self.pda_creator@,
            creators: creators_view(self.creators@),
            fee: self.fee,
            name: self.name@,
            symbol: self.symbol@,
            uri: self.uri@,
        }
    }
}

impl CollectionData {
    /// Slot length: counter, three addresses, room for four creators, fee
    /// and the three texts with their length prefixes.
    pub const LEN: usize = 8 + 32 + 32 + 32 + 34 * 4 + 1 + 4 + 32 + 10 + 200;
}

pub open spec fn collection_wf(m: CollectionModel) -> bool {
    &&& m.collection_mint.len() == 32
    &&& m.admin.len() == 32
    &&& m.pda_creator.len() == 32
    &&& creators_wf(m.creators)
    &&& string_fits(m.name)
    &&& string_fits(m.symbol)
    &&& string_fits(m.uri)
}

/// The fixed-size head of a collection bundle: supply counter and three addresses.
pub open spec fn collection_head(m: CollectionModel) -> Seq<u8> {
    u64_bytes(m.max_supply) + m.collection_mint + m.admin + m.pda_creator
}

/// The tail of a collection bundle: fee and the three texts.
pub open spec fn collection_tail(m: CollectionModel) -> Seq<u8> {
    u16_bytes(m.fee) + string_bytes(m.name) + string_bytes(m.symbol) + string_bytes(m.uri)
}

pub open spec fn collection_bytes(m: CollectionModel) -> Seq<u8> {
    collection_head(m) + creators_bytes(m.creators) + collection_tail(m)
}

/// The collection bundle at `at` and the position after it.
pub open spec fn collection_at(b: Seq<u8>, at: int) -> Option<(CollectionModel, int)> {
    if 0 <= at && at + 104 <= b.len() {
        match creators_at(b, at + 104) {
            Some(cp) => if cp.1 + 2 <= b.len() {
                match string_at(b, cp.1 + 2) {
                    Some(n) => match string_at(b, n.1) {
                        Some(s) => match string_at(b, s.1) {
                            Some(u) => Some(
                                (
                                    CollectionModel {
                                        max_supply: u64_at(b, at),
                                        collection_mint: b.subrange(at + 8, at + 40),
                                        admin: b.subrange(at + 40, at + 72),
                                        pda_creator: b.subrange(at + 72, at + 104),
                                        creators: cp.0,
                                        fee: u16_at(b, cp.1),
                                        name: n.0,
                                        symbol: s.0,
                                        uri: u.0,
                                    },
                                    u.1,
                                ),
                            ),
                            None => None,
                        },
                        None => None,
                    },
                    None => None,
                }
            } else {
                None
            },
            None => None,
        }
    } else {
        None
    }
}

/// The Collection stored in a slot: the slot has the record's fixed length and
/// begins with a well-formed record.
pub open spec fn parse_collection(b: Seq<u8>) -> Option<CollectionModel> {
    if b.len() == CollectionData::LEN {
        match collection_at(b, 0) {
            Some(p) => Some(p.0),
            None => None,
        }
    } else {
        None
    }
}

proof fn lemma_regroup(a: Seq<u8>, x: Seq<u8>, y: Seq<u8>, z: Seq<u8>, d: Seq<u8>)
    ensures
        a + (x + y + z) + d == a + x + (y + z + d),
        a + (x + y + z) + d == (a + x) + y + (z + d),
        a + (x + y + z) + d == (a + x + y) + z + d,
{
    assert(a + (x + y + z) + d =~= a + x + (y + z + d));
    assert(a + (x + y + z) + d =~= (a + x) + y + (z + d));
    assert(a + (x + y + z) + d =~= (a + x + y) + z + d);
}

proof fn lemma_head_at(m: CollectionModel, pre: Seq<u8>, post: Seq<u8>)
    requires
        collection_wf(m),
    ensures
        ({
            let b = pre + collection_head(m) + post;
            let at = pre.len() as int;
            &&& u64_at(b, at) == m.max_supply
            &&& b.subrange(at + 8, at + 40) == m.collection_mint
            &&& b.subrange(at + 40, at + 72) == m.admin
            &&& b.subrange(at + 72, at + 104) == m.pda_creator
            &&& collection_head(m).len() == 104
        }),
{
    let b = pre + collection_head(m) + post;
    let at = pre.len() as int;
    let rest = m.collection_mint + m.admin + m.pda_creator;
    assert(b =~= pre + u64_bytes(m.max_supply) + (rest + post));
    lemma_u64_at(m.max_supply, pre, rest + post);
    assert(b.subrange(at + 8, at + 40) =~= m.collection_mint);
    assert(b.subrange(at + 40, at + 72) =~= m.admin);
    assert(b.subrange(at + 72, at + 104) =~= m.pda_creator);
}

proof fn lemma_tail_at(m: CollectionModel, pre: Seq<u8>, post: Seq<u8>)
    requires
        collection_wf(m),
    ensures
        ({
            let b = pre + collection_tail(m) + post;
            let at = pre.len() as int;
            &&& u16_at(b, at) == m.fee
            &&& string_at(b, at + 2) matches Some(n) && n.0 == m.name
            &&& string_at(b, string_at(b, at + 2).unwrap().1) matches Some(s) && s.0 == m.symbol
            &&& string_at(b, string_at(b, string_at(b, at + 2).unwrap().1).unwrap().1) == Some(
                (m.uri, (pre.len() + collection_tail(m).len()) as int),
            )
        }),
{
    let b = pre + collection_tail(m) + post;
    let f = u16_bytes(m.fee);
    let n = string_bytes(m.name);
    let s = string_bytes(m.symbol);
    let u = string_bytes(m.uri);
    assert(b =~= pre + f + (n + s + u + post));
    lemma_u16_at(m.fee, pre, n + s + u + post);
    assert(b =~= (pre + f) + n + (s + u + post));
    lemma_string_at(m.name, pre + f, s + u + post);
    assert(b =~= (pre + f + n) + s + (u + post));
    lemma_string_at(m.symbol, pre + f + n, u + post);
    assert(b =~= (pre + f + n + s) + u + post);
    lemma_string_at(m.uri, pre + f + n + s, post);
}

/// A collection bundle written between `pre` and `post` reads back.
pub proof fn lemma_collection_at(m: CollectionModel, pre: Seq<u8>, post: Seq<u8>)
    requires
        collection_wf(m),
    ensures
        collection_at(pre + collection_bytes(m) + post, pre.len() as int) == Some(
            (m, (pre.len() + collection_bytes(m).len()) as int),
        ),
{
    let h = collection_head(m);
    let c = creators_bytes(m.creators);
    let t = collection_tail(m);
    let b = pre + collection_bytes(m) + post;
    let at = pre.len() as int;
    lemma_regroup(pre, h, c, t, post);
    lemma_head_at(m, pre, c + t + post);
    lemma_creators_at(m.creators, pre + h, t + post);
    lemma_tail_at(m, pre + h + c, post);
    let p = at + 104 + c.len();
    assert(creators_at(b, at + 104) == Some((m.creators, p)));
    assert(u16_at(b, p) == m.fee);
    let n = string_at(b, p + 2).unwrap();
    let sy = string_at(b, n.1).unwrap();
    assert(string_at(b, sy.1) == Some((m.uri, (pre.len() + collection_bytes(m).len()) as int)));
}

/// A bundle that reads from bytes is well-formed, and its encoding is exactly
/// the bytes it was read from.
pub proof fn lemma_collection_parsed(b: Seq<u8>, at: int)
    requires
        collection_at(b, at) is Some,
    ensures
        collection_wf(collection_at(b, at).unwrap().0),
        collection_at(b, at).unwrap().1 == at + collection_bytes(collection_at(b, at).unwrap().0).len(),
        collection_at(b, at).unwrap().1 <= b.len(),
{
    let (m, p) = collection_at(b, at).unwrap();
    let cp = creators_at(b, at + 104).unwrap();
    assert forall|i: int| 0 <= i < m.creators.len() implies (#[trigger] m.creators[i]).address.len() == 32 by {
        assert(m.creators[i] == creator_at(b, at + 104 + 4 + 34 * i));
    }
    let n = string_at(b, cp.1 + 2).unwrap();
    let sy = string_at(b, n.1).unwrap();
    let u = string_at(b, sy.1).unwrap();
    assert(encode_utf8(m.name) == b.subrange(cp.1 + 2 + 4, n.1));
    assert(encode_utf8(m.symbol) == b.subrange(n.1 + 4, sy.1));
    assert(encode_utf8(m.uri) == b.subrange(sy.1 + 4, u.1));
    lemma_creators_body(m.creators);
}

fn push_creators(buf: &mut Vec<u8>, cs: &Vec<Creator>)
    requires
        cs@.len() <= u32::MAX,
    ensures
        final(buf)@ == old(buf)@ + creators_bytes(creators_view(cs@)),
{
    push_u32(buf, cs.len() as u32);
    let ghost start = buf@;
    let mut i: usize = 0;
    while i < cs.len()
        invariant
            0 <= i <= cs@.len(),
            buf@ == start + creators_body(creators_view(cs@.subrange(0, i as int))),
        decreases cs@.len() - i,
    {
        let c = cs[i];
        let ghost before = buf@;
        push_bytes(buf, &c.address.bytes);
        push_u8(buf, if c.verified { 1 } else { 0 });
        push_u8(buf, c.share);
        proof {
            let vs = creators_view(cs@.subrange(0, i + 1));
            assert(vs.drop_last() =~= creators_view(cs@.subrange(0, i as int)));
            assert(vs.last() == c@);
            assert(buf@ =~= start + creators_body(vs));
        }
        i = i + 1;
    }
    assert(cs@.subrange(0, cs@.len() as int) =~= cs@);
    assert(buf@ =~= old(buf)@ + creators_bytes(creators_view(cs@)));
}

/// The number of bytes that a collection bundle takes.
pub open spec fn collection_len(m: CollectionModel) -> int {
    (8 + 96 + 4 + 34 * m.creators.len() + 2 + 12 + encode_utf8(m.name).len() + encode_utf8(m.symbol).len()
        + encode_utf8(m.uri).len()) as int
}

pub fn encode_collection(c: &CollectionData) -> (r: Vec<u8>)
    requires
        collection_wf(c@),
    ensures
        r@ == collection_bytes(c@),
{
    let mut buf: Vec<u8> = Vec::new();
    push_u64(&mut buf, c.max_supply);
    push_bytes(&mut buf, &c.collection_mint.bytes);
    push_bytes(&mut buf, &c.admin.bytes);
    push_bytes(&mut buf, &c.pda_creator.bytes);
    push_creators(&mut buf, &c.creators);
    push_u16(&mut buf, c.fee);
    push_string(&mut buf, &c.name);
    push_string(&mut buf, &c.symbol);
    push_string(&mut buf, &c.uri);
    assert(buf@ =~= collection_bytes(c@));
    buf
}

/// Whether a collection bundle fits the record slot, checked without
/// overflow: the count of creators within capacity and the whole within the
/// record length.
pub fn collection_fits(c: &CollectionData) -> (r: Result<(), AppError>)
    ensures
        r == (if c.creators@.len() > MAX_CREATORS {
            Err(AppError::TooManyCreators)
        } else if collection_len(c@) > CollectionData::LEN {
            Err(AppError::AccountDataTooSmall)
        } else {
            Ok(())
        }),
{
    if c.creators.len() > MAX_CREATORS {
        return Err(AppError::TooManyCreators);
    }
    let n = string_len(&c.name);
    let s = string_len(&c.symbol);
    let u = string_len(&c.uri);
    let fixed: usize = 8 + 96 + 4 + 34 * c.creators.len() + 2 + 12;
    if n > CollectionData::LEN || s > CollectionData::LEN || u > CollectionData::LEN {
        return Err(AppError::AccountDataTooSmall);
    }
    if fixed + n + s + u > CollectionData::LEN {
        return Err(AppError::AccountDataTooSmall);
    }
    Ok(())
}

fn read_creators(b: &[u8], at: usize) -> (r: Option<(Vec<Creator>, usize)>)
    ensures
        match creators_at(b@, at as int) {
            Some(p) => r matches Some(q) && creators_view(q.0@) == p.0 && q.1 == p.1,
            None => r is None,
        },
{
    let len = b.len();
    if at > len || len - at < 4 {
        return None;
    }
    let n = read_u32(b, at);
    let count = n as u64;
    if ((len - at - 4) as u64) < 34 * count {
        return None;
    }
    let n = n as usize;
    let mut cs: Vec<Creator> = Vec::new();
    let mut i: usize = 0;
    while i < n
        invariant
            0 <= i <= n,
            len == b@.len(),
            n == u32_at(b@, at as int),
            at + 4 + 34 * n <= len,
            cs@.len() == i,
            forall|j: int| 0 <= j < i ==> #[trigger] b@[at + 4 + 34 * j + 32] <= 1,
            forall|j: int| 0 <= j < i ==> #[trigger] cs@[j]@ == creator_at(b@, at + 4 + 34 * j),
        decreases n - i,
    {
        let p = at + 4 + 34 * i;
        let flag = b[p + 32];
        if flag > 1 {
            return None;
        }
        let c = Creator { address: Address::read(b, p), verified: flag == 1, share: b[p + 33] };
        cs.push(c);
        i = i + 1;
    }
    proof {
        let parsed = Seq::new(n as nat, |j: int| creator_at(b@, at + 4 + 34 * j));
        assert(creators_view(cs@) =~= parsed);
    }
    Some((cs, at + 4 + 34 * n))
}

/// Reads a collection bundle at `at`.
pub fn read_collection(b: &[u8], at: usize) -> (r: Option<(CollectionData, usize)>)
    ensures
        match collection_at(b@, at as int) {
            Some(p) => r matches Some(q) && q.0@ == p.0 && q.1 == p.1,
            None => r is None,
        },
{
    let len = b.len();
    if at > len || len - at < 104 {
        return None;
    }
    let max_supply = read_u64(b, at);
    let collection_mint = Address::read(b, at + 8);
    let admin = Address::read(b, at + 40);
    let pda_creator = Address::read(b, at + 72);
    let (creators, p) = match read_creators(b, at + 104) {
        Some(x) => x,
        None => return None,
    };
    if p > len || len - p < 2 {
        return None;
    }
    let fee = read_u16(b, p);
    let (name, p) = match read_string(b, p + 2) {
        Some(x) => x,
        None => return None,
    };
    let (symbol, p) = match read_string(b, p) {
        Some(x) => x,
        None => return None,
    };
    let (uri, p) = match read_string(b, p) {
        Some(x) => x,
        None => return None,
    };
    Some((AddCollectionArgs { max_supply, collection_mint, admin, pda_creator, creators, fee, name, symbol, uri }, p))
}

pub fn decode_collection(b: &[u8]) -> (r: Result<CollectionData, AppError>)
    ensures
        match parse_collection(b@) {
            Some(m) => r matches Ok(c) && c@ == m,
            None => r matches Err(e) && e == AppError::InvalidAccountData,
        },
{
    if b.len() != CollectionData::LEN {
        return Err(AppError::InvalidAccountData);
    }
    match read_collection(b, 0) {
        Some((c, _)) => Ok(c),
        None => Err(AppError::InvalidAccountData),
    }
}

impl AddCollectionArgs {
    /// The Collection held by an account.
    pub fn from_account_info(a: &LedgerAccount) -> (r: Result<CollectionData, AppError>)
        ensures
            match parse_collection(a.data@) {
                Some(m) => r matches Ok(c) && c@ == m,
                None => r matches Err(e) && e == AppError::InvalidAccountData,
            },
    {
        decode_collection(a.data.as_slice())
    }
}

// ---- Promotion ----
/// The fields of a Promotion record; `AddPromotion` carries the same bundle.
#[derive(Clone, Copy, Debug)]
pub struct AddPromotionArgs {
    pub sale_price: u64,
    /// Start of the public sale, in seconds of ledger time.
    pub public_start_ts: u64,
    /// The collection mint that the promotion sells.
    pub collection: Address,
    /// The treasury that receives the proceeds.
    pub char_addr: Address,
}

pub type PromotionData = AddPromotionArgs;

pub struct PromotionModel {
    pub sale_price: u64,
    pub public_start_ts: u64,
    pub collection: Seq<u8>,
    pub char_addr: Seq<u8>,
}

impl View for AddPromotionArgs {
    type V = PromotionModel;

    open spec fn view(&self) -> PromotionModel {
        PromotionModel {
            sale_price: self.sale_price,
            public_start_ts: self.public_start_ts,
            collection: self.collection@,
            char_addr: self.char_addr@,
        }
    }
}

impl PromotionData {
    /// Slot length: price, start time and two addresses.
    pub const LEN: usize = 8 + 8 + 32 * 2;
}

pub open spec fn promotion_bytes(m: PromotionModel) -> Seq<u8> {
    u64_bytes(m.sale_price) + u64_bytes(m.public_start_ts) + m.collection + m.char_addr
}

/// The promotion bundle at `at` and the position after it.
pub open spec fn promotion_at(b: Seq<u8>, at: int) -> Option<(PromotionModel, int)> {
    if 0 <= at && at + 80 <= b.len() {
        Some(
            (
                PromotionModel {
                    sale_price: u64_at(b, at),
                    public_start_ts: u64_at(b, at + 8),
                    collection: b.subrange(at + 16, at + 48),
                    char_addr: b.subrange(at + 48, at + 80),
                },
                at + 80,
            ),
        )
    } else {
        None
    }
}

/// The Promotion stored in a slot of the record's fixed length.
pub open spec fn parse_promotion(b: Seq<u8>) -> Option<PromotionModel> {
    if b.len() == PromotionData::LEN {
        Some(promotion_at(b, 0).unwrap().0)
    } else {
        None
    }
}

pub fn encode_promotion(p: &PromotionData) -> (r: Vec<u8>)
    ensures
        r@ == promotion_bytes(p@),
{
    let mut buf: Vec<u8> = Vec::new();
    push_u64(&mut buf, p.sale_price);
    push_u64(&mut buf, p.public_start_ts);
    push_bytes(&mut buf, &p.collection.bytes);
    push_bytes(&mut buf, &p.char_addr.bytes);
    assert(buf@ =~= promotion_bytes(p@));
    buf
}

/// Reads a promotion bundle at `at`.
pub fn read_promotion(b: &[u8], at: usize) -> (r: Option<(PromotionData, usize)>)
    ensures
        match promotion_at(b@, at as int) {
            Some(p) => r matches Some(q) && q.0@ == p.0 && q.1 == p.1,
            None => r is None,
        },
{
    let len = b.len();
    if at > len || len - at < 80 {
        return None;
    }
    let sale_price = read_u64(b, at);
    let public_start_ts = read_u64(b, at + 8);
    let collection = Address::read(b, at + 16);
    let char_addr = Address::read(b, at + 48);
    Some((AddPromotionArgs { sale_price, public_start_ts, collection, char_addr }, at + 80))
}

pub fn decode_promotion(b: &[u8]) -> (r: Result<PromotionData, AppError>)
    ensures
        match parse_promotion(b@) {
            Some(m) => r matches Ok(p) && p@ == m,
            None => r == Err::<PromotionData, AppError>(AppError::InvalidAccountData),
        },
{
    if b.len() != PromotionData::LEN {
        return Err(AppError::InvalidAccountData);
    }
    match read_promotion(b, 0) {
        Some((p, _)) => Ok(p),
        None => Err(AppError::InvalidAccountData),
    }
}

impl AddPromotionArgs {
    /// The Promotion held by an account.
    pub fn from_account_info(a: &LedgerAccount) -> (r: Result<PromotionData, AppError>)
        ensures
            match parse_promotion(a.data@) {
                Some(m) => r matches Ok(p) && p@ == m,
                None => r == Err::<PromotionData, AppError>(AppError::InvalidAccountData),
            },
    {
        decode_promotion(a.data.as_slice())
    }
}

/// A promotion bundle written between `pre` and `post` reads back.
pub proof fn lemma_promotion_at(m: PromotionModel, pre: Seq<u8>, post: Seq<u8>)
    requires
        m.collection.len() == 32,
        m.char_addr.len() == 32,
    ensures
        promotion_at(pre + promotion_bytes(m) + post, pre.len() as int) == Some((m, pre.len() + 80int)),
{
    let b = pre + promotion_bytes(m) + post;
    let at = pre.len() as int;
    assert(b =~= pre + u64_bytes(m.sale_price) + (u64_bytes(m.public_start_ts) + m.collection + m.char_addr + post));
    lemma_u64_at(m.sale_price, pre, u64_bytes(m.public_start_ts) + m.collection + m.char_addr + post);
    assert(b =~= (pre + u64_bytes(m.sale_price)) + u64_bytes(m.public_start_ts) + (m.collection + m.char_addr + post));
    lemma_u64_at(m.public_start_ts, pre + u64_bytes(m.sale_price), m.collection + m.char_addr + post);
    assert(b.subrange(at + 16, at + 48) =~= m.collection);
    assert(b.subrange(at + 48, at + 80) =~= m.char_addr);
}

// ---- User ----
/// How many NFTs one signer has minted.
#[derive(Clone, Copy, Debug, PartialEq, Eq, Structural)]
pub struct UserData {
    pub minted: u16,
}

impl UserData {
    pub const LEN: usize = 2;
}

pub open spec fn user_bytes(minted: u16) -> Seq<u8> {
    u16_bytes(minted)
}

/// The mint counter stored in a User slot of the record's fixed length.
pub open spec fn parse_user(b: Seq<u8>) -> Option<u16> {
    if b.len() == UserData::LEN {
        Some(u16_at(b, 0))
    } else {
        None
    }
}

pub fn encode_user(u: &UserData) -> (r: Vec<u8>)
    ensures
        r@ == user_bytes(u.minted),
{
    let mut buf: Vec<u8> = Vec::new();
    push_u16(&mut buf, u.minted);
    buf
}

pub fn decode_user(b: &[u8]) -> (r: Result<UserData, AppError>)
    ensures
        match parse_user(b@) {
            Some(m) => r == Ok::<UserData, AppError>(UserData { minted: m }),
            None => r == Err::<UserData, AppError>(AppError::InvalidAccountData),
        },
{
    if b.len() != UserData::LEN {
        return Err(AppError::InvalidAccountData);
    }
    Ok(UserData { minted: read_u16(b, 0) })
}

impl UserData {
    /// The User record held by an account.
    pub fn from_account_info(a: &LedgerAccount) -> (r: Result<UserData, AppError>)
        ensures
            match parse_user(a.data@) {
                Some(m) => r == Ok::<UserData, AppError>(UserData { minted: m }),
                None => r == Err::<UserData, AppError>(AppError::InvalidAccountData),
            },
    {
        decode_user(a.data.as_slice())
    }
}

/// A written User record reads back.
pub proof fn lemma_user_round_trip(minted: u16)
    ensures
        parse_user(user_bytes(minted)) == Some(minted),
{
    lemma_u16_at(minted, seq![], seq![]);
    assert(seq![] + u16_bytes(minted) + seq![] =~= u16_bytes(minted));
}

// ---- Token ----
/// The arguments of `CreateToken`.
#[derive(Clone, Debug)]
pub struct CreateTokenArgs {
    pub decimals: u8,
    pub name: String,
    pub symbol: String,
    pub uri: String,
}

/// A fungible token created through this program.
#[derive(Clone, Debug)]
pub struct TokenData {
    /// The first creator; only they may rewrite the record.
    pub creator: Address,
    pub decimals: u8,
    pub name: String,
    pub symbol: String,
    pub mint: Address,
}

pub struct TokenModel {
    pub creator: Seq<u8>,
    pub decimals: u8,
    pub name: Seq<char>,
    pub symbol: Seq<char>,
    pub mint: Seq<u8>,
}

impl View for TokenData {
    type V = TokenModel;

    open spec fn view(&self) -> TokenModel {
        TokenModel {
            creator: self.creator@,
            decimals: self.decimals,
            name: self.name@,
            symbol: self.symbol@,
            mint: self.mint@,
        }
    }
}

impl TokenData {
    /// Slot length: creator, decimals, name and symbol of 42 bytes together
    /// with their length prefixes, and mint.
    pub const LEN: usize = 32 + 1 + 4 + 4 + 42 + 32;
}

pub open spec fn token_bytes(m: TokenModel) -> Seq<u8> {
    m.creator + seq![m.decimals] + string_bytes(m.name) + string_bytes(m.symbol) + m.mint
}

/// The Token stored in a slot: the record's fixed length, and a well-formed
/// record at its start.
pub open spec fn parse_token(b: Seq<u8>) -> Option<TokenModel> {
    if b.len() == TokenData::LEN {
        match string_at(b, 33) {
            Some(n) => match string_at(b, n.1) {
                Some(s) => if s.1 + 32 <= b.len() {
                    Some(
                        TokenModel {
                            creator: b.subrange(0, 32),
                            decimals: b[32],
                            name: n.0,
                            symbol: s.0,
                            mint: b.subrange(s.1, s.1 + 32),
                        },
                    )
                } else {
                    None
                },
                None => None,
            },
            None => None,
        }
    } else {
        None
    }
}

/// The number of bytes that a Token record takes.
pub open spec fn token_len(m: TokenModel) -> int {
    (32 + 1 + 8 + encode_utf8(m.name).len() + encode_utf8(m.symbol).len() + 32) as int
}

pub fn encode_token(t: &TokenData) -> (r: Vec<u8>)
    requires
        string_fits(t.name@),
        string_fits(t.symbol@),
    ensures
        r@ == token_bytes(t@),
{
    let mut buf: Vec<u8> = Vec::new();
    push_bytes(&mut buf, &t.creator.bytes);
    push_u8(&mut buf, t.decimals);
    push_string(&mut buf, &t.name);
    push_string(&mut buf, &t.symbol);
    push_bytes(&mut buf, &t.mint.bytes);
    assert(buf@ =~= token_bytes(t@));
    buf
}

pub fn decode_token(b: &[u8]) -> (r: Result<TokenData, AppError>)
    ensures
        match parse_token(b@) {
            Some(m) => r matches Ok(t) && t@ == m,
            None => r == Err::<TokenData, AppError>(AppError::InvalidAccountData),
        },
{
    let len = b.len();
    if len != TokenData::LEN {
        return Err(AppError::InvalidAccountData);
    }
    let creator = Address::read(b, 0);
    let decimals = b[32];
    let (name, p) = match read_string(b, 33) {
        Some(x) => x,
        None => return Err(AppError::InvalidAccountData),
    };
    let (symbol, p) = match read_string(b, p) {
        Some(x) => x,
        None => return Err(AppError::InvalidAccountData),
    };
    if p > len || len - p < 32 {
        return Err(AppError::InvalidAccountData);
    }
    let mint = Address::read(b, p);
    Ok(TokenData { creator, decimals, name, symbol, mint })
}

// ---- CreateAndApproveCollection ----
/// The arguments of `CreateAndApproveCollection`: the collection NFT's own metadata.
#[derive(Clone, Debug)]
pub struct CreateCollectionArgs {
    /// Royalty in basis points.
    pub fee: u16,
    pub name: String,
    pub symbol: String,
    pub uri: String,
}

} // verus!
