//! Explicit record stores.
//!
//! Each contract owns a handful of singleton key-value stores: the Request
//! Records written by inbound receives, the Ack Records written by
//! acknowledgement callbacks, the remote-contract allowlist, the per-chain
//! type tags, and (for the NFT contract) the token ownership table.  They
//! are modelled as explicit association lists whose view is a `Map`;
//! re-delivery of the same key overwrites (last write wins), never corrupts.

use vstd::prelude::*;

verus! {

/// Compares two byte strings.
pub fn bytes_eq(a: &Vec<u8>, b: &Vec<u8>) -> (r: bool)
    ensures
        r == (a@ == b@),
{
    let n = a.len();
    if n != b.len() {
        proof {
            assert(a@ != b@);
        }
        return false;
    }
    let mut i: usize = 0;
    while i < n
        invariant
            i <= n,
            n == a@.len() == b@.len(),
            forall|j: int| 0 <= j < i ==> a@[j] == b@[j],
        decreases n - i,
    {
        if a[i] != b[i] {
            proof {
                assert(a@[i as int] != b@[i as int]);
            }
            return false;
        }
        i += 1;
    }
    proof {
        assert(a@ =~= b@);
    }
    true
}

/// Copies a byte string.
pub fn clone_bytes(s: &Vec<u8>) -> (r: Vec<u8>)
    ensures
        r@ == s@,
{
    crate::codec::bytes_range(s, 0, s.len())
}

// ---------------------------------------------------------------------------
// Request Records: (source chain id, request id) -> message
// ---------------------------------------------------------------------------

struct RecordEntry {
    chain: Vec<u8>,
    id: u64,
    msg: Vec<u8>,
}

/// The store of Request Records: keyed by `(source_chain_id, request_id)`,
/// holding the decoded message of each inbound receive.
pub struct RecordStore {
    entries: Vec<RecordEntry>,
}

spec fn rec_map_of(es: Seq<RecordEntry>) -> Map<(Seq<u8>, u64), Seq<u8>>
    decreases es.len(),
{
    if es.len() == 0 {
        Map::empty()
    } else {
        rec_map_of(es.drop_last()).insert((es.last().chain@, es.last().id), es.last().msg@)
    }
}

impl View for RecordStore {
    type V = Map<(Seq<u8>, u64), Seq<u8>>;

    closed spec fn view(&self) -> Map<(Seq<u8>, u64), Seq<u8>> {
        rec_map_of(self.entries@)
    }
}

impl RecordStore {
    pub fn new() -> (s: Self)
        ensures
            s@ == Map::<(Seq<u8>, u64), Seq<u8>>::empty(),
    {
        RecordStore { entries: Vec::new() }
    }

    /// Upserts a record; re-delivery of the same key overwrites.
    pub fn put(&mut self, chain: &Vec<u8>, id: u64, msg: &Vec<u8>)
        ensures
            final(self)@ == old(self)@.insert((chain@, id), msg@),
    {
        let entry = RecordEntry { chain: clone_bytes(chain), id, msg: clone_bytes(msg) };
        self.entries.push(entry);
        proof {
            assert(self.entries@.drop_last() =~= old(self).entries@);
        }
    }

    /// Looks a record up.
    pub fn get(&self, chain: &Vec<u8>, id: u64) -> (r: Option<Vec<u8>>)
        ensures
            match r {
                Some(m) => self@.contains_key((chain@, id)) && m@ == self@[(chain@, id)],
                None => !self@.contains_key((chain@, id)),
            },
{
        let ghost k = (chain@, id);
        let mut i = self.entries.len();
        proof {
            assert(self.entries@.take(i as int) =~= self.entries@);
        }
        while i > 0
            invariant
                i <= self.entries@.len(),
                k == (chain@, id),
                rec_map_of(self.entries@).contains_key(k) == rec_map_of(
                    self.entries@.take(i as int),
                ).contains_key(k),
                rec_map_of(self.entries@.take(i as int)).contains_key(k) ==> rec_map_of(
                    self.entries@,
                )[k] == rec_map_of(self.entries@.take(i as int))[k],
            decreases i,
        {
            i -= 1;
            proof {
                assert(self.entries@.take(i + 1).drop_last() =~= self.entries@.take(i as int));
                assert(self.entries@.take(i + 1).last() == self.entries@[i as int]);
            }
            let e = &self.entries[i];
            let hit = bytes_eq(&e.chain, chain) && e.id == id;
            proof {
                let prev = rec_map_of(self.entries@.take(i as int));
                assert(rec_map_of(self.entries@.take(i + 1)) == prev.insert(
                    (e.chain@, e.id),
                    e.msg@,
                ));
                if hit {
                    assert((e.chain@, e.id) == k);
                    assert(rec_map_of(self.entries@.take(i + 1))[k] == e.msg@);
                } else {
                    assert((e.chain@, e.id) != k) by {
                        if (e.chain@, e.id) == k {
                            assert(e.chain@ == chain@);
                            assert(e.id == id);
                        }
                    }
                }
            }
            if hit {
                return Some(clone_bytes(&e.msg));
            }
        }
        proof {
            assert(self.entries@.take(0) =~= Seq::<RecordEntry>::empty());
        }
        None
    }
}

// ---------------------------------------------------------------------------
// Ack Records: request identifier -> outcome
// ---------------------------------------------------------------------------

/// The recorded fate of one outbound request: the execution-success flag,
/// and the decoded ack message when there was one.
#[derive(Debug)]
pub struct AckRecord {
    pub success: bool,
    pub message: Vec<u8>,
}

/// The mathematical image of an [`AckRecord`].
pub ghost struct AckRecordV {
    pub success: bool,
    pub message: Seq<u8>,
}

impl View for AckRecord {
    type V = AckRecordV;

    open spec fn view(&self) -> AckRecordV {
        AckRecordV { success: self.success, message: self.message@ }
    }
}

struct AckEntry {
    id: u128,
    rec: AckRecord,
}

/// The store of Ack Records, keyed by request identifier; immutable in
/// intent, overwriting on re-delivery.
pub struct AckStore {
    entries: Vec<AckEntry>,
}

spec fn ack_map_of(es: Seq<AckEntry>) -> Map<u128, AckRecordV>
    decreases es.len(),
{
    if es.len() == 0 {
        Map::empty()
    } else {
        ack_map_of(es.drop_last()).insert(es.last().id, es.last().rec@)
    }
}

impl View for AckStore {
    type V = Map<u128, AckRecordV>;

    closed spec fn view(&self) -> Map<u128, AckRecordV> {
        ack_map_of(self.entries@)
    }
}

impl AckStore {
    pub fn new() -> (s: Self)
        ensures
            s@ == Map::<u128, AckRecordV>::empty(),
    {
        AckStore { entries: Vec::new() }
    }

    pub fn put(&mut self, id: u128, success: bool, message: &Vec<u8>)
        ensures
            final(self)@ == old(self)@.insert(
                id,
                AckRecordV { success, message: message@ },
            ),
    {
        let entry = AckEntry { id, rec: AckRecord { success, message: clone_bytes(message) } };
        self.entries.push(entry);
        proof {
            assert(self.entries@.drop_last() =~= old(self).entries@);
        }
    }

    pub fn get(&self, id: u128) -> (r: Option<AckRecord>)
        ensures
            match r {
                Some(rec) => self@.contains_key(id) && rec@ == self@[id],
                None => !self@.contains_key(id),
            },
    {
        let mut i = self.entries.len();
        proof {
            assert(self.entries@.take(i as int) =~= self.entries@);
        }
        while i > 0
            invariant
                i <= self.entries@.len(),
                ack_map_of(self.entries@).contains_key(id) == ack_map_of(
                    self.entries@.take(i as int),
                ).contains_key(id),
                ack_map_of(self.entries@.take(i as int)).contains_key(id) ==> ack_map_of(
                    self.entries@,
                )[id] == ack_map_of(self.entries@.take(i as int))[id],
            decreases i,
        {
            i -= 1;
            proof {
                assert(self.entries@.take(i + 1).drop_last() =~= self.entries@.take(i as int));
                assert(self.entries@.take(i + 1).last() == self.entries@[i as int]);
            }
            let e = &self.entries[i];
            let hit = e.id == id;
            proof {
                let prev = ack_map_of(self.entries@.take(i as int));
                assert(ack_map_of(self.entries@.take(i + 1)) == prev.insert(e.id, e.rec@));
            }
            if hit {
                return Some(
                    AckRecord { success: e.rec.success, message: clone_bytes(&e.rec.message) },
                );
            }
        }
        proof {
            assert(self.entries@.take(0) =~= Seq::<AckEntry>::empty());
        }
        None
    }
}

// ---------------------------------------------------------------------------
// Byte-string maps: chain id -> contract address, chain id -> chain type
// ---------------------------------------------------------------------------

struct AddrEntry {
    key: Vec<u8>,
    val: Vec<u8>,
}

/// A map from chain id to remote contract address: the allowlist that the
/// inbound provenance check consults.
pub struct AddrMap {
    entries: Vec<AddrEntry>,
}

spec fn addr_map_of(es: Seq<AddrEntry>) -> Map<Seq<u8>, Seq<u8>>
    decreases es.len(),
{
    if es.len() == 0 {
        Map::empty()
    } else {
        addr_map_of(es.drop_last()).insert(es.last().key@, es.last().val@)
    }
}

impl View for AddrMap {
    type V = Map<Seq<u8>, Seq<u8>>;

    closed spec fn view(&self) -> Map<Seq<u8>, Seq<u8>> {
        addr_map_of(self.entries@)
    }
}

impl AddrMap {
    pub fn new() -> (s: Self)
        ensures
            s@ == Map::<Seq<u8>, Seq<u8>>::empty(),
    {
        AddrMap { entries: Vec::new() }
    }

    pub fn put(&mut self, key: &Vec<u8>, val: &Vec<u8>)
        ensures
            final(self)@ == old(self)@.insert(key@, val@),
    {
        let entry = AddrEntry { key: clone_bytes(key), val: clone_bytes(val) };
        self.entries.push(entry);
        proof {
            assert(self.entries@.drop_last() =~= old(self).entries@);
        }
    }

    pub fn get(&self, key: &Vec<u8>) -> (r: Option<Vec<u8>>)
        ensures
            match r {
                Some(v) => self@.contains_key(key@) && v@ == self@[key@],
                None => !self@.contains_key(key@),
            },
    {
        let mut i = self.entries.len();
        proof {
            assert(self.entries@.take(i as int) =~= self.entries@);
        }
        while i > 0
            invariant
                i <= self.entries@.len(),
                addr_map_of(self.entries@).contains_key(key@) == addr_map_of(
                    self.entries@.take(i as int),
                ).contains_key(key@),
                addr_map_of(self.entries@.take(i as int)).contains_key(key@) ==> addr_map_of(
                    self.entries@,
                )[key@] == addr_map_of(self.entries@.take(i as int))[key@],
            decreases i,
        {
            i -= 1;
            proof {
                assert(self.entries@.take(i + 1).drop_last() =~= self.entries@.take(i as int));
                assert(self.entries@.take(i + 1).last() == self.entries@[i as int]);
            }
            let e = &self.entries[i];
            let hit = bytes_eq(&e.key, key);
            proof {
                let prev = addr_map_of(self.entries@.take(i as int));
                assert(addr_map_of(self.entries@.take(i + 1)) == prev.insert(e.key@, e.val@));
            }
            if hit {
                return Some(clone_bytes(&e.val));
            }
        }
        proof {
            assert(self.entries@.take(0) =~= Seq::<AddrEntry>::empty());
        }
        None
    }
}

struct ChainTypeEntry {
    key: Vec<u8>,
    val: u64,
}

/// A map from chain id to chain type tag; the tag decides per-chain policy
/// such as case-insensitive address comparison.
pub struct ChainTypeMap {
    entries: Vec<ChainTypeEntry>,
}

spec fn chain_type_map_of(es: Seq<ChainTypeEntry>) -> Map<Seq<u8>, u64>
    decreases es.len(),
{
    if es.len() == 0 {
        Map::empty()
    } else {
        chain_type_map_of(es.drop_last()).insert(es.last().key@, es.last().val)
    }
}

impl View for ChainTypeMap {
    type V = Map<Seq<u8>, u64>;

    closed spec fn view(&self) -> Map<Seq<u8>, u64> {
        chain_type_map_of(self.entries@)
    }
}

impl ChainTypeMap {
    pub fn new() -> (s: Self)
        ensures
            s@ == Map::<Seq<u8>, u64>::empty(),
    {
        ChainTypeMap { entries: Vec::new() }
    }

    pub fn put(&mut self, key: &Vec<u8>, val: u64)
        ensures
            final(self)@ == old(self)@.insert(key@, val),
    {
        let entry = ChainTypeEntry { key: clone_bytes(key), val };
        self.entries.push(entry);
        proof {
            assert(self.entries@.drop_last() =~= old(self).entries@);
        }
    }

    pub fn get(&self, key: &Vec<u8>) -> (r: Option<u64>)
        ensures
            match r {
                Some(v) => self@.contains_key(key@) && v == self@[key@],
                None => !self@.contains_key(key@),
            },
    {
        let mut i = self.entries.len();
        proof {
            assert(self.entries@.take(i as int) =~= self.entries@);
        }
        while i > 0
            invariant
                i <= self.entries@.len(),
                chain_type_map_of(self.entries@).contains_key(key@) == chain_type_map_of(
                    self.entries@.take(i as int),
                ).contains_key(key@),
                chain_type_map_of(self.entries@.take(i as int)).contains_key(key@)
                    ==> chain_type_map_of(self.entries@)[key@] == chain_type_map_of(
                    self.entries@.take(i as int),
                )[key@],
            decreases i,
        {
            i -= 1;
            proof {
                assert(self.entries@.take(i + 1).drop_last() =~= self.entries@.take(i as int));
                assert(self.entries@.take(i + 1).last() == self.entries@[i as int]);
            }
            let e = &self.entries[i];
            let hit = bytes_eq(&e.key, key);
            proof {
                let prev = chain_type_map_of(self.entries@.take(i as int));
                assert(chain_type_map_of(self.entries@.take(i + 1)) == prev.insert(e.key@, e.val));
            }
            if hit {
                return Some(e.val);
            }
        }
        proof {
            assert(self.entries@.take(0) =~= Seq::<ChainTypeEntry>::empty());
        }
        None
    }
}

// ---------------------------------------------------------------------------
// Token ownership: token id -> owner and metadata
// ---------------------------------------------------------------------------

/// What the NFT contract stores for one token.
#[derive(Debug)]
pub struct TokenInfo {
    pub owner: Vec<u8>,
    pub token_uri: Vec<u8>,
}

/// The mathematical image of a [`TokenInfo`].
pub ghost struct TokenInfoV {
    pub owner: Seq<u8>,
    pub token_uri: Seq<u8>,
}

impl View for TokenInfo {
    type V = TokenInfoV;

    open spec fn view(&self) -> TokenInfoV {
        TokenInfoV { owner: self.owner@, token_uri: self.token_uri@ }
    }
}

struct TokenEntry {
    id: u64,
    info: TokenInfo,
}

/// The token ownership table: minting inserts, burning removes.
pub struct TokenMap {
    entries: Vec<TokenEntry>,
}

spec fn token_map_of(es: Seq<TokenEntry>) -> Map<u64, TokenInfoV>
    decreases es.len(),
{
    if es.len() == 0 {
        Map::empty()
    } else {
        token_map_of(es.drop_last()).insert(es.last().id, es.last().info@)
    }
}

impl View for TokenMap {
    type V = Map<u64, TokenInfoV>;

    closed spec fn view(&self) -> Map<u64, TokenInfoV> {
        token_map_of(self.entries@)
    }
}

impl TokenMap {
    pub fn new() -> (s: Self)
        ensures
            s@ == Map::<u64, TokenInfoV>::empty(),
    {
        TokenMap { entries: Vec::new() }
    }

    pub fn put(&mut self, id: u64, owner: &Vec<u8>, token_uri: &Vec<u8>)
        ensures
            final(self)@ == old(self)@.insert(
                id,
                TokenInfoV { owner: owner@, token_uri: token_uri@ },
            ),
    {
        let entry = TokenEntry {
            id,
            info: TokenInfo { owner: clone_bytes(owner), token_uri: clone_bytes(token_uri) },
        };
        self.entries.push(entry);
        proof {
            assert(self.entries@.drop_last() =~= old(self).entries@);
        }
    }

    pub fn get(&self, id: u64) -> (r: Option<TokenInfo>)
        ensures
            match r {
                Some(info) => self@.contains_key(id) && info@ == self@[id],
                None => !self@.contains_key(id),
            },
    {
        let mut i = self.entries.len();
        proof {
            assert(self.entries@.take(i as int) =~= self.entries@);
        }
        while i > 0
            invariant
                i <= self.entries@.len(),
                token_map_of(self.entries@).contains_key(id) == token_map_of(
                    self.entries@.take(i as int),
                ).contains_key(id),
                token_map_of(self.entries@.take(i as int)).contains_key(id) ==> token_map_of(
                    self.entries@,
                )[id] == token_map_of(self.entries@.take(i as int))[id],
            decreases i,
        {
            i -= 1;
            proof {
                assert(self.entries@.take(i + 1).drop_last() =~= self.entries@.take(i as int));
                assert(self.entries@.take(i + 1).last() == self.entries@[i as int]);
            }
            let e = &self.entries[i];
            let hit = e.id == id;
            proof {
                let prev = token_map_of(self.entries@.take(i as int));
                assert(token_map_of(self.entries@.take(i + 1)) == prev.insert(e.id, e.info@));
            }
            if hit {
                return Some(
                    TokenInfo {
                        owner: clone_bytes(&e.info.owner),
                        token_uri: clone_bytes(&e.info.token_uri),
                    },
                );
            }
        }
        proof {
            assert(self.entries@.take(0) =~= Seq::<TokenEntry>::empty());
        }
        None
    }

    /// Removes every trace of a token (a burn).
    pub fn remove(&mut self, id: u64)
        ensures
            final(self)@ == old(self)@.remove(id),
    {
        let n = self.entries.len();
        let mut kept: Vec<TokenEntry> = Vec::new();
        let mut i: usize = 0;
        proof {
            assert(old(self).entries@.take(0) =~= Seq::<TokenEntry>::empty());
            assert(token_map_of(kept@) =~= token_map_of(old(self).entries@.take(0)).remove(id));
        }
        while i < n
            invariant
                i <= n,
                n == self.entries@.len(),
                self.entries@ == old(self).entries@,
                token_map_of(kept@) == token_map_of(self.entries@.take(i as int)).remove(id),
            decreases n - i,
        {
            proof {
                assert(self.entries@.take(i + 1).drop_last() =~= self.entries@.take(i as int));
                assert(self.entries@.take(i + 1).last() == self.entries@[i as int]);
            }
            let e = &self.entries[i];
            let ghost prev = token_map_of(self.entries@.take(i as int));
            proof {
                assert(token_map_of(self.entries@.take(i + 1)) == prev.insert(e.id, e.info@));
            }
            if e.id != id {
                let copy = TokenEntry {
                    id: e.id,
                    info: TokenInfo {
                        owner: clone_bytes(&e.info.owner),
                        token_uri: clone_bytes(&e.info.token_uri),
                    },
                };
                let ghost kept_before = kept@;
                kept.push(copy);
                proof {
                    assert(kept@.drop_last() =~= kept_before);
                    assert(token_map_of(kept@) == token_map_of(kept_before).insert(e.id, e.info@));
                    assert(prev.remove(id).insert(e.id, e.info@) =~= prev.insert(
                        e.id,
                        e.info@,
                    ).remove(id));
                }
            } else {
                proof {
                    assert(prev.insert(e.id, e.info@).remove(id) =~= prev.remove(id));
                }
            }
            i += 1;
        }
        proof {
            assert(self.entries@.take(n as int) =~= self.entries@);
        }
        self.entries = kept;
    }
}

/// A key is in the map exactly when some entry carries it.
proof fn lemma_addr_map_contains(es: Seq<AddrEntry>, k: Seq<u8>)
    ensures
        addr_map_of(es).contains_key(k) <==> exists|i: int|
            0 <= i < es.len() && (#[trigger] es[i]).key@ == k,
    decreases es.len(),
{
    if es.len() > 0 {
        lemma_addr_map_contains(es.drop_last(), k);
        if es.last().key@ == k {
            assert(es[es.len() - 1].key@ == k);
        } else {
            if addr_map_of(es).contains_key(k) {
                let i = choose|i: int| 0 <= i < es.drop_last().len() && (#[trigger] es.drop_last()[i]).key@
                    == k;
                assert(es[i].key@ == k);
            }
            if exists|i: int| 0 <= i < es.len() && (#[trigger] es[i]).key@ == k {
                let i = choose|i: int| 0 <= i < es.len() && (#[trigger] es[i]).key@ == k;
                assert(i < es.len() - 1);
                assert(es.drop_last()[i].key@ == k);
            }
        }
    }
}

/// Whether a key already occurs in a pair list.
fn pairs_contain(r: &Vec<(Vec<u8>, Vec<u8>)>, k: &Vec<u8>) -> (b: bool)
    ensures
        b == exists|i: int| 0 <= i < r@.len() && (#[trigger] r@[i]).0@ == k@,
{
    let n = r.len();
    let mut i: usize = 0;
    while i < n
        invariant
            i <= n,
            n == r@.len(),
            forall|j: int| 0 <= j < i ==> (#[trigger] r@[j]).0@ != k@,
        decreases n - i,
    {
        if bytes_eq(&r[i].0, k) {
            assert(r@[i as int].0@ == k@);
            return true;
        }
        i += 1;
    }
    false
}

impl AddrMap {
    /// Every pair of the map, each key once, with the value the map holds
    /// for it.
    pub fn pairs(&self) -> (r: Vec<(Vec<u8>, Vec<u8>)>)
        ensures
            forall|i: int|
                0 <= i < r@.len() ==> self@.contains_key((#[trigger] r@[i]).0@) && self@[r@[i].0@]
                    == r@[i].1@,
            forall|k: Seq<u8>|
                #[trigger] self@.contains_key(k) ==> exists|i: int|
                    0 <= i < r@.len() && (#[trigger] r@[i]).0@ == k,
    {
        let n = self.entries.len();
        let mut r: Vec<(Vec<u8>, Vec<u8>)> = Vec::new();
        let mut i: usize = 0;
        while i < n
            invariant
                i <= n,
                n == self.entries@.len(),
                forall|j: int|
                    0 <= j < r@.len() ==> self@.contains_key((#[trigger] r@[j]).0@)
                        && self@[r@[j].0@] == r@[j].1@,
                forall|j: int|
                    0 <= j < i ==> exists|x: int|
                        0 <= x < r@.len() && (#[trigger] r@[x]).0@ == (#[trigger] self.entries@[j]).key@,
            decreases n - i,
        {
            let ghost r_before = r@;
            let e = &self.entries[i];
            if !pairs_contain(&r, &e.key) {
                proof {
                    lemma_addr_map_contains(self.entries@, e.key@);
                    assert(self.entries@[i as int].key@ == e.key@);
                    assert(self@.contains_key(e.key@));
                }
                let v = match self.get(&e.key) {
                    Some(v) => v,
                    None => {
                        proof {
                            assert(false);
                        }
                        Vec::new()
                    },
                };
                r.push((clone_bytes(&e.key), v));
            }
            proof {
                assert forall|j: int| 0 <= j < i + 1 implies exists|x: int|
                    0 <= x < r@.len() && (#[trigger] r@[x]).0@ == (#[trigger] self.entries@[j]).key@ by {
                    if j < i {
                        let x = choose|x: int|
                            0 <= x < r_before.len() && (#[trigger] r_before[x]).0@
                                == self.entries@[j].key@;
                        assert(r@[x].0@ == self.entries@[j].key@);
                    } else {
                        if r@.len() > r_before.len() {
                            assert(r@[r@.len() - 1].0@ == self.entries@[j].key@);
                        } else {
                            let x = choose|x: int|
                                0 <= x < r_before.len() && (#[trigger] r_before[x]).0@
                                    == self.entries@[i as int].key@;
                            assert(r@[x].0@ == self.entries@[j].key@);
                        }
                    }
                }
            }
            i += 1;
        }
        proof {
            assert forall|k: Seq<u8>| #[trigger] self@.contains_key(k) implies exists|x: int|
                0 <= x < r@.len() && (#[trigger] r@[x]).0@ == k by {
                lemma_addr_map_contains(self.entries@, k);
                let j = choose|j: int| 0 <= j < self.entries@.len() && (#[trigger] self.entries@[j]).key@
                    == k;
                let x = choose|x: int|
                    0 <= x < r@.len() && (#[trigger] r@[x]).0@ == self.entries@[j].key@;
                assert(r@[x].0@ == k);
            }
        }
        r
    }
}

} // verus!
