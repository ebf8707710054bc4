//! The set of playback clients that registered with the server, each with
//! the time it was last heard from.

use vstd::prelude::*;

verus! {

/// A client's UDP address, as plain values: the IP address (an IPv4 address
/// is held in the low 32 bits), the port, and for IPv6 the flow label and
/// scope id. Two addresses are the same client when all fields agree.
#[derive(Clone, Copy, Debug, PartialEq, Eq, Structural)]
pub struct PeerAddr {
    pub ip: u128,
    pub is_v6: bool,
    pub port: u16,
    pub flowinfo: u32,
    pub scope_id: u32,
}

/// A client is dropped once it has not been heard from for 10 s.
pub const CLIENT_TIMEOUT_MS: u64 = 10_000;

/// Whether a client last heard from at `last_seen_ms` is still active at
/// `now_ms` (a clock reading earlier than `last_seen_ms` counts as no time
/// elapsed).
pub open spec fn is_fresh(now_ms: u64, last_seen_ms: u64) -> bool {
    now_ms <= last_seen_ms || now_ms - last_seen_ms <= CLIENT_TIMEOUT_MS
}

#[derive(Clone, Copy, Debug)]
pub struct ClientEntry {
    pub addr: PeerAddr,
    pub last_seen_ms: u64,
}

pub struct ClientRegistry {
    entries: Vec<ClientEntry>,
}

pub open spec fn addrs_distinct(s: Seq<ClientEntry>) -> bool {
    forall|i: int, j: int|
        0 <= i < s.len() && 0 <= j < s.len() && i != j ==> #[trigger] s[i].addr != #[trigger] s[j].addr
}

pub open spec fn holds_addr(s: Seq<ClientEntry>, a: PeerAddr) -> bool {
    exists|i: int| 0 <= i < s.len() && #[trigger] s[i].addr == a
}

/// The registry as a map from address to last-seen time.
pub open spec fn entries_map(s: Seq<ClientEntry>) -> Map<PeerAddr, u64> {
    Map::new(
        |a: PeerAddr| holds_addr(s, a),
        |a: PeerAddr| s[choose|i: int| 0 <= i < s.len() && #[trigger] s[i].addr == a].last_seen_ms,
    )
}

/// The clients of `m` still active at `now_ms`.
pub open spec fn fresh_clients(m: Map<PeerAddr, u64>, now_ms: u64) -> Map<PeerAddr, u64> {
    Map::new(|a: PeerAddr| m.contains_key(a) && is_fresh(now_ms, m[a]), |a: PeerAddr| m[a])
}

/// In a registry without repeated addresses, each entry is the map's value
/// at its address.
pub proof fn lemma_entry_in_map(s: Seq<ClientEntry>, i: int)
    requires
        addrs_distinct(s),
        0 <= i < s.len(),
    ensures
        entries_map(s).contains_key(s[i].addr),
        entries_map(s)[s[i].addr] == s[i].last_seen_ms,
{
    let a = s[i].addr;
    assert(holds_addr(s, a));
    let j = choose|j: int| 0 <= j < s.len() && #[trigger] s[j].addr == a;
    assert(s[j].addr == s[i].addr);
}

proof fn lemma_all_entries_in_map(s: Seq<ClientEntry>)
    requires
        addrs_distinct(s),
    ensures
        forall|i: int|
            0 <= i < s.len() ==> entries_map(s).contains_key(#[trigger] s[i].addr)
                && entries_map(s)[s[i].addr] == s[i].last_seen_ms,
{
    assert forall|i: int| 0 <= i < s.len() implies entries_map(s).contains_key(#[trigger] s[i].addr)
        && entries_map(s)[s[i].addr] == s[i].last_seen_ms by {
        lemma_entry_in_map(s, i);
    }
}

impl View for ClientRegistry {
    type V = Map<PeerAddr, u64>;

    closed spec fn view(&self) -> Map<PeerAddr, u64> {
        entries_map(self.entries@)
    }
}

impl ClientRegistry {
    pub closed spec fn wf(&self) -> bool {
        addrs_distinct(self.entries@)
    }

    pub fn new() -> (r: Self)
        ensures
            r.wf(),
            r@ == Map::<PeerAddr, u64>::empty(),
    {
        let r = ClientRegistry { entries: Vec::new() };
        assert(r@ =~= Map::<PeerAddr, u64>::empty());
        r
    }

    /// Number of registered clients.
    pub fn len(&self) -> (n: usize)
        requires
            self.wf(),
        ensures
            n == self@.len(),
    {
        proof {
            self.lemma_dom_len();
        }
        self.entries.len()
    }

    proof fn lemma_dom_len(&self)
        requires
            self.wf(),
        ensures
            self@.dom().finite(),
            self@.len() == self.entries@.len(),
        decreases self.entries@.len(),
    {
        let s = self.entries@;
        lemma_seq_map_dom(s);
    }

    fn position(&self, addr: PeerAddr) -> (r: Option<usize>)
        requires
            self.wf(),
        ensures
            r matches Some(i) ==> i < self.entries@.len() && self.entries@[i as int].addr == addr,
            r is None <==> !self@.contains_key(addr),
    {
        let mut i: usize = 0;
        while i < self.entries.len()
            invariant
                i <= self.entries@.len(),
                forall|k: int| 0 <= k < i ==> self.entries@[k].addr != addr,
            decreases self.entries@.len() - i,
        {
            if self.entries[i].addr == addr {
                return Some(i);
            }
            i += 1;
        }
        None
    }

    /// Records that `addr` was heard from at `now_ms`, adding it when new.
    pub fn register(&mut self, addr: PeerAddr, now_ms: u64)
        requires
            old(self).wf(),
        ensures
            final(self).wf(),
            final(self)@ == old(self)@.insert(addr, now_ms),
    {
        let ghost before = self.entries@;
        proof {
            lemma_all_entries_in_map(before);
        }
        match self.position(addr) {
            Some(i) => {
                self.entries.set(i, ClientEntry { addr, last_seen_ms: now_ms });
                let ghost after = self.entries@;
                assert(addrs_distinct(after));
                proof {
                    lemma_all_entries_in_map(after);
                }
                assert forall|a: PeerAddr| #[trigger] self@.contains_key(a) == old(self)@.insert(
                    addr,
                    now_ms,
                ).contains_key(a) by {
                    if holds_addr(after, a) {
                        let k = choose|k: int| 0 <= k < after.len() && #[trigger] after[k].addr == a;
                        assert(before[k].addr == a || k == i);
                    }
                    if holds_addr(before, a) {
                        let k = choose|k: int| 0 <= k < before.len() && #[trigger] before[k].addr == a;
                        assert(after[k].addr == a || k == i);
                    }
                }
                assert(self@ =~= old(self)@.insert(addr, now_ms));
            },
            None => {
                self.entries.push(ClientEntry { addr, last_seen_ms: now_ms });
                let ghost after = self.entries@;
                assert(addrs_distinct(after));
                proof {
                    lemma_all_entries_in_map(after);
                }
                assert forall|a: PeerAddr| #[trigger] self@.contains_key(a) == old(self)@.insert(
                    addr,
                    now_ms,
                ).contains_key(a) by {
                    assert(after[before.len() as int].addr == addr);
                    if holds_addr(after, a) {
                        let k = choose|k: int| 0 <= k < after.len() && #[trigger] after[k].addr == a;
                        if k < before.len() {
                            assert(after[k] == before[k]);
                            assert(before[k].addr == a);
                        }
                    }
                    if holds_addr(before, a) {
                        let k = choose|k: int| 0 <= k < before.len() && #[trigger] before[k].addr == a;
                        assert(after[k].addr == a);
                    }
                }
                assert(self@ =~= old(self)@.insert(addr, now_ms));
            },
        }
    }

    /// Records that `addr` was heard from at `now_ms` if it is registered;
    /// an unknown address is ignored.
    pub fn refresh(&mut self, addr: PeerAddr, now_ms: u64)
        requires
            old(self).wf(),
        ensures
            final(self).wf(),
            old(self)@.contains_key(addr) ==> final(self)@ == old(self)@.insert(addr, now_ms),
            !old(self)@.contains_key(addr) ==> final(self)@ == old(self)@,
    {
        if self.position(addr).is_some() {
            self.register(addr, now_ms);
        }
    }

    /// Drops the clients not heard from within the timeout and returns the
    /// remaining addresses, leaving out `excluded`.
    pub fn prune_and_list(&mut self, now_ms: u64, excluded: Option<PeerAddr>) -> (r: Vec<PeerAddr>)
        requires
            old(self).wf(),
        ensures
            final(self).wf(),
            final(self)@ == fresh_clients(old(self)@, now_ms),
            forall|a: PeerAddr|
                #[trigger] r@.contains(a) <==> (final(self)@.contains_key(a) && excluded != Some(a)),
            r@.no_duplicates(),
    {
        self.prune(now_ms);
        self.list_except(excluded)
    }

    /// Drops the clients not heard from within the timeout.
    pub fn prune(&mut self, now_ms: u64)
        requires
            old(self).wf(),
        ensures
            final(self).wf(),
            final(self)@ == fresh_clients(old(self)@, now_ms),
    {
        let ghost before = self.entries@;
        let mut kept: Vec<ClientEntry> = Vec::new();
        let ghost mut src: Seq<int> = Seq::empty();
        let ghost mut back: Seq<int> = Seq::empty();
        let mut i: usize = 0;
        while i < self.entries.len()
            invariant
                before == self.entries@,
                addrs_distinct(before),
                i <= before.len(),
                kept_from(before, kept@, src, back, i as int, now_ms),
            decreases before.len() - i,
        {
            let entry = self.entries[i];
            let fresh = now_ms <= entry.last_seen_ms || now_ms - entry.last_seen_ms
                <= CLIENT_TIMEOUT_MS;
            if fresh {
                proof {
                    back = back.push(kept@.len() as int);
                    src = src.push(i as int);
                }
                kept.push(entry);
            } else {
                proof {
                    back = back.push(-1);
                }
            }
            i += 1;
        }
        proof {
            lemma_kept_map(before, kept@, src, back, now_ms);
        }
        self.entries = kept;
    }

    /// The registered addresses other than `excluded`.
    pub fn list_except(&self, excluded: Option<PeerAddr>) -> (r: Vec<PeerAddr>)
        requires
            self.wf(),
        ensures
            forall|a: PeerAddr|
                #[trigger] r@.contains(a) <==> (self@.contains_key(a) && excluded != Some(a)),
            r@.no_duplicates(),
    {
        let s = &self.entries;
        let mut listed: Vec<PeerAddr> = Vec::new();
        let ghost mut pos: Seq<int> = Seq::empty();
        let mut i: usize = 0;
        while i < s.len()
            invariant
                addrs_distinct(s@),
                i <= s@.len(),
                pos.len() == listed@.len(),
                forall|k: int|
                    #![trigger pos[k]]
                    0 <= k < pos.len() ==> 0 <= pos[k] < i && s@[pos[k]].addr == listed@[k],
                forall|k1: int, k2: int|
                    0 <= k1 < k2 < pos.len() ==> #[trigger] pos[k1] < #[trigger] pos[k2],
                forall|j: int|
                    #![trigger s@[j]]
                    0 <= j < i && excluded != Some(s@[j].addr) ==> listed@.contains(s@[j].addr),
                forall|a: PeerAddr| #[trigger] listed@.contains(a) ==> excluded != Some(a),
            decreases s@.len() - i,
        {
            let addr = s[i].addr;
            let is_excluded = match excluded {
                Some(x) => x == addr,
                None => false,
            };
            if !is_excluded {
                proof {
                    pos = pos.push(i as int);
                }
                let ghost old_listed = listed@;
                listed.push(addr);
                assert(listed@[listed@.len() - 1] == addr);
                assert forall|x: PeerAddr| #[trigger] listed@.contains(x) <==> (old_listed.contains(x)
                    || x == addr) by {
                    if old_listed.contains(x) {
                        let k = choose|k: int| 0 <= k < old_listed.len() && old_listed[k] == x;
                        assert(listed@[k] == x);
                    }
                    if listed@.contains(x) {
                        let k = choose|k: int| 0 <= k < listed@.len() && listed@[k] == x;
                        if k < old_listed.len() {
                            assert(old_listed[k] == x);
                        }
                    }
                }
            }
            i += 1;
        }
        proof {
            lemma_all_entries_in_map(s@);
            assert forall|a: PeerAddr| #[trigger] listed@.contains(a) implies self@.contains_key(a) by {
                let k = choose|k: int| 0 <= k < listed@.len() && listed@[k] == a;
                assert(s@[pos[k]].addr == a);
            }
            assert forall|a: PeerAddr|
                self@.contains_key(a) && excluded != Some(a) implies #[trigger] listed@.contains(a) by {
                let j = choose|j: int| 0 <= j < s@.len() && #[trigger] s@[j].addr == a;
                assert(s@[j].addr == a);
            }
            assert forall|k1: int, k2: int|
                0 <= k1 < listed@.len() && 0 <= k2 < listed@.len() && k1 != k2 implies listed@[k1]
                != listed@[k2] by {
                if k1 < k2 {
                    assert(pos[k1] < pos[k2]);
                } else {
                    assert(pos[k2] < pos[k1]);
                }
            }
        }
        listed
    }
}

/// `kept` holds, in order, the entries of `before[..i]` that are fresh at
/// `now_ms`: `src` maps each kept entry to its index in `before`, and
/// `back` maps each fresh index of `before[..i]` to its place in `kept`.
pub open spec fn kept_from(
    before: Seq<ClientEntry>,
    kept: Seq<ClientEntry>,
    src: Seq<int>,
    back: Seq<int>,
    i: int,
    now_ms: u64,
) -> bool {
    &&& src.len() == kept.len()
    &&& back.len() == i
    &&& forall|k: int|
        #![trigger src[k]]
        0 <= k < src.len() ==> 0 <= src[k] < i && before[src[k]] == kept[k] && is_fresh(
            now_ms,
            kept[k].last_seen_ms,
        )
    &&& forall|k1: int, k2: int| 0 <= k1 < k2 < src.len() ==> #[trigger] src[k1] < #[trigger] src[k2]
    &&& forall|j: int|
        #![trigger back[j]]
        0 <= j < i && is_fresh(now_ms, before[j].last_seen_ms) ==> 0 <= back[j] < kept.len()
            && src[back[j]] == j
}

proof fn lemma_kept_map(
    before: Seq<ClientEntry>,
    kept: Seq<ClientEntry>,
    src: Seq<int>,
    back: Seq<int>,
    now_ms: u64,
)
    requires
        addrs_distinct(before),
        kept_from(before, kept, src, back, before.len() as int, now_ms),
    ensures
        addrs_distinct(kept),
        entries_map(kept) == fresh_clients(entries_map(before), now_ms),
{
    assert forall|k1: int, k2: int|
        0 <= k1 < kept.len() && 0 <= k2 < kept.len() && k1 != k2 implies #[trigger] kept[k1].addr
        != #[trigger] kept[k2].addr by {
        if k1 < k2 {
            assert(src[k1] < src[k2]);
        } else {
            assert(src[k2] < src[k1]);
        }
        assert(before[src[k1]] == kept[k1]);
        assert(before[src[k2]] == kept[k2]);
    }
    lemma_all_entries_in_map(before);
    lemma_all_entries_in_map(kept);
    let m = entries_map(kept);
    let f = fresh_clients(entries_map(before), now_ms);
    assert forall|a: PeerAddr| #[trigger] m.contains_key(a) == f.contains_key(a) by {
        if holds_addr(kept, a) {
            let k = choose|k: int| 0 <= k < kept.len() && #[trigger] kept[k].addr == a;
            assert(before[src[k]] == kept[k]);
        }
        if f.contains_key(a) {
            let j = choose|j: int| 0 <= j < before.len() && #[trigger] before[j].addr == a;
            assert(before[j].addr == a);
            assert(src[back[j]] == j);
            assert(kept[back[j]].addr == a);
        }
    }
    assert forall|a: PeerAddr| #[trigger] m.contains_key(a) implies m[a] == f[a] by {
        let k = choose|k: int| 0 <= k < kept.len() && #[trigger] kept[k].addr == a;
        assert(before[src[k]] == kept[k]);
    }
    assert(m =~= f);
}

/// A registry without repeated addresses has exactly as many clients as
/// entries.
proof fn lemma_seq_map_dom(s: Seq<ClientEntry>)
    requires
        addrs_distinct(s),
    ensures
        entries_map(s).dom().finite(),
        entries_map(s).len() == s.len(),
    decreases s.len(),
{
    if s.len() == 0 {
        assert(entries_map(s).dom() =~= Set::<PeerAddr>::empty());
    } else {
        let t = s.drop_last();
        assert(addrs_distinct(t));
        lemma_seq_map_dom(t);
        let last = s.last();
        assert(!holds_addr(t, last.addr)) by {
            if holds_addr(t, last.addr) {
                let k = choose|k: int| 0 <= k < t.len() && #[trigger] t[k].addr == last.addr;
                assert(s[k].addr == s[s.len() - 1].addr);
            }
        }
        assert(entries_map(s).dom() =~= entries_map(t).dom().insert(last.addr)) by {
            assert forall|a: PeerAddr| #[trigger] entries_map(s).dom().contains(a)
                == entries_map(t).dom().insert(last.addr).contains(a) by {
                if holds_addr(s, a) {
                    let k = choose|k: int| 0 <= k < s.len() && #[trigger] s[k].addr == a;
                    if k < t.len() {
                        assert(t[k].addr == a);
                    }
                }
                if holds_addr(t, a) {
                    let k = choose|k: int| 0 <= k < t.len() && #[trigger] t[k].addr == a;
                    assert(s[k].addr == a);
                }
                assert(s[s.len() - 1] == last);
            }
        }
    }
}

} // verus!
