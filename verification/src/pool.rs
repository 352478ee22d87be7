//! The proxies' pool of connections to remote nodes: at most one
//! connection per node number, each with the time it was last used, and
//! the idle ones closed after a minute.
//!
//! Times are nanoseconds on a monotonic clock that the caller reads.
use std::collections::HashMap;
use vstd::prelude::*;
use vstd::std_specs::iter::IteratorSpec;

verus! {

/// How long a pooled connection may stay unused (60 seconds).
pub const IDLE_TIMEOUT_NANOS: u64 = 60_000_000_000;

/// How often idle connections are looked for (15 seconds).
pub const CLEANUP_INTERVAL_NANOS: u64 = 15_000_000_000;

/// The timeout of a connect or forward through the pool (30 seconds).
pub const REQUEST_TIMEOUT_NANOS: u64 = 30_000_000_000;

/// Whether a connection last used at `last_used` is idle at `now`: the
/// time since its last use (none when the clock reads earlier) has reached
/// the idle timeout.
pub open spec fn is_idle(last_used: u64, now: u64) -> bool {
    now >= last_used && now - last_used >= IDLE_TIMEOUT_NANOS
}

/// A pooled connection with its last-used time.
pub struct PooledConnection<C> {
    pub conn: C,
    pub last_used: u64,
}

/// The pool's entries as a map from node number to connection and
/// last-used time.
pub open spec fn pool_map<C>(m: Map<i32, PooledConnection<C>>) -> Map<i32, (C, u64)> {
    Map::new(|n: i32| m.contains_key(n), |n: i32| (m[n].conn, m[n].last_used))
}

/// The pool after closing what is idle at `now`.
pub open spec fn without_idle<C>(m: Map<i32, (C, u64)>, now: u64) -> Map<i32, (C, u64)> {
    Map::new(|n: i32| m.contains_key(n) && !is_idle(m[n].1, now), |n: i32| m[n])
}

/// Cleaning up twice at the same time closes nothing more the second time.
pub proof fn law_cleanup_idempotent<C>(m: Map<i32, (C, u64)>, now: u64)
    ensures
        without_idle(without_idle(m, now), now) == without_idle(m, now),
{
    assert(without_idle(without_idle(m, now), now) =~= without_idle(m, now));
}

/// A connection used (or pooled) at `now` survives a cleanup at any time
/// less than the idle timeout later.
pub proof fn law_recent_use_survives_cleanup<C>(
    m: Map<i32, (C, u64)>,
    node: i32,
    conn: C,
    used: u64,
    now: u64,
)
    requires
        now < used + IDLE_TIMEOUT_NANOS,
    ensures
        without_idle(m.insert(node, (conn, used)), now).contains_key(node),
        without_idle(m.insert(node, (conn, used)), now)[node] == (conn, used),
{
}

/// The node numbers of a map's entries, each once.
fn node_numbers<V>(m: &HashMap<i32, V>) -> (r: Vec<i32>)
    ensures
        r@.to_set() == m@.dom(),
        r@.no_duplicates(),
{
    let mut r: Vec<i32> = Vec::new();
    let keys = m.keys();
    let ghost ks = IteratorSpec::remaining(&keys);
    proof {
        assert(ks == vstd::std_specs::hash::spec_keys_iter(m).remaining());
        assert(ks.unref().to_set() == m@.dom());
    }
    for k in it: keys
        invariant
            it.seq() == ks,
            r@ == it.seq().take(it.index() as int).map_values(|x: &i32| *x),
    {
        r.push(*k);
    }
    proof {
        assert(r@ =~= ks.unref());
    }
    r
}

/// Pool of connections to remote nodes, keyed by node number.
pub struct ConnectionPool<C> {
    connections: HashMap<i32, PooledConnection<C>>,
}

impl<C> View for ConnectionPool<C> {
    type V = Map<i32, (C, u64)>;

    closed spec fn view(&self) -> Map<i32, (C, u64)> {
        pool_map(self.connections@)
    }
}

impl<C> ConnectionPool<C> {
    /// An empty pool.
    pub fn new() -> (r: Self)
        ensures
            r@ == Map::<i32, (C, u64)>::empty(),
    {
        let r = ConnectionPool { connections: HashMap::new() };
        assert(r@ =~= Map::<i32, (C, u64)>::empty());
        r
    }

    /// The pooled connection to `node`, if any.
    pub fn get(&self, node: i32) -> (r: Option<&C>)
        ensures
            match r {
                Some(c) => self@.contains_key(node) && *c == self@[node].0,
                None => !self@.contains_key(node),
            },
    {
        match self.connections.get(&node) {
            Some(e) => Some(&e.conn),
            None => None,
        }
    }

    /// Reuse the connection to `node`: when there is one, it is marked as
    /// used at `now` and `true` comes back; otherwise nothing changes.
    pub fn touch(&mut self, node: i32, now: u64) -> (r: bool)
        ensures
            r == old(self)@.contains_key(node),
            r ==> final(self)@ == old(self)@.insert(node, (old(self)@[node].0, now)),
            !r ==> final(self)@ == old(self)@,
    {
        let ghost m0 = self.connections@;
        match self.connections.remove(&node) {
            Some(e) => {
                self.connections.insert(node, PooledConnection { conn: e.conn, last_used: now });
                assert(pool_map(self.connections@) =~= pool_map(m0).insert(
                    node,
                    (pool_map(m0)[node].0, now),
                ));
                true
            },
            None => {
                assert(pool_map(self.connections@) =~= pool_map(m0));
                false
            },
        }
    }

    /// Pool a connection to `node`, used at `now`, in place of any other.
    pub fn insert(&mut self, node: i32, conn: C, now: u64)
        ensures
            final(self)@ == old(self)@.insert(node, (conn, now)),
    {
        let ghost m0 = self.connections@;
        let _replaced = self.connections.insert(node, PooledConnection { conn, last_used: now });
        assert(pool_map(self.connections@) =~= pool_map(m0).insert(node, (conn, now)));
    }

    /// Close the connections idle at `now`: they leave the pool, and their
    /// node numbers come back, each once.
    pub fn cleanup_idle(&mut self, now: u64) -> (removed: Vec<i32>)
        ensures
            final(self)@ == without_idle(old(self)@, now),
            forall|n: i32|
                removed@.contains(n) <==> (old(self)@.contains_key(n) && is_idle(
                    old(self)@[n].1,
                    now,
                )),
            removed@.no_duplicates(),
    {
        let ghost m0 = self.connections@;
        let nodes = node_numbers(&self.connections);
        let mut removed: Vec<i32> = Vec::new();
        let mut i: usize = 0;
        while i < nodes.len()
            invariant
                i <= nodes@.len(),
                nodes@.to_set() == m0.dom(),
                nodes@.no_duplicates(),
                self.connections@ == Map::new(
                    |n: i32|
                        m0.contains_key(n) && !(nodes@.take(i as int).contains(n) && is_idle(
                            m0[n].last_used,
                            now,
                        )),
                    |n: i32| m0[n],
                ),
                forall|n: i32|
                    #[trigger] removed@.contains(n) <==> (nodes@.take(i as int).contains(n)
                        && m0.contains_key(n) && is_idle(m0[n].last_used, now)),
                removed@.no_duplicates(),
            decreases nodes@.len() - i,
        {
            let k = nodes[i];
            let ghost before = nodes@.take(i as int);
            proof {
                assert(nodes@.to_set().contains(k));
                assert(!before.contains(k)) by {
                    if before.contains(k) {
                        let j = choose|j: int| 0 <= j < before.len() && before[j] == k;
                        assert(nodes@[j] == nodes@[i as int]);
                    }
                }
                assert(nodes@.take(i + 1) =~= before.push(k));
                assert forall|n: i32| #[trigger]
                    nodes@.take(i + 1).contains(n) <==> (before.contains(n) || n == k) by {
                    let after = nodes@.take(i + 1);
                    if after.contains(n) {
                        let j = choose|j: int| 0 <= j < after.len() && after[j] == n;
                        if j < i {
                            assert(before[j] == n);
                        }
                    }
                    if before.contains(n) {
                        let j = choose|j: int| 0 <= j < before.len() && before[j] == n;
                        assert(after[j] == n);
                    }
                    if n == k {
                        assert(after[i as int] == k);
                    }
                }
            }
            proof {
                assert(m0.contains_key(k));
                assert(self.connections@.contains_key(k));
                assert(self.connections@[k] == m0[k]);
            }
            let idle = match self.connections.get(&k) {
                Some(e) => now >= e.last_used && now - e.last_used >= IDLE_TIMEOUT_NANOS,
                None => false,
            };
            assert(idle == is_idle(m0[k].last_used, now));
            let ghost r0 = removed@;
            let ghost c0 = self.connections@;
            if idle {
                let _closed = self.connections.remove(&k);
                removed.push(k);
                assert(self.connections@ == c0.remove(k));
                assert(removed@ == r0.push(k));
            }
            i = i + 1;
            proof {
                assert forall|n: i32|
                    #[trigger] removed@.contains(n) <==> (nodes@.take(i as int).contains(n)
                        && m0.contains_key(n) && is_idle(m0[n].last_used, now)) by {
                    if idle {
                        if removed@.contains(n) && n != k {
                            let j = choose|j: int| 0 <= j < removed@.len() && removed@[j] == n;
                            assert(r0[j] == n);
                            assert(r0.contains(n));
                        }
                        if r0.contains(n) {
                            let j = choose|j: int| 0 <= j < r0.len() && r0[j] == n;
                            assert(removed@[j] == n);
                        }
                        assert(removed@[removed@.len() - 1] == k);
                    }
                    assert(nodes@.take(i as int).contains(n) <==> (before.contains(n) || n == k));
                }
                if idle {
                    assert(!r0.contains(k));
                    assert forall|a: int, b: int|
                        0 <= a < removed@.len() && 0 <= b < removed@.len() && a != b implies removed@[a]
                            != removed@[b] by {
                        if a == r0.len() {
                            assert(removed@[b] == r0[b]);
                        } else if b == r0.len() {
                            assert(removed@[a] == r0[a]);
                        }
                    }
                }
                assert(self.connections@ =~= Map::new(
                    |n: i32|
                        m0.contains_key(n) && !(nodes@.take(i as int).contains(n) && is_idle(
                            m0[n].last_used,
                            now,
                        )),
                    |n: i32| m0[n],
                ));
            }
        }
        proof {
            assert(nodes@.take(i as int) =~= nodes@);
            assert forall|n: i32| nodes@.contains(n) <==> m0.contains_key(n) by {
                assert(nodes@.to_set().contains(n) == nodes@.contains(n));
            }
            assert(pool_map(self.connections@) =~= without_idle(pool_map(m0), now));
        }
        removed
    }
}

} // verus!
