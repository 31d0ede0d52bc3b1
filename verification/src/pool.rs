//! The node pool: the configured endpoints, their last observed health, the
//! three membership lists (`alive` / `syncing` / `dead`) and the primary
//! selection.
//!
//! Membership mirrors health exactly: a node is in `alive` if and only if it
//! was last seen `Synced`, in `syncing` if and only if `OnlineAndSyncing`,
//! and in `dead` if and only if `Offline`. The `alive` list is kept strictly
//! sorted by round-trip time, ties broken by configuration order.

use vstd::prelude::*;

verus! {

/// A node's health classification.
#[derive(Clone, Copy, Debug, PartialEq, Eq, Structural)]
pub enum SyncingStatus {
    /// The node answered `eth_syncing` with `false`.
    Synced,
    /// The node answered `eth_syncing` with a syncing report.
    OnlineAndSyncing,
    /// The node did not answer, or the answer could not be read.
    Offline,
}

/// The outcome of probing one node: its classification and the round trip in
/// microseconds.
#[derive(Clone, Copy, Debug)]
pub struct NodeHealth {
    pub status: SyncingStatus,
    pub resp_time: u128,
}

/// One configured node: its endpoint and its last observed health.
#[derive(Clone, Debug)]
pub struct NodeStats {
    pub url: String,
    pub status: SyncingStatus,
    pub resp_time: u128,
}

/// Whether the node index `i` occurs in the list `l`.
pub open spec fn list_has(l: Seq<usize>, i: int) -> bool {
    exists|k: int| 0 <= k < l.len() && l[k] == i
}

/// Every entry of `l` is an index below `n`.
pub open spec fn list_in_bounds(l: Seq<usize>, n: int) -> bool {
    forall|k: int| 0 <= k < l.len() ==> (l[k] as int) < n
}

/// The entries of `l` are strictly increasing.
pub open spec fn ascending(l: Seq<usize>) -> bool {
    forall|k1: int, k2: int| 0 <= k1 < k2 < l.len() ==> l[k1] < l[k2]
}

/// The first entry of `alive` that is not `p`, scanning from the front:
/// the candidate a stale primary is replaced with.
pub open spec fn spec_promote(alive: Seq<usize>, p: usize) -> Option<usize>
    decreases alive.len(),
{
    if alive.len() == 0 {
        None
    } else if alive[0] != p {
        Some(alive[0])
    } else {
        spec_promote(alive.skip(1), p)
    }
}

/// The order of the `alive` list: by round-trip time, ties broken by node
/// index.
pub open spec fn lex_before(t1: u128, i1: usize, t2: u128, i2: usize) -> bool {
    t1 < t2 || (t1 == t2 && i1 < i2)
}

/// The pool of configured nodes with its three membership lists and its
/// primary selection.
#[derive(Debug)]
pub struct NodePool {
    pub nodes: Vec<NodeStats>,
    pub alive: Vec<usize>,
    pub syncing: Vec<usize>,
    pub dead: Vec<usize>,
    pub primary: usize,
}

impl NodePool {
    /// The list a node of status `s` belongs to.
    pub open spec fn list_for(self, s: SyncingStatus) -> Seq<usize> {
        match s {
            SyncingStatus::Synced => self.alive@,
            SyncingStatus::OnlineAndSyncing => self.syncing@,
            SyncingStatus::Offline => self.dead@,
        }
    }

    /// The `alive` list is strictly sorted by (round trip, index).
    pub open spec fn alive_sorted(self) -> bool {
        forall|k1: int, k2: int|
            0 <= k1 < k2 < self.alive@.len() ==> lex_before(
                self.nodes@[self.alive@[k1] as int].resp_time,
                self.alive@[k1],
                self.nodes@[self.alive@[k2] as int].resp_time,
                self.alive@[k2],
            )
    }

    /// Both directions of the membership/health correspondence, for one list.
    pub open spec fn list_matches(self, l: Seq<usize>, s: SyncingStatus) -> bool {
        forall|k: int|
            0 <= k < l.len() ==> (l[k] as int) < self.nodes@.len() && self.nodes@[#[trigger] l[k] as int].status
                == s
    }

    /// Well-formedness: there is at least one node, the primary is one of
    /// them, each list holds exactly the nodes of its health class with no
    /// repeats, and `alive` is sorted.
    pub open spec fn wf(self) -> bool {
        &&& self.nodes@.len() > 0
        &&& (self.primary as int) < self.nodes@.len()
        &&& self.list_matches(self.alive@, SyncingStatus::Synced)
        &&& self.list_matches(self.syncing@, SyncingStatus::OnlineAndSyncing)
        &&& self.list_matches(self.dead@, SyncingStatus::Offline)
        &&& forall|i: int|
            0 <= i < self.nodes@.len() ==> list_has(
                self.list_for(#[trigger] self.nodes@[i].status),
                i,
            )
        &&& forall|k1: int, k2: int|
            0 <= k1 < k2 < self.syncing@.len() ==> self.syncing@[k1] != self.syncing@[k2]
        &&& forall|k1: int, k2: int|
            0 <= k1 < k2 < self.dead@.len() ==> self.dead@[k1] != self.dead@[k2]
        &&& self.alive_sorted()
    }

    /// A fresh pool: every node starts out `Offline` (hence in `dead`) until
    /// the first sweep, and the first node is the primary.
    pub fn new(urls: Vec<String>) -> (p: NodePool)
        requires
            urls@.len() > 0,
        ensures
            p.wf(),
            p.nodes@.len() == urls@.len(),
            forall|i: int|
                0 <= i < urls@.len() ==> p.nodes@[i].url@ == urls@[i]@ && p.nodes@[i].status
                    == SyncingStatus::Offline && p.nodes@[i].resp_time == 0,
            p.alive@.len() == 0,
            p.syncing@.len() == 0,
            ascending(p.dead@),
            p.primary == 0,
    {
        let n = urls.len();
        let mut nodes: Vec<NodeStats> = Vec::new();
        let mut dead: Vec<usize> = Vec::new();
        let mut i: usize = 0;
        while i < n
            invariant
                i <= n,
                n == urls@.len(),
                nodes@.len() == i,
                dead@.len() == i,
                forall|j: int|
                    0 <= j < i ==> nodes@[j].url@ == urls@[j]@ && nodes@[j].status
                        == SyncingStatus::Offline && nodes@[j].resp_time == 0,
                forall|k: int| 0 <= k < i ==> dead@[k] == k,
            decreases n - i,
        {
            nodes.push(
                NodeStats {
                    url: urls[i].clone(),
                    status: SyncingStatus::Offline,
                    resp_time: 0,
                },
            );
            dead.push(i);
            i += 1;
        }
        let p = NodePool { nodes, alive: Vec::new(), syncing: Vec::new(), dead, primary: 0 };
        assert forall|i: int| 0 <= i < p.nodes@.len() implies list_has(
            p.list_for(p.nodes@[i].status),
            i,
        ) by {
            assert(p.dead@[i] == i);
        }
        p
    }

    /// Appends freshly configured nodes; they count as `Offline` (and so sit
    /// in `dead`) until the next sweep.
    pub fn add_nodes(&mut self, urls: Vec<String>)
        requires
            old(self).wf(),
            old(self).nodes@.len() + urls@.len() <= usize::MAX,
        ensures
            final(self).wf(),
            final(self).nodes@.len() == old(self).nodes@.len() + urls@.len(),
            forall|i: int|
                0 <= i < old(self).nodes@.len() ==> final(self).nodes@[i] == old(self).nodes@[i],
            forall|i: int|
                old(self).nodes@.len() <= i < final(self).nodes@.len()
                    ==> final(self).nodes@[i].url@ == urls@[i - old(self).nodes@.len()]@
                    && final(self).nodes@[i].status == SyncingStatus::Offline,
            final(self).alive@ == old(self).alive@,
            final(self).syncing@ == old(self).syncing@,
            final(self).primary == old(self).primary,
    {
        let base = self.nodes.len();
        let n = urls.len();
        let mut i: usize = 0;
        while i < n
            invariant
                i <= n,
                n == urls@.len(),
                base == old(self).nodes@.len(),
                base + n <= usize::MAX,
                self.nodes@.len() == base + i,
                self.alive@ == old(self).alive@,
                self.syncing@ == old(self).syncing@,
                self.primary == old(self).primary,
                old(self).wf(),
                forall|j: int| 0 <= j < base ==> self.nodes@[j] == old(self).nodes@[j],
                forall|j: int|
                    base <= j < base + i ==> self.nodes@[j].url@ == urls@[j - base]@
                        && self.nodes@[j].status == SyncingStatus::Offline,
                self.dead@.len() == old(self).dead@.len() + i,
                forall|k: int| 0 <= k < old(self).dead@.len() ==> self.dead@[k] == old(self).dead@[k],
                forall|k: int|
                    old(self).dead@.len() <= k < self.dead@.len() ==> (self.dead@[k] as int) == base
                        + (k - old(self).dead@.len()),
            decreases n - i,
        {
            self.nodes.push(
                NodeStats {
                    url: urls[i].clone(),
                    status: SyncingStatus::Offline,
                    resp_time: 0,
                },
            );
            self.dead.push(base + i);
            i += 1;
        }
        assert forall|i: int| 0 <= i < self.nodes@.len() implies list_has(
            self.list_for(self.nodes@[i].status),
            i,
        ) by {
            if i < base {
                assert(list_has(old(self).list_for(old(self).nodes@[i].status), i));
            } else {
                assert(self.dead@[old(self).dead@.len() + (i - base)] == i);
            }
        }
    }

    /// Rebuilds the pool from the results of one health sweep: `results[i]`
    /// is the probe outcome for node `i`. Every node is reclassified, `alive`
    /// is sorted by ascending round trip (configuration order on ties), and
    /// the primary becomes the best alive node, else the first syncing node,
    /// else the first dead node.
    pub fn recheck(&mut self, results: &Vec<NodeHealth>)
        requires
            old(self).wf(),
            results@.len() == old(self).nodes@.len(),
        ensures
            final(self).wf(),
            final(self).nodes@.len() == old(self).nodes@.len(),
            forall|i: int|
                0 <= i < final(self).nodes@.len()
                    ==> final(self).nodes@[i].url@ == old(self).nodes@[i].url@,
            forall|i: int|
                0 <= i < final(self).nodes@.len() ==> final(self).nodes@[i].status
                    == results@[i].status && final(self).nodes@[i].resp_time
                    == results@[i].resp_time,
            ascending(final(self).syncing@),
            ascending(final(self).dead@),
            final(self).alive@.len() > 0 ==> final(self).primary == final(self).alive@[0],
            final(self).alive@.len() == 0 && final(self).syncing@.len() > 0
                ==> final(self).primary == final(self).syncing@[0],
            final(self).alive@.len() == 0 && final(self).syncing@.len() == 0
                && final(self).dead@.len() > 0 ==> final(self).primary == final(self).dead@[0],
    {
        let n = self.nodes.len();
        let mut new_nodes: Vec<NodeStats> = Vec::new();
        let mut new_alive: Vec<usize> = Vec::new();
        let mut new_syncing: Vec<usize> = Vec::new();
        let mut new_dead: Vec<usize> = Vec::new();
        let mut i: usize = 0;
        while i < n
            invariant
                i <= n,
                n == self.nodes@.len(),
                results@.len() == n,
                new_nodes@.len() == i,
                forall|j: int| 0 <= j < i ==> new_nodes@[j].url@ == self.nodes@[j].url@,
                forall|j: int|
                    0 <= j < i ==> new_nodes@[j].status == results@[j].status
                        && new_nodes@[j].resp_time == results@[j].resp_time,
                forall|k: int|
                    0 <= k < new_alive@.len() ==> (new_alive@[k] as int) < i
                        && results@[#[trigger] new_alive@[k] as int].status
                        == SyncingStatus::Synced,
                forall|j: int|
                    0 <= j < i && results@[j].status == SyncingStatus::Synced ==> list_has(
                        new_alive@,
                        j,
                    ),
                forall|k: int|
                    0 <= k < new_syncing@.len() ==> (new_syncing@[k] as int) < i
                        && results@[#[trigger] new_syncing@[k] as int].status
                        == SyncingStatus::OnlineAndSyncing,
                forall|j: int|
                    0 <= j < i && results@[j].status == SyncingStatus::OnlineAndSyncing
                        ==> list_has(new_syncing@, j),
                forall|k: int|
                    0 <= k < new_dead@.len() ==> (new_dead@[k] as int) < i
                        && results@[#[trigger] new_dead@[k] as int].status
                        == SyncingStatus::Offline,
                forall|j: int|
                    0 <= j < i && results@[j].status == SyncingStatus::Offline ==> list_has(
                        new_dead@,
                        j,
                    ),
                ascending(new_syncing@),
                ascending(new_dead@),
                forall|k1: int, k2: int|
                    0 <= k1 < k2 < new_alive@.len() ==> lex_before(
                        results@[new_alive@[k1] as int].resp_time,
                        new_alive@[k1],
                        results@[new_alive@[k2] as int].resp_time,
                        new_alive@[k2],
                    ),
            decreases n - i,
        {
            let status = results[i].status;
            new_nodes.push(
                NodeStats {
                    url: self.nodes[i].url.clone(),
                    status,
                    resp_time: results[i].resp_time,
                },
            );
            match status {
                SyncingStatus::Synced => {
                    insert_by_time(&mut new_alive, i, results);
                },
                SyncingStatus::OnlineAndSyncing => {
                    let ghost pre = new_syncing@;
                    new_syncing.push(i);
                    proof {
                        assert forall|j: int|
                            0 <= j <= i && results@[j].status
                                == SyncingStatus::OnlineAndSyncing implies list_has(
                            new_syncing@,
                            j,
                        ) by {
                            if j < i {
                                assert(list_has(pre, j));
                                let k = choose|k: int| 0 <= k < pre.len() && pre[k] == j;
                                assert(new_syncing@[k] == j);
                            } else {
                                assert(new_syncing@[pre.len() as int] == i);
                            }
                        }
                    }
                },
                SyncingStatus::Offline => {
                    let ghost pre = new_dead@;
                    new_dead.push(i);
                    proof {
                        assert forall|j: int|
                            0 <= j <= i && results@[j].status
                                == SyncingStatus::Offline implies list_has(new_dead@, j) by {
                            if j < i {
                                assert(list_has(pre, j));
                                let k = choose|k: int| 0 <= k < pre.len() && pre[k] == j;
                                assert(new_dead@[k] == j);
                            } else {
                                assert(new_dead@[pre.len() as int] == i);
                            }
                        }
                    }
                },
            }
            i += 1;
        }
        let new_primary: usize = if new_alive.len() > 0 {
            new_alive[0]
        } else if new_syncing.len() > 0 {
            new_syncing[0]
        } else if new_dead.len() > 0 {
            new_dead[0]
        } else {
            0
        };
        self.nodes = new_nodes;
        self.alive = new_alive;
        self.syncing = new_syncing;
        self.dead = new_dead;
        self.primary = new_primary;
        assert forall|i: int| 0 <= i < self.nodes@.len() implies list_has(
            self.list_for(self.nodes@[i].status),
            i,
        ) by {
            assert(self.nodes@[i].status == results@[i].status);
        }
        assert(self.nodes@.len() > 0);
        assert((self.primary as int) < self.nodes@.len()) by {
            if self.alive@.len() == 0 && self.syncing@.len() == 0 && self.dead@.len() == 0 {
                assert(list_has(self.list_for(self.nodes@[0].status), 0));
            }
        }
    }

    /// Returns the node to route to: the primary while it is still synced;
    /// otherwise the best alive node other than the stale primary, else the
    /// first syncing node, promoting it to primary; `None` when nothing is
    /// online.
    pub fn get_execution_node(&mut self) -> (r: Option<usize>)
        requires
            old(self).wf(),
        ensures
            final(self).wf(),
            final(self).nodes == old(self).nodes,
            final(self).alive == old(self).alive,
            final(self).syncing == old(self).syncing,
            final(self).dead == old(self).dead,
            ({
                let p = old(self).primary;
                if old(self).nodes@[p as int].status == SyncingStatus::Synced {
                    r == Some(p) && final(self).primary == p
                } else {
                    match spec_promote(old(self).alive@, p) {
                        Some(c) => r == Some(c) && final(self).primary == c,
                        None => if old(self).syncing@.len() > 0 {
                            r == Some(old(self).syncing@[0]) && final(self).primary == old(
                                self,
                            ).syncing@[0]
                        } else {
                            r is None && final(self).primary == p
                        },
                    }
                }
            }),
    {
        let p = self.primary;
        if self.nodes[p].status == SyncingStatus::Synced {
            return Some(p);
        }
        let n = self.alive.len();
        let mut k: usize = 0;
        while k < n
            invariant
                k <= n,
                n == self.alive@.len(),
                *self == *old(self),
                p == self.primary,
                self.wf(),
                old(self).nodes@[p as int].status != SyncingStatus::Synced,
                spec_promote(self.alive@, p) == spec_promote(self.alive@.skip(k as int), p),
            decreases n - k,
        {
            proof {
                assert(self.alive@.skip(k as int)[0] == self.alive@[k as int]);
                assert(self.alive@.skip(k as int).skip(1) =~= self.alive@.skip(k as int + 1));
            }
            if self.alive[k] != p {
                let c = self.alive[k];
                self.primary = c;
                return Some(c);
            }
            k += 1;
        }
        assert(self.alive@.skip(n as int) =~= Seq::<usize>::empty());
        if self.syncing.len() > 0 {
            let c = self.syncing[0];
            self.primary = c;
            return Some(c);
        }
        None
    }

    /// Demotes node `i` from `alive` to `syncing` and marks it
    /// `OnlineAndSyncing`; does nothing if the node is not in `alive`.
    pub fn make_node_syncing(&mut self, i: usize)
        requires
            old(self).wf(),
            (i as int) < old(self).nodes@.len(),
        ensures
            final(self).wf(),
            final(self).nodes@.len() == old(self).nodes@.len(),
            final(self).primary == old(self).primary,
            final(self).dead == old(self).dead,
            !list_has(old(self).alive@, i as int) ==> *final(self) == *old(self),
            list_has(old(self).alive@, i as int) ==> {
                &&& final(self).nodes@[i as int].status == SyncingStatus::OnlineAndSyncing
                &&& final(self).nodes@[i as int].url@ == old(self).nodes@[i as int].url@
                &&& final(self).nodes@[i as int].resp_time == old(self).nodes@[i as int].resp_time
                &&& forall|j: int|
                    0 <= j < old(self).nodes@.len() && j != i ==> final(self).nodes@[j] == old(
                        self,
                    ).nodes@[j]
                &&& final(self).syncing@ == old(self).syncing@.push(i)
                &&& final(self).alive@.len() + 1 == old(self).alive@.len()
                &&& forall|x: int|
                    list_has(final(self).alive@, x) <==> (list_has(old(self).alive@, x) && x
                        != i as int)
            },
    {
        let n = self.alive.len();
        let mut k: usize = 0;
        while k < n
            invariant
                k <= n,
                n == self.alive@.len(),
                *self == *old(self),
                self.wf(),
                (i as int) < self.nodes@.len(),
                forall|t: int| 0 <= t < k ==> self.alive@[t] != i,
            decreases n - k,
        {
            if self.alive[k] == i {
                let ghost pre = self.alive@;
                let ghost pre_pool = *self;
                self.alive.remove(k);
                self.syncing.push(i);
                let url = self.nodes[i].url.clone();
                let rt = self.nodes[i].resp_time;
                self.nodes[i] =
                NodeStats { url, status: SyncingStatus::OnlineAndSyncing, resp_time: rt };
                proof {
                    assert(pre[k as int] == i);
                    assert(pre_pool.nodes@[i as int].status == SyncingStatus::Synced);
                    assert forall|x: int|
                        list_has(self.alive@, x) <==> (list_has(pre, x) && x != i as int) by {
                        if list_has(self.alive@, x) {
                            let t = choose|t: int|
                                0 <= t < self.alive@.len() && self.alive@[t] == x;
                            if t < k {
                                assert(pre[t] == x);
                            } else {
                                assert(pre[t + 1] == x);
                            }
                            assert(x != i as int) by {
                                if t < k {
                                } else {
                                    assert(lex_before(
                                        pre_pool.nodes@[pre[k as int] as int].resp_time,
                                        pre[k as int],
                                        pre_pool.nodes@[pre[t + 1] as int].resp_time,
                                        pre[t + 1],
                                    ));
                                }
                            }
                        }
                        if list_has(pre, x) && x != i as int {
                            let t = choose|t: int| 0 <= t < pre.len() && pre[t] == x;
                            if t < k {
                                assert(self.alive@[t] == x);
                            } else {
                                assert(t != k);
                                assert(self.alive@[t - 1] == x);
                            }
                        }
                    }
                    assert(list_has(self.syncing@, i as int)) by {
                        assert(self.syncing@[pre_pool.syncing@.len() as int] == i);
                    }
                    assert forall|j: int|
                        list_has(pre_pool.syncing@, j) implies list_has(self.syncing@, j) by {
                        let t = choose|t: int|
                            0 <= t < pre_pool.syncing@.len() && pre_pool.syncing@[t] == j;
                        assert(self.syncing@[t] == j);
                    }
                    assert forall|j: int| 0 <= j < self.nodes@.len() implies list_has(
                        self.list_for(self.nodes@[j].status),
                        j,
                    ) by {
                        if j == i {
                        } else {
                            assert(list_has(pre_pool.list_for(pre_pool.nodes@[j].status), j));
                            if pre_pool.nodes@[j].status == SyncingStatus::Synced {
                                assert(list_has(pre, j) && j != i as int);
                            }
                        }
                    }
                }
                return ;
            }
            k += 1;
        }
    }
}

/// What `/metrics` reports: per-node round trips (syncing nodes first, then
/// alive ones), the three membership lists as endpoint lists, and the primary
/// endpoint.
#[derive(Debug)]
pub struct MetricsReport {
    pub response_times: Vec<(String, u128)>,
    pub alive_nodes: Vec<String>,
    pub syncing_nodes: Vec<String>,
    pub dead_nodes: Vec<String>,
    pub primary_node: String,
}

impl NodePool {
    /// The urls of the nodes listed in `l`, in list order.
    pub open spec fn spec_urls_of(self, l: Seq<usize>) -> Seq<Seq<char>> {
        l.map_values(|i: usize| self.nodes@[i as int].url@)
    }

    /// Collects the urls of the nodes in `l`.
    fn urls_of(&self, l: &Vec<usize>) -> (r: Vec<String>)
        requires
            list_in_bounds(l@, self.nodes@.len() as int),
        ensures
            r@.len() == l@.len(),
            forall|k: int| 0 <= k < l@.len() ==> r@[k]@ == self.spec_urls_of(l@)[k],
    {
        let mut r: Vec<String> = Vec::new();
        let mut k: usize = 0;
        while k < l.len()
            invariant
                k <= l@.len(),
                list_in_bounds(l@, self.nodes@.len() as int),
                r@.len() == k,
                forall|t: int| 0 <= t < k ==> r@[t]@ == self.nodes@[l@[t] as int].url@,
            decreases l@.len() - k,
        {
            r.push(self.nodes[l[k]].url.clone());
            k += 1;
        }
        r
    }

    /// Builds the metrics report: round trips for the syncing nodes followed
    /// by the alive ones, each membership list as endpoints, and the primary
    /// endpoint.
    pub fn make_metrics_report(&self) -> (r: MetricsReport)
        requires
            self.wf(),
        ensures
            r.response_times@.len() == self.syncing@.len() + self.alive@.len(),
            forall|k: int|
                0 <= k < self.syncing@.len() ==> r.response_times@[k].0@
                    == self.nodes@[self.syncing@[k] as int].url@ && r.response_times@[k].1
                    == self.nodes@[self.syncing@[k] as int].resp_time,
            forall|k: int|
                self.syncing@.len() <= k < r.response_times@.len() ==> r.response_times@[k].0@
                    == self.nodes@[self.alive@[k - self.syncing@.len()] as int].url@
                    && r.response_times@[k].1 == self.nodes@[self.alive@[k
                    - self.syncing@.len()] as int].resp_time,
            r.alive_nodes@.len() == self.alive@.len(),
            forall|k: int|
                0 <= k < self.alive@.len() ==> r.alive_nodes@[k]@ == self.spec_urls_of(
                    self.alive@,
                )[k],
            r.syncing_nodes@.len() == self.syncing@.len(),
            forall|k: int|
                0 <= k < self.syncing@.len() ==> r.syncing_nodes@[k]@ == self.spec_urls_of(
                    self.syncing@,
                )[k],
            r.dead_nodes@.len() == self.dead@.len(),
            forall|k: int|
                0 <= k < self.dead@.len() ==> r.dead_nodes@[k]@ == self.spec_urls_of(
                    self.dead@,
                )[k],
            r.primary_node@ == self.nodes@[self.primary as int].url@,
    {
        let mut response_times: Vec<(String, u128)> = Vec::new();
        let ghost ns = self.syncing@.len();
        let mut k: usize = 0;
        while k < self.syncing.len()
            invariant
                k <= ns,
                ns == self.syncing@.len(),
                self.wf(),
                response_times@.len() == k,
                forall|t: int|
                    0 <= t < k ==> response_times@[t].0@ == self.nodes@[self.syncing@[t] as int].url@
                        && response_times@[t].1 == self.nodes@[self.syncing@[t] as int].resp_time,
            decreases self.syncing@.len() - k,
        {
            let i = self.syncing[k];
            response_times.push((self.nodes[i].url.clone(), self.nodes[i].resp_time));
            k += 1;
        }
        let mut k: usize = 0;
        while k < self.alive.len()
            invariant
                k <= self.alive@.len(),
                ns == self.syncing@.len(),
                self.wf(),
                response_times@.len() == ns + k,
                forall|t: int|
                    0 <= t < ns ==> response_times@[t].0@ == self.nodes@[self.syncing@[t] as int].url@
                        && response_times@[t].1 == self.nodes@[self.syncing@[t] as int].resp_time,
                forall|t: int|
                    ns <= t < ns + k ==> response_times@[t].0@ == self.nodes@[self.alive@[t
                        - ns] as int].url@ && response_times@[t].1 == self.nodes@[self.alive@[t
                        - ns] as int].resp_time,
            decreases self.alive@.len() - k,
        {
            let i = self.alive[k];
            response_times.push((self.nodes[i].url.clone(), self.nodes[i].resp_time));
            k += 1;
        }
        MetricsReport {
            response_times,
            alive_nodes: self.urls_of(&self.alive),
            syncing_nodes: self.urls_of(&self.syncing),
            dead_nodes: self.urls_of(&self.dead),
            primary_node: self.nodes[self.primary].url.clone(),
        }
    }
}

/// Membership partition: in a well-formed pool every configured node sits in
/// exactly one of the three lists, so the lists are pairwise disjoint and
/// together cover the configured nodes.
pub proof fn lemma_membership_partition(p: NodePool, i: int)
    requires
        p.wf(),
        0 <= i < p.nodes@.len(),
    ensures
        list_has(p.alive@, i) || list_has(p.syncing@, i) || list_has(p.dead@, i),
        !(list_has(p.alive@, i) && list_has(p.syncing@, i)),
        !(list_has(p.alive@, i) && list_has(p.dead@, i)),
        !(list_has(p.syncing@, i) && list_has(p.dead@, i)),
{
    assert(list_has(p.list_for(p.nodes@[i].status), i));
    if list_has(p.alive@, i) {
        let k = choose|k: int| 0 <= k < p.alive@.len() && p.alive@[k] == i;
        assert(p.nodes@[p.alive@[k] as int].status == SyncingStatus::Synced);
    }
    if list_has(p.syncing@, i) {
        let k = choose|k: int| 0 <= k < p.syncing@.len() && p.syncing@[k] == i;
        assert(p.nodes@[p.syncing@[k] as int].status == SyncingStatus::OnlineAndSyncing);
    }
    if list_has(p.dead@, i) {
        let k = choose|k: int| 0 <= k < p.dead@.len() && p.dead@[k] == i;
        assert(p.nodes@[p.dead@[k] as int].status == SyncingStatus::Offline);
    }
}

/// Primary discipline: in a well-formed pool the primary is one of the
/// configured nodes and the `alive` list is strictly sorted by ascending
/// round trip (configuration order on ties); that after a sweep the primary
/// is the head of `alive` (else of `syncing`, else of `dead`) is part of
/// what `recheck` ensures.
pub proof fn lemma_primary_discipline(p: NodePool)
    requires
        p.wf(),
    ensures
        (p.primary as int) < p.nodes@.len(),
        forall|k1: int, k2: int|
            0 <= k1 < k2 < p.alive@.len() ==> lex_before(
                p.nodes@[p.alive@[k1] as int].resp_time,
                p.alive@[k1],
                p.nodes@[p.alive@[k2] as int].resp_time,
                p.alive@[k2],
            ),
{
}

/// Inserts node `i` into the sorted alive list: after the entries whose
/// round trip is at most `i`'s, before the rest. Every existing entry is an
/// index below `i`.
fn insert_by_time(alive: &mut Vec<usize>, i: usize, results: &Vec<NodeHealth>)
    requires
        (i as int) < results@.len(),
        forall|k: int| 0 <= k < old(alive)@.len() ==> (old(alive)@[k] as int) < i,
        forall|k1: int, k2: int|
            0 <= k1 < k2 < old(alive)@.len() ==> lex_before(
                results@[old(alive)@[k1] as int].resp_time,
                old(alive)@[k1],
                results@[old(alive)@[k2] as int].resp_time,
                old(alive)@[k2],
            ),
    ensures
        final(alive)@.len() == old(alive)@.len() + 1,
        forall|x: int| list_has(final(alive)@, x) <==> list_has(old(alive)@, x) || x == i,
        forall|k: int|
            0 <= k < final(alive)@.len() ==> final(alive)@[k] == i || list_has(
                old(alive)@,
                #[trigger] final(alive)@[k] as int,
            ),
        forall|k1: int, k2: int|
            0 <= k1 < k2 < final(alive)@.len() ==> lex_before(
                results@[final(alive)@[k1] as int].resp_time,
                final(alive)@[k1],
                results@[final(alive)@[k2] as int].resp_time,
                final(alive)@[k2],
            ),
{
    let ghost pre = alive@;
    let rt = results[i].resp_time;
    let mut p: usize = 0;
    while p < alive.len() && results[alive[p]].resp_time <= rt
        invariant
            p <= alive@.len(),
            alive@ == pre,
            (i as int) < results@.len(),
            rt == results@[i as int].resp_time,
            forall|k: int| 0 <= k < alive@.len() ==> (alive@[k] as int) < i,
            forall|k: int| 0 <= k < p ==> results@[#[trigger] alive@[k] as int].resp_time <= rt,
        decreases alive@.len() - p,
    {
        p += 1;
    }
    assert(p == pre.len() || results@[pre[p as int] as int].resp_time > rt);
    alive.insert(p, i);
    assert(alive@ == pre.insert(p as int, i));
    let ghost post = alive@;
    assert forall|k: int|
        0 <= k < post.len() implies post[k] == i || list_has(pre, #[trigger] post[k] as int) by {
        if k < p {
            assert(pre[k] == post[k]);
        } else if k > p {
            assert(pre[k - 1] == post[k]);
        }
    }
    assert forall|x: int| list_has(post, x) <==> list_has(pre, x) || x == i by {
        if list_has(post, x) {
            let k = choose|k: int| 0 <= k < post.len() && post[k] == x;
            if k < p {
                assert(pre[k] == x);
            } else if k > p {
                assert(pre[k - 1] == x);
            }
        }
        if list_has(pre, x) {
            let k = choose|k: int| 0 <= k < pre.len() && pre[k] == x;
            if k < p {
                assert(post[k] == x);
            } else {
                assert(post[k + 1] == x);
            }
        }
        if x == i {
            assert(post[p as int] == x);
        }
    }
    assert forall|k1: int, k2: int| 0 <= k1 < k2 < post.len() implies lex_before(
        results@[post[k1] as int].resp_time,
        post[k1],
        results@[post[k2] as int].resp_time,
        post[k2],
    ) by {
        if k2 < p {
            assert(post[k1] == pre[k1] && post[k2] == pre[k2]);
        } else if k1 < p && k2 == p {
            assert(post[k1] == pre[k1]);
            assert(results@[pre[k1] as int].resp_time <= rt);
            assert((pre[k1] as int) < i);
        } else if k1 < p && k2 > p {
            assert(post[k1] == pre[k1] && post[k2] == pre[k2 - 1]);
            assert(results@[pre[k1] as int].resp_time <= rt);
            if k2 - 1 == p {
                assert(results@[pre[p as int] as int].resp_time > rt);
            } else {
                assert(lex_before(
                    results@[pre[p as int] as int].resp_time,
                    pre[p as int],
                    results@[pre[k2 - 1] as int].resp_time,
                    pre[k2 - 1],
                ));
            }
            assert((pre[k1] as int) < i);
        } else if k1 == p {
            assert(post[k2] == pre[k2 - 1]);
            if k2 - 1 == p {
                assert(results@[pre[p as int] as int].resp_time > rt);
            } else {
                assert(lex_before(
                    results@[pre[p as int] as int].resp_time,
                    pre[p as int],
                    results@[pre[k2 - 1] as int].resp_time,
                    pre[k2 - 1],
                ));
                assert(results@[pre[p as int] as int].resp_time > rt);
            }
        } else {
            assert(post[k1] == pre[k1 - 1] && post[k2] == pre[k2 - 1]);
        }
    }
}

} // verus!
