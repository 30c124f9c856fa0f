//! Per-key sliding windows of timestamped observations.
//!
//! Times are microseconds since the Unix epoch (UTC); window lengths are in
//! whole seconds.
use vstd::prelude::*;

verus! {

/// Microseconds in a second.
pub const MICROS_PER_SECOND: i128 = 1_000_000;

/// An observation taken at time `t` is within the window of `window_seconds`
/// that ends at `now`.
pub open spec fn in_window(t: i64, now: i64, window_seconds: u64) -> bool {
    now - window_seconds * MICROS_PER_SECOND <= t <= now
}

/// The entries of `h` that are within the window ending at `now`, in order.
pub open spec fn prune<T>(h: Seq<(T, i64)>, now: i64, window_seconds: u64) -> Seq<(T, i64)>
    decreases h.len(),
{
    if h.len() == 0 {
        Seq::empty()
    } else {
        let rest = prune(h.drop_last(), now, window_seconds);
        if in_window(h.last().1, now, window_seconds) {
            rest.push(h.last())
        } else {
            rest
        }
    }
}

/// Every observation that survives pruning lies within the window ending at
/// `now`, and every observation of `h` within it survives.
pub proof fn lemma_prune_keeps_window<T>(h: Seq<(T, i64)>, now: i64, window_seconds: u64)
    ensures
        forall|i: int|
            0 <= i < prune(h, now, window_seconds).len() ==> in_window(
                #[trigger] prune(h, now, window_seconds)[i].1,
                now,
                window_seconds,
            ),
        forall|i: int|
            0 <= i < h.len() && in_window(h[i].1, now, window_seconds) ==> prune(
                h,
                now,
                window_seconds,
            ).contains(#[trigger] h[i]),
    decreases h.len(),
{
    if h.len() > 0 {
        let rest = h.drop_last();
        lemma_prune_keeps_window(rest, now, window_seconds);
        let p = prune(h, now, window_seconds);
        let q = prune(rest, now, window_seconds);
        assert forall|i: int|
            0 <= i < h.len() && in_window(h[i].1, now, window_seconds) implies p.contains(
            #[trigger] h[i],
        ) by {
            if i < h.len() - 1 {
                assert(rest[i] == h[i]);
                assert(q.contains(rest[i]));
                let k = choose|k: int| 0 <= k < q.len() && q[k] == rest[i];
                assert(p[k] == q[k]);
            } else {
                assert(p[p.len() - 1] == h[i]);
            }
        }
    }
}

/// The history of one key.
pub struct KeyHistory<T> {
    pub key: String,
    pub history: Vec<(T, i64)>,
}

/// A history of timestamped observations for each key, pruned to a window
/// on every record.
pub struct WindowTracker<T> {
    window_seconds: u64,
    entries: Vec<KeyHistory<T>>,
    model: Ghost<Map<Seq<char>, Seq<(T, i64)>>>,
}

impl<T: Copy> WindowTracker<T> {
    /// Histories by key. A key that was once recorded keeps its entry.
    pub closed spec fn histories(&self) -> Map<Seq<char>, Seq<(T, i64)>> {
        self.model@
    }

    /// The window length in seconds.
    pub closed spec fn window(&self) -> u64 {
        self.window_seconds
    }

    /// The history of `k`; empty where `k` was never recorded.
    pub open spec fn history(&self, k: Seq<char>) -> Seq<(T, i64)> {
        if self.histories().contains_key(k) {
            self.histories()[k]
        } else {
            Seq::empty()
        }
    }

    /// What `record(k, value, now)` leaves as the history of `k`.
    pub open spec fn recorded(&self, k: Seq<char>, value: T, now: i64) -> Seq<(T, i64)> {
        prune(self.history(k), now, self.window()).push((value, now))
    }

    pub closed spec fn wf(&self) -> bool {
        &&& forall|i: int, j: int|
            0 <= i < j < self.entries.len() ==> self.entries[i].key@ != self.entries[j].key@
        &&& forall|i: int|
            0 <= i < self.entries.len() ==> self.model@.contains_key(#[trigger] self.entries[i].key@)
                && self.model@[self.entries[i].key@] == self.entries[i].history@
        &&& forall|k: Seq<char>|
            self.model@.contains_key(k) ==> exists|i: int|
                0 <= i < self.entries.len() && (#[trigger] self.entries[i].key@) == k
    }

    /// An empty tracker with the given window.
    pub fn new(window_seconds: u64) -> (r: Self)
        ensures
            r.wf(),
            r.window() == window_seconds,
            r.histories() == Map::<Seq<char>, Seq<(T, i64)>>::empty(),
    {
        WindowTracker { window_seconds, entries: Vec::new(), model: Ghost(Map::empty()) }
    }

    fn find(&self, key: &String) -> (r: Option<usize>)
        requires
            self.wf(),
        ensures
            match r {
                Some(i) => i < self.entries.len() && self.entries[i as int].key@ == key@,
                None => !self.histories().contains_key(key@),
            },
    {
        let mut i: usize = 0;
        while i < self.entries.len()
            invariant
                i <= self.entries.len(),
                forall|j: int| 0 <= j < i ==> self.entries[j].key@ != key@,
            decreases self.entries.len() - i,
        {
            if self.entries[i].key == *key {
                return Some(i);
            }
            i = i + 1;
        }
        None
    }

    /// Drops from `key`'s history what lies outside the window ending at
    /// `now`, then appends `value` observed at `now`.
    pub fn record(&mut self, key: &String, value: T, now: i64)
        requires
            old(self).wf(),
        ensures
            final(self).wf(),
            final(self).window() == old(self).window(),
            final(self).histories() == old(self).histories().insert(
                key@,
                old(self).recorded(key@, value, now),
            ),
    {
        let ghost new_hist = self.recorded(key@, value, now);
        let found = self.find(key);
        let mut kept: Vec<(T, i64)> = Vec::new();
        if let Some(i) = found {
            let h = &self.entries[i].history;
            let mut j: usize = 0;
            while j < h.len()
                invariant
                    j <= h.len(),
                    kept@ == prune(h@.take(j as int), now, self.window_seconds),
                decreases h.len() - j,
            {
                let e = h[j];
                let lo: i128 = now as i128 - (self.window_seconds as i128) * MICROS_PER_SECOND;
                if lo <= e.1 as i128 && e.1 <= now {
                    kept.push(e);
                }
                proof {
                    assert(h@.take(j as int + 1).drop_last() =~= h@.take(j as int));
                }
                j = j + 1;
            }
            proof {
                assert(h@.take(h.len() as int) =~= h@);
            }
        }
        kept.push((value, now));
        assert(kept@ == new_hist);
        let entry = KeyHistory { key: key.clone(), history: kept };
        let ghost old_entries = self.entries@;
        match found {
            Some(i) => {
                self.entries.set(i, entry);
            },
            None => {
                self.entries.push(entry);
            },
        }
        self.model = Ghost(self.model@.insert(key@, new_hist));
        proof {
            assert forall|k: Seq<char>| self.model@.contains_key(k) implies exists|i: int|
                0 <= i < self.entries.len() && (#[trigger] self.entries[i].key@) == k by {
                if k == key@ {
                    match found {
                        Some(i) => {
                            assert(self.entries[i as int].key@ == k);
                        },
                        None => {
                            assert(self.entries[old_entries.len() as int].key@ == k);
                        },
                    }
                } else {
                    assert(old(self).model@.contains_key(k));
                    let i = choose|i: int|
                        0 <= i < old_entries.len() && (#[trigger] old_entries[i].key@) == k;
                    assert(self.entries[i].key@ == k);
                }
            }
        }
    }

    /// Number of observations in `key`'s history.
    pub fn count(&self, key: &String) -> (r: usize)
        requires
            self.wf(),
        ensures
            r == self.history(key@).len(),
    {
        match self.find(key) {
            Some(i) => self.entries[i].history.len(),
            None => 0,
        }
    }
}

/// Number of distinct 16-bit values.
pub const PORT_VALUES: usize = 65536;

/// Some observation of `h` carries port `p`.
pub open spec fn has_port(h: Seq<(u16, i64)>, p: int) -> bool {
    exists|j: int| 0 <= j < h.len() && h[j].0 as int == p
}

/// The ports below `n` that `h` carries, each once, in increasing order.
pub open spec fn ports_below(h: Seq<(u16, i64)>, n: nat) -> Seq<u16>
    decreases n,
{
    if n == 0 {
        Seq::empty()
    } else {
        let rest = ports_below(h, (n - 1) as nat);
        if has_port(h, n - 1) {
            rest.push((n - 1) as u16)
        } else {
            rest
        }
    }
}

/// The distinct ports that `h` carries, in increasing numeric order.
pub open spec fn distinct_ports(h: Seq<(u16, i64)>) -> Seq<u16> {
    ports_below(h, PORT_VALUES as nat)
}

/// The distinct ports of `h` are strictly increasing, and are exactly the
/// ports that `h` carries.
pub proof fn lemma_distinct_ports_sorted(h: Seq<(u16, i64)>)
    ensures
        forall|i: int, j: int|
            0 <= i < j < distinct_ports(h).len() ==> distinct_ports(h)[i] < distinct_ports(h)[j],
        forall|p: u16| distinct_ports(h).contains(p) <==> has_port(h, p as int),
{
    lemma_ports_below(h, PORT_VALUES as nat);
}

proof fn lemma_ports_below(h: Seq<(u16, i64)>, n: nat)
    requires
        n <= PORT_VALUES,
    ensures
        forall|i: int| 0 <= i < ports_below(h, n).len() ==> ports_below(h, n)[i] < n,
        forall|i: int, j: int|
            0 <= i < j < ports_below(h, n).len() ==> ports_below(h, n)[i] < ports_below(h, n)[j],
        forall|p: u16| ports_below(h, n).contains(p) <==> (p < n && has_port(h, p as int)),
    decreases n,
{
    if n > 0 {
        let m = (n - 1) as nat;
        lemma_ports_below(h, m);
        let rest = ports_below(h, m);
        assert forall|p: u16| ports_below(h, n).contains(p) <==> (p < n && has_port(
            h,
            p as int,
        )) by {
            if has_port(h, m as int) {
                assert(ports_below(h, n) == rest.push(m as u16));
                if p == m {
                    assert(ports_below(h, n)[rest.len() as int] == p);
                }
                if ports_below(h, n).contains(p) {
                    let k = choose|k: int| 0 <= k < ports_below(h, n).len() && ports_below(h, n)[k] == p;
                    if k < rest.len() {
                        assert(rest.contains(p));
                    }
                }
                if p < m && has_port(h, p as int) {
                    assert(rest.contains(p));
                    let k = choose|k: int| 0 <= k < rest.len() && rest[k] == p;
                    assert(ports_below(h, n)[k] == p);
                }
            }
        }
    }
}

impl WindowTracker<u16> {
    /// The distinct ports in `key`'s history, in increasing numeric order.
    pub fn distinct_ports(&self, key: &String) -> (r: Vec<u16>)
        requires
            self.wf(),
        ensures
            r@ == distinct_ports(self.history(key@)),
    {
        let ghost h = self.history(key@);
        let mut marks: Vec<bool> = vec![false; PORT_VALUES];
        assert(forall|p: int| 0 <= p < PORT_VALUES ==> !marks[p]);
        if let Some(i) = self.find(key) {
            let hist = &self.entries[i].history;
            assert(hist@ == h);
            let mut j: usize = 0;
            while j < hist.len()
                invariant
                    j <= hist.len(),
                    hist@ == h,
                    marks.len() == PORT_VALUES,
                    forall|p: int|
                        0 <= p < PORT_VALUES ==> (marks[p] <==> has_port(h.take(j as int), p)),
                decreases hist.len() - j,
            {
                let p = hist[j].0;
                marks.set(p as usize, true);
                proof {
                    let t = h.take(j as int + 1);
                    assert forall|pv: int| 0 <= pv < PORT_VALUES implies (marks[pv] <==> has_port(
                        t,
                        pv,
                    )) by {
                        if has_port(t, pv) {
                            let k = choose|k: int| 0 <= k < t.len() && t[k].0 as int == pv;
                            if k < j {
                                assert(h.take(j as int)[k] == t[k]);
                            }
                        }
                        if has_port(h.take(j as int), pv) {
                            let k = choose|k: int|
                                0 <= k < j && h.take(j as int)[k].0 as int == pv;
                            assert(t[k] == h.take(j as int)[k]);
                        }
                        if pv == p as int {
                            assert(t[j as int].0 as int == pv);
                        }
                    }
                }
                j = j + 1;
            }
            assert(h.take(hist.len() as int) =~= h);
        } else {
            assert forall|p: int| 0 <= p < PORT_VALUES implies (marks[p] <==> has_port(h, p)) by {
                assert(h.len() == 0);
            }
        }
        let mut out: Vec<u16> = Vec::new();
        let mut q: usize = 0;
        while q < PORT_VALUES
            invariant
                q <= PORT_VALUES,
                marks.len() == PORT_VALUES,
                forall|p: int| 0 <= p < PORT_VALUES ==> (marks[p] <==> has_port(h, p)),
                out@ == ports_below(h, q as nat),
            decreases PORT_VALUES - q,
        {
            if marks[q] {
                out.push(q as u16);
            }
            q = q + 1;
        }
        out
    }
}

} // verus!
