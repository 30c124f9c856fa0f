//! Traffic statistics shown while monitoring.
use vstd::prelude::*;
use crate::error::NetGuardError;

verus! {

/// Shows statistics for one interface, or for all.
pub struct StatsMonitor {
    interface_name: Option<String>,
}

impl StatsMonitor {
    pub closed spec fn spec_interface_name(&self) -> Option<String> {
        self.interface_name
    }

    pub fn new(interface_name: Option<String>) -> (r: Result<StatsMonitor, NetGuardError>)
        ensures
            r is Ok,
            r->Ok_0.spec_interface_name() == interface_name,
    {
        Ok(StatsMonitor { interface_name })
    }

    pub fn interface_name(&self) -> (r: &Option<String>)
        ensures
            *r == self.spec_interface_name(),
    {
        &self.interface_name
    }
}

/// Running totals of packets and bytes.
#[derive(Clone, Copy, Debug, PartialEq, Eq, Structural)]
pub struct TrafficCounters {
    pub packet_count: u64,
    pub byte_count: u64,
}

impl TrafficCounters {
    pub fn new() -> (r: Self)
        ensures
            r.packet_count == 0,
            r.byte_count == 0,
    {
        TrafficCounters { packet_count: 0, byte_count: 0 }
    }

    /// Adds one sample: `packets` packets and `bytes` bytes, saturating at
    /// the largest `u64`.
    pub fn add(&mut self, packets: u64, bytes: u64)
        ensures
            final(self).packet_count == if old(self).packet_count + packets > u64::MAX {
                u64::MAX as int
            } else {
                old(self).packet_count + packets
            },
            final(self).byte_count == if old(self).byte_count + bytes > u64::MAX {
                u64::MAX as int
            } else {
                old(self).byte_count + bytes
            },
    {
        self.packet_count = self.packet_count.saturating_add(packets);
        self.byte_count = self.byte_count.saturating_add(bytes);
    }

    /// Bytes per packet, rounded down; the byte count when no packet was seen.
    pub fn average_packet_size(&self) -> (r: u64)
        ensures
            r == self.byte_count / if self.packet_count == 0 {
                1
            } else {
                self.packet_count
            },
    {
        let packets = if self.packet_count == 0 {
            1
        } else {
            self.packet_count
        };
        self.byte_count / packets
    }
}

/// How many alerts of each type are shown at most.
pub const TOP_TYPES: usize = 10;

/// Index of the first entry of `t` with key `k`, where there is one.
pub open spec fn first_with_key(t: Seq<(Seq<char>, nat)>, k: Seq<char>) -> int {
    choose|i: int| 0 <= i < t.len() && t[i].0 == k && forall|j: int| 0 <= j < i ==> t[j].0 != k
}

/// Each distinct element of `s` with the number of its occurrences, in the
/// order of first occurrence.
pub open spec fn type_counts(s: Seq<Seq<char>>) -> Seq<(Seq<char>, nat)>
    decreases s.len(),
{
    if s.len() == 0 {
        Seq::empty()
    } else {
        let t = type_counts(s.drop_last());
        let k = s.last();
        if exists|i: int| 0 <= i < t.len() && t[i].0 == k {
            let i = first_with_key(t, k);
            t.update(i, (k, t[i].1 + 1))
        } else {
            t.push((k, 1))
        }
    }
}

/// Position at which `e` goes into `s`, sorted by decreasing count: after
/// every entry whose count is at least that of `e`.
pub open spec fn insert_position(s: Seq<(Seq<char>, nat)>, e: (Seq<char>, nat)) -> int
    decreases s.len(),
{
    if s.len() == 0 {
        0
    } else if s[0].1 < e.1 {
        0
    } else {
        1 + insert_position(s.drop_first(), e)
    }
}

/// `t` sorted by decreasing count; entries with equal counts keep their order.
pub open spec fn by_count(t: Seq<(Seq<char>, nat)>) -> Seq<(Seq<char>, nat)>
    decreases t.len(),
{
    if t.len() == 0 {
        Seq::empty()
    } else {
        let s = by_count(t.drop_last());
        s.insert(insert_position(s, t.last()), t.last())
    }
}

/// The alert types of `s` by decreasing number of alerts, the first
/// [`TOP_TYPES`] of them.
pub open spec fn top_types(s: Seq<Seq<char>>) -> Seq<(Seq<char>, nat)> {
    let b = by_count(type_counts(s));
    if b.len() > TOP_TYPES {
        b.take(TOP_TYPES as int)
    } else {
        b
    }
}

pub open spec fn counts_view(v: Seq<(String, usize)>) -> Seq<(Seq<char>, nat)> {
    v.map_values(|e: (String, usize)| (e.0@, e.1 as nat))
}

pub open spec fn strings_view(v: Seq<String>) -> Seq<Seq<char>> {
    v.map_values(|e: String| e@)
}

proof fn lemma_insert_position_unique(s: Seq<(Seq<char>, nat)>, e: (Seq<char>, nat), p: int)
    requires
        0 <= p <= s.len(),
        forall|j: int| 0 <= j < p ==> s[j].1 >= e.1,
        p < s.len() ==> s[p].1 < e.1,
    ensures
        insert_position(s, e) == p,
    decreases s.len(),
{
    if s.len() > 0 && p > 0 {
        lemma_insert_position_unique(s.drop_first(), e, p - 1);
    }
}

/// Number of alerts of each type in `types`, most frequent first (types with
/// equal counts in order of first occurrence), at most [`TOP_TYPES`] of them.
pub fn count_alert_types(types: &Vec<String>) -> (r: Vec<(String, usize)>)
    ensures
        counts_view(r@) == top_types(strings_view(types@)),
{
    let ghost sv = strings_view(types@);
    let mut counts: Vec<(String, usize)> = Vec::new();
    let mut i: usize = 0;
    while i < types.len()
        invariant
            i <= types.len(),
            sv == strings_view(types@),
            counts_view(counts@) == type_counts(sv.take(i as int)),
            forall|j: int| 0 <= j < counts.len() ==> counts@[j].1 <= i,
        decreases types.len() - i,
    {
        let ghost t = counts_view(counts@);
        let ghost k = sv[i as int];
        proof {
            assert(sv.take(i as int + 1).drop_last() =~= sv.take(i as int));
            assert(sv.take(i as int + 1).last() == k);
        }
        let mut j: usize = 0;
        let mut found = false;
        while j < counts.len() && !found
            invariant
                j <= counts.len(),
                i < types.len(),
                t == counts_view(counts@),
                k == types@[i as int]@,
                found ==> j < counts.len() && counts@[j as int].0@ == k,
                forall|m: int| 0 <= m < j ==> counts@[m].0@ != k,
            decreases counts.len() - j + if found { 0int } else { 1int },
        {
            if counts[j].0 == types[i] {
                found = true;
            } else {
                j = j + 1;
            }
        }
        if found {
            let c = counts[j].1;
            let name = counts[j].0.clone();
            counts.set(j, (name, c + 1));
            proof {
                assert(t[j as int].0 == k);
                let f = first_with_key(t, k);
                assert(0 <= f < t.len() && t[f].0 == k && forall|m: int|
                    0 <= m < f ==> t[m].0 != k);
                assert(f == j);
                assert(counts_view(counts@) =~= t.update(j as int, (k, t[j as int].1 + 1)));
            }
        } else {
            counts.push((types[i].clone(), 1));
            proof {
                assert(!exists|m: int| 0 <= m < t.len() && t[m].0 == k);
                assert(counts_view(counts@) =~= t.push((k, 1)));
            }
        }
        i = i + 1;
    }
    assert(sv.take(types.len() as int) =~= sv);
    let ghost tc = counts_view(counts@);
    let mut sorted: Vec<(String, usize)> = Vec::new();
    let mut i: usize = 0;
    while i < counts.len()
        invariant
            i <= counts.len(),
            tc == counts_view(counts@),
            counts_view(sorted@) == by_count(tc.take(i as int)),
        decreases counts.len() - i,
    {
        let ghost s = counts_view(sorted@);
        let ghost e = tc[i as int];
        proof {
            assert(tc.take(i as int + 1).drop_last() =~= tc.take(i as int));
        }
        let mut p: usize = 0;
        while p < sorted.len() && sorted[p].1 >= counts[i].1
            invariant
                p <= sorted.len(),
                i < counts.len(),
                s == counts_view(sorted@),
                e == tc[i as int],
                tc == counts_view(counts@),
                forall|m: int| 0 <= m < p ==> s[m].1 >= e.1,
            decreases sorted.len() - p,
        {
            p = p + 1;
        }
        proof {
            lemma_insert_position_unique(s, e, p as int);
        }
        sorted.insert(p, (counts[i].0.clone(), counts[i].1));
        proof {
            assert(counts_view(sorted@) =~= s.insert(p as int, e));
        }
        i = i + 1;
    }
    assert(tc.take(counts.len() as int) =~= tc);
    if sorted.len() > TOP_TYPES {
        sorted.truncate(TOP_TYPES);
        assert(counts_view(sorted@) =~= by_count(tc).take(TOP_TYPES as int));
    }
    sorted
}

} // verus!
