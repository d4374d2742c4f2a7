//! Process lists: ordered by CPU or memory use, largest first, and cut to the
//! requested length after the full count was taken.
use vstd::multiset::Multiset;
use vstd::prelude::*;

verus! {

broadcast use vstd::seq_lib::group_to_multiset_ensures;

/// One process as sampled: CPU use is in hundredths of a percent, memory and
/// disk traffic in bytes.
pub struct ProcessEntry {
    pub pid: u32,
    pub name: String,
    pub cpu_usage: u32,
    pub memory_usage: u64,
    pub disk_read: u64,
    pub disk_write: u64,
}

/// The processes shown and the number of processes that were running.
pub struct ProcessInfo {
    pub processes: Vec<ProcessEntry>,
    pub total_count: usize,
}

/// The quantity a process list is ordered by.
pub open spec fn sort_key(e: ProcessEntry, by_cpu: bool) -> int {
    if by_cpu {
        e.cpu_usage as int
    } else {
        e.memory_usage as int
    }
}

/// Every entry's key is at least that of any entry after it.
pub open spec fn sorted_desc(s: Seq<ProcessEntry>, by_cpu: bool) -> bool {
    forall|i: int, j: int| 0 <= i < j < s.len() ==> sort_key(s[i], by_cpu) >= sort_key(s[j], by_cpu)
}

/// How many entries are kept of `total` under an optional limit.
pub open spec fn kept_count(total: nat, top_n: Option<usize>) -> nat {
    match top_n {
        Some(n) => if n < total { n as nat } else { total },
        None => total,
    }
}

fn key_of(e: &ProcessEntry, by_cpu: bool) -> (r: u64)
    ensures
        r == sort_key(*e, by_cpu),
{
    if by_cpu {
        e.cpu_usage as u64
    } else {
        e.memory_usage
    }
}

/// Orders processes by CPU use (`by_cpu`) or by memory use, largest first.
/// Processes with equal keys keep their order.
pub fn sort_processes(entries: Vec<ProcessEntry>, by_cpu: bool) -> (r: Vec<ProcessEntry>)
    ensures
        r@.to_multiset() == entries@.to_multiset(),
        sorted_desc(r@, by_cpu),
{
    let ghost all = entries@;
    let mut rest = entries;
    let mut sorted: Vec<ProcessEntry> = Vec::new();
    while rest.len() > 0
        invariant
            sorted@.to_multiset().add(rest@.to_multiset()) == all.to_multiset(),
            sorted_desc(sorted@, by_cpu),
        decreases rest.len(),
    {
        let ghost before = rest@;
        let x = rest.pop().unwrap();
        proof {
            assert(before =~= rest@.push(x));
        }
        let k = key_of(&x, by_cpu);
        let mut p: usize = 0;
        while p < sorted.len() && key_of(&sorted[p], by_cpu) > k
            invariant
                p <= sorted.len(),
                forall|i: int| 0 <= i < p ==> sort_key(sorted@[i], by_cpu) > k,
            decreases sorted.len() - p,
        {
            p = p + 1;
        }
        let ghost old_sorted = sorted@;
        sorted.insert(p, x);
        proof {
            assert forall|i: int, j: int| 0 <= i < j < sorted@.len() implies sort_key(
                sorted@[i],
                by_cpu,
            ) >= sort_key(sorted@[j], by_cpu) by {
                if j < p {
                } else if j == p {
                } else if i < p {
                    assert(sorted@[j] == old_sorted[j - 1]);
                    assert(sort_key(old_sorted[p as int], by_cpu) <= k);
                } else if i == p {
                    assert(sort_key(old_sorted[p as int], by_cpu) <= k);
                } else {
                    assert(sorted@[i] == old_sorted[i - 1]);
                }
            }
            assert(sorted@.to_multiset() == old_sorted.to_multiset().insert(x));
            assert(before.to_multiset() == rest@.to_multiset().insert(x));
            assert(sorted@.to_multiset().add(rest@.to_multiset()) =~= all.to_multiset());
        }
    }
    assert(rest@.to_multiset() =~= Multiset::empty());
    assert(sorted@.to_multiset() =~= all.to_multiset());
    sorted
}

impl ProcessInfo {
    /// Builds the process report from every running process: counts them,
    /// orders them by CPU use (`sort_by_cpu`) or memory use, largest first,
    /// and keeps the first `top_n` if a limit is given.
    pub fn collect(entries: Vec<ProcessEntry>, top_n: Option<usize>, sort_by_cpu: bool) -> (r:
        ProcessInfo)
        ensures
            r.total_count == entries@.len(),
            r.processes@.len() <= r.total_count,
            r.processes@.len() == kept_count(entries@.len(), top_n),
            exists|all: Seq<ProcessEntry>|
                {
                    &&& #[trigger] all.to_multiset() == entries@.to_multiset()
                    &&& sorted_desc(all, sort_by_cpu)
                    &&& r.processes@ == all.take(r.processes@.len() as int)
                },
            forall|i: int|
                0 <= i < r.processes@.len() - 1 ==> sort_key(#[trigger] r.processes@[i], sort_by_cpu)
                    >= sort_key(r.processes@[i + 1], sort_by_cpu),
    {
        let total_count = entries.len();
        let ghost input = entries@;
        let mut processes = sort_processes(entries, sort_by_cpu);
        let ghost all = processes@;
        assert(all.len() == input.len()) by {
            assert(all.to_multiset().len() == all.len());
            assert(input.to_multiset().len() == input.len());
        }
        match top_n {
            Some(n) => processes.truncate(n),
            None => {},
        }
        assert(processes@ == all.take(processes@.len() as int));
        ProcessInfo { processes, total_count }
    }
}

} // verus!
