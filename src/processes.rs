use vstd::prelude::*;
use vstd::multiset::Multiset;
use vstd::seq_lib::*;

verus! {

broadcast use vstd::seq_lib::group_to_multiset_ensures;

/// Number of processes a sample lists unless configured otherwise.
pub const DEFAULT_PROCESS_COUNT: usize = 15;

/// One running process as the counter reader reports it. `cpu_usage` is in
/// hundredths of a percent of one core, `memory` in bytes.
#[derive(Debug)]
pub struct ProcessInfo {
    pub pid: u32,
    pub name: String,
    pub cpu_usage: u32,
    pub memory: u64,
    pub status: String,
}

impl Clone for ProcessInfo {
    fn clone(&self) -> (r: Self)
        ensures
            r == *self,
    {
        ProcessInfo {
            pid: self.pid,
            name: self.name.clone(),
            cpu_usage: self.cpu_usage,
            memory: self.memory,
            status: self.status.clone(),
        }
    }
}

/// The processes of `s` come in order of memory, largest first.
pub open spec fn sorted_by_memory_desc(s: Seq<ProcessInfo>) -> bool {
    forall|i: int, j: int| 0 <= i < j < s.len() ==> s[i].memory >= s[j].memory
}

/// No two processes of `s` use the same amount of memory.
pub open spec fn distinct_memory(s: Seq<ProcessInfo>) -> bool {
    forall|i: int, j: int| 0 <= i < j < s.len() ==> s[i].memory != s[j].memory
}

/// The processes of `s` come in order of memory, largest first, with no two
/// using the same amount.
pub open spec fn strictly_by_memory_desc(s: Seq<ProcessInfo>) -> bool {
    forall|i: int, j: int| 0 <= i < j < s.len() ==> s[i].memory > s[j].memory
}

/// `r` is the list of the `count` processes of `s` that use the most memory,
/// largest first: the first entries of an ordering of all of `s` by memory.
pub open spec fn is_top_by_memory(s: Seq<ProcessInfo>, count: nat, r: Seq<ProcessInfo>) -> bool {
    &&& r.len() == if s.len() < count { s.len() } else { count }
    &&& exists|all: Seq<ProcessInfo>|
        {
            &&& all.to_multiset() == s.to_multiset()
            &&& sorted_by_memory_desc(all)
            &&& r == all.take(r.len() as int)
        }
}

/// Index at which a process using `memory` bytes goes into `sorted` to keep
/// it in order of memory, largest first: after every entry that uses as much.
fn insertion_point(sorted: &Vec<ProcessInfo>, memory: u64) -> (k: usize)
    requires
        sorted_by_memory_desc(sorted@),
    ensures
        k <= sorted@.len(),
        forall|i: int| 0 <= i < k ==> sorted@[i].memory >= memory,
        forall|i: int| k <= i < sorted@.len() ==> sorted@[i].memory < memory,
{
    let mut k: usize = 0;
    while k < sorted.len() && sorted[k].memory >= memory
        invariant
            k <= sorted@.len(),
            forall|i: int| 0 <= i < k ==> sorted@[i].memory >= memory,
        decreases sorted@.len() - k,
    {
        k += 1;
    }
    k
}

/// Orders `processes` by memory, largest first. Processes that use the same
/// memory keep their relative order.
pub fn sort_by_memory_desc(processes: Vec<ProcessInfo>) -> (r: Vec<ProcessInfo>)
    ensures
        r@.to_multiset() == processes@.to_multiset(),
        sorted_by_memory_desc(r@),
        distinct_memory(processes@) ==> distinct_memory(r@),
{
    let mut rest = processes;
    let mut sorted: Vec<ProcessInfo> = Vec::new();
    // Where each sorted entry came from in the input.
    let ghost mut origin: Seq<int> = seq![];
    let ghost mut taken: int = 0;
    while rest.len() > 0
        invariant
            sorted_by_memory_desc(sorted@),
            sorted@.to_multiset().add(rest@.to_multiset()) == processes@.to_multiset(),
            0 <= taken <= processes@.len(),
            rest@ == processes@.subrange(taken, processes@.len() as int),
            origin.len() == sorted@.len(),
            forall|a: int|
                0 <= a < origin.len() ==> 0 <= #[trigger] origin[a] < taken && sorted@[a]
                    == processes@[origin[a]],
            forall|a: int, b: int|
                0 <= a < b < origin.len() ==> #[trigger] origin[a] != #[trigger] origin[b],
        decreases rest@.len(),
    {
        let ghost before = rest@;
        let p = rest.remove(0);
        proof {
            assert(before =~= seq![p] + rest@);
            lemma_multiset_commutative(seq![p], rest@);
            assert(seq![p].to_multiset() =~= Multiset::singleton(p)) by {
                assert(seq![p] =~= Seq::<ProcessInfo>::empty().push(p));
            }
        }
        let k = insertion_point(&sorted, p.memory);
        let ghost prev = sorted@;
        sorted.insert(k, p);
        proof {
            let prev_origin = origin;
            origin = origin.insert(k as int, taken);
            assert(p == processes@[taken]);
            taken = taken + 1;
            assert(rest@ =~= processes@.subrange(taken, processes@.len() as int));
            assert forall|a: int| 0 <= a < origin.len() implies 0 <= #[trigger] origin[a] < taken
                && sorted@[a] == processes@[origin[a]] by {
                if a > k {
                    assert(origin[a] == prev_origin[a - 1]);
                }
            }
            assert forall|a: int, b: int| 0 <= a < b < origin.len() implies #[trigger] origin[a]
                != #[trigger] origin[b] by {
                if a < k && b > k {
                    assert(origin[b] == prev_origin[b - 1]);
                } else if a > k {
                    assert(origin[a] == prev_origin[a - 1]);
                    assert(origin[b] == prev_origin[b - 1]);
                }
            }
            to_multiset_insert(prev, k as int, p);
            assert(sorted@.to_multiset().add(rest@.to_multiset()) =~= processes@.to_multiset());
            assert forall|i: int, j: int| 0 <= i < j < sorted@.len() implies sorted@[i].memory
                >= sorted@[j].memory by {
                if j < k {
                } else if j == k {
                } else if i < k {
                } else if i == k {
                } else {
                    assert(sorted@[i] == prev[i - 1]);
                    assert(sorted@[j] == prev[j - 1]);
                }
            }
        }
    }
    proof {
        assert(rest@.to_multiset() =~= Multiset::empty());
        assert(sorted@.to_multiset().add(Multiset::empty()) =~= sorted@.to_multiset());
        if distinct_memory(processes@) {
            assert forall|a: int, b: int| 0 <= a < b < sorted@.len() implies sorted@[a].memory
                != sorted@[b].memory by {
                let (x, y) = (origin[a], origin[b]);
                if x < y {
                    assert(processes@[x].memory != processes@[y].memory);
                } else {
                    assert(processes@[y].memory != processes@[x].memory);
                }
            }
        }
    }
    sorted
}

/// The `count` processes that use the most memory, largest first; all of
/// them when there are fewer.
pub fn top_processes(processes: Vec<ProcessInfo>, count: usize) -> (r: Vec<ProcessInfo>)
    ensures
        is_top_by_memory(processes@, count as nat, r@),
        sorted_by_memory_desc(r@),
        distinct_memory(processes@) ==> strictly_by_memory_desc(r@),
        r@.to_multiset().subset_of(processes@.to_multiset()),
{
    let mut sorted = sort_by_memory_desc(processes);
    let ghost all = sorted@;
    sorted.truncate(count);
    proof {
        let n = sorted@.len() as int;
        assert(sorted@ =~= all.take(n));
        lemma_take_multiset_subset(all, n);
        to_multiset_len(all);
        to_multiset_len(processes@);
        assert(all.to_multiset() == processes@.to_multiset() && sorted_by_memory_desc(all)
            && sorted@ == all.take(n));
    }
    sorted
}

/// The first `n` entries of `s` are among the entries of `s`.
proof fn lemma_take_multiset_subset(s: Seq<ProcessInfo>, n: int)
    requires
        0 <= n <= s.len(),
    ensures
        s.take(n).to_multiset().subset_of(s.to_multiset()),
{
    assert(s =~= s.take(n) + s.skip(n));
    lemma_multiset_commutative(s.take(n), s.skip(n));
}

} // verus!
