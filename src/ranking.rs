use vstd::prelude::*;

verus! {

/// One process as sampled at one tick.
#[derive(Debug, Clone)]
pub struct ProcessSnapshot {
    pub name: String,
    /// CPU use in hundredths of a percent.
    pub cpu_usage: u32,
    /// Resident memory in bytes.
    pub memory: u64,
}

impl ProcessSnapshot {
    pub fn new(name: String, cpu_usage: u32, memory: u64) -> (r: ProcessSnapshot)
        ensures
            r == (ProcessSnapshot { name, cpu_usage, memory }),
    {
        ProcessSnapshot { name, cpu_usage, memory }
    }

    /// An equal, independently owned snapshot.
    pub fn duplicate(&self) -> (r: ProcessSnapshot)
        ensures
            r == *self,
    {
        ProcessSnapshot { name: self.name.clone(), cpu_usage: self.cpu_usage, memory: self.memory }
    }
}

/// Where a process using `cpu` goes in the ranking `r`: after every leading
/// entry that uses at least as much.
pub open spec fn rank_pos(r: Seq<ProcessSnapshot>, cpu: u32) -> nat
    decreases r.len(),
{
    if r.len() == 0 {
        0
    } else if r[0].cpu_usage >= cpu {
        1 + rank_pos(r.drop_first(), cpu)
    } else {
        0
    }
}

/// `s` ordered by CPU use, highest first, entries of equal use in their
/// order in `s`.
pub open spec fn ranked(s: Seq<ProcessSnapshot>) -> Seq<ProcessSnapshot>
    decreases s.len(),
{
    if s.len() == 0 {
        Seq::empty()
    } else {
        let r = ranked(s.drop_last());
        r.insert(rank_pos(r, s.last().cpu_usage) as int, s.last())
    }
}

/// The first `k` entries of the ranking of `s`, or all of them when there
/// are fewer.
pub open spec fn top_spec(s: Seq<ProcessSnapshot>, k: nat) -> Seq<ProcessSnapshot> {
    let r = ranked(s);
    if k < r.len() { r.take(k as int) } else { r }
}

pub open spec fn descending(r: Seq<ProcessSnapshot>) -> bool {
    forall|i: int, j: int| 0 <= i < j < r.len() ==> r[i].cpu_usage >= r[j].cpu_usage
}

proof fn lemma_rank_pos_bound(r: Seq<ProcessSnapshot>, cpu: u32)
    ensures
        rank_pos(r, cpu) <= r.len(),
        forall|i: int| 0 <= i < rank_pos(r, cpu) ==> r[i].cpu_usage >= cpu,
        rank_pos(r, cpu) < r.len() ==> r[rank_pos(r, cpu) as int].cpu_usage < cpu,
    decreases r.len(),
{
    if r.len() > 0 && r[0].cpu_usage >= cpu {
        lemma_rank_pos_bound(r.drop_first(), cpu);
        assert forall|i: int| 0 <= i < rank_pos(r, cpu) implies r[i].cpu_usage >= cpu by {
            if i > 0 {
                assert(r[i] == r.drop_first()[i - 1]);
            }
        }
    }
}

proof fn lemma_insert_descending(r: Seq<ProcessSnapshot>, x: ProcessSnapshot)
    requires
        descending(r),
    ensures
        descending(r.insert(rank_pos(r, x.cpu_usage) as int, x)),
{
    let p = rank_pos(r, x.cpu_usage);
    lemma_rank_pos_bound(r, x.cpu_usage);
    let n = r.insert(p as int, x);
    r.insert_ensures(p as int, x);
    assert forall|i: int, j: int| 0 <= i < j < n.len() implies n[i].cpu_usage
        >= n[j].cpu_usage by {
        if j < p {
        } else if j == p {
        } else if i < p {
            assert(n[j] == r[j - 1]);
            assert(r[p as int].cpu_usage >= r[j - 1].cpu_usage);
        } else if i == p {
            assert(n[j] == r[j - 1]);
            assert(r[p as int].cpu_usage >= r[j - 1].cpu_usage);
        } else {
            assert(n[j] == r[j - 1]);
            assert(n[i] == r[i - 1]);
        }
    }
}

/// The ranking keeps every entry and is ordered by CPU use, highest first.
pub proof fn lemma_ranked_descending(s: Seq<ProcessSnapshot>)
    ensures
        ranked(s).len() == s.len(),
        ranked(s).to_multiset() == s.to_multiset(),
        descending(ranked(s)),
    decreases s.len(),
{
    broadcast use vstd::seq_lib::to_multiset_insert, vstd::seq_lib::to_multiset_build;

    if s.len() > 0 {
        let prev = s.drop_last();
        lemma_ranked_descending(prev);
        let r = ranked(prev);
        let x = s.last();
        lemma_rank_pos_bound(r, x.cpu_usage);
        lemma_insert_descending(r, x);
        assert(s =~= prev.push(x));
        vstd::seq_lib::to_multiset_insert(r, rank_pos(r, x.cpu_usage) as int, x);
        vstd::seq_lib::to_multiset_build(prev, x);
    } else {
        assert(s =~= Seq::<ProcessSnapshot>::empty());
    }
}

proof fn lemma_rank_pos_skip(r: Seq<ProcessSnapshot>, j: int, cpu: u32)
    requires
        0 <= j < r.len(),
        r[j].cpu_usage >= cpu,
    ensures
        rank_pos(r.skip(j), cpu) == 1 + rank_pos(r.skip(j + 1), cpu),
{
    assert(r.skip(j).drop_first() =~= r.skip(j + 1));
}

/// The `k` processes using the most CPU, highest first; processes of equal
/// use keep their order in `processes`.
pub fn select_top(processes: &Vec<ProcessSnapshot>, k: usize) -> (r: Vec<ProcessSnapshot>)
    ensures
        r@ == top_spec(processes@, k as nat),
{
    let mut result: Vec<ProcessSnapshot> = Vec::new();
    let mut i: usize = 0;
    while i < processes.len()
        invariant
            i <= processes@.len(),
            result@ == ranked(processes@.take(i as int)),
        decreases processes@.len() - i,
    {
        let x = processes[i].duplicate();
        let mut j: usize = 0;
        proof {
            assert(result@.skip(0) =~= result@);
        }
        while j < result.len() && result[j].cpu_usage >= x.cpu_usage
            invariant
                j <= result@.len(),
                j + rank_pos(result@.skip(j as int), x.cpu_usage) == rank_pos(result@, x.cpu_usage),
            decreases result@.len() - j,
        {
            proof {
                lemma_rank_pos_skip(result@, j as int, x.cpu_usage);
            }
            j = j + 1;
        }
        proof {
            if j < result.len() {
                assert(result@.skip(j as int)[0] == result@[j as int]);
            }
            let next = processes@.take(i + 1);
            assert(next.drop_last() =~= processes@.take(i as int));
            assert(next.last() == processes@[i as int]);
        }
        result.insert(j, x);
        i = i + 1;
    }
    proof {
        assert(processes@.take(i as int) =~= processes@);
        lemma_ranked_descending(processes@);
    }
    result.truncate(k);
    result
}

} // verus!
