//! Per-process records, the CPU-ordered process list, and keeping the
//! selection consistent with the latest list.

use vstd::prelude::*;

verus! {

/// One process as reported by the most recent sample.
///
/// `cpu_usage` is the CPU share in percent, carried as the bit pattern of a
/// non-negative IEEE-754 binary32 value: on such patterns the order of the
/// integers is the order of the numbers they encode.
#[derive(Debug)]
pub struct ProcessRecord {
    pub pid: u32,
    pub name: String,
    pub cpu_usage: u32,
    pub memory_bytes: u64,
}

/// Records in non-increasing order of CPU usage.
pub open spec fn sorted_by_cpu_desc(s: Seq<ProcessRecord>) -> bool {
    forall|i: int, j: int| 0 <= i < j < s.len() ==> s[i].cpu_usage >= s[j].cpu_usage
}

/// `output[k]` is `input[perm[k]]`, each input position is used at most once,
/// and records of equal CPU usage keep their input order.
pub open spec fn stable_arrangement(
    input: Seq<ProcessRecord>,
    output: Seq<ProcessRecord>,
    perm: Seq<int>,
) -> bool {
    &&& output.len() == input.len()
    &&& perm.len() == output.len()
    &&& forall|k: int| 0 <= k < output.len() ==> 0 <= #[trigger] perm[k] < input.len()
    &&& forall|k: int| 0 <= k < output.len() ==> #[trigger] output[k] == input[perm[k]]
    &&& forall|a: int, b: int| 0 <= a < b < output.len() ==> perm[a] != perm[b]
    &&& forall|a: int, b: int|
        0 <= a < b < output.len() && output[a].cpu_usage == output[b].cpu_usage ==> perm[a]
            < perm[b]
}

/// `output` is `input` sorted by CPU usage, highest first, with ties in the
/// order the collector reported them.
pub open spec fn stable_cpu_sort(input: Seq<ProcessRecord>, output: Seq<ProcessRecord>) -> bool {
    &&& sorted_by_cpu_desc(output)
    &&& exists|perm: Seq<int>| stable_arrangement(input, output, perm)
}

/// The sampled records ordered by CPU usage, highest first; records of
/// equal usage stay in the order in which they were sampled.
pub fn sort_by_cpu(processes: Vec<ProcessRecord>) -> (r: Vec<ProcessRecord>)
    ensures
        stable_cpu_sort(processes@, r@),
{
    let ghost orig = processes@;
    let total: usize = processes.len();
    let mut rest = processes;
    let mut out: Vec<ProcessRecord> = Vec::new();
    let ghost mut perm: Seq<int> = Seq::empty();
    let mut i: usize = 0;
    while rest.len() > 0
        invariant
            i + rest@.len() == orig.len(),
            orig.len() == total,
            rest@ == orig.subrange(i as int, orig.len() as int),
            out@.len() == i,
            perm.len() == i,
            sorted_by_cpu_desc(out@),
            forall|k: int| 0 <= k < i ==> 0 <= #[trigger] perm[k] < i,
            forall|k: int| 0 <= k < i ==> #[trigger] out@[k] == orig[perm[k]],
            forall|a: int, b: int| 0 <= a < b < i ==> perm[a] != perm[b],
            forall|a: int, b: int|
                0 <= a < b < i && out@[a].cpu_usage == out@[b].cpu_usage ==> perm[a] < perm[b],
        decreases rest.len(),
    {
        let item = rest.remove(0);
        assert(item == orig[i as int]);
        let key: u32 = item.cpu_usage;
        let mut p: usize = 0;
        while p < out.len() && out[p].cpu_usage >= key
            invariant
                p <= out@.len(),
                forall|k: int| 0 <= k < p ==> out@[k].cpu_usage >= key,
            decreases out@.len() - p,
        {
            p += 1;
        }
        let ghost old_out = out@;
        let ghost old_perm = perm;
        assert(forall|k: int| p <= k < old_out.len() ==> old_out[k].cpu_usage < key) by {
            assert forall|k: int| p <= k < old_out.len() implies old_out[k].cpu_usage < key by {
                if p < k {
                    assert(old_out[p as int].cpu_usage >= old_out[k].cpu_usage);
                }
            }
        }
        out.insert(p, item);
        proof {
            perm = perm.insert(p as int, i as int);
            assert forall|a: int, b: int| 0 <= a < b < out@.len() implies out@[a].cpu_usage
                >= out@[b].cpu_usage by {
                if b < p {
                } else if b == p {
                } else if a < p {
                    assert(out@[b] == old_out[b - 1]);
                } else if a == p {
                    assert(out@[b] == old_out[b - 1]);
                } else {
                    assert(out@[a] == old_out[a - 1]);
                    assert(out@[b] == old_out[b - 1]);
                }
            }
            assert forall|k: int| 0 <= k < i + 1 implies 0 <= #[trigger] perm[k] < i + 1
                && out@[k] == orig[perm[k]] by {
                if k < p {
                    assert(perm[k] == old_perm[k]);
                } else if k > p {
                    assert(perm[k] == old_perm[k - 1]);
                    assert(out@[k] == old_out[k - 1]);
                }
            }
            assert forall|a: int, b: int| 0 <= a < b < i + 1 implies perm[a] != perm[b] && (
            out@[a].cpu_usage == out@[b].cpu_usage ==> perm[a] < perm[b]) by {
                if b < p {
                } else if b == p {
                    assert(perm[a] == old_perm[a]);
                } else if a < p {
                    assert(perm[b] == old_perm[b - 1]);
                    assert(out@[b] == old_out[b - 1]);
                } else if a == p {
                    assert(perm[b] == old_perm[b - 1]);
                    assert(out@[b] == old_out[b - 1]);
                } else {
                    assert(perm[a] == old_perm[a - 1]);
                    assert(perm[b] == old_perm[b - 1]);
                    assert(out@[a] == old_out[a - 1]);
                    assert(out@[b] == old_out[b - 1]);
                }
            }
        }
        i += 1;
    }
    assert(stable_arrangement(orig, out@, perm));
    out
}

/// Some record of `s` has identifier `pid`.
pub open spec fn lists_pid(s: Seq<ProcessRecord>, pid: u32) -> bool {
    exists|k: int| 0 <= k < s.len() && s[k].pid == pid
}

/// The selection after a refresh that produced `s`: kept while its process
/// is still listed, dropped otherwise.
pub open spec fn reconciled(selected: Option<u32>, s: Seq<ProcessRecord>) -> Option<u32> {
    match selected {
        Some(pid) => if lists_pid(s, pid) {
            Some(pid)
        } else {
            None
        },
        None => None,
    }
}

/// Whether `processes` holds a record for `pid`.
pub fn contains_pid(processes: &Vec<ProcessRecord>, pid: u32) -> (r: bool)
    ensures
        r == lists_pid(processes@, pid),
{
    let mut k: usize = 0;
    while k < processes.len()
        invariant
            k <= processes@.len(),
            forall|j: int| 0 <= j < k ==> processes@[j].pid != pid,
        decreases processes@.len() - k,
    {
        if processes[k].pid == pid {
            return true;
        }
        k += 1;
    }
    false
}

/// The selection kept or dropped according to the latest process list.
pub fn reconcile_selection(selected: Option<u32>, processes: &Vec<ProcessRecord>) -> (r: Option<
    u32,
>)
    ensures
        r == reconciled(selected, processes@),
{
    match selected {
        Some(pid) => if contains_pid(processes, pid) {
            Some(pid)
        } else {
            None
        },
        None => None,
    }
}

} // verus!
