//! The amounts of resources a node agent reports about its node, computed from the
//! figures the operating system gives.
use vstd::prelude::*;

verus! {

/// Kilobytes in a megabyte, as the node agent counts them.
pub const KB_TO_MB: u64 = 1000;

/// Units of disk space in a gigabyte, as the node agent counts them.
pub const BIT_TO_GB: u64 = 1000000000;

/// Milli-cpu in one cpu.
pub const MILLI_CPU_PER_CPU: u64 = 1000;

/// The largest value of a sequence, 0 for an empty one.
pub open spec fn seq_max(s: Seq<u64>) -> u64
    decreases s.len(),
{
    if s.len() == 0 {
        0
    } else {
        let m = seq_max(s.drop_last());
        if s.last() > m {
            s.last()
        } else {
            m
        }
    }
}

/// The largest value of a sequence is at least every value of it, and is one of them
/// unless the sequence is empty, where it is 0.
pub proof fn lemma_seq_max_is_largest(s: Seq<u64>)
    ensures
        forall|i: int| 0 <= i < s.len() ==> s[i] <= seq_max(s),
        s.len() > 0 ==> exists|i: int| 0 <= i < s.len() && s[i] == seq_max(s),
        s.len() == 0 ==> seq_max(s) == 0,
    decreases s.len(),
{
    if s.len() > 0 {
        let t = s.drop_last();
        lemma_seq_max_is_largest(t);
        assert forall|i: int| 0 <= i < s.len() implies s[i] <= seq_max(s) by {
            if i < t.len() {
                assert(s[i] == t[i]);
            }
        }
        if s.last() > seq_max(t) {
            assert(s[s.len() - 1] == seq_max(s));
        } else if t.len() > 0 {
            let j = choose|j: int| 0 <= j < t.len() && t[j] == seq_max(t);
            assert(s[j] == seq_max(s));
        } else {
            assert(s[0] == seq_max(s));
        }
    }
}

/// The largest value of `values`, 0 when there is none.
pub fn max_of(values: &Vec<u64>) -> (r: u64)
    ensures
        r == seq_max(values@),
        forall|i: int| 0 <= i < values@.len() ==> values@[i] <= r,
        values@.len() > 0 ==> exists|i: int| 0 <= i < values@.len() && values@[i] == r,
        values@.len() == 0 ==> r == 0,
{
    let n = values.len();
    let mut m: u64 = 0;
    let mut i: usize = 0;
    assert(values@.take(0) =~= Seq::<u64>::empty());
    while i < n
        invariant
            n == values@.len(),
            0 <= i <= n,
            m == seq_max(values@.take(i as int)),
        decreases n - i,
    {
        assert(values@.take(i + 1).drop_last() =~= values@.take(i as int));
        if values[i] > m {
            m = values[i];
        }
        i += 1;
    }
    assert(values@.take(n as int) =~= values@);
    proof {
        lemma_seq_max_is_largest(values@);
    }
    m
}

/// The cpu limit of a node with `cores` cpus, in milli-cpu.
pub fn total_cpu(cores: u64) -> (r: u64)
    requires
        cores * MILLI_CPU_PER_CPU <= u64::MAX,
    ensures
        r == cores * MILLI_CPU_PER_CPU,
{
    cores * MILLI_CPU_PER_CPU
}

/// The cpu used on a node whose cpu limit is `total` milli-cpu and whose cpus are busy
/// `percent` percent of the time, in milli-cpu (rounded down).
pub fn used_cpu(total: u64, percent: u64) -> (r: u64)
    requires
        total * percent <= u64::MAX,
    ensures
        r == total * percent / 100,
{
    total * percent / 100
}

/// The memory limit of a node, in megabytes, from its available and used memory in
/// kilobytes.
pub fn total_memory(available: u64, used: u64) -> (r: u64)
    requires
        available + used <= u64::MAX,
    ensures
        r == (available + used) / KB_TO_MB as int,
{
    (available + used) / KB_TO_MB
}

/// The memory used on a node, in megabytes, from its used memory in kilobytes.
pub fn used_memory(used: u64) -> (r: u64)
    ensures
        r == used / KB_TO_MB,
{
    used / KB_TO_MB
}

/// The disk limit of a node, in gigabytes: the size of its largest disk.
pub fn total_disk(total_spaces: &Vec<u64>) -> (r: u64)
    ensures
        r == seq_max(total_spaces@) / BIT_TO_GB,
        forall|i: int| 0 <= i < total_spaces@.len() ==> total_spaces@[i] / BIT_TO_GB <= r,
        total_spaces@.len() > 0 ==> exists|i: int|
            0 <= i < total_spaces@.len() && r == total_spaces@[i] / BIT_TO_GB,
        total_spaces@.len() == 0 ==> r == 0,
{
    let m = max_of(total_spaces);
    proof {
        assert forall|i: int| 0 <= i < total_spaces@.len() implies total_spaces@[i] / BIT_TO_GB
            <= m / BIT_TO_GB by {
            let x = total_spaces@[i];
            assert(x / 1000000000u64 <= m / 1000000000u64) by (nonlinear_arith)
                requires
                    x <= m,
            ;
        }
    }
    m / BIT_TO_GB
}

/// The disk used on a node, in gigabytes: the size of its largest disk less the largest
/// available space of its disks.
pub fn used_disk(total_spaces: &Vec<u64>, available_spaces: &Vec<u64>) -> (r: u64)
    requires
        seq_max(available_spaces@) <= seq_max(total_spaces@),
    ensures
        r == (seq_max(total_spaces@) - seq_max(available_spaces@)) / BIT_TO_GB as int,
{
    let total = max_of(total_spaces);
    let available = max_of(available_spaces);
    (total - available) / BIT_TO_GB
}

/// A node with at least one cpu reports a cpu limit of at least one cpu.
pub proof fn lemma_total_cpu_at_least_one_cpu(cores: u64)
    requires
        cores >= 1,
    ensures
        cores * MILLI_CPU_PER_CPU >= MILLI_CPU_PER_CPU,
{
}

/// The cpu used never exceeds the cpu limit, as long as the cpus are busy at most 100
/// percent of the time.
pub proof fn lemma_used_cpu_within_total(total: u64, percent: u64)
    requires
        percent <= 100,
    ensures
        total * percent / 100 <= total,
{
    assert(total * percent <= total * 100) by (nonlinear_arith)
        requires
            percent <= 100,
    ;
    assert(total * percent / 100 <= total * 100 / 100) by (nonlinear_arith)
        requires
            total * percent <= total * 100,
    ;
}

/// The memory used never exceeds the memory limit.
pub proof fn lemma_used_memory_within_total(available: u64, used: u64)
    ensures
        used / KB_TO_MB <= (available + used) / KB_TO_MB as int,
{
    assert((used as int) / 1000int <= (available + used) / 1000int) by (nonlinear_arith)
        requires
            0 <= used <= available + used,
    ;
}

/// The disk used never exceeds the disk limit.
pub proof fn lemma_used_disk_within_total(total_spaces: Seq<u64>, available_spaces: Seq<u64>)
    requires
        seq_max(available_spaces) <= seq_max(total_spaces),
    ensures
        (seq_max(total_spaces) - seq_max(available_spaces)) / BIT_TO_GB as int <= seq_max(total_spaces)
            / BIT_TO_GB,
{
    let t = seq_max(total_spaces) as int;
    let a = seq_max(available_spaces) as int;
    assert((t - a) / 1000000000int <= t / 1000000000int) by (nonlinear_arith)
        requires
            0 <= a <= t,
    ;
}

} // verus!
