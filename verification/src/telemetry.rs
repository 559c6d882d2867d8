//! Aggregation of the machine's raw counters into a telemetry sample: disk
//! space over all disks, and network traffic over all interfaces.
use vstd::prelude::*;

verus! {

/// The sum of a sequence of counters.
pub open spec fn sum_of(values: Seq<u64>) -> int
    decreases values.len(),
{
    if values.len() == 0 {
        0
    } else {
        sum_of(values.drop_last()) + values.last()
    }
}

proof fn lemma_sum_of_prefix_le(values: Seq<u64>, j: int)
    requires
        0 <= j <= values.len(),
    ensures
        0 <= sum_of(values.take(j)) <= sum_of(values),
    decreases values.len(),
{
    if j < values.len() {
        assert(values.drop_last().take(j) =~= values.take(j));
        lemma_sum_of_prefix_le(values.drop_last(), j);
    } else {
        assert(values.take(j) =~= values);
        if values.len() > 0 {
            lemma_sum_of_prefix_le(values.drop_last(), values.len() - 1);
            assert(values.drop_last().take(values.len() - 1) =~= values.drop_last());
        }
    }
}

/// The sum of the counters, or `None` where it exceeds `u64::MAX` (where
/// `Iterator::sum` overflows).
pub fn total_of(values: &Vec<u64>) -> (r: Option<u64>)
    ensures
        r is Some <==> sum_of(values@) <= u64::MAX,
        r matches Some(v) ==> v == sum_of(values@),
{
    let n = values.len();
    let mut acc: u64 = 0;
    let mut i: usize = 0;
    while i < n
        invariant
            n == values@.len(),
            i <= n,
            acc == sum_of(values@.take(i as int)),
        decreases n - i,
    {
        assert(values@.take(i + 1).drop_last() =~= values@.take(i as int));
        let next = acc.checked_add(values[i]);
        if next.is_none() {
            proof {
                lemma_sum_of_prefix_le(values@, i + 1);
            }
            return None;
        }
        acc = next.unwrap();
        i += 1;
    }
    assert(values@.take(n as int) =~= values@);
    Some(acc)
}

/// Disk space over all disks, in bytes.
#[derive(Clone, Copy, Debug, PartialEq, Eq, Structural)]
pub struct DiskUsage {
    pub used: u64,
    pub total: u64,
}

/// `a - b`, or 0 where `b` is larger (`u64::saturating_sub`).
pub open spec fn saturating_diff(a: int, b: int) -> int {
    if a >= b {
        a - b
    } else {
        0
    }
}

/// The space of all disks from each disk's total and available space: the
/// total is the sum of the totals, the used space the total less the sum of
/// the available space (0 where that is larger). `None` where a sum exceeds
/// `u64::MAX`.
pub fn disk_usage(totals: &Vec<u64>, available: &Vec<u64>) -> (r: Option<DiskUsage>)
    ensures
        r is Some <==> sum_of(totals@) <= u64::MAX && sum_of(available@) <= u64::MAX,
        r matches Some(u) ==> u.total == sum_of(totals@) && u.used == saturating_diff(
            sum_of(totals@),
            sum_of(available@),
        ),
{
    let total = match total_of(totals) {
        Some(t) => t,
        None => {
            return None;
        },
    };
    let free = match total_of(available) {
        Some(f) => f,
        None => {
            return None;
        },
    };
    Some(DiskUsage { used: total.saturating_sub(free), total })
}

/// Bytes counted over all interfaces between two readings: the growth of the
/// summed counters, 0 where they went down. `None` where a sum exceeds
/// `u64::MAX`.
pub fn counter_growth(previous: &Vec<u64>, current: &Vec<u64>) -> (r: Option<u64>)
    ensures
        r is Some <==> sum_of(previous@) <= u64::MAX && sum_of(current@) <= u64::MAX,
        r matches Some(g) ==> g == saturating_diff(sum_of(current@), sum_of(previous@)),
{
    let before = match total_of(previous) {
        Some(t) => t,
        None => {
            return None;
        },
    };
    let after = match total_of(current) {
        Some(t) => t,
        None => {
            return None;
        },
    };
    Some(after.saturating_sub(before))
}


/// The sum counts every counter once: adding a counter to the end adds its
/// value, and the empty sum is 0.
pub proof fn lemma_sum_is_additive(values: Seq<u64>, x: u64)
    ensures
        sum_of(values.push(x)) == sum_of(values) + x,
        sum_of(Seq::<u64>::empty()) == 0,
        sum_of(seq![x]) == x,
{
    assert(values.push(x).drop_last() =~= values);
    assert(seq![x].drop_last() =~= Seq::<u64>::empty());
}

/// Sums over two sequences add up: the sum of a concatenation is the sum of
/// the sums.
pub proof fn lemma_sum_of_concat(a: Seq<u64>, b: Seq<u64>)
    ensures
        sum_of(a + b) == sum_of(a) + sum_of(b),
    decreases b.len(),
{
    if b.len() == 0 {
        assert(a + b =~= a);
    } else {
        assert((a + b).drop_last() =~= a + b.drop_last());
        lemma_sum_of_concat(a, b.drop_last());
    }
}

/// The used space is what the total exceeds the free space by, and zero where
/// it does not exceed it.
pub proof fn lemma_used_space(total: int, free: int)
    ensures
        total >= free ==> saturating_diff(total, free) + free == total,
        total < free ==> saturating_diff(total, free) == 0,
{
}

} // verus!
