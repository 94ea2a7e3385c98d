//! The integer side of the telemetry: memory, the largest disk, network bytes.

use vstd::prelude::*;

verus! {

/// The space of one disk, in bytes.
#[derive(Debug, Clone, Copy, PartialEq, Eq)]
pub struct DiskSpace {
    pub total: u64,
    pub available: u64,
}

/// The bytes that one network interface counted.
#[derive(Debug, Clone, Copy, PartialEq, Eq)]
pub struct NetworkCount {
    pub received: u64,
    pub transmitted: u64,
}

/// A part of a whole.
#[derive(Debug, Clone, Copy, PartialEq, Eq)]
pub struct Share {
    pub used: u64,
    pub total: u64,
}

/// One reading of the machine.
#[derive(Debug, Clone, Copy, PartialEq, Eq)]
pub struct Reading {
    /// Memory in use. The total is zero where the machine does not say.
    pub memory: Share,
    /// Space in use on the largest disk, if there is a disk with any space.
    pub storage: Option<Share>,
    /// Bytes that all network interfaces counted.
    pub network_bytes: u64,
}

/// Disk `i` has space, and more of it than every disk before it.
pub open spec fn leads(disks: Seq<DiskSpace>, i: int) -> bool {
    &&& 0 <= i < disks.len()
    &&& disks[i].total > 0
    &&& forall|j: int| 0 <= j < i ==> (#[trigger] disks[j]).total < disks[i].total
}

/// Disk `i` is the largest: none has more space, and none before it as much.
pub open spec fn is_largest(disks: Seq<DiskSpace>, i: int) -> bool {
    &&& leads(disks, i)
    &&& forall|j: int| 0 <= j < disks.len() ==> (#[trigger] disks[j]).total <= disks[i].total
}

/// The space in use on the largest disk.
pub fn largest_disk(disks: &Vec<DiskSpace>) -> (share: Option<Share>)
    requires
        forall|i: int| leads(disks@, i) ==> (#[trigger] disks@[i]).available <= disks@[i].total,
    ensures
        share is None <==> (forall|i: int|
            0 <= i < disks@.len() ==> (#[trigger] disks@[i]).total == 0),
        share matches Some(s) ==> exists|i: int|
            #[trigger] is_largest(disks@, i) && s.total == disks@[i].total && s.used
                == disks@[i].total - disks@[i].available,
{
    let mut largest: u64 = 0;
    let mut share: Option<Share> = None;
    let ghost mut at: int = -1;
    let mut i: usize = 0;
    while i < disks.len()
        invariant
            i <= disks@.len(),
            forall|k: int| leads(disks@, k) ==> (#[trigger] disks@[k]).available <= disks@[k].total,
            forall|j: int| 0 <= j < i ==> (#[trigger] disks@[j]).total <= largest,
            share is None ==> largest == 0 && at == -1,
            share matches Some(s) ==> {
                &&& 0 <= at < i
                &&& leads(disks@, at)
                &&& largest == disks@[at].total
                &&& s.total == disks@[at].total
                &&& s.used == disks@[at].total - disks@[at].available
            },
        decreases disks@.len() - i,
    {
        let disk: DiskSpace = disks[i];
        if disk.total > largest {
            assert(leads(disks@, i as int));
            assert(disks@[i as int].available <= disks@[i as int].total);
            largest = disk.total;
            share = Some(Share { used: disk.total - disk.available, total: disk.total });
            proof {
                at = i as int;
            }
        }
        i = i + 1;
    }
    proof {
        if share is Some {
            assert(is_largest(disks@, at));
            assert(disks@[at].total > 0);
        }
    }
    share
}

/// The bytes that all interfaces received and transmitted.
pub open spec fn byte_sum(counts: Seq<NetworkCount>) -> int
    decreases counts.len(),
{
    if counts.len() == 0 {
        0
    } else {
        byte_sum(counts.drop_last()) + counts.last().received + counts.last().transmitted
    }
}

/// The sum over some of the interfaces is no more than that over all of them.
proof fn byte_sum_grows(counts: Seq<NetworkCount>, n: int)
    requires
        0 <= n <= counts.len(),
    ensures
        0 <= byte_sum(counts.take(n)) <= byte_sum(counts),
    decreases counts.len(),
{
    if n < counts.len() {
        byte_sum_grows(counts.drop_last(), n);
        assert(counts.drop_last().take(n) =~= counts.take(n));
    } else {
        assert(counts.take(n) =~= counts);
        if counts.len() > 0 {
            byte_sum_grows(counts.drop_last(), n - 1);
        }
    }
}

/// The bytes that all interfaces counted.
pub fn network_bytes(counts: &Vec<NetworkCount>) -> (total: u64)
    requires
        byte_sum(counts@) <= u64::MAX,
    ensures
        total == byte_sum(counts@),
{
    let mut total: u64 = 0;
    let mut i: usize = 0;
    assert(counts@.take(0) =~= seq![]);
    while i < counts.len()
        invariant
            i <= counts@.len(),
            byte_sum(counts@) <= u64::MAX,
            total == byte_sum(counts@.take(i as int)),
        decreases counts@.len() - i,
    {
        proof {
            byte_sum_grows(counts@, i + 1);
            assert(counts@.take(i + 1).drop_last() =~= counts@.take(i as int));
            assert(counts@.take(i + 1).last() == counts@[i as int]);
        }
        total = total + counts[i].received;
        total = total + counts[i].transmitted;
        i = i + 1;
    }
    assert(counts@.take(counts@.len() as int) =~= counts@);
    total
}

/// The disk that counts is one alone: no disk is larger, and none ahead of it is as large.
pub proof fn the_largest_disk_is_one(disks: Seq<DiskSpace>, i: int, j: int)
    requires
        is_largest(disks, i),
        0 <= j < disks.len(),
    ensures
        0 <= i < disks.len(),
        disks[i].total > 0,
        disks[j].total <= disks[i].total,
        j < i ==> disks[j].total < disks[i].total,
        is_largest(disks, j) ==> i == j,
{
}

/// There is a disk that counts wherever one has any space.
pub proof fn some_disk_is_the_largest(disks: Seq<DiskSpace>, k: int)
    requires
        0 <= k < disks.len(),
        disks[k].total > 0,
    ensures
        exists|i: int| is_largest(disks, i),
{
    let i = largest_upto(disks, k, disks.len() as int);
    assert(is_largest(disks, i));
}

proof fn largest_upto(disks: Seq<DiskSpace>, k: int, n: int) -> (i: int)
    requires
        0 <= k < n <= disks.len(),
        disks[k].total > 0,
    ensures
        0 <= i < n,
        leads(disks, i),
        forall|j: int| 0 <= j < n ==> (#[trigger] disks[j]).total <= disks[i].total,
    decreases n,
{
    if k < n - 1 {
        let i = largest_upto(disks, k, n - 1);
        if disks[n - 1].total > disks[i].total {
            n - 1
        } else {
            i
        }
    } else {
        if exists|m: int| 0 <= m < k && (#[trigger] disks[m]).total > 0 {
            let m = choose|m: int| 0 <= m < k && (#[trigger] disks[m]).total > 0;
            let i = largest_upto(disks, m, n - 1);
            if disks[n - 1].total > disks[i].total {
                n - 1
            } else {
                i
            }
        } else {
            k
        }
    }
}

/// The bytes of all interfaces add up: those of some and those of the others, and of each
/// what it received and what it transmitted.
pub proof fn interface_bytes_add_up(
    a: Seq<NetworkCount>,
    b: Seq<NetworkCount>,
    count: NetworkCount,
)
    ensures
        byte_sum(a + b) == byte_sum(a) + byte_sum(b),
        byte_sum(seq![count]) == count.received + count.transmitted,
        byte_sum(Seq::<NetworkCount>::empty()) == 0,
    decreases b.len(),
{
    reveal_with_fuel(byte_sum, 2);
    assert(seq![count].drop_last() =~= Seq::<NetworkCount>::empty());
    if b.len() == 0 {
        assert(a + b =~= a);
    } else {
        interface_bytes_add_up(a, b.drop_last(), count);
        assert((a + b).drop_last() =~= a + b.drop_last());
        assert((a + b).last() == b.last());
    }
}

} // verus!
