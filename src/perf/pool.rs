//! Positional worker pools: growth appends, shrinking retires the newest first.
use vstd::prelude::*;
use crate::text::{decimal, push_decimal};

verus! {

/// The last `count` workers of `s`, newest first: the order in which a shrink
/// retires them.
pub open spec fn newest_first<T>(s: Seq<T>, count: nat) -> Seq<T> {
    Seq::new(count, |j: int| s[s.len() - 1 - j])
}

/// The name of the worker at position `index` of the pool owned by `owner`.
pub open spec fn worker_name(owner: u32, index: usize) -> Seq<char> {
    seq!['p', 'e', 'r', 'f', '-'] + decimal(owner as nat) + seq!['-'] + decimal(index as nat)
}

/// Builds [`worker_name`].
pub fn make_worker_name(owner: u32, index: usize) -> (r: String)
    ensures
        r@ == worker_name(owner, index),
{
    let mut s = String::new();
    s.append("perf-");
    push_decimal(&mut s, owner as u64);
    s.append("-");
    push_decimal(&mut s, index as u64);
    proof {
        reveal_strlit("perf-");
        reveal_strlit("-");
    }
    assert(s@ =~= worker_name(owner, index));
    s
}

/// Removes workers from the end of `workers` until at most `desired` remain,
/// and hands them back newest first.
pub fn shrink_to<T>(workers: &mut Vec<T>, desired: usize) -> (retired: Vec<T>)
    ensures
        old(workers)@.len() <= desired ==> final(workers)@ == old(workers)@ && retired@.len() == 0,
        old(workers)@.len() > desired ==> {
            &&& final(workers)@ == old(workers)@.take(desired as int)
            &&& retired@ == newest_first(old(workers)@, (old(workers)@.len() - desired) as nat)
        },
{
    let ghost start = workers@;
    let mut retired: Vec<T> = Vec::new();
    while workers.len() > desired
        invariant
            workers@.len() + retired@.len() == start.len(),
            workers@ == start.take(workers@.len() as int),
            retired@ == newest_first(start, retired@.len() as nat),
            start.len() <= desired ==> retired@.len() == 0,
            start.len() > desired ==> workers@.len() >= desired,
        decreases workers@.len(),
    {
        let w = workers.pop().unwrap();
        retired.push(w);
        assert(retired@ =~= newest_first(start, retired@.len() as nat));
        assert(workers@ =~= start.take(workers@.len() as int));
    }
    proof {
        if start.len() <= desired {
            assert(workers@ =~= start);
        }
    }
    retired
}

/// Moves workers from the front of `built` to the end of `workers` until
/// `workers` holds `desired` of them or `built` runs out; the rest of `built`
/// is handed back.
pub fn grow_to<T>(workers: &mut Vec<T>, desired: usize, built: Vec<T>) -> (unused: Vec<T>)
    ensures
        final(workers)@ == old(workers)@ + built@.take(fill_count(old(workers)@.len(), desired as nat, built@.len()) as int),
        unused@ == built@.skip(fill_count(old(workers)@.len(), desired as nat, built@.len()) as int),
{
    let ghost start = workers@;
    let ghost k = fill_count(start.len(), desired as nat, built@.len());
    let ghost all = built@;
    let mut rest = built;
    let mut taken: usize = 0;
    while workers.len() < desired && rest.len() > 0
        invariant
            taken <= all.len(),
            rest@ == all.skip(taken as int),
            workers@ == start + all.take(taken as int),
            k == fill_count(start.len(), desired as nat, all.len()),
            taken <= k,
        decreases rest@.len(),
    {
        let w = rest.remove(0);
        workers.push(w);
        taken = taken + 1;
        assert(workers@ =~= start + all.take(taken as int));
        assert(rest@ =~= all.skip(taken as int));
    }
    rest
}

/// How many of `available` new workers a pool of `current` takes to reach `desired`.
pub open spec fn fill_count(current: nat, desired: nat, available: nat) -> nat {
    if current >= desired {
        0
    } else if desired - current <= available {
        (desired - current) as nat
    } else {
        available
    }
}

/// How many workers a pool of `current` lacks to reach `desired`.
pub open spec fn deficit(current: nat, desired: nat) -> nat {
    if current >= desired { 0 } else { (desired - current) as nat }
}

} // verus!
