//! Decoding an organism's continuous decision vector into discrete
//! per-direction actions.
//!
//! The 32-wide output vector is partitioned into fixed zones of one entry per
//! neighbour direction.  A chooser zone selects at most one direction: the
//! one with the greatest activation, provided it exceeds the threshold of one
//! half, the lowest index winning ties.  A flag zone yields one independent
//! boolean per direction, again by comparison with one half.  Decoding is a
//! pure function of the codes; it never touches the brain.

use vstd::prelude::*;

use crate::brain::HALF_CODE;

verus! {

/// Number of neighbour directions, and the width of every decision zone.
pub const DIRECTIONS: usize = 8;

/// First entry of the move-decision zone.
pub const MOVE_ZONE_START: usize = 8;

/// First entry of the incubate-decision zone.
pub const INCUBATE_ZONE_START: usize = 16;

/// First entry of the drop-decision zone.
pub const DROP_ZONE_START: usize = 24;

/// The zone of one decision within a full output vector.
pub open spec fn zone_spec(out: Seq<u32>, start: int) -> Seq<u32> {
    out.subrange(start, start + DIRECTIONS)
}

/// Index of the greatest entry among the first `n` of the zone, the lowest
/// index winning ties.
pub open spec fn argmax_upto(zone: Seq<u32>, n: int) -> int
    decreases n,
{
    if n <= 1 {
        0
    } else {
        let p = argmax_upto(zone, n - 1);
        if zone[n - 1] > zone[p] {
            n - 1
        } else {
            p
        }
    }
}

pub proof fn lemma_argmax_range(zone: Seq<u32>, n: int)
    requires
        1 <= n,
    ensures
        0 <= argmax_upto(zone, n) < n,
    decreases n,
{
    if n > 1 {
        lemma_argmax_range(zone, n - 1);
    }
}

/// The direction a chooser zone selects: the greatest activation when it
/// exceeds the threshold, no direction otherwise.
pub open spec fn chooser_spec(zone: Seq<u32>) -> Option<usize>
    recommends
        zone.len() == DIRECTIONS,
{
    let m = argmax_upto(zone, DIRECTIONS as int);
    if zone[m] > HALF_CODE {
        Some(m as usize)
    } else {
        None
    }
}

/// The per-direction booleans of a flag zone.
pub open spec fn flags_spec(zone: Seq<u32>) -> Seq<bool> {
    Seq::new(zone.len(), |i: int| zone[i] > HALF_CODE)
}

/// The chooser is a total, deterministic policy: a selected direction beats
/// the threshold, no other direction beats it, and every earlier direction is
/// strictly below it; when no direction is selected, none beats the
/// threshold.
pub proof fn lemma_chooser_policy(zone: Seq<u32>)
    requires
        zone.len() == DIRECTIONS,
    ensures
        chooser_spec(zone) matches Some(d) ==> {
            &&& d < DIRECTIONS
            &&& zone[d as int] > HALF_CODE
            &&& forall|k: int| 0 <= k < DIRECTIONS ==> zone[k] <= zone[d as int]
            &&& forall|k: int| 0 <= k < d ==> zone[k] < zone[d as int]
        },
        chooser_spec(zone) is None ==> forall|k: int|
            0 <= k < DIRECTIONS ==> zone[k] <= HALF_CODE,
{
    lemma_argmax_range(zone, DIRECTIONS as int);
    lemma_argmax_greatest(zone, DIRECTIONS as int);
}

/// The entry at `argmax_upto` dominates every entry before `n`, strictly so
/// for entries at lower indices.
pub proof fn lemma_argmax_greatest(zone: Seq<u32>, n: int)
    requires
        1 <= n,
    ensures
        forall|k: int| 0 <= k < n ==> #[trigger] zone[k] <= zone[argmax_upto(zone, n)],
        forall|k: int| 0 <= k < argmax_upto(zone, n) ==> #[trigger] zone[k] < zone[argmax_upto(zone, n)],
    decreases n,
{
    if n > 1 {
        lemma_argmax_greatest(zone, n - 1);
        lemma_argmax_range(zone, n - 1);
    }
}

/// Selects at most one direction from the chooser zone starting at `start`
/// within a full output vector.
pub fn choose_direction(out: &Vec<u32>, start: usize) -> (r: Option<usize>)
    requires
        start + DIRECTIONS <= out@.len(),
    ensures
        r == chooser_spec(zone_spec(out@, start as int)),
        r matches Some(d) ==> d < DIRECTIONS,
{
    let ghost zone = zone_spec(out@, start as int);
    let n = out.len();
    let mut best: usize = 0;
    let mut i: usize = 1;
    while i < DIRECTIONS
        invariant
            1 <= i <= DIRECTIONS,
            start + DIRECTIONS <= out@.len(),
            n == out@.len(),
            best < i,
            best as int == argmax_upto(zone, i as int),
            zone == zone_spec(out@, start as int),
        decreases DIRECTIONS - i,
    {
        if out[start + i] > out[start + best] {
            best = i;
        }
        i = i + 1;
    }
    if out[start + best] > HALF_CODE {
        Some(best)
    } else {
        None
    }
}

/// Reads the per-direction booleans of the flag zone starting at `start`
/// within a full output vector.
pub fn zone_flags(out: &Vec<u32>, start: usize) -> (r: Vec<bool>)
    requires
        start + DIRECTIONS <= out@.len(),
    ensures
        r@ == flags_spec(zone_spec(out@, start as int)),
        r@.len() == DIRECTIONS,
{
    let ghost zone = zone_spec(out@, start as int);
    let n = out.len();
    let mut r: Vec<bool> = Vec::new();
    let mut i: usize = 0;
    while i < DIRECTIONS
        invariant
            i <= DIRECTIONS,
            start + DIRECTIONS <= out@.len(),
            n == out@.len(),
            r@.len() == i,
            forall|k: int| 0 <= k < i ==> r@[k] == (zone[k] > HALF_CODE),
            zone == zone_spec(out@, start as int),
        decreases DIRECTIONS - i,
    {
        r.push(out[start + i] > HALF_CODE);
        i = i + 1;
    }
    assert(r@ =~= flags_spec(zone));
    r
}

} // verus!
