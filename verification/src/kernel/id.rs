//! Identifier generation.

use vstd::arithmetic::div_mod::{
    lemma_add_mod_noop, lemma_mod_equivalence, lemma_mod_self_0, lemma_small_mod,
};
use vstd::prelude::*;

verus! {

/// The identifier that follows `id`; the successor of the largest
/// identifier is zero.
pub open spec fn next_after(id: u64) -> u64 {
    if id == u64::MAX {
        0
    } else {
        (id + 1) as u64
    }
}

/// A counter that hands out identifiers in increasing order and starts over
/// at zero once the largest has been handed out. Drawing an identifier takes
/// exclusive access to the counter, so no two requests can be handed the
/// same one at the same time.
#[derive(Debug)]
pub struct IdGenerator {
    /// The identifier the next request will receive.
    pub next: u64,
}

impl IdGenerator {
    /// A generator whose first identifier is 1.
    pub fn new() -> (generator: Self)
        ensures
            generator.next == 1,
    {
        IdGenerator { next: 1 }
    }

    /// Hands out the current identifier and advances the counter.
    pub fn next_id(&mut self) -> (id: u64)
        ensures
            id == old(self).next,
            final(self).next == next_after(old(self).next),
    {
        let id: u64 = self.next;
        self.next = id.wrapping_add(1);
        id
    }
}

/// The identifier that a generator whose counter stands at `start` hands
/// out to the request that comes after `earlier` other requests.
pub open spec fn nth_id(start: u64, earlier: nat) -> u64
    decreases earlier,
{
    if earlier == 0 {
        start
    } else {
        next_after(nth_id(start, (earlier - 1) as nat))
    }
}

/// The counter runs through the 64-bit numbers in order and starts over
/// after the largest.
proof fn lemma_nth_id_wraps(start: u64, earlier: nat)
    ensures
        nth_id(start, earlier) == (start + earlier) % 0x1_0000_0000_0000_0000,
    decreases earlier,
{
    let modulus = 0x1_0000_0000_0000_0000int;
    if earlier == 0 {
        lemma_small_mod(start as nat, modulus as nat);
    } else {
        lemma_nth_id_wraps(start, (earlier - 1) as nat);
        let before = nth_id(start, (earlier - 1) as nat);
        lemma_add_mod_noop(start + earlier - 1, 1, modulus);
        lemma_small_mod(1, modulus as nat);
        if before == u64::MAX {
            lemma_mod_self_0(modulus);
        } else {
            lemma_small_mod((before + 1) as nat, modulus as nat);
        }
    }
}

/// Identifiers are not reused before the counter has gone all the way
/// round: two requests made of one generator receive the same identifier
/// only if the number of requests from the one to the other is a multiple of
/// 2^64.
pub proof fn law_ids_distinct(start: u64, first: nat, second: nat)
    requires
        first <= second,
    ensures
        nth_id(start, first) == nth_id(start, second) <==> (second - first)
            % 0x1_0000_0000_0000_0000 == 0,
{
    let modulus = 0x1_0000_0000_0000_0000int;
    lemma_nth_id_wraps(start, first);
    lemma_nth_id_wraps(start, second);
    lemma_mod_equivalence(start + second, start + first, modulus);
}

/// Until the counter has passed the largest identifier, each identifier
/// handed out is larger by one than the one before.
pub proof fn law_ids_increase(start: u64, earlier: nat)
    requires
        start + earlier <= u64::MAX,
    ensures
        nth_id(start, earlier) == start + earlier,
    decreases earlier,
{
    if earlier > 0 {
        law_ids_increase(start, (earlier - 1) as nat);
    }
}

} // verus!
