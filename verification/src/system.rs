//! Sequencing state: the block-height counter and the per-account replay
//! counters ("nonces").
use vstd::prelude::*;

use vstd::hash_map::StringHashMap;

verus! {

/// The nonce an account counts as holding: the stored counter, or zero for
/// an account that has never originated an operation.
pub open spec fn nonce_of(nonces: Map<Seq<char>, u32>, who: Seq<char>) -> u32 {
    if nonces.contains_key(who) {
        nonces[who]
    } else {
        0
    }
}

/// The sequencing module's state: the current height and every account's
/// replay counter.
pub struct SystemState {
    pub block_number: u32,
    pub nonces: Map<Seq<char>, u32>,
}

/// The sequencing module. It alone may advance the height or a nonce.
pub struct Pallet {
    block_number: u32,
    nonce: StringHashMap<u32>,
}

impl View for Pallet {
    type V = SystemState;

    closed spec fn view(&self) -> SystemState {
        SystemState { block_number: self.block_number, nonces: self.nonce@ }
    }
}

impl Pallet {
    /// The nonce recorded for `who`, zero if absent.
    pub open spec fn spec_nonce(&self, who: Seq<char>) -> u32 {
        nonce_of(self@.nonces, who)
    }

    /// Fresh sequencing state: height zero, no account has acted.
    pub fn new() -> (result: Self)
        ensures
            result@.block_number == 0,
            result@.nonces == Map::<Seq<char>, u32>::empty(),
    {
        Self { block_number: 0, nonce: StringHashMap::new() }
    }

    /// The current height. Starts at zero; pure read.
    pub fn block_number(&self) -> (result: u32)
        ensures
            result == self@.block_number,
    {
        self.block_number
    }

    /// Advances the height by one. The caller keeps the counter within its
    /// integer range; policing that is an explicit non-goal.
    pub fn inc_block_number(&mut self)
        requires
            old(self)@.block_number < u32::MAX,
        ensures
            final(self)@.block_number == old(self)@.block_number + 1,
            final(self)@.nonces == old(self)@.nonces,
    {
        self.block_number = self.block_number + 1;
    }

    /// Advances `who`'s nonce by one, counting from zero for an account that
    /// has never acted. Unconditional: it succeeds whether or not the
    /// operation it accounts for will.
    pub fn inc_nonce(&mut self, who: &String)
        requires
            old(self).spec_nonce(who@) < u32::MAX,
        ensures
            final(self)@.block_number == old(self)@.block_number,
            final(self)@.nonces == old(self)@.nonces.insert(
                who@,
                (old(self).spec_nonce(who@) + 1) as u32,
            ),
    {
        let current_nonce: u32 = match self.nonce.get(who.as_str()) {
            Some(n) => *n,
            None => 0,
        };
        let new_nonce = current_nonce + 1;
        self.nonce.insert(who.clone(), new_nonce);
    }

    /// The nonce recorded for `who`: `None` for an account that has never
    /// originated an operation, `Some` of its counter otherwise. The two are
    /// kept distinct; "never acted" is not "acted zero times".
    pub fn get_nonce(&self, who: &String) -> (result: Option<&u32>)
        ensures
            (match result {
                Some(n) => self@.nonces.contains_key(who@) && *n == self@.nonces[who@],
                None => !self@.nonces.contains_key(who@),
            }),
    {
        self.nonce.get(who.as_str())
    }
}

/// The nonce map reached from `nonces` after `count` increments of `who`'s
/// counter, each by one.
pub open spec fn nonces_after_incs(nonces: Map<Seq<char>, u32>, who: Seq<char>, count: nat) -> Map<
    Seq<char>,
    u32,
>
    decreases count,
{
    if count == 0 {
        nonces
    } else {
        let prev = nonces_after_incs(nonces, who, (count - 1) as nat);
        prev.insert(who, (nonce_of(prev, who) + 1) as u32)
    }
}

/// Counting from a state where `who` has never acted, `count` increments
/// leave its nonce at exactly `count`: recorded as absent before the first
/// increment, and as the number of increments after.
pub proof fn lemma_nonce_counts_calls(nonces: Map<Seq<char>, u32>, who: Seq<char>, count: nat)
    requires
        !nonces.contains_key(who),
        count <= u32::MAX,
    ensures
        count == 0 ==> !nonces_after_incs(nonces, who, count).contains_key(who),
        count > 0 ==> nonces_after_incs(nonces, who, count).contains_key(who)
            && nonces_after_incs(nonces, who, count)[who] == count,
    decreases count,
{
    if count > 0 {
        lemma_nonce_counts_calls(nonces, who, (count - 1) as nat);
    }
}

} // verus!
