//! The controller's configuration and the time of each bot's last accepted
//! withdraw.

use crate::msg::Metadata;
use vstd::prelude::*;

verus! {

/// Nanoseconds in one second.
pub const NANOS_PER_SECOND: u64 = 1_000_000_000;

/// The configuration, set once when the controller is created.
#[derive(Clone, Debug)]
pub struct State {
    /// Seconds that must pass between two accepted withdraws of one bot.
    pub retry_delay: u64,
    pub job_id: String,
    pub owner: String,
    pub metadata: Metadata,
}

/// The last accepted withdraw of `last` (nanoseconds) lies more than
/// `retry_delay` seconds before `now` (nanoseconds).
pub open spec fn cooldown_elapsed(last: u64, now: u64, retry_delay: u64) -> bool {
    last + retry_delay * (NANOS_PER_SECOND as int) < now
}

/// A withdraw of `bot` at `now` is accepted: the bot has no record yet, or
/// its cooldown has elapsed.
pub open spec fn admits(records: Map<Seq<char>, u64>, bot: Seq<char>, now: u64, retry_delay: u64) -> bool {
    !records.contains_key(bot) || cooldown_elapsed(records[bot], now, retry_delay)
}

/// The time of each bot's last accepted withdraw, in nanoseconds. Each bot
/// has at most one entry.
#[derive(Clone, Debug)]
pub struct WithdrawTimestamps {
    entries: Vec<(String, u64)>,
}

impl WithdrawTimestamps {
    pub closed spec fn has_key(&self, i: int, k: Seq<char>) -> bool {
        0 <= i < self.entries@.len() && self.entries@[i].0@ == k
    }

    /// The bot names are distinct.
    pub closed spec fn wf(&self) -> bool {
        forall|i: int, j: int|
            0 <= i < self.entries@.len() && 0 <= j < self.entries@.len() && i != j
                ==> self.entries@[i].0@ != self.entries@[j].0@
    }

    /// Each bot's name mapped to the time of its last accepted withdraw.
    pub closed spec fn view(&self) -> Map<Seq<char>, u64> {
        Map::new(
            |k: Seq<char>| exists|i: int| self.has_key(i, k),
            |k: Seq<char>| self.entries@[choose|i: int| self.has_key(i, k)].1,
        )
    }

    proof fn lemma_entry(&self, i: int)
        requires
            self.wf(),
            0 <= i < self.entries@.len(),
        ensures
            self@.contains_key(self.entries@[i].0@),
            self@[self.entries@[i].0@] == self.entries@[i].1,
    {
        let k = self.entries@[i].0@;
        assert(self.has_key(i, k));
        let j = choose|j: int| self.has_key(j, k);
        assert(i == j);
    }

    pub fn new() -> (r: WithdrawTimestamps)
        ensures
            r.wf(),
            r@ == Map::<Seq<char>, u64>::empty(),
    {
        let r = WithdrawTimestamps { entries: Vec::new() };
        assert(r@ =~= Map::<Seq<char>, u64>::empty());
        r
    }

    fn find(&self, bot: &String) -> (r: Option<usize>)
        requires
            self.wf(),
        ensures
            r matches Some(i) ==> self.has_key(i as int, bot@),
            r is None ==> !self@.contains_key(bot@),
    {
        let mut i: usize = 0;
        while i < self.entries.len()
            invariant
                i <= self.entries@.len(),
                forall|j: int| 0 <= j < i ==> self.entries@[j].0@ != bot@,
            decreases self.entries@.len() - i,
        {
            if self.entries[i].0 == *bot {
                return Some(i);
            }
            i = i + 1;
        }
        None
    }

    /// The time of the bot's last accepted withdraw, if any.
    pub fn get(&self, bot: &String) -> (r: Option<u64>)
        requires
            self.wf(),
        ensures
            r == (if self@.contains_key(bot@) { Some(self@[bot@]) } else { None::<u64> }),
    {
        match self.find(bot) {
            Some(i) => {
                proof {
                    self.lemma_entry(i as int);
                }
                Some(self.entries[i].1)
            },
            None => None,
        }
    }

    /// Records `at` as the bot's last accepted withdraw.
    pub fn set(&mut self, bot: &String, at: u64)
        requires
            old(self).wf(),
        ensures
            final(self).wf(),
            final(self)@ == old(self)@.insert(bot@, at),
    {
        let ghost prev = *self;
        match self.find(bot) {
            Some(i) => {
                let key = self.entries[i].0.clone();
                self.entries.set(i, (key, at));
                assert forall|k: Seq<char>| #[trigger] self@.contains_key(k) == prev@.insert(bot@, at).contains_key(k) by {
                    if exists|j: int| prev.has_key(j, k) {
                        let j = choose|j: int| prev.has_key(j, k);
                        assert(self.has_key(j, k));
                    }
                    if exists|j: int| self.has_key(j, k) {
                        let j = choose|j: int| self.has_key(j, k);
                        assert(prev.has_key(j, k));
                    }
                }
                assert forall|k: Seq<char>| #[trigger] self@.contains_key(k) implies self@[k] == prev@.insert(bot@, at)[k] by {
                    let j = choose|j: int| self.has_key(j, k);
                    self.lemma_entry(j);
                    assert(prev.has_key(j, k));
                    prev.lemma_entry(j);
                }
                assert(self@ =~= prev@.insert(bot@, at));
            },
            None => {
                self.entries.push((bot.clone(), at));
                let ghost n: int = self.entries@.len() - 1;
                assert(self.has_key(n, bot@));
                assert forall|i: int, j: int|
                    0 <= i < self.entries@.len() && 0 <= j < self.entries@.len() && i != j
                        implies self.entries@[i].0@ != self.entries@[j].0@ by {
                    if i == n {
                        assert(!prev.has_key(j, bot@));
                    } else if j == n {
                        assert(!prev.has_key(i, bot@));
                    } else {
                        assert(prev.entries@[i] == self.entries@[i]);
                        assert(prev.entries@[j] == self.entries@[j]);
                    }
                }
                assert forall|k: Seq<char>| #[trigger] self@.contains_key(k) == prev@.insert(bot@, at).contains_key(k) by {
                    if exists|j: int| prev.has_key(j, k) {
                        let j = choose|j: int| prev.has_key(j, k);
                        assert(self.has_key(j, k));
                    }
                    if exists|j: int| self.has_key(j, k) {
                        let j = choose|j: int| self.has_key(j, k);
                        if j < n {
                            assert(prev.has_key(j, k));
                        }
                    }
                }
                assert forall|k: Seq<char>| #[trigger] self@.contains_key(k) implies self@[k] == prev@.insert(bot@, at)[k] by {
                    let j = choose|j: int| self.has_key(j, k);
                    self.lemma_entry(j);
                    if j < n {
                        assert(prev.has_key(j, k));
                        prev.lemma_entry(j);
                    }
                }
                assert(self@ =~= prev@.insert(bot@, at));
            },
        }
    }

    /// Decides whether a withdraw of `bot` at `now` is accepted, and records
    /// `now` as its last accepted withdraw where it is. A refused withdraw
    /// changes nothing.
    pub fn evaluate(&mut self, bot: &String, now: u64, retry_delay: u64) -> (admitted: bool)
        requires
            old(self).wf(),
        ensures
            final(self).wf(),
            admitted == admits(old(self)@, bot@, now, retry_delay),
            admitted ==> final(self)@ == old(self)@.insert(bot@, now),
            !admitted ==> *final(self) == *old(self),
    {
        let admitted = match self.get(bot) {
            None => true,
            Some(last) => {
                assert(retry_delay as u128 * 1_000_000_000u128 <= u64::MAX as u128 * 1_000_000_000u128)
                    by (nonlinear_arith);
                (last as u128) + (retry_delay as u128) * (NANOS_PER_SECOND as u128) < (now as u128)
            },
        };
        if admitted {
            self.set(bot, now);
        }
        admitted
    }
}

} // verus!
