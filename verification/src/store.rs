//! A mathematical model of the shared key-value store, and of the four
//! entities that the gateway keeps in it.
//!
//! The gateway's two halves share nothing but the store. What each of them may
//! rely on is stated here: what a command does to the store, what the store
//! answers, and how the born set, the alive set, a device's status and the
//! event stream are read off it. Everything in this file is specification.

use crate::redis_wrapper::{alive_key, born_key, events_key, status_key_of, CommandView, Op, ReplyView};
use vstd::prelude::*;

verus! {

/// The store: plain values, lists, ordered sets and hashes, each by key. An
/// ordered set maps its members to their scores. A key that is absent holds
/// the empty collection.
pub struct Store {
    pub values: Map<Seq<char>, Seq<char>>,
    pub lists: Map<Seq<char>, Seq<Seq<char>>>,
    pub sorted: Map<Seq<char>, Map<Seq<char>, Seq<char>>>,
    pub hashes: Map<Seq<char>, Map<Seq<char>, Seq<char>>>,
}

impl Store {
    /// The list under `key`, leftmost entry first.
    pub open spec fn list(self, key: Seq<char>) -> Seq<Seq<char>> {
        if self.lists.contains_key(key) {
            self.lists[key]
        } else {
            Seq::empty()
        }
    }

    /// The ordered set under `key`: each member with its score.
    pub open spec fn zset(self, key: Seq<char>) -> Map<Seq<char>, Seq<char>> {
        if self.sorted.contains_key(key) {
            self.sorted[key]
        } else {
            Map::empty()
        }
    }

    /// The hash under `key`.
    pub open spec fn hash(self, key: Seq<char>) -> Map<Seq<char>, Seq<char>> {
        if self.hashes.contains_key(key) {
            self.hashes[key]
        } else {
            Map::empty()
        }
    }

    /// The store after it has carried out `c`.
    pub open spec fn apply(self, c: CommandView) -> Store {
        match c.op {
            Op::SetKey => Store { values: self.values.insert(c.key, c.value), ..self },
            Op::LPush => Store {
                lists: self.lists.insert(c.key, seq![c.value] + self.list(c.key)),
                ..self
            },
            Op::RPop => if self.list(c.key).len() > 0 {
                Store { lists: self.lists.insert(c.key, self.list(c.key).drop_last()), ..self }
            } else {
                self
            },
            Op::DelKey => Store {
                values: self.values.remove(c.key),
                lists: self.lists.remove(c.key),
                sorted: self.sorted.remove(c.key),
                hashes: self.hashes.remove(c.key),
            },
            Op::ZAdd => Store {
                sorted: self.sorted.insert(c.key, self.zset(c.key).insert(c.field, c.value)),
                ..self
            },
            Op::ZRem => Store {
                sorted: self.sorted.insert(c.key, self.zset(c.key).remove(c.field)),
                ..self
            },
            Op::HSet => Store {
                hashes: self.hashes.insert(c.key, self.hash(c.key).insert(c.field, c.value)),
                ..self
            },
            Op::HDel => Store {
                hashes: self.hashes.insert(c.key, self.hash(c.key).remove(c.field)),
                ..self
            },
            Op::GetKey | Op::ZCard | Op::ZRank | Op::HGet => self,
        }
    }

    /// Whether `r` is what a store in this state answers to `c` when it
    /// carries the command out. A failure is never such an answer.
    pub open spec fn answers(self, c: CommandView, r: ReplyView) -> bool {
        match c.op {
            Op::SetKey => r is Text,
            Op::GetKey => if self.values.contains_key(c.key) {
                r == ReplyView::Text(self.values[c.key])
            } else {
                r is Nil
            },
            Op::LPush => r == ReplyView::Count(self.list(c.key).len() + 1),
            Op::RPop => if self.list(c.key).len() > 0 {
                r == ReplyView::Text(self.list(c.key).last())
            } else {
                r is Nil
            },
            Op::DelKey => r is Count,
            Op::ZCard => r == ReplyView::Count(self.zset(c.key).dom().len()),
            Op::ZAdd => r == ReplyView::Count(
                if self.zset(c.key).contains_key(c.field) {
                    0nat
                } else {
                    1nat
                },
            ),
            Op::ZRank => if self.zset(c.key).contains_key(c.field) {
                r is Count
            } else {
                r is Nil
            },
            Op::ZRem => r == ReplyView::Count(
                if self.zset(c.key).contains_key(c.field) {
                    1nat
                } else {
                    0nat
                },
            ),
            Op::HSet => r == ReplyView::Count(
                if self.hash(c.key).contains_key(c.field) {
                    0nat
                } else {
                    1nat
                },
            ),
            Op::HGet => if self.hash(c.key).contains_key(c.field) {
                r == ReplyView::Text(self.hash(c.key)[c.field])
            } else {
                r is Nil
            },
            Op::HDel => r == ReplyView::Count(
                if self.hash(c.key).contains_key(c.field) {
                    1nat
                } else {
                    0nat
                },
            ),
        }
    }

    /// The serial numbers of the devices ever seen.
    pub open spec fn born(self) -> Set<Seq<char>> {
        self.zset(born_key()).dom()
    }

    /// The serial numbers of the devices that hold a session.
    pub open spec fn alive(self) -> Set<Seq<char>> {
        self.zset(alive_key()).dom()
    }

    /// The status hash of the device `sn`.
    pub open spec fn status(self, sn: Seq<char>) -> Map<Seq<char>, Seq<char>> {
        self.hash(status_key_of(sn))
    }

    /// A field of the status of the device `sn`, if it is set.
    pub open spec fn status_field(self, sn: Seq<char>, field: Seq<char>) -> Option<Seq<char>> {
        if self.status(sn).contains_key(field) {
            Some(self.status(sn)[field])
        } else {
            None
        }
    }

    /// The event stream, newest event first.
    pub open spec fn events(self) -> Seq<Seq<char>> {
        self.list(events_key())
    }

    /// Every alive device has been born.
    pub open spec fn alive_are_born(self) -> bool {
        forall|sn: Seq<char>| #[trigger] self.alive().contains(sn) ==> self.born().contains(sn)
    }

    /// The alive set and the status hashes agree: a device is in the alive set
    /// exactly if its status says that `online` is `true`.
    pub open spec fn presence_agrees(self) -> bool {
        forall|sn: Seq<char>| #[trigger]
            self.alive().contains(sn) <==> self.status_field(sn, "online"@) == Some("true"@)
    }
}

/// The store after the commands of `run` have been carried out in order.
pub open spec fn replay(s: Store, run: Seq<(CommandView, ReplyView)>) -> Store
    decreases run.len(),
{
    if run.len() == 0 {
        s
    } else {
        replay(s.apply(run[0].0), run.drop_first())
    }
}

/// Whether every answer in `run` is the one that the store gives at that
/// point, starting from `s`: no command fails, and nobody else writes to the
/// store in between.
pub open spec fn faithful(s: Store, run: Seq<(CommandView, ReplyView)>) -> bool
    decreases run.len(),
{
    if run.len() == 0 {
        true
    } else {
        s.answers(run[0].0, run[0].1) && faithful(s.apply(run[0].0), run.drop_first())
    }
}

/// The two ordered sets live under different keys.
pub proof fn lemma_set_keys_differ()
    ensures
        born_key() != alive_key(),
{
    reveal_strlit("csod/devices_born");
    reveal_strlit("csod/devices_alive");
    assert(born_key().len() == 17);
    assert(alive_key().len() == 18);
}

/// A command on a hash or on a list leaves both ordered sets as they are.
pub proof fn lemma_sets_untouched(s: Store, c: CommandView)
    requires
        c.op != Op::ZAdd,
        c.op != Op::ZRem,
        c.op != Op::DelKey,
    ensures
        s.apply(c).born() == s.born(),
        s.apply(c).alive() == s.alive(),
        s.apply(c).sorted == s.sorted,
{
}

/// A command that only reads leaves the whole store as it is.
pub proof fn lemma_reads_change_nothing(s: Store, c: CommandView)
    requires
        c.op == Op::GetKey || c.op == Op::ZCard || c.op == Op::ZRank || c.op == Op::HGet,
    ensures
        s.apply(c) == s,
{
}

} // verus!
