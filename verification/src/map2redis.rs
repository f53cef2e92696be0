//! How a session mirrors its device into the shared store: activation,
//! deactivation, the downlink mailbox, the uplink mailbox and the event stream.
//!
//! Activation and deactivation take several commands. Each is written as a
//! machine: it is handed the answer to the command it asked for last and says
//! what to ask next, or how the whole operation ended. The caller sends the
//! commands.

use crate::device::Device;
use crate::redis_wrapper::{
    alive_key, born_key, command, events_key, status_key, status_key_of, timestamp_text, Command,
    CommandView, Op, Reply, ReplyView, NAMESPACE_DEVICES_BORN, NAMESPACE_DEVICES_COMMON_EVENT_NOTIFY,
};
use crate::store::{faithful, lemma_set_keys_differ, replay, Store};
use vstd::prelude::*;

verus! {

/// What a machine wants next: the answer to one more command, or nothing more.
#[derive(Debug, Clone)]
pub enum Step<P> {
    /// Send the command and come back in this phase with the answer.
    Ask(P, Command),
    /// The operation is over; the flag says whether it succeeded.
    Done(bool),
}

/// A step as a mathematical value.
pub enum StepView<P> {
    Ask(P, CommandView),
    Done(bool),
}

impl<P> View for Step<P> {
    type V = StepView<P>;

    open spec fn view(&self) -> StepView<P> {
        match *self {
            Step::Ask(p, c) => StepView::Ask(p, c@),
            Step::Done(ok) => StepView::Done(ok),
        }
    }
}

/// The command that activation is waiting on.
#[derive(Debug, PartialEq, Eq, Structural, Clone, Copy)]
pub enum Activation {
    /// Adding the device to the alive set.
    JoinAlive,
    /// Setting `online` to `true`.
    SetOnline,
    /// Stamping `toggletime`.
    SetToggle,
    /// Clearing a stale `uplink`.
    ClearUplink,
    /// Clearing a stale `downlink`.
    ClearDownlink,
    /// Asking whether the device was ever born.
    ProbeBorn,
    /// Stamping `borntime`.
    SetBornTime,
    /// Adding the device to the born set.
    JoinBorn,
}

/// The command that deactivation is waiting on, and whether all went well so
/// far.
#[derive(Debug, PartialEq, Eq, Structural, Clone, Copy)]
pub enum Deactivation {
    /// Setting `online` to `false`.
    SetOffline,
    /// Stamping `toggletime`.
    SetToggle(bool),
    /// Removing the device from the alive set.
    LeaveAlive(bool),
}

/// The command that activation of `sn` at `now` sends in `phase`.
pub open spec fn activation_command(sn: Seq<char>, now: nat, phase: Activation) -> CommandView {
    let key = status_key_of(sn);
    let stamp = timestamp_text(now);
    match phase {
        Activation::JoinAlive => command(Op::ZAdd, alive_key(), sn, stamp),
        Activation::SetOnline => command(Op::HSet, key, "online"@, "true"@),
        Activation::SetToggle => command(Op::HSet, key, "toggletime"@, stamp),
        Activation::ClearUplink => command(Op::HDel, key, "uplink"@, Seq::empty()),
        Activation::ClearDownlink => command(Op::HDel, key, "downlink"@, Seq::empty()),
        Activation::ProbeBorn => command(Op::ZRank, born_key(), sn, Seq::empty()),
        Activation::SetBornTime => command(Op::HSet, key, "borntime"@, stamp),
        Activation::JoinBorn => command(Op::ZAdd, born_key(), sn, stamp),
    }
}

/// How activation goes on after `reply` came in `phase`. A failed command ends
/// it without success. The born set is written only where the probe found the
/// device absent.
pub open spec fn activation_step(sn: Seq<char>, now: nat, phase: Activation, reply: ReplyView) -> StepView<
    Activation,
> {
    if reply is Failed {
        StepView::Done(false)
    } else {
        match phase {
            Activation::JoinAlive => StepView::Ask(
                Activation::SetOnline,
                activation_command(sn, now, Activation::SetOnline),
            ),
            Activation::SetOnline => StepView::Ask(
                Activation::SetToggle,
                activation_command(sn, now, Activation::SetToggle),
            ),
            Activation::SetToggle => StepView::Ask(
                Activation::ClearUplink,
                activation_command(sn, now, Activation::ClearUplink),
            ),
            Activation::ClearUplink => StepView::Ask(
                Activation::ClearDownlink,
                activation_command(sn, now, Activation::ClearDownlink),
            ),
            Activation::ClearDownlink => StepView::Ask(
                Activation::ProbeBorn,
                activation_command(sn, now, Activation::ProbeBorn),
            ),
            Activation::ProbeBorn => match reply {
                ReplyView::Nil => StepView::Ask(
                    Activation::SetBornTime,
                    activation_command(sn, now, Activation::SetBornTime),
                ),
                ReplyView::Count(_) => StepView::Done(true),
                _ => StepView::Done(false),
            },
            Activation::SetBornTime => StepView::Ask(
                Activation::JoinBorn,
                activation_command(sn, now, Activation::JoinBorn),
            ),
            Activation::JoinBorn => StepView::Done(true),
        }
    }
}

/// The command that deactivation of `sn` at `now` sends in `phase`.
pub open spec fn deactivation_command(sn: Seq<char>, now: nat, phase: Deactivation) -> CommandView {
    let key = status_key_of(sn);
    match phase {
        Deactivation::SetOffline => command(Op::HSet, key, "online"@, "false"@),
        Deactivation::SetToggle(_) => command(Op::HSet, key, "toggletime"@, timestamp_text(now)),
        Deactivation::LeaveAlive(_) => command(Op::ZRem, alive_key(), sn, Seq::empty()),
    }
}

/// How deactivation goes on after `reply` came in `phase`. Every command is
/// sent whatever the others answered; the operation succeeded if none failed.
pub open spec fn deactivation_step(sn: Seq<char>, now: nat, phase: Deactivation, reply: ReplyView) -> StepView<
    Deactivation,
> {
    let ok = !(reply is Failed);
    match phase {
        Deactivation::SetOffline => StepView::Ask(
            Deactivation::SetToggle(ok),
            deactivation_command(sn, now, Deactivation::SetToggle(ok)),
        ),
        Deactivation::SetToggle(before) => StepView::Ask(
            Deactivation::LeaveAlive(before && ok),
            deactivation_command(sn, now, Deactivation::LeaveAlive(before && ok)),
        ),
        Deactivation::LeaveAlive(before) => StepView::Done(before && ok),
    }
}

/// A device together with what it takes to mirror it into the store.
#[derive(Debug, Clone)]
pub struct Device2redis {
    pub dev: Device,
}

impl Device2redis {
    /// Wraps a device.
    pub fn new(dev: Device) -> (d2r: Device2redis)
        ensures
            d2r.dev == dev,
    {
        Device2redis { dev }
    }

    fn activation_cmd(&self, now: u64, phase: Activation) -> (c: Command)
        ensures
            c@ == activation_command(self.dev.sn@, now as nat, phase),
    {
        let sn = self.dev.sn.as_str();
        let key = status_key(sn);
        match phase {
            Activation::JoinAlive => Command::zadd_device_alive_with_timestamp(sn, now),
            Activation::SetOnline => Command::hset(key.as_str(), "online", "true"),
            Activation::SetToggle => Command::hset_toggletime(key.as_str(), now),
            Activation::ClearUplink => Command::hdel(key.as_str(), "uplink"),
            Activation::ClearDownlink => Command::hdel(key.as_str(), "downlink"),
            Activation::ProbeBorn => Command::zrank(NAMESPACE_DEVICES_BORN, sn),
            Activation::SetBornTime => Command::zadd_device_born_with_timestamp(sn, now).0,
            Activation::JoinBorn => Command::zadd_device_born_with_timestamp(sn, now).1,
        }
    }

    fn deactivation_cmd(&self, now: u64, phase: Deactivation) -> (c: Command)
        ensures
            c@ == deactivation_command(self.dev.sn@, now as nat, phase),
    {
        let sn = self.dev.sn.as_str();
        let key = status_key(sn);
        match phase {
            Deactivation::SetOffline => Command::hset(key.as_str(), "online", "false"),
            Deactivation::SetToggle(_) => Command::hset_toggletime(key.as_str(), now),
            Deactivation::LeaveAlive(_) => Command::zrem_devices_alive(sn),
        }
    }

    /// The two commands that refresh the device's presence: `online` set to
    /// `true`, and its entry in the alive set scored with `now`.
    pub fn update_online_status(&self, now: u64) -> (cs: (Command, Command))
        ensures
            cs.0@ == command(Op::HSet, status_key_of(self.dev.sn@), "online"@, "true"@),
            cs.1@ == command(Op::ZAdd, alive_key(), self.dev.sn@, timestamp_text(now as nat)),
    {
        let key = status_key(self.dev.sn.as_str());
        (
            Command::hset(key.as_str(), "online", "true"),
            Command::zadd_device_alive_with_timestamp(self.dev.sn.as_str(), now),
        )
    }

    /// One step of activation at the time `now`. `last` is the phase that the
    /// caller was sent off with and the answer it got, or `None` to begin.
    pub fn activate(&self, last: Option<(Activation, Reply)>, now: u64) -> (step: Step<Activation>)
        ensures
            step@ == match last {
                None => StepView::Ask(
                    Activation::JoinAlive,
                    activation_command(self.dev.sn@, now as nat, Activation::JoinAlive),
                ),
                Some((phase, reply)) => activation_step(self.dev.sn@, now as nat, phase, reply@),
            },
    {
        let next = match last {
            None => Some(Activation::JoinAlive),
            Some((phase, reply)) => {
                if reply.is_failed() {
                    return Step::Done(false);
                }
                match phase {
                    Activation::JoinAlive => Some(Activation::SetOnline),
                    Activation::SetOnline => Some(Activation::SetToggle),
                    Activation::SetToggle => Some(Activation::ClearUplink),
                    Activation::ClearUplink => Some(Activation::ClearDownlink),
                    Activation::ClearDownlink => Some(Activation::ProbeBorn),
                    Activation::ProbeBorn => match reply {
                        Reply::Nil => Some(Activation::SetBornTime),
                        Reply::Count(_) => {
                            return Step::Done(true);
                        },
                        _ => {
                            return Step::Done(false);
                        },
                    },
                    Activation::SetBornTime => Some(Activation::JoinBorn),
                    Activation::JoinBorn => None,
                }
            },
        };
        match next {
            Some(phase) => Step::Ask(phase, self.activation_cmd(now, phase)),
            None => Step::Done(true),
        }
    }

    /// One step of deactivation at the time `now`. `last` is the phase that the
    /// caller was sent off with and the answer it got, or `None` to begin.
    pub fn deactivate(&self, last: Option<(Deactivation, Reply)>, now: u64) -> (step: Step<
        Deactivation,
    >)
        ensures
            step@ == match last {
                None => StepView::Ask(
                    Deactivation::SetOffline,
                    deactivation_command(self.dev.sn@, now as nat, Deactivation::SetOffline),
                ),
                Some((phase, reply)) => deactivation_step(self.dev.sn@, now as nat, phase, reply@),
            },
    {
        match last {
            None => Step::Ask(
                Deactivation::SetOffline,
                self.deactivation_cmd(now, Deactivation::SetOffline),
            ),
            Some((phase, reply)) => {
                let ok = !reply.is_failed();
                match phase {
                    Deactivation::SetOffline => {
                        let next = Deactivation::SetToggle(ok);
                        Step::Ask(next, self.deactivation_cmd(now, next))
                    },
                    Deactivation::SetToggle(before) => {
                        let next = Deactivation::LeaveAlive(before && ok);
                        Step::Ask(next, self.deactivation_cmd(now, next))
                    },
                    Deactivation::LeaveAlive(before) => Step::Done(before && ok),
                }
            },
        }
    }

    /// The command that looks into the device's downlink mailbox.
    pub fn readline_downlink(&self) -> (c: Command)
        ensures
            c@ == command(Op::HGet, status_key_of(self.dev.sn@), "downlink"@, Seq::empty()),
    {
        let key = status_key(self.dev.sn.as_str());
        Command::hget(key.as_str(), "downlink")
    }

    /// What to do with the answer from the downlink mailbox: where it holds a
    /// request, the request and the command that empties the mailbox; else
    /// nothing.
    pub fn take_downlink(&self, reply: &Reply) -> (taken: Option<(String, Command)>)
        ensures
            match taken {
                Some((request, clear)) => reply@ == ReplyView::Text(request@) && clear@ == command(
                    Op::HDel,
                    status_key_of(self.dev.sn@),
                    "downlink"@,
                    Seq::empty(),
                ),
                None => !(reply@ is Text),
            },
    {
        match reply.text() {
            Some(request) => {
                let key = status_key(self.dev.sn.as_str());
                Some((request, Command::hdel(key.as_str(), "downlink")))
            },
            None => None,
        }
    }

    /// The command that puts an acknowledgement into the device's uplink
    /// mailbox.
    pub fn write_uplink(&self, msg: &str) -> (c: Command)
        ensures
            c@ == command(Op::HSet, status_key_of(self.dev.sn@), "uplink"@, msg@),
    {
        let key = status_key(self.dev.sn.as_str());
        Command::hset(key.as_str(), "uplink", msg)
    }

    /// The command that appends an event to the event stream.
    pub fn notify_event(&self, msg: &str) -> (c: Command)
        ensures
            c@ == command(Op::LPush, events_key(), Seq::empty(), msg@),
    {
        Command::push_to_list(NAMESPACE_DEVICES_COMMON_EVENT_NOTIFY, msg)
    }
}

/// How a run of activation from `phase` ended, where `run` is one: each
/// command in it is the one that activation sends, and each phase follows from
/// the answer before it. `None` where `run` is not a whole run of activation.
pub open spec fn activation_run(
    sn: Seq<char>,
    now: nat,
    phase: Activation,
    run: Seq<(CommandView, ReplyView)>,
) -> Option<bool>
    decreases run.len(),
{
    if run.len() == 0 || run[0].0 != activation_command(sn, now, phase) {
        None
    } else {
        match activation_step(sn, now, phase, run[0].1) {
            StepView::Done(ok) => if run.len() == 1 {
                Some(ok)
            } else {
                None
            },
            StepView::Ask(next, _) => activation_run(sn, now, next, run.drop_first()),
        }
    }
}

/// How a run of deactivation from `phase` ended, where `run` is one.
pub open spec fn deactivation_run(
    sn: Seq<char>,
    now: nat,
    phase: Deactivation,
    run: Seq<(CommandView, ReplyView)>,
) -> Option<bool>
    decreases run.len(),
{
    if run.len() == 0 || run[0].0 != deactivation_command(sn, now, phase) {
        None
    } else {
        match deactivation_step(sn, now, phase, run[0].1) {
            StepView::Done(ok) => if run.len() == 1 {
                Some(ok)
            } else {
                None
            },
            StepView::Ask(next, _) => deactivation_run(sn, now, next, run.drop_first()),
        }
    }
}

/// The store after `sn` was activated at `now`: the composite change that
/// activation stands for. The device is in the alive set with the score `now`;
/// its status says `online` is `true` since `now`; both mailboxes are empty;
/// and where the device was not born yet, it is born at `now`.
pub open spec fn activated(s: Store, sn: Seq<char>, now: nat) -> Store {
    let key = status_key_of(sn);
    let stamp = timestamp_text(now);
    let status = s.hash(key).insert("online"@, "true"@).insert("toggletime"@, stamp).remove(
        "uplink"@,
    ).remove("downlink"@);
    let with_alive = s.sorted.insert(alive_key(), s.zset(alive_key()).insert(sn, stamp));
    if s.born().contains(sn) {
        Store { sorted: with_alive, hashes: s.hashes.insert(key, status), ..s }
    } else {
        Store {
            sorted: with_alive.insert(born_key(), s.zset(born_key()).insert(sn, stamp)),
            hashes: s.hashes.insert(key, status.insert("borntime"@, stamp)),
            ..s
        }
    }
}

/// The store after `sn` was deactivated at `now`: the device is out of the
/// alive set and its status says `online` is `false` since `now`. The born set
/// is as it was.
pub open spec fn deactivated(s: Store, sn: Seq<char>, now: nat) -> Store {
    let key = status_key_of(sn);
    Store {
        sorted: s.sorted.insert(alive_key(), s.zset(alive_key()).remove(sn)),
        hashes: s.hashes.insert(
            key,
            s.hash(key).insert("online"@, "false"@).insert("toggletime"@, timestamp_text(now)),
        ),
        ..s
    }
}

/// Activation does what it stands for: a whole run of it against a store that
/// answers every command succeeds and leaves the store activated.
pub proof fn lemma_activation_refines(
    s: Store,
    sn: Seq<char>,
    now: nat,
    run: Seq<(CommandView, ReplyView)>,
)
    requires
        faithful(s, run),
        activation_run(sn, now, Activation::JoinAlive, run) is Some,
    ensures
        activation_run(sn, now, Activation::JoinAlive, run) == Some(true),
        replay(s, run) == activated(s, sn, now),
        run.len() == if s.born().contains(sn) {
            6nat
        } else {
            8nat
        },
{
    lemma_set_keys_differ();
    let key = status_key_of(sn);
    let stamp = timestamp_text(now);
    let r1 = run.drop_first();
    let s1 = s.apply(run[0].0);
    assert(run[0].0 == activation_command(sn, now, Activation::JoinAlive));
    assert(activation_run(sn, now, Activation::SetOnline, r1) is Some);
    assert(faithful(s1, r1));
    let r2 = r1.drop_first();
    let s2 = s1.apply(r1[0].0);
    assert(activation_run(sn, now, Activation::SetToggle, r2) is Some);
    assert(faithful(s2, r2));
    let r3 = r2.drop_first();
    let s3 = s2.apply(r2[0].0);
    assert(activation_run(sn, now, Activation::ClearUplink, r3) is Some);
    assert(faithful(s3, r3));
    let r4 = r3.drop_first();
    let s4 = s3.apply(r3[0].0);
    assert(activation_run(sn, now, Activation::ClearDownlink, r4) is Some);
    assert(faithful(s4, r4));
    let r5 = r4.drop_first();
    let s5 = s4.apply(r4[0].0);
    assert(activation_run(sn, now, Activation::ProbeBorn, r5) is Some);
    assert(faithful(s5, r5));
    let status = s.hash(key).insert("online"@, "true"@).insert("toggletime"@, stamp).remove(
        "uplink"@,
    ).remove("downlink"@);
    let with_alive = s.sorted.insert(alive_key(), s.zset(alive_key()).insert(sn, stamp));
    assert(s5.sorted == with_alive);
    assert(s5.hash(key) == status);
    assert(s5.hashes =~= s.hashes.insert(key, status));
    assert(s5.lists == s.lists);
    assert(s5.values == s.values);
    assert(s5.zset(born_key()) == s.zset(born_key()));
    let s6 = s5.apply(r5[0].0);
    assert(s6 == s5);
    assert(r5[0].0 == activation_command(sn, now, Activation::ProbeBorn));
    assert(s5.answers(r5[0].0, r5[0].1));
    if s.born().contains(sn) {
        assert(r5[0].1 is Count);
        assert(r5.len() == 1);
        assert(replay(s6, r5.drop_first()) == s6);
        assert(replay(s5, r5) == s6);
        assert(replay(s4, r4) == s6);
        assert(replay(s3, r3) == s6);
        assert(replay(s2, r2) == s6);
        assert(replay(s1, r1) == s6);
        assert(replay(s, run) == s6);
        assert(run.len() == 6);
    } else {
        assert(r5[0].1 is Nil);
        let r6 = r5.drop_first();
        assert(activation_run(sn, now, Activation::SetBornTime, r6) is Some);
        assert(faithful(s6, r6));
        let r7 = r6.drop_first();
        let s7 = s6.apply(r6[0].0);
        assert(activation_run(sn, now, Activation::JoinBorn, r7) is Some);
        assert(faithful(s7, r7));
        let s8 = s7.apply(r7[0].0);
        assert(r7.len() == 1);
        assert(s8.hashes =~= s.hashes.insert(key, status.insert("borntime"@, stamp)));
        assert(s8.sorted =~= with_alive.insert(
            born_key(),
            s.zset(born_key()).insert(sn, stamp),
        ));
        assert(replay(s8, r7.drop_first()) == s8);
        assert(replay(s7, r7) == s8);
        assert(replay(s6, r6) == s8);
        assert(replay(s5, r5) == s8);
        assert(replay(s4, r4) == s8);
        assert(replay(s3, r3) == s8);
        assert(replay(s2, r2) == s8);
        assert(replay(s1, r1) == s8);
        assert(replay(s, run) == s8);
        assert(run.len() == 8);
    }
}

/// Deactivation does what it stands for: a whole run of it against a store
/// that answers every command succeeds and leaves the store deactivated.
pub proof fn lemma_deactivation_refines(
    s: Store,
    sn: Seq<char>,
    now: nat,
    run: Seq<(CommandView, ReplyView)>,
)
    requires
        faithful(s, run),
        deactivation_run(sn, now, Deactivation::SetOffline, run) is Some,
    ensures
        deactivation_run(sn, now, Deactivation::SetOffline, run) == Some(true),
        replay(s, run) == deactivated(s, sn, now),
        run.len() == 3,
{
    let key = status_key_of(sn);
    let r1 = run.drop_first();
    let s1 = s.apply(run[0].0);
    assert(deactivation_run(sn, now, Deactivation::SetToggle(true), r1) is Some);
    assert(faithful(s1, r1));
    let r2 = r1.drop_first();
    let s2 = s1.apply(r1[0].0);
    assert(deactivation_run(sn, now, Deactivation::LeaveAlive(true), r2) is Some);
    assert(faithful(s2, r2));
    let s3 = s2.apply(r2[0].0);
    assert(r2.len() == 1);
    assert(s3.hashes =~= deactivated(s, sn, now).hashes);
    assert(s3.sorted =~= deactivated(s, sn, now).sorted);
    assert(replay(s3, r2.drop_first()) == s3);
    assert(replay(s2, r2) == s3);
    assert(replay(s1, r1) == s3);
    assert(replay(s, run) == s3);
}

/// After activation the device is online and alive: its status says `online`
/// is `true`, stamped with the time of activation, and it is in the alive set.
/// Its mailboxes are empty.
pub proof fn lemma_activated_is_online(s: Store, sn: Seq<char>, now: nat)
    ensures
        activated(s, sn, now).alive().contains(sn),
        activated(s, sn, now).born().contains(sn),
        activated(s, sn, now).status_field(sn, "online"@) == Some("true"@),
        activated(s, sn, now).status_field(sn, "toggletime"@) == Some(timestamp_text(now)),
        activated(s, sn, now).status_field(sn, "uplink"@) is None,
        activated(s, sn, now).status_field(sn, "downlink"@) is None,
{
    lemma_set_keys_differ();
    reveal_strlit("online");
    reveal_strlit("toggletime");
    reveal_strlit("uplink");
    reveal_strlit("downlink");
    reveal_strlit("borntime");
    assert("online"@.len() == 6);
    assert("toggletime"@.len() == 10);
    assert("uplink"@.len() == 6);
    assert("downlink"@.len() == 8);
    assert("borntime"@.len() == 8);
    assert("online"@[0] == 'o');
    assert("uplink"@[0] == 'u');
    assert("downlink"@[0] == 'd');
    assert("borntime"@[0] == 'b');
}

/// After deactivation the device is offline and not alive: its status says
/// `online` is `false`, stamped with the time of deactivation, and it is not in
/// the alive set. The born set has not changed.
pub proof fn lemma_deactivated_is_offline(s: Store, sn: Seq<char>, now: nat)
    ensures
        !deactivated(s, sn, now).alive().contains(sn),
        deactivated(s, sn, now).status_field(sn, "online"@) == Some("false"@),
        deactivated(s, sn, now).status_field(sn, "toggletime"@) == Some(timestamp_text(now)),
        deactivated(s, sn, now).born() == s.born(),
        deactivated(s, sn, now).zset(born_key()) == s.zset(born_key()),
{
    lemma_set_keys_differ();
    reveal_strlit("online");
    reveal_strlit("toggletime");
    assert("online"@.len() == 6);
    assert("toggletime"@.len() == 10);
}

/// Activation and deactivation keep every alive device born.
pub proof fn lemma_alive_are_born_preserved(s: Store, sn: Seq<char>, now: nat)
    requires
        s.alive_are_born(),
    ensures
        activated(s, sn, now).alive_are_born(),
        deactivated(s, sn, now).alive_are_born(),
        deactivated(activated(s, sn, now), sn, now).alive_are_born(),
{
    lemma_set_keys_differ();
    let a = activated(s, sn, now);
    assert forall|other: Seq<char>| #[trigger] a.alive().contains(other) implies a.born().contains(
        other,
    ) by {
        if other != sn {
            assert(s.alive().contains(other));
        }
    }
    let d = deactivated(s, sn, now);
    assert forall|other: Seq<char>| #[trigger] d.alive().contains(other) implies d.born().contains(
        other,
    ) by {
        assert(s.alive().contains(other));
    }
    let da = deactivated(a, sn, now);
    assert forall|other: Seq<char>| #[trigger] da.alive().contains(other) implies da.born().contains(
        other,
    ) by {
        assert(a.alive().contains(other));
    }
}

/// Activation writes the born set only on first observation. Where the device
/// was born before, its entry in the born set and its `borntime` stay as they
/// were; where it was not, both carry the time of this activation. Activating
/// a second time changes nothing in the status but the time stamps: the device
/// stays online, alive and born as the first activation left it.
pub proof fn lemma_activation_idempotent(s: Store, sn: Seq<char>, first: nat, second: nat)
    ensures
        s.born().contains(sn) ==> activated(s, sn, first).zset(born_key()) == s.zset(born_key())
            && activated(s, sn, first).status_field(sn, "borntime"@) == s.status_field(
            sn,
            "borntime"@,
        ),
        !s.born().contains(sn) ==> activated(s, sn, first).zset(born_key())[sn] == timestamp_text(
            first,
        ) && activated(s, sn, first).status_field(sn, "borntime"@) == Some(timestamp_text(first)),
        activated(activated(s, sn, first), sn, second).zset(born_key()) == activated(
            s,
            sn,
            first,
        ).zset(born_key()),
        activated(activated(s, sn, first), sn, second).status_field(sn, "borntime"@) == activated(
            s,
            sn,
            first,
        ).status_field(sn, "borntime"@),
        activated(activated(s, sn, first), sn, second).alive() == activated(s, sn, first).alive(),
        activated(activated(s, sn, first), sn, second).born() == activated(s, sn, first).born(),
        activated(activated(s, sn, first), sn, second).status_field(sn, "online"@) == activated(
            s,
            sn,
            first,
        ).status_field(sn, "online"@),
        activated(activated(s, sn, first), sn, first) == activated(s, sn, first),
{
    lemma_set_keys_differ();
    reveal_strlit("online");
    reveal_strlit("toggletime");
    reveal_strlit("uplink");
    reveal_strlit("downlink");
    reveal_strlit("borntime");
    assert("online"@.len() == 6);
    assert("toggletime"@.len() == 10);
    assert("uplink"@.len() == 6);
    assert("downlink"@.len() == 8);
    assert("borntime"@.len() == 8);
    assert("online"@[0] == 'o');
    assert("uplink"@[0] == 'u');
    assert("downlink"@[0] == 'd');
    assert("borntime"@[0] == 'b');
    let a = activated(s, sn, first);
    let aa = activated(a, sn, second);
    assert(a.born().contains(sn));
    assert(aa.alive() =~= a.alive());
    assert(aa.born() =~= a.born());
    let again = activated(a, sn, first);
    let stamp = timestamp_text(first);
    assert(a.zset(alive_key()).insert(sn, stamp) =~= a.zset(alive_key()));
    assert(a.sorted.contains_key(alive_key()));
    assert(again.sorted =~= a.sorted);
    assert(again.hash(status_key_of(sn)) =~= a.hash(status_key_of(sn)));
    assert(again.hashes =~= a.hashes);
}

/// Activating or deactivating one device leaves the status of every other
/// device, every plain value and the event stream as they were.
pub proof fn lemma_other_devices_untouched(s: Store, sn: Seq<char>, other: Seq<char>, now: nat)
    requires
        other != sn,
    ensures
        activated(s, sn, now).status(other) == s.status(other),
        deactivated(s, sn, now).status(other) == s.status(other),
        activated(s, sn, now).alive().contains(other) == s.alive().contains(other),
        deactivated(s, sn, now).alive().contains(other) == s.alive().contains(other),
        activated(s, sn, now).events() == s.events(),
        deactivated(s, sn, now).events() == s.events(),
{
    lemma_set_keys_differ();
    if status_key_of(other) == status_key_of(sn) {
        crate::redis_wrapper::lemma_status_key_injective(other, sn);
    }
}

/// Deactivation cleans up after an activation that broke off. Whatever an
/// unfinished activation of `sn` has left behind, as long as it has added
/// nothing to the alive set but `sn` and taken nothing from the born set,
/// every alive device is born again once `sn` is deactivated.
pub proof fn lemma_deactivation_restores(s: Store, t: Store, sn: Seq<char>, now: nat)
    requires
        s.alive_are_born(),
        forall|other: Seq<char>| #[trigger] t.alive().contains(other) ==> other == sn || s.alive().contains(other),
        forall|other: Seq<char>| #[trigger] s.born().contains(other) ==> t.born().contains(other),
    ensures
        deactivated(t, sn, now).alive_are_born(),
{
    lemma_set_keys_differ();
    let d = deactivated(t, sn, now);
    assert forall|other: Seq<char>| #[trigger] d.alive().contains(other) implies d.born().contains(
        other,
    ) by {
        assert(t.alive().contains(other));
        assert(s.alive().contains(other));
        assert(s.born().contains(other));
    }
}

/// Every command of activation keeps what deactivation needs to clean up:
/// it adds nothing to the alive set but the device itself, and takes nothing
/// from the born set.
pub proof fn lemma_activation_commands_are_tame(s: Store, sn: Seq<char>, now: nat, phase: Activation)
    ensures
        forall|other: Seq<char>| #[trigger]
            s.apply(activation_command(sn, now, phase)).alive().contains(other) ==> other == sn
                || s.alive().contains(other),
        forall|other: Seq<char>| #[trigger]
            s.born().contains(other) ==> s.apply(activation_command(sn, now, phase)).born().contains(
                other,
            ),
{
    lemma_set_keys_differ();
}

/// Activation and deactivation keep the alive set and the status hashes in
/// agreement: where a device was in the alive set exactly if its status said
/// `online` is `true`, that still holds of every device afterwards.
pub proof fn lemma_presence_agrees_preserved(s: Store, sn: Seq<char>, now: nat)
    requires
        s.presence_agrees(),
    ensures
        activated(s, sn, now).presence_agrees(),
        deactivated(s, sn, now).presence_agrees(),
{
    lemma_set_keys_differ();
    lemma_activated_is_online(s, sn, now);
    lemma_deactivated_is_offline(s, sn, now);
    reveal_strlit("true");
    reveal_strlit("false");
    assert("true"@.len() == 4);
    assert("false"@.len() == 5);
    let a = activated(s, sn, now);
    assert forall|other: Seq<char>| #[trigger]
        a.alive().contains(other) <==> a.status_field(other, "online"@) == Some("true"@) by {
        if other != sn {
            lemma_other_devices_untouched(s, sn, other, now);
            assert(s.alive().contains(other) <==> s.status_field(other, "online"@) == Some("true"@));
        }
    }
    let d = deactivated(s, sn, now);
    assert forall|other: Seq<char>| #[trigger]
        d.alive().contains(other) <==> d.status_field(other, "online"@) == Some("true"@) by {
        if other != sn {
            lemma_other_devices_untouched(s, sn, other, now);
            assert(s.alive().contains(other) <==> s.status_field(other, "online"@) == Some("true"@));
        }
    }
}

} // verus!
