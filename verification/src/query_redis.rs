//! What the HTTP side asks of the shared store: the two counts, whether a
//! device is alive, and the round trip that turns a request into a reply.
//!
//! A request is put into the device's downlink mailbox; the session that owns
//! the device takes it from there and writes it to the device; the device's
//! acknowledgement comes back through the uplink mailbox. Each mailbox holds
//! one message, so one request per device is in flight at most.

use crate::connection::{downlink_probe, frame_of, step_of, ActionView, EventView, Phase, SessionView};
use crate::json_wrapper::{json_members, message_kind, MESTYPE};
use crate::redis_wrapper::{
    alive_key, born_key, command, decimal, decimal_text, status_key, status_key_of, Command,
    CommandView, Op, Reply, ReplyView, NAMESPACE_DEVICES_ALIVE, NAMESPACE_DEVICES_BORN,
};
use crate::store::{faithful, replay, Store};
use vstd::prelude::*;
use vstd::string::StringExecFns;

verus! {

/// How often the uplink mailbox is looked into before a request is given up.
pub const POLL_LIMIT: u8 = 50;

/// The pause between two looks into the uplink mailbox, in milliseconds.
pub const POLL_MS: u64 = 100;

/// The command that counts the devices ever seen.
pub fn devices_num_query() -> (c: Command)
    ensures
        c@ == command(Op::ZCard, born_key(), Seq::empty(), Seq::empty()),
{
    Command::zcard(NAMESPACE_DEVICES_BORN)
}

/// The command that counts the devices that hold a session.
pub fn alive_devices_num_query() -> (c: Command)
    ensures
        c@ == command(Op::ZCard, alive_key(), Seq::empty(), Seq::empty()),
{
    Command::zcard(NAMESPACE_DEVICES_ALIVE)
}

/// The command that asks whether the device `sn` holds a session.
pub fn sn_is_alive_query(sn: &str) -> (c: Command)
    ensures
        c@ == command(Op::ZRank, alive_key(), sn@, Seq::empty()),
{
    Command::zrank(NAMESPACE_DEVICES_ALIVE, sn)
}

/// The count in an answer, as the text to report; an answer that holds no
/// count is a failed read.
pub open spec fn count_of(reply: ReplyView) -> Result<Option<Seq<char>>, Seq<char>> {
    match reply {
        ReplyView::Count(n) => Ok(Some(decimal_text(n))),
        _ => Err("read fail."@),
    }
}

/// The view of a count, or of the reason why there is none.
pub open spec fn outcome_view(r: Result<Option<String>, String>) -> Result<Option<Seq<char>>, Seq<char>> {
    match r {
        Ok(Some(text)) => Ok(Some(text@)),
        Ok(None) => Ok(None),
        Err(reason) => Err(reason@),
    }
}

fn read_count(reply: &Reply) -> (r: Result<Option<String>, String>)
    ensures
        outcome_view(r) == count_of(reply@),
{
    match reply.count() {
        Some(n) => Ok(Some(decimal(n))),
        None => Err(String::from_str("read fail.")),
    }
}

/// The number of devices ever seen, read off the answer to the count of the
/// born set.
pub fn get_devices_num(reply: &Reply) -> (r: Result<Option<String>, String>)
    ensures
        outcome_view(r) == count_of(reply@),
{
    read_count(reply)
}

/// The number of devices that hold a session, read off the answer to the count
/// of the alive set.
pub fn get_alive_devices_num(reply: &Reply) -> (r: Result<Option<String>, String>)
    ensures
        outcome_view(r) == count_of(reply@),
{
    read_count(reply)
}

/// Whether a device holds a session, read off the answer to the question for
/// its position in the alive set: it does if it has a position.
pub fn sn_is_alive(reply: &Reply) -> (alive: bool)
    ensures
        alive == (reply@ is Count),
{
    reply.count().is_some()
}

/// The command that empties the uplink mailbox of `sn`.
pub fn clear_uplink(sn: &str) -> (c: Command)
    ensures
        c@ == command(Op::HDel, status_key_of(sn@), "uplink"@, Seq::empty()),
{
    let key = status_key(sn);
    Command::hdel(key.as_str(), "uplink")
}

/// The command that puts `msg` into the downlink mailbox of `sn`.
pub fn write_downlink(sn: &str, msg: &str) -> (c: Command)
    ensures
        c@ == command(Op::HSet, status_key_of(sn@), "downlink"@, msg@),
{
    let key = status_key(sn);
    Command::hset(key.as_str(), "downlink", msg)
}

/// The command that looks into the uplink mailbox of `sn`.
pub fn readline_uplink(sn: &str) -> (c: Command)
    ensures
        c@ == command(Op::HGet, status_key_of(sn@), "uplink"@, Seq::empty()),
{
    let key = status_key(sn);
    Command::hget(key.as_str(), "uplink")
}

/// The command that a round trip is waiting on.
#[derive(Debug, Clone)]
pub enum Transmit {
    /// Emptying the uplink mailbox before the request goes out.
    ClearUplink,
    /// Putting the request into the downlink mailbox.
    WriteDownlink,
    /// Looking into the uplink mailbox, after so many looks that found nothing.
    Poll(u8),
    /// Emptying the uplink mailbox after this reply was found in it.
    Consume(String),
}

/// A phase of the round trip as a mathematical value.
pub enum TransmitView {
    ClearUplink,
    WriteDownlink,
    Poll(u8),
    Consume(Seq<char>),
}

impl View for Transmit {
    type V = TransmitView;

    open spec fn view(&self) -> TransmitView {
        match *self {
            Transmit::ClearUplink => TransmitView::ClearUplink,
            Transmit::WriteDownlink => TransmitView::WriteDownlink,
            Transmit::Poll(i) => TransmitView::Poll(i),
            Transmit::Consume(v) => TransmitView::Consume(v@),
        }
    }
}

/// What the round trip wants next.
#[derive(Debug)]
pub enum Relay {
    /// Pause for so many milliseconds, send the command, and come back in this
    /// phase with the answer.
    Ask(Transmit, Command, u64),
    /// The round trip is over: with the reply, with no reply in time, or with
    /// the reason why the request could not be sent.
    Done(Result<Option<String>, String>),
}

/// What the round trip wants next, as a mathematical value.
pub enum RelayView {
    Ask(TransmitView, CommandView, u64),
    Done(Result<Option<Seq<char>>, Seq<char>>),
}

impl View for Relay {
    type V = RelayView;

    open spec fn view(&self) -> RelayView {
        match *self {
            Relay::Ask(p, c, pause) => RelayView::Ask(p@, c@, pause),
            Relay::Done(r) => RelayView::Done(outcome_view(r)),
        }
    }
}

/// The command that the round trip for `sn` with the request `msg` sends in
/// `phase`.
pub open spec fn relay_command(sn: Seq<char>, msg: Seq<char>, phase: TransmitView) -> CommandView {
    let key = status_key_of(sn);
    match phase {
        TransmitView::ClearUplink => command(Op::HDel, key, "uplink"@, Seq::empty()),
        TransmitView::WriteDownlink => command(Op::HSet, key, "downlink"@, msg),
        TransmitView::Poll(_) => command(Op::HGet, key, "uplink"@, Seq::empty()),
        TransmitView::Consume(_) => command(Op::HDel, key, "uplink"@, Seq::empty()),
    }
}

/// How the round trip begins: by emptying the uplink mailbox.
pub open spec fn relay_start(sn: Seq<char>, msg: Seq<char>) -> RelayView {
    RelayView::Ask(
        TransmitView::ClearUplink,
        relay_command(sn, msg, TransmitView::ClearUplink),
        0,
    )
}

/// How the round trip goes on after `reply` came in `phase`. The request is
/// not sent unless the mailbox for its reply could be emptied. The first look
/// into that mailbox follows at once, each further one after a pause; the
/// fiftieth look that finds nothing ends the round trip without a reply. A
/// reply that is found is taken out of the mailbox and handed back whole.
pub open spec fn relay_step(sn: Seq<char>, msg: Seq<char>, phase: TransmitView, reply: ReplyView) -> RelayView {
    match phase {
        TransmitView::ClearUplink => if reply is Failed {
            RelayView::Done(Err("clear redis hash uplink msg failed"@))
        } else {
            RelayView::Ask(
                TransmitView::WriteDownlink,
                relay_command(sn, msg, TransmitView::WriteDownlink),
                0,
            )
        },
        TransmitView::WriteDownlink => if reply is Failed {
            RelayView::Done(Err("set redis fail."@))
        } else {
            RelayView::Ask(TransmitView::Poll(0), relay_command(sn, msg, TransmitView::Poll(0)), 0)
        },
        TransmitView::Poll(i) => match reply {
            ReplyView::Text(v) => RelayView::Ask(
                TransmitView::Consume(v),
                relay_command(sn, msg, TransmitView::Consume(v)),
                0,
            ),
            _ => if i + 1 >= POLL_LIMIT {
                RelayView::Done(Ok(None))
            } else {
                RelayView::Ask(
                    TransmitView::Poll((i + 1) as u8),
                    relay_command(sn, msg, TransmitView::Poll((i + 1) as u8)),
                    POLL_MS,
                )
            },
        },
        TransmitView::Consume(v) => RelayView::Done(Ok(Some(v))),
    }
}

/// One step of the round trip that sends `msg` to the device `sn` and waits for
/// its reply. `last` is the phase that the caller was sent off with and the
/// answer it got, or `None` to begin.
pub fn transparent_transmit_wit_ack(sn: &str, msg: &str, last: Option<(Transmit, Reply)>) -> (relay: Relay)
    ensures
        relay@ == match last {
            None => relay_start(sn@, msg@),
            Some((phase, reply)) => relay_step(sn@, msg@, phase@, reply@),
        },
{
    match last {
        None => Relay::Ask(Transmit::ClearUplink, clear_uplink(sn), 0),
        Some((phase, reply)) => match phase {
            Transmit::ClearUplink => {
                if reply.is_failed() {
                    Relay::Done(Err(String::from_str("clear redis hash uplink msg failed")))
                } else {
                    Relay::Ask(Transmit::WriteDownlink, write_downlink(sn, msg), 0)
                }
            },
            Transmit::WriteDownlink => {
                if reply.is_failed() {
                    Relay::Done(Err(String::from_str("set redis fail.")))
                } else {
                    Relay::Ask(Transmit::Poll(0), readline_uplink(sn), 0)
                }
            },
            Transmit::Poll(i) => match reply.text() {
                Some(v) => {
                    let clear = clear_uplink(sn);
                    Relay::Ask(Transmit::Consume(v), clear, 0)
                },
                None => {
                    if i >= POLL_LIMIT - 1 {
                        Relay::Done(Ok(None))
                    } else {
                        Relay::Ask(Transmit::Poll(i + 1), readline_uplink(sn), POLL_MS)
                    }
                },
            },
            Transmit::Consume(v) => Relay::Done(Ok(Some(v))),
        },
    }
}

/// How a run of the round trip from `phase` ended, where `run` is one: each
/// command in it is the one that the round trip sends, and each phase follows
/// from the answer before it. `None` where `run` is not a whole run.
pub open spec fn relay_run(
    sn: Seq<char>,
    msg: Seq<char>,
    phase: TransmitView,
    run: Seq<(CommandView, ReplyView)>,
) -> Option<Result<Option<Seq<char>>, Seq<char>>>
    decreases run.len(),
{
    if run.len() == 0 || run[0].0 != relay_command(sn, msg, phase) {
        None
    } else {
        match relay_step(sn, msg, phase, run[0].1) {
            RelayView::Done(r) => if run.len() == 1 {
                Some(r)
            } else {
                None
            },
            RelayView::Ask(next, _, _) => relay_run(sn, msg, next, run.drop_first()),
        }
    }
}

/// Reading the counts and asking for a device changes nothing: the commands
/// behind `devices_num`, `devices_alive_num` and `device_is_alive` leave the
/// store exactly as it was, however often they are sent, and the count that
/// comes back is that of the set as it stands.
pub proof fn lemma_queries_are_pure(s: Store, sn: Seq<char>, reply: ReplyView)
    ensures
        s.apply(command(Op::ZCard, born_key(), Seq::empty(), Seq::empty())) == s,
        s.apply(command(Op::ZCard, alive_key(), Seq::empty(), Seq::empty())) == s,
        s.apply(command(Op::ZRank, alive_key(), sn, Seq::empty())) == s,
        s.answers(command(Op::ZCard, born_key(), Seq::empty(), Seq::empty()), reply) ==> count_of(
            reply,
        ) == Ok::<Option<Seq<char>>, Seq<char>>(Some(decimal_text(s.born().len()))),
        s.answers(command(Op::ZCard, alive_key(), Seq::empty(), Seq::empty()), reply) ==> count_of(
            reply,
        ) == Ok::<Option<Seq<char>>, Seq<char>>(Some(decimal_text(s.alive().len()))),
        s.answers(command(Op::ZRank, alive_key(), sn, Seq::empty()), reply) ==> (reply is Count
            <==> s.alive().contains(sn)),
{
}

/// A run of repeated count queries leaves the store as it was.
pub proof fn lemma_repeated_queries_are_pure(s: Store, run: Seq<(CommandView, ReplyView)>)
    requires
        forall|i: int|
            0 <= i < run.len() ==> (#[trigger] run[i]).0 == command(
                Op::ZCard,
                born_key(),
                Seq::empty(),
                Seq::empty(),
            ),
    ensures
        replay(s, run) == s,
    decreases run.len(),
{
    if run.len() > 0 {
        assert(s.apply(run[0].0) == s);
        let rest = run.drop_first();
        assert forall|i: int| 0 <= i < rest.len() implies (#[trigger] rest[i]).0 == command(
            Op::ZCard,
            born_key(),
            Seq::empty(),
            Seq::empty(),
        ) by {
            assert(rest[i] == run[i + 1]);
        }
        lemma_repeated_queries_are_pure(s, rest);
    }
}

/// The store after a request for `sn` went out: the uplink mailbox is empty and
/// the downlink mailbox holds the request.
pub open spec fn requested(s: Store, sn: Seq<char>, msg: Seq<char>) -> Store {
    s.apply(relay_command(sn, msg, TransmitView::ClearUplink)).apply(
        relay_command(sn, msg, TransmitView::WriteDownlink),
    )
}

/// The store after the session took the request from the downlink mailbox and
/// put the device's acknowledgement into the uplink mailbox.
pub open spec fn acknowledged(s: Store, sn: Seq<char>, ack: Seq<char>) -> Store {
    s.apply(command(Op::HDel, status_key_of(sn), "downlink"@, Seq::empty())).apply(
        command(Op::HSet, status_key_of(sn), "uplink"@, ack),
    )
}

/// A request goes out whole and its reply comes back whole. After the broker
/// has sent the request `msg` for `sn`, the session that looks into the
/// mailbox finds exactly `msg`, takes it out, and writes it to the device as
/// one line: the request and a line feed. When the device then acknowledges
/// with the line `ack`, the session puts it into the uplink mailbox, and the
/// broker's next look finds exactly `ack`, takes it out and hands it back.
/// Both mailboxes are empty again afterwards.
pub proof fn lemma_push_round_trip(
    s: Store,
    session: SessionView,
    msg: Seq<char>,
    ack: Seq<char>,
    probe: ReplyView,
    cleared: ReplyView,
    look: ReplyView,
    polls: u8,
    now: u64,
)
    requires
        session.phase == Phase::Watching,
        crate::connection::strip(msg).len() > 0,
        message_kind(json_members(ack)) == MESTYPE::ACK,
        requested(s, session.dev.sn, msg).answers(downlink_probe(session.dev.sn), probe),
        !(cleared is Failed),
        acknowledged(requested(s, session.dev.sn, msg), session.dev.sn, ack).answers(
            relay_command(session.dev.sn, msg, TransmitView::Poll(polls)),
            look,
        ),
    ensures
        requested(s, session.dev.sn, msg).status_field(session.dev.sn, "downlink"@) == Some(msg),
        requested(s, session.dev.sn, msg).status_field(session.dev.sn, "uplink"@) is None,
        probe == ReplyView::Text(msg),
        step_of(session, EventView::Answer(probe), now).1 == ActionView::Ask(
            command(Op::HDel, status_key_of(session.dev.sn), "downlink"@, Seq::empty()),
        ),
        step_of(
            step_of(session, EventView::Answer(probe), now).0,
            EventView::Answer(cleared),
            now,
        ).1 == ActionView::Write(frame_of(msg)),
        step_of(session, EventView::Line(Some(ack)), now).1 == ActionView::Ask(
            command(Op::HSet, status_key_of(session.dev.sn), "uplink"@, ack),
        ),
        look == ReplyView::Text(ack),
        relay_step(session.dev.sn, msg, TransmitView::Poll(polls), look) == RelayView::Ask(
            TransmitView::Consume(ack),
            relay_command(session.dev.sn, msg, TransmitView::Consume(ack)),
            0,
        ),
        relay_step(session.dev.sn, msg, TransmitView::Consume(ack), cleared) == RelayView::Done(
            Ok(Some(ack)),
        ),
        acknowledged(requested(s, session.dev.sn, msg), session.dev.sn, ack).apply(
            relay_command(session.dev.sn, msg, TransmitView::Consume(ack)),
        ).status_field(session.dev.sn, "uplink"@) is None,
        acknowledged(requested(s, session.dev.sn, msg), session.dev.sn, ack).apply(
            relay_command(session.dev.sn, msg, TransmitView::Consume(ack)),
        ).status_field(session.dev.sn, "downlink"@) is None,
{
    reveal_strlit("uplink");
    reveal_strlit("downlink");
    assert("uplink"@.len() == 6);
    assert("downlink"@.len() == 8);
}

/// A request that is never answered ends without a reply and without touching
/// the device's presence: while the uplink mailbox stays empty, every look
/// finds nothing, and the fiftieth ends the round trip.
pub proof fn lemma_silent_device_times_out(sn: Seq<char>, msg: Seq<char>, polls: u8, reply: ReplyView)
    requires
        !(reply is Text),
    ensures
        polls < 49 ==> relay_step(sn, msg, TransmitView::Poll(polls), reply) == RelayView::Ask(
            TransmitView::Poll((polls + 1) as u8),
            relay_command(sn, msg, TransmitView::Poll((polls + 1) as u8)),
            POLL_MS,
        ),
        polls >= 49 ==> relay_step(sn, msg, TransmitView::Poll(polls), reply) == RelayView::Done(
            Ok(None),
        ),
{
}

/// The round trip of a request touches nothing but the two mailboxes of its
/// device: the born set, the alive set, the event stream and every other
/// device's status are as they were after each of its commands.
pub proof fn lemma_relay_keeps_registry(s: Store, sn: Seq<char>, msg: Seq<char>, phase: TransmitView, other: Seq<char>)
    ensures
        s.apply(relay_command(sn, msg, phase)).sorted == s.sorted,
        s.apply(relay_command(sn, msg, phase)).lists == s.lists,
        s.apply(relay_command(sn, msg, phase)).status_field(sn, "online"@) == s.status_field(
            sn,
            "online"@,
        ),
        other != sn ==> s.apply(relay_command(sn, msg, phase)).status(other) == s.status(other),
{
    reveal_strlit("uplink");
    reveal_strlit("downlink");
    reveal_strlit("online");
    assert("uplink"@[0] == 'u');
    assert("downlink"@[0] == 'd');
    assert("online"@[0] == 'o');
    if other != sn && status_key_of(other) == status_key_of(sn) {
        crate::redis_wrapper::lemma_status_key_injective(other, sn);
    }
}

/// The last writer wins: of two requests put into the downlink mailbox of one
/// device before the session looks, the session finds the second, and the
/// first is lost.
pub proof fn lemma_last_writer_wins(s: Store, sn: Seq<char>, first: Seq<char>, second: Seq<char>, probe: ReplyView)
    requires
        requested(requested(s, sn, first), sn, second).answers(downlink_probe(sn), probe),
    ensures
        probe == ReplyView::Text(second),
{
    reveal_strlit("uplink");
    reveal_strlit("downlink");
    assert("uplink"@.len() == 6);
    assert("downlink"@.len() == 8);
}

/// While nobody answers, looking changes nothing: a run of the round trip
/// that starts with a look into an empty uplink mailbox, against a store that
/// nobody else writes to, finds nothing until the fiftieth look, ends without
/// a reply, and leaves the store as it was.
pub proof fn lemma_polls_find_nothing(
    s: Store,
    sn: Seq<char>,
    msg: Seq<char>,
    polls: u8,
    run: Seq<(CommandView, ReplyView)>,
)
    requires
        polls < POLL_LIMIT,
        s.status_field(sn, "uplink"@) is None,
        faithful(s, run),
        relay_run(sn, msg, TransmitView::Poll(polls), run) is Some,
    ensures
        relay_run(sn, msg, TransmitView::Poll(polls), run) == Some(
            Ok::<Option<Seq<char>>, Seq<char>>(None),
        ),
        run.len() == POLL_LIMIT - polls,
        replay(s, run) == s,
    decreases POLL_LIMIT - polls,
{
    let rest = run.drop_first();
    assert(s.apply(run[0].0) == s);
    assert(run[0].1 is Nil);
    if polls + 1 < POLL_LIMIT {
        lemma_polls_find_nothing(s, sn, msg, (polls + 1) as u8, rest);
    } else {
        assert(rest.len() == 0);
        assert(replay(s, rest) == s);
    }
}

/// A device that never answers costs its caller five seconds and nothing else.
/// A whole round trip against a store that nobody else writes to sends the two
/// commands that put the request out and then looks fifty times; it ends
/// without a reply, with the request still in the downlink mailbox, and with
/// the born set, the alive set and the device's `online` as they were.
pub proof fn lemma_unanswered_round_trip(
    s: Store,
    sn: Seq<char>,
    msg: Seq<char>,
    run: Seq<(CommandView, ReplyView)>,
)
    requires
        faithful(s, run),
        relay_run(sn, msg, TransmitView::ClearUplink, run) is Some,
    ensures
        relay_run(sn, msg, TransmitView::ClearUplink, run) == Some(
            Ok::<Option<Seq<char>>, Seq<char>>(None),
        ),
        run.len() == 52,
        replay(s, run) == requested(s, sn, msg),
        replay(s, run).status_field(sn, "downlink"@) == Some(msg),
        replay(s, run).sorted == s.sorted,
        replay(s, run).status_field(sn, "online"@) == s.status_field(sn, "online"@),
{
    reveal_strlit("uplink");
    reveal_strlit("downlink");
    reveal_strlit("online");
    assert("uplink"@.len() == 6);
    assert("downlink"@.len() == 8);
    assert("online"@[0] == 'o');
    assert("uplink"@[0] == 'u');
    let r1 = run.drop_first();
    let s1 = s.apply(run[0].0);
    assert(run[0].0 == relay_command(sn, msg, TransmitView::ClearUplink));
    assert(s.answers(run[0].0, run[0].1));
    assert(faithful(s1, r1));
    assert(relay_run(sn, msg, TransmitView::WriteDownlink, r1) is Some);
    let r2 = r1.drop_first();
    let s2 = s1.apply(r1[0].0);
    assert(r1[0].0 == relay_command(sn, msg, TransmitView::WriteDownlink));
    assert(s1.answers(r1[0].0, r1[0].1));
    assert(faithful(s2, r2));
    assert(relay_run(sn, msg, TransmitView::Poll(0), r2) is Some);
    assert(s2 == requested(s, sn, msg));
    lemma_polls_find_nothing(s2, sn, msg, 0, r2);
    assert(replay(s1, r1) == replay(s2, r2));
    assert(replay(s, run) == replay(s1, r1));
}

} // verus!
