//! The session of one device connection: the bytes that go on the wire, the
//! handshake, and the state machine that reacts to what the device sends and to
//! what waits for it in the store.
//!
//! The machine never reads a socket, a clock or the store. It is handed one
//! event at a time, with the time at which the event was seen, and answers with
//! the one thing to do next. Whoever runs it performs that action and comes
//! back with the event that resulted.

use crate::device::{alive_at, Device, DeviceView};
use crate::json_wrapper::{
    heartbeat_sn_of, is_heartbeat, json_members, message_kind, parse_msg_type, MESTYPE,
};
use crate::map2redis::{
    activation_command, activation_step, deactivation_command, deactivation_step, Activation,
    Deactivation, Device2redis, Step, StepView,
};
use crate::redis_wrapper::{
    command, events_key, status_key_of, Command, CommandView, Op, Reply, ReplyView,
};
use vstd::prelude::*;
use vstd::string::{StrSliceExecFns, StringExecFns};
use vstd::utf8::encode_utf8;

verus! {

/// How often a connection may fail to open with a heartbeat before it is
/// dropped.
pub const HANDSHAKE_ATTEMPTS: u8 = 4;

/// The pause between two attempts of the handshake, in milliseconds.
pub const HANDSHAKE_RETRY_MS: u64 = 100;

/// How long the whole handshake may take, in microseconds: forty seconds.
pub const HANDSHAKE_DEADLINE: u64 = 40_000_000;

/// The pause between two looks at the device and its mailbox, in milliseconds.
pub const TICK_MS: u64 = 100;

/// The reply to every heartbeat.
pub const PONG: &'static str = "{\"type\":\"pong\"}";

/// Why a line could not be read or written.
#[allow(non_camel_case_types)]
#[derive(Debug, PartialEq, Eq, Structural, Clone, Copy)]
pub enum ServerError {
    /// The connection is gone.
    Broken,
    /// There is nothing to write.
    INVALID_DATA,
}

/// Whether a character is white space in the sense of Unicode's property
/// `White_Space`, by which the standard library trims.
pub uninterp spec fn white_space(c: char) -> bool;

/// `text` without the white space at its start.
pub open spec fn strip_start(text: Seq<char>) -> Seq<char>
    decreases text.len(),
{
    if text.len() > 0 && white_space(text[0]) {
        strip_start(text.drop_first())
    } else {
        text
    }
}

/// `text` without the white space at its end.
pub open spec fn strip_end(text: Seq<char>) -> Seq<char>
    decreases text.len(),
{
    if text.len() > 0 && white_space(text.last()) {
        strip_end(text.drop_last())
    } else {
        text
    }
}

/// `text` without the white space at either end.
pub open spec fn strip(text: Seq<char>) -> Seq<char> {
    strip_end(strip_start(text))
}

/// The bytes that carry `line` to a device: the line without the white space
/// around it, and a line feed.
pub open spec fn frame_of(line: Seq<char>) -> Seq<u8> {
    encode_utf8(strip(line)) + seq![10u8]
}

/// The bytes of the reply to a heartbeat.
pub open spec fn pong_frame_of() -> Seq<u8> {
    encode_utf8("{\"type\":\"pong\"}"@) + seq![10u8]
}

/// Calls `str::trim`.
///
/// Trusted: the result is the text without its leading and trailing white
/// space, where white space is whatever `white_space` names; what is left
/// neither starts nor ends with such a character.
#[verifier::external_body]
fn trim(text: &str) -> (rest: &str)
    ensures
        rest@ == strip(text@),
        rest@.len() > 0 ==> !white_space(rest@.first()) && !white_space(rest@.last()),
{
    text.trim()
}

/// What a read from the device amounts to: the line, if `count` bytes came and
/// that is more than none. An end of stream and a failed read (`None`) both
/// mean that the connection is gone.
pub fn readline(count: Option<usize>, line: String) -> (r: Result<String, ServerError>)
    ensures
        r == if count is Some && count->0 > 0 {
            Ok::<String, ServerError>(line)
        } else {
            Err::<String, ServerError>(ServerError::Broken)
        },
{
    match count {
        Some(n) => if n > 0 {
            Ok(line)
        } else {
            Err(ServerError::Broken)
        },
        None => Err(ServerError::Broken),
    }
}

/// The bytes to write for `line`: the line without the white space around it,
/// and a line feed. A line that holds nothing else is refused.
pub fn writeline(line: &str) -> (r: Result<Vec<u8>, ServerError>)
    ensures
        match r {
            Ok(bytes) => strip(line@).len() > 0 && bytes@ == frame_of(line@),
            Err(e) => strip(line@).len() == 0 && e == ServerError::INVALID_DATA,
        },
{
    let rest = trim(line);
    if rest.is_empty() {
        return Err(ServerError::INVALID_DATA);
    }
    let mut bytes = rest.as_bytes_vec();
    bytes.push(10u8);
    Ok(bytes)
}

/// The bytes of the reply to a heartbeat: the canonical pong and a line feed.
pub fn echo_pong() -> (bytes: Vec<u8>)
    ensures
        bytes@ == pong_frame_of(),
{
    let mut bytes = PONG.as_bytes_vec();
    bytes.push(10u8);
    bytes
}

/// The serial number with which `line` opens a session: that of the heartbeat
/// it holds, without the white space around it. `None` where the line is no
/// heartbeat.
pub open spec fn handshake_of(line: Seq<char>) -> Option<Seq<char>> {
    match json_members(line) {
        Some(members) => match heartbeat_sn_of(members) {
            Some(sn) => Some(strip(sn)),
            None => None,
        },
        None => None,
    }
}

/// Decides whether `line` opens a session, and for which serial number.
pub fn handshake(line: &String) -> (sn: Option<String>)
    ensures
        sn is Some == handshake_of(line@) is Some,
        sn is Some ==> handshake_of(line@) == Some(sn->0@),
{
    match is_heartbeat(line) {
        Some(sn) => Some(String::from_str(trim(sn.as_str()))),
        None => None,
    }
}

/// The heartbeat period in microseconds of a gateway configured with
/// `seconds`. A period too long to count in microseconds is as long as can be
/// counted.
pub fn heartbeat_period(seconds: u64) -> (micros: u64)
    ensures
        micros == if seconds * 1_000_000 <= u64::MAX {
            (seconds * 1_000_000) as u64
        } else {
            u64::MAX
        },
        seconds == 0 ==> micros == 0,
{
    if seconds > u64::MAX / 1_000_000 {
        u64::MAX
    } else {
        seconds * 1_000_000
    }
}

/// Where a session stands.
#[derive(Debug, PartialEq, Eq, Structural, Clone, Copy)]
pub enum Phase {
    /// Waiting for the line that opens the session.
    Handshaking,
    /// Pausing before the next attempt of the handshake.
    HandshakePause,
    /// Writing the pong that accepts the handshake.
    Greeting,
    /// Activating the device in the store.
    Activating(Activation),
    /// Waiting for a line from the device or a request in its mailbox,
    /// whichever comes first.
    Watching,
    /// Writing the pong for a heartbeat.
    Ponging,
    /// Appending an event to the event stream.
    Forwarding,
    /// Putting an acknowledgement into the uplink mailbox.
    Acking,
    /// Emptying the downlink mailbox after a request was taken from it.
    Consuming,
    /// Writing a request to the device.
    Delivering,
    /// Pausing before the next look.
    Resting,
    /// Deactivating the device in the store.
    Deactivating(Deactivation),
    /// Over; the connection is to be closed.
    Closed,
}

/// What happened since the session said what to do.
#[derive(Debug, Clone)]
pub enum Event {
    /// A read came back: with a line, or with nothing because the stream ended
    /// or failed.
    Line(Option<String>),
    /// A write and its flush came back; the flag says whether both went well.
    Written(bool),
    /// The store answered.
    Answer(Reply),
    /// A pause is over.
    Resumed,
    /// The handshake took too long.
    DeadlinePassed,
}

/// An event as a mathematical value.
pub enum EventView {
    Line(Option<Seq<char>>),
    Written(bool),
    Answer(ReplyView),
    Resumed,
    DeadlinePassed,
}

impl View for Event {
    type V = EventView;

    open spec fn view(&self) -> EventView {
        match *self {
            Event::Line(Some(line)) => EventView::Line(Some(line@)),
            Event::Line(None) => EventView::Line(None),
            Event::Written(ok) => EventView::Written(ok),
            Event::Answer(reply) => EventView::Answer(reply@),
            Event::Resumed => EventView::Resumed,
            Event::DeadlinePassed => EventView::DeadlinePassed,
        }
    }
}

/// What to do next.
#[derive(Debug, Clone)]
pub enum Action {
    /// Read a line from the device.
    Read,
    /// Write these bytes to the device and flush.
    Write(Vec<u8>),
    /// Send this command to the store.
    Ask(Command),
    /// Wait for a line from the device and, meanwhile, send this command to the
    /// store; come back with whichever is there first, the line if both are.
    Watch(Command),
    /// Pause for so many milliseconds.
    Pause(u64),
    /// Close the connection.
    Close,
}

/// An action as a mathematical value.
pub enum ActionView {
    Read,
    Write(Seq<u8>),
    Ask(CommandView),
    Watch(CommandView),
    Pause(u64),
    Close,
}

impl View for Action {
    type V = ActionView;

    open spec fn view(&self) -> ActionView {
        match *self {
            Action::Read => ActionView::Read,
            Action::Write(bytes) => ActionView::Write(bytes@),
            Action::Ask(c) => ActionView::Ask(c@),
            Action::Watch(c) => ActionView::Watch(c@),
            Action::Pause(ms) => ActionView::Pause(ms),
            Action::Close => ActionView::Close,
        }
    }
}

/// The session of one connection.
#[derive(Debug, Clone)]
pub struct Session {
    /// Where the session stands.
    pub phase: Phase,
    /// How many attempts of the handshake have failed.
    pub attempts: u8,
    /// When the connection was accepted.
    pub opened_at: u64,
    /// When the activation or the deactivation in progress began. Everything
    /// that it writes to the store is stamped with this time.
    pub since: u64,
    /// The device, once the handshake has named it. Until then its serial
    /// number is empty.
    pub d2r: Device2redis,
    /// A request taken from the mailbox and not yet written to the device.
    pub pending: String,
}

/// A session as a mathematical value.
pub struct SessionView {
    pub phase: Phase,
    pub attempts: u8,
    pub opened_at: u64,
    pub since: u64,
    pub dev: DeviceView,
    pub pending: Seq<char>,
}

impl View for Session {
    type V = SessionView;

    open spec fn view(&self) -> SessionView {
        SessionView {
            phase: self.phase,
            attempts: self.attempts,
            opened_at: self.opened_at,
            since: self.since,
            dev: self.d2r.dev@,
            pending: self.pending@,
        }
    }
}

/// The command that looks into the downlink mailbox of `sn`.
pub open spec fn downlink_probe(sn: Seq<char>) -> CommandView {
    command(Op::HGet, status_key_of(sn), "downlink"@, Seq::empty())
}

/// The session is over.
pub open spec fn close_of(s: SessionView) -> (SessionView, ActionView) {
    (SessionView { phase: Phase::Closed, ..s }, ActionView::Close)
}

/// The session goes back to waiting for the device and its mailbox.
pub open spec fn watch_of(s: SessionView) -> (SessionView, ActionView) {
    (SessionView { phase: Phase::Watching, ..s }, ActionView::Watch(downlink_probe(s.dev.sn)))
}

/// The session gives the device up at `now` and begins to deactivate it.
pub open spec fn fail_of(s: SessionView, now: u64) -> (SessionView, ActionView) {
    (
        SessionView {
            phase: Phase::Deactivating(Deactivation::SetOffline),
            since: now,
            dev: DeviceView { alive: false, ..s.dev },
            ..s
        },
        ActionView::Ask(deactivation_command(s.dev.sn, now as nat, Deactivation::SetOffline)),
    )
}

/// The check that ends every reaction: a device whose heartbeat has lapsed at
/// `now` is given up; any other rests for a tick.
pub open spec fn settle_of(s: SessionView, now: u64) -> (SessionView, ActionView) {
    if alive_at(s.dev.last_heartbeat_time, s.dev.heartbeat_period, s.dev.alive, now) {
        (
            SessionView { phase: Phase::Resting, dev: DeviceView { alive: true, ..s.dev }, ..s },
            ActionView::Pause(TICK_MS),
        )
    } else {
        fail_of(s, now)
    }
}

/// Whether the handshake has taken too long at `now`.
pub open spec fn handshake_late(s: SessionView, now: u64) -> bool {
    now >= s.opened_at && now - s.opened_at >= HANDSHAKE_DEADLINE
}

/// One failed attempt of the handshake.
pub open spec fn retry_of(s: SessionView) -> (SessionView, ActionView) {
    if s.attempts + 1 >= HANDSHAKE_ATTEMPTS {
        close_of(s)
    } else {
        (
            SessionView { phase: Phase::HandshakePause, attempts: (s.attempts + 1) as u8, ..s },
            ActionView::Pause(HANDSHAKE_RETRY_MS),
        )
    }
}

/// What a session in the state `s` does when `e` happens at `now`: its next
/// state and the action it asks for.
pub open spec fn step_of(s: SessionView, e: EventView, now: u64) -> (SessionView, ActionView) {
    match s.phase {
        Phase::Handshaking => if e is DeadlinePassed || handshake_late(s, now) {
            close_of(s)
        } else {
            match e {
                EventView::Line(Some(line)) => match handshake_of(line) {
                    Some(sn) => (
                        SessionView {
                            phase: Phase::Greeting,
                            dev: DeviceView {
                                sn,
                                born_time: now,
                                alive: true,
                                last_heartbeat_time: now,
                                heartbeat_period: s.dev.heartbeat_period,
                            },
                            ..s
                        },
                        ActionView::Write(pong_frame_of()),
                    ),
                    None => retry_of(s),
                },
                _ => retry_of(s),
            }
        },
        Phase::HandshakePause => if e is Resumed && !handshake_late(s, now) {
            (SessionView { phase: Phase::Handshaking, ..s }, ActionView::Read)
        } else {
            close_of(s)
        },
        Phase::Greeting => if e == EventView::Written(true) {
            (
                SessionView { phase: Phase::Activating(Activation::JoinAlive), since: now, ..s },
                ActionView::Ask(activation_command(s.dev.sn, now as nat, Activation::JoinAlive)),
            )
        } else {
            close_of(s)
        },
        Phase::Activating(p) => match e {
            EventView::Answer(reply) => match activation_step(s.dev.sn, s.since as nat, p, reply) {
                StepView::Ask(next, c) => (
                    SessionView { phase: Phase::Activating(next), ..s },
                    ActionView::Ask(c),
                ),
                StepView::Done(true) => watch_of(s),
                StepView::Done(false) => fail_of(s, now),
            },
            _ => fail_of(s, now),
        },
        Phase::Watching => match e {
            EventView::Line(Some(line)) => match message_kind(json_members(line)) {
                MESTYPE::HEARTBEAT => (
                    SessionView {
                        phase: Phase::Ponging,
                        dev: DeviceView { last_heartbeat_time: now, ..s.dev },
                        ..s
                    },
                    ActionView::Write(pong_frame_of()),
                ),
                MESTYPE::RAWDATA => (
                    SessionView { phase: Phase::Forwarding, ..s },
                    ActionView::Ask(command(Op::LPush, events_key(), Seq::empty(), line)),
                ),
                MESTYPE::ACK => (
                    SessionView { phase: Phase::Acking, ..s },
                    ActionView::Ask(command(Op::HSet, status_key_of(s.dev.sn), "uplink"@, line)),
                ),
                MESTYPE::INVALID => settle_of(s, now),
            },
            EventView::Answer(ReplyView::Text(request)) => (
                SessionView { phase: Phase::Consuming, pending: request, ..s },
                ActionView::Ask(
                    command(Op::HDel, status_key_of(s.dev.sn), "downlink"@, Seq::empty()),
                ),
            ),
            EventView::Answer(_) => settle_of(s, now),
            _ => fail_of(s, now),
        },
        Phase::Ponging => if e == EventView::Written(true) {
            settle_of(s, now)
        } else {
            fail_of(s, now)
        },
        Phase::Forwarding => if e is Answer {
            settle_of(s, now)
        } else {
            fail_of(s, now)
        },
        Phase::Acking => if e is Answer {
            settle_of(s, now)
        } else {
            fail_of(s, now)
        },
        Phase::Consuming => if e is Answer {
            if strip(s.pending).len() > 0 {
                (
                    SessionView { phase: Phase::Delivering, ..s },
                    ActionView::Write(frame_of(s.pending)),
                )
            } else {
                settle_of(s, now)
            }
        } else {
            fail_of(s, now)
        },
        Phase::Delivering => if e == EventView::Written(true) {
            settle_of(s, now)
        } else {
            fail_of(s, now)
        },
        Phase::Resting => if e is Resumed {
            watch_of(s)
        } else {
            fail_of(s, now)
        },
        Phase::Deactivating(p) => match e {
            EventView::Answer(reply) => match deactivation_step(s.dev.sn, s.since as nat, p, reply) {
                StepView::Ask(next, c) => (
                    SessionView { phase: Phase::Deactivating(next), ..s },
                    ActionView::Ask(c),
                ),
                StepView::Done(_) => close_of(s),
            },
            _ => close_of(s),
        },
        Phase::Closed => close_of(s),
    }
}

/// Which of two things that are both there a watching session is told of: the
/// line from the device goes first, the answer from the mailbox waits for the
/// next look. `None` where neither is there.
pub fn first_of(line: Option<Event>, answer: Option<Event>) -> (event: Option<Event>)
    ensures
        event == if line is Some {
            line
        } else {
            answer
        },
{
    match line {
        Some(e) => Some(e),
        None => answer,
    }
}

impl Session {
    /// The session of a connection accepted at `now` by a gateway whose
    /// heartbeat period is `heartbeat_secs`, and the first thing to do: read a
    /// line.
    pub fn open(heartbeat_secs: u64, now: u64) -> (opened: (Session, Action))
        ensures
            opened.0@ == (SessionView {
                phase: Phase::Handshaking,
                attempts: 0,
                opened_at: now,
                since: now,
                dev: DeviceView {
                    sn: Seq::empty(),
                    born_time: now,
                    alive: true,
                    last_heartbeat_time: now,
                    heartbeat_period: if heartbeat_secs * 1_000_000 <= u64::MAX {
                        (heartbeat_secs * 1_000_000) as u64
                    } else {
                        u64::MAX
                    },
                },
                pending: Seq::empty(),
            }),
            opened.1@ == ActionView::Read,
    {
        let mut dev = Device::new(String::new(), now);
        dev.set_heartbeat_period(heartbeat_period(heartbeat_secs));
        (
            Session {
                phase: Phase::Handshaking,
                attempts: 0,
                opened_at: now,
                since: now,
                d2r: Device2redis::new(dev),
                pending: String::new(),
            },
            Action::Read,
        )
    }

    fn close(&mut self) -> (action: Action)
        ensures
            (final(self)@, action@) == close_of(old(self)@),
    {
        self.phase = Phase::Closed;
        Action::Close
    }

    fn watch(&mut self) -> (action: Action)
        ensures
            (final(self)@, action@) == watch_of(old(self)@),
    {
        self.phase = Phase::Watching;
        Action::Watch(self.d2r.readline_downlink())
    }

    fn fail(&mut self, now: u64) -> (action: Action)
        ensures
            (final(self)@, action@) == fail_of(old(self)@, now),
    {
        self.d2r.dev.deactivate();
        self.since = now;
        match self.d2r.deactivate(None, now) {
            Step::Ask(phase, c) => {
                self.phase = Phase::Deactivating(phase);
                Action::Ask(c)
            },
            Step::Done(_) => self.close(),
        }
    }

    fn settle(&mut self, now: u64) -> (action: Action)
        ensures
            (final(self)@, action@) == settle_of(old(self)@, now),
    {
        if self.d2r.dev.is_alive_update(now) {
            self.phase = Phase::Resting;
            Action::Pause(TICK_MS)
        } else {
            self.fail(now)
        }
    }

    fn retry(&mut self) -> (action: Action)
        ensures
            (final(self)@, action@) == retry_of(old(self)@),
    {
        if self.attempts >= HANDSHAKE_ATTEMPTS - 1 {
            self.close()
        } else {
            self.attempts = self.attempts + 1;
            self.phase = Phase::HandshakePause;
            Action::Pause(HANDSHAKE_RETRY_MS)
        }
    }

    /// Handles one event seen at `now`: moves the session on and says what to
    /// do next.
    pub fn handler(&mut self, event: Event, now: u64) -> (action: Action)
        ensures
            (final(self)@, action@) == step_of(old(self)@, event@, now),
    {
        match self.phase {
            Phase::Handshaking => {
                let late = now >= self.opened_at && now - self.opened_at >= HANDSHAKE_DEADLINE;
                match event {
                    Event::DeadlinePassed => self.close(),
                    Event::Line(Some(line)) => {
                        if late {
                            self.close()
                        } else {
                            match handshake(&line) {
                                Some(sn) => {
                                    let period = self.d2r.dev.heartbeat_period;
                                    let mut dev = Device::new(sn, now);
                                    dev.set_heartbeat_period(period);
                                    self.d2r = Device2redis::new(dev);
                                    self.phase = Phase::Greeting;
                                    Action::Write(echo_pong())
                                },
                                None => self.retry(),
                            }
                        }
                    },
                    _ => {
                        if late {
                            self.close()
                        } else {
                            self.retry()
                        }
                    },
                }
            },
            Phase::HandshakePause => {
                let late = now >= self.opened_at && now - self.opened_at >= HANDSHAKE_DEADLINE;
                match event {
                    Event::Resumed => {
                        if late {
                            self.close()
                        } else {
                            self.phase = Phase::Handshaking;
                            Action::Read
                        }
                    },
                    _ => self.close(),
                }
            },
            Phase::Greeting => match event {
                Event::Written(true) => match self.d2r.activate(None, now) {
                    Step::Ask(phase, c) => {
                        self.since = now;
                        self.phase = Phase::Activating(phase);
                        Action::Ask(c)
                    },
                    Step::Done(_) => self.close(),
                },
                _ => self.close(),
            },
            Phase::Activating(p) => match event {
                Event::Answer(reply) => match self.d2r.activate(Some((p, reply)), self.since) {
                    Step::Ask(phase, c) => {
                        self.phase = Phase::Activating(phase);
                        Action::Ask(c)
                    },
                    Step::Done(true) => self.watch(),
                    Step::Done(false) => self.fail(now),
                },
                _ => self.fail(now),
            },
            Phase::Watching => match event {
                Event::Line(Some(line)) => match parse_msg_type(&line) {
                    MESTYPE::HEARTBEAT => {
                        self.d2r.dev.update_last_heartbeat_time(now);
                        self.phase = Phase::Ponging;
                        Action::Write(echo_pong())
                    },
                    MESTYPE::RAWDATA => {
                        self.phase = Phase::Forwarding;
                        Action::Ask(self.d2r.notify_event(line.as_str()))
                    },
                    MESTYPE::ACK => {
                        self.phase = Phase::Acking;
                        Action::Ask(self.d2r.write_uplink(line.as_str()))
                    },
                    MESTYPE::INVALID => self.settle(now),
                },
                Event::Answer(reply) => match self.d2r.take_downlink(&reply) {
                    Some((request, clear)) => {
                        self.pending = request;
                        self.phase = Phase::Consuming;
                        Action::Ask(clear)
                    },
                    None => self.settle(now),
                },
                _ => self.fail(now),
            },
            Phase::Ponging => match event {
                Event::Written(true) => self.settle(now),
                _ => self.fail(now),
            },
            Phase::Forwarding => match event {
                Event::Answer(_) => self.settle(now),
                _ => self.fail(now),
            },
            Phase::Acking => match event {
                Event::Answer(_) => self.settle(now),
                _ => self.fail(now),
            },
            Phase::Consuming => match event {
                Event::Answer(_) => match writeline(self.pending.as_str()) {
                    Ok(bytes) => {
                        self.phase = Phase::Delivering;
                        Action::Write(bytes)
                    },
                    Err(_) => self.settle(now),
                },
                _ => self.fail(now),
            },
            Phase::Delivering => match event {
                Event::Written(true) => self.settle(now),
                _ => self.fail(now),
            },
            Phase::Resting => match event {
                Event::Resumed => self.watch(),
                _ => self.fail(now),
            },
            Phase::Deactivating(p) => match event {
                Event::Answer(reply) => match self.d2r.deactivate(Some((p, reply)), self.since) {
                    Step::Ask(phase, c) => {
                        self.phase = Phase::Deactivating(phase);
                        Action::Ask(c)
                    },
                    Step::Done(_) => self.close(),
                },
                _ => self.close(),
            },
            Phase::Closed => self.close(),
        }
    }
}

/// What a session does with a sequence of events, each with the time at which
/// it was seen: the state it ends in and the actions it asked for, in order.
pub open spec fn serve(s: SessionView, events: Seq<(EventView, u64)>) -> (SessionView, Seq<ActionView>)
    decreases events.len(),
{
    if events.len() == 0 {
        (s, Seq::empty())
    } else {
        let (t, a) = step_of(s, events[0].0, events[0].1);
        let (u, rest) = serve(t, events.drop_first());
        (u, seq![a] + rest)
    }
}

/// Serving a sequence of events is serving the first and then the rest.
pub proof fn lemma_serve_first(s: SessionView, e: (EventView, u64), rest: Seq<(EventView, u64)>)
    ensures
        serve(s, seq![e] + rest) == (
            serve(step_of(s, e.0, e.1).0, rest).0,
            seq![step_of(s, e.0, e.1).1] + serve(step_of(s, e.0, e.1).0, rest).1,
        ),
{
    assert((seq![e] + rest).drop_first() =~= rest);
}

/// The events of a device that does nothing but send heartbeats, each answered
/// before the next: for every heartbeat its line, the pong written, and the
/// tick slept, all seen at the time of the heartbeat.
pub open spec fn ping_events(pings: Seq<(Seq<char>, u64)>) -> Seq<(EventView, u64)>
    decreases pings.len(),
{
    if pings.len() == 0 {
        Seq::empty()
    } else {
        seq![(EventView::Line(Some(pings[0].0)), pings[0].1)] + (seq![
            (EventView::Written(true), pings[0].1),
        ] + (seq![(EventView::Resumed, pings[0].1)] + ping_events(pings.drop_first())))
    }
}

/// What a session asks for while it serves `n` heartbeats: for each of them a
/// pong, a tick of rest, and the next look at the device and its mailbox.
pub open spec fn pong_actions(sn: Seq<char>, n: nat) -> Seq<ActionView>
    decreases n,
{
    if n == 0 {
        Seq::empty()
    } else {
        seq![ActionView::Write(pong_frame_of())] + (seq![ActionView::Pause(TICK_MS)] + (seq![
            ActionView::Watch(downlink_probe(sn)),
        ] + pong_actions(sn, (n - 1) as nat)))
    }
}

/// A handshake that takes too long ends the session, whatever happens: once
/// forty seconds have passed since the connection was accepted, or the caller
/// reports the deadline, a session that is still in its handshake closes.
pub proof fn lemma_handshake_deadline(s: SessionView, e: EventView, now: u64)
    requires
        s.phase == Phase::Handshaking || s.phase == Phase::HandshakePause,
        e is DeadlinePassed || handshake_late(s, now),
    ensures
        step_of(s, e, now) == close_of(s),
        handshake_late(s, now) <==> now - s.opened_at >= 40_000_000,
{
}

/// Whether an event opens a session: it is a line that holds a heartbeat.
pub open spec fn opens(e: EventView) -> bool {
    match e {
        EventView::Line(Some(line)) => handshake_of(line) is Some,
        _ => false,
    }
}

/// A session that has not been greeted leaves the store alone: until the pong
/// of the handshake is written, no event makes it send a command. Each of the
/// first three attempts that fail is followed by a pause; the fourth closes the
/// session.
pub proof fn lemma_handshake_touches_nothing(s: SessionView, e: EventView, now: u64)
    requires
        s.phase == Phase::Handshaking || s.phase == Phase::HandshakePause || s.phase
            == Phase::Greeting,
    ensures
        !(s.phase == Phase::Greeting && e == EventView::Written(true)) ==> !(step_of(s, e, now).1 is Ask)
            && !(step_of(s, e, now).1 is Watch),
        s.phase == Phase::Greeting && e != EventView::Written(true) ==> step_of(s, e, now)
            == close_of(s),
        s.phase == Phase::Handshaking && !opens(e) && s.attempts >= 3 ==> step_of(s, e, now)
            == close_of(s),
        s.phase == Phase::Handshaking && !opens(e) && s.attempts < 3 && !(e is DeadlinePassed)
            && !handshake_late(s, now) ==> step_of(s, e, now) == (
            SessionView { phase: Phase::HandshakePause, attempts: (s.attempts + 1) as u8, ..s },
            ActionView::Pause(HANDSHAKE_RETRY_MS),
        ),
{
}

/// A heartbeat is answered with a pong and moves the last heartbeat to the time
/// at which it was seen; the device stays what it was in everything else.
pub proof fn lemma_heartbeat_answered(s: SessionView, line: Seq<char>, now: u64)
    requires
        s.phase == Phase::Watching,
        message_kind(json_members(line)) == MESTYPE::HEARTBEAT,
    ensures
        step_of(s, EventView::Line(Some(line)), now).1 == ActionView::Write(pong_frame_of()),
        step_of(s, EventView::Line(Some(line)), now).0.dev == (DeviceView {
            last_heartbeat_time: now,
            ..s.dev
        }),
{
}

/// Heartbeats in, pongs out: a watching session that is sent `n` heartbeats
/// answers with `n` pongs, one after each heartbeat and in their order, and
/// ends watching again with its last heartbeat at the time of the last one.
/// Where the heartbeats come at times that do not go back, neither does the
/// last heartbeat.
pub proof fn lemma_pings_pongs(s: SessionView, pings: Seq<(Seq<char>, u64)>)
    requires
        s.phase == Phase::Watching,
        s.dev.heartbeat_period > 0,
        forall|i: int|
            0 <= i < pings.len() ==> message_kind(json_members(#[trigger] pings[i].0))
                == MESTYPE::HEARTBEAT,
    ensures
        serve(s, ping_events(pings)).1 == pong_actions(s.dev.sn, pings.len()),
        serve(s, ping_events(pings)).0.phase == Phase::Watching,
        pings.len() > 0 ==> serve(s, ping_events(pings)).0.dev == (DeviceView {
            last_heartbeat_time: pings.last().1,
            alive: true,
            ..s.dev
        }),
        pings.len() == 0 ==> serve(s, ping_events(pings)).0 == s,
        (forall|i: int| 0 <= i < pings.len() ==> s.dev.last_heartbeat_time <= (#[trigger] pings[i]).1)
            ==> s.dev.last_heartbeat_time <= serve(
            s,
            ping_events(pings),
        ).0.dev.last_heartbeat_time,
    decreases pings.len(),
{
    if pings.len() > 0 {
        let line = pings[0].0;
        let t = pings[0].1;
        let rest = pings.drop_first();
        let e1 = (EventView::Line(Some(line)), t);
        let e2 = (EventView::Written(true), t);
        let e3 = (EventView::Resumed, t);
        let tail = ping_events(rest);
        let s1 = step_of(s, e1.0, t).0;
        let s2 = step_of(s1, e2.0, t).0;
        let s3 = step_of(s2, e3.0, t).0;
        assert(pings[0].0 == line);
        assert(s1.phase == Phase::Ponging);
        assert(s2.phase == Phase::Resting);
        assert(s3.phase == Phase::Watching);
        assert(s3.dev == (DeviceView { last_heartbeat_time: t, alive: true, ..s.dev }));
        lemma_serve_first(s, e1, seq![e2] + (seq![e3] + tail));
        lemma_serve_first(s1, e2, seq![e3] + tail);
        lemma_serve_first(s2, e3, tail);
        assert forall|i: int| 0 <= i < rest.len() implies message_kind(
            json_members(#[trigger] rest[i].0),
        ) == MESTYPE::HEARTBEAT by {
            assert(rest[i] == pings[i + 1]);
        }
        lemma_pings_pongs(s3, rest);
        if rest.len() > 0 {
            assert(rest.last() == pings.last());
        }
        if forall|i: int| 0 <= i < pings.len() ==> s.dev.last_heartbeat_time <= (#[trigger] pings[i]).1 {
            assert(s.dev.last_heartbeat_time <= pings[pings.len() - 1].1);
        }
    }
}

/// A heartbeat period of zero deactivates at once: the check that ends every
/// reaction gives the device up, whatever it has just sent.
pub proof fn lemma_zero_period_deactivates(s: SessionView, now: u64)
    requires
        s.dev.heartbeat_period == 0,
        now >= s.dev.last_heartbeat_time,
    ensures
        settle_of(s, now) == fail_of(s, now),
        settle_of(s, now).0.phase == Phase::Deactivating(Deactivation::SetOffline),
{
}

/// The check that ends every reaction gives a device up exactly when its
/// silence has reached the heartbeat period.
pub proof fn lemma_lapse_deactivates(s: SessionView, now: u64)
    requires
        now >= s.dev.last_heartbeat_time,
    ensures
        now - s.dev.last_heartbeat_time >= s.dev.heartbeat_period <==> settle_of(s, now).0.phase
            == Phase::Deactivating(Deactivation::SetOffline),
        now - s.dev.last_heartbeat_time < s.dev.heartbeat_period <==> settle_of(s, now).0.phase
            == Phase::Resting,
{
}

/// Whether the store may hold traces of the session: the session has begun to
/// activate its device and has not finished deactivating it.
pub open spec fn engaged(phase: Phase) -> bool {
    !(phase == Phase::Handshaking || phase == Phase::HandshakePause || phase == Phase::Greeting
        || phase == Phase::Closed || phase is Deactivating)
}

/// No session leaves without deactivating: once a session has begun to activate
/// its device, no single event closes it. It can only go on, or begin to
/// deactivate. A closed session stays closed.
pub proof fn lemma_no_exit_without_deactivation(s: SessionView, e: EventView, now: u64)
    ensures
        engaged(s.phase) ==> step_of(s, e, now).0.phase != Phase::Closed,
        engaged(s.phase) ==> engaged(step_of(s, e, now).0.phase) || step_of(s, e, now).0.phase
            == Phase::Deactivating(Deactivation::SetOffline),
        s.phase is Deactivating ==> step_of(s, e, now).0.phase is Deactivating || step_of(
            s,
            e,
            now,
        ).0.phase == Phase::Closed,
        s.phase == Phase::Closed ==> step_of(s, e, now) == close_of(s),
        step_of(s, e, now).0.dev.sn == s.dev.sn || s.phase == Phase::Handshaking,
{
}

/// The answers of a run as the events that a session sees, each at its time.
pub open spec fn answers_of(run: Seq<(CommandView, ReplyView)>, times: Seq<u64>) -> Seq<
    (EventView, u64),
> {
    Seq::new(run.len(), |i: int| (EventView::Answer(run[i].1), times[i]))
}

/// The commands of a run after its first, as the actions that ask for them.
pub open spec fn asks_of(run: Seq<(CommandView, ReplyView)>) -> Seq<ActionView> {
    Seq::new((run.len() - 1) as nat, |i: int| ActionView::Ask(run[i + 1].0))
}

/// A session that activates its device sends the commands of activation and
/// nothing else, in their order and all stamped with the time at which
/// activation began, whenever the answers come. It goes on by what activation
/// came to: it watches the device if activation succeeded, and gives it up, at
/// the time of the last answer, if not.
pub proof fn lemma_session_runs_activation(
    s: SessionView,
    p: Activation,
    run: Seq<(CommandView, ReplyView)>,
    times: Seq<u64>,
)
    requires
        s.phase == Phase::Activating(p),
        times.len() == run.len(),
        crate::map2redis::activation_run(s.dev.sn, s.since as nat, p, run) is Some,
    ensures
        serve(s, answers_of(run, times)) == (if crate::map2redis::activation_run(
            s.dev.sn,
            s.since as nat,
            p,
            run,
        )->0 {
            (watch_of(s).0, asks_of(run) + seq![watch_of(s).1])
        } else {
            (fail_of(s, times.last()).0, asks_of(run) + seq![fail_of(s, times.last()).1])
        }),
    decreases run.len(),
{
    let now = times[0];
    let e0 = (EventView::Answer(run[0].1), now);
    let rest = run.drop_first();
    let later = times.drop_first();
    assert(answers_of(run, times) =~= seq![e0] + answers_of(rest, later));
    lemma_serve_first(s, e0, answers_of(rest, later));
    let s1 = step_of(s, e0.0, now).0;
    let a1 = step_of(s, e0.0, now).1;
    match activation_step(s.dev.sn, s.since as nat, p, run[0].1) {
        StepView::Done(ok) => {
            assert(rest.len() == 0);
            assert(times.last() == now);
            assert(answers_of(rest, later) =~= Seq::<(EventView, u64)>::empty());
            assert(asks_of(run) =~= Seq::<ActionView>::empty());
            assert(seq![a1] + Seq::<ActionView>::empty() =~= asks_of(run) + seq![a1]);
        },
        StepView::Ask(next, c) => {
            lemma_session_runs_activation(s1, next, rest, later);
            assert(rest[0] == run[1]);
            assert(c == run[1].0);
            assert(later.last() == times.last());
            assert(watch_of(s1) == watch_of(s));
            assert(fail_of(s1, times.last()) == fail_of(s, times.last()));
            let last = serve(s1, answers_of(rest, later)).1.last();
            assert(asks_of(rest) =~= Seq::new(
                (rest.len() - 1) as nat,
                |i: int| ActionView::Ask(run[i + 2].0),
            )) by {
                assert forall|i: int| 0 <= i < rest.len() - 1 implies asks_of(rest)[i]
                    == ActionView::Ask(run[i + 2].0) by {
                    assert(rest[i + 1] == run[i + 2]);
                }
            }
            assert(seq![a1] + (asks_of(rest) + seq![last]) =~= asks_of(run) + seq![last]);
        },
    }
}

/// A session that deactivates its device sends the commands of deactivation
/// and nothing else, in their order and all stamped with the time at which
/// deactivation began, whenever the answers come, and closes.
pub proof fn lemma_session_runs_deactivation(
    s: SessionView,
    p: Deactivation,
    run: Seq<(CommandView, ReplyView)>,
    times: Seq<u64>,
)
    requires
        s.phase == Phase::Deactivating(p),
        times.len() == run.len(),
        crate::map2redis::deactivation_run(s.dev.sn, s.since as nat, p, run) is Some,
    ensures
        serve(s, answers_of(run, times)) == (close_of(s).0, asks_of(run) + seq![ActionView::Close]),
    decreases run.len(),
{
    let now = times[0];
    let e0 = (EventView::Answer(run[0].1), now);
    let rest = run.drop_first();
    let later = times.drop_first();
    assert(answers_of(run, times) =~= seq![e0] + answers_of(rest, later));
    lemma_serve_first(s, e0, answers_of(rest, later));
    let s1 = step_of(s, e0.0, now).0;
    let a1 = step_of(s, e0.0, now).1;
    match deactivation_step(s.dev.sn, s.since as nat, p, run[0].1) {
        StepView::Done(ok) => {
            assert(rest.len() == 0);
            assert(answers_of(rest, later) =~= Seq::<(EventView, u64)>::empty());
            assert(asks_of(run) =~= Seq::<ActionView>::empty());
            assert(seq![a1] + Seq::<ActionView>::empty() =~= asks_of(run) + seq![a1]);
        },
        StepView::Ask(next, c) => {
            lemma_session_runs_deactivation(s1, next, rest, later);
            assert(rest[0] == run[1]);
            assert(c == run[1].0);
            assert(close_of(s1) == close_of(s));
            assert(asks_of(rest) =~= Seq::new(
                (rest.len() - 1) as nat,
                |i: int| ActionView::Ask(run[i + 2].0),
            )) by {
                assert forall|i: int| 0 <= i < rest.len() - 1 implies asks_of(rest)[i]
                    == ActionView::Ask(run[i + 2].0) by {
                    assert(rest[i + 1] == run[i + 2]);
                }
            }
            assert(seq![a1] + (asks_of(rest) + seq![ActionView::Close]) =~= asks_of(run) + seq![
                ActionView::Close,
            ]);
        },
    }
}

/// From the handshake to a live device: once the pong of the handshake is
/// written at `now`, a session whose store answers every command ends up
/// watching its device, whenever the answers come, and the store then holds the
/// device as activated at `now`: in the alive set, in the born set, and online.
pub proof fn lemma_greeted_session_activates(
    s: SessionView,
    store: crate::store::Store,
    run: Seq<(CommandView, ReplyView)>,
    now: u64,
    times: Seq<u64>,
)
    requires
        s.phase == Phase::Greeting,
        times.len() == run.len(),
        crate::store::faithful(store, run),
        crate::map2redis::activation_run(s.dev.sn, now as nat, Activation::JoinAlive, run) is Some,
    ensures
        step_of(s, EventView::Written(true), now).1 == ActionView::Ask(run[0].0),
        serve(step_of(s, EventView::Written(true), now).0, answers_of(run, times)) == (
            SessionView { phase: Phase::Watching, since: now, ..s },
            asks_of(run) + seq![ActionView::Watch(downlink_probe(s.dev.sn))],
        ),
        crate::store::replay(store, run) == crate::map2redis::activated(
            store,
            s.dev.sn,
            now as nat,
        ),
        crate::store::replay(store, run).alive().contains(s.dev.sn),
        crate::store::replay(store, run).born().contains(s.dev.sn),
        crate::store::replay(store, run).status_field(s.dev.sn, "online"@) == Some("true"@),
{
    let s1 = step_of(s, EventView::Written(true), now).0;
    crate::map2redis::lemma_activation_refines(store, s.dev.sn, now as nat, run);
    crate::map2redis::lemma_activated_is_online(store, s.dev.sn, now as nat);
    lemma_session_runs_activation(s1, Activation::JoinAlive, run, times);
}

/// From a lapsed heartbeat to a device that is gone: a session that gives its
/// device up at `now`, and whose store answers every command, closes, whenever
/// the answers come, and the store then holds the device as deactivated at
/// `now`: out of the alive set and offline, with the born set as it was.
pub proof fn lemma_lapsed_session_deactivates(
    s: SessionView,
    store: crate::store::Store,
    run: Seq<(CommandView, ReplyView)>,
    now: u64,
    times: Seq<u64>,
)
    requires
        times.len() == run.len(),
        crate::store::faithful(store, run),
        crate::map2redis::deactivation_run(
            s.dev.sn,
            now as nat,
            Deactivation::SetOffline,
            run,
        ) is Some,
    ensures
        fail_of(s, now).1 == ActionView::Ask(run[0].0),
        serve(fail_of(s, now).0, answers_of(run, times)) == (
            close_of(fail_of(s, now).0).0,
            asks_of(run) + seq![ActionView::Close],
        ),
        crate::store::replay(store, run) == crate::map2redis::deactivated(
            store,
            s.dev.sn,
            now as nat,
        ),
        !crate::store::replay(store, run).alive().contains(s.dev.sn),
        crate::store::replay(store, run).born() == store.born(),
        crate::store::replay(store, run).status_field(s.dev.sn, "online"@) == Some("false"@),
{
    crate::map2redis::lemma_deactivation_refines(store, s.dev.sn, now as nat, run);
    crate::map2redis::lemma_deactivated_is_offline(store, s.dev.sn, now as nat);
    lemma_session_runs_deactivation(fail_of(s, now).0, Deactivation::SetOffline, run, times);
}

/// An event reaches the head of the event stream as it came: a watching
/// session that reads an event asks the store to push the very line, and a
/// store that does so has the line at the head of the stream, in front of
/// every event that was there before.
pub proof fn lemma_event_forwarded(s: SessionView, store: crate::store::Store, line: Seq<char>, now: u64)
    requires
        s.phase == Phase::Watching,
        message_kind(json_members(line)) == MESTYPE::RAWDATA,
    ensures
        step_of(s, EventView::Line(Some(line)), now).1 == ActionView::Ask(
            command(Op::LPush, events_key(), Seq::empty(), line),
        ),
        step_of(s, EventView::Line(Some(line)), now).0.dev == s.dev,
        store.apply(command(Op::LPush, events_key(), Seq::empty(), line)).events() == seq![line]
            + store.events(),
        store.apply(command(Op::LPush, events_key(), Seq::empty(), line)).sorted == store.sorted,
        store.apply(command(Op::LPush, events_key(), Seq::empty(), line)).hashes == store.hashes,
{
}

/// An acknowledgement reaches the uplink mailbox of its session's device as it
/// came, whatever was in the mailbox before.
pub proof fn lemma_ack_stored(s: SessionView, store: crate::store::Store, line: Seq<char>, now: u64)
    requires
        s.phase == Phase::Watching,
        message_kind(json_members(line)) == MESTYPE::ACK,
    ensures
        step_of(s, EventView::Line(Some(line)), now).1 == ActionView::Ask(
            command(Op::HSet, status_key_of(s.dev.sn), "uplink"@, line),
        ),
        store.apply(command(Op::HSet, status_key_of(s.dev.sn), "uplink"@, line)).status_field(
            s.dev.sn,
            "uplink"@,
        ) == Some(line),
        store.apply(command(Op::HSet, status_key_of(s.dev.sn), "uplink"@, line)).sorted
            == store.sorted,
{
}

} // verus!
