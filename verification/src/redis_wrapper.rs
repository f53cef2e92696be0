//! The narrow interface to the shared key-value store: the commands the gateway
//! issues, the answers it reads, the keys under which its four entities live,
//! and the text of a timestamp.
//!
//! Nothing here talks to a store. A command is a plain value that the caller
//! sends, and an answer is a plain value that the caller hands back.

use vstd::prelude::*;
use vstd::string::StringExecFns;

verus! {

/// Key of the ordered set of every serial number ever seen.
pub const NAMESPACE_DEVICES_BORN: &'static str = "csod/devices_born";

/// Key of the ordered set of the serial numbers that hold a session now.
pub const NAMESPACE_DEVICES_ALIVE: &'static str = "csod/devices_alive";

/// Prefix of the key of a device's status hash.
pub const NAMESPACE_DEVICE_STATUS: &'static str = "csod/device_status";

/// Key of the list that all events are pushed to.
pub const NAMESPACE_DEVICES_COMMON_EVENT_NOTIFY: &'static str = "csod/mq/p5";

/// The key of the ordered set of born devices.
pub open spec fn born_key() -> Seq<char> {
    "csod/devices_born"@
}

/// The key of the ordered set of alive devices.
pub open spec fn alive_key() -> Seq<char> {
    "csod/devices_alive"@
}

/// The key of the event list.
pub open spec fn events_key() -> Seq<char> {
    "csod/mq/p5"@
}

/// The key of the status hash of the device `sn`.
pub open spec fn status_key_of(sn: Seq<char>) -> Seq<char> {
    "csod/device_status"@ + "/"@ + sn
}

/// Builds the key of the status hash of the device `sn`.
pub fn status_key(sn: &str) -> (key: String)
    ensures
        key@ == status_key_of(sn@),
{
    let mut key = String::from_str(NAMESPACE_DEVICE_STATUS);
    key.append("/");
    key.append(sn);
    key
}

/// Two devices never share a status hash.
pub proof fn lemma_status_key_injective(a: Seq<char>, b: Seq<char>)
    requires
        status_key_of(a) == status_key_of(b),
    ensures
        a == b,
{
    let prefix = "csod/device_status"@ + "/"@;
    assert(status_key_of(a) == prefix + a);
    assert(status_key_of(b) == prefix + b);
    assert((prefix + a).subrange(prefix.len() as int, (prefix + a).len() as int) =~= a);
    assert((prefix + b).subrange(prefix.len() as int, (prefix + b).len() as int) =~= b);
}

/// The operations of the store that the gateway uses. Each works on one key.
#[derive(Debug, PartialEq, Eq, Structural, Clone, Copy)]
pub enum Op {
    SetKey,
    GetKey,
    LPush,
    RPop,
    DelKey,
    ZCard,
    ZAdd,
    ZRank,
    ZRem,
    HSet,
    HGet,
    HDel,
}

/// One command for the store. `field` is the member of an ordered set or the
/// field of a hash; `value` is the value to store, or the score of a member.
/// A part that an operation does not use is empty.
#[derive(Debug, Clone)]
pub struct Command {
    pub op: Op,
    pub key: String,
    pub field: String,
    pub value: String,
}

/// A command as a mathematical value.
pub struct CommandView {
    pub op: Op,
    pub key: Seq<char>,
    pub field: Seq<char>,
    pub value: Seq<char>,
}

impl View for Command {
    type V = CommandView;

    open spec fn view(&self) -> CommandView {
        CommandView { op: self.op, key: self.key@, field: self.field@, value: self.value@ }
    }
}

/// The command with these parts.
pub open spec fn command(op: Op, key: Seq<char>, field: Seq<char>, value: Seq<char>) -> CommandView {
    CommandView { op, key, field, value }
}

/// Whether an operation takes a member or field after its key.
pub open spec fn uses_field(op: Op) -> bool {
    op == Op::ZAdd || op == Op::ZRank || op == Op::ZRem || op == Op::HSet || op == Op::HGet || op
        == Op::HDel
}

/// Whether an operation takes a value or score.
pub open spec fn uses_value(op: Op) -> bool {
    op == Op::SetKey || op == Op::LPush || op == Op::ZAdd || op == Op::HSet
}

/// The arguments of a command in the order in which the store expects them:
/// the key first; for an ordered set the score before the member; for a hash
/// the field before the value.
pub open spec fn words_of(c: CommandView) -> Seq<Seq<char>> {
    if c.op == Op::ZAdd {
        seq![c.key, c.value, c.field]
    } else if uses_field(c.op) && uses_value(c.op) {
        seq![c.key, c.field, c.value]
    } else if uses_field(c.op) {
        seq![c.key, c.field]
    } else if uses_value(c.op) {
        seq![c.key, c.value]
    } else {
        seq![c.key]
    }
}

impl Op {
    /// The name by which the store knows the operation.
    pub fn name(&self) -> (name: &'static str)
        ensures
            name@ == match *self {
                Op::SetKey => "SET"@,
                Op::GetKey => "GET"@,
                Op::LPush => "LPUSH"@,
                Op::RPop => "RPOP"@,
                Op::DelKey => "DEL"@,
                Op::ZCard => "ZCARD"@,
                Op::ZAdd => "ZADD"@,
                Op::ZRank => "ZRANK"@,
                Op::ZRem => "ZREM"@,
                Op::HSet => "HSET"@,
                Op::HGet => "HGET"@,
                Op::HDel => "HDEL"@,
            },
    {
        match self {
            Op::SetKey => "SET",
            Op::GetKey => "GET",
            Op::LPush => "LPUSH",
            Op::RPop => "RPOP",
            Op::DelKey => "DEL",
            Op::ZCard => "ZCARD",
            Op::ZAdd => "ZADD",
            Op::ZRank => "ZRANK",
            Op::ZRem => "ZREM",
            Op::HSet => "HSET",
            Op::HGet => "HGET",
            Op::HDel => "HDEL",
        }
    }
}

impl Command {
    fn make(op: Op, key: &str, field: &str, value: &str) -> (c: Command)
        ensures
            c@ == command(op, key@, field@, value@),
    {
        Command {
            op,
            key: String::from_str(key),
            field: String::from_str(field),
            value: String::from_str(value),
        }
    }

    /// Store `v` under `k`.
    pub fn set(k: &str, v: &str) -> (c: Command)
        ensures
            c@ == command(Op::SetKey, k@, Seq::empty(), v@),
    {
        let c = Command::make(Op::SetKey, k, "", v);
        proof {
            reveal_strlit("");
            assert(""@ =~= Seq::<char>::empty());
        }
        c
    }

    /// Read what is stored under `key`.
    pub fn get(key: &str) -> (c: Command)
        ensures
            c@ == command(Op::GetKey, key@, Seq::empty(), Seq::empty()),
    {
        let c = Command::make(Op::GetKey, key, "", "");
        proof {
            reveal_strlit("");
            assert(""@ =~= Seq::<char>::empty());
        }
        c
    }

    /// Push `v` at the left end of the list `list_name`.
    pub fn push_to_list(list_name: &str, v: &str) -> (c: Command)
        ensures
            c@ == command(Op::LPush, list_name@, Seq::empty(), v@),
    {
        let c = Command::make(Op::LPush, list_name, "", v);
        proof {
            reveal_strlit("");
            assert(""@ =~= Seq::<char>::empty());
        }
        c
    }

    /// Pop from the right end of the list `list_name`.
    pub fn pop_from_list(list_name: &str) -> (c: Command)
        ensures
            c@ == command(Op::RPop, list_name@, Seq::empty(), Seq::empty()),
    {
        let c = Command::make(Op::RPop, list_name, "", "");
        proof {
            reveal_strlit("");
            assert(""@ =~= Seq::<char>::empty());
        }
        c
    }

    /// Delete `key`, whatever it holds.
    pub fn del_key(key: &str) -> (c: Command)
        ensures
            c@ == command(Op::DelKey, key@, Seq::empty(), Seq::empty()),
    {
        let c = Command::make(Op::DelKey, key, "", "");
        proof {
            reveal_strlit("");
            assert(""@ =~= Seq::<char>::empty());
        }
        c
    }

    /// Count the members of the ordered set `key`.
    pub fn zcard(key: &str) -> (c: Command)
        ensures
            c@ == command(Op::ZCard, key@, Seq::empty(), Seq::empty()),
    {
        let c = Command::make(Op::ZCard, key, "", "");
        proof {
            reveal_strlit("");
            assert(""@ =~= Seq::<char>::empty());
        }
        c
    }

    /// Add `member` to the ordered set `key` with `score`.
    pub fn zadd(key: &str, score: &str, member: &str) -> (c: Command)
        ensures
            c@ == command(Op::ZAdd, key@, member@, score@),
    {
        Command::make(Op::ZAdd, key, member, score)
    }

    /// Ask for the position of `member` in the ordered set `key`.
    pub fn zrank(key: &str, member: &str) -> (c: Command)
        ensures
            c@ == command(Op::ZRank, key@, member@, Seq::empty()),
    {
        let c = Command::make(Op::ZRank, key, member, "");
        proof {
            reveal_strlit("");
            assert(""@ =~= Seq::<char>::empty());
        }
        c
    }

    /// Remove `member` from the ordered set `key`.
    pub fn zrem(key: &str, member: &str) -> (c: Command)
        ensures
            c@ == command(Op::ZRem, key@, member@, Seq::empty()),
    {
        let c = Command::make(Op::ZRem, key, member, "");
        proof {
            reveal_strlit("");
            assert(""@ =~= Seq::<char>::empty());
        }
        c
    }

    /// Set `field` of the hash `key` to `value`.
    pub fn hset(key: &str, field: &str, value: &str) -> (c: Command)
        ensures
            c@ == command(Op::HSet, key@, field@, value@),
    {
        Command::make(Op::HSet, key, field, value)
    }

    /// Read `field` of the hash `key`.
    pub fn hget(key: &str, field: &str) -> (c: Command)
        ensures
            c@ == command(Op::HGet, key@, field@, Seq::empty()),
    {
        let c = Command::make(Op::HGet, key, field, "");
        proof {
            reveal_strlit("");
            assert(""@ =~= Seq::<char>::empty());
        }
        c
    }

    /// Delete `field` of the hash `key`.
    pub fn hdel(key: &str, field: &str) -> (c: Command)
        ensures
            c@ == command(Op::HDel, key@, field@, Seq::empty()),
    {
        let c = Command::make(Op::HDel, key, field, "");
        proof {
            reveal_strlit("");
            assert(""@ =~= Seq::<char>::empty());
        }
        c
    }

    /// Count the born devices.
    pub fn zcard_devices_born() -> (c: Command)
        ensures
            c@ == command(Op::ZCard, born_key(), Seq::empty(), Seq::empty()),
    {
        Command::zcard(NAMESPACE_DEVICES_BORN)
    }

    /// Add `member` to the born devices with `score`.
    pub fn zadd_devices_born(score: &str, member: &str) -> (c: Command)
        ensures
            c@ == command(Op::ZAdd, born_key(), member@, score@),
    {
        Command::zadd(NAMESPACE_DEVICES_BORN, score, member)
    }

    /// Count the alive devices.
    pub fn zcard_devices_alive() -> (c: Command)
        ensures
            c@ == command(Op::ZCard, alive_key(), Seq::empty(), Seq::empty()),
    {
        Command::zcard(NAMESPACE_DEVICES_ALIVE)
    }

    /// Add `member` to the alive devices with `score`.
    pub fn zadd_devices_alive(score: &str, member: &str) -> (c: Command)
        ensures
            c@ == command(Op::ZAdd, alive_key(), member@, score@),
    {
        Command::zadd(NAMESPACE_DEVICES_ALIVE, score, member)
    }

    /// Remove `member` from the alive devices.
    pub fn zrem_devices_alive(member: &str) -> (c: Command)
        ensures
            c@ == command(Op::ZRem, alive_key(), member@, Seq::empty()),
    {
        Command::zrem(NAMESPACE_DEVICES_ALIVE, member)
    }

    /// Add `sn` to the alive devices, scored with the time `now_micros`.
    pub fn zadd_device_alive_with_timestamp(sn: &str, now_micros: u64) -> (c: Command)
        ensures
            c@ == command(Op::ZAdd, alive_key(), sn@, timestamp_text(now_micros as nat)),
    {
        let stamp = format_timestamp(now_micros);
        Command::zadd_devices_alive(stamp.as_str(), sn)
    }

    /// Stamp the hash `key` with the time `now_micros` as its `toggletime`.
    pub fn hset_toggletime(key: &str, now_micros: u64) -> (c: Command)
        ensures
            c@ == command(Op::HSet, key@, "toggletime"@, timestamp_text(now_micros as nat)),
    {
        let stamp = format_timestamp(now_micros);
        Command::hset(key, "toggletime", stamp.as_str())
    }

    /// The two commands that record a change of `online` in the hash `key`: the
    /// new value first, then the time of the change.
    pub fn hset_online_with_time(key: &str, online: &str, now_micros: u64) -> (cs: (Command, Command))
        ensures
            cs.0@ == command(Op::HSet, key@, "online"@, online@),
            cs.1@ == command(Op::HSet, key@, "toggletime"@, timestamp_text(now_micros as nat)),
    {
        (Command::hset(key, "online", online), Command::hset_toggletime(key, now_micros))
    }

    /// The two commands that record the birth of `sn`: the time in its status
    /// hash first, then its entry in the born devices, scored with that time.
    pub fn zadd_device_born_with_timestamp(sn: &str, now_micros: u64) -> (cs: (Command, Command))
        ensures
            cs.0@ == command(
                Op::HSet,
                status_key_of(sn@),
                "borntime"@,
                timestamp_text(now_micros as nat),
            ),
            cs.1@ == command(Op::ZAdd, born_key(), sn@, timestamp_text(now_micros as nat)),
    {
        let stamp = format_timestamp(now_micros);
        let key = status_key(sn);
        (
            Command::hset(key.as_str(), "borntime", stamp.as_str()),
            Command::zadd_devices_born(stamp.as_str(), sn),
        )
    }

    /// The arguments to send after the operation's name, in order.
    pub fn words(&self) -> (words: Vec<String>)
        ensures
            words@.len() == words_of(self@).len(),
            forall|i: int| 0 <= i < words@.len() ==> words@[i]@ == #[trigger] words_of(self@)[i],
    {
        let mut words: Vec<String> = Vec::new();
        words.push(self.key.clone());
        match self.op {
            Op::ZAdd => {
                words.push(self.value.clone());
                words.push(self.field.clone());
            },
            Op::HSet => {
                words.push(self.field.clone());
                words.push(self.value.clone());
            },
            Op::ZRank | Op::ZRem | Op::HGet | Op::HDel => {
                words.push(self.field.clone());
            },
            Op::SetKey | Op::LPush => {
                words.push(self.value.clone());
            },
            Op::GetKey | Op::RPop | Op::DelKey | Op::ZCard => {},
        }
        words
    }
}

/// What the store answered to a command.
#[derive(Debug, Clone)]
pub enum Reply {
    /// The store could not be reached, or it reported an error.
    Failed,
    /// Nothing is there.
    Nil,
    /// A number: a count, a position, or how many entries were touched.
    Count(u64),
    /// A stored value.
    Text(String),
}

/// An answer as a mathematical value.
pub enum ReplyView {
    Failed,
    Nil,
    Count(nat),
    Text(Seq<char>),
}

impl View for Reply {
    type V = ReplyView;

    open spec fn view(&self) -> ReplyView {
        match *self {
            Reply::Failed => ReplyView::Failed,
            Reply::Nil => ReplyView::Nil,
            Reply::Count(n) => ReplyView::Count(n as nat),
            Reply::Text(t) => ReplyView::Text(t@),
        }
    }
}

impl Reply {
    /// Whether the store answered at all.
    pub fn is_failed(&self) -> (failed: bool)
        ensures
            failed == (self@ is Failed),
    {
        match self {
            Reply::Failed => true,
            _ => false,
        }
    }

    /// The number in the answer, if it is a number.
    pub fn count(&self) -> (n: Option<u64>)
        ensures
            n is Some == (self@ is Count),
            n is Some ==> self@ == ReplyView::Count(n->0 as nat),
    {
        match self {
            Reply::Count(n) => Some(*n),
            _ => None,
        }
    }

    /// The value in the answer, if it is a value.
    pub fn text(&self) -> (t: Option<String>)
        ensures
            t is Some == (self@ is Text),
            t is Some ==> self@ == ReplyView::Text(t->0@),
    {
        match self {
            Reply::Text(t) => Some(t.clone()),
            _ => None,
        }
    }
}

/// The character of a decimal digit.
pub open spec fn digit_char(d: nat) -> char {
    if d == 0 {
        '0'
    } else if d == 1 {
        '1'
    } else if d == 2 {
        '2'
    } else if d == 3 {
        '3'
    } else if d == 4 {
        '4'
    } else if d == 5 {
        '5'
    } else if d == 6 {
        '6'
    } else if d == 7 {
        '7'
    } else if d == 8 {
        '8'
    } else {
        '9'
    }
}

/// The decimal digits of `n`, without leading zeros.
pub open spec fn decimal_text(n: nat) -> Seq<char>
    decreases n,
{
    if n < 10 {
        seq![digit_char(n)]
    } else {
        decimal_text(n / 10).push(digit_char(n % 10))
    }
}

/// The last `width` decimal digits of `n`, with leading zeros.
pub open spec fn padded_text(n: nat, width: nat) -> Seq<char>
    decreases width,
{
    if width == 0 {
        Seq::empty()
    } else {
        padded_text(n / 10, (width - 1) as nat).push(digit_char(n % 10))
    }
}

/// A time as the store keeps it: the seconds since the epoch in decimal, a
/// point, and the microseconds of the second in six digits.
pub open spec fn timestamp_text(micros: nat) -> Seq<char> {
    decimal_text(micros / 1_000_000) + seq!['.'] + padded_text(micros % 1_000_000, 6)
}

fn digit_str(d: u64) -> (s: &'static str)
    requires
        d < 10,
    ensures
        s@ == seq![digit_char(d as nat)],
{
    proof {
        reveal_strlit("0");
        reveal_strlit("1");
        reveal_strlit("2");
        reveal_strlit("3");
        reveal_strlit("4");
        reveal_strlit("5");
        reveal_strlit("6");
        reveal_strlit("7");
        reveal_strlit("8");
        reveal_strlit("9");
    }
    let s = if d == 0 {
        "0"
    } else if d == 1 {
        "1"
    } else if d == 2 {
        "2"
    } else if d == 3 {
        "3"
    } else if d == 4 {
        "4"
    } else if d == 5 {
        "5"
    } else if d == 6 {
        "6"
    } else if d == 7 {
        "7"
    } else if d == 8 {
        "8"
    } else {
        "9"
    };
    assert(s@ =~= seq![digit_char(d as nat)]);
    s
}

fn push_decimal(out: &mut String, n: u64)
    ensures
        final(out)@ == old(out)@ + decimal_text(n as nat),
    decreases n,
{
    if n >= 10 {
        push_decimal(out, n / 10);
    }
    out.append(digit_str(n % 10));
    assert(final(out)@ =~= old(out)@ + decimal_text(n as nat));
}

fn push_padded(out: &mut String, n: u64, width: u8)
    ensures
        final(out)@ == old(out)@ + padded_text(n as nat, width as nat),
    decreases width,
{
    if width > 0 {
        push_padded(out, n / 10, width - 1);
        out.append(digit_str(n % 10));
    }
    assert(final(out)@ =~= old(out)@ + padded_text(n as nat, width as nat));
}

/// The decimal text of `n`.
pub fn decimal(n: u64) -> (text: String)
    ensures
        text@ == decimal_text(n as nat),
{
    let mut text = String::new();
    push_decimal(&mut text, n);
    assert(text@ =~= decimal_text(n as nat));
    text
}

/// The text of the time `micros`, counted in microseconds since the epoch.
pub fn format_timestamp(micros: u64) -> (text: String)
    ensures
        text@ == timestamp_text(micros as nat),
{
    let mut text = String::new();
    push_decimal(&mut text, micros / 1_000_000);
    text.append(".");
    push_padded(&mut text, micros % 1_000_000, 6);
    proof {
        reveal_strlit(".");
        assert("."@ =~= seq!['.']);
        assert(text@ =~= timestamp_text(micros as nat));
    }
    text
}

} // verus!
