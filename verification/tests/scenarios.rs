use device_gateway::connection::{
    echo_pong, first_of, handshake, heartbeat_period, readline, writeline, Action, Event, Phase,
    ServerError, Session, HANDSHAKE_DEADLINE, HANDSHAKE_RETRY_MS, PONG, TICK_MS,
};
use device_gateway::http_service::{
    append_chunk, overflow, push_get, query_device_is_alive, query_devices_alive_num,
    query_devices_num, query_service_version, Push, PushPhase, PushStep, Response, MAX_SIZE,
};
use device_gateway::query_redis::{
    alive_devices_num_query, devices_num_query, get_alive_devices_num, get_devices_num,
    sn_is_alive, sn_is_alive_query, transparent_transmit_wit_ack, Relay, Transmit, POLL_LIMIT,
    POLL_MS,
};
use device_gateway::redis_wrapper::{status_key, Command, Op, Reply};
use std::collections::{BTreeMap, HashMap, VecDeque};

/// A store in memory that carries out the library's commands.
struct Redis {
    lists: HashMap<String, VecDeque<String>>,
    sorted: HashMap<String, BTreeMap<String, String>>,
    hashes: HashMap<String, HashMap<String, String>>,
    asked: usize,
    writes: usize,
}

impl Redis {
    fn new() -> Redis {
        Redis { lists: HashMap::new(), sorted: HashMap::new(), hashes: HashMap::new(), asked: 0, writes: 0 }
    }

    fn run(&mut self, c: &Command) -> Reply {
        self.asked += 1;
        match c.op {
            Op::ZCard | Op::ZRank | Op::HGet | Op::GetKey => {}
            _ => self.writes += 1,
        }
        match c.op {
            Op::LPush => {
                let list = self.lists.entry(c.key.clone()).or_default();
                list.push_front(c.value.clone());
                Reply::Count(list.len() as u64)
            }
            Op::ZCard => Reply::Count(self.sorted.get(&c.key).map_or(0, |z| z.len()) as u64),
            Op::ZAdd => {
                let set = self.sorted.entry(c.key.clone()).or_default();
                Reply::Count(set.insert(c.field.clone(), c.value.clone()).is_none() as u64)
            }
            Op::ZRank => match self.sorted.get(&c.key) {
                Some(set) if set.contains_key(&c.field) => Reply::Count(0),
                _ => Reply::Nil,
            },
            Op::ZRem => Reply::Count(
                self.sorted.get_mut(&c.key).map_or(false, |z| z.remove(&c.field).is_some()) as u64,
            ),
            Op::HSet => {
                let hash = self.hashes.entry(c.key.clone()).or_default();
                Reply::Count(hash.insert(c.field.clone(), c.value.clone()).is_none() as u64)
            }
            Op::HGet => match self.hashes.get(&c.key).and_then(|h| h.get(&c.field)) {
                Some(v) => Reply::Text(v.clone()),
                None => Reply::Nil,
            },
            Op::HDel => Reply::Count(
                self.hashes.get_mut(&c.key).map_or(false, |h| h.remove(&c.field).is_some()) as u64,
            ),
            _ => Reply::Failed,
        }
    }

    fn status(&self, sn: &str, field: &str) -> Option<String> {
        self.hashes.get(&status_key(sn)).and_then(|h| h.get(field)).cloned()
    }

    fn has(&self, set: &str, member: &str) -> bool {
        self.sorted.get(set).map_or(false, |z| z.contains_key(member))
    }
}

/// A device on the other end of a connection: the lines it will send, and the
/// bytes it has received.
struct Wire {
    incoming: VecDeque<String>,
    received: Vec<u8>,
}

impl Wire {
    fn new(lines: &[&str]) -> Wire {
        Wire { incoming: lines.iter().map(|l| l.to_string()).collect(), received: Vec::new() }
    }
}

/// Performs one action of a session and hands the resulting event back to it.
fn turn(session: &mut Session, action: Action, redis: &mut Redis, wire: &mut Wire, now: &mut u64) -> Action {
    let event = match action {
        Action::Read => match wire.incoming.pop_front() {
            Some(line) => Event::Line(Some(line)),
            None => Event::DeadlinePassed,
        },
        Action::Write(bytes) => {
            wire.received.extend_from_slice(&bytes);
            Event::Written(true)
        }
        Action::Ask(c) => Event::Answer(redis.run(&c)),
        Action::Watch(c) => {
            let line = wire.incoming.pop_front().map(|l| Event::Line(Some(l)));
            let answer = Some(Event::Answer(redis.run(&c)));
            first_of(line, answer).unwrap()
        }
        Action::Pause(ms) => {
            *now += ms * 1000;
            Event::Resumed
        }
        Action::Close => return Action::Close,
    };
    session.handler(event, *now)
}

/// Runs a session until it has nothing left to read and rests, or closes.
fn settle(session: &mut Session, mut action: Action, redis: &mut Redis, wire: &mut Wire, now: &mut u64) -> Action {
    for _ in 0..10_000 {
        let idle = wire.incoming.is_empty() && matches!(action, Action::Pause(_)) && session.phase == Phase::Resting;
        if idle || matches!(action, Action::Close) {
            return action;
        }
        action = turn(session, action, redis, wire, now);
    }
    panic!("the session does not come to rest");
}

/// Runs a push to its response while a session serves the device.
fn push(
    body: &str,
    redis: &mut Redis,
    mut served: Option<(&mut Session, &mut Action, &mut Wire)>,
    now: &mut u64,
) -> Response {
    let (push, first) = match push_get(body.as_bytes().to_vec()) {
        Ok(begun) => begun,
        Err(response) => return response,
    };
    let mut step = push.proceed(PushPhase::CheckAlive, redis.run(&first));
    loop {
        match step {
            PushStep::Respond(response) => return response,
            PushStep::Ask(phase, c, pause) => {
                *now += pause * 1000;
                if let Some((session, action, wire)) = served.as_mut() {
                    let a = std::mem::replace(&mut **action, Action::Close);
                    let a = turn(session, a, redis, wire, now);
                    **action = settle(session, a, redis, wire, now);
                }
                let reply = redis.run(&c);
                step = push.proceed(phase, reply);
            }
        }
    }
}

fn value<'a>(response: &'a Response, name: &str) -> Option<&'a str> {
    response.fields.iter().find(|(k, _)| k == name).map(|(_, v)| v.as_str())
}

fn connect(redis: &mut Redis, wire: &mut Wire, heartbeat_secs: u64, now: &mut u64) -> (Session, Action) {
    let (mut session, action) = Session::open(heartbeat_secs, *now);
    let action = settle(&mut session, action, redis, wire, now);
    (session, action)
}

#[test]
fn happy_path() {
    let mut redis = Redis::new();
    let mut wire = Wire::new(&["{\"type\":\"ping\",\"sn\":\"D1\"}\n"]);
    let mut now = 1_000_000;
    let (session, action) = connect(&mut redis, &mut wire, 120, &mut now);
    assert_eq!(wire.received, b"{\"type\":\"pong\"}\n");
    assert!(matches!(action, Action::Pause(TICK_MS)));
    assert_eq!(session.phase, Phase::Resting);
    assert_eq!(session.d2r.dev.sn, "D1");
    assert!(redis.has("csod/devices_born", "D1"));
    assert!(redis.has("csod/devices_alive", "D1"));
    assert_eq!(redis.status("D1", "online"), Some("true".to_string()));
    assert_eq!(redis.status("D1", "toggletime"), Some("1.000000".to_string()));
    assert_eq!(redis.status("D1", "borntime"), Some("1.000000".to_string()));
    let alive = sn_is_alive(&redis.run(&sn_is_alive_query("D1")));
    let response = query_device_is_alive("D1", alive);
    assert_eq!(response.code, 200);
    assert_eq!(value(&response, "value"), Some("online"));
    assert_eq!(value(&response, "sn"), Some("D1"));
    assert_eq!(value(&response, "namespace"), Some("/query/device_is_alive"));
    assert_eq!(value(&response, "status"), Some("200"));
}

#[test]
fn event_forwarding() {
    let mut redis = Redis::new();
    let event = "{\"type\":\"evt\",\"sn\":\"D1\",\"payload\":42}\n";
    let mut wire = Wire::new(&["{\"type\":\"ping\",\"sn\":\"D1\"}\n", event]);
    let mut now = 1_000_000;
    let (session, _) = connect(&mut redis, &mut wire, 120, &mut now);
    assert_eq!(session.phase, Phase::Resting);
    assert_eq!(redis.lists["csod/mq/p5"].front(), Some(&event.to_string()));
    assert_eq!(redis.lists["csod/mq/p5"].len(), 1);
    assert_eq!(wire.received, b"{\"type\":\"pong\"}\n");
}

#[test]
fn synchronous_push() {
    let mut redis = Redis::new();
    let mut wire = Wire::new(&["{\"type\":\"ping\",\"sn\":\"D1\"}\n"]);
    let mut now = 1_000_000;
    let (mut session, mut action) = connect(&mut redis, &mut wire, 120, &mut now);
    wire.received.clear();
    let body = "{\"sn\":\"D1\",\"type\":\"get\",\"k\":1}";
    let ack = "{\"type\":\"getack\",\"sn\":\"D1\",\"v\":7}\n";

    let (push, first) = push_get(body.as_bytes().to_vec()).ok().unwrap();
    assert_eq!(push.sn, "D1");
    assert_eq!(push.text, body);
    let mut step = push.proceed(PushPhase::CheckAlive, redis.run(&first));
    let mut polls = 0;
    let response = loop {
        match step {
            PushStep::Respond(response) => break response,
            PushStep::Ask(phase, c, pause) => {
                now += pause * 1000;
                if let PushPhase::Relay(Transmit::Poll(_)) = phase {
                    polls += 1;
                    let a = std::mem::replace(&mut action, Action::Close);
                    let a = turn(&mut session, a, &mut redis, &mut wire, &mut now);
                    action = settle(&mut session, a, &mut redis, &mut wire, &mut now);
                    if polls == 2 {
                        assert_eq!(wire.received, format!("{}\n", body).as_bytes());
                        wire.incoming.push_back(ack.to_string());
                    }
                }
                let reply = redis.run(&c);
                step = push.proceed(phase, reply);
            }
        }
    };
    assert_eq!(response.code, 200);
    assert_eq!(value(&response, "namespace"), Some("/push/push_msg"));
    assert_eq!(value(&response, "status"), Some("200"));
    assert_eq!(value(&response, "value"), Some(ack));
    assert!(response.body().contains("\"value\":\"{\\\"type\\\":\\\"getack\\\",\\\"sn\\\":\\\"D1\\\",\\\"v\\\":7}\\n\""));
    assert_eq!(redis.status("D1", "uplink"), None);
    assert_eq!(redis.status("D1", "downlink"), None);
    assert_eq!(wire.received, format!("{}\n", body).as_bytes());
    assert!(redis.has("csod/devices_alive", "D1"));
}

#[test]
fn offline_push() {
    let mut redis = Redis::new();
    let mut now = 0;
    let response = push("{\"sn\":\"D2\"}", &mut redis, None, &mut now);
    assert_eq!(response.code, 400);
    assert_eq!(value(&response, "error"), Some("device offline"));
    assert_eq!(value(&response, "status"), Some("404"));
    assert_eq!(value(&response, "namespace"), Some("/push/push_msg"));
    assert_eq!(redis.writes, 0);
    assert_eq!(redis.asked, 1);
    let parsed: serde_json::Value = serde_json::from_str(&response.body()).unwrap();
    assert_eq!(parsed["error"], "device offline");
    assert_eq!(parsed["namespace"], "/push/push_msg");
}

#[test]
fn ack_timeout() {
    let mut redis = Redis::new();
    let mut wire = Wire::new(&["{\"type\":\"ping\",\"sn\":\"D1\"}\n"]);
    let mut now = 1_000_000;
    let (mut session, mut action) = connect(&mut redis, &mut wire, 120, &mut now);
    let before = now;
    let body = "{\"sn\":\"D1\",\"type\":\"get\",\"k\":1}";
    let response = push(body, &mut redis, Some((&mut session, &mut action, &mut wire)), &mut now);
    assert_eq!(response.code, 400);
    assert_eq!(value(&response, "error"), Some("no response"));
    assert_eq!(value(&response, "status"), Some("404"));
    assert!(now - before >= 4_900_000);
    assert!(wire.received.ends_with(format!("{}\n", body).as_bytes()));
    assert!(session.phase == Phase::Resting || session.phase == Phase::Watching);
    assert!(redis.has("csod/devices_alive", "D1"));
    assert_eq!(redis.status("D1", "online"), Some("true".to_string()));
}

#[test]
fn heartbeat_lapse() {
    let mut redis = Redis::new();
    let mut wire = Wire::new(&["{\"type\":\"ping\",\"sn\":\"SN\"}\n"]);
    let mut now = 1_000_000;
    let (mut session, mut action) = connect(&mut redis, &mut wire, 3, &mut now);
    assert!(redis.has("csod/devices_alive", "SN"));
    let connected = now;
    for _ in 0..1000 {
        if matches!(action, Action::Close) {
            break;
        }
        action = turn(&mut session, action, &mut redis, &mut wire, &mut now);
    }
    assert!(matches!(action, Action::Close));
    assert_eq!(session.phase, Phase::Closed);
    assert!(now - connected <= 3_000_000 + TICK_MS * 1000);
    assert!(now - 1_000_000 >= 3_000_000);
    assert!(!redis.has("csod/devices_alive", "SN"));
    assert!(redis.has("csod/devices_born", "SN"));
    assert_eq!(redis.status("SN", "online"), Some("false".to_string()));
    let alive = sn_is_alive(&redis.run(&sn_is_alive_query("SN")));
    assert_eq!(value(&query_device_is_alive("SN", alive), "value"), Some("offline"));
}

#[test]
fn pings_are_answered_one_by_one() {
    let mut redis = Redis::new();
    let ping = "{\"type\":\"ping\",\"sn\":\"D1\"}\n";
    let mut wire = Wire::new(&[ping]);
    let mut now = 1_000_000;
    let (mut session, mut action) = connect(&mut redis, &mut wire, 120, &mut now);
    wire.received.clear();
    let mut last = session.d2r.dev.last_heartbeat_time;
    for n in 1..=5 {
        now += 1_000_000;
        wire.incoming.push_back(ping.to_string());
        let a = turn(&mut session, action, &mut redis, &mut wire, &mut now);
        action = settle(&mut session, a, &mut redis, &mut wire, &mut now);
        assert_eq!(wire.received, "{\"type\":\"pong\"}\n".repeat(n).as_bytes());
        assert!(session.d2r.dev.last_heartbeat_time > last);
        last = session.d2r.dev.last_heartbeat_time;
    }
}

#[test]
fn a_period_of_zero_deactivates_at_once() {
    let mut redis = Redis::new();
    let mut wire = Wire::new(&["{\"type\":\"ping\",\"sn\":\"D1\"}\n"]);
    let mut now = 1_000_000;
    let (mut session, action) = Session::open(0, now);
    let mut action = action;
    let mut paused = 0;
    for _ in 0..100 {
        if matches!(action, Action::Close) {
            break;
        }
        if matches!(action, Action::Pause(_)) {
            paused += 1;
        }
        action = turn(&mut session, action, &mut redis, &mut wire, &mut now);
    }
    assert!(matches!(action, Action::Close));
    assert_eq!(paused, 0);
    assert!(!redis.has("csod/devices_alive", "D1"));
    assert!(redis.has("csod/devices_born", "D1"));
    assert_eq!(redis.status("D1", "online"), Some("false".to_string()));
    assert_eq!(heartbeat_period(0), 0);
    assert_eq!(heartbeat_period(120), 120_000_000);
    assert_eq!(heartbeat_period(u64::MAX), u64::MAX);
}

#[test]
fn a_handshake_that_never_arrives_is_closed() {
    let mut redis = Redis::new();
    let (mut session, action) = Session::open(120, 5_000_000);
    assert!(matches!(action, Action::Read));
    let action = session.handler(Event::DeadlinePassed, 5_000_000 + HANDSHAKE_DEADLINE);
    assert!(matches!(action, Action::Close));
    assert_eq!(session.phase, Phase::Closed);
    assert_eq!(HANDSHAKE_DEADLINE, 40_000_000);

    let (mut session, _) = Session::open(120, 5_000_000);
    let action = session.handler(Event::Line(None), 5_000_000 + 39_999_999);
    assert!(matches!(action, Action::Pause(HANDSHAKE_RETRY_MS)));
    let action = session.handler(Event::Resumed, 5_000_000 + 40_000_000);
    assert!(matches!(action, Action::Close));

    let (mut session, _) = Session::open(120, 5_000_000);
    let ping = "{\"type\":\"ping\",\"sn\":\"D1\"}\n".to_string();
    let action = session.handler(Event::Line(Some(ping)), 5_000_000 + 40_000_000);
    assert!(matches!(action, Action::Close));
    assert_eq!(redis.run(&devices_num_query()).count(), Some(0));
    assert_eq!(redis.writes, 0);
}

#[test]
fn four_failed_attempts_end_the_handshake() {
    let mut redis = Redis::new();
    let mut wire = Wire::new(&["garbage\n", "{\"type\":\"evt\",\"sn\":\"D1\"}\n", "{}\n", "[]\n", "{\"type\":\"ping\",\"sn\":\"D1\"}\n"]);
    let mut now = 0;
    let (mut session, mut action) = Session::open(120, now);
    let mut reads = 0;
    for _ in 0..100 {
        if matches!(action, Action::Close) {
            break;
        }
        if matches!(action, Action::Read) {
            reads += 1;
        }
        action = turn(&mut session, action, &mut redis, &mut wire, &mut now);
    }
    assert!(matches!(action, Action::Close));
    assert_eq!(reads, 4);
    assert_eq!(now, 3 * HANDSHAKE_RETRY_MS * 1000);
    assert_eq!(redis.asked, 0);
    assert!(wire.received.is_empty());

    let mut wire = Wire::new(&["garbage\n", "{}\n", "null\n", "{\"type\":\"ping\",\"sn\":\" D7 \"}\n"]);
    let mut now = 0;
    let (session, _) = connect(&mut redis, &mut wire, 120, &mut now);
    assert_eq!(session.d2r.dev.sn, "D7");
    assert!(redis.has("csod/devices_alive", "D7"));
}

#[test]
fn a_pong_that_cannot_be_written_touches_nothing() {
    let ping = "{\"type\":\"ping\",\"sn\":\"D1\"}\n".to_string();
    let (mut session, _) = Session::open(120, 0);
    let action = session.handler(Event::Line(Some(ping)), 10);
    assert!(matches!(action, Action::Write(_)));
    assert_eq!(session.phase, Phase::Greeting);
    let action = session.handler(Event::Written(false), 20);
    assert!(matches!(action, Action::Close));
    assert_eq!(session.phase, Phase::Closed);
    let action = session.handler(Event::Resumed, 30);
    assert!(matches!(action, Action::Close));
}

#[test]
fn a_broken_connection_deactivates() {
    let mut redis = Redis::new();
    let mut wire = Wire::new(&["{\"type\":\"ping\",\"sn\":\"D1\"}\n"]);
    let mut now = 1_000_000;
    let (mut session, action) = connect(&mut redis, &mut wire, 120, &mut now);
    let action = turn(&mut session, action, &mut redis, &mut wire, &mut now);
    assert!(matches!(action, Action::Watch(_)));
    let mut action = session.handler(Event::Line(None), now);
    assert!(matches!(action, Action::Ask(_)));
    for _ in 0..10 {
        if matches!(action, Action::Close) {
            break;
        }
        action = turn(&mut session, action, &mut redis, &mut wire, &mut now);
    }
    assert!(matches!(action, Action::Close));
    assert!(!redis.has("csod/devices_alive", "D1"));
    assert_eq!(redis.status("D1", "online"), Some("false".to_string()));
}

#[test]
fn an_invalid_line_is_dropped() {
    let mut redis = Redis::new();
    let mut wire = Wire::new(&["{\"type\":\"ping\",\"sn\":\"D1\"}\n", "not json\n", "{\"sn\":\"D1\"}\n"]);
    let mut now = 1_000_000;
    let (session, _) = connect(&mut redis, &mut wire, 120, &mut now);
    assert_eq!(session.phase, Phase::Resting);
    assert_eq!(wire.received, b"{\"type\":\"pong\"}\n");
    assert!(redis.lists.get("csod/mq/p5").is_none());
    assert_eq!(redis.status("D1", "uplink"), None);
    assert!(redis.has("csod/devices_alive", "D1"));
}

#[test]
fn the_line_goes_before_the_mailbox() {
    let line = Event::Line(Some("a".to_string()));
    let answer = Event::Answer(Reply::Text("b".to_string()));
    assert!(matches!(first_of(Some(line.clone()), Some(answer.clone())), Some(Event::Line(_))));
    assert!(matches!(first_of(None, Some(answer)), Some(Event::Answer(_))));
    assert!(matches!(first_of(Some(line), None), Some(Event::Line(_))));
    assert!(first_of(None, None).is_none());
}

#[test]
fn lines_are_framed_with_a_line_feed() {
    assert_eq!(writeline("abc"), Ok(b"abc\n".to_vec()));
    assert_eq!(writeline("  abc \r\n"), Ok(b"abc\n".to_vec()));
    assert_eq!(writeline("a b"), Ok(b"a b\n".to_vec()));
    assert_eq!(writeline(""), Err(ServerError::INVALID_DATA));
    assert_eq!(writeline(" \n\t"), Err(ServerError::INVALID_DATA));
    assert_eq!(writeline("\u{3000}x\u{a0}"), Ok(b"x\n".to_vec()));
    assert_eq!(echo_pong(), b"{\"type\":\"pong\"}\n".to_vec());
    assert_eq!(PONG, "{\"type\":\"pong\"}");
    assert_eq!(readline(Some(3), "ab\n".to_string()), Ok("ab\n".to_string()));
    assert_eq!(readline(Some(0), String::new()), Err(ServerError::Broken));
    assert_eq!(readline(None, String::new()), Err(ServerError::Broken));
    assert_eq!(handshake(&"{\"type\":\"ping\",\"sn\":\" 12 \"}".to_string()), Some("12".to_string()));
    assert_eq!(handshake(&"{\"type\":\"pong\",\"sn\":\"12\"}".to_string()), None);
}

#[test]
fn the_body_may_have_262144_bytes() {
    let mut body: Vec<u8> = Vec::new();
    assert!(append_chunk(&mut body, &vec![b'a'; 262_144]));
    assert_eq!(body.len(), 262_144);
    assert_eq!(MAX_SIZE, 262_144);
    assert!(append_chunk(&mut body, &[]));
    assert!(!append_chunk(&mut body, &[b'a']));
    assert_eq!(body.len(), 262_144);

    let mut body: Vec<u8> = Vec::new();
    assert!(!append_chunk(&mut body, &vec![b'a'; 262_145]));
    assert!(body.is_empty());

    let mut body: Vec<u8> = b"12".to_vec();
    assert!(append_chunk(&mut body, b"345"));
    assert_eq!(body, b"12345");
    assert!(!append_chunk(&mut body, &vec![0u8; 262_140]));
    assert!(append_chunk(&mut body, &vec![0u8; 262_139]));

    let response = overflow();
    assert_eq!(response.code, 400);
    assert_eq!(value(&response, "error"), Some("overflow"));
    assert_eq!(value(&response, "status"), Some("404"));
}

#[test]
fn a_push_needs_text_that_names_a_device() {
    let response = push_get(vec![0xff, 0xfe]).err().unwrap();
    assert_eq!(response.code, 400);
    assert_eq!(value(&response, "error"), Some("invalid data"));
    assert_eq!(value(&response, "status"), None);
    let response = push_get(b"{\"type\":\"get\"}".to_vec()).err().unwrap();
    assert_eq!(response.code, 400);
    assert_eq!(value(&response, "error"), Some("have no sn field"));
    let response = push_get(b"not json".to_vec()).err().unwrap();
    assert_eq!(value(&response, "error"), Some("have no sn field"));
    let (push, first) = push_get("{\"sn\":\"D\u{e9}\"}".as_bytes().to_vec()).ok().unwrap();
    assert_eq!(push.sn, "D\u{e9}");
    assert_eq!(first.words(), vec!["csod/devices_alive", "D\u{e9}"]);
    assert_eq!(first.op, Op::ZRank);
}

#[test]
fn a_request_that_cannot_be_sent_says_why() {
    let push = Push { sn: "D1".to_string(), text: "{\"sn\":\"D1\"}".to_string() };
    match push.proceed(PushPhase::Relay(Transmit::ClearUplink), Reply::Failed) {
        PushStep::Respond(response) => {
            assert_eq!(response.code, 400);
            assert_eq!(value(&response, "status"), Some("408"));
            assert_eq!(value(&response, "error"), Some("send message fail clear redis hash uplink msg failed"));
        }
        PushStep::Ask(_, _, _) => assert!(false),
    }
    match push.proceed(PushPhase::Relay(Transmit::WriteDownlink), Reply::Failed) {
        PushStep::Respond(response) => {
            assert_eq!(value(&response, "error"), Some("send message fail set redis fail."));
        }
        PushStep::Ask(_, _, _) => assert!(false),
    }
    match push.proceed(PushPhase::CheckAlive, Reply::Failed) {
        PushStep::Respond(response) => assert_eq!(value(&response, "error"), Some("device offline")),
        PushStep::Ask(_, _, _) => assert!(false),
    }
}

#[test]
fn the_round_trip_polls_fifty_times() {
    assert_eq!(POLL_LIMIT, 50);
    assert_eq!(POLL_MS, 100);
    let mut relay = transparent_transmit_wit_ack("D1", "req", None);
    let mut polls = 0;
    let mut paused = 0;
    let mut sent: Vec<Vec<String>> = Vec::new();
    let result = loop {
        match relay {
            Relay::Done(result) => break result,
            Relay::Ask(phase, c, pause) => {
                paused += pause;
                if let Transmit::Poll(_) = phase {
                    polls += 1;
                } else {
                    sent.push(c.words());
                }
                relay = transparent_transmit_wit_ack("D1", "req", Some((phase, Reply::Nil)));
            }
        }
    };
    assert_eq!(result, Ok(None));
    assert_eq!(polls, 50);
    assert_eq!(paused, 4900);
    assert_eq!(sent, vec![vec!["csod/device_status/D1", "uplink"], vec!["csod/device_status/D1", "downlink", "req"]]);
    match transparent_transmit_wit_ack("D1", "req", Some((Transmit::Poll(49), Reply::Text("v".to_string())))) {
        Relay::Ask(Transmit::Consume(v), c, 0) => {
            assert_eq!(v, "v");
            assert_eq!(c.op, Op::HDel);
        }
        _ => assert!(false),
    }
    match transparent_transmit_wit_ack("D1", "req", Some((Transmit::Consume("v".to_string()), Reply::Failed))) {
        Relay::Done(result) => assert_eq!(result, Ok(Some("v".to_string()))),
        _ => assert!(false),
    }
}

#[test]
fn counting_changes_nothing() {
    let mut redis = Redis::new();
    let mut wire = Wire::new(&["{\"type\":\"ping\",\"sn\":\"D1\"}\n"]);
    let mut now = 1_000_000;
    let _ = connect(&mut redis, &mut wire, 120, &mut now);
    let writes = redis.writes;
    for _ in 0..3 {
        let born = get_devices_num(&redis.run(&devices_num_query()));
        assert_eq!(born, Ok(Some("1".to_string())));
        let alive = get_alive_devices_num(&redis.run(&alive_devices_num_query()));
        assert_eq!(alive, Ok(Some("1".to_string())));
        let response = query_devices_num(&born);
        assert_eq!(response.code, 200);
        assert_eq!(value(&response, "namespace"), Some("/query/devices_num"));
        assert_eq!(value(&response, "status"), Some("200"));
        assert_eq!(value(&response, "value"), Some("1"));
        let response = query_devices_alive_num(&alive);
        assert_eq!(value(&response, "namespace"), Some("/query/device_alive_num"));
        assert_eq!(value(&response, "value"), Some("1"));
    }
    assert_eq!(redis.writes, writes);
    assert_eq!(get_devices_num(&Reply::Failed), Err("read fail.".to_string()));
    assert_eq!(get_devices_num(&Reply::Nil), Err("read fail.".to_string()));
    let response = query_devices_num(&Err("read fail.".to_string()));
    assert_eq!(response.code, 200);
    assert_eq!(value(&response, "status"), Some("404"));
    assert_eq!(value(&response, "error"), Some("no value"));
    assert_eq!(value(&query_devices_num(&Ok(None)), "value"), Some("none"));
}

#[test]
fn bodies_are_json_objects() {
    let response = query_service_version();
    assert_eq!(response.code, 200);
    let parsed: serde_json::Value = serde_json::from_str(&response.body()).unwrap();
    assert_eq!(parsed["namespace"], "/query/http_service_version");
    assert_eq!(parsed["value"], "v1.2.0-20201109a");
    assert_eq!(parsed.as_object().unwrap().len(), 2);
    let response = query_device_is_alive("a\"b", false);
    let body = response.body();
    assert_ne!(body, "a\"b");
    let parsed: serde_json::Value = serde_json::from_str(&body).unwrap();
    assert_eq!(parsed["sn"], "a\"b");
    assert_eq!(parsed["value"], "offline");
    assert_eq!(parsed["status"], "200");
}
