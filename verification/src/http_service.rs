//! The control plane: what each HTTP endpoint answers, and the steps by which
//! a pushed request reaches its device and comes back with a reply.
//!
//! Nothing here serves HTTP. An endpoint is a function from what the store
//! answered to the response to send; the push endpoint is a machine like the
//! others of this library, driven by whoever holds the connection to the
//! store.

use crate::json_wrapper::{json_members, message_sn, parse_sn};
use crate::query_redis::{
    outcome_view, relay_start, relay_step, sn_is_alive, sn_is_alive_query,
    transparent_transmit_wit_ack, Relay, RelayView, Transmit, TransmitView,
};
use crate::redis_wrapper::{alive_key, command, Command, CommandView, Op, Reply, ReplyView};
use vstd::prelude::*;
use vstd::string::StringExecFns;
use vstd::utf8::{decode_utf8, valid_utf8};

verus! {

/// The most bytes that the body of a pushed request may have.
pub const MAX_SIZE: usize = 262_144;

/// The version that the service reports.
pub const SERVICE_VERSION: &'static str = "v1.2.0-20201109a";

/// A response: the HTTP status code, and the members of the JSON object that is
/// its body, all of them strings, in the order in which they are listed.
#[derive(Debug)]
pub struct Response {
    pub code: u16,
    pub fields: Vec<(String, String)>,
}

/// A response as a mathematical value.
pub struct ResponseView {
    pub code: u16,
    pub fields: Seq<(Seq<char>, Seq<char>)>,
}

/// The views of a list of members, one for one.
pub open spec fn fields_view(fields: Seq<(String, String)>) -> Seq<(Seq<char>, Seq<char>)> {
    Seq::new(fields.len(), |i: int| (fields[i].0@, fields[i].1@))
}

impl View for Response {
    type V = ResponseView;

    open spec fn view(&self) -> ResponseView {
        ResponseView { code: self.code, fields: fields_view(self.fields@) }
    }
}

/// The JSON text of the object whose members are `fields`, each value a
/// string, as the JSON serializer writes it.
pub uninterp spec fn json_object_text(fields: Seq<(Seq<char>, Seq<char>)>) -> Seq<char>;

/// Collects the members into a `serde_json::Map`, each value as a
/// `serde_json::Value::String`, and writes the object out with
/// `serde_json::Value::to_string`.
///
/// Trusted: the result is the named text `json_object_text` of the members.
/// Nothing is claimed about what that text looks like, only that the same
/// members always give the same text.
#[verifier::external_body]
fn render(fields: &Vec<(String, String)>) -> (text: String)
    ensures
        text@ == json_object_text(fields_view(fields@)),
{
    let object: serde_json::Map<String, serde_json::Value> = fields.iter().map(
        |(key, value)| (key.clone(), serde_json::Value::String(value.clone())),
    ).collect();
    serde_json::Value::Object(object).to_string()
}

/// Calls `String::from_utf8`.
///
/// Trusted: the bytes come back as text exactly when they are valid UTF-8, and
/// the text is then what they decode to.
#[verifier::external_body]
fn text_of(bytes: Vec<u8>) -> (text: Option<String>)
    ensures
        text is Some == valid_utf8(bytes@),
        text is Some ==> text->0@ == decode_utf8(bytes@),
{
    match String::from_utf8(bytes) {
        Ok(text) => Some(text),
        Err(_) => None,
    }
}

fn field(name: &str, value: &str) -> (f: (String, String))
    ensures
        f.0@ == name@,
        f.1@ == value@,
{
    (String::from_str(name), String::from_str(value))
}

/// The response with this code and these three members.
fn respond3(code: u16, a: (String, String), b: (String, String), c: (String, String)) -> (r: Response)
    ensures
        r@ == (ResponseView { code, fields: seq![(a.0@, a.1@), (b.0@, b.1@), (c.0@, c.1@)] }),
{
    let mut fields: Vec<(String, String)> = Vec::new();
    fields.push(a);
    fields.push(b);
    fields.push(c);
    let r = Response { code, fields };
    assert(r@.fields =~= seq![(a.0@, a.1@), (b.0@, b.1@), (c.0@, c.1@)]);
    r
}

/// The members of the answer to a count: the count under `value`, or that there
/// is none.
pub open spec fn count_fields(namespace: Seq<char>, count: Result<Option<Seq<char>>, Seq<char>>) -> Seq<
    (Seq<char>, Seq<char>),
> {
    match count {
        Ok(Some(n)) => seq![("namespace"@, namespace), ("status"@, "200"@), ("value"@, n)],
        Ok(None) => seq![("namespace"@, namespace), ("status"@, "200"@), ("value"@, "none"@)],
        Err(_) => seq![("namespace"@, namespace), ("status"@, "404"@), ("error"@, "no value"@)],
    }
}

/// The members of the answer to a push that failed for `reason`.
pub open spec fn push_error_fields(status: Seq<char>, reason: Seq<char>) -> Seq<(Seq<char>, Seq<char>)> {
    seq![("namespace"@, "/push/push_msg"@), ("status"@, status), ("error"@, reason)]
}

/// The response to a push that came back with the reply `value`.
pub open spec fn push_success(value: Seq<char>) -> ResponseView {
    ResponseView {
        code: 200,
        fields: seq![("namespace"@, "/push/push_msg"@), ("status"@, "200"@), ("value"@, value)],
    }
}

/// The response to a push that failed for `reason`.
pub open spec fn push_failure(status: Seq<char>, reason: Seq<char>) -> ResponseView {
    ResponseView { code: 400, fields: push_error_fields(status, reason) }
}

/// The response to a push whose body is not text.
pub open spec fn push_invalid() -> ResponseView {
    ResponseView {
        code: 400,
        fields: seq![("namespace"@, "/push/push_msg"@), ("error"@, "invalid data"@)],
    }
}

fn count_response(namespace: &str, count: &Result<Option<String>, String>) -> (r: Response)
    ensures
        r@ == (ResponseView { code: 200, fields: count_fields(namespace@, outcome_view(*count)) }),
{
    match count {
        Ok(Some(n)) => respond3(
            200,
            field("namespace", namespace),
            field("status", "200"),
            field("value", n.as_str()),
        ),
        Ok(None) => respond3(
            200,
            field("namespace", namespace),
            field("status", "200"),
            field("value", "none"),
        ),
        Err(_) => respond3(
            200,
            field("namespace", namespace),
            field("status", "404"),
            field("error", "no value"),
        ),
    }
}

fn push_error(status: &str, reason: &str) -> (r: Response)
    ensures
        r@ == push_failure(status@, reason@),
{
    respond3(400, field("namespace", "/push/push_msg"), field("status", status), field("error", reason))
}

impl Response {
    /// The body of the response: its members as one JSON object.
    pub fn body(&self) -> (text: String)
        ensures
            text@ == json_object_text(self@.fields),
    {
        render(&self.fields)
    }
}

/// Answers `GET /query/service_version`.
pub fn query_service_version() -> (r: Response)
    ensures
        r@ == (ResponseView {
            code: 200,
            fields: seq![
                ("namespace"@, "/query/http_service_version"@),
                ("value"@, "v1.2.0-20201109a"@),
            ],
        }),
{
    let mut fields: Vec<(String, String)> = Vec::new();
    fields.push(field("namespace", "/query/http_service_version"));
    fields.push(field("value", SERVICE_VERSION));
    let r = Response { code: 200, fields };
    assert(r@.fields =~= seq![
        ("namespace"@, "/query/http_service_version"@),
        ("value"@, "v1.2.0-20201109a"@),
    ]);
    r
}

/// Answers `GET /query/devices_num` with the count that was read, or with the
/// news that there is none.
pub fn query_devices_num(count: &Result<Option<String>, String>) -> (r: Response)
    ensures
        r@ == (ResponseView {
            code: 200,
            fields: count_fields("/query/devices_num"@, outcome_view(*count)),
        }),
{
    count_response("/query/devices_num", count)
}

/// Answers `GET /query/devices_alive_num` with the count that was read, or with
/// the news that there is none.
pub fn query_devices_alive_num(count: &Result<Option<String>, String>) -> (r: Response)
    ensures
        r@ == (ResponseView {
            code: 200,
            fields: count_fields("/query/device_alive_num"@, outcome_view(*count)),
        }),
{
    count_response("/query/device_alive_num", count)
}

/// Answers `GET /query/device_is_alive/{sn}`: the device is `online` if it
/// holds a session, `offline` if not.
pub fn query_device_is_alive(sn: &str, alive: bool) -> (r: Response)
    ensures
        r@ == (ResponseView {
            code: 200,
            fields: seq![
                ("namespace"@, "/query/device_is_alive"@),
                ("status"@, "200"@),
                ("sn"@, sn@),
                (
                    "value"@,
                    if alive {
                        "online"@
                    } else {
                        "offline"@
                    },
                ),
            ],
        }),
{
    let mut fields: Vec<(String, String)> = Vec::new();
    fields.push(field("namespace", "/query/device_is_alive"));
    fields.push(field("status", "200"));
    fields.push(field("sn", sn));
    if alive {
        fields.push(field("value", "online"));
    } else {
        fields.push(field("value", "offline"));
    }
    let r = Response { code: 200, fields };
    assert(r@.fields =~= seq![
        ("namespace"@, "/query/device_is_alive"@),
        ("status"@, "200"@),
        ("sn"@, sn@),
        (
            "value"@,
            if alive {
                "online"@
            } else {
                "offline"@
            },
        ),
    ]);
    r
}

/// Adds a chunk to the body of a pushed request, unless the body would grow
/// beyond `MAX_SIZE` bytes; it says whether the chunk was added. A body of
/// exactly `MAX_SIZE` bytes is accepted, one byte more is not.
pub fn append_chunk(body: &mut Vec<u8>, chunk: &[u8]) -> (added: bool)
    ensures
        added == (old(body)@.len() + chunk@.len() <= MAX_SIZE),
        added ==> final(body)@ == old(body)@ + chunk@,
        !added ==> final(body)@ == old(body)@,
{
    if chunk.len() > MAX_SIZE || body.len() > MAX_SIZE - chunk.len() {
        return false;
    }
    let ghost before = body@;
    let mut i: usize = 0;
    while i < chunk.len()
        invariant
            i <= chunk@.len(),
            body@ == before + chunk@.subrange(0, i as int),
        decreases chunk.len() - i,
    {
        body.push(chunk[i]);
        i = i + 1;
        assert(body@ =~= before + chunk@.subrange(0, i as int));
    }
    assert(chunk@.subrange(0, chunk@.len() as int) =~= chunk@);
    true
}

/// The response to a body that grew beyond `MAX_SIZE` bytes.
pub fn overflow() -> (r: Response)
    ensures
        r@ == push_failure("404"@, "overflow"@),
{
    push_error("404", "overflow")
}

/// A pushed request that names its device.
#[derive(Debug)]
pub struct Push {
    /// The serial number of the device that the request is for.
    pub sn: String,
    /// The request, whole.
    pub text: String,
}

/// The command that a push is waiting on.
#[derive(Debug)]
pub enum PushPhase {
    /// Asking whether the device holds a session.
    CheckAlive,
    /// Within the round trip to the device.
    Relay(Transmit),
}

/// A phase of a push as a mathematical value.
pub enum PushPhaseView {
    CheckAlive,
    Relay(TransmitView),
}

impl View for PushPhase {
    type V = PushPhaseView;

    open spec fn view(&self) -> PushPhaseView {
        match *self {
            PushPhase::CheckAlive => PushPhaseView::CheckAlive,
            PushPhase::Relay(p) => PushPhaseView::Relay(p@),
        }
    }
}

/// What a push wants next.
#[derive(Debug)]
pub enum PushStep {
    /// Pause for so many milliseconds, send the command, and come back in this
    /// phase with the answer.
    Ask(PushPhase, Command, u64),
    /// The push is over; send this response.
    Respond(Response),
}

/// What a push wants next, as a mathematical value.
pub enum PushStepView {
    Ask(PushPhaseView, CommandView, u64),
    Respond(ResponseView),
}

impl View for PushStep {
    type V = PushStepView;

    open spec fn view(&self) -> PushStepView {
        match *self {
            PushStep::Ask(p, c, pause) => PushStepView::Ask(p@, c@, pause),
            PushStep::Respond(r) => PushStepView::Respond(r@),
        }
    }
}

/// How a push begins, given its body: a body that is not text is invalid; one
/// that names no device is refused; any other asks first whether its device
/// holds a session.
pub open spec fn push_begin(body: Seq<u8>) -> Result<(Seq<char>, Seq<char>, CommandView), ResponseView> {
    if !valid_utf8(body) {
        Err(push_invalid())
    } else {
        match message_sn(json_members(decode_utf8(body))) {
            None => Err(push_failure("404"@, "have no sn field"@)),
            Some(sn) => Ok(
                (sn, decode_utf8(body), command(Op::ZRank, alive_key(), sn, Seq::empty())),
            ),
        }
    }
}

/// What the round trip's next step means for the push.
pub open spec fn push_relay(relay: RelayView) -> PushStepView {
    match relay {
        RelayView::Ask(p, c, pause) => PushStepView::Ask(PushPhaseView::Relay(p), c, pause),
        RelayView::Done(Ok(Some(value))) => PushStepView::Respond(push_success(value)),
        RelayView::Done(Ok(None)) => PushStepView::Respond(push_failure("404"@, "no response"@)),
        RelayView::Done(Err(reason)) => PushStepView::Respond(
            push_failure("408"@, "send message fail "@ + reason),
        ),
    }
}

/// How a push for `sn` with the request `text` goes on after `reply` came in
/// `phase`. A device that holds no session is offline, and nothing is sent to
/// it. The reply of the device is handed back whole; no reply in time is an
/// error, and so is a request that could not be sent.
pub open spec fn push_step(sn: Seq<char>, text: Seq<char>, phase: PushPhaseView, reply: ReplyView) -> PushStepView {
    match phase {
        PushPhaseView::CheckAlive => if reply is Count {
            push_relay(relay_start(sn, text))
        } else {
            PushStepView::Respond(push_failure("404"@, "device offline"@))
        },
        PushPhaseView::Relay(p) => push_relay(relay_step(sn, text, p, reply)),
    }
}

/// Begins a push with the body `body`: either the push and the first command to
/// send, or the response that refuses it.
pub fn push_get(body: Vec<u8>) -> (begun: Result<(Push, Command), Response>)
    ensures
        match begun {
            Ok((push, c)) => push_begin(body@) == Ok::<
                (Seq<char>, Seq<char>, CommandView),
                ResponseView,
            >((push.sn@, push.text@, c@)),
            Err(r) => push_begin(body@) == Err::<(Seq<char>, Seq<char>, CommandView), ResponseView>(
                r@,
            ),
        },
{
    let text = match text_of(body) {
        Some(text) => text,
        None => {
            let mut fields: Vec<(String, String)> = Vec::new();
            fields.push(field("namespace", "/push/push_msg"));
            fields.push(field("error", "invalid data"));
            let r = Response { code: 400, fields };
            assert(r@.fields =~= push_invalid().fields);
            return Err(r);
        },
    };
    match parse_sn(&text) {
        None => Err(push_error("404", "have no sn field")),
        Some(sn) => {
            let c = sn_is_alive_query(sn.as_str());
            Ok((Push { sn, text }, c))
        },
    }
}

impl Push {
    fn relayed(relay: Relay) -> (step: PushStep)
        ensures
            step@ == push_relay(relay@),
    {
        match relay {
            Relay::Ask(p, c, pause) => PushStep::Ask(PushPhase::Relay(p), c, pause),
            Relay::Done(Ok(Some(value))) => PushStep::Respond(
                respond3(
                    200,
                    field("namespace", "/push/push_msg"),
                    field("status", "200"),
                    field("value", value.as_str()),
                ),
            ),
            Relay::Done(Ok(None)) => PushStep::Respond(push_error("404", "no response")),
            Relay::Done(Err(reason)) => {
                let mut why = String::from_str("send message fail ");
                why.append(reason.as_str());
                PushStep::Respond(push_error("408", why.as_str()))
            },
        }
    }

    /// One step of the push: `phase` is the phase that the caller was sent off
    /// with, `reply` the answer it got.
    pub fn proceed(&self, phase: PushPhase, reply: Reply) -> (step: PushStep)
        ensures
            step@ == push_step(self.sn@, self.text@, phase@, reply@),
    {
        match phase {
            PushPhase::CheckAlive => {
                if sn_is_alive(&reply) {
                    Push::relayed(
                        transparent_transmit_wit_ack(self.sn.as_str(), self.text.as_str(), None),
                    )
                } else {
                    PushStep::Respond(push_error("404", "device offline"))
                }
            },
            PushPhase::Relay(p) => Push::relayed(
                transparent_transmit_wit_ack(self.sn.as_str(), self.text.as_str(), Some((p, reply))),
            ),
        }
    }
}

/// A push to a device that holds no session is refused as offline, and nothing
/// is written to the store for it.
pub proof fn lemma_offline_push_refused(sn: Seq<char>, text: Seq<char>, reply: ReplyView)
    requires
        !(reply is Count),
    ensures
        push_step(sn, text, PushPhaseView::CheckAlive, reply) == PushStepView::Respond(
            push_failure("404"@, "device offline"@),
        ),
{
}

/// A push that succeeds hands back exactly the reply that was found in the
/// uplink mailbox, and a push succeeds only so.
pub proof fn lemma_push_value_is_reply(sn: Seq<char>, text: Seq<char>, phase: PushPhaseView, reply: ReplyView, value: Seq<char>)
    requires
        push_step(sn, text, phase, reply) == PushStepView::Respond(push_success(value)),
    ensures
        phase == PushPhaseView::Relay(TransmitView::Consume(value)),
{
    reveal_strlit("200");
    reveal_strlit("404");
    reveal_strlit("408");
    assert("200"@[0] == '2');
    assert("404"@[0] == '4');
    assert("408"@[0] == '4');
    match phase {
        PushPhaseView::CheckAlive => {
            if reply is Count {
                assert(push_step(sn, text, phase, reply) is Ask);
            } else {
                assert(push_failure("404"@, "device offline"@).code == 400);
            }
        },
        PushPhaseView::Relay(p) => {
            let relay = relay_step(sn, text, p, reply);
            match relay {
                RelayView::Done(Ok(Some(v))) => {
                    assert(push_success(v).fields[2] == push_success(value).fields[2]);
                },
                RelayView::Done(Ok(None)) => {
                    assert(push_failure("404"@, "no response"@).code == 400);
                },
                RelayView::Done(Err(reason)) => {
                    assert(push_failure("408"@, "send message fail "@ + reason).code == 400);
                },
                RelayView::Ask(_, _, _) => {},
            }
        },
    }
}

} // verus!
