//! Classification of the newline-delimited JSON messages that devices send.
//!
//! A message is parsed once into the members of its top-level object; every
//! decision after that is made on those members alone. Classification is purely
//! syntactic: only the `type` and `sn` members are ever looked at.

use vstd::prelude::*;
use vstd::string::StringExecFns;

verus! {

/// The kind of a message received from a device.
#[derive(Debug, PartialEq, Eq, Structural, Clone, Copy)]
pub enum MESTYPE {
    /// A `ping` that carries the sender's serial number.
    HEARTBEAT,
    /// A `getack` or `setack` that answers a request sent down to the device.
    ACK,
    /// Any other object with a `type` and an `sn`: an event.
    RAWDATA,
    /// Anything else, malformed text included.
    INVALID,
}

/// One member of a JSON object: its key, and its value where the value is a
/// string. A value of any other kind is recorded as `None`.
#[derive(Debug, Clone)]
pub struct Member {
    pub key: String,
    pub text: Option<String>,
}

impl View for Member {
    type V = (Seq<char>, Option<Seq<char>>);

    open spec fn view(&self) -> (Seq<char>, Option<Seq<char>>) {
        (
            self.key@,
            match self.text {
                Some(t) => Some(t@),
                None => None,
            },
        )
    }
}

/// The members of the top-level object that `text` holds, in the order in which
/// the JSON parser hands them out; `None` where `text` is not a JSON object.
pub uninterp spec fn json_members(text: Seq<char>) -> Option<Seq<(Seq<char>, Option<Seq<char>>)>>;

/// The views of a list of members, one for one.
pub open spec fn members_view(members: Seq<Member>) -> Seq<(Seq<char>, Option<Seq<char>>)> {
    Seq::new(members.len(), |i: int| members[i]@)
}

/// The view of what parsing returned.
pub open spec fn object_view(object: Option<Vec<Member>>) -> Option<
    Seq<(Seq<char>, Option<Seq<char>>)>,
> {
    match object {
        Some(members) => Some(members_view(members@)),
        None => None,
    }
}

/// What the first member named `key` at or after position `from` holds:
/// `None` if there is no such member, `Some(None)` if its value is not a string.
pub open spec fn member_from(
    members: Seq<(Seq<char>, Option<Seq<char>>)>,
    key: Seq<char>,
    from: int,
) -> Option<Option<Seq<char>>>
    decreases members.len() - from,
{
    if from < 0 || from >= members.len() {
        None
    } else if members[from].0 == key {
        Some(members[from].1)
    } else {
        member_from(members, key, from + 1)
    }
}

/// Whether the object has a member named `key`.
pub open spec fn has_member(members: Seq<(Seq<char>, Option<Seq<char>>)>, key: Seq<char>) -> bool {
    member_from(members, key, 0) is Some
}

/// The string that the member named `key` holds, if there is such a member and
/// its value is a string.
pub open spec fn text_member(members: Seq<(Seq<char>, Option<Seq<char>>)>, key: Seq<char>) -> Option<
    Seq<char>,
> {
    match member_from(members, key, 0) {
        Some(Some(text)) => Some(text),
        _ => None,
    }
}

/// The serial number of a heartbeat: the object's `type` is the string `ping`
/// and its `sn` is a string.
pub open spec fn heartbeat_sn_of(members: Seq<(Seq<char>, Option<Seq<char>>)>) -> Option<Seq<char>> {
    if text_member(members, "type"@) == Some("ping"@) {
        text_member(members, "sn"@)
    } else {
        None
    }
}

/// The serial number of an acknowledgement: the object's `type` is the string
/// `setack` or `getack` and its `sn` is a string.
pub open spec fn ack_sn_of(members: Seq<(Seq<char>, Option<Seq<char>>)>) -> Option<Seq<char>> {
    if text_member(members, "type"@) == Some("setack"@) || text_member(members, "type"@) == Some(
        "getack"@,
    ) {
        text_member(members, "sn"@)
    } else {
        None
    }
}

/// Whether the object carries both a string `type` and a string `sn`.
pub open spec fn is_event_of(members: Seq<(Seq<char>, Option<Seq<char>>)>) -> bool {
    text_member(members, "type"@) is Some && text_member(members, "sn"@) is Some
}

/// The kind of an object, decided in this order: heartbeat, acknowledgement,
/// event, invalid.
pub open spec fn kind_of(members: Seq<(Seq<char>, Option<Seq<char>>)>) -> MESTYPE {
    if heartbeat_sn_of(members) is Some {
        MESTYPE::HEARTBEAT
    } else if ack_sn_of(members) is Some {
        MESTYPE::ACK
    } else if is_event_of(members) {
        MESTYPE::RAWDATA
    } else {
        MESTYPE::INVALID
    }
}

/// The kind of a message, given what parsing it returned.
pub open spec fn message_kind(object: Option<Seq<(Seq<char>, Option<Seq<char>>)>>) -> MESTYPE {
    match object {
        Some(members) => kind_of(members),
        None => MESTYPE::INVALID,
    }
}

/// The serial number that a message carries, given what parsing it returned.
pub open spec fn message_sn(object: Option<Seq<(Seq<char>, Option<Seq<char>>)>>) -> Option<Seq<char>> {
    match object {
        Some(members) => text_member(members, "sn"@),
        None => None,
    }
}

/// Parses `text` with `serde_json::from_str` into a `serde_json::Value` and hands
/// out the members of the object it holds, by `serde_json::Map::into_iter`.
///
/// Trusted: the result is the named value `json_members(text)`. Nothing is
/// claimed about which texts are objects or what their members are, only that
/// the same text always gives the same members. A parse error and a value that
/// is not an object both give `None`; a member whose value is not a string
/// keeps its key and loses its value.
#[verifier::external_body]
pub(crate) fn parse_object(text: &str) -> (object: Option<Vec<Member>>)
    ensures
        object_view(object) == json_members(text@),
{
    match serde_json::from_str::<serde_json::Value>(text) {
        Ok(serde_json::Value::Object(map)) => Some(
            map.into_iter().map(
                |(key, value)| match value {
                    serde_json::Value::String(text) => Member { key, text: Some(text) },
                    _ => Member { key, text: None },
                },
            ).collect(),
        ),
        Ok(_) => None,
        Err(_) => None,
    }
}

/// Looks up the member named `key`. The outer `Option` says whether there is
/// such a member, the inner one whether its value is a string.
pub fn find_member(members: &Vec<Member>, key: &str) -> (found: Option<Option<String>>)
    ensures
        match found {
            Some(Some(text)) => member_from(members_view(members@), key@, 0) == Some(Some(text@)),
            Some(None) => member_from(members_view(members@), key@, 0) == Some(
                None::<Seq<char>>,
            ),
            None => member_from(members_view(members@), key@, 0) is None,
        },
{
    let wanted = String::from_str(key);
    let ghost all = members_view(members@);
    let mut i: usize = 0;
    while i < members.len()
        invariant
            i <= members.len(),
            wanted@ == key@,
            all == members_view(members@),
            member_from(all, key@, i as int) == member_from(all, key@, 0),
        decreases members.len() - i,
    {
        let member = &members[i];
        assert(all[i as int] == member@);
        if member.key == wanted {
            return match &member.text {
                Some(text) => Some(Some(text.clone())),
                None => Some(None),
            };
        }
        i = i + 1;
    }
    None
}

/// The string under `key`, if the object has that member and it is a string.
pub fn text_field(members: &Vec<Member>, key: &str) -> (text: Option<String>)
    ensures
        text is Some == text_member(members_view(members@), key@) is Some,
        text is Some ==> text_member(members_view(members@), key@) == Some(text->0@),
{
    match find_member(members, key) {
        Some(Some(text)) => Some(text),
        _ => None,
    }
}

/// Whether `text` is the string `wanted`.
fn text_is(text: &Option<String>, wanted: &str) -> (same: bool)
    ensures
        same == (text is Some && text->0@ == wanted@),
{
    match text {
        Some(t) => {
            let w = String::from_str(wanted);
            *t == w
        },
        None => false,
    }
}

/// The serial number of a heartbeat among the members of an object.
pub fn heartbeat_sn(members: &Vec<Member>) -> (sn: Option<String>)
    ensures
        sn is Some == heartbeat_sn_of(members_view(members@)) is Some,
        sn is Some ==> heartbeat_sn_of(members_view(members@)) == Some(sn->0@),
{
    let kind = text_field(members, "type");
    if text_is(&kind, "ping") {
        text_field(members, "sn")
    } else {
        None
    }
}

/// The serial number of an acknowledgement among the members of an object.
pub fn ack_sn(members: &Vec<Member>) -> (sn: Option<String>)
    ensures
        sn is Some == ack_sn_of(members_view(members@)) is Some,
        sn is Some ==> ack_sn_of(members_view(members@)) == Some(sn->0@),
{
    let kind = text_field(members, "type");
    if text_is(&kind, "setack") || text_is(&kind, "getack") {
        text_field(members, "sn")
    } else {
        None
    }
}

/// Whether the members of an object make it an event: a string `type` and a
/// string `sn`.
pub fn is_event(members: &Vec<Member>) -> (event: bool)
    ensures
        event == is_event_of(members_view(members@)),
{
    let kind = text_field(members, "type");
    let sn = text_field(members, "sn");
    kind.is_some() && sn.is_some()
}

/// The kind of an object with these members.
pub fn classify(members: &Vec<Member>) -> (kind: MESTYPE)
    ensures
        kind == kind_of(members_view(members@)),
{
    if heartbeat_sn(members).is_some() {
        MESTYPE::HEARTBEAT
    } else if ack_sn(members).is_some() {
        MESTYPE::ACK
    } else if is_event(members) {
        MESTYPE::RAWDATA
    } else {
        MESTYPE::INVALID
    }
}

/// If `msg` is a heartbeat, its serial number.
pub fn is_heartbeat(msg: &String) -> (sn: Option<String>)
    ensures
        sn is Some == (json_members(msg@) is Some && heartbeat_sn_of(json_members(msg@)->0) is Some),
        sn is Some ==> heartbeat_sn_of(json_members(msg@)->0) == Some(sn->0@),
{
    match parse_object(msg.as_str()) {
        Some(members) => heartbeat_sn(&members),
        None => None,
    }
}

/// The string `sn` member of the object that `msg` holds, if any.
pub fn parse_sn(msg: &String) -> (sn: Option<String>)
    ensures
        sn is Some == message_sn(json_members(msg@)) is Some,
        sn is Some ==> message_sn(json_members(msg@)) == Some(sn->0@),
{
    match parse_object(msg.as_str()) {
        Some(members) => text_field(&members, "sn"),
        None => None,
    }
}

/// Whether `msg` is an object with a string `type` and a string `sn`.
/// Heartbeats and acknowledgements are such objects too.
pub fn is_rawdata(msg: &String) -> (event: bool)
    ensures
        event == (json_members(msg@) is Some && is_event_of(json_members(msg@)->0)),
{
    match parse_object(msg.as_str()) {
        Some(members) => is_event(&members),
        None => false,
    }
}

/// If `msg` is an acknowledgement, its serial number.
pub fn is_ack(msg: &str) -> (sn: Option<String>)
    ensures
        sn is Some == (json_members(msg@) is Some && ack_sn_of(json_members(msg@)->0) is Some),
        sn is Some ==> ack_sn_of(json_members(msg@)->0) == Some(sn->0@),
{
    match parse_object(msg) {
        Some(members) => ack_sn(&members),
        None => None,
    }
}

/// The kind of `msg`.
pub fn parse_msg_type(msg: &String) -> (kind: MESTYPE)
    ensures
        kind == message_kind(json_members(msg@)),
{
    match parse_object(msg.as_str()) {
        Some(members) => classify(&members),
        None => MESTYPE::INVALID,
    }
}

/// A heartbeat is never classified as anything else, and every message that is
/// not invalid carries a serial number: the kinds other than `INVALID` are
/// exactly the objects with a string `type` and a string `sn`.
pub proof fn lemma_kinds_partition(members: Seq<(Seq<char>, Option<Seq<char>>)>)
    ensures
        kind_of(members) != MESTYPE::INVALID <==> is_event_of(members),
        kind_of(members) == MESTYPE::HEARTBEAT <==> heartbeat_sn_of(members) is Some,
        kind_of(members) == MESTYPE::ACK <==> ack_sn_of(members) is Some,
        heartbeat_sn_of(members) is Some ==> ack_sn_of(members) is None,
        kind_of(members) != MESTYPE::INVALID ==> text_member(members, "sn"@) is Some,
{
    reveal_strlit("ping");
    reveal_strlit("setack");
    reveal_strlit("getack");
    if text_member(members, "type"@) == Some("ping"@) {
        assert("ping"@.len() == 4);
        assert("setack"@.len() == 6);
        assert("getack"@.len() == 6);
        assert("ping"@ != "setack"@);
        assert("ping"@ != "getack"@);
    }
}

} // verus!
