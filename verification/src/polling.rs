//! A coarser reading of what a device sends, for a caller that waits on the
//! stream itself for the answer to a request: a message is a heartbeat, or
//! data, or neither. Acknowledgements are not told from other data here, and
//! data needs no serial number.

use crate::device::ReadWriteErrorCode;
pub use crate::json_wrapper::{is_heartbeat, parse_sn};
use crate::json_wrapper::{
    find_member, has_member, heartbeat_sn, heartbeat_sn_of, json_members, members_view, parse_object,
    Member,
};
use vstd::prelude::*;
use vstd::string::{StrSliceExecFns, StringSliceAdditionalSpecFns};

verus! {

/// The kind of a message, read coarsely.
#[derive(Debug, PartialEq, Eq, Structural, Clone, Copy)]
pub enum MESTYPE {
    /// A `ping` that carries the sender's serial number.
    HEARTBEAT,
    /// Any other object with a `type`.
    RAWDATA,
    /// Anything else, malformed text included.
    INVAILD,
}

/// The coarse kind of an object with these members.
pub open spec fn coarse_kind_of(members: Seq<(Seq<char>, Option<Seq<char>>)>) -> MESTYPE {
    if heartbeat_sn_of(members) is Some {
        MESTYPE::HEARTBEAT
    } else if has_member(members, "type"@) {
        MESTYPE::RAWDATA
    } else {
        MESTYPE::INVAILD
    }
}

/// The coarse kind of a message, given what parsing it returned.
pub open spec fn coarse_kind(object: Option<Seq<(Seq<char>, Option<Seq<char>>)>>) -> MESTYPE {
    match object {
        Some(members) => coarse_kind_of(members),
        None => MESTYPE::INVAILD,
    }
}

/// Whether the members of an object include a `type`, whatever it holds.
pub fn has_type(members: &Vec<Member>) -> (has: bool)
    ensures
        has == has_member(members_view(members@), "type"@),
{
    find_member(members, "type").is_some()
}

/// The coarse kind of an object with these members.
pub fn classify(members: &Vec<Member>) -> (kind: MESTYPE)
    ensures
        kind == coarse_kind_of(members_view(members@)),
{
    if heartbeat_sn(members).is_some() {
        MESTYPE::HEARTBEAT
    } else if has_type(members) {
        MESTYPE::RAWDATA
    } else {
        MESTYPE::INVAILD
    }
}

/// Whether `msg` is an object with a `type`. Heartbeats are such objects too.
pub fn is_rawdata(msg: &String) -> (data: bool)
    ensures
        data == (json_members(msg@) is Some && has_member(json_members(msg@)->0, "type"@)),
{
    match parse_object(msg.as_str()) {
        Some(members) => has_type(&members),
        None => false,
    }
}

/// The coarse kind of `msg`.
pub fn parse_msg_type(msg: &String) -> (kind: MESTYPE)
    ensures
        kind == coarse_kind(json_members(msg@)),
{
    match parse_object(msg.as_str()) {
        Some(members) => classify(&members),
        None => MESTYPE::INVAILD,
    }
}

/// The bytes to write for `line`: the line, closed with a line feed unless it
/// ends in one already.
pub fn write_line(line: &str) -> (bytes: Vec<u8>)
    requires
        line.spec_bytes().len() > 0,
    ensures
        bytes@ == if line.spec_bytes().last() == 10u8 {
            line.spec_bytes()
        } else {
            line.spec_bytes().push(10u8)
        },
{
    let mut bytes = line.as_bytes_vec();
    if bytes[bytes.len() - 1] != 10u8 {
        bytes.push(10u8);
    }
    bytes
}

/// What one read means to a caller that waits for an answer.
#[derive(Debug)]
pub enum Waited {
    /// The answer has come.
    Answer(String),
    /// A heartbeat came in between: answer it with a pong and read on.
    Pong,
    /// Something came that is no message: read on.
    Skip,
    /// The read failed: remember why and read on.
    Failed(ReadWriteErrorCode),
}

/// How often to read while waiting `timeout` seconds for an answer: twice a
/// second.
pub fn tries_for(timeout: usize) -> (tries: usize)
    ensures
        tries == if timeout * 2 <= usize::MAX {
            (timeout * 2) as usize
        } else {
            usize::MAX
        },
{
    if timeout > usize::MAX / 2 {
        usize::MAX
    } else {
        timeout * 2
    }
}

/// What the read `read` means to a caller that waits for an answer: data is the
/// answer, a heartbeat is to be answered, anything else is passed over.
pub fn readline_timeout(read: Result<String, ReadWriteErrorCode>) -> (waited: Waited)
    ensures
        match read {
            Ok(msg) => match coarse_kind(json_members(msg@)) {
                MESTYPE::HEARTBEAT => waited is Pong,
                MESTYPE::RAWDATA => waited is Answer && waited->Answer_0 == msg,
                MESTYPE::INVAILD => waited is Skip,
            },
            Err(e) => waited is Failed && waited->Failed_0 == e,
        },
{
    match read {
        Ok(msg) => match parse_msg_type(&msg) {
            MESTYPE::HEARTBEAT => Waited::Pong,
            MESTYPE::RAWDATA => Waited::Answer(msg),
            MESTYPE::INVAILD => Waited::Skip,
        },
        Err(e) => Waited::Failed(e),
    }
}

} // verus!
