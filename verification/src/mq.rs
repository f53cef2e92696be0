//! A message queue on a list of the shared store: messages are pushed at the
//! left end and popped at the right, so they leave in the order in which they
//! came.

use crate::redis_wrapper::{command, Command, Op, Reply, ReplyView};
use crate::store::Store;
use vstd::prelude::*;
use vstd::string::StringExecFns;

verus! {

/// A queue, and the list it uses where none is named.
#[derive(Debug, Clone)]
pub struct MQ {
    pub default_priority: String,
}

impl MQ {
    /// A queue on the list `p5`.
    pub fn new() -> (mq: MQ)
        ensures
            mq.default_priority@ == "p5"@,
    {
        MQ { default_priority: String::from_str("p5") }
    }

    /// Makes `p` the list that the queue uses where none is named.
    pub fn set_priority(&mut self, p: String)
        ensures
            final(self).default_priority@ == p@,
    {
        self.default_priority = p;
    }

    /// The command that pushes `msg` to the queue.
    pub fn push(&self, msg: &str) -> (c: Command)
        ensures
            c@ == command(Op::LPush, self.default_priority@, Seq::empty(), msg@),
    {
        Command::push_to_list(self.default_priority.as_str(), msg)
    }

    /// The command that pushes `msg` to the list `priority`.
    pub fn push_p(&self, priority: &str, msg: &str) -> (c: Command)
        ensures
            c@ == command(Op::LPush, priority@, Seq::empty(), msg@),
    {
        Command::push_to_list(priority, msg)
    }

    /// The command that pops a message from the queue.
    pub fn pop(&self) -> (c: Command)
        ensures
            c@ == command(Op::RPop, self.default_priority@, Seq::empty(), Seq::empty()),
    {
        Command::pop_from_list(self.default_priority.as_str())
    }

    /// The command that pops a message from the list `priority`.
    pub fn pop_p(&self, priority: &str) -> (c: Command)
        ensures
            c@ == command(Op::RPop, priority@, Seq::empty(), Seq::empty()),
    {
        Command::pop_from_list(priority)
    }

    /// The command that pops a message from the list that is named after the
    /// device `sn`.
    pub fn pop_sn(&self, sn: &String) -> (c: Command)
        ensures
            c@ == command(Op::RPop, sn@, Seq::empty(), Seq::empty()),
    {
        Command::pop_from_list(sn.as_str())
    }

    /// The command that empties the queue.
    pub fn clear(&self) -> (c: Command)
        ensures
            c@ == command(Op::DelKey, self.default_priority@, Seq::empty(), Seq::empty()),
    {
        Command::del_key(self.default_priority.as_str())
    }

    /// The command that empties the list `priority`.
    pub fn clear_p(&self, priority: &str) -> (c: Command)
        ensures
            c@ == command(Op::DelKey, priority@, Seq::empty(), Seq::empty()),
    {
        Command::del_key(priority)
    }

    /// The message in the answer to a pop: the text that came, unless nothing
    /// came or the text is empty.
    pub fn popped(reply: &Reply) -> (msg: Result<String, ()>)
        ensures
            msg is Ok == (reply@ is Text && reply@->Text_0.len() > 0),
            msg is Ok ==> reply@ == ReplyView::Text(msg->Ok_0@),
    {
        match reply.text() {
            Some(text) => {
                if text.as_str().is_empty() {
                    Err(())
                } else {
                    Ok(text)
                }
            },
            None => Err(()),
        }
    }

    /// The message in the answer to a pop that waits: the answer names the list
    /// first and the message second; an empty answer means that the wait ran
    /// out.
    pub fn bpop(answer: &Vec<String>) -> (msg: Result<String, ()>)
        requires
            answer@.len() != 1,
        ensures
            msg is Ok == (answer@.len() > 0),
            msg is Ok ==> msg->Ok_0@ == answer@[1]@,
    {
        if answer.len() > 0 {
            Ok(answer[1].clone())
        } else {
            Err(())
        }
    }
}

/// First in, first out: a message that is pushed to an empty queue is the one
/// that the next pop returns, and the queue is empty again afterwards; of two
/// messages pushed, the first is popped first.
pub proof fn lemma_queue_is_fifo(s: Store, list: Seq<char>, first: Seq<char>, second: Seq<char>, reply: ReplyView)
    requires
        s.list(list).len() == 0,
    ensures
        s.apply(command(Op::LPush, list, Seq::empty(), first)).answers(
            command(Op::RPop, list, Seq::empty(), Seq::empty()),
            reply,
        ) ==> reply == ReplyView::Text(first),
        s.apply(command(Op::LPush, list, Seq::empty(), first)).apply(
            command(Op::LPush, list, Seq::empty(), second),
        ).answers(command(Op::RPop, list, Seq::empty(), Seq::empty()), reply) ==> reply
            == ReplyView::Text(first),
        s.apply(command(Op::LPush, list, Seq::empty(), first)).apply(
            command(Op::RPop, list, Seq::empty(), Seq::empty()),
        ).list(list).len() == 0,
{
    let pop = command(Op::RPop, list, Seq::empty(), Seq::empty());
    let s1 = s.apply(command(Op::LPush, list, Seq::empty(), first));
    assert(s1.list(list) =~= seq![first]);
    let s2 = s1.apply(command(Op::LPush, list, Seq::empty(), second));
    assert(s2.list(list) =~= seq![second, first]);
    assert(s1.apply(pop).list(list) =~= Seq::<Seq<char>>::empty());
}

} // verus!
