//! What a message handler is handed: who wrote, where to answer, and the
//! correlation id of its answer; and the bot-wide source of those ids.
use vstd::prelude::*;
use crate::api::{API, SendGroupMsg, SendPrivateMsg, command_text, group_text, private_text};

verus! {

/// The context of one handler invocation for one message.
#[derive(Clone, Copy, Debug, PartialEq, Eq, Structural)]
pub struct MessageContext {
    pub user_id: i64,
    pub group_id: Option<i32>,
    pub sequence_number: usize,
}

/// The wire text of the answer `message` in the context `c`: to the group
/// where the message came from a group, else to the user.
pub open spec fn answer_text(c: MessageContext, message: Seq<char>) -> Seq<char> {
    match c.group_id {
        Some(g) => group_text(g as int, message, c.sequence_number as int),
        None => private_text(c.user_id as int, message, c.sequence_number as int),
    }
}

impl MessageContext {
    pub fn new(user_id: i64, group_id: Option<i32>, sequence_number: usize) -> (r: Self)
        ensures
            r == (MessageContext { user_id, group_id, sequence_number }),
    {
        MessageContext { user_id, group_id, sequence_number }
    }

    /// The command that answers with `message`, under this context's
    /// correlation id.
    pub fn command(&self, message: &str) -> (r: API)
        ensures
            command_text(r) == answer_text(*self, message@),
            match r {
                API::SendGroupMsg { params, echo } => self.group_id == Some(params.group_id)
                    && params.message@ == message@ && echo == self.sequence_number,
                API::SendPrivateMsg { params, echo } => self.group_id is None && params.user_id
                    == self.user_id && params.message@ == message@ && echo == self.sequence_number,
            },
    {
        match self.group_id {
            Some(group_id) => API::SendGroupMsg {
                params: SendGroupMsg { group_id, message: message.to_owned() },
                echo: self.sequence_number,
            },
            None => API::SendPrivateMsg {
                params: SendPrivateMsg { user_id: self.user_id, message: message.to_owned() },
                echo: self.sequence_number,
            },
        }
    }

    /// The wire text of the answer `message`.
    pub fn send_text(&self, message: &str) -> (r: String)
        ensures
            r@ == answer_text(*self, message@),
    {
        self.command(message).build()
    }
}

/// The source of correlation ids: each id is issued once, in increasing order.
#[derive(Debug)]
pub struct Sequence {
    next: usize,
}

/// `r` is what one issue from `before` gives, leaving `after`.
pub open spec fn issued(before: Sequence, after: Sequence, r: Option<usize>) -> bool {
    if before.next_id() < usize::MAX {
        r == Some(before.next_id() as usize) && after.next_id() == before.next_id() + 1
    } else {
        r is None && after.next_id() == before.next_id()
    }
}

/// `r` is what reserving `n` consecutive ids from `before` gives, leaving
/// `after`: the first of the block, or `None` where fewer than `n` are left.
pub open spec fn reserved(before: Sequence, after: Sequence, n: nat, r: Option<usize>) -> bool {
    if before.next_id() + n <= usize::MAX {
        r == Some(before.next_id() as usize) && after.next_id() == before.next_id() + n
    } else {
        r is None && after.next_id() == before.next_id()
    }
}

impl Sequence {
    pub closed spec fn next_id(&self) -> nat {
        self.next as nat
    }

    /// The next id is always one that a `usize` can hold.
    pub proof fn next_id_bounded(&self)
        ensures
            self.next_id() <= usize::MAX,
    {
    }

    pub fn new() -> (r: Self)
        ensures
            r.next_id() == 0,
    {
        Sequence { next: 0 }
    }

    /// How many ids are left to issue.
    pub fn remaining(&self) -> (r: usize)
        ensures
            r == usize::MAX - self.next_id(),
    {
        usize::MAX - self.next
    }

    /// Reserves the `n` ids that come next, all at once, and returns the
    /// first of them; `None`, reserving nothing, where fewer are left.
    pub fn reserve(&mut self, n: usize) -> (r: Option<usize>)
        ensures
            reserved(*old(self), *final(self), n as nat, r),
    {
        if n <= usize::MAX - self.next {
            let id = self.next;
            self.next = self.next + n;
            Some(id)
        } else {
            None
        }
    }

    /// Issues the next id; `None` once every id has been issued.
    pub fn issue(&mut self) -> (r: Option<usize>)
        ensures
            issued(*old(self), *final(self), r),
    {
        if self.next < usize::MAX {
            let id = self.next;
            self.next = self.next + 1;
            Some(id)
        } else {
            None
        }
    }
}

/// Of two blocks of ids reserved one after the other by one source, every
/// id of the second is above every id of the first.
pub proof fn reserved_blocks_increase(
    s0: Sequence,
    s1: Sequence,
    s2: Sequence,
    n1: nat,
    n2: nat,
    a: usize,
    b: usize,
)
    requires
        reserved(s0, s1, n1, Some(a)),
        reserved(s1, s2, n2, Some(b)),
    ensures
        a + n1 <= b,
{
}

/// Two ids issued one after the other by one source, on whatever sessions,
/// are strictly increasing.
pub proof fn ids_strictly_increase(s0: Sequence, s1: Sequence, s2: Sequence, a: usize, b: usize)
    requires
        issued(s0, s1, Some(a)),
        issued(s1, s2, Some(b)),
    ensures
        a < b,
{
}

} // verus!
