//! Outbound commands and their wire text
//! `{"action": ..., "params": {...}, "echo": ...}`.
use vstd::prelude::*;
use vstd::string::*;
use crate::json::{json_quoted, quote_json};

verus! {

#[derive(Clone, Debug)]
pub struct SendPrivateMsg {
    pub user_id: i64,
    pub message: String,
}

#[derive(Clone, Debug)]
pub struct SendGroupMsg {
    pub group_id: i32,
    pub message: String,
}

/// A command, paired with its correlation id `echo`.
#[derive(Clone, Debug)]
pub enum API {
    SendPrivateMsg { params: SendPrivateMsg, echo: usize },
    SendGroupMsg { params: SendGroupMsg, echo: usize },
}

pub open spec fn digit_char(d: nat) -> char {
    if d == 0 {
        '0'
    } else if d == 1 {
        '1'
    } else if d == 2 {
        '2'
    } else if d == 3 {
        '3'
    } else if d == 4 {
        '4'
    } else if d == 5 {
        '5'
    } else if d == 6 {
        '6'
    } else if d == 7 {
        '7'
    } else if d == 8 {
        '8'
    } else {
        '9'
    }
}

/// The decimal digits of `n`, without leading zeros.
pub open spec fn decimal(n: nat) -> Seq<char>
    decreases n,
{
    if n < 10 {
        seq![digit_char(n)]
    } else {
        decimal(n / 10).push(digit_char(n % 10))
    }
}

/// An integer as JSON writes it.
pub open spec fn int_text(i: int) -> Seq<char> {
    if i < 0 {
        seq!['-'] + decimal((-i) as nat)
    } else {
        decimal(i as nat)
    }
}

/// The wire text of a private message to `user_id`.
pub open spec fn private_text(user_id: int, message: Seq<char>, echo: int) -> Seq<char> {
    "{\"action\":\"send_private_msg\",\"params\":{\"user_id\":"@ + int_text(user_id)
        + ",\"message\":"@ + json_quoted(message) + "},\"echo\":"@ + int_text(echo) + "}"@
}

/// The wire text of a message to the group `group_id`.
pub open spec fn group_text(group_id: int, message: Seq<char>, echo: int) -> Seq<char> {
    "{\"action\":\"send_group_msg\",\"params\":{\"group_id\":"@ + int_text(group_id)
        + ",\"message\":"@ + json_quoted(message) + "},\"echo\":"@ + int_text(echo) + "}"@
}

/// The wire text of a command.
pub open spec fn command_text(a: API) -> Seq<char> {
    match a {
        API::SendPrivateMsg { params, echo } => private_text(
            params.user_id as int,
            params.message@,
            echo as int,
        ),
        API::SendGroupMsg { params, echo } => group_text(
            params.group_id as int,
            params.message@,
            echo as int,
        ),
    }
}

fn digit_text(d: u64) -> (r: &'static str)
    requires
        d < 10,
    ensures
        r@ == seq![digit_char(d as nat)],
{
    proof {
        reveal_strlit("0");
        reveal_strlit("1");
        reveal_strlit("2");
        reveal_strlit("3");
        reveal_strlit("4");
        reveal_strlit("5");
        reveal_strlit("6");
        reveal_strlit("7");
        reveal_strlit("8");
        reveal_strlit("9");
    }
    if d == 0 {
        "0"
    } else if d == 1 {
        "1"
    } else if d == 2 {
        "2"
    } else if d == 3 {
        "3"
    } else if d == 4 {
        "4"
    } else if d == 5 {
        "5"
    } else if d == 6 {
        "6"
    } else if d == 7 {
        "7"
    } else if d == 8 {
        "8"
    } else {
        "9"
    }
}

/// Writes `n` in decimal.
pub fn decimal_text(n: u64) -> (r: String)
    ensures
        r@ == decimal(n as nat),
    decreases n,
{
    if n < 10 {
        digit_text(n).to_owned()
    } else {
        let mut s = decimal_text(n / 10);
        s.append(digit_text(n % 10));
        s
    }
}

/// Writes `i` as JSON writes an integer.
pub fn int_to_text(i: i64) -> (r: String)
    ensures
        r@ == int_text(i as int),
{
    if i < 0 {
        let magnitude: u64 = (-(i + 1)) as u64 + 1;
        let s = "-".to_owned();
        proof {
            reveal_strlit("-");
        }
        s.concat(decimal_text(magnitude).as_str())
    } else {
        decimal_text(i as u64)
    }
}

impl API {
    /// The command's wire text.
    pub fn build(&self) -> (r: String)
        ensures
            r@ == command_text(*self),
    {
        match self {
            API::SendPrivateMsg { params, echo } => {
                let s = "{\"action\":\"send_private_msg\",\"params\":{\"user_id\":".to_owned();
                let s = s.concat(int_to_text(params.user_id).as_str());
                let s = s.concat(",\"message\":");
                let s = s.concat(quote_json(params.message.as_str()).as_str());
                let s = s.concat("},\"echo\":");
                let s = s.concat(decimal_text(*echo as u64).as_str());
                s.concat("}")
            },
            API::SendGroupMsg { params, echo } => {
                let s = "{\"action\":\"send_group_msg\",\"params\":{\"group_id\":".to_owned();
                let s = s.concat(int_to_text(params.group_id as i64).as_str());
                let s = s.concat(",\"message\":");
                let s = s.concat(quote_json(params.message.as_str()).as_str());
                let s = s.concat("},\"echo\":");
                let s = s.concat(decimal_text(*echo as u64).as_str());
                s.concat("}")
            },
        }
    }
}

} // verus!
