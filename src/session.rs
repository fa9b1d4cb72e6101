//! The rules of one session's receive path: what each inbound frame does
//! to the session and what the session does in answer. Each session keeps
//! its own state, so nothing that one receives reaches another.
use vstd::prelude::*;
use crate::event::{Event, Frame, ParseError, parse, parse_outcome};

verus! {

/// An inbound frame, or the failure of the socket.
#[derive(Clone, Debug)]
pub enum Incoming {
    Text(String),
    Binary(Vec<u8>),
    Ping(Vec<u8>),
    Pong(Vec<u8>),
    Close,
    /// Reading from the socket failed.
    Failed,
}

#[derive(Clone, Copy, Debug, PartialEq, Eq, Structural)]
pub enum SessionState {
    Open,
    /// The peer closed the session; the send path drains what is queued.
    Closing,
    /// The socket failed.
    Closed,
}

/// A frame that the session logs and passes over.
#[derive(Clone, Copy, Debug, PartialEq, Eq, Structural)]
pub enum Fault {
    /// A text frame that is not a valid event.
    Parse(ParseError),
    /// A frame of a kind that the protocol does not use, such as binary.
    Protocol,
}

/// What the session does with a frame.
#[derive(Clone, Debug)]
pub enum Action {
    /// Hand the event to the dispatch engine.
    Dispatch(Event),
    /// Nothing to do: a reply to one of our commands, a pong, or a frame
    /// after the receive path ended.
    Skip,
    /// Queue a pong with this payload on the send path.
    Pong(Vec<u8>),
    /// Log the fault and go on with the next frame.
    Tolerate(Fault),
    /// End the receive path; the peer closed the session.
    Finish,
    /// End the session; the socket failed.
    Abort,
}

/// The session's state after frame `f` arrives in state `s`.
pub open spec fn next_state(s: SessionState, f: Incoming) -> SessionState {
    if s != SessionState::Open {
        s
    } else {
        match f {
            Incoming::Close => SessionState::Closing,
            Incoming::Failed => SessionState::Closed,
            _ => SessionState::Open,
        }
    }
}

/// The action that a parse outcome calls for.
pub open spec fn parsed_action(p: Result<Frame, ParseError>) -> Action {
    match p {
        Ok(Frame::Event(e)) => Action::Dispatch(e),
        Ok(Frame::Response) => Action::Skip,
        Err(e) => Action::Tolerate(Fault::Parse(e)),
    }
}

/// `a` is the action that frame `f` calls for in state `s`.
pub open spec fn step_action(s: SessionState, f: Incoming, a: Action) -> bool {
    if s != SessionState::Open {
        a is Skip
    } else {
        match f {
            Incoming::Text(t) => exists|p: Result<Frame, ParseError>|
                #[trigger] parse_outcome(t@, p) && a == parsed_action(p),
            Incoming::Binary(_) => a == Action::Tolerate(Fault::Protocol),
            Incoming::Ping(payload) => a matches Action::Pong(q) && q@ == payload@,
            Incoming::Pong(_) => a is Skip,
            Incoming::Close => a is Finish,
            Incoming::Failed => a is Abort,
        }
    }
}

/// The state after a run of frames from state `s`.
pub open spec fn run(s: SessionState, frames: Seq<Incoming>) -> SessionState
    decreases frames.len(),
{
    if frames.len() == 0 {
        s
    } else {
        run(next_state(s, frames[0]), frames.drop_first())
    }
}

/// A frame that the session tolerates: binary, or text that is not JSON.
pub open spec fn tolerated(f: Incoming) -> bool {
    match f {
        Incoming::Binary(_) => true,
        Incoming::Text(t) => crate::json::json_node_of(t@) is None,
        _ => false,
    }
}

/// Takes one frame in state `s`: the next state and the action.
pub fn receive(s: SessionState, f: Incoming) -> (r: (SessionState, Action))
    ensures
        r.0 == next_state(s, f),
        step_action(s, f, r.1),
{
    if s != SessionState::Open {
        return (s, Action::Skip);
    }
    match f {
        Incoming::Text(t) => {
            let p = parse(t.as_str());
            let a = match p {
                Ok(Frame::Event(e)) => Action::Dispatch(e),
                Ok(Frame::Response) => Action::Skip,
                Err(e) => Action::Tolerate(Fault::Parse(e)),
            };
            proof {
                assert(parse_outcome(t@, p) && a == parsed_action(p));
            }
            (SessionState::Open, a)
        },
        Incoming::Binary(_) => (SessionState::Open, Action::Tolerate(Fault::Protocol)),
        Incoming::Ping(payload) => (SessionState::Open, Action::Pong(payload)),
        Incoming::Pong(_) => (SessionState::Open, Action::Skip),
        Incoming::Close => (SessionState::Closing, Action::Finish),
        Incoming::Failed => (SessionState::Closed, Action::Abort),
    }
}

/// A binary frame, or a text frame that is not JSON, leaves an open session
/// open and is logged as a fault; the frames after it then take the session
/// exactly where they would have taken it without it.
pub proof fn bad_frame_is_tolerated(bad: Incoming, rest: Seq<Incoming>, a: Action)
    requires
        tolerated(bad),
        step_action(SessionState::Open, bad, a),
    ensures
        next_state(SessionState::Open, bad) == SessionState::Open,
        a is Tolerate,
        run(SessionState::Open, seq![bad] + rest) == run(SessionState::Open, rest),
{
    assert((seq![bad] + rest).drop_first() =~= rest);
    if let Incoming::Text(t) = bad {
        let p = choose|p: Result<Frame, ParseError>| #[trigger] parse_outcome(t@, p) && a == parsed_action(p);
        assert(p == Err::<Frame, ParseError>(ParseError::Json));
    }
}

/// The states of several sessions after a run of frames, each frame tagged
/// with the session that received it.
pub open spec fn run_sessions(states: Seq<SessionState>, frames: Seq<(int, Incoming)>) -> Seq<SessionState>
    decreases frames.len(),
{
    if frames.len() == 0 {
        states
    } else {
        let k = frames[0].0;
        let next = if 0 <= k < states.len() {
            states.update(k, next_state(states[k], frames[0].1))
        } else {
            states
        };
        run_sessions(next, frames.drop_first())
    }
}

/// The frames that session `k` received, in order.
pub open spec fn frames_of(frames: Seq<(int, Incoming)>, k: int) -> Seq<Incoming>
    decreases frames.len(),
{
    if frames.len() == 0 {
        Seq::empty()
    } else {
        (if frames[0].0 == k {
            seq![frames[0].1]
        } else {
            Seq::<Incoming>::empty()
        }) + frames_of(frames.drop_first(), k)
    }
}

proof fn frames_of_concat(a: Seq<(int, Incoming)>, b: Seq<(int, Incoming)>, k: int)
    ensures
        frames_of(a + b, k) == frames_of(a, k) + frames_of(b, k),
    decreases a.len(),
{
    if a.len() == 0 {
        assert(a + b =~= b);
        assert(frames_of(a, k) + frames_of(b, k) =~= frames_of(b, k));
    } else {
        assert((a + b).drop_first() =~= a.drop_first() + b);
        frames_of_concat(a.drop_first(), b, k);
        assert((a + b)[0] == a[0]);
        let h = if a[0].0 == k {
            seq![a[0].1]
        } else {
            Seq::<Incoming>::empty()
        };
        assert(h + (frames_of(a.drop_first(), k) + frames_of(b, k)) =~= (h + frames_of(
            a.drop_first(),
            k,
        )) + frames_of(b, k));
    }
}

/// Sessions run side by side do not interfere: each session ends in the
/// state that its own frames alone take it to, whatever the others receive.
pub proof fn sessions_are_independent(states: Seq<SessionState>, frames: Seq<(int, Incoming)>, k: int)
    requires
        0 <= k < states.len(),
    ensures
        run_sessions(states, frames).len() == states.len(),
        run_sessions(states, frames)[k] == run(states[k], frames_of(frames, k)),
    decreases frames.len(),
{
    if frames.len() > 0 {
        let j = frames[0].0;
        let next = if 0 <= j < states.len() {
            states.update(j, next_state(states[j], frames[0].1))
        } else {
            states
        };
        sessions_are_independent(next, frames.drop_first(), k);
        let rest = frames_of(frames.drop_first(), k);
        if j == k {
            assert((seq![frames[0].1] + rest).drop_first() =~= rest);
        } else {
            assert(Seq::<Incoming>::empty() + rest =~= rest);
        }
    }
}

/// A frame that one session receives, a binary one among them, leaves
/// every other session in the state it would have reached without it.
pub proof fn other_sessions_unaffected(
    states: Seq<SessionState>,
    before: Seq<(int, Incoming)>,
    after: Seq<(int, Incoming)>,
    j: int,
    f: Incoming,
    k: int,
)
    requires
        0 <= k < states.len(),
        j != k,
    ensures
        run_sessions(states, before + seq![(j, f)] + after)[k] == run_sessions(states, before + after)[k],
{
    sessions_are_independent(states, before + seq![(j, f)] + after, k);
    sessions_are_independent(states, before + after, k);
    frames_of_concat(before + seq![(j, f)], after, k);
    frames_of_concat(before, seq![(j, f)], k);
    frames_of_concat(before, after, k);
    frames_of_concat(seq![(j, f)], Seq::<(int, Incoming)>::empty(), k);
    assert(seq![(j, f)] + Seq::<(int, Incoming)>::empty() =~= seq![(j, f)]);
    assert(seq![(j, f)].drop_first() =~= Seq::<(int, Incoming)>::empty());
    assert(frames_of(seq![(j, f)], k) =~= Seq::<Incoming>::empty());
    assert(frames_of(before, k) + Seq::<Incoming>::empty() =~= frames_of(before, k));
}

/// Only a close frame or a socket failure ends an open session.
pub proof fn only_close_or_failure_ends(s: SessionState, f: Incoming)
    requires
        s == SessionState::Open,
        next_state(s, f) != SessionState::Open,
    ensures
        f is Close || f is Failed,
{
}

} // verus!
