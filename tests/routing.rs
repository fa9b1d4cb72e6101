use lumine::bot::BotBuilder;
use lumine::context::{MessageContext, Sequence};
use lumine::dispatch::{DispatchError, Invocation};
use lumine::event::{parse, Event, Frame};
use lumine::handshake::{HandshakeCallback, Verdict};
use lumine::keyword::KeywordRuleBuilder;
use lumine::session::{receive, Action, Fault, Incoming, SessionState};
use lumine::event::ParseError;

fn rule(keywords: &[&str]) -> lumine::keyword::KeywordRule<&'static str> {
    let names = ["h0", "h1", "h2", "h3"];
    let mut b = KeywordRuleBuilder::new();
    for (i, k) in keywords.iter().enumerate() {
        b.insert(k, names[i]);
    }
    b.build().unwrap()
}

#[test]
fn same_start_prefers_first_registered() {
    let r = rule(&["a", "ab"]);
    assert_eq!(r.find("xaby"), Some(&"h0"));
    let r = rule(&["ab", "a"]);
    assert_eq!(r.find("xaby"), Some(&"h0"));
}

#[test]
fn earlier_start_wins() {
    let r = rule(&["ab", "b"]);
    assert_eq!(r.find("xaby"), Some(&"h0"));
    let r = rule(&["b", "ab"]);
    assert_eq!(r.find("xaby"), Some(&"h1"));
    assert_eq!(r.find_index("xaby"), Some(1));
}

#[test]
fn no_keyword_gives_no_match() {
    let r = rule(&["a", "ab"]);
    assert_eq!(r.find("xyz"), None);
    assert_eq!(r.find(""), None);
    let empty = rule(&[]);
    assert_eq!(empty.find("anything"), None);
}

#[test]
fn keywords_match_in_unicode_text() {
    let r = rule(&["内存", "/memory"]);
    assert_eq!(r.find("查看内存 /memory"), Some(&"h0"));
    assert_eq!(r.find("x /memory 内存"), Some(&"h1"));
}

const PRIVATE: &str = r#"{"post_type":"message","time":1,"self_id":2,
  "message_type":"private","sub_type":"friend","message_id":12,"user_id":777,
  "message":"show /memory","raw_message":"show /memory","font":0,
  "sender":{"user_id":777,"nickname":"alice"}}"#;

fn event_of(text: &str) -> Event {
    match parse(text) {
        Ok(Frame::Event(e)) => e,
        _ => panic!("expected an event"),
    }
}

#[test]
fn dispatch_runs_global_then_message_then_keyword() {
    let bot = BotBuilder::new("", "/ws")
        .on_event("G")
        .on_meta("T")
        .on_message("M")
        .on_keyword("/memory", "K")
        .build()
        .unwrap();
    let mut ids = Sequence::new();
    let plan = bot.handler.plan(&event_of(PRIVATE), &mut ids).unwrap();
    assert_eq!(
        plan,
        vec![
            Invocation::Event(0),
            Invocation::Message(0, MessageContext::new(777, None, 0)),
            Invocation::Keyword(0, MessageContext::new(777, None, 1)),
        ]
    );
    let plan = bot.handler.plan(&event_of(PRIVATE), &mut ids).unwrap();
    assert_eq!(plan[1], Invocation::Message(0, MessageContext::new(777, None, 2)));
    assert_eq!(plan[2], Invocation::Keyword(0, MessageContext::new(777, None, 3)));
}

#[test]
fn dispatch_without_keyword_match_and_other_events() {
    let bot = BotBuilder::new("", "/ws")
        .on_event("G1")
        .on_event("G2")
        .on_meta("T")
        .on_message("M")
        .on_keyword("nothing here", "K")
        .build()
        .unwrap();
    let mut ids = Sequence::new();
    let plan = bot.handler.plan(&event_of(PRIVATE), &mut ids).unwrap();
    assert_eq!(
        plan,
        vec![
            Invocation::Event(0),
            Invocation::Event(1),
            Invocation::Message(0, MessageContext::new(777, None, 0)),
        ]
    );
    let meta = event_of(r#"{"post_type":"meta_event","time":1,"self_id":2,"meta_event_type":"lifecycle","sub_type":"enable"}"#);
    assert_eq!(
        bot.handler.plan(&meta, &mut ids).unwrap(),
        vec![Invocation::Event(0), Invocation::Event(1), Invocation::Meta(0)]
    );
    let notice = event_of(r#"{"post_type":"notice","time":1,"self_id":2}"#);
    assert_eq!(
        bot.handler.plan(&notice, &mut ids).unwrap(),
        vec![Invocation::Event(0), Invocation::Event(1)]
    );
}

#[test]
fn group_message_contexts_carry_the_group() {
    let bot = BotBuilder::<u8, u8, u8>::new("", "/ws").on_message(1u8).build().unwrap();
    let text = r#"{"post_type":"message","time":1,"self_id":2,"message_type":"group",
      "sub_type":"normal","message_id":3,"group_id":55,"user_id":8,
      "message":"x","raw_message":"x","font":1,"sender":{"user_id":8,"nickname":"n"}}"#;
    let mut ids = Sequence::new();
    assert_eq!(
        bot.handler.plan(&event_of(text), &mut ids).unwrap(),
        vec![Invocation::Message(0, MessageContext::new(8, Some(55), 0))]
    );
}

#[test]
fn correlation_ids_strictly_increase() {
    let mut ids = Sequence::new();
    let a = ids.issue().unwrap();
    let b = ids.issue().unwrap();
    assert!(a < b);
    let c = ids.reserve(3).unwrap();
    let d = ids.issue().unwrap();
    assert!(b < c && c + 3 <= d);
    assert_eq!(ids.remaining(), usize::MAX - 6);
}

#[test]
fn exhausted_ids_fail_without_drawing() {
    let mut ids = Sequence::new();
    assert_eq!(ids.reserve(usize::MAX - 1), Some(0));
    assert_eq!(ids.issue(), Some(usize::MAX - 1));
    assert_eq!(ids.issue(), None);
    let bot = BotBuilder::<u8, u8, u8>::new("", "/ws").on_message(1u8).build().unwrap();
    assert_eq!(bot.handler.plan(&event_of(PRIVATE), &mut ids), Err(DispatchError::IdsExhausted));
    assert_eq!(ids.remaining(), 0);
}

#[test]
fn binary_frame_keeps_session_open() {
    let (state, action) = receive(SessionState::Open, Incoming::Binary(vec![1, 2, 3]));
    assert_eq!(state, SessionState::Open);
    assert!(matches!(action, Action::Tolerate(Fault::Protocol)));
    let (state, action) = receive(state, Incoming::Text(PRIVATE.to_string()));
    assert_eq!(state, SessionState::Open);
    assert!(matches!(action, Action::Dispatch(Event::Message { .. })));
}

#[test]
fn malformed_frame_then_valid_frame() {
    let (state, action) = receive(SessionState::Open, Incoming::Text("{not json".to_string()));
    assert_eq!(state, SessionState::Open);
    assert!(matches!(action, Action::Tolerate(Fault::Parse(ParseError::Json))));
    let (state, action) = receive(state, Incoming::Text(PRIVATE.to_string()));
    assert_eq!(state, SessionState::Open);
    assert!(matches!(action, Action::Dispatch(_)));
}

#[test]
fn control_frames() {
    let (state, action) = receive(SessionState::Open, Incoming::Ping(vec![9, 8]));
    assert_eq!(state, SessionState::Open);
    match action {
        Action::Pong(p) => assert_eq!(p, vec![9, 8]),
        _ => panic!("expected a pong"),
    }
    let (state, action) = receive(SessionState::Open, Incoming::Pong(vec![]));
    assert_eq!(state, SessionState::Open);
    assert!(matches!(action, Action::Skip));
    let (state, action) = receive(SessionState::Open, Incoming::Text(r#"{"retcode":0}"#.to_string()));
    assert_eq!(state, SessionState::Open);
    assert!(matches!(action, Action::Skip));
    let (state, action) = receive(SessionState::Open, Incoming::Close);
    assert_eq!(state, SessionState::Closing);
    assert!(matches!(action, Action::Finish));
    let (state, action) = receive(state, Incoming::Text(PRIVATE.to_string()));
    assert_eq!(state, SessionState::Closing);
    assert!(matches!(action, Action::Skip));
    let (state, action) = receive(SessionState::Open, Incoming::Failed);
    assert_eq!(state, SessionState::Closed);
    assert!(matches!(action, Action::Abort));
}

#[test]
fn handshake_verdicts() {
    let gate = HandshakeCallback::new("s3cret", "/cqhttp/ws");
    assert_eq!(gate.check("/other", Some("Bearer s3cret")), Verdict::NotFound);
    assert_eq!(gate.check("/cqhttp/ws", None), Verdict::Forbidden);
    assert_eq!(gate.check("/cqhttp/ws", Some("Bearer wrong")), Verdict::Forbidden);
    assert_eq!(gate.check("/cqhttp/ws", Some("s3cret")), Verdict::Forbidden);
    assert_eq!(gate.check("/cqhttp/ws", Some("Bearer s3cret")), Verdict::Accept);
    let open = HandshakeCallback::new("", "/ws");
    assert_eq!(open.check("/ws", None), Verdict::Accept);
    assert_eq!(open.check("/ws", Some("Basic x")), Verdict::Accept);
}
