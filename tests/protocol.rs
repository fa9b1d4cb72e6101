use lumine::api::{decimal_text, int_to_text, SendGroupMsg, SendPrivateMsg, API};
use lumine::context::MessageContext;
use lumine::event::{
    parse, Event, Frame, GroupSubType, MessageEvent, MetaEvent, MetaEventType, ParseError,
    PrivateSubType, Role, Sex,
};
use lumine::segment::MessageSegment;

fn json_eq(a: &str, b: &str) -> bool {
    let x: serde_json::Value = serde_json::from_str(a).unwrap();
    let y: serde_json::Value = serde_json::from_str(b).unwrap();
    x == y
}

#[test]
fn build_private_message_round_trip() {
    let api = API::SendPrivateMsg {
        params: SendPrivateMsg { user_id: 10001000, message: "hi".to_string() },
        echo: 1,
    };
    let text = api.build();
    assert_eq!(
        text,
        r#"{"action":"send_private_msg","params":{"user_id":10001000,"message":"hi"},"echo":1}"#
    );
    assert!(json_eq(
        &text,
        r#"{"echo":1,"params":{"message":"hi","user_id":10001000},"action":"send_private_msg"}"#
    ));
}

#[test]
fn build_group_message_escapes_text() {
    let api = API::SendGroupMsg {
        params: SendGroupMsg { group_id: -42, message: "say \"hi\"\n".to_string() },
        echo: 18446744073709551615,
    };
    assert_eq!(
        api.build(),
        r#"{"action":"send_group_msg","params":{"group_id":-42,"message":"say \"hi\"\n"},"echo":18446744073709551615}"#
    );
}

#[test]
fn integers_are_written_in_decimal() {
    assert_eq!(decimal_text(0), "0");
    assert_eq!(decimal_text(907), "907");
    assert_eq!(int_to_text(-7), "-7");
    assert_eq!(int_to_text(i64::MIN), "-9223372036854775808");
    assert_eq!(int_to_text(i64::MAX), "9223372036854775807");
}

#[test]
fn context_answers_where_the_message_came_from() {
    let private = MessageContext::new(5, None, 3);
    assert_eq!(
        private.send_text("ok"),
        r#"{"action":"send_private_msg","params":{"user_id":5,"message":"ok"},"echo":3}"#
    );
    let group = MessageContext::new(5, Some(77), 4);
    assert_eq!(
        group.send_text("ok"),
        r#"{"action":"send_group_msg","params":{"group_id":77,"message":"ok"},"echo":4}"#
    );
}

const PRIVATE: &str = r#"{"post_type":"message","time":1700000000,"self_id":42,
  "message_type":"private","sub_type":"friend","message_id":12,"user_id":10001000,
  "message":"hello /memory","raw_message":"hello /memory","font":0,
  "sender":{"user_id":10001000,"nickname":"alice","sex":"female","age":20}}"#;

#[test]
fn parses_private_message() {
    match parse(PRIVATE) {
        Ok(Frame::Event(Event::Message { info, event })) => {
            assert_eq!(info.time, 1700000000);
            assert_eq!(info.self_id, 42);
            match event {
                MessageEvent::Private { sub_type, message_id, user_id, message, font, sender, .. } => {
                    assert_eq!(sub_type, PrivateSubType::Friend);
                    assert_eq!(message_id, 12);
                    assert_eq!(user_id, 10001000);
                    assert_eq!(message, "hello /memory");
                    assert_eq!(font, 0);
                    assert_eq!(sender.nickname, "alice");
                    assert_eq!(sender.sex, Some(Sex::Female));
                    assert_eq!(sender.age, Some(20));
                    assert_eq!(sender.role, None);
                    assert_eq!(sender.card, None);
                }
                _ => panic!("expected a private message"),
            }
        }
        _ => panic!("expected a message event"),
    }
}

#[test]
fn parses_group_message_with_anonymous_sender() {
    let text = r#"{"post_type":"message","time":1,"self_id":2,"message_type":"group",
      "sub_type":"anonymous","message_id":-3,"group_id":123,"user_id":80000000,
      "anonymous":{"id":9,"name":"ghost","flag":"f"},"message":"x","raw_message":"x","font":1,
      "sender":{"user_id":80000000,"nickname":"n","role":"admin","card":null,"title":"t"}}"#;
    match parse(text) {
        Ok(Frame::Event(Event::Message { event: MessageEvent::Group { sub_type, group_id, anonymous, sender, message_id, .. }, .. })) => {
            assert_eq!(sub_type, GroupSubType::Anonymous);
            assert_eq!(group_id, 123);
            assert_eq!(message_id, -3);
            let a = anonymous.expect("anonymous marker");
            assert_eq!(a.id, 9);
            assert_eq!(a.name, "ghost");
            assert_eq!(sender.role, Some(Role::Admin));
            assert_eq!(sender.card, None);
            assert_eq!(sender.title, Some("t".to_string()));
        }
        _ => panic!("expected a group message"),
    }
}

#[test]
fn parses_group_message_with_null_anonymous() {
    let text = r#"{"post_type":"message","time":1,"self_id":2,"message_type":"group",
      "sub_type":"normal","message_id":3,"group_id":123,"user_id":8,"anonymous":null,
      "message":"x","raw_message":"x","font":1,"sender":{"user_id":8,"nickname":"n"}}"#;
    match parse(text) {
        Ok(Frame::Event(Event::Message { event: MessageEvent::Group { anonymous, .. }, .. })) => {
            assert!(anonymous.is_none());
        }
        _ => panic!("expected a group message"),
    }
}

#[test]
fn parses_meta_events() {
    let life = r#"{"post_type":"meta_event","time":5,"self_id":6,"meta_event_type":"lifecycle","sub_type":"connect"}"#;
    match parse(life) {
        Ok(Frame::Event(Event::MetaEvent { event_type, event: MetaEvent::Lifecycle { sub_type }, .. })) => {
            assert_eq!(event_type, MetaEventType::Lifecycle);
            assert_eq!(sub_type, "connect");
        }
        _ => panic!("expected a lifecycle event"),
    }
    let beat = r#"{"post_type":"meta_event","time":5,"self_id":6,"meta_event_type":"heartbeat","status":{"good":true},"interval":5000}"#;
    match parse(beat) {
        Ok(Frame::Event(Event::MetaEvent { event_type, event: MetaEvent::Heartbeat { status, interval }, .. })) => {
            assert_eq!(event_type, MetaEventType::Heartbeat);
            assert_eq!(interval, 5000);
            assert!(json_eq(&status, r#"{"good":true}"#));
        }
        _ => panic!("expected a heartbeat"),
    }
}

#[test]
fn parses_notice_and_request() {
    assert!(matches!(
        parse(r#"{"post_type":"notice","time":1,"self_id":2,"notice_type":"x"}"#),
        Ok(Frame::Event(Event::Notice { .. }))
    ));
    assert!(matches!(
        parse(r#"{"post_type":"request","time":1,"self_id":2}"#),
        Ok(Frame::Event(Event::Request { .. }))
    ));
}

#[test]
fn frames_without_post_type_are_responses() {
    assert!(matches!(parse(r#"{"status":"ok","retcode":0,"echo":1}"#), Ok(Frame::Response)));
    assert!(matches!(parse("[1,2]"), Ok(Frame::Response)));
}

#[test]
fn malformed_json_is_a_parse_error() {
    assert!(matches!(parse("{\"post_type\":"), Err(ParseError::Json)));
    assert!(matches!(parse(""), Err(ParseError::Json)));
}

#[test]
fn wrong_shapes_are_parse_errors() {
    assert!(matches!(parse(r#"{"post_type":"unknown","time":1,"self_id":2}"#), Err(ParseError::Shape)));
    assert!(matches!(parse(r#"{"post_type":"notice","time":1}"#), Err(ParseError::Shape)));
    assert!(matches!(parse(r#"{"post_type":null,"time":1,"self_id":2}"#), Err(ParseError::Shape)));
    let big_font = PRIVATE.replace("\"font\":0", "\"font\":3000000000");
    assert!(matches!(parse(&big_font), Err(ParseError::Shape)));
    let bad_sex = PRIVATE.replace("\"female\"", "\"other\"");
    assert!(matches!(parse(&bad_sex), Err(ParseError::Shape)));
    let no_sender = r#"{"post_type":"message","time":1,"self_id":2,"message_type":"private","sub_type":"friend","message_id":1,"user_id":1,"message":"m","raw_message":"m","font":0}"#;
    assert!(matches!(parse(no_sender), Err(ParseError::Shape)));
}

#[test]
fn segments_render_as_cq_codes() {
    assert_eq!(MessageSegment::Text { text: "plain".to_string() }.to_text(), "plain");
    assert_eq!(MessageSegment::Image { file: "a.png".to_string() }.to_text(), "[CQ:image,file=a.png]");
    assert_eq!(MessageSegment::Face { id: "14".to_string() }.to_text(), "[CQ:face,id=14]");
    assert_eq!(
        MessageSegment::Poke { id: "123".to_string(), name: "qaq".to_string() }.to_text(),
        "[CQ:poke,id=123,name=qaq]"
    );
    assert_eq!(
        MessageSegment::Share {
            url: "u".to_string(),
            title: "t".to_string(),
            content: "c".to_string(),
            image: "i".to_string()
        }
        .to_text(),
        "[CQ:share,url=u,title=t,content=c,image=i]"
    );
}

#[test]
fn control_characters_are_escaped() {
    let api = API::SendPrivateMsg {
        params: SendPrivateMsg { user_id: 1, message: "a\u{1}\t\u{8}\u{c}\r\\/é\u{1f}".to_string() },
        echo: 0,
    };
    assert_eq!(
        api.build(),
        "{\"action\":\"send_private_msg\",\"params\":{\"user_id\":1,\"message\":\"a\\u0001\\t\\b\\f\\r\\\\/é\\u001f\"},\"echo\":0}"
    );
}
