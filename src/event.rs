//! The protocol's inbound events: a tagged union read from JSON, where the
//! tags decide which members must be there.
use vstd::prelude::*;
use crate::json::{
    JsonNode, i32_member, i64_member, member, members_of, opt_i32_member, opt_str_member, opt_view,
    str_member, str_of, read_json, read_members, read_i32_member, read_i64_member,
    read_opt_i32_member, read_opt_str_member, read_str_member, find_member, text_is,
};

verus! {

#[derive(Clone, Copy, Debug, PartialEq, Eq, Structural)]
pub enum PrivateSubType {
    Friend,
    Group,
    Other,
}

#[derive(Clone, Copy, Debug, PartialEq, Eq, Structural)]
pub enum GroupSubType {
    Normal,
    Anonymous,
    Notice,
}

#[derive(Clone, Debug)]
pub struct Anonymous {
    pub id: i64,
    pub name: String,
    pub flag: String,
}

#[derive(Clone, Copy, Debug, PartialEq, Eq, Structural)]
pub enum Sex {
    Male,
    Female,
    Unknown,
}

#[derive(Clone, Copy, Debug, PartialEq, Eq, Structural)]
pub enum Role {
    Owner,
    Admin,
    Member,
}

#[derive(Clone, Debug)]
pub struct Sender {
    pub user_id: i64,
    pub nickname: String,
    pub sex: Option<Sex>,
    pub age: Option<i32>,
    pub card: Option<String>,
    pub area: Option<String>,
    pub level: Option<String>,
    pub role: Option<Role>,
    pub title: Option<String>,
}

#[derive(Clone, Debug)]
pub enum MessageEvent {
    Private {
        sub_type: PrivateSubType,
        message_id: i32,
        user_id: i64,
        message: String,
        raw_message: String,
        font: i32,
        sender: Sender,
    },
    Group {
        sub_type: GroupSubType,
        message_id: i32,
        group_id: i32,
        user_id: i64,
        anonymous: Option<Anonymous>,
        message: String,
        raw_message: String,
        font: i32,
        sender: Sender,
    },
}

#[derive(Clone, Copy, Debug, PartialEq, Eq, Structural)]
pub enum MetaEventType {
    Lifecycle,
    Heartbeat,
}

/// A meta event. The heartbeat's `status` is kept as its JSON text.
#[derive(Clone, Debug)]
pub enum MetaEvent {
    Lifecycle { sub_type: String },
    Heartbeat { status: String, interval: i64 },
}

#[derive(Clone, Copy, Debug, PartialEq, Eq, Structural)]
pub struct EventInfo {
    pub time: i64,
    pub self_id: i64,
}

#[derive(Clone, Debug)]
pub enum Event {
    Message { info: EventInfo, event: MessageEvent },
    Notice { info: EventInfo },
    Request { info: EventInfo },
    MetaEvent { info: EventInfo, event_type: MetaEventType, event: MetaEvent },
}

/// What a text frame holds: an event pushed to us, or the reply to one of
/// our own commands (an object without `post_type`, or any other JSON value).
#[derive(Clone, Debug)]
pub enum Frame {
    Event(Event),
    Response,
}

#[derive(Clone, Copy, Debug, PartialEq, Eq, Structural)]
pub enum ParseError {
    /// The text is not a JSON document.
    Json,
    /// The document has `post_type` but is not an event of a known shape.
    Shape,
}

pub open spec fn sex_named(s: Seq<char>) -> Option<Sex> {
    if s == "male"@ {
        Some(Sex::Male)
    } else if s == "female"@ {
        Some(Sex::Female)
    } else if s == "unknown"@ {
        Some(Sex::Unknown)
    } else {
        None
    }
}

pub open spec fn role_named(s: Seq<char>) -> Option<Role> {
    if s == "owner"@ {
        Some(Role::Owner)
    } else if s == "admin"@ {
        Some(Role::Admin)
    } else if s == "member"@ {
        Some(Role::Member)
    } else {
        None
    }
}

pub open spec fn private_sub_type_named(s: Seq<char>) -> Option<PrivateSubType> {
    if s == "friend"@ {
        Some(PrivateSubType::Friend)
    } else if s == "group"@ {
        Some(PrivateSubType::Group)
    } else if s == "other"@ {
        Some(PrivateSubType::Other)
    } else {
        None
    }
}

pub open spec fn group_sub_type_named(s: Seq<char>) -> Option<GroupSubType> {
    if s == "normal"@ {
        Some(GroupSubType::Normal)
    } else if s == "anonymous"@ {
        Some(GroupSubType::Anonymous)
    } else if s == "notice"@ {
        Some(GroupSubType::Notice)
    } else {
        None
    }
}

pub open spec fn meta_event_type_named(s: Seq<char>) -> Option<MetaEventType> {
    if s == "lifecycle"@ {
        Some(MetaEventType::Lifecycle)
    } else if s == "heartbeat"@ {
        Some(MetaEventType::Heartbeat)
    } else {
        None
    }
}

/// An optional member that names a sex: `Some(None)` where absent or null.
pub open spec fn opt_sex_member(m: Seq<(String, String)>) -> Option<Option<Sex>> {
    match opt_str_member(m, "sex"@) {
        Some(None) => Some(None),
        Some(Some(s)) => match sex_named(s) {
            Some(x) => Some(Some(x)),
            None => None,
        },
        None => None,
    }
}

pub open spec fn opt_role_member(m: Seq<(String, String)>) -> Option<Option<Role>> {
    match opt_str_member(m, "role"@) {
        Some(None) => Some(None),
        Some(Some(s)) => match role_named(s) {
            Some(x) => Some(Some(x)),
            None => None,
        },
        None => None,
    }
}

/// `s` is what the JSON text `t` holds as a message's sender.
pub open spec fn sender_in(t: Seq<char>, s: Sender) -> bool {
    match members_of(t) {
        Some(m) => {
            &&& i64_member(m, "user_id"@) == Some(s.user_id)
            &&& str_member(m, "nickname"@) == Some(s.nickname@)
            &&& opt_sex_member(m) == Some(s.sex)
            &&& opt_i32_member(m, "age"@) == Some(s.age)
            &&& opt_str_member(m, "card"@) == Some(opt_view(s.card))
            &&& opt_str_member(m, "area"@) == Some(opt_view(s.area))
            &&& opt_str_member(m, "level"@) == Some(opt_view(s.level))
            &&& opt_role_member(m) == Some(s.role)
            &&& opt_str_member(m, "title"@) == Some(opt_view(s.title))
        },
        None => false,
    }
}

/// The JSON text `t` holds some sender.
pub open spec fn sender_ok(t: Seq<char>) -> bool {
    match members_of(t) {
        Some(m) => {
            &&& i64_member(m, "user_id"@) is Some
            &&& str_member(m, "nickname"@) is Some
            &&& opt_sex_member(m) is Some
            &&& opt_i32_member(m, "age"@) is Some
            &&& opt_str_member(m, "card"@) is Some
            &&& opt_str_member(m, "area"@) is Some
            &&& opt_str_member(m, "level"@) is Some
            &&& opt_role_member(m) is Some
            &&& opt_str_member(m, "title"@) is Some
        },
        None => false,
    }
}

pub open spec fn anonymous_in(t: Seq<char>, a: Anonymous) -> bool {
    match members_of(t) {
        Some(m) => {
            &&& i64_member(m, "id"@) == Some(a.id)
            &&& str_member(m, "name"@) == Some(a.name@)
            &&& str_member(m, "flag"@) == Some(a.flag@)
        },
        None => false,
    }
}

pub open spec fn anonymous_ok(t: Seq<char>) -> bool {
    match members_of(t) {
        Some(m) => {
            &&& i64_member(m, "id"@) is Some
            &&& str_member(m, "name"@) is Some
            &&& str_member(m, "flag"@) is Some
        },
        None => false,
    }
}

/// The member `anonymous` of `m` is absent or null (`a` is `None`), or
/// holds `a`.
pub open spec fn opt_anonymous_in(m: Seq<(String, String)>, a: Option<Anonymous>) -> bool {
    match member(m, "anonymous"@) {
        None => a is None,
        Some(t) => if crate::json::null_at(t) {
            a is None
        } else {
            a matches Some(x) && anonymous_in(t, x)
        },
    }
}

pub open spec fn opt_anonymous_ok(m: Seq<(String, String)>) -> bool {
    match member(m, "anonymous"@) {
        None => true,
        Some(t) => crate::json::null_at(t) || anonymous_ok(t),
    }
}

pub open spec fn sender_member_in(m: Seq<(String, String)>, s: Sender) -> bool {
    match member(m, "sender"@) {
        Some(t) => sender_in(t, s),
        None => false,
    }
}

pub open spec fn sender_member_ok(m: Seq<(String, String)>) -> bool {
    match member(m, "sender"@) {
        Some(t) => sender_ok(t),
        None => false,
    }
}

/// The tag member `key` of `m`, as a string.
pub open spec fn tag_of(m: Seq<(String, String)>, key: Seq<char>) -> Option<Seq<char>> {
    str_member(m, key)
}

/// `e` is the message event that the members `m` describe.
pub open spec fn message_in(m: Seq<(String, String)>, e: MessageEvent) -> bool {
    match e {
        MessageEvent::Private { sub_type, message_id, user_id, message, raw_message, font, sender } => {
            &&& tag_of(m, "message_type"@) == Some("private"@)
            &&& match str_member(m, "sub_type"@) {
                Some(s) => private_sub_type_named(s) == Some(sub_type),
                None => false,
            }
            &&& i32_member(m, "message_id"@) == Some(message_id)
            &&& i64_member(m, "user_id"@) == Some(user_id)
            &&& str_member(m, "message"@) == Some(message@)
            &&& str_member(m, "raw_message"@) == Some(raw_message@)
            &&& i32_member(m, "font"@) == Some(font)
            &&& sender_member_in(m, sender)
        },
        MessageEvent::Group {
            sub_type,
            message_id,
            group_id,
            user_id,
            anonymous,
            message,
            raw_message,
            font,
            sender,
        } => {
            &&& tag_of(m, "message_type"@) == Some("group"@)
            &&& match str_member(m, "sub_type"@) {
                Some(s) => group_sub_type_named(s) == Some(sub_type),
                None => false,
            }
            &&& i32_member(m, "message_id"@) == Some(message_id)
            &&& i32_member(m, "group_id"@) == Some(group_id)
            &&& i64_member(m, "user_id"@) == Some(user_id)
            &&& opt_anonymous_in(m, anonymous)
            &&& str_member(m, "message"@) == Some(message@)
            &&& str_member(m, "raw_message"@) == Some(raw_message@)
            &&& i32_member(m, "font"@) == Some(font)
            &&& sender_member_in(m, sender)
        },
    }
}

/// The members `m` describe some message event.
pub open spec fn message_ok(m: Seq<(String, String)>) -> bool {
    let sub = str_member(m, "sub_type"@);
    let common = {
        &&& i32_member(m, "message_id"@) is Some
        &&& i64_member(m, "user_id"@) is Some
        &&& str_member(m, "message"@) is Some
        &&& str_member(m, "raw_message"@) is Some
        &&& i32_member(m, "font"@) is Some
        &&& sender_member_ok(m)
    };
    if tag_of(m, "message_type"@) == Some("private"@) {
        &&& sub matches Some(s) && private_sub_type_named(s) is Some
        &&& common
    } else if tag_of(m, "message_type"@) == Some("group"@) {
        &&& sub matches Some(s) && group_sub_type_named(s) is Some
        &&& i32_member(m, "group_id"@) is Some
        &&& opt_anonymous_ok(m)
        &&& common
    } else {
        false
    }
}

pub open spec fn info_in(m: Seq<(String, String)>, info: EventInfo) -> bool {
    &&& i64_member(m, "time"@) == Some(info.time)
    &&& i64_member(m, "self_id"@) == Some(info.self_id)
}

pub open spec fn info_ok(m: Seq<(String, String)>) -> bool {
    &&& i64_member(m, "time"@) is Some
    &&& i64_member(m, "self_id"@) is Some
}

/// `e` is the meta event that the members `m` describe.
pub open spec fn meta_in(m: Seq<(String, String)>, t: MetaEventType, e: MetaEvent) -> bool {
    &&& match tag_of(m, "meta_event_type"@) {
        Some(s) => meta_event_type_named(s) == Some(t),
        None => false,
    }
    &&& match e {
        MetaEvent::Lifecycle { sub_type } => {
            &&& t == MetaEventType::Lifecycle
            &&& str_member(m, "sub_type"@) == Some(sub_type@)
        },
        MetaEvent::Heartbeat { status, interval } => {
            &&& t == MetaEventType::Heartbeat
            &&& member(m, "status"@) == Some(status@)
            &&& i64_member(m, "interval"@) == Some(interval)
        },
    }
}

pub open spec fn meta_ok(m: Seq<(String, String)>) -> bool {
    match tag_of(m, "meta_event_type"@) {
        Some(s) => if s == "lifecycle"@ {
            str_member(m, "sub_type"@) is Some
        } else if s == "heartbeat"@ {
            &&& member(m, "status"@) is Some
            &&& i64_member(m, "interval"@) is Some
        } else {
            false
        },
        None => false,
    }
}

/// `e` is the event that the members `m` describe.
pub open spec fn event_in(m: Seq<(String, String)>, e: Event) -> bool {
    match e {
        Event::Message { info, event } => {
            &&& tag_of(m, "post_type"@) == Some("message"@)
            &&& info_in(m, info)
            &&& message_in(m, event)
        },
        Event::Notice { info } => {
            &&& tag_of(m, "post_type"@) == Some("notice"@)
            &&& info_in(m, info)
        },
        Event::Request { info } => {
            &&& tag_of(m, "post_type"@) == Some("request"@)
            &&& info_in(m, info)
        },
        Event::MetaEvent { info, event_type, event } => {
            &&& tag_of(m, "post_type"@) == Some("meta_event"@)
            &&& info_in(m, info)
            &&& meta_in(m, event_type, event)
        },
    }
}

/// The members `m` describe some event.
pub open spec fn event_ok(m: Seq<(String, String)>) -> bool {
    &&& info_ok(m)
    &&& match tag_of(m, "post_type"@) {
        Some(s) => if s == "message"@ {
            message_ok(m)
        } else if s == "meta_event"@ {
            meta_ok(m)
        } else {
            s == "notice"@ || s == "request"@
        },
        None => false,
    }
}

/// The frame is an event: a JSON object with a `post_type` member.
pub open spec fn is_event_frame(text: Seq<char>) -> bool {
    members_of(text) matches Some(m) && member(m, "post_type"@) is Some
}

/// What reading the text frame `text` gives, up to the event itself:
/// `r` is the outcome that `parse` owes on `text`.
pub open spec fn parse_outcome(text: Seq<char>, r: Result<Frame, ParseError>) -> bool {
    if crate::json::json_node_of(text) is None {
        r == Err::<Frame, ParseError>(ParseError::Json)
    } else if !is_event_frame(text) {
        r matches Ok(Frame::Response)
    } else {
        let m = members_of(text)->Some_0;
        if event_ok(m) {
            r matches Ok(Frame::Event(e)) && event_in(m, e)
        } else {
            r == Err::<Frame, ParseError>(ParseError::Shape)
        }
    }
}

fn read_sex(m: &Vec<(String, String)>) -> (r: Option<Option<Sex>>)
    ensures
        r == opt_sex_member(m@),
{
    match read_opt_str_member(m, "sex") {
        None => None,
        Some(None) => Some(None),
        Some(Some(s)) => if text_is(&s, "male") {
            Some(Some(Sex::Male))
        } else if text_is(&s, "female") {
            Some(Some(Sex::Female))
        } else if text_is(&s, "unknown") {
            Some(Some(Sex::Unknown))
        } else {
            None
        },
    }
}

fn read_role(m: &Vec<(String, String)>) -> (r: Option<Option<Role>>)
    ensures
        r == opt_role_member(m@),
{
    match read_opt_str_member(m, "role") {
        None => None,
        Some(None) => Some(None),
        Some(Some(s)) => if text_is(&s, "owner") {
            Some(Some(Role::Owner))
        } else if text_is(&s, "admin") {
            Some(Some(Role::Admin))
        } else if text_is(&s, "member") {
            Some(Some(Role::Member))
        } else {
            None
        },
    }
}

/// Reads a sender from the JSON text `t`.
pub fn decode_sender(t: &str) -> (r: Option<Sender>)
    ensures
        r is Some <==> sender_ok(t@),
        r matches Some(s) ==> sender_in(t@, s),
{
    let m = read_members(t)?;
    let user_id = read_i64_member(&m, "user_id")?;
    let nickname = read_str_member(&m, "nickname")?;
    let sex = read_sex(&m)?;
    let age = read_opt_i32_member(&m, "age")?;
    let card = read_opt_str_member(&m, "card")?;
    let area = read_opt_str_member(&m, "area")?;
    let level = read_opt_str_member(&m, "level")?;
    let role = read_role(&m)?;
    let title = read_opt_str_member(&m, "title")?;
    Some(Sender { user_id, nickname, sex, age, card, area, level, role, title })
}

/// Reads an anonymous sender's marker from the JSON text `t`.
pub fn decode_anonymous(t: &str) -> (r: Option<Anonymous>)
    ensures
        r is Some <==> anonymous_ok(t@),
        r matches Some(a) ==> anonymous_in(t@, a),
{
    let m = read_members(t)?;
    let id = read_i64_member(&m, "id")?;
    let name = read_str_member(&m, "name")?;
    let flag = read_str_member(&m, "flag")?;
    Some(Anonymous { id, name, flag })
}

fn read_sender_member(m: &Vec<(String, String)>) -> (r: Option<Sender>)
    ensures
        r is Some <==> sender_member_ok(m@),
        r matches Some(s) ==> sender_member_in(m@, s),
{
    let i = find_member(m, "sender")?;
    decode_sender(m[i].1.as_str())
}

fn read_anonymous_member(m: &Vec<(String, String)>) -> (r: Option<Option<Anonymous>>)
    ensures
        r is Some <==> opt_anonymous_ok(m@),
        r matches Some(a) ==> opt_anonymous_in(m@, a),
{
    match find_member(m, "anonymous") {
        None => Some(None),
        Some(i) => match read_json(m[i].1.as_str()) {
            Some(JsonNode::Null) => Some(None),
            _ => match decode_anonymous(m[i].1.as_str()) {
                Some(a) => Some(Some(a)),
                None => None,
            },
        },
    }
}

fn read_message(m: &Vec<(String, String)>) -> (r: Option<MessageEvent>)
    ensures
        r is Some <==> message_ok(m@),
        r matches Some(e) ==> message_in(m@, e),
{
    let tag = read_str_member(m, "message_type")?;
    let sub = read_str_member(m, "sub_type")?;
    if text_is(&tag, "private") {
        let sub_type = if text_is(&sub, "friend") {
            PrivateSubType::Friend
        } else if text_is(&sub, "group") {
            PrivateSubType::Group
        } else if text_is(&sub, "other") {
            PrivateSubType::Other
        } else {
            return None;
        };
        let message_id = read_i32_member(m, "message_id")?;
        let user_id = read_i64_member(m, "user_id")?;
        let message = read_str_member(m, "message")?;
        let raw_message = read_str_member(m, "raw_message")?;
        let font = read_i32_member(m, "font")?;
        let sender = read_sender_member(m)?;
        Some(MessageEvent::Private { sub_type, message_id, user_id, message, raw_message, font, sender })
    } else if text_is(&tag, "group") {
        let sub_type = if text_is(&sub, "normal") {
            GroupSubType::Normal
        } else if text_is(&sub, "anonymous") {
            GroupSubType::Anonymous
        } else if text_is(&sub, "notice") {
            GroupSubType::Notice
        } else {
            return None;
        };
        let message_id = read_i32_member(m, "message_id")?;
        let group_id = read_i32_member(m, "group_id")?;
        let user_id = read_i64_member(m, "user_id")?;
        let anonymous = read_anonymous_member(m)?;
        let message = read_str_member(m, "message")?;
        let raw_message = read_str_member(m, "raw_message")?;
        let font = read_i32_member(m, "font")?;
        let sender = read_sender_member(m)?;
        Some(
            MessageEvent::Group {
                sub_type,
                message_id,
                group_id,
                user_id,
                anonymous,
                message,
                raw_message,
                font,
                sender,
            },
        )
    } else {
        None
    }
}

fn read_meta(m: &Vec<(String, String)>) -> (r: Option<(MetaEventType, MetaEvent)>)
    ensures
        r is Some <==> meta_ok(m@),
        r matches Some(p) ==> meta_in(m@, p.0, p.1),
{
    let tag = read_str_member(m, "meta_event_type")?;
    if text_is(&tag, "lifecycle") {
        let sub_type = read_str_member(m, "sub_type")?;
        Some((MetaEventType::Lifecycle, MetaEvent::Lifecycle { sub_type }))
    } else if text_is(&tag, "heartbeat") {
        let i = find_member(m, "status")?;
        let status = m[i].1.clone();
        let interval = read_i64_member(m, "interval")?;
        Some((MetaEventType::Heartbeat, MetaEvent::Heartbeat { status, interval }))
    } else {
        None
    }
}

/// Reads the event that the members `m` describe.
pub fn decode_event(m: &Vec<(String, String)>) -> (r: Option<Event>)
    ensures
        r is Some <==> event_ok(m@),
        r matches Some(e) ==> event_in(m@, e),
{
    let tag = read_str_member(m, "post_type")?;
    let time = read_i64_member(m, "time")?;
    let self_id = read_i64_member(m, "self_id")?;
    let info = EventInfo { time, self_id };
    proof {
        reveal_strlit("message");
        reveal_strlit("notice");
        reveal_strlit("request");
        reveal_strlit("meta_event");
        assert("meta_event"@.len() == 10);
    }
    if text_is(&tag, "message") {
        let event = read_message(m)?;
        Some(Event::Message { info, event })
    } else if text_is(&tag, "notice") {
        Some(Event::Notice { info })
    } else if text_is(&tag, "request") {
        Some(Event::Request { info })
    } else if text_is(&tag, "meta_event") {
        let (event_type, event) = read_meta(m)?;
        Some(Event::MetaEvent { info, event_type, event })
    } else {
        None
    }
}

/// Reads one inbound text frame. A JSON object with a `post_type` member is
/// an event and must have the shape its tags call for; any other JSON
/// document is the reply to an earlier command.
pub fn parse(text: &str) -> (r: Result<Frame, ParseError>)
    ensures
        parse_outcome(text@, r),
{
    match read_json(text) {
        None => Err(ParseError::Json),
        Some(JsonNode::Object(m)) => match find_member(&m, "post_type") {
            None => Ok(Frame::Response),
            Some(_) => match decode_event(&m) {
                Some(e) => Ok(Frame::Event(e)),
                None => Err(ParseError::Shape),
            },
        },
        Some(_) => Ok(Frame::Response),
    }
}

} // verus!
