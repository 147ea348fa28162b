//! OneBot events: messages, lifecycle and heartbeat meta events, and
//! notices, decoded from their JSON form with tolerant id handling.

use vstd::prelude::*;

verus! {

use crate::common::ChatType;
use crate::onebot::protocol::json::{
    JsonVal, JsonValue, spec_get, spec_str_field, spec_opt_str_field, spec_id_field,
    spec_opt_id_field, spec_req_opt_id_field, spec_int_field, spec_bool_field,
    spec_opt_bool_field, str_field, opt_str_field, id_field, opt_id_field, req_opt_id_field,
    int_field, bool_field, opt_bool_field,
};
use crate::onebot::protocol::segment::{
    Segment, SegView, opt_text, seg_views, spec_decode_segments, decode_segments,
};
use crate::text::str_eq;

/// A OneBot event, discriminated by `post_type`.
#[derive(Debug)]
pub enum Event {
    /// A message received by the bot.
    Message(MessageEvent),
    /// A message the bot account itself sent.
    MessageSent(MessageEvent),
    Meta(MetaEvent),
    Notice(NoticeEvent),
    Request(RequestEvent),
}

/// Request events carry no decodable variant: a `request` payload never
/// decodes, matching the adapters this server accepts.
#[derive(Debug, Clone)]
pub struct RequestEvent {
    pub sub_type: String,
}

#[derive(Debug)]
pub struct MessageEvent {
    pub time: i64,
    pub self_id: String,
    /// `private` or `group`.
    pub message_type: String,
    pub sub_type: String,
    pub message_id: String,
    pub group_id: Option<String>,
    pub user_id: String,
    /// For private `message_sent`, the peer's id.
    pub target_id: Option<String>,
    pub message: Vec<Segment>,
    pub anonymous: Option<Anonymous>,
    pub sender: Sender,
}

#[derive(Debug, Clone)]
pub struct Sender {
    pub user_id: String,
    pub nickname: String,
    pub card: Option<String>,
    pub role: Option<String>,
}

#[derive(Debug, Clone)]
pub struct Anonymous {
    pub id: String,
    pub name: String,
    pub flag: String,
}

#[derive(Debug, Clone)]
pub enum MetaEvent {
    Lifecycle(LifecycleEvent),
    Heartbeat(HeartbeatEvent),
}

#[derive(Debug, Clone)]
pub struct LifecycleEvent {
    pub time: i64,
    pub self_id: String,
    /// `enable`, `disable` or `connect`.
    pub sub_type: String,
}

#[derive(Debug, Clone)]
pub struct HeartbeatEvent {
    pub time: i64,
    pub self_id: String,
    pub status: Status,
    pub interval: i64,
}

#[derive(Debug, Clone)]
pub struct Status {
    pub online: Option<bool>,
    pub good: bool,
}

#[derive(Debug, Clone)]
pub enum NoticeEvent {
    FriendRecall(FriendRecallEvent),
    GroupRecall(GroupRecallEvent),
    Notify(NotifyEvent),
    GroupUpload(GroupUploadEvent),
    GroupAdmin(GroupAdminEvent),
    GroupDecrease(GroupDecreaseEvent),
    GroupIncrease(GroupIncreaseEvent),
    GroupCard(GroupCardEvent),
}

#[derive(Debug, Clone)]
pub struct FriendRecallEvent {
    pub time: i64,
    pub self_id: String,
    pub message_id: String,
    pub user_id: String,
}

#[derive(Debug, Clone)]
pub struct GroupRecallEvent {
    pub time: i64,
    pub self_id: String,
    pub message_id: String,
    pub user_id: String,
    pub group_id: String,
    pub operator_id: String,
}

#[derive(Debug, Clone)]
pub struct NotifyEvent {
    pub time: i64,
    pub self_id: String,
    pub sub_type: String,
    pub user_id: Option<String>,
    pub group_id: Option<String>,
}

#[derive(Debug, Clone)]
pub struct GroupUploadEvent {
    pub time: i64,
    pub self_id: String,
    pub user_id: String,
    pub group_id: String,
}

#[derive(Debug, Clone)]
pub struct GroupAdminEvent {
    pub time: i64,
    pub self_id: String,
    pub group_id: String,
    pub user_id: String,
}

#[derive(Debug, Clone)]
pub struct GroupDecreaseEvent {
    pub time: i64,
    pub self_id: String,
    pub group_id: String,
    pub user_id: String,
}

#[derive(Debug, Clone)]
pub struct GroupIncreaseEvent {
    pub time: i64,
    pub self_id: String,
    pub group_id: String,
    pub user_id: String,
}

#[derive(Debug, Clone)]
pub struct GroupCardEvent {
    pub time: i64,
    pub self_id: String,
    pub user_id: String,
    pub group_id: String,
    pub card_old: String,
    pub card_new: String,
}

// ---------- views ----------

pub struct SenderView {
    pub user_id: Seq<char>,
    pub nickname: Seq<char>,
    pub card: Option<Seq<char>>,
    pub role: Option<Seq<char>>,
}

impl View for Sender {
    type V = SenderView;

    open spec fn view(&self) -> SenderView {
        SenderView {
            user_id: self.user_id@,
            nickname: self.nickname@,
            card: opt_text(self.card),
            role: opt_text(self.role),
        }
    }
}

pub struct AnonymousView {
    pub id: Seq<char>,
    pub name: Seq<char>,
    pub flag: Seq<char>,
}

impl View for Anonymous {
    type V = AnonymousView;

    open spec fn view(&self) -> AnonymousView {
        AnonymousView { id: self.id@, name: self.name@, flag: self.flag@ }
    }
}

pub struct MessageEventView {
    pub time: int,
    pub self_id: Seq<char>,
    pub message_type: Seq<char>,
    pub sub_type: Seq<char>,
    pub message_id: Seq<char>,
    pub group_id: Option<Seq<char>>,
    pub user_id: Seq<char>,
    pub target_id: Option<Seq<char>>,
    pub message: Seq<SegView>,
    pub anonymous: Option<AnonymousView>,
    pub sender: SenderView,
}

impl View for MessageEvent {
    type V = MessageEventView;

    open spec fn view(&self) -> MessageEventView {
        MessageEventView {
            time: self.time as int,
            self_id: self.self_id@,
            message_type: self.message_type@,
            sub_type: self.sub_type@,
            message_id: self.message_id@,
            group_id: opt_text(self.group_id),
            user_id: self.user_id@,
            target_id: opt_text(self.target_id),
            message: seg_views(self.message@),
            anonymous: match &self.anonymous {
                Some(a) => Some(a@),
                None => None,
            },
            sender: self.sender@,
        }
    }
}

// ---------- decoding ----------

pub open spec fn spec_decode_sender(v: JsonVal) -> Option<SenderView> {
    match (
        spec_id_field(v, "user_id"@),
        spec_str_field(v, "nickname"@),
        spec_opt_str_field(v, "card"@),
        spec_opt_str_field(v, "role"@),
    ) {
        (Some(user_id), Some(nickname), Ok(card), Ok(role)) => Some(
            SenderView { user_id, nickname, card, role },
        ),
        _ => None,
    }
}

pub fn decode_sender(v: &JsonValue) -> (r: Option<Sender>)
    ensures
        match r {
            Some(s) => spec_decode_sender(v@) == Some(s@),
            None => spec_decode_sender(v@) is None,
        },
{
    match (
        id_field(v, "user_id"),
        str_field(v, "nickname"),
        opt_str_field(v, "card"),
        opt_str_field(v, "role"),
    ) {
        (Some(user_id), Some(nickname), Ok(card), Ok(role)) => Some(
            Sender { user_id, nickname, card, role },
        ),
        _ => None,
    }
}

pub open spec fn spec_decode_anonymous(v: JsonVal) -> Option<AnonymousView> {
    match (
        spec_id_field(v, "id"@),
        spec_str_field(v, "name"@),
        spec_str_field(v, "flag"@),
    ) {
        (Some(id), Some(name), Some(flag)) => Some(AnonymousView { id, name, flag }),
        _ => None,
    }
}

pub fn decode_anonymous(v: &JsonValue) -> (r: Option<Anonymous>)
    ensures
        match r {
            Some(a) => spec_decode_anonymous(v@) == Some(a@),
            None => spec_decode_anonymous(v@) is None,
        },
{
    match (id_field(v, "id"), str_field(v, "name"), str_field(v, "flag")) {
        (Some(id), Some(name), Some(flag)) => Some(Anonymous { id, name, flag }),
        _ => None,
    }
}

/// The optional `anonymous` object: absent or `null` stays absent.
pub open spec fn spec_decode_opt_anonymous(v: JsonVal) -> Result<Option<AnonymousView>, ()> {
    match spec_get(v, "anonymous"@) {
        None => Ok(None),
        Some(JsonVal::Null) => Ok(None),
        Some(f) => match spec_decode_anonymous(f) {
            Some(a) => Ok(Some(a)),
            None => Err(()),
        },
    }
}

fn decode_opt_anonymous(v: &JsonValue) -> (r: Result<Option<Anonymous>, ()>)
    ensures
        match r {
            Ok(Some(a)) => spec_decode_opt_anonymous(v@) == Ok::<Option<AnonymousView>, ()>(
                Some(a@),
            ),
            Ok(None) => spec_decode_opt_anonymous(v@) == Ok::<Option<AnonymousView>, ()>(
                None::<AnonymousView>,
            ),
            Err(()) => spec_decode_opt_anonymous(v@) is Err,
        },
{
    match v.get("anonymous") {
        None => Ok(None),
        Some(f) => {
            if f.is_null() {
                Ok(None)
            } else {
                match decode_anonymous(f) {
                    Some(a) => Ok(Some(a)),
                    None => Err(()),
                }
            }
        },
    }
}

/// What a message event decodes to: every id field accepts number or
/// string, `group_id` and `target_id` may be absent, the segment list and
/// the sender must decode.
pub open spec fn spec_decode_message_event(v: JsonVal) -> Option<MessageEventView> {
    match (
        spec_int_field(v, "time"@),
        spec_id_field(v, "self_id"@),
        spec_str_field(v, "message_type"@),
        spec_str_field(v, "sub_type"@),
        spec_id_field(v, "message_id"@),
        spec_opt_id_field(v, "group_id"@),
        spec_id_field(v, "user_id"@),
        spec_opt_id_field(v, "target_id"@),
    ) {
        (
            Some(time),
            Some(self_id),
            Some(message_type),
            Some(sub_type),
            Some(message_id),
            Ok(group_id),
            Some(user_id),
            Ok(target_id),
        ) => {
            match (spec_get(v, "message"@), spec_get(v, "sender"@)) {
                (Some(JsonVal::Array(items)), Some(sender_json)) => {
                    match (spec_decode_segments(items), spec_decode_sender(sender_json)) {
                        (Some(message), Some(sender)) => {
                            match spec_decode_opt_anonymous(v) {
                                Ok(anonymous) => Some(
                                    MessageEventView {
                                        time,
                                        self_id,
                                        message_type,
                                        sub_type,
                                        message_id,
                                        group_id,
                                        user_id,
                                        target_id,
                                        message,
                                        anonymous,
                                        sender,
                                    },
                                ),
                                Err(_) => None,
                            }
                        },
                        _ => None,
                    }
                },
                _ => None,
            }
        },
        _ => None,
    }
}


/// The decoder cannot tell a numeric id from its decimal text: replacing
/// a message event's `user_id` number with the same number written as a
/// string decodes to the very same normalized event.
pub proof fn lemma_numeric_id_tolerance(fields: Seq<(Seq<char>, JsonVal)>, k: int, n: i64)
    requires
        0 <= k < fields.len(),
        fields[k].0 == "user_id"@,
        fields[k].1 == JsonVal::Int(n as int),
        forall|j: int| 0 <= j < k ==> (#[trigger] fields[j]).0 != "user_id"@,
    ensures
        spec_decode_message_event(JsonVal::Object(fields)) == spec_decode_message_event(
            JsonVal::Object(
                fields.update(k, ("user_id"@, JsonVal::Text(crate::text::dec_int(n as int)))),
            ),
        ),
{
    let v1 = JsonVal::Object(fields);
    let updated = fields.update(k, ("user_id"@, JsonVal::Text(crate::text::dec_int(n as int))));
    let v2 = JsonVal::Object(updated);
    crate::onebot::protocol::json::lemma_obj_lookup_at(fields, k);
    crate::onebot::protocol::json::lemma_obj_lookup_update(
        fields,
        k,
        JsonVal::Text(crate::text::dec_int(n as int)),
    );
    assert(spec_get(v1, "user_id"@) == Some(JsonVal::Int(n as int)));
    assert(spec_get(v2, "user_id"@) == Some(JsonVal::Text(crate::text::dec_int(n as int))));
    assert(spec_id_field(v1, "user_id"@) == Some(crate::text::dec_int(n as int)));
    assert(spec_id_field(v2, "user_id"@) == Some(crate::text::dec_int(n as int)));
    reveal_strlit("user_id");
    reveal_strlit("time");
    reveal_strlit("self_id");
    reveal_strlit("message_type");
    reveal_strlit("sub_type");
    reveal_strlit("message_id");
    reveal_strlit("group_id");
    reveal_strlit("target_id");
    reveal_strlit("message");
    reveal_strlit("sender");
    reveal_strlit("anonymous");
    assert("time"@ != "user_id"@) by {
        assert("time"@.len() == 4 && "user_id"@.len() == 7);
    }
    assert("self_id"@ != "user_id"@) by {
        assert("self_id"@[0] == 's' && "user_id"@[0] == 'u');
    }
    assert("message_type"@ != "user_id"@) by {
        assert("message_type"@.len() == 12 && "user_id"@.len() == 7);
    }
    assert("sub_type"@ != "user_id"@) by {
        assert("sub_type"@.len() == 8);
    }
    assert("message_id"@ != "user_id"@) by {
        assert("message_id"@.len() == 10);
    }
    assert("group_id"@ != "user_id"@) by {
        assert("group_id"@.len() == 8);
    }
    assert("target_id"@ != "user_id"@) by {
        assert("target_id"@.len() == 9);
    }
    assert("message"@ != "user_id"@) by {
        assert("message"@[0] == 'm' && "user_id"@[0] == 'u');
    }
    assert("sender"@ != "user_id"@) by {
        assert("sender"@.len() == 6);
    }
    assert("anonymous"@ != "user_id"@) by {
        assert("anonymous"@.len() == 9);
    }
    assert(spec_get(v1, "time"@) == spec_get(v2, "time"@));
    assert(spec_get(v1, "self_id"@) == spec_get(v2, "self_id"@));
    assert(spec_get(v1, "message_type"@) == spec_get(v2, "message_type"@));
    assert(spec_get(v1, "sub_type"@) == spec_get(v2, "sub_type"@));
    assert(spec_get(v1, "message_id"@) == spec_get(v2, "message_id"@));
    assert(spec_get(v1, "group_id"@) == spec_get(v2, "group_id"@));
    assert(spec_get(v1, "target_id"@) == spec_get(v2, "target_id"@));
    assert(spec_get(v1, "message"@) == spec_get(v2, "message"@));
    assert(spec_get(v1, "sender"@) == spec_get(v2, "sender"@));
    assert(spec_get(v1, "anonymous"@) == spec_get(v2, "anonymous"@));
    assert(spec_int_field(v1, "time"@) == spec_int_field(v2, "time"@));
    assert(spec_id_field(v1, "self_id"@) == spec_id_field(v2, "self_id"@));
    assert(spec_str_field(v1, "message_type"@) == spec_str_field(v2, "message_type"@));
    assert(spec_str_field(v1, "sub_type"@) == spec_str_field(v2, "sub_type"@));
    assert(spec_id_field(v1, "message_id"@) == spec_id_field(v2, "message_id"@));
    assert(spec_opt_id_field(v1, "group_id"@) == spec_opt_id_field(v2, "group_id"@));
    assert(spec_opt_id_field(v1, "target_id"@) == spec_opt_id_field(v2, "target_id"@));
    assert(spec_decode_opt_anonymous(v1) == spec_decode_opt_anonymous(v2));
    assert(spec_decode_message_event(v1) == spec_decode_message_event(v2));
}

pub fn decode_message_event(v: &JsonValue) -> (r: Option<MessageEvent>)
    ensures
        match r {
            Some(e) => spec_decode_message_event(v@) == Some(e@),
            None => spec_decode_message_event(v@) is None,
        },
{
    match (
        int_field(v, "time"),
        id_field(v, "self_id"),
        str_field(v, "message_type"),
        str_field(v, "sub_type"),
        id_field(v, "message_id"),
        opt_id_field(v, "group_id"),
        id_field(v, "user_id"),
        opt_id_field(v, "target_id"),
    ) {
        (
            Some(time),
            Some(self_id),
            Some(message_type),
            Some(sub_type),
            Some(message_id),
            Ok(group_id),
            Some(user_id),
            Ok(target_id),
        ) => {
            let items = match v.get("message") {
                Some(f) => match f {
                    JsonValue::Array(items) => items,
                    _ => {
                        return None;
                    },
                },
                None => {
                    return None;
                },
            };
            let sender_json = match v.get("sender") {
                Some(f) => f,
                None => {
                    return None;
                },
            };
            match (decode_segments(items), decode_sender(sender_json)) {
                (Some(message), Some(sender)) => {
                    match decode_opt_anonymous(v) {
                        Ok(anonymous) => Some(
                            MessageEvent {
                                time,
                                self_id,
                                message_type,
                                sub_type,
                                message_id,
                                group_id,
                                user_id,
                                target_id,
                                message,
                                anonymous,
                                sender,
                            },
                        ),
                        Err(()) => None,
                    }
                },
                _ => None,
            }
        },
        _ => None,
    }
}

// ---------- meta and notice decoding ----------

pub open spec fn spec_decode_lifecycle(v: JsonVal) -> Option<
    (int, Seq<char>, Seq<char>),
> {
    match (
        spec_int_field(v, "time"@),
        spec_id_field(v, "self_id"@),
        spec_str_field(v, "sub_type"@),
    ) {
        (Some(time), Some(self_id), Some(sub_type)) => Some((time, self_id, sub_type)),
        _ => None,
    }
}

pub open spec fn spec_decode_heartbeat(v: JsonVal) -> Option<
    (int, Seq<char>, Option<bool>, bool, int),
> {
    match (
        spec_int_field(v, "time"@),
        spec_id_field(v, "self_id"@),
        spec_get(v, "status"@),
        spec_int_field(v, "interval"@),
    ) {
        (Some(time), Some(self_id), Some(status), Some(interval)) => {
            match (spec_opt_bool_field(status, "online"@), spec_bool_field(status, "good"@)) {
                (Ok(online), Some(good)) => Some((time, self_id, online, good, interval)),
                _ => None,
            }
        },
        _ => None,
    }
}

/// What a meta event decodes to, discriminated by `meta_event_type`.
pub open spec fn spec_decode_meta(v: JsonVal) -> Option<MetaEventView> {
    match spec_str_field(v, "meta_event_type"@) {
        Some(t) => {
            if t == "lifecycle"@ {
                match spec_decode_lifecycle(v) {
                    Some((time, self_id, sub_type)) => Some(
                        MetaEventView::Lifecycle { time, self_id, sub_type },
                    ),
                    None => None,
                }
            } else if t == "heartbeat"@ {
                match spec_decode_heartbeat(v) {
                    Some((time, self_id, online, good, interval)) => Some(
                        MetaEventView::Heartbeat { time, self_id, online, good, interval },
                    ),
                    None => None,
                }
            } else {
                None
            }
        },
        None => None,
    }
}

pub enum MetaEventView {
    Lifecycle { time: int, self_id: Seq<char>, sub_type: Seq<char> },
    Heartbeat {
        time: int,
        self_id: Seq<char>,
        online: Option<bool>,
        good: bool,
        interval: int,
    },
}

impl View for MetaEvent {
    type V = MetaEventView;

    open spec fn view(&self) -> MetaEventView {
        match self {
            MetaEvent::Lifecycle(e) => MetaEventView::Lifecycle {
                time: e.time as int,
                self_id: e.self_id@,
                sub_type: e.sub_type@,
            },
            MetaEvent::Heartbeat(e) => MetaEventView::Heartbeat {
                time: e.time as int,
                self_id: e.self_id@,
                online: e.status.online,
                good: e.status.good,
                interval: e.interval as int,
            },
        }
    }
}

pub fn decode_meta(v: &JsonValue) -> (r: Option<MetaEvent>)
    ensures
        match r {
            Some(e) => spec_decode_meta(v@) == Some(e@),
            None => spec_decode_meta(v@) is None,
        },
{
    let t = match str_field(v, "meta_event_type") {
        Some(t) => t,
        None => {
            return None;
        },
    };
    if str_eq(t.as_str(), "lifecycle") {
        match (int_field(v, "time"), id_field(v, "self_id"), str_field(v, "sub_type")) {
            (Some(time), Some(self_id), Some(sub_type)) => Some(
                MetaEvent::Lifecycle(LifecycleEvent { time, self_id, sub_type }),
            ),
            _ => None,
        }
    } else if str_eq(t.as_str(), "heartbeat") {
        match (
            int_field(v, "time"),
            id_field(v, "self_id"),
            v.get("status"),
            int_field(v, "interval"),
        ) {
            (Some(time), Some(self_id), Some(status), Some(interval)) => {
                match (opt_bool_field(status, "online"), bool_field(status, "good")) {
                    (Ok(online), Some(good)) => Some(
                        MetaEvent::Heartbeat(
                            HeartbeatEvent {
                                time,
                                self_id,
                                status: Status { online, good },
                                interval,
                            },
                        ),
                    ),
                    _ => None,
                }
            },
            _ => None,
        }
    } else {
        None
    }
}

pub enum NoticeEventView {
    FriendRecall { time: int, self_id: Seq<char>, message_id: Seq<char>, user_id: Seq<char> },
    GroupRecall {
        time: int,
        self_id: Seq<char>,
        message_id: Seq<char>,
        user_id: Seq<char>,
        group_id: Seq<char>,
        operator_id: Seq<char>,
    },
    Notify {
        time: int,
        self_id: Seq<char>,
        sub_type: Seq<char>,
        user_id: Option<Seq<char>>,
        group_id: Option<Seq<char>>,
    },
    GroupUpload { time: int, self_id: Seq<char>, user_id: Seq<char>, group_id: Seq<char> },
    GroupAdmin { time: int, self_id: Seq<char>, group_id: Seq<char>, user_id: Seq<char> },
    GroupDecrease { time: int, self_id: Seq<char>, group_id: Seq<char>, user_id: Seq<char> },
    GroupIncrease { time: int, self_id: Seq<char>, group_id: Seq<char>, user_id: Seq<char> },
    GroupCard {
        time: int,
        self_id: Seq<char>,
        user_id: Seq<char>,
        group_id: Seq<char>,
        card_old: Seq<char>,
        card_new: Seq<char>,
    },
}

impl View for NoticeEvent {
    type V = NoticeEventView;

    open spec fn view(&self) -> NoticeEventView {
        match self {
            NoticeEvent::FriendRecall(e) => NoticeEventView::FriendRecall {
                time: e.time as int,
                self_id: e.self_id@,
                message_id: e.message_id@,
                user_id: e.user_id@,
            },
            NoticeEvent::GroupRecall(e) => NoticeEventView::GroupRecall {
                time: e.time as int,
                self_id: e.self_id@,
                message_id: e.message_id@,
                user_id: e.user_id@,
                group_id: e.group_id@,
                operator_id: e.operator_id@,
            },
            NoticeEvent::Notify(e) => NoticeEventView::Notify {
                time: e.time as int,
                self_id: e.self_id@,
                sub_type: e.sub_type@,
                user_id: opt_text(e.user_id),
                group_id: opt_text(e.group_id),
            },
            NoticeEvent::GroupUpload(e) => NoticeEventView::GroupUpload {
                time: e.time as int,
                self_id: e.self_id@,
                user_id: e.user_id@,
                group_id: e.group_id@,
            },
            NoticeEvent::GroupAdmin(e) => NoticeEventView::GroupAdmin {
                time: e.time as int,
                self_id: e.self_id@,
                group_id: e.group_id@,
                user_id: e.user_id@,
            },
            NoticeEvent::GroupDecrease(e) => NoticeEventView::GroupDecrease {
                time: e.time as int,
                self_id: e.self_id@,
                group_id: e.group_id@,
                user_id: e.user_id@,
            },
            NoticeEvent::GroupIncrease(e) => NoticeEventView::GroupIncrease {
                time: e.time as int,
                self_id: e.self_id@,
                group_id: e.group_id@,
                user_id: e.user_id@,
            },
            NoticeEvent::GroupCard(e) => NoticeEventView::GroupCard {
                time: e.time as int,
                self_id: e.self_id@,
                user_id: e.user_id@,
                group_id: e.group_id@,
                card_old: e.card_old@,
                card_new: e.card_new@,
            },
        }
    }
}

/// What a notice event decodes to, discriminated by `notice_type`.
pub open spec fn spec_decode_notice(v: JsonVal) -> Option<NoticeEventView> {
    match (spec_str_field(v, "notice_type"@), spec_int_field(v, "time"@), spec_id_field(v, "self_id"@)) {
        (Some(t), Some(time), Some(self_id)) => {
            if t == "friend_recall"@ {
                match (spec_id_field(v, "message_id"@), spec_id_field(v, "user_id"@)) {
                    (Some(message_id), Some(user_id)) => Some(
                        NoticeEventView::FriendRecall { time, self_id, message_id, user_id },
                    ),
                    _ => None,
                }
            } else if t == "group_recall"@ {
                match (
                    spec_id_field(v, "message_id"@),
                    spec_id_field(v, "user_id"@),
                    spec_id_field(v, "group_id"@),
                    spec_id_field(v, "operator_id"@),
                ) {
                    (Some(message_id), Some(user_id), Some(group_id), Some(operator_id)) => Some(
                        NoticeEventView::GroupRecall {
                            time,
                            self_id,
                            message_id,
                            user_id,
                            group_id,
                            operator_id,
                        },
                    ),
                    _ => None,
                }
            } else if t == "notify"@ {
                match (
                    spec_str_field(v, "sub_type"@),
                    spec_req_opt_id_field(v, "user_id"@),
                    spec_req_opt_id_field(v, "group_id"@),
                ) {
                    (Some(sub_type), Ok(user_id), Ok(group_id)) => Some(
                        NoticeEventView::Notify { time, self_id, sub_type, user_id, group_id },
                    ),
                    _ => None,
                }
            } else if t == "group_upload"@ {
                match (spec_id_field(v, "user_id"@), spec_id_field(v, "group_id"@)) {
                    (Some(user_id), Some(group_id)) => Some(
                        NoticeEventView::GroupUpload { time, self_id, user_id, group_id },
                    ),
                    _ => None,
                }
            } else if t == "group_admin"@ {
                match (spec_id_field(v, "group_id"@), spec_id_field(v, "user_id"@)) {
                    (Some(group_id), Some(user_id)) => Some(
                        NoticeEventView::GroupAdmin { time, self_id, group_id, user_id },
                    ),
                    _ => None,
                }
            } else if t == "group_decrease"@ {
                match (spec_id_field(v, "group_id"@), spec_id_field(v, "user_id"@)) {
                    (Some(group_id), Some(user_id)) => Some(
                        NoticeEventView::GroupDecrease { time, self_id, group_id, user_id },
                    ),
                    _ => None,
                }
            } else if t == "group_increase"@ {
                match (spec_id_field(v, "group_id"@), spec_id_field(v, "user_id"@)) {
                    (Some(group_id), Some(user_id)) => Some(
                        NoticeEventView::GroupIncrease { time, self_id, group_id, user_id },
                    ),
                    _ => None,
                }
            } else if t == "group_card"@ {
                match (
                    spec_id_field(v, "user_id"@),
                    spec_id_field(v, "group_id"@),
                    spec_str_field(v, "card_old"@),
                    spec_str_field(v, "card_new"@),
                ) {
                    (Some(user_id), Some(group_id), Some(card_old), Some(card_new)) => Some(
                        NoticeEventView::GroupCard {
                            time,
                            self_id,
                            user_id,
                            group_id,
                            card_old,
                            card_new,
                        },
                    ),
                    _ => None,
                }
            } else {
                None
            }
        },
        _ => None,
    }
}

pub fn decode_notice(v: &JsonValue) -> (r: Option<NoticeEvent>)
    ensures
        match r {
            Some(e) => spec_decode_notice(v@) == Some(e@),
            None => spec_decode_notice(v@) is None,
        },
{
    let t = match str_field(v, "notice_type") {
        Some(t) => t,
        None => {
            return None;
        },
    };
    let time = match int_field(v, "time") {
        Some(x) => x,
        None => {
            return None;
        },
    };
    let self_id = match id_field(v, "self_id") {
        Some(x) => x,
        None => {
            return None;
        },
    };
    if str_eq(t.as_str(), "friend_recall") {
        match (id_field(v, "message_id"), id_field(v, "user_id")) {
            (Some(message_id), Some(user_id)) => Some(
                NoticeEvent::FriendRecall(
                    FriendRecallEvent { time, self_id, message_id, user_id },
                ),
            ),
            _ => None,
        }
    } else if str_eq(t.as_str(), "group_recall") {
        match (
            id_field(v, "message_id"),
            id_field(v, "user_id"),
            id_field(v, "group_id"),
            id_field(v, "operator_id"),
        ) {
            (Some(message_id), Some(user_id), Some(group_id), Some(operator_id)) => Some(
                NoticeEvent::GroupRecall(
                    GroupRecallEvent { time, self_id, message_id, user_id, group_id, operator_id },
                ),
            ),
            _ => None,
        }
    } else if str_eq(t.as_str(), "notify") {
        match (
            str_field(v, "sub_type"),
            req_opt_id_field(v, "user_id"),
            req_opt_id_field(v, "group_id"),
        ) {
            (Some(sub_type), Ok(user_id), Ok(group_id)) => Some(
                NoticeEvent::Notify(NotifyEvent { time, self_id, sub_type, user_id, group_id }),
            ),
            _ => None,
        }
    } else if str_eq(t.as_str(), "group_upload") {
        match (id_field(v, "user_id"), id_field(v, "group_id")) {
            (Some(user_id), Some(group_id)) => Some(
                NoticeEvent::GroupUpload(GroupUploadEvent { time, self_id, user_id, group_id }),
            ),
            _ => None,
        }
    } else if str_eq(t.as_str(), "group_admin") {
        match (id_field(v, "group_id"), id_field(v, "user_id")) {
            (Some(group_id), Some(user_id)) => Some(
                NoticeEvent::GroupAdmin(GroupAdminEvent { time, self_id, group_id, user_id }),
            ),
            _ => None,
        }
    } else if str_eq(t.as_str(), "group_decrease") {
        match (id_field(v, "group_id"), id_field(v, "user_id")) {
            (Some(group_id), Some(user_id)) => Some(
                NoticeEvent::GroupDecrease(
                    GroupDecreaseEvent { time, self_id, group_id, user_id },
                ),
            ),
            _ => None,
        }
    } else if str_eq(t.as_str(), "group_increase") {
        match (id_field(v, "group_id"), id_field(v, "user_id")) {
            (Some(group_id), Some(user_id)) => Some(
                NoticeEvent::GroupIncrease(
                    GroupIncreaseEvent { time, self_id, group_id, user_id },
                ),
            ),
            _ => None,
        }
    } else if str_eq(t.as_str(), "group_card") {
        match (
            id_field(v, "user_id"),
            id_field(v, "group_id"),
            str_field(v, "card_old"),
            str_field(v, "card_new"),
        ) {
            (Some(user_id), Some(group_id), Some(card_old), Some(card_new)) => Some(
                NoticeEvent::GroupCard(
                    GroupCardEvent { time, self_id, user_id, group_id, card_old, card_new },
                ),
            ),
            _ => None,
        }
    } else {
        None
    }
}

// ---------- the event itself ----------

pub enum EventView {
    Message(MessageEventView),
    MessageSent(MessageEventView),
    Meta(MetaEventView),
    Notice(NoticeEventView),
}

impl View for Event {
    type V = EventView;

    open spec fn view(&self) -> EventView {
        match self {
            Event::Message(e) => EventView::Message(e@),
            Event::MessageSent(e) => EventView::MessageSent(e@),
            Event::Meta(e) => EventView::Meta(e@),
            Event::Notice(e) => EventView::Notice(e@),
            Event::Request(_) => EventView::Meta(
                MetaEventView::Lifecycle {
                    time: 0,
                    self_id: Seq::empty(),
                    sub_type: Seq::empty(),
                },
            ),
        }
    }
}

/// What an event object decodes to, discriminated by `post_type`. A
/// `request` post never decodes: this server accepts no request events.
pub open spec fn spec_decode_event(v: JsonVal) -> Option<EventView> {
    match spec_str_field(v, "post_type"@) {
        Some(t) => {
            if t == "message"@ {
                match spec_decode_message_event(v) {
                    Some(e) => Some(EventView::Message(e)),
                    None => None,
                }
            } else if t == "message_sent"@ {
                match spec_decode_message_event(v) {
                    Some(e) => Some(EventView::MessageSent(e)),
                    None => None,
                }
            } else if t == "meta_event"@ {
                match spec_decode_meta(v) {
                    Some(e) => Some(EventView::Meta(e)),
                    None => None,
                }
            } else if t == "notice"@ {
                match spec_decode_notice(v) {
                    Some(e) => Some(EventView::Notice(e)),
                    None => None,
                }
            } else {
                None
            }
        },
        None => None,
    }
}

pub fn decode_event(v: &JsonValue) -> (r: Option<Event>)
    ensures
        match r {
            Some(e) => spec_decode_event(v@) == Some(e@),
            None => spec_decode_event(v@) is None,
        },
{
    let t = match str_field(v, "post_type") {
        Some(t) => t,
        None => {
            return None;
        },
    };
    if str_eq(t.as_str(), "message") {
        match decode_message_event(v) {
            Some(e) => Some(Event::Message(e)),
            None => None,
        }
    } else if str_eq(t.as_str(), "message_sent") {
        match decode_message_event(v) {
            Some(e) => Some(Event::MessageSent(e)),
            None => None,
        }
    } else if str_eq(t.as_str(), "meta_event") {
        match decode_meta(v) {
            Some(e) => Some(Event::Meta(e)),
            None => None,
        }
    } else if str_eq(t.as_str(), "notice") {
        match decode_notice(v) {
            Some(e) => Some(Event::Notice(e)),
            None => None,
        }
    } else {
        None
    }
}

/// Whether a JSON object is an event at all: it carries `post_type`.
pub open spec fn spec_is_event_shape(v: JsonVal) -> bool {
    spec_str_field(v, "post_type"@) is Some
}

// ---------- chat classification ----------

impl MessageEvent {
    /// Group messages address groups; everything else is private.
    pub fn get_chat_type(&self) -> (r: ChatType)
        ensures
            r == (if self.message_type@ == "group"@ {
                ChatType::Group
            } else {
                ChatType::Private
            }),
    {
        if str_eq(self.message_type.as_str(), "group") {
            ChatType::Group
        } else {
            ChatType::Private
        }
    }

    /// The conversation a message belongs to: for private chats the peer
    /// (`target_id` when non-empty, else `user_id`), for groups the group.
    /// An unknown `message_type` yields the empty id.
    pub fn get_chat_id(&self) -> (r: String)
        ensures
            r@ == self.spec_chat_id(),
    {
        if str_eq(self.message_type.as_str(), "private") {
            match &self.target_id {
                Some(target_id) => {
                    if !target_id.as_str().is_empty() {
                        target_id.clone()
                    } else {
                        self.user_id.clone()
                    }
                },
                None => self.user_id.clone(),
            }
        } else if str_eq(self.message_type.as_str(), "group") {
            match &self.group_id {
                Some(group_id) => group_id.clone(),
                None => String::new(),
            }
        } else {
            String::new()
        }
    }

    pub open spec fn spec_chat_id(&self) -> Seq<char> {
        if self.message_type@ == "private"@ {
            match self.target_id {
                Some(t) => if t@.len() > 0 {
                    t@
                } else {
                    self.user_id@
                },
                None => self.user_id@,
            }
        } else if self.message_type@ == "group"@ {
            match self.group_id {
                Some(g) => g@,
                None => Seq::empty(),
            }
        } else {
            Seq::empty()
        }
    }
}

impl Sender {
    /// The name to show: the group card when non-empty, else the nickname.
    pub fn display_name(&self) -> (r: String)
        ensures
            r@ == (match self.card {
                Some(c) => if c@.len() > 0 {
                    c@
                } else {
                    self.nickname@
                },
                None => self.nickname@,
            }),
    {
        match &self.card {
            Some(card) => {
                if !card.as_str().is_empty() {
                    card.clone()
                } else {
                    self.nickname.clone()
                }
            },
            None => self.nickname.clone(),
        }
    }
}

impl FriendRecallEvent {
    /// A friend recall belongs to the private chat with that user.
    pub fn get_chat_id(&self) -> (r: String)
        ensures
            r@ == self.user_id@,
    {
        self.user_id.clone()
    }
}

impl GroupRecallEvent {
    /// A group recall belongs to the group.
    pub fn get_chat_id(&self) -> (r: String)
        ensures
            r@ == self.group_id@,
    {
        self.group_id.clone()
    }
}

impl NoticeEvent {
    /// A notify event with a group id other than `"0"` belongs to a group.
    pub open spec fn spec_chat_type(&self) -> ChatType {
        match self {
            NoticeEvent::FriendRecall(_) => ChatType::Private,
            NoticeEvent::Notify(e) => match e.group_id {
                Some(g) => if g@ != "0"@ {
                    ChatType::Group
                } else {
                    ChatType::Private
                },
                None => ChatType::Private,
            },
            _ => ChatType::Group,
        }
    }

    pub fn get_chat_type(&self) -> (r: ChatType)
        ensures
            r == self.spec_chat_type(),
    {
        match self {
            NoticeEvent::FriendRecall(_) => ChatType::Private,
            NoticeEvent::Notify(e) => match &e.group_id {
                Some(group_id) => {
                    if !str_eq(group_id.as_str(), "0") {
                        ChatType::Group
                    } else {
                        ChatType::Private
                    }
                },
                None => ChatType::Private,
            },
            _ => ChatType::Group,
        }
    }

    pub open spec fn spec_chat_id(&self) -> Seq<char> {
        match self {
            NoticeEvent::FriendRecall(e) => e.user_id@,
            NoticeEvent::GroupRecall(e) => e.group_id@,
            NoticeEvent::Notify(e) => match e.group_id {
                Some(g) => if g@ != "0"@ {
                    g@
                } else {
                    match e.user_id {
                        Some(u) => u@,
                        None => "0"@,
                    }
                },
                None => match e.user_id {
                    Some(u) => u@,
                    None => "0"@,
                },
            },
            NoticeEvent::GroupUpload(e) => e.group_id@,
            NoticeEvent::GroupAdmin(e) => e.group_id@,
            NoticeEvent::GroupDecrease(e) => e.group_id@,
            NoticeEvent::GroupIncrease(e) => e.group_id@,
            NoticeEvent::GroupCard(e) => e.group_id@,
        }
    }

    pub fn get_chat_id(&self) -> (r: String)
        ensures
            r@ == self.spec_chat_id(),
    {
        match self {
            NoticeEvent::FriendRecall(e) => e.get_chat_id(),
            NoticeEvent::GroupRecall(e) => e.get_chat_id(),
            NoticeEvent::Notify(e) => {
                let group_is_real = match &e.group_id {
                    Some(group_id) => !str_eq(group_id.as_str(), "0"),
                    None => false,
                };
                if group_is_real {
                    match &e.group_id {
                        Some(group_id) => group_id.clone(),
                        None => "0".to_owned(),
                    }
                } else {
                    match &e.user_id {
                        Some(user_id) => user_id.clone(),
                        None => "0".to_owned(),
                    }
                }
            },
            NoticeEvent::GroupUpload(e) => e.group_id.clone(),
            NoticeEvent::GroupAdmin(e) => e.group_id.clone(),
            NoticeEvent::GroupDecrease(e) => e.group_id.clone(),
            NoticeEvent::GroupIncrease(e) => e.group_id.clone(),
            NoticeEvent::GroupCard(e) => e.group_id.clone(),
        }
    }
}

impl Event {
    pub open spec fn spec_chat_type(&self) -> ChatType {
        match self {
            Event::Message(e) => if e.message_type@ == "group"@ {
                ChatType::Group
            } else {
                ChatType::Private
            },
            Event::MessageSent(e) => if e.message_type@ == "group"@ {
                ChatType::Group
            } else {
                ChatType::Private
            },
            Event::Meta(_) => ChatType::Private,
            Event::Notice(e) => e.spec_chat_type(),
            Event::Request(_) => ChatType::Private,
        }
    }

    pub fn get_chat_type(&self) -> (r: ChatType)
        ensures
            r == self.spec_chat_type(),
    {
        match self {
            Event::Message(e) => e.get_chat_type(),
            Event::MessageSent(e) => e.get_chat_type(),
            Event::Meta(_) => ChatType::Private,
            Event::Notice(e) => e.get_chat_type(),
            Event::Request(_) => ChatType::Private,
        }
    }

    pub open spec fn spec_chat_id(&self) -> Seq<char> {
        match self {
            Event::Message(e) => e.spec_chat_id(),
            Event::MessageSent(e) => e.spec_chat_id(),
            Event::Meta(_) => "meta"@,
            Event::Notice(e) => e.spec_chat_id(),
            Event::Request(_) => "request"@,
        }
    }

    pub fn get_chat_id(&self) -> (r: String)
        ensures
            r@ == self.spec_chat_id(),
    {
        match self {
            Event::Message(e) => e.get_chat_id(),
            Event::MessageSent(e) => e.get_chat_id(),
            Event::Meta(_) => "meta".to_owned(),
            Event::Notice(e) => e.get_chat_id(),
            Event::Request(_) => "request".to_owned(),
        }
    }
}

} // verus!
