//! The event-to-Telegram pipeline: deduplication, routing with its hard
//! Link over Archive over admin-chat priority, segment rendering, the
//! photo-or-document boundary, and recall handling.

use vstd::prelude::*;

verus! {

use crate::common::{ChatType, Endpoint, Platform};
use crate::onebot::protocol::event::{MessageEvent, MetaEvent, NoticeEvent};
use crate::onebot::protocol::json::JsonValue;
use crate::onebot::protocol::segment::{Segment, SegView};
use crate::telegram::bridge::{Bridge, UploadedInfo};
use crate::telegram::onebot_helper::{
    VenueInfo, is_sticker, spec_is_sticker, replace_qq_face, spec_replace_qq_face,
    replace_wechat_emoji, spec_replace_wechat_emoji, extract_location_from_json,
    extract_share_from_json,
};
use crate::text::str_eq;
use vstd::string::StringExecFns;

/// Images above this many bytes are sent as documents: 10 MiB.
pub const BIG_FILE_SIZE: usize = 10485760;

/// Images wider or taller than this are sent as documents.
pub const IMAGE_SIDE_LIMIT: u32 = 2560;

/// The kind of Telegram message the rendered segments call for; the last
/// type-defining segment wins.
#[derive(Debug, Clone, Copy, PartialEq, Eq, Structural)]
pub enum TgMsgType {
    Text,
    Html,
    Photo,
    Sticker,
    Voice,
    Video,
    Document,
    Location,
}

/// An image is too big for a photo when its bytes pass 10 MiB or either
/// side passes 2560 pixels; it then goes out as a document.
pub open spec fn spec_send_as_document(file_size: int, width: int, height: int) -> bool {
    file_size > 10485760 || width > 2560 || height > 2560
}

pub fn send_as_document(file_size: usize, width: u32, height: u32) -> (r: bool)
    ensures
        r == spec_send_as_document(file_size as int, width as int, height as int),
{
    file_size > BIG_FILE_SIZE || width > IMAGE_SIDE_LIMIT || height > IMAGE_SIDE_LIMIT
}

// ---------- deduplication ----------

/// Whether a remote message still needs delivering: no mapping row may
/// exist for it.
pub open spec fn spec_should_deliver(b: Bridge, remote_chat_id: i64, message_id: Seq<char>) -> bool {
    forall|i: int|
        0 <= i < b.spec_messages().len() ==> !(#[trigger] b.spec_messages()[i]).spec_remote_key_is(
            remote_chat_id,
            message_id,
        )
}

pub fn should_deliver(bridge: &Bridge, remote_chat_id: i64, message_id: &str) -> (r: bool)
    ensures
        r == spec_should_deliver(*bridge, remote_chat_id, message_id@),
{
    match bridge.find_message_by_remote(remote_chat_id, message_id) {
        Some(_) => false,
        None => true,
    }
}

/// Re-delivering a recorded remote message is a no-op: once any mapping
/// row for `(remote chat, remote message)` exists, the pipeline skips the
/// event, so each event produces at most one Telegram send.
pub proof fn lemma_redelivery_skipped(b: Bridge, remote_chat_id: i64, message_id: Seq<char>, i: int)
    requires
        0 <= i < b.spec_messages().len(),
        b.spec_messages()[i].spec_remote_key_is(remote_chat_id, message_id),
    ensures
        !spec_should_deliver(b, remote_chat_id, message_id),
{
}

// ---------- routing ----------

/// Where a remote event goes, in priority order: a Link wins over an
/// Archive, an Archive over the admin chat.
#[derive(Debug)]
pub enum RouteTarget {
    /// The linked Telegram chat mirrors this conversation 1:1.
    Linked { tg_chat_type: u8, tg_chat_id: i64 },
    /// The archive's forum supergroup, under the recorded topic.
    Archived { tg_chat_id: i64, tg_topic_id: i32 },
    /// The archive's forum supergroup, but no topic exists yet: one must
    /// be created with this title and recorded before sending.
    NeedsTopic { tg_chat_id: i64, archive_id: i64, topic_title: String },
    /// No binding: the admin's direct chat.
    AdminDm { tg_chat_id: i64 },
}

#[derive(Debug)]
pub struct Route {
    pub target: RouteTarget,
    pub reply_to: Option<i32>,
    /// The caption prefix, ending in a colon.
    pub title: String,
}

/// The topic title an archived conversation gets.
pub open spec fn spec_topic_title(chat_type: ChatType, name: Seq<char>) -> Seq<char> {
    match chat_type {
        ChatType::Private => "👤 "@ + name,
        ChatType::Group => "👥 "@ + name,
    }
}

/// The caption prefix for an unrouted conversation, addressed to the
/// admin chat.
pub open spec fn spec_admin_title(
    chat_type: ChatType,
    sender_name: Seq<char>,
    chat_name: Seq<char>,
) -> Seq<char> {
    match chat_type {
        ChatType::Private => "👤 "@ + chat_name + ":"@,
        ChatType::Group => "👥 "@ + sender_name + " ["@ + chat_name + "]:"@,
    }
}

/// Resolves the routing target for one remote conversation. The priority
/// is a hard invariant: a Link is used whenever one exists; otherwise an
/// Archive of the endpoint, with its recorded topic or a fresh one;
/// otherwise the admin chat.
pub fn resolve_route(
    bridge: &Bridge,
    endpoint: &Endpoint,
    remote_chat_id: i64,
    chat_type: ChatType,
    chat_name: &String,
    sender_name: &String,
) -> (r: Route)
    ensures
        match r.target {
            RouteTarget::Linked { tg_chat_type, tg_chat_id } => {
                &&& exists|i: int|
                    0 <= i < bridge.spec_links().len() && (
                    #[trigger] bridge.spec_links()[i]).remote_chat_id == remote_chat_id
                        && bridge.spec_links()[i].tg_chat_id == tg_chat_id
                        && bridge.spec_links()[i].tg_chat_type == tg_chat_type
                &&& r.reply_to is None
                &&& r.title@ == sender_name@ + ":"@
            },
            RouteTarget::Archived { tg_chat_id, tg_topic_id } => {
                &&& forall|i: int|
                    0 <= i < bridge.spec_links().len() ==> (
                    #[trigger] bridge.spec_links()[i]).remote_chat_id != remote_chat_id
                &&& exists|i: int|
                    0 <= i < bridge.spec_archives().len() && (
                    #[trigger] bridge.spec_archives()[i]).endpoint.spec_same(*endpoint)
                        && bridge.spec_archives()[i].tg_chat_id == tg_chat_id
                &&& exists|i: int|
                    0 <= i < bridge.spec_topics().len() && (
                    #[trigger] bridge.spec_topics()[i]).remote_chat_id == remote_chat_id
                        && bridge.spec_topics()[i].tg_topic_id == tg_topic_id
                &&& r.reply_to == Some(tg_topic_id)
                &&& r.title@ == sender_name@ + ":"@
            },
            RouteTarget::NeedsTopic { tg_chat_id, archive_id, topic_title } => {
                &&& forall|i: int|
                    0 <= i < bridge.spec_links().len() ==> (
                    #[trigger] bridge.spec_links()[i]).remote_chat_id != remote_chat_id
                &&& exists|i: int|
                    0 <= i < bridge.spec_archives().len() && (
                    #[trigger] bridge.spec_archives()[i]).endpoint.spec_same(*endpoint)
                        && bridge.spec_archives()[i].tg_chat_id == tg_chat_id
                        && bridge.spec_archives()[i].id == archive_id
                &&& forall|i: int|
                    0 <= i < bridge.spec_topics().len() ==> (
                    #[trigger] bridge.spec_topics()[i]).remote_chat_id != remote_chat_id
                &&& topic_title@ == spec_topic_title(chat_type, chat_name@)
                &&& r.title@ == sender_name@ + ":"@
            },
            RouteTarget::AdminDm { tg_chat_id } => {
                &&& forall|i: int|
                    0 <= i < bridge.spec_links().len() ==> (
                    #[trigger] bridge.spec_links()[i]).remote_chat_id != remote_chat_id
                &&& forall|i: int|
                    0 <= i < bridge.spec_archives().len() ==> !(
                    #[trigger] bridge.spec_archives()[i]).endpoint.spec_same(*endpoint)
                &&& tg_chat_id == bridge.spec_admin_id()
                &&& r.reply_to is None
                &&& r.title@ == spec_admin_title(chat_type, sender_name@, chat_name@)
            },
        },
{
    match bridge.find_link_by_remote(remote_chat_id) {
        Some(link) => {
            let mut title = sender_name.clone();
            title.append(":");
            Route {
                target: RouteTarget::Linked {
                    tg_chat_type: link.tg_chat_type,
                    tg_chat_id: link.tg_chat_id,
                },
                reply_to: None,
                title,
            }
        },
        None => {
            match bridge.find_archive_by_endpoint(endpoint) {
                Some(archive) => {
                    let archive_id = archive.id;
                    let archive_chat = archive.tg_chat_id;
                    let mut title = sender_name.clone();
                    title.append(":");
                    match bridge.find_topic_by_remote_chat(remote_chat_id) {
                        Some(topic) => Route {
                            target: RouteTarget::Archived {
                                tg_chat_id: archive_chat,
                                tg_topic_id: topic.tg_topic_id,
                            },
                            reply_to: Some(topic.tg_topic_id),
                            title,
                        },
                        None => {
                            let mut topic_title = match chat_type {
                                ChatType::Private => "👤 ".to_owned(),
                                ChatType::Group => "👥 ".to_owned(),
                            };
                            topic_title.append(chat_name.as_str());
                            Route {
                                target: RouteTarget::NeedsTopic {
                                    tg_chat_id: archive_chat,
                                    archive_id,
                                    topic_title,
                                },
                                reply_to: None,
                                title,
                            }
                        },
                    }
                },
                None => {
                    let title = match chat_type {
                        ChatType::Private => {
                            let mut t = "👤 ".to_owned();
                            t.append(chat_name.as_str());
                            t.append(":");
                            t
                        },
                        ChatType::Group => {
                            let mut t = "👥 ".to_owned();
                            t.append(sender_name.as_str());
                            t.append(" [");
                            t.append(chat_name.as_str());
                            t.append("]:");
                            t
                        },
                    };
                    proof {
                        assert(title@ =~= spec_admin_title(chat_type, sender_name@, chat_name@));
                    }
                    Route {
                        target: RouteTarget::AdminDm { tg_chat_id: bridge.admin_id() },
                        reply_to: None,
                        title,
                    }
                },
            }
        },
    }
}

// ---------- segment rendering ----------

/// The result the renderer needs from outside for one segment, handed in
/// by the loop that performs the call.
#[derive(Debug)]
pub enum SegmentInput {
    /// Nothing: the segment is rendered from its own data.
    Nothing,
    /// The outcome of uploading the segment's media to Telegram.
    Uploaded(Result<UploadedInfo, ()>),
    /// The display name an `at` segment resolves to, when the member
    /// info call succeeded.
    MemberName(Option<String>),
    /// The Telegram message id a `reply` segment maps to, when the
    /// mapping row exists.
    ReplyTg(Option<i32>),
    /// The parsed body of a `json` segment, when its data parses.
    Json(Option<JsonValue>),
}

/// The renderer's accumulator across the segment list.
#[derive(Debug)]
pub struct RenderState {
    pub msg_type: TgMsgType,
    pub content: String,
    pub media: Vec<UploadedInfo>,
    pub location: Option<VenueInfo>,
    pub reply_to: Option<i32>,
    /// A card segment that resolved stops the scan, as the source does.
    pub stop: bool,
}

impl RenderState {
    pub fn start(reply_to: Option<i32>) -> (r: RenderState)
        ensures
            r.msg_type == TgMsgType::Text,
            r.content@ == Seq::<char>::empty(),
            r.media@.len() == 0,
            r.location is None,
            r.reply_to == reply_to,
            !r.stop,
    {
        RenderState {
            msg_type: TgMsgType::Text,
            content: String::new(),
            media: Vec::new(),
            location: None,
            reply_to,
            stop: false,
        }
    }
}

/// The text a segment appends to the running content, given the
/// platform and the outside result.
pub open spec fn spec_segment_text(
    platform: Platform,
    seg: SegView,
    upload_ok: bool,
    member_name: Option<Seq<char>>,
) -> Seq<char> {
    match seg {
        SegView::Text { text } => if platform == Platform::WeChat {
            spec_replace_wechat_emoji(text)
        } else {
            text
        },
        SegView::Face { id } => if platform == Platform::QQ {
            spec_replace_qq_face(id)
        } else {
            "/[Face"@ + id + "]"@
        },
        SegView::At { id } => match member_name {
            Some(name) => "@"@ + name,
            None => "@"@ + id,
        },
        SegView::Image { .. } => if upload_ok {
            "[图片]"@
        } else {
            "[图片上传失败]"@
        },
        SegView::MarketFace { .. } => if upload_ok {
            "[表情]"@
        } else {
            "[表情上传失败]"@
        },
        SegView::Record { .. } => if upload_ok {
            "[语音]"@
        } else {
            "[语音上传失败]"@
        },
        SegView::Video { .. } => if upload_ok {
            "[视频]"@
        } else {
            "[视频上传失败]"@
        },
        SegView::File { .. } => if upload_ok {
            "[文件]"@
        } else {
            "[文件上传失败]"@
        },
        SegView::Forward { .. } => "[合并消息]"@,
        SegView::Share { url, title, content, .. } => crate::telegram::onebot_helper::spec_share_html(
            title,
            (match content {
                Some(c) => c,
                None => Seq::empty(),
            }),
            url,
            title,
        ),
        _ => Seq::empty(),
    }
}

/// The message type after a segment, keeping the last type-defining one.
pub open spec fn spec_segment_type(
    before: TgMsgType,
    seg: SegView,
    upload_ok: bool,
) -> TgMsgType {
    match seg {
        SegView::Image { .. } => if upload_ok {
            if spec_is_sticker(seg) {
                TgMsgType::Sticker
            } else {
                TgMsgType::Photo
            }
        } else {
            before
        },
        SegView::MarketFace { .. } => if upload_ok {
            TgMsgType::Sticker
        } else {
            before
        },
        SegView::Record { .. } => if upload_ok {
            TgMsgType::Voice
        } else {
            before
        },
        SegView::Video { .. } => if upload_ok {
            TgMsgType::Video
        } else {
            before
        },
        SegView::File { .. } => if upload_ok {
            TgMsgType::Document
        } else {
            before
        },
        SegView::Location { .. } => TgMsgType::Location,
        SegView::Share { .. } => TgMsgType::Html,
        _ => before,
    }
}

fn append_text(state: &mut RenderState, text: &str)
    ensures
        final(state).content@ == old(state).content@ + text@,
        final(state).msg_type == old(state).msg_type,
        final(state).media == old(state).media,
        final(state).location == old(state).location,
        final(state).reply_to == old(state).reply_to,
        final(state).stop == old(state).stop,
{
    state.content.append(text);
}

/// Renders one segment into the accumulator. The content grows by the
/// segment's text, the message type moves to the last type-defining
/// segment, uploaded media accumulate, a known reply retargets the
/// message, and location or share cards take over the message.
pub fn render_segment(
    state: &mut RenderState,
    platform: Platform,
    seg: &Segment,
    input: SegmentInput,
)
    requires
        !old(state).stop,
    ensures
        ({
            let upload_ok = input matches SegmentInput::Uploaded(Ok(_));
            let member = (match input {
                SegmentInput::MemberName(Some(n)) => Some(n@),
                _ => None,
            });
            &&& (match seg@ {
                SegView::Reply { .. } => final(state).content == old(state).content,
                SegView::Json { .. } => true,
                _ => final(state).content@ == old(state).content@ + spec_segment_text(
                    platform,
                    seg@,
                    upload_ok,
                    member,
                ),
            })
            &&& (match seg@ {
                SegView::Json { .. } => true,
                _ => final(state).msg_type == spec_segment_type(
                    old(state).msg_type,
                    seg@,
                    upload_ok,
                ),
            })
            &&& (match input {
                SegmentInput::Uploaded(Ok(u)) => (match seg@ {
                    SegView::Image { .. } => final(state).media@ == old(state).media@.push(u),
                    SegView::MarketFace { .. } => final(state).media@ == old(state).media@.push(u),
                    SegView::Record { .. } => final(state).media@ == old(state).media@.push(u),
                    SegView::Video { .. } => final(state).media@ == old(state).media@.push(u),
                    SegView::File { .. } => final(state).media@ == old(state).media@.push(u),
                    _ => final(state).media == old(state).media,
                }),
                _ => final(state).media == old(state).media,
            })
            &&& (match seg@ {
                SegView::Reply { .. } => (match input {
                    SegmentInput::ReplyTg(Some(tg)) => final(state).reply_to == Some(tg),
                    _ => final(state).reply_to == old(state).reply_to,
                }),
                _ => final(state).reply_to == old(state).reply_to,
            })
            &&& (match seg@ {
                SegView::Location { lat, lon, title, content } => final(state).location matches Some(v)
                    && v.lat@ == lat && v.lon@ == lon && v.title@ == (match title {
                    Some(t) => t,
                    None => Seq::empty(),
                }) && v.address@ == (match content {
                    Some(c) => c,
                    None => Seq::empty(),
                }),
                SegView::Json { .. } => true,
                _ => final(state).location == old(state).location,
            })
        }),
{
    match seg {
        Segment::Text(s) => {
            match platform {
                Platform::WeChat => {
                    let replaced = replace_wechat_emoji(s.text.as_str());
                    append_text(state, replaced.as_str());
                },
                _ => {
                    append_text(state, s.text.as_str());
                },
            }
        },
        Segment::Face(s) => {
            match platform {
                Platform::QQ => {
                    let replaced = replace_qq_face(s.id.as_str());
                    append_text(state, replaced.as_str());
                },
                _ => {
                    let mut t = "/[Face".to_owned();
                    t.append(s.id.as_str());
                    t.append("]");
                    proof {
                        assert(t@ =~= "/[Face"@ + s.id@ + "]"@);
                    }
                    append_text(state, t.as_str());
                },
            }
        },
        Segment::At(s) => {
            let mut t = "@".to_owned();
            match input {
                SegmentInput::MemberName(Some(name)) => {
                    t.append(name.as_str());
                },
                _ => {
                    t.append(s.id.as_str());
                },
            }
            append_text(state, t.as_str());
        },
        Segment::Image(_) => {
            match input {
                SegmentInput::Uploaded(Ok(u)) => {
                    state.media.push(u);
                    append_text(state, "[图片]");
                    if is_sticker(seg) {
                        state.msg_type = TgMsgType::Sticker;
                    } else {
                        state.msg_type = TgMsgType::Photo;
                    }
                },
                _ => {
                    append_text(state, "[图片上传失败]");
                },
            }
        },
        Segment::MarketFace(_) => {
            match input {
                SegmentInput::Uploaded(Ok(u)) => {
                    state.media.push(u);
                    append_text(state, "[表情]");
                    state.msg_type = TgMsgType::Sticker;
                },
                _ => {
                    append_text(state, "[表情上传失败]");
                },
            }
        },
        Segment::Record(_) => {
            match input {
                SegmentInput::Uploaded(Ok(u)) => {
                    state.media.push(u);
                    append_text(state, "[语音]");
                    state.msg_type = TgMsgType::Voice;
                },
                _ => {
                    append_text(state, "[语音上传失败]");
                },
            }
        },
        Segment::Video(_) => {
            match input {
                SegmentInput::Uploaded(Ok(u)) => {
                    state.media.push(u);
                    append_text(state, "[视频]");
                    state.msg_type = TgMsgType::Video;
                },
                _ => {
                    append_text(state, "[视频上传失败]");
                },
            }
        },
        Segment::File(_) => {
            match input {
                SegmentInput::Uploaded(Ok(u)) => {
                    state.media.push(u);
                    append_text(state, "[文件]");
                    state.msg_type = TgMsgType::Document;
                },
                _ => {
                    append_text(state, "[文件上传失败]");
                },
            }
        },
        Segment::Reply(_) => {
            match input {
                SegmentInput::ReplyTg(Some(tg)) => {
                    state.reply_to = Some(tg);
                },
                _ => {
                },
            }
        },
        Segment::Forward(_) => {
            append_text(state, "[合并消息]");
        },
        Segment::Location(s) => {
            let title = match &s.title {
                Some(t) => t.clone(),
                None => String::new(),
            };
            let address = match &s.content {
                Some(c) => c.clone(),
                None => String::new(),
            };
            state.location = Some(
                VenueInfo { lat: s.lat.clone(), lon: s.lon.clone(), title, address },
            );
            state.msg_type = TgMsgType::Location;
        },
        Segment::Share(s) => {
            let content = match &s.content {
                Some(c) => c.clone(),
                None => String::new(),
            };
            let html = crate::telegram::onebot_helper::share_segment_html(
                s.title.as_str(),
                content.as_str(),
                s.url.as_str(),
            );
            append_text(state, html.as_str());
            state.msg_type = TgMsgType::Html;
        },
        Segment::Json(s) => {
            render_json_segment(state, s, input);
        },
        _ => {
        },
    }
}

/// A `json` segment: a location-share card becomes the message's venue,
/// a share card becomes HTML, and anything else falls back to the raw
/// data, so a malformed card never loses the event. A resolved card ends
/// the segment scan.
pub fn render_json_segment(
    state: &mut RenderState,
    s: &crate::onebot::protocol::segment::Json,
    input: SegmentInput,
)
    requires
        !old(state).stop,
    ensures
        final(state).media == old(state).media,
        final(state).reply_to == old(state).reply_to,
        ({
            let fallback = final(state).content@ == old(state).content@ + s.data@ && final(state).msg_type == old(state).msg_type && final(state).location == old(state).location
                && final(state).stop == old(state).stop;
            match input {
                SegmentInput::Json(Some(v)) => {
                    let view = (match crate::onebot::protocol::json::spec_str_field(
                        v@,
                        "view"@,
                    ) {
                        Some(w) => w,
                        None => Seq::<char>::empty(),
                    });
                    if view == "LocationShare"@ {
                        match crate::telegram::onebot_helper::spec_extract_location(v@) {
                            Some(card) => final(state).location matches Some(venue)
                                && venue.title@ == card.0 && venue.address@ == card.1
                                && venue.lat@ == card.2 && venue.lon@ == card.3 && final(state).msg_type == TgMsgType::Location && final(state).stop && final(state).content == old(state).content,
                            None => fallback,
                        }
                    } else {
                        match crate::telegram::onebot_helper::spec_extract_share(v@) {
                            Ok(share) => if share.len() == 0 {
                                fallback
                            } else {
                                final(state).content@ == old(state).content@ + share && final(state).msg_type == TgMsgType::Html && final(state).stop && final(state).location == old(state).location
                            },
                            Err(_) => fallback,
                        }
                    }
                },
                _ => fallback,
            }
        }),
{
    match input {
        SegmentInput::Json(Some(v)) => {
            let view = match crate::onebot::protocol::json::str_field(&v, "view") {
                Some(w) => w,
                None => String::new(),
            };
            if str_eq(view.as_str(), "LocationShare") {
                match extract_location_from_json(&v) {
                    Ok(venue) => {
                        state.location = Some(venue);
                        state.msg_type = TgMsgType::Location;
                        state.stop = true;
                    },
                    Err(()) => {
                        append_text(state, s.data.as_str());
                    },
                }
            } else {
                match extract_share_from_json(&v) {
                    Ok(share) => {
                        if share.as_str().is_empty() {
                            append_text(state, s.data.as_str());
                        } else {
                            append_text(state, share.as_str());
                            state.msg_type = TgMsgType::Html;
                            state.stop = true;
                        }
                    },
                    Err(()) => {
                        append_text(state, s.data.as_str());
                    },
                }
            }
        },
        _ => {
            append_text(state, s.data.as_str());
        },
    }
}

// ---------- the send plan ----------

/// What to send once the segments are rendered.
#[derive(Debug)]
pub enum SendPlan {
    Text { text: String, reply_to: Option<i32> },
    Html { text: String, reply_to: Option<i32> },
    /// One image: a photo, or the original as a document when it is too
    /// big in bytes or pixels.
    Photo { caption: String, media: UploadedInfo, as_document: bool, reply_to: Option<i32> },
    /// Several images as one album with one caption.
    Album { caption: String, media: Vec<UploadedInfo>, reply_to: Option<i32> },
    Sticker { caption: String, media: UploadedInfo, reply_to: Option<i32> },
    Voice { caption: String, media: UploadedInfo, reply_to: Option<i32> },
    Video { caption: String, media: UploadedInfo, reply_to: Option<i32> },
    Document { caption: String, media: UploadedInfo, reply_to: Option<i32> },
    Location { caption: String, venue: VenueInfo, reply_to: Option<i32> },
    /// Nothing sendable was rendered.
    Nothing,
}

pub open spec fn spec_joined(title: Seq<char>, content: Seq<char>) -> Seq<char> {
    title + "\n"@ + content
}

fn join_title(title: &String, content: &String) -> (r: String)
    ensures
        r@ == spec_joined(title@, content@),
{
    let mut r = title.clone();
    r.append("\n");
    r.append(content.as_str());
    proof {
        assert(r@ =~= spec_joined(title@, content@));
    }
    r
}

/// Builds the send plan from the rendered state. Text and HTML carry the
/// title and content joined; one image becomes a photo or, when too big
/// by bytes or pixels, a document; several images become an album; media
/// messages keep the bare title as caption.
pub fn build_send_plan(
    state: RenderState,
    title: String,
    segment_count: usize,
) -> (r: SendPlan)
    ensures
        match r {
            SendPlan::Text { text, reply_to } => state.msg_type == TgMsgType::Text && text@
                == spec_joined(title@, state.content@) && reply_to == state.reply_to,
            SendPlan::Html { text, reply_to } => state.msg_type == TgMsgType::Html && text@
                == spec_joined(title@, state.content@) && reply_to == state.reply_to,
            SendPlan::Photo { caption, media, as_document, reply_to } => {
                &&& state.msg_type == TgMsgType::Photo
                &&& state.media@.len() == 1
                &&& media == state.media@[0]
                &&& as_document == spec_send_as_document(
                    media.file_size as int,
                    media.width as int,
                    media.height as int,
                )
                &&& caption@ == (if segment_count > 1 {
                    spec_joined(title@, state.content@)
                } else {
                    title@
                })
                &&& reply_to == state.reply_to
            },
            SendPlan::Album { caption, media, reply_to } => state.msg_type == TgMsgType::Photo
                && state.media@.len() != 1 && state.media@.len() > 0 && media@ == state.media@
                && caption@ == spec_joined(title@, state.content@) && reply_to
                == state.reply_to,
            SendPlan::Sticker { caption, media, reply_to } => state.msg_type
                == TgMsgType::Sticker && state.media@.len() > 0 && media == state.media@.last()
                && caption@ == title@ && reply_to == state.reply_to,
            SendPlan::Voice { caption, media, reply_to } => state.msg_type == TgMsgType::Voice
                && state.media@.len() > 0 && media == state.media@.last() && caption@ == title@
                && reply_to == state.reply_to,
            SendPlan::Video { caption, media, reply_to } => state.msg_type == TgMsgType::Video
                && state.media@.len() > 0 && media == state.media@.last() && caption@ == title@
                && reply_to == state.reply_to,
            SendPlan::Document { caption, media, reply_to } => state.msg_type
                == TgMsgType::Document && state.media@.len() > 0 && media
                == state.media@.last() && caption@ == title@ && reply_to == state.reply_to,
            SendPlan::Location { caption, venue, reply_to } => state.msg_type
                == TgMsgType::Location && state.location == Some(venue) && caption@ == title@
                && reply_to == state.reply_to,
            SendPlan::Nothing => (state.msg_type == TgMsgType::Photo && state.media@.len() == 0)
                || (state.msg_type == TgMsgType::Location && state.location is None) || ((
            state.msg_type == TgMsgType::Sticker || state.msg_type == TgMsgType::Voice
                || state.msg_type == TgMsgType::Video || state.msg_type == TgMsgType::Document)
                && state.media@.len() == 0),
        },
{
    let RenderState { msg_type, content, mut media, location, reply_to, stop: _ } = state;
    match msg_type {
        TgMsgType::Text => SendPlan::Text { text: join_title(&title, &content), reply_to },
        TgMsgType::Html => SendPlan::Html { text: join_title(&title, &content), reply_to },
        TgMsgType::Photo => {
            if media.len() == 1 {
                let one = media.remove(0);
                let caption = if segment_count > 1 {
                    join_title(&title, &content)
                } else {
                    title
                };
                let as_document = send_as_document(one.file_size, one.width, one.height);
                SendPlan::Photo { caption, media: one, as_document, reply_to }
            } else if media.len() > 0 {
                SendPlan::Album { caption: join_title(&title, &content), media, reply_to }
            } else {
                SendPlan::Nothing
            }
        },
        TgMsgType::Sticker => {
            match media.pop() {
                Some(one) => SendPlan::Sticker { caption: title, media: one, reply_to },
                None => SendPlan::Nothing,
            }
        },
        TgMsgType::Voice => {
            match media.pop() {
                Some(one) => SendPlan::Voice { caption: title, media: one, reply_to },
                None => SendPlan::Nothing,
            }
        },
        TgMsgType::Video => {
            match media.pop() {
                Some(one) => SendPlan::Video { caption: title, media: one, reply_to },
                None => SendPlan::Nothing,
            }
        },
        TgMsgType::Document => {
            match media.pop() {
                Some(one) => SendPlan::Document { caption: title, media: one, reply_to },
                None => SendPlan::Nothing,
            }
        },
        TgMsgType::Location => {
            match location {
                Some(venue) => SendPlan::Location { caption: title, venue, reply_to },
                None => SendPlan::Nothing,
            }
        },
    }
}

// ---------- meta events ----------

/// The admin notice sent when an endpoint connects or disconnects.
pub open spec fn spec_meta_notice(endpoint: Endpoint, connected: bool) -> Seq<char> {
    if connected {
        "<b>[INFO] "@ + endpoint.spec_text() + " connected</b>"@
    } else {
        "<b>[INFO] "@ + endpoint.spec_text() + " disconnected</b>"@
    }
}

pub fn meta_notice_text(endpoint: &Endpoint, connected: bool) -> (r: String)
    ensures
        r@ == spec_meta_notice(*endpoint, connected),
{
    let mut r = "<b>[INFO] ".to_owned();
    let ep = endpoint.to_text();
    r.append(ep.as_str());
    if connected {
        r.append(" connected</b>");
    } else {
        r.append(" disconnected</b>");
    }
    proof {
        assert(r@ =~= spec_meta_notice(*endpoint, connected));
    }
    r
}

/// What a meta event asks of the pipeline.
#[derive(Debug, Clone, Copy, PartialEq, Eq, Structural)]
pub enum MetaPlan {
    /// A `connect` lifecycle: refresh the friend and group lists, then
    /// tell the admin.
    Connected,
    /// A `disconnect` lifecycle: tell the admin.
    Disconnected,
    /// Heartbeats and other lifecycles change nothing.
    Nothing,
}

pub fn plan_meta(meta: &MetaEvent) -> (r: MetaPlan)
    ensures
        match meta@ {
            crate::onebot::protocol::event::MetaEventView::Lifecycle { sub_type, .. } => r == (
            if sub_type == "connect"@ {
                MetaPlan::Connected
            } else if sub_type == "disconnect"@ {
                MetaPlan::Disconnected
            } else {
                MetaPlan::Nothing
            }),
            _ => r == MetaPlan::Nothing,
        },
{
    match meta {
        MetaEvent::Lifecycle(e) => {
            if str_eq(e.sub_type.as_str(), "connect") {
                MetaPlan::Connected
            } else if str_eq(e.sub_type.as_str(), "disconnect") {
                MetaPlan::Disconnected
            } else {
                MetaPlan::Nothing
            }
        },
        _ => MetaPlan::Nothing,
    }
}

// ---------- recalls ----------

/// What a notice event asks of the pipeline. A private self-recall is
/// dropped on purpose: the adapter cannot attribute it.
#[derive(Debug)]
pub enum RecallPlan {
    Ignore,
    /// Handle the recall of this message in this conversation.
    Handle { chat_type: ChatType, chat_target_id: String, message_id: String },
}

pub fn plan_recall(notice: &NoticeEvent) -> (r: RecallPlan)
    ensures
        match notice {
            NoticeEvent::FriendRecall(e) => {
                if e.self_id@ == e.user_id@ {
                    r is Ignore
                } else {
                    r matches RecallPlan::Handle { chat_type, chat_target_id, message_id }
                        && chat_type == ChatType::Private && chat_target_id@ == e.user_id@
                        && message_id@ == e.message_id@
                }
            },
            NoticeEvent::GroupRecall(e) => r matches RecallPlan::Handle {
                chat_type,
                chat_target_id,
                message_id,
            } && chat_type == ChatType::Group && chat_target_id@ == e.group_id@ && message_id@
                == e.message_id@,
            _ => r is Ignore,
        },
{
    match notice {
        NoticeEvent::FriendRecall(e) => {
            if str_eq(e.self_id.as_str(), e.user_id.as_str()) {
                RecallPlan::Ignore
            } else {
                RecallPlan::Handle {
                    chat_type: ChatType::Private,
                    chat_target_id: e.user_id.clone(),
                    message_id: e.message_id.clone(),
                }
            }
        },
        NoticeEvent::GroupRecall(e) => RecallPlan::Handle {
            chat_type: ChatType::Group,
            chat_target_id: e.group_id.clone(),
            message_id: e.message_id.clone(),
        },
        _ => RecallPlan::Ignore,
    }
}

/// The reply appended under a recalled message.
pub open spec fn spec_recall_reply(title: Seq<char>) -> Seq<char> {
    title + "\n<del>Recalled this message</del>"@
}

pub fn recall_reply_text(title: &String) -> (r: String)
    ensures
        r@ == spec_recall_reply(title@),
{
    let mut r = title.clone();
    r.append("\n<del>Recalled this message</del>");
    r
}

/// A synthetic remote id shape: `fake:` plus 32 lowercase hex digits.
pub open spec fn spec_is_fake_id(s: Seq<char>) -> bool {
    s.len() == 37 && s.take(5) == "fake:"@ && (forall|i: int|
        5 <= i < 37 ==> ('0' <= #[trigger] s[i] && s[i] <= '9') || ('a' <= s[i] && s[i] <= 'f'))
}

/// The synthetic remote id recorded for the recall marker message.
pub fn fake_remote_id(uuid_hex: &String) -> (r: String)
    requires
        uuid_hex@.len() == 32,
        forall|i: int|
            0 <= i < 32 ==> ('0' <= #[trigger] uuid_hex@[i] && uuid_hex@[i] <= '9') || (
            'a' <= uuid_hex@[i] && uuid_hex@[i] <= 'f'),
    ensures
        r@ == "fake:"@ + uuid_hex@,
        spec_is_fake_id(r@),
{
    let mut r = "fake:".to_owned();
    r.append(uuid_hex.as_str());
    proof {
        reveal_strlit("fake:");
        assert(r@ =~= "fake:"@ + uuid_hex@);
        assert(r@.take(5) =~= "fake:"@);
    }
    r
}


/// Relies on uuid's v4 generator in simple form: 32 lowercase hex
/// digits. The value is random; nothing more is assumed of it.
#[verifier::external_body]
pub fn new_uuid_hex() -> (r: String)
    ensures
        r@.len() == 32,
        forall|i: int|
            0 <= i < 32 ==> ('0' <= #[trigger] r@[i] && r@[i] <= '9') || ('a' <= r@[i] && r@[i]
                <= 'f'),
{
    uuid::Uuid::new_v4().simple().to_string()
}

/// A message event with no segments is skipped outright.
pub fn is_empty_message(message: &MessageEvent) -> (r: bool)
    ensures
        r == (message.message@.len() == 0),
{
    message.message.len() == 0
}

} // verus!
