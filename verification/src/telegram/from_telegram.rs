//! The Telegram-to-event pipeline: which remote conversation an update
//! addresses, how its media become OneBot segments, and the GIF size
//! boundary.

use vstd::prelude::*;

verus! {

use crate::common::{ChatType, Platform};
use crate::onebot::protocol::segment::{Segment, SegView, Image, Record, Video, File, Location, Json};
use crate::telegram::bridge::{Bridge, b64_of, generate_file_base64};
use crate::telegram::telegram_helper::{ReplyHeader, TgDocumentInfo, is_raw_photo, is_gif};
use vstd::string::StringExecFns;

/// GIF documents above this many bytes are forwarded as video: 100 KiB.
pub const GIF_THRESHOLD: usize = 102400;

// ---------- target resolution ----------


/// Which remote conversation a Telegram update addresses.
#[derive(Debug, Clone, Copy, PartialEq, Eq, Structural)]
pub enum OutboundTarget {
    /// The update belongs to this remote conversation.
    Remote { remote_chat_id: i64 },
    /// Nothing maps it: the user gets an advisory reply.
    Unmapped,
}

/// Resolves the remote conversation of an update, in the fixed order: a
/// Link on the chat wins; else a forum reply resolves through the
/// archive's topics; else a plain reply resolves through the message
/// mapping; else the update is unmapped.
/// Whether any link binds this Telegram chat.
pub open spec fn spec_chat_linked(bridge: Bridge, tg_chat_id: i64) -> bool {
    exists|i: int|
        0 <= i < bridge.spec_links().len() && (#[trigger] bridge.spec_links()[i]).tg_chat_id
            == tg_chat_id
}

/// A link of this chat resolves to this remote chat.
pub open spec fn spec_link_resolves(bridge: Bridge, tg_chat_id: i64, remote_chat_id: i64) -> bool {
    exists|i: int, c: int|
        0 <= i < bridge.spec_links().len() && 0 <= c < bridge.spec_remote_chats().len() && (
        #[trigger] bridge.spec_links()[i]).tg_chat_id == tg_chat_id && (
        #[trigger] bridge.spec_remote_chats()[c]).id == bridge.spec_links()[i].remote_chat_id
            && remote_chat_id == bridge.spec_remote_chats()[c].id
}

/// The forum topic a reply header addresses: the thread's top message
/// when present, else the replied-to message; only in forum threads.
pub open spec fn spec_forum_topic_of(reply: Option<ReplyHeader>) -> Option<i32> {
    match reply {
        Some(h) => if h.forum_topic {
            (match h.reply_to_top_id {
                Some(t) => Some(t),
                None => h.reply_to_msg_id,
            })
        } else {
            None
        },
        None => None,
    }
}

/// A mapped Telegram message in this chat resolves to this remote chat.
pub open spec fn spec_reply_resolves(
    bridge: Bridge,
    tg_chat_id: i64,
    tg_msg_id: i32,
    remote_chat_id: i64,
) -> bool {
    exists|m: int, c: int|
        0 <= m < bridge.spec_messages().len() && 0 <= c < bridge.spec_remote_chats().len() && (
        #[trigger] bridge.spec_messages()[m]).spec_tg_key_is(tg_chat_id, tg_msg_id) && (
        #[trigger] bridge.spec_remote_chats()[c]).id == bridge.spec_messages()[m].remote_chat_id
            && remote_chat_id == bridge.spec_remote_chats()[c].id
}

/// Resolves the remote conversation of an update, in the fixed order: a
/// Link on the chat wins; else a forum reply resolves through the
/// archive's topics; else a plain reply resolves through the message
/// mapping; else the update is unmapped. Whenever the consulted table
/// holds a resolving row, resolution is owed.
pub fn resolve_outbound_target(
    bridge: &Bridge,
    tg_chat_id: i64,
    reply: &Option<ReplyHeader>,
) -> (r: OutboundTarget)
    requires
        bridge.wf(),
    ensures
        spec_chat_linked(*bridge, tg_chat_id) ==> (match r {
            OutboundTarget::Remote { remote_chat_id } => spec_link_resolves(
                *bridge,
                tg_chat_id,
                remote_chat_id,
            ),
            OutboundTarget::Unmapped => forall|id: i64|
                !spec_link_resolves(*bridge, tg_chat_id, id),
        }),
        !spec_chat_linked(*bridge, tg_chat_id) && (reply matches Some(h) && h.forum_topic) ==> (
        match spec_forum_topic_of(*reply) {
            Some(topic_id) => (match r {
                OutboundTarget::Remote { remote_chat_id } => exists|t: int, a: int, c: int|
                    #[trigger] bridge.spec_topic_join(tg_chat_id, topic_id, t, a, c)
                        && bridge.spec_remote_chats()[c].id == remote_chat_id,
                OutboundTarget::Unmapped => forall|t: int, a: int, c: int|
                    !(#[trigger] bridge.spec_topic_join(tg_chat_id, topic_id, t, a, c)),
            }),
            None => r is Unmapped,
        }),
        !spec_chat_linked(*bridge, tg_chat_id) && (reply matches Some(h) && !h.forum_topic
            && h.reply_to_msg_id is Some) ==> (match r {
            OutboundTarget::Remote { remote_chat_id } => spec_reply_resolves(
                *bridge,
                tg_chat_id,
                reply->0.reply_to_msg_id->0,
                remote_chat_id,
            ),
            OutboundTarget::Unmapped => forall|id: i64|
                !spec_reply_resolves(*bridge, tg_chat_id, reply->0.reply_to_msg_id->0, id),
        }),
        !spec_chat_linked(*bridge, tg_chat_id) && (reply matches Some(h) && !h.forum_topic
            && h.reply_to_msg_id is None) ==> r is Unmapped,
        !spec_chat_linked(*bridge, tg_chat_id) && reply is None ==> r is Unmapped,
{
    match bridge.find_link_by_tg(tg_chat_id) {
        Some(link) => {
            let remote_id = link.remote_chat_id;
            match bridge.find_remote_chat_by_id(remote_id) {
                Some(chat) => OutboundTarget::Remote { remote_chat_id: chat.id },
                None => OutboundTarget::Unmapped,
            }
        },
        None => {
            match reply {
                Some(h) => {
                    if h.forum_topic {
                        let topic_id = match h.reply_to_top_id {
                            Some(t) => Some(t),
                            None => h.reply_to_msg_id,
                        };
                        match topic_id {
                            Some(t) => {
                                match bridge.find_archive_by_tg(tg_chat_id, t) {
                                    Some(chat) => OutboundTarget::Remote {
                                        remote_chat_id: chat.id,
                                    },
                                    None => OutboundTarget::Unmapped,
                                }
                            },
                            None => OutboundTarget::Unmapped,
                        }
                    } else {
                        match h.reply_to_msg_id {
                            Some(msg_id) => {
                                match bridge.find_message_by_tg(tg_chat_id, msg_id) {
                                    Some(row) => {
                                        let remote_id = row.remote_chat_id;
                                        match bridge.find_remote_chat_by_id(remote_id) {
                                            Some(chat) => OutboundTarget::Remote {
                                                remote_chat_id: chat.id,
                                            },
                                            None => OutboundTarget::Unmapped,
                                        }
                                    },
                                    None => OutboundTarget::Unmapped,
                                }
                            },
                            None => OutboundTarget::Unmapped,
                        }
                    }
                },
                None => OutboundTarget::Unmapped,
            }
        },
    }
}

/// The addressing of an outbound `send_msg`: private chats address the
/// user, groups the group.
pub fn outbound_addressing(chat_type: ChatType, target_id: &String) -> (r: (
    String,
    Option<String>,
    Option<String>,
))
    ensures
        chat_type == ChatType::Private ==> r.0@ == "private"@ && r.1 is None && (r.2 matches Some(
            u,
        ) && u@ == target_id@),
        chat_type == ChatType::Group ==> r.0@ == "group"@ && (r.1 matches Some(g) && g@
            == target_id@) && r.2 is None,
{
    match chat_type {
        ChatType::Private => ("private".to_owned(), None, Some(target_id.clone())),
        ChatType::Group => ("group".to_owned(), Some(target_id.clone()), None),
    }
}

// ---------- document classification ----------

/// What to do with a Telegram document, per its attributes and size.
#[derive(Debug, Clone, Copy, PartialEq, Eq, Structural)]
pub enum DocPlan {
    /// A voice note: a `record` segment with an `.ogg` name.
    Voice,
    /// A video: a `video` segment.
    Video,
    /// An uncompressed photo: an `image` segment.
    RawPhoto,
    /// An animated GIF above the threshold: forwarded as `video`.
    GifAsVideo,
    /// An animated GIF at or under the threshold: transcoded to a GIF
    /// image.
    GifTranscode,
    /// Anything else: a `file` segment.
    PlainFile,
}

/// Classifies a document. The voice flag wins, then the video flag, then
/// the uncompressed-photo attribute; an animated GIF is forwarded as
/// video above 100 KiB and transcoded to a GIF image otherwise.
pub fn classify_document(doc: &TgDocumentInfo, size: usize) -> (r: DocPlan)
    ensures
        r == (if doc.voice {
            DocPlan::Voice
        } else if doc.video {
            DocPlan::Video
        } else if doc.has_image_size_attr {
            DocPlan::RawPhoto
        } else if !doc.video && doc.has_video_attr {
            if size > 102400 {
                DocPlan::GifAsVideo
            } else {
                DocPlan::GifTranscode
            }
        } else {
            DocPlan::PlainFile
        }),
{
    if doc.voice {
        DocPlan::Voice
    } else if doc.video {
        DocPlan::Video
    } else if is_raw_photo(doc) {
        DocPlan::RawPhoto
    } else if is_gif(doc) {
        if size > GIF_THRESHOLD {
            DocPlan::GifAsVideo
        } else {
            DocPlan::GifTranscode
        }
    } else {
        DocPlan::PlainFile
    }
}

/// What to do with a sticker, by its MIME type.
#[derive(Debug, Clone, Copy, PartialEq, Eq, Structural)]
pub enum StickerPlan {
    /// `video/webm`: transcode to a GIF image.
    WebmToGif,
    /// `application/x-tgsticker`: unpack and render to a GIF image.
    TgsToGif,
    /// Any other named type goes out as a plain file.
    AsFile,
    /// A sticker without a MIME type is dropped.
    Skip,
}

pub fn classify_sticker(mime: &Option<String>) -> (r: StickerPlan)
    ensures
        r == (match mime {
            Some(m) => if m@ == "video/webm"@ {
                StickerPlan::WebmToGif
            } else if m@ == "application/x-tgsticker"@ {
                StickerPlan::TgsToGif
            } else {
                StickerPlan::AsFile
            },
            None => StickerPlan::Skip,
        }),
{
    match mime {
        Some(m) => {
            if crate::telegram::telegram_helper::mime_is_webm(m.as_str()) {
                StickerPlan::WebmToGif
            } else if crate::telegram::telegram_helper::mime_is_tgsticker(m.as_str()) {
                StickerPlan::TgsToGif
            } else {
                StickerPlan::AsFile
            }
        },
        None => StickerPlan::Skip,
    }
}

// ---------- outbound segment builders ----------

/// An `image` segment carrying downloaded bytes inline.
pub fn outbound_image_segment(data: &Vec<u8>, file_name: String) -> (r: Segment)
    ensures
        r@ matches SegView::Image { file, name, url, summary, emoji_id } && file == "base64://"@
            + b64_of(data@) && name == Some(file_name@) && url is None && summary is None
            && emoji_id is None,
{
    Segment::Image(
        Image {
            file: generate_file_base64(data),
            name: Some(file_name),
            url: None,
            summary: None,
            emoji_id: None,
        },
    )
}

/// A `record` segment carrying downloaded bytes inline.
pub fn outbound_record_segment(data: &Vec<u8>, file_name: String) -> (r: Segment)
    ensures
        r@ matches SegView::Record { file, name } && file == "base64://"@ + b64_of(data@)
            && name == Some(file_name@),
{
    Segment::Record(Record { file: generate_file_base64(data), name: Some(file_name) })
}

/// A `video` segment carrying downloaded bytes inline.
pub fn outbound_video_segment(data: &Vec<u8>, file_name: String) -> (r: Segment)
    ensures
        r@ matches SegView::Video { file, name, url } && file == "base64://"@ + b64_of(data@)
            && name == Some(file_name@) && url is None,
{
    Segment::Video(Video { file: generate_file_base64(data), name: Some(file_name), url: None })
}

/// A `file` segment carrying downloaded bytes inline.
pub fn outbound_file_segment(data: &Vec<u8>, file_name: String) -> (r: Segment)
    ensures
        r@ matches SegView::File { file, name } && file == "base64://"@ + b64_of(data@) && name
            == Some(file_name@),
{
    Segment::File(File { file: generate_file_base64(data), name: Some(file_name) })
}

/// A known reply mapping goes first in the outbound list, so the remote
/// side renders the quote ahead of the content.
pub fn prepend_reply(segments: &mut Vec<Segment>, remote_msg_id: String)
    ensures
        final(segments)@.len() == old(segments)@.len() + 1,
        final(segments)@[0]@ matches SegView::Reply { id } && id == remote_msg_id@,
        forall|i: int|
            0 <= i < old(segments)@.len() ==> final(segments)@[i + 1] == old(segments)@[i],
{
    segments.insert(0, Segment::Reply(crate::onebot::protocol::segment::Reply { id: remote_msg_id }));
}

// ---------- geography ----------

/// The QQ location card body for a shared point; coordinates arrive as
/// decimal text already rounded by the caller.
pub open spec fn spec_qq_location_json(
    title: Seq<char>,
    content: Seq<char>,
    lat: Seq<char>,
    lon: Seq<char>,
) -> Seq<char> {
    "\n                    {\n                        \"app\": \"com.tencent.map\",\n                        \"desc\": \"地图\",\n                        \"view\": \"LocationShare\",\n                        \"ver\": \"0.0.0.1\",\n                        \"prompt\": \"[位置]"@ + title + "\",\n                        \"from\": 1,\n                        \"meta\": {\n                            \"Location.Search\": {\n                                \"id\": \"12250896297164027526\",\n                                \"name\": \""@ + title + "\",\n                                \"address\": \""@ + content + "\",\n                                \"lat\": \""@ + lat + "\",\n                                \"lng\": \""@ + lon + "\",\n                                \"from\": \"plusPanel\"\n                            }\n                        },\n                        \"config\": {\n                            \"forward\": 1,\n                            \"autosize\": 1,\n                            \"type\": \"card\"\n                        }\n                    }\n                    "@
}

fn qq_location_json(title: &str, content: &str, lat: &str, lon: &str) -> (r: String)
    ensures
        r@ == spec_qq_location_json(title@, content@, lat@, lon@),
{
    let mut r = "\n                    {\n                        \"app\": \"com.tencent.map\",\n                        \"desc\": \"地图\",\n                        \"view\": \"LocationShare\",\n                        \"ver\": \"0.0.0.1\",\n                        \"prompt\": \"[位置]".to_owned();
    r.append(title);
    r.append("\",\n                        \"from\": 1,\n                        \"meta\": {\n                            \"Location.Search\": {\n                                \"id\": \"12250896297164027526\",\n                                \"name\": \"");
    r.append(title);
    r.append("\",\n                                \"address\": \"");
    r.append(content);
    r.append("\",\n                                \"lat\": \"");
    r.append(lat);
    r.append("\",\n                                \"lng\": \"");
    r.append(lon);
    r.append("\",\n                                \"from\": \"plusPanel\"\n                            }\n                        },\n                        \"config\": {\n                            \"forward\": 1,\n                            \"autosize\": 1,\n                            \"type\": \"card\"\n                        }\n                    }\n                    ");
    proof {
        assert(r@ =~= spec_qq_location_json(title@, content@, lat@, lon@));
    }
    r
}

/// A geo point or venue for the remote side: QQ gets its map card as a
/// `json` segment, WeChat a plain `location` segment; Telegram itself is
/// never a remote target.
pub fn generate_location_segment(
    platform: Platform,
    title: &String,
    content: &String,
    lat: &String,
    lon: &String,
) -> (r: Result<Segment, ()>)
    ensures
        match platform {
            Platform::QQ => r matches Ok(s) && s@ matches SegView::Json { data } && data
                == spec_qq_location_json(title@, content@, lat@, lon@),
            Platform::WeChat => r matches Ok(s) && s@ matches SegView::Location {
                lat: la,
                lon: lo,
                title: t,
                content: c,
            } && la == lat@ && lo == lon@ && t == Some(title@) && c == Some(content@),
            Platform::Telegram => r is Err,
        },
{
    match platform {
        Platform::QQ => Ok(
            Segment::Json(
                Json {
                    data: qq_location_json(
                        title.as_str(),
                        content.as_str(),
                        lat.as_str(),
                        lon.as_str(),
                    ),
                },
            ),
        ),
        Platform::WeChat => Ok(
            Segment::Location(
                Location {
                    lat: lat.clone(),
                    lon: lon.clone(),
                    title: Some(title.clone()),
                    content: Some(content.clone()),
                },
            ),
        ),
        Platform::Telegram => Err(()),
    }
}


// ---------- user-facing replies ----------

/// The reply when no link, topic or mapping resolves the update.
pub fn unmapped_reply_text() -> (r: String)
    ensures
        r@ == "<b>The message can't be mapped to a remote chat</b>"@,
{
    "<b>The message can't be mapped to a remote chat</b>".to_owned()
}

/// The reply when the update yields no sendable segments.
pub fn convert_failed_text() -> (r: String)
    ensures
        r@ == "<b>Failed to convert message for remote</b>"@,
{
    "<b>Failed to convert message for remote</b>".to_owned()
}

/// The reply when the remote side rejects the send.
pub fn send_failed_text() -> (r: String)
    ensures
        r@ == "<b>Failed to send message to remote</b>"@,
{
    "<b>Failed to send message to remote</b>".to_owned()
}

} // verus!
