//! Plain-value views of Telegram updates: chat classes, reply headers,
//! command entities and document attributes, with the small decisions
//! made over them.

use vstd::prelude::*;

verus! {

use crate::text::str_eq;
use vstd::string::StrSliceExecFns;

/// The class of a Telegram chat, as the client reports it.
#[derive(Debug, Clone, Copy, PartialEq, Eq, Structural)]
pub enum TgChat {
    User,
    Bot,
    /// A legacy small group.
    BasicGroup,
    Megagroup { forum: bool },
    Gigagroup,
    Broadcast,
}

/// The packed-type code the client uses for each chat class; forum and
/// plain megagroups share one code.
pub open spec fn spec_packed_type(chat: TgChat) -> u8 {
    match chat {
        TgChat::User => 2,
        TgChat::Bot => 3,
        TgChat::BasicGroup => 4,
        TgChat::Megagroup { .. } => 40,
        TgChat::Broadcast => 48,
        TgChat::Gigagroup => 56,
    }
}

pub fn get_packed_type(chat: &TgChat) -> (r: u8)
    ensures
        r == spec_packed_type(*chat),
{
    match chat {
        TgChat::User => 2,
        TgChat::Bot => 3,
        TgChat::BasicGroup => 4,
        TgChat::Megagroup { .. } => 40,
        TgChat::Broadcast => 48,
        TgChat::Gigagroup => 56,
    }
}

/// The chat class a stored packed-type code names; unknown codes fall
/// back to a user chat, as the client's unpacking does.
pub fn chat_of_packed_type(code: u8) -> (r: TgChat)
    ensures
        r == (if code == 2 {
            TgChat::User
        } else if code == 3 {
            TgChat::Bot
        } else if code == 4 {
            TgChat::BasicGroup
        } else if code == 40 {
            TgChat::Megagroup { forum: false }
        } else if code == 48 {
            TgChat::Broadcast
        } else if code == 56 {
            TgChat::Gigagroup
        } else {
            TgChat::User
        }),
{
    if code == 2 {
        TgChat::User
    } else if code == 3 {
        TgChat::Bot
    } else if code == 4 {
        TgChat::BasicGroup
    } else if code == 40 {
        TgChat::Megagroup { forum: false }
    } else if code == 48 {
        TgChat::Broadcast
    } else if code == 56 {
        TgChat::Gigagroup
    } else {
        TgChat::User
    }
}

/// A message's reply header, as the update carries it.
#[derive(Debug, Clone, Copy, PartialEq, Eq, Structural)]
pub struct ReplyHeader {
    pub forum_topic: bool,
    pub reply_to_top_id: Option<i32>,
    pub reply_to_msg_id: Option<i32>,
}

/// The topic a message sits under: in a forum thread the thread's top
/// message, otherwise whatever the message replies to.
pub open spec fn spec_topic_id(reply: Option<ReplyHeader>) -> Option<i32> {
    match reply {
        Some(h) => if h.forum_topic && h.reply_to_top_id is Some {
            h.reply_to_top_id
        } else {
            h.reply_to_msg_id
        },
        None => None,
    }
}

pub fn get_topic_id(reply: &Option<ReplyHeader>) -> (r: Option<i32>)
    ensures
        r == spec_topic_id(*reply),
{
    match reply {
        Some(h) => {
            if h.forum_topic && h.reply_to_top_id.is_some() {
                h.reply_to_top_id
            } else {
                h.reply_to_msg_id
            }
        },
        None => None,
    }
}

/// Only inbound messages from the configured admin are processed;
/// everything else is silently ignored.
pub fn check_sender(admin_id: i64, outgoing: bool, sender_id: Option<i64>) -> (r: bool)
    ensures
        r == (!outgoing && sender_id == Some(admin_id)),
{
    !outgoing && (match sender_id {
        Some(id) => id == admin_id,
        None => false,
    })
}

/// The first formatting entity of a message, when it is a bot command.
#[derive(Debug, Clone, Copy, PartialEq, Eq, Structural)]
pub struct BotCommandEntity {
    pub offset: i32,
    pub length: i32,
}

/// The command a message carries: the slice of its text covered by the
/// first bot-command entity, when the entity fits the text.
pub fn get_command(text: &str, first_command: &Option<BotCommandEntity>) -> (r: Option<String>)
    ensures
        match r {
            Some(cmd) => first_command matches Some(e) && 0 <= e.offset && 0 <= e.length
                && e.offset + e.length <= text@.len() && cmd@ == text@.subrange(
                e.offset as int,
                e.offset as int + e.length as int,
            ),
            None => first_command is None || (first_command matches Some(e) && (e.offset < 0
                || e.length < 0 || e.offset + e.length > text@.len())),
        },
{
    match first_command {
        Some(e) => {
            if e.offset < 0 || e.length < 0 {
                return None;
            }
            let start = e.offset as usize;
            let len = e.length as usize;
            let n = text.unicode_len();
            if start <= n && len <= n - start {
                let cmd = text.substring_char(start, start + len);
                Some(cmd.to_owned())
            } else {
                None
            }
        },
        None => None,
    }
}

/// The attributes of a Telegram document the pipeline reads.
#[derive(Debug, Clone)]
pub struct TgDocumentInfo {
    /// The document's voice-note flag.
    pub voice: bool,
    /// The document's round-video flag.
    pub video: bool,
    /// Whether an image-size attribute is present: an uncompressed photo.
    pub has_image_size_attr: bool,
    /// Whether a video attribute is present.
    pub has_video_attr: bool,
    pub mime_type: Option<String>,
}

/// An uncompressed photo: a document with an image-size attribute.
pub fn is_raw_photo(doc: &TgDocumentInfo) -> (r: bool)
    ensures
        r == doc.has_image_size_attr,
{
    doc.has_image_size_attr
}

/// An animated GIF as Telegram stores it: a video container without the
/// video flag.
pub fn is_gif(doc: &TgDocumentInfo) -> (r: bool)
    ensures
        r == (!doc.video && doc.has_video_attr),
{
    if doc.video {
        false
    } else {
        doc.has_video_attr
    }
}

/// Whether a sticker's MIME type calls for the WebM conversion.
pub fn mime_is_webm(mime: &str) -> (r: bool)
    ensures
        r == (mime@ == "video/webm"@),
{
    str_eq(mime, "video/webm")
}

/// Whether a sticker's MIME type names a vector animation.
pub fn mime_is_tgsticker(mime: &str) -> (r: bool)
    ensures
        r == (mime@ == "application/x-tgsticker"@),
{
    str_eq(mime, "application/x-tgsticker")
}

} // verus!
