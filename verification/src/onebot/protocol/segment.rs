//! Message segments: the tagged pieces a OneBot message is made of, with
//! their plain-text fallback rendering and their JSON form.

use vstd::prelude::*;

verus! {

use crate::onebot::protocol::json::{
    JsonVal, JsonValue, spec_get, spec_str_field, spec_opt_str_field, spec_num_text_field,
    str_field, opt_str_field, num_text_field, json_views, lemma_json_views,
    json_field_views, lemma_json_field_views,
};
use crate::text::str_eq;
use vstd::string::StringExecFns;

/// View of an optional owned string.
pub open spec fn opt_text(o: Option<String>) -> Option<Seq<char>> {
    match o {
        Some(s) => Some(s@),
        None => None,
    }
}

#[derive(Debug, Clone)]
pub struct Text {
    pub text: String,
}

#[derive(Debug, Clone)]
pub struct Face {
    pub id: String,
}

#[derive(Debug, Clone)]
pub struct MarketFace {
    pub emoji_id: String,
    pub url: Option<String>,
}

#[derive(Debug, Clone)]
pub struct Image {
    pub file: String,
    pub name: Option<String>,
    pub url: Option<String>,
    pub summary: Option<String>,
    pub emoji_id: Option<String>,
}

#[derive(Debug, Clone)]
pub struct Record {
    pub file: String,
    pub name: Option<String>,
}

#[derive(Debug, Clone)]
pub struct Video {
    pub file: String,
    pub name: Option<String>,
    pub url: Option<String>,
}

#[derive(Debug, Clone)]
pub struct File {
    pub file: String,
    pub name: Option<String>,
}

#[derive(Debug, Clone)]
pub struct At {
    pub id: String,
}

#[derive(Debug, Clone)]
pub struct Poke {
    pub type_: String,
    pub id: String,
    pub name: Option<String>,
}

#[derive(Debug, Clone)]
pub struct Share {
    pub url: String,
    pub title: String,
    pub content: Option<String>,
    pub image: Option<String>,
}

#[derive(Debug, Clone)]
pub struct Contact {
    pub type_: String,
    pub id: String,
}

/// A shared location; coordinates are carried as decimal text.
#[derive(Debug, Clone)]
pub struct Location {
    pub lat: String,
    pub lon: String,
    pub title: Option<String>,
    pub content: Option<String>,
}

#[derive(Debug, Clone)]
pub struct Music {
    pub type_: String,
    pub id: Option<String>,
    pub url: Option<String>,
    pub audio: Option<String>,
    pub title: Option<String>,
    pub content: Option<String>,
    pub image: Option<String>,
}

#[derive(Debug, Clone)]
pub struct Reply {
    pub id: String,
}

#[derive(Debug, Clone)]
pub struct Forward {
    pub id: String,
}

#[derive(Debug)]
pub struct Node {
    pub id: Option<String>,
    pub user_id: Option<String>,
    pub nickname: Option<String>,
    pub content: Option<Vec<Segment>>,
}

#[derive(Debug, Clone)]
pub struct Xml {
    pub data: String,
}

#[derive(Debug, Clone)]
pub struct Json {
    pub data: String,
}

/// One piece of a OneBot message.
#[derive(Debug)]
pub enum Segment {
    Text(Text),
    Face(Face),
    MarketFace(MarketFace),
    Image(Image),
    Record(Record),
    Video(Video),
    File(File),
    At(At),
    Rps,
    Dice,
    Shake,
    Poke(Poke),
    Anonymous,
    Share(Share),
    Contact(Contact),
    Location(Location),
    Music(Music),
    Reply(Reply),
    Forward(Forward),
    Node(Node),
    Xml(Xml),
    Json(Json),
}

/// Mathematical mirror of [`Segment`].
pub enum SegView {
    Text { text: Seq<char> },
    Face { id: Seq<char> },
    MarketFace { emoji_id: Seq<char>, url: Option<Seq<char>> },
    Image {
        file: Seq<char>,
        name: Option<Seq<char>>,
        url: Option<Seq<char>>,
        summary: Option<Seq<char>>,
        emoji_id: Option<Seq<char>>,
    },
    Record { file: Seq<char>, name: Option<Seq<char>> },
    Video { file: Seq<char>, name: Option<Seq<char>>, url: Option<Seq<char>> },
    File { file: Seq<char>, name: Option<Seq<char>> },
    At { id: Seq<char> },
    Rps,
    Dice,
    Shake,
    Poke { type_: Seq<char>, id: Seq<char>, name: Option<Seq<char>> },
    Anonymous,
    Share {
        url: Seq<char>,
        title: Seq<char>,
        content: Option<Seq<char>>,
        image: Option<Seq<char>>,
    },
    Contact { type_: Seq<char>, id: Seq<char> },
    Location {
        lat: Seq<char>,
        lon: Seq<char>,
        title: Option<Seq<char>>,
        content: Option<Seq<char>>,
    },
    Music {
        type_: Seq<char>,
        id: Option<Seq<char>>,
        url: Option<Seq<char>>,
        audio: Option<Seq<char>>,
        title: Option<Seq<char>>,
        content: Option<Seq<char>>,
        image: Option<Seq<char>>,
    },
    Reply { id: Seq<char> },
    Forward { id: Seq<char> },
    Node {
        id: Option<Seq<char>>,
        user_id: Option<Seq<char>>,
        nickname: Option<Seq<char>>,
        content: Option<Seq<SegView>>,
    },
    Xml { data: Seq<char> },
    Json { data: Seq<char> },
}

impl View for Segment {
    type V = SegView;

    open spec fn view(&self) -> SegView
        decreases self,
    {
        match self {
            Segment::Text(s) => SegView::Text { text: s.text@ },
            Segment::Face(s) => SegView::Face { id: s.id@ },
            Segment::MarketFace(s) => SegView::MarketFace {
                emoji_id: s.emoji_id@,
                url: opt_text(s.url),
            },
            Segment::Image(s) => SegView::Image {
                file: s.file@,
                name: opt_text(s.name),
                url: opt_text(s.url),
                summary: opt_text(s.summary),
                emoji_id: opt_text(s.emoji_id),
            },
            Segment::Record(s) => SegView::Record { file: s.file@, name: opt_text(s.name) },
            Segment::Video(s) => SegView::Video {
                file: s.file@,
                name: opt_text(s.name),
                url: opt_text(s.url),
            },
            Segment::File(s) => SegView::File { file: s.file@, name: opt_text(s.name) },
            Segment::At(s) => SegView::At { id: s.id@ },
            Segment::Rps => SegView::Rps,
            Segment::Dice => SegView::Dice,
            Segment::Shake => SegView::Shake,
            Segment::Poke(s) => SegView::Poke {
                type_: s.type_@,
                id: s.id@,
                name: opt_text(s.name),
            },
            Segment::Anonymous => SegView::Anonymous,
            Segment::Share(s) => SegView::Share {
                url: s.url@,
                title: s.title@,
                content: opt_text(s.content),
                image: opt_text(s.image),
            },
            Segment::Contact(s) => SegView::Contact { type_: s.type_@, id: s.id@ },
            Segment::Location(s) => SegView::Location {
                lat: s.lat@,
                lon: s.lon@,
                title: opt_text(s.title),
                content: opt_text(s.content),
            },
            Segment::Music(s) => SegView::Music {
                type_: s.type_@,
                id: opt_text(s.id),
                url: opt_text(s.url),
                audio: opt_text(s.audio),
                title: opt_text(s.title),
                content: opt_text(s.content),
                image: opt_text(s.image),
            },
            Segment::Reply(s) => SegView::Reply { id: s.id@ },
            Segment::Forward(s) => SegView::Forward { id: s.id@ },
            Segment::Node(s) => SegView::Node {
                id: opt_text(s.id),
                user_id: opt_text(s.user_id),
                nickname: opt_text(s.nickname),
                content: match &s.content {
                    Some(items) => Some(seg_views(items@)),
                    None => None,
                },
            },
            Segment::Xml(s) => SegView::Xml { data: s.data@ },
            Segment::Json(s) => SegView::Json { data: s.data@ },
        }
    }
}

/// Element-wise view of a list of segments.
pub open spec fn seg_views(items: Seq<Segment>) -> Seq<SegView>
    decreases items,
{
    if items.len() == 0 {
        Seq::empty()
    } else {
        seq![items[0]@] + seg_views(items.skip(1))
    }
}

pub proof fn lemma_seg_views(items: Seq<Segment>)
    ensures
        seg_views(items).len() == items.len(),
        forall|i: int| 0 <= i < items.len() ==> #[trigger] seg_views(items)[i] == items[i]@,
    decreases items.len(),
{
    if items.len() > 0 {
        assert(seg_views(items) == seq![items[0]@] + seg_views(items.skip(1)));
        lemma_seg_views(items.skip(1));
        assert forall|i: int| 0 <= i < items.len() implies #[trigger] seg_views(items)[i]
            == items[i]@ by {
            if i > 0 {
                assert(seg_views(items)[i] == seg_views(items.skip(1))[i - 1]);
                assert(items.skip(1)[i - 1] == items[i]);
            }
        }
    }
}

// ---------- fallback rendering ----------

/// The plain-text stand-in for a segment, used when content is carried as
/// text and for the stored `content` column.
pub open spec fn spec_fallback_text(s: SegView) -> Seq<char> {
    match s {
        SegView::Text { text } => text,
        SegView::Face { id } => "/[Face"@ + id + "]"@,
        SegView::MarketFace { .. } => "[表情]"@,
        SegView::Image { .. } => "[图片]"@,
        SegView::Record { .. } => "[语音]"@,
        SegView::Video { .. } => "[视频]"@,
        SegView::File { .. } => "[文件]"@,
        SegView::At { id } => "@"@ + id,
        SegView::Rps => "[猜拳]"@,
        SegView::Dice => "[掷骰子]"@,
        SegView::Shake => "[窗口抖动]"@,
        SegView::Poke { .. } => "[戳一戳]"@,
        SegView::Anonymous => "[匿名]"@,
        SegView::Share { url, title, .. } => "["@ + title + ","@ + url + "]"@,
        SegView::Contact { .. } => "[推荐]"@,
        SegView::Location { .. } => "[位置]"@,
        SegView::Music { .. } => "[音乐]"@,
        SegView::Reply { .. } => "[回复]"@,
        SegView::Forward { .. } => "[合并转发]"@,
        SegView::Node { .. } => "[合并转发节点]"@,
        SegView::Xml { .. } => "[XML]"@,
        SegView::Json { .. } => "[JSON]"@,
    }
}

impl Segment {
    /// Plain-text fallback of this segment.
    pub fn fallback_text(&self) -> (r: String)
        ensures
            r@ == spec_fallback_text(self@),
    {
        match self {
            Segment::Text(s) => s.text.clone(),
            Segment::Face(s) => {
                let mut r = "/[Face".to_owned();
                r.append(s.id.as_str());
                r.append("]");
                proof {
                    assert(r@ =~= spec_fallback_text(self@));
                }
                r
            },
            Segment::MarketFace(_) => "[表情]".to_owned(),
            Segment::Image(_) => "[图片]".to_owned(),
            Segment::Record(_) => "[语音]".to_owned(),
            Segment::Video(_) => "[视频]".to_owned(),
            Segment::File(_) => "[文件]".to_owned(),
            Segment::At(s) => {
                let mut r = "@".to_owned();
                r.append(s.id.as_str());
                proof {
                    assert(r@ =~= spec_fallback_text(self@));
                }
                r
            },
            Segment::Rps => "[猜拳]".to_owned(),
            Segment::Dice => "[掷骰子]".to_owned(),
            Segment::Shake => "[窗口抖动]".to_owned(),
            Segment::Poke(_) => "[戳一戳]".to_owned(),
            Segment::Anonymous => "[匿名]".to_owned(),
            Segment::Share(s) => {
                let mut r = "[".to_owned();
                r.append(s.title.as_str());
                r.append(",");
                r.append(s.url.as_str());
                r.append("]");
                proof {
                    assert(r@ =~= spec_fallback_text(self@));
                }
                r
            },
            Segment::Contact(_) => "[推荐]".to_owned(),
            Segment::Location(_) => "[位置]".to_owned(),
            Segment::Music(_) => "[音乐]".to_owned(),
            Segment::Reply(_) => "[回复]".to_owned(),
            Segment::Forward(_) => "[合并转发]".to_owned(),
            Segment::Node(_) => "[合并转发节点]".to_owned(),
            Segment::Xml(_) => "[XML]".to_owned(),
            Segment::Json(_) => "[JSON]".to_owned(),
        }
    }
}

// ---------- builders ----------

impl Segment {
    pub fn text(text: String) -> (r: Text)
        ensures
            r.text == text,
    {
        Text { text }
    }

    pub fn face(id: String) -> (r: Face)
        ensures
            r.id == id,
    {
        Face { id }
    }

    pub fn mface(emoji_id: String, url: Option<String>) -> (r: MarketFace)
        ensures
            r.emoji_id == emoji_id,
            r.url == url,
    {
        MarketFace { emoji_id, url }
    }

    pub fn image(
        file: String,
        name: Option<String>,
        url: Option<String>,
        summary: Option<String>,
        emoji_id: Option<String>,
    ) -> (r: Image)
        ensures
            r.file == file,
            r.name == name,
            r.url == url,
            r.summary == summary,
            r.emoji_id == emoji_id,
    {
        Image { file, name, url, summary, emoji_id }
    }

    pub fn record(file: String, name: Option<String>) -> (r: Record)
        ensures
            r.file == file,
            r.name == name,
    {
        Record { file, name }
    }

    pub fn video(file: String, name: Option<String>, url: Option<String>) -> (r: Video)
        ensures
            r.file == file,
            r.name == name,
            r.url == url,
    {
        Video { file, name, url }
    }

    pub fn file(file: String, name: Option<String>) -> (r: File)
        ensures
            r.file == file,
            r.name == name,
    {
        File { file, name }
    }

    pub fn at(id: String) -> (r: At)
        ensures
            r.id == id,
    {
        At { id }
    }

    pub fn rps() -> (r: Segment)
        ensures
            r is Rps,
    {
        Segment::Rps
    }

    pub fn dice() -> (r: Segment)
        ensures
            r is Dice,
    {
        Segment::Dice
    }

    pub fn shake() -> (r: Segment)
        ensures
            r is Shake,
    {
        Segment::Shake
    }

    pub fn poke(type_: String, id: String, name: Option<String>) -> (r: Poke)
        ensures
            r.type_ == type_,
            r.id == id,
            r.name == name,
    {
        Poke { type_, id, name }
    }

    pub fn anonymous() -> (r: Segment)
        ensures
            r is Anonymous,
    {
        Segment::Anonymous
    }

    pub fn share(
        url: String,
        title: String,
        content: Option<String>,
        image: Option<String>,
    ) -> (r: Share)
        ensures
            r.url == url,
            r.title == title,
            r.content == content,
            r.image == image,
    {
        Share { url, title, content, image }
    }

    pub fn contact(type_: String, id: String) -> (r: Contact)
        ensures
            r.type_ == type_,
            r.id == id,
    {
        Contact { type_, id }
    }

    pub fn location(
        lat: String,
        lon: String,
        title: Option<String>,
        content: Option<String>,
    ) -> (r: Location)
        ensures
            r.lat == lat,
            r.lon == lon,
            r.title == title,
            r.content == content,
    {
        Location { lat, lon, title, content }
    }

    pub fn music(
        type_: String,
        id: Option<String>,
        url: Option<String>,
        audio: Option<String>,
        title: Option<String>,
        content: Option<String>,
        image: Option<String>,
    ) -> (r: Music)
        ensures
            r.type_ == type_,
            r.id == id,
            r.url == url,
            r.audio == audio,
            r.title == title,
            r.content == content,
            r.image == image,
    {
        Music { type_, id, url, audio, title, content, image }
    }

    pub fn reply(id: String) -> (r: Reply)
        ensures
            r.id == id,
    {
        Reply { id }
    }

    pub fn forward(id: String) -> (r: Forward)
        ensures
            r.id == id,
    {
        Forward { id }
    }

    pub fn node(
        id: Option<String>,
        user_id: Option<String>,
        nickname: Option<String>,
        content: Option<Vec<Segment>>,
    ) -> (r: Node)
        ensures
            r.id == id,
            r.user_id == user_id,
            r.nickname == nickname,
            r.content == content,
    {
        Node { id, user_id, nickname, content }
    }

    pub fn xml(data: String) -> (r: Xml)
        ensures
            r.data == data,
    {
        Xml { data }
    }

    pub fn json(data: String) -> (r: Json)
        ensures
            r.data == data,
    {
        Json { data }
    }
}

// ---------- decoding from JSON ----------

/// Payload (`data`) object of a segment; unit variants may omit it.
pub open spec fn spec_seg_data(v: JsonVal) -> Option<JsonVal> {
    spec_get(v, "data"@)
}

/// What a segment object decodes to: discriminated by `type`, payload in
/// `data`; unknown types and malformed payloads are rejected.
pub open spec fn spec_decode_segment(v: JsonVal) -> Option<SegView>
    decreases v, 1int, 0int,
{
    match spec_str_field(v, "type"@) {
        None => None,
        Some(t) => {
            if t == "rps"@ {
                Some(SegView::Rps)
            } else if t == "dice"@ {
                Some(SegView::Dice)
            } else if t == "shake"@ {
                Some(SegView::Shake)
            } else if t == "anonymous"@ {
                Some(SegView::Anonymous)
            } else {
                match spec_seg_data(v) {
                    None => None,
                    Some(d) => spec_decode_seg_payload(v, t, d),
                }
            }
        },
    }
}

pub open spec fn spec_decode_seg_payload(v: JsonVal, t: Seq<char>, d: JsonVal) -> Option<SegView>
    decreases v, 0int, 0int,
{
    if t == "text"@ {
        match spec_str_field(d, "text"@) {
            Some(text) => Some(SegView::Text { text }),
            None => None,
        }
    } else if t == "face"@ {
        match spec_str_field(d, "id"@) {
            Some(id) => Some(SegView::Face { id }),
            None => None,
        }
    } else if t == "mface"@ {
        match (spec_str_field(d, "emoji_id"@), spec_opt_str_field(d, "url"@)) {
            (Some(emoji_id), Ok(url)) => Some(SegView::MarketFace { emoji_id, url }),
            _ => None,
        }
    } else if t == "image"@ {
        match (
            spec_str_field(d, "file"@),
            spec_opt_str_field(d, "name"@),
            spec_opt_str_field(d, "url"@),
            spec_opt_str_field(d, "summary"@),
            spec_opt_str_field(d, "emoji_id"@),
        ) {
            (Some(file), Ok(name), Ok(url), Ok(summary), Ok(emoji_id)) => Some(
                SegView::Image { file, name, url, summary, emoji_id },
            ),
            _ => None,
        }
    } else if t == "record"@ {
        match (spec_str_field(d, "file"@), spec_opt_str_field(d, "name"@)) {
            (Some(file), Ok(name)) => Some(SegView::Record { file, name }),
            _ => None,
        }
    } else if t == "video"@ {
        match (
            spec_str_field(d, "file"@),
            spec_opt_str_field(d, "name"@),
            spec_opt_str_field(d, "url"@),
        ) {
            (Some(file), Ok(name), Ok(url)) => Some(SegView::Video { file, name, url }),
            _ => None,
        }
    } else if t == "file"@ {
        match (spec_str_field(d, "file"@), spec_opt_str_field(d, "name"@)) {
            (Some(file), Ok(name)) => Some(SegView::File { file, name }),
            _ => None,
        }
    } else if t == "at"@ {
        match spec_str_field(d, "qq"@) {
            Some(id) => Some(SegView::At { id }),
            None => None,
        }
    } else if t == "poke"@ {
        match (
            spec_str_field(d, "type"@),
            spec_str_field(d, "id"@),
            spec_opt_str_field(d, "name"@),
        ) {
            (Some(type_), Some(id), Ok(name)) => Some(SegView::Poke { type_, id, name }),
            _ => None,
        }
    } else if t == "share"@ {
        match (
            spec_str_field(d, "url"@),
            spec_str_field(d, "title"@),
            spec_opt_str_field(d, "content"@),
            spec_opt_str_field(d, "image"@),
        ) {
            (Some(url), Some(title), Ok(content), Ok(image)) => Some(
                SegView::Share { url, title, content, image },
            ),
            _ => None,
        }
    } else if t == "contact"@ {
        match (spec_str_field(d, "type"@), spec_str_field(d, "id"@)) {
            (Some(type_), Some(id)) => Some(SegView::Contact { type_, id }),
            _ => None,
        }
    } else if t == "location"@ {
        match (
            spec_num_text_field(d, "lat"@),
            spec_num_text_field(d, "lon"@),
            spec_opt_str_field(d, "title"@),
            spec_opt_str_field(d, "content"@),
        ) {
            (Some(lat), Some(lon), Ok(title), Ok(content)) => Some(
                SegView::Location { lat, lon, title, content },
            ),
            _ => None,
        }
    } else if t == "music"@ {
        match (
            spec_str_field(d, "type"@),
            spec_opt_str_field(d, "id"@),
            spec_opt_str_field(d, "url"@),
            spec_opt_str_field(d, "audio"@),
            spec_opt_str_field(d, "title"@),
            spec_opt_str_field(d, "content"@),
            spec_opt_str_field(d, "image"@),
        ) {
            (Some(type_), Ok(id), Ok(url), Ok(audio), Ok(title), Ok(content), Ok(image)) => Some(
                SegView::Music { type_, id, url, audio, title, content, image },
            ),
            _ => None,
        }
    } else if t == "reply"@ {
        match spec_str_field(d, "id"@) {
            Some(id) => Some(SegView::Reply { id }),
            None => None,
        }
    } else if t == "forward"@ {
        match spec_str_field(d, "id"@) {
            Some(id) => Some(SegView::Forward { id }),
            None => None,
        }
    } else if t == "xml"@ {
        match spec_str_field(d, "data"@) {
            Some(data) => Some(SegView::Xml { data }),
            None => None,
        }
    } else if t == "json"@ {
        match spec_str_field(d, "data"@) {
            Some(data) => Some(SegView::Json { data }),
            None => None,
        }
    } else {
        None
    }
}

/// Nodes of a forward message are not decoded from the wire: no inbound
/// event carries them, so a `node` segment is rejected like an unknown
/// type.
pub fn decode_segment(v: &JsonValue) -> (r: Option<Segment>)
    ensures
        match r {
            Some(s) => spec_decode_segment(v@) == Some(s@),
            None => spec_decode_segment(v@) is None,
        },
{
    let t = match str_field(v, "type") {
        Some(t) => t,
        None => {
            return None;
        },
    };
    let ts = t.as_str();
    if str_eq(ts, "rps") {
        return Some(Segment::Rps);
    }
    if str_eq(ts, "dice") {
        return Some(Segment::Dice);
    }
    if str_eq(ts, "shake") {
        return Some(Segment::Shake);
    }
    if str_eq(ts, "anonymous") {
        return Some(Segment::Anonymous);
    }
    let d = match v.get("data") {
        Some(d) => d,
        None => {
            return None;
        },
    };
    if str_eq(ts, "text") {
        match str_field(d, "text") {
            Some(text) => Some(Segment::Text(Text { text })),
            None => None,
        }
    } else if str_eq(ts, "face") {
        match str_field(d, "id") {
            Some(id) => Some(Segment::Face(Face { id })),
            None => None,
        }
    } else if str_eq(ts, "mface") {
        match (str_field(d, "emoji_id"), opt_str_field(d, "url")) {
            (Some(emoji_id), Ok(url)) => Some(Segment::MarketFace(MarketFace { emoji_id, url })),
            _ => None,
        }
    } else if str_eq(ts, "image") {
        match (
            str_field(d, "file"),
            opt_str_field(d, "name"),
            opt_str_field(d, "url"),
            opt_str_field(d, "summary"),
            opt_str_field(d, "emoji_id"),
        ) {
            (Some(file), Ok(name), Ok(url), Ok(summary), Ok(emoji_id)) => Some(
                Segment::Image(Image { file, name, url, summary, emoji_id }),
            ),
            _ => None,
        }
    } else if str_eq(ts, "record") {
        match (str_field(d, "file"), opt_str_field(d, "name")) {
            (Some(file), Ok(name)) => Some(Segment::Record(Record { file, name })),
            _ => None,
        }
    } else if str_eq(ts, "video") {
        match (str_field(d, "file"), opt_str_field(d, "name"), opt_str_field(d, "url")) {
            (Some(file), Ok(name), Ok(url)) => Some(Segment::Video(Video { file, name, url })),
            _ => None,
        }
    } else if str_eq(ts, "file") {
        match (str_field(d, "file"), opt_str_field(d, "name")) {
            (Some(file), Ok(name)) => Some(Segment::File(File { file, name })),
            _ => None,
        }
    } else if str_eq(ts, "at") {
        match str_field(d, "qq") {
            Some(id) => Some(Segment::At(At { id })),
            None => None,
        }
    } else if str_eq(ts, "poke") {
        match (str_field(d, "type"), str_field(d, "id"), opt_str_field(d, "name")) {
            (Some(type_), Some(id), Ok(name)) => Some(Segment::Poke(Poke { type_, id, name })),
            _ => None,
        }
    } else if str_eq(ts, "share") {
        match (
            str_field(d, "url"),
            str_field(d, "title"),
            opt_str_field(d, "content"),
            opt_str_field(d, "image"),
        ) {
            (Some(url), Some(title), Ok(content), Ok(image)) => Some(
                Segment::Share(Share { url, title, content, image }),
            ),
            _ => None,
        }
    } else if str_eq(ts, "contact") {
        match (str_field(d, "type"), str_field(d, "id")) {
            (Some(type_), Some(id)) => Some(Segment::Contact(Contact { type_, id })),
            _ => None,
        }
    } else if str_eq(ts, "location") {
        match (
            num_text_field(d, "lat"),
            num_text_field(d, "lon"),
            opt_str_field(d, "title"),
            opt_str_field(d, "content"),
        ) {
            (Some(lat), Some(lon), Ok(title), Ok(content)) => Some(
                Segment::Location(Location { lat, lon, title, content }),
            ),
            _ => None,
        }
    } else if str_eq(ts, "music") {
        match (
            str_field(d, "type"),
            opt_str_field(d, "id"),
            opt_str_field(d, "url"),
            opt_str_field(d, "audio"),
            opt_str_field(d, "title"),
            opt_str_field(d, "content"),
            opt_str_field(d, "image"),
        ) {
            (Some(type_), Ok(id), Ok(url), Ok(audio), Ok(title), Ok(content), Ok(image)) => Some(
                Segment::Music(Music { type_, id, url, audio, title, content, image }),
            ),
            _ => None,
        }
    } else if str_eq(ts, "reply") {
        match str_field(d, "id") {
            Some(id) => Some(Segment::Reply(Reply { id })),
            None => None,
        }
    } else if str_eq(ts, "forward") {
        match str_field(d, "id") {
            Some(id) => Some(Segment::Forward(Forward { id })),
            None => None,
        }
    } else if str_eq(ts, "xml") {
        match str_field(d, "data") {
            Some(data) => Some(Segment::Xml(Xml { data })),
            None => None,
        }
    } else if str_eq(ts, "json") {
        match str_field(d, "data") {
            Some(data) => Some(Segment::Json(Json { data })),
            None => None,
        }
    } else {
        None
    }
}

/// What a list of segment objects decodes to: every element must decode.
pub open spec fn spec_decode_segments(items: Seq<JsonVal>) -> Option<Seq<SegView>>
    decreases items.len(),
{
    if items.len() == 0 {
        Some(Seq::empty())
    } else {
        match (spec_decode_segment(items[0]), spec_decode_segments(items.skip(1))) {
            (Some(s), Some(rest)) => Some(seq![s] + rest),
            _ => None,
        }
    }
}

pub fn decode_segments(items: &Vec<JsonValue>) -> (r: Option<Vec<Segment>>)
    ensures
        match r {
            Some(segs) => spec_decode_segments(json_views(items@)) == Some(seg_views(segs@)),
            None => spec_decode_segments(json_views(items@)) is None,
        },
{
    let ghost views = json_views(items@);
    proof {
        lemma_json_views(items@);
    }
    let n = items.len();
    let mut segs: Vec<Segment> = Vec::new();
    let mut i: usize = 0;
    while i < n
        invariant
            0 <= i <= n,
            n == items@.len(),
            views == json_views(items@),
            views.len() == n,
            forall|k: int| 0 <= k < n ==> views[k] == #[trigger] items@[k]@,
            segs@.len() == i,
            forall|k: int| 0 <= k < i ==> Some(#[trigger] segs@[k]@) == spec_decode_segment(
                views[k],
            ),
        decreases n - i,
    {
        match decode_segment(&items[i]) {
            Some(s) => {
                segs.push(s);
            },
            None => {
                proof {
                    lemma_decode_segments_element(views, i as int);
                }
                return None;
            },
        }
        i = i + 1;
    }
    proof {
        lemma_seg_views(segs@);
        lemma_decode_segments_all(views, seg_views(segs@));
    }
    Some(segs)
}

/// When every element decodes, the list decodes to exactly those elements.
proof fn lemma_decode_segments_all(items: Seq<JsonVal>, segs: Seq<SegView>)
    requires
        segs.len() == items.len(),
        forall|k: int| 0 <= k < items.len() ==> Some(#[trigger] segs[k]) == spec_decode_segment(
            items[k],
        ),
    ensures
        spec_decode_segments(items) == Some(segs),
    decreases items.len(),
{
    if items.len() == 0 {
        assert(segs =~= Seq::<SegView>::empty());
    } else {
        lemma_decode_segments_all(items.skip(1), segs.skip(1));
        assert(segs =~= seq![segs[0]] + segs.skip(1));
    }
}

/// When one element fails to decode, the list fails.
proof fn lemma_decode_segments_element(items: Seq<JsonVal>, k: int)
    requires
        0 <= k < items.len(),
        spec_decode_segment(items[k]) is None,
    ensures
        spec_decode_segments(items) is None,
    decreases items.len(),
{
    if items.len() > 0 && k > 0 {
        lemma_decode_segments_element(items.skip(1), k - 1);
    }
}


// ---------- encoding to JSON ----------

/// An optional string on the wire: absent values are `null`.
pub open spec fn enc_opt(o: Option<Seq<char>>) -> JsonVal {
    match o {
        Some(s) => JsonVal::Text(s),
        None => JsonVal::Null,
    }
}

/// The wire object of a segment with a payload.
pub open spec fn seg_obj(t: Seq<char>, data: Seq<(Seq<char>, JsonVal)>) -> JsonVal {
    JsonVal::Object(seq![("type"@, JsonVal::Text(t)), ("data"@, JsonVal::Object(data))])
}

/// The wire object of a payload-free segment.
pub open spec fn unit_seg_obj(t: Seq<char>) -> JsonVal {
    JsonVal::Object(seq![("type"@, JsonVal::Text(t))])
}

/// The wire form of a forward node's nested content.
pub open spec fn spec_encode_node_content(content: Option<Vec<Segment>>) -> JsonVal
    decreases content,
{
    match content {
        Some(items) => JsonVal::Array(spec_encode_segments(items@)),
        None => JsonVal::Null,
    }
}

/// The wire form of a segment: tagged by `type`, payload under `data`,
/// optional fields as `null` when absent.
pub open spec fn spec_encode_segment(seg: Segment) -> JsonVal
    decreases seg,
{
    match seg {
        Segment::Text(s) => seg_obj("text"@, seq![("text"@, JsonVal::Text(s.text@))]),
        Segment::Face(s) => seg_obj("face"@, seq![("id"@, JsonVal::Text(s.id@))]),
        Segment::MarketFace(s) => seg_obj(
            "mface"@,
            seq![("emoji_id"@, JsonVal::Text(s.emoji_id@)), ("url"@, enc_opt(opt_text(s.url)))],
        ),
        Segment::Image(s) => seg_obj(
            "image"@,
            seq![
                ("file"@, JsonVal::Text(s.file@)),
                ("name"@, enc_opt(opt_text(s.name))),
                ("url"@, enc_opt(opt_text(s.url))),
                ("summary"@, enc_opt(opt_text(s.summary))),
                ("emoji_id"@, enc_opt(opt_text(s.emoji_id))),
            ],
        ),
        Segment::Record(s) => seg_obj(
            "record"@,
            seq![("file"@, JsonVal::Text(s.file@)), ("name"@, enc_opt(opt_text(s.name)))],
        ),
        Segment::Video(s) => seg_obj(
            "video"@,
            seq![
                ("file"@, JsonVal::Text(s.file@)),
                ("name"@, enc_opt(opt_text(s.name))),
                ("url"@, enc_opt(opt_text(s.url))),
            ],
        ),
        Segment::File(s) => seg_obj(
            "file"@,
            seq![("file"@, JsonVal::Text(s.file@)), ("name"@, enc_opt(opt_text(s.name)))],
        ),
        Segment::At(s) => seg_obj("at"@, seq![("qq"@, JsonVal::Text(s.id@))]),
        Segment::Rps => unit_seg_obj("rps"@),
        Segment::Dice => unit_seg_obj("dice"@),
        Segment::Shake => unit_seg_obj("shake"@),
        Segment::Poke(s) => seg_obj(
            "poke"@,
            seq![
                ("type"@, JsonVal::Text(s.type_@)),
                ("id"@, JsonVal::Text(s.id@)),
                ("name"@, enc_opt(opt_text(s.name))),
            ],
        ),
        Segment::Anonymous => unit_seg_obj("anonymous"@),
        Segment::Share(s) => seg_obj(
            "share"@,
            seq![
                ("url"@, JsonVal::Text(s.url@)),
                ("title"@, JsonVal::Text(s.title@)),
                ("content"@, enc_opt(opt_text(s.content))),
                ("image"@, enc_opt(opt_text(s.image))),
            ],
        ),
        Segment::Contact(s) => seg_obj(
            "contact"@,
            seq![("type"@, JsonVal::Text(s.type_@)), ("id"@, JsonVal::Text(s.id@))],
        ),
        Segment::Location(s) => seg_obj(
            "location"@,
            seq![
                ("lat"@, JsonVal::Text(s.lat@)),
                ("lon"@, JsonVal::Text(s.lon@)),
                ("title"@, enc_opt(opt_text(s.title))),
                ("content"@, enc_opt(opt_text(s.content))),
            ],
        ),
        Segment::Music(s) => seg_obj(
            "music"@,
            seq![
                ("type"@, JsonVal::Text(s.type_@)),
                ("id"@, enc_opt(opt_text(s.id))),
                ("url"@, enc_opt(opt_text(s.url))),
                ("audio"@, enc_opt(opt_text(s.audio))),
                ("title"@, enc_opt(opt_text(s.title))),
                ("content"@, enc_opt(opt_text(s.content))),
                ("image"@, enc_opt(opt_text(s.image))),
            ],
        ),
        Segment::Reply(s) => seg_obj("reply"@, seq![("id"@, JsonVal::Text(s.id@))]),
        Segment::Forward(s) => seg_obj("forward"@, seq![("id"@, JsonVal::Text(s.id@))]),
        Segment::Node(s) => seg_obj(
            "node"@,
            seq![
                ("id"@, enc_opt(opt_text(s.id))),
                ("user_id"@, enc_opt(opt_text(s.user_id))),
                ("nickname"@, enc_opt(opt_text(s.nickname))),
                ("content"@, spec_encode_node_content(s.content)),
            ],
        ),
        Segment::Xml(s) => seg_obj("xml"@, seq![("data"@, JsonVal::Text(s.data@))]),
        Segment::Json(s) => seg_obj("json"@, seq![("data"@, JsonVal::Text(s.data@))]),
    }
}

/// The wire forms of a segment list, in order.
pub open spec fn spec_encode_segments(items: Seq<Segment>) -> Seq<JsonVal>
    decreases items,
{
    if items.len() == 0 {
        Seq::empty()
    } else {
        seq![spec_encode_segment(items[0])] + spec_encode_segments(items.skip(1))
    }
}

pub(crate) fn pair(k: &str, v: JsonValue) -> (r: (String, JsonValue))
    ensures
        r.0@ == k@,
        r.1 == v,
{
    (k.to_owned(), v)
}

pub(crate) fn text_val(s: &String) -> (r: JsonValue)
    ensures
        r@ == JsonVal::Text(s@),
{
    JsonValue::Text(s.clone())
}

pub(crate) fn opt_val(o: &Option<String>) -> (r: JsonValue)
    ensures
        r@ == enc_opt(opt_text(*o)),
{
    match o {
        Some(s) => JsonValue::Text(s.clone()),
        None => JsonValue::Null,
    }
}

fn seg_wrap(t: &str, data: Vec<(String, JsonValue)>) -> (r: JsonValue)
    ensures
        r@ == seg_obj(t@, json_field_views(data@)),
{
    let mut fields: Vec<(String, JsonValue)> = Vec::new();
    fields.push(pair("type", JsonValue::Text(t.to_owned())));
    fields.push(pair("data", JsonValue::Object(data)));
    let r = JsonValue::Object(fields);
    proof {
        lemma_json_field_views(
            (match &r {
                JsonValue::Object(fs) => fs@,
                _ => Seq::empty(),
            }),
        );
        assert(json_field_views(
            (match &r {
                JsonValue::Object(fs) => fs@,
                _ => Seq::empty(),
            }),
        ) =~= seq![("type"@, JsonVal::Text(t@)), ("data"@, JsonVal::Object(json_field_views(data@)))]);
    }
    r
}

fn unit_wrap(t: &str) -> (r: JsonValue)
    ensures
        r@ == unit_seg_obj(t@),
{
    let mut fields: Vec<(String, JsonValue)> = Vec::new();
    fields.push(pair("type", JsonValue::Text(t.to_owned())));
    let r = JsonValue::Object(fields);
    proof {
        lemma_json_field_views(
            (match &r {
                JsonValue::Object(fs) => fs@,
                _ => Seq::empty(),
            }),
        );
        assert(json_field_views(
            (match &r {
                JsonValue::Object(fs) => fs@,
                _ => Seq::empty(),
            }),
        ) =~= seq![("type"@, JsonVal::Text(t@))]);
    }
    r
}

/// Encodes a segment for the wire.
#[verifier::spinoff_prover]
#[verifier::rlimit(60)]
pub fn encode_segment(seg: &Segment) -> (r: JsonValue)
    ensures
        r@ == spec_encode_segment(*seg),
    decreases seg,
{
    match seg {
        Segment::Text(s) => {
            let mut d: Vec<(String, JsonValue)> = Vec::new();
            d.push(pair("text", text_val(&s.text)));
            proof {
                lemma_json_field_views(d@);
                assert(json_field_views(d@) =~= seq![("text"@, JsonVal::Text(s.text@))]);
            }
            let encoded = seg_wrap("text", d);
            proof {
                assert(encoded@ == spec_encode_segment(*seg));
            }
            encoded
        },
        Segment::Face(s) => {
            let mut d: Vec<(String, JsonValue)> = Vec::new();
            d.push(pair("id", text_val(&s.id)));
            proof {
                lemma_json_field_views(d@);
                assert(json_field_views(d@) =~= seq![("id"@, JsonVal::Text(s.id@))]);
            }
            let encoded = seg_wrap("face", d);
            proof {
                assert(encoded@ == spec_encode_segment(*seg));
            }
            encoded
        },
        Segment::MarketFace(s) => {
            let mut d: Vec<(String, JsonValue)> = Vec::new();
            d.push(pair("emoji_id", text_val(&s.emoji_id)));
            d.push(pair("url", opt_val(&s.url)));
            proof {
                lemma_json_field_views(d@);
                assert(json_field_views(d@) =~= seq![
                    ("emoji_id"@, JsonVal::Text(s.emoji_id@)),
                    ("url"@, enc_opt(opt_text(s.url))),
                ]);
            }
            let encoded = seg_wrap("mface", d);
            proof {
                assert(encoded@ == spec_encode_segment(*seg));
            }
            encoded
        },
        Segment::Image(s) => {
            let mut d: Vec<(String, JsonValue)> = Vec::new();
            d.push(pair("file", text_val(&s.file)));
            d.push(pair("name", opt_val(&s.name)));
            d.push(pair("url", opt_val(&s.url)));
            d.push(pair("summary", opt_val(&s.summary)));
            d.push(pair("emoji_id", opt_val(&s.emoji_id)));
            proof {
                lemma_json_field_views(d@);
                assert(json_field_views(d@) =~= seq![
                    ("file"@, JsonVal::Text(s.file@)),
                    ("name"@, enc_opt(opt_text(s.name))),
                    ("url"@, enc_opt(opt_text(s.url))),
                    ("summary"@, enc_opt(opt_text(s.summary))),
                    ("emoji_id"@, enc_opt(opt_text(s.emoji_id))),
                ]);
            }
            let encoded = seg_wrap("image", d);
            proof {
                assert(encoded@ == spec_encode_segment(*seg));
            }
            encoded
        },
        Segment::Record(s) => {
            let mut d: Vec<(String, JsonValue)> = Vec::new();
            d.push(pair("file", text_val(&s.file)));
            d.push(pair("name", opt_val(&s.name)));
            proof {
                lemma_json_field_views(d@);
                assert(json_field_views(d@) =~= seq![
                    ("file"@, JsonVal::Text(s.file@)),
                    ("name"@, enc_opt(opt_text(s.name))),
                ]);
            }
            let encoded = seg_wrap("record", d);
            proof {
                assert(encoded@ == spec_encode_segment(*seg));
            }
            encoded
        },
        Segment::Video(s) => {
            let mut d: Vec<(String, JsonValue)> = Vec::new();
            d.push(pair("file", text_val(&s.file)));
            d.push(pair("name", opt_val(&s.name)));
            d.push(pair("url", opt_val(&s.url)));
            proof {
                lemma_json_field_views(d@);
                assert(json_field_views(d@) =~= seq![
                    ("file"@, JsonVal::Text(s.file@)),
                    ("name"@, enc_opt(opt_text(s.name))),
                    ("url"@, enc_opt(opt_text(s.url))),
                ]);
            }
            let encoded = seg_wrap("video", d);
            proof {
                assert(encoded@ == spec_encode_segment(*seg));
            }
            encoded
        },
        Segment::File(s) => {
            let mut d: Vec<(String, JsonValue)> = Vec::new();
            d.push(pair("file", text_val(&s.file)));
            d.push(pair("name", opt_val(&s.name)));
            proof {
                lemma_json_field_views(d@);
                assert(json_field_views(d@) =~= seq![
                    ("file"@, JsonVal::Text(s.file@)),
                    ("name"@, enc_opt(opt_text(s.name))),
                ]);
            }
            let encoded = seg_wrap("file", d);
            proof {
                assert(encoded@ == spec_encode_segment(*seg));
            }
            encoded
        },
        Segment::At(s) => {
            let mut d: Vec<(String, JsonValue)> = Vec::new();
            d.push(pair("qq", text_val(&s.id)));
            proof {
                lemma_json_field_views(d@);
                assert(json_field_views(d@) =~= seq![("qq"@, JsonVal::Text(s.id@))]);
            }
            let encoded = seg_wrap("at", d);
            proof {
                assert(encoded@ == spec_encode_segment(*seg));
            }
            encoded
        },
        Segment::Rps => {
            let encoded = unit_wrap("rps");
            proof {
                assert(encoded@ == spec_encode_segment(*seg));
            }
            encoded
        },
        Segment::Dice => {
            let encoded = unit_wrap("dice");
            proof {
                assert(encoded@ == spec_encode_segment(*seg));
            }
            encoded
        },
        Segment::Shake => {
            let encoded = unit_wrap("shake");
            proof {
                assert(encoded@ == spec_encode_segment(*seg));
            }
            encoded
        },
        Segment::Poke(s) => {
            let mut d: Vec<(String, JsonValue)> = Vec::new();
            d.push(pair("type", text_val(&s.type_)));
            d.push(pair("id", text_val(&s.id)));
            d.push(pair("name", opt_val(&s.name)));
            proof {
                lemma_json_field_views(d@);
                assert(json_field_views(d@) =~= seq![
                    ("type"@, JsonVal::Text(s.type_@)),
                    ("id"@, JsonVal::Text(s.id@)),
                    ("name"@, enc_opt(opt_text(s.name))),
                ]);
            }
            let encoded = seg_wrap("poke", d);
            proof {
                assert(encoded@ == spec_encode_segment(*seg));
            }
            encoded
        },
        Segment::Anonymous => {
            let encoded = unit_wrap("anonymous");
            proof {
                assert(encoded@ == spec_encode_segment(*seg));
            }
            encoded
        },
        Segment::Share(s) => {
            let mut d: Vec<(String, JsonValue)> = Vec::new();
            d.push(pair("url", text_val(&s.url)));
            d.push(pair("title", text_val(&s.title)));
            d.push(pair("content", opt_val(&s.content)));
            d.push(pair("image", opt_val(&s.image)));
            proof {
                lemma_json_field_views(d@);
                assert(json_field_views(d@) =~= seq![
                    ("url"@, JsonVal::Text(s.url@)),
                    ("title"@, JsonVal::Text(s.title@)),
                    ("content"@, enc_opt(opt_text(s.content))),
                    ("image"@, enc_opt(opt_text(s.image))),
                ]);
            }
            let encoded = seg_wrap("share", d);
            proof {
                assert(encoded@ == spec_encode_segment(*seg));
            }
            encoded
        },
        Segment::Contact(s) => {
            let mut d: Vec<(String, JsonValue)> = Vec::new();
            d.push(pair("type", text_val(&s.type_)));
            d.push(pair("id", text_val(&s.id)));
            proof {
                lemma_json_field_views(d@);
                assert(json_field_views(d@) =~= seq![
                    ("type"@, JsonVal::Text(s.type_@)),
                    ("id"@, JsonVal::Text(s.id@)),
                ]);
            }
            let encoded = seg_wrap("contact", d);
            proof {
                assert(encoded@ == spec_encode_segment(*seg));
            }
            encoded
        },
        Segment::Location(s) => {
            let mut d: Vec<(String, JsonValue)> = Vec::new();
            d.push(pair("lat", text_val(&s.lat)));
            d.push(pair("lon", text_val(&s.lon)));
            d.push(pair("title", opt_val(&s.title)));
            d.push(pair("content", opt_val(&s.content)));
            proof {
                lemma_json_field_views(d@);
                assert(json_field_views(d@) =~= seq![
                    ("lat"@, JsonVal::Text(s.lat@)),
                    ("lon"@, JsonVal::Text(s.lon@)),
                    ("title"@, enc_opt(opt_text(s.title))),
                    ("content"@, enc_opt(opt_text(s.content))),
                ]);
            }
            let encoded = seg_wrap("location", d);
            proof {
                assert(encoded@ == spec_encode_segment(*seg));
            }
            encoded
        },
        Segment::Music(s) => {
            let mut d: Vec<(String, JsonValue)> = Vec::new();
            d.push(pair("type", text_val(&s.type_)));
            d.push(pair("id", opt_val(&s.id)));
            d.push(pair("url", opt_val(&s.url)));
            d.push(pair("audio", opt_val(&s.audio)));
            d.push(pair("title", opt_val(&s.title)));
            d.push(pair("content", opt_val(&s.content)));
            d.push(pair("image", opt_val(&s.image)));
            proof {
                lemma_json_field_views(d@);
                assert(json_field_views(d@) =~= seq![
                    ("type"@, JsonVal::Text(s.type_@)),
                    ("id"@, enc_opt(opt_text(s.id))),
                    ("url"@, enc_opt(opt_text(s.url))),
                    ("audio"@, enc_opt(opt_text(s.audio))),
                    ("title"@, enc_opt(opt_text(s.title))),
                    ("content"@, enc_opt(opt_text(s.content))),
                    ("image"@, enc_opt(opt_text(s.image))),
                ]);
            }
            let encoded = seg_wrap("music", d);
            proof {
                assert(encoded@ == spec_encode_segment(*seg));
            }
            encoded
        },
        Segment::Reply(s) => {
            let mut d: Vec<(String, JsonValue)> = Vec::new();
            d.push(pair("id", text_val(&s.id)));
            proof {
                lemma_json_field_views(d@);
                assert(json_field_views(d@) =~= seq![("id"@, JsonVal::Text(s.id@))]);
            }
            let encoded = seg_wrap("reply", d);
            proof {
                assert(encoded@ == spec_encode_segment(*seg));
            }
            encoded
        },
        Segment::Forward(s) => {
            let mut d: Vec<(String, JsonValue)> = Vec::new();
            d.push(pair("id", text_val(&s.id)));
            proof {
                lemma_json_field_views(d@);
                assert(json_field_views(d@) =~= seq![("id"@, JsonVal::Text(s.id@))]);
            }
            let encoded = seg_wrap("forward", d);
            proof {
                assert(encoded@ == spec_encode_segment(*seg));
            }
            encoded
        },
        Segment::Node(s) => {
            let content = match &s.content {
                Some(items) => JsonValue::Array(encode_segments(items)),
                None => JsonValue::Null,
            };
            let mut d: Vec<(String, JsonValue)> = Vec::new();
            d.push(pair("id", opt_val(&s.id)));
            d.push(pair("user_id", opt_val(&s.user_id)));
            d.push(pair("nickname", opt_val(&s.nickname)));
            d.push(pair("content", content));
            proof {
                lemma_json_field_views(d@);
                assert(json_field_views(d@) =~= seq![
                    ("id"@, enc_opt(opt_text(s.id))),
                    ("user_id"@, enc_opt(opt_text(s.user_id))),
                    ("nickname"@, enc_opt(opt_text(s.nickname))),
                    ("content"@, spec_encode_node_content(s.content)),
                ]);
                assert(content@ == spec_encode_node_content(s.content));
            }
            let encoded = seg_wrap("node", d);
            proof {
                assert(encoded@ == spec_encode_segment(*seg));
            }
            encoded
        },
        Segment::Xml(s) => {
            let mut d: Vec<(String, JsonValue)> = Vec::new();
            d.push(pair("data", text_val(&s.data)));
            proof {
                lemma_json_field_views(d@);
                assert(json_field_views(d@) =~= seq![("data"@, JsonVal::Text(s.data@))]);
            }
            let encoded = seg_wrap("xml", d);
            proof {
                assert(encoded@ == spec_encode_segment(*seg));
            }
            encoded
        },
        Segment::Json(s) => {
            let mut d: Vec<(String, JsonValue)> = Vec::new();
            d.push(pair("data", text_val(&s.data)));
            proof {
                lemma_json_field_views(d@);
                assert(json_field_views(d@) =~= seq![("data"@, JsonVal::Text(s.data@))]);
            }
            let encoded = seg_wrap("json", d);
            proof {
                assert(encoded@ == spec_encode_segment(*seg));
            }
            encoded
        },
    }
}

/// Encodes a segment list for the wire, in order.
pub fn encode_segments(items: &Vec<Segment>) -> (r: Vec<JsonValue>)
    ensures
        json_views(r@) == spec_encode_segments(items@),
    decreases items,
{
    let n = items.len();
    let mut out: Vec<JsonValue> = Vec::new();
    let mut i: usize = 0;
    proof {
        lemma_json_views(out@);
    }
    while i < n
        invariant
            0 <= i <= n,
            n == items@.len(),
            out@.len() == i,
            forall|k: int| 0 <= k < i ==> (#[trigger] out@[k])@ == spec_encode_segment(
                items@[k],
            ),
        decreases n - i,
    {
        let encoded = encode_segment(&items[i]);
        out.push(encoded);
        i = i + 1;
    }
    proof {
        lemma_json_views(out@);
        lemma_encode_segments_pointwise(items@, out@);
    }
    out
}

/// A list whose elements each encode their segment is the encoding of
/// the list.
proof fn lemma_encode_segments_pointwise(items: Seq<Segment>, out: Seq<JsonValue>)
    requires
        out.len() == items.len(),
        forall|k: int| 0 <= k < items.len() ==> (#[trigger] out[k])@ == spec_encode_segment(
            items[k],
        ),
    ensures
        json_views(out) == spec_encode_segments(items),
    decreases items.len(),
{
    if items.len() == 0 {
        assert(json_views(out) =~= Seq::<JsonVal>::empty());
    } else {
        assert forall|k: int| 0 <= k < items.skip(1).len() implies (#[trigger] out.skip(1)[k])@
            == spec_encode_segment(items.skip(1)[k]) by {
            assert(out.skip(1)[k] == out[k + 1]);
            assert(items.skip(1)[k] == items[k + 1]);
        }
        lemma_encode_segments_pointwise(items.skip(1), out.skip(1));
        assert(json_views(out) =~= seq![out[0]@] + json_views(out.skip(1)));
        assert(spec_encode_segments(items) =~= seq![spec_encode_segment(items[0])]
            + spec_encode_segments(items.skip(1)));
    }
}

} // verus!
