//! Shared domain vocabulary: platforms, endpoints, chat types and delivery
//! states, with their canonical text forms and the round-trip law between
//! rendering and parsing an endpoint.

use vstd::prelude::*;

verus! {

use crate::text::{find_char, str_eq, push_char};
use vstd::string::StrSliceExecFns;
use vstd::string::StringExecFns;

/// Identifying key of one remote conversation.
pub type RemoteChatKey = (Endpoint, ChatType, String);

/// The whole configuration file.
#[derive(Debug, Clone)]
pub struct TeleporterConfig {
    pub telegram: TelegramConfig,
    pub onebot: OnebotConfig,
    pub general: GeneralConfig,
}

/// Telegram side of the configuration.
#[derive(Debug, Clone)]
pub struct TelegramConfig {
    /// The only Telegram user whose messages are relayed outward.
    pub admin_id: i64,
    pub api_id: i32,
    pub api_hash: String,
    pub bot_token: String,
    pub proxy_url: Option<String>,
    pub enable_search: bool,
}

/// OneBot server side of the configuration.
#[derive(Debug, Clone)]
pub struct OnebotConfig {
    /// WebSocket listen address, `host:port`.
    pub addr: String,
    /// Bearer token required on the WebSocket handshake, when set.
    pub token: Option<String>,
}

#[derive(Debug, Clone)]
pub struct GeneralConfig {
    pub log_level: String,
}

#[derive(Debug, Clone, Copy, PartialEq, Eq, Hash, Structural)]
pub enum Platform {
    Telegram,
    QQ,
    WeChat,
}

impl Platform {
    /// Canonical text of the platform, as stored and sent on the wire.
    pub open spec fn spec_text(self) -> Seq<char> {
        match self {
            Platform::Telegram => "telegram"@,
            Platform::QQ => "qq"@,
            Platform::WeChat => "wechat"@,
        }
    }

    pub fn to_text(&self) -> (r: String)
        ensures
            r@ == self.spec_text(),
    {
        match self {
            Platform::Telegram => "telegram".to_owned(),
            Platform::QQ => "qq".to_owned(),
            Platform::WeChat => "wechat".to_owned(),
        }
    }

    pub open spec fn spec_parse(s: Seq<char>) -> Option<Platform> {
        if s == "telegram"@ {
            Some(Platform::Telegram)
        } else if s == "qq"@ {
            Some(Platform::QQ)
        } else if s == "wechat"@ {
            Some(Platform::WeChat)
        } else {
            None
        }
    }

    pub fn parse(s: &str) -> (r: Option<Platform>)
        ensures
            r == Platform::spec_parse(s@),
    {
        if str_eq(s, "telegram") {
            Some(Platform::Telegram)
        } else if str_eq(s, "qq") {
            Some(Platform::QQ)
        } else if str_eq(s, "wechat") {
            Some(Platform::WeChat)
        } else {
            None
        }
    }
}

/// One remote bot account: platform plus self-id.
#[derive(Debug, Clone, PartialEq, Eq, Hash)]
pub struct Endpoint {
    pub platform: Platform,
    pub id: String,
}

/// The first position of `c` in `s`, if any.
pub open spec fn first_pos(s: Seq<char>, c: char) -> Option<int>
    decreases s.len(),
{
    if s.len() == 0 {
        None
    } else if s[0] == c {
        Some(0)
    } else {
        match first_pos(s.skip(1), c) {
            Some(i) => Some(i + 1),
            None => None,
        }
    }
}

pub proof fn lemma_first_pos_some(s: Seq<char>, c: char, i: int)
    requires
        0 <= i < s.len(),
        s[i] == c,
        forall|j: int| 0 <= j < i ==> s[j] != c,
    ensures
        first_pos(s, c) == Some(i),
    decreases s.len(),
{
    if s[0] != c {
        lemma_first_pos_some(s.skip(1), c, i - 1);
    }
}

pub proof fn lemma_first_pos_range(s: Seq<char>, c: char)
    ensures
        first_pos(s, c) matches Some(i) ==> 0 <= i < s.len(),
    decreases s.len(),
{
    if s.len() > 0 && s[0] != c {
        lemma_first_pos_range(s.skip(1), c);
    }
}

pub proof fn lemma_first_pos_none(s: Seq<char>, c: char)
    requires
        forall|j: int| 0 <= j < s.len() ==> s[j] != c,
    ensures
        first_pos(s, c) == None::<int>,
    decreases s.len(),
{
    if s.len() > 0 {
        lemma_first_pos_none(s.skip(1), c);
    }
}

impl Endpoint {
    /// Serialized form `<platform>:<id>`.
    pub open spec fn spec_text(self) -> Seq<char> {
        self.platform.spec_text() + seq![':'] + self.id@
    }

    /// A string parses as an endpoint when it has a colon and everything
    /// before the first colon is a platform name.
    pub open spec fn parses(s: Seq<char>) -> bool {
        match first_pos(s, ':') {
            Some(i) => Platform::spec_parse(s.take(i)) is Some,
            None => false,
        }
    }

    pub open spec fn parsed_platform(s: Seq<char>) -> Platform
        recommends
            Endpoint::parses(s),
    {
        Platform::spec_parse(s.take(first_pos(s, ':').unwrap())).unwrap()
    }

    pub open spec fn parsed_id(s: Seq<char>) -> Seq<char>
        recommends
            Endpoint::parses(s),
    {
        s.skip(first_pos(s, ':').unwrap() + 1)
    }

    pub fn to_text(&self) -> (r: String)
        ensures
            r@ == self.spec_text(),
    {
        let mut r = self.platform.to_text();
        push_char(&mut r, ':');
        r.append(self.id.as_str());
        proof {
            assert(r@ =~= self.spec_text());
        }
        r
    }

    /// Splits at the first colon; everything before must name a platform.
    /// Invalid strings are rejected, and the rejection depends on the
    /// string alone.
    pub fn parse(s: &str) -> (r: Option<Endpoint>)
        ensures
            match r {
                Some(e) => Endpoint::parses(s@) && e.platform == Endpoint::parsed_platform(s@)
                    && e.id@ == Endpoint::parsed_id(s@),
                None => !Endpoint::parses(s@),
            },
    {
        let n = s.unicode_len();
        match find_char(s, ':') {
            None => {
                proof {
                    lemma_first_pos_none(s@, ':');
                }
                None
            },
            Some(i) => {
                proof {
                    lemma_first_pos_some(s@, ':', i as int);
                }
                let prefix = s.substring_char(0, i);
                assert(prefix@ =~= s@.take(i as int));
                match Platform::parse(prefix) {
                    None => None,
                    Some(platform) => {
                        let id = s.substring_char(i + 1, n);
                        assert(id@ =~= s@.skip(i as int + 1));
                        Some(Endpoint { platform, id: id.to_owned() })
                    },
                }
            },
        }
    }

    /// Field-wise comparison usable from verified code.
    pub open spec fn spec_same(self, other: Endpoint) -> bool {
        self.platform == other.platform && self.id@ == other.id@
    }

    pub fn same(&self, other: &Endpoint) -> (r: bool)
        ensures
            r == self.spec_same(*other),
    {
        self.platform == other.platform && str_eq(self.id.as_str(), other.id.as_str())
    }
}

impl Default for Endpoint {
    fn default() -> (r: Self)
        ensures
            r.platform == Platform::Telegram,
            r.id@ == Seq::<char>::empty(),
    {
        Endpoint { platform: Platform::Telegram, id: String::new() }
    }
}

/// Rendering an endpoint and parsing it back restores the endpoint, for
/// every endpoint; parsing never confuses the platform or the id.
pub proof fn lemma_endpoint_roundtrip(e: Endpoint)
    ensures
        Endpoint::parses(e.spec_text()),
        Endpoint::parsed_platform(e.spec_text()) == e.platform,
        Endpoint::parsed_id(e.spec_text()) == e.id@,
{
    reveal_strlit("telegram");
    reveal_strlit("qq");
    reveal_strlit("wechat");
    let s = e.spec_text();
    let plen = e.platform.spec_text().len() as int;
    assert(forall|j: int| 0 <= j < plen ==> s[j] != ':');
    assert(s[plen] == ':');
    lemma_first_pos_some(s, ':', plen);
    assert(s.take(plen) =~= e.platform.spec_text());
    assert(Platform::spec_parse(e.platform.spec_text()) == Some(e.platform));
    assert(s.skip(plen + 1) =~= e.id@);
}

#[derive(Debug, Clone, Copy, PartialEq, Eq, Hash, Structural)]
pub enum ChatType {
    Private,
    Group,
}

impl ChatType {
    pub open spec fn spec_text(self) -> Seq<char> {
        match self {
            ChatType::Private => "private"@,
            ChatType::Group => "group"@,
        }
    }

    pub fn to_text(&self) -> (r: String)
        ensures
            r@ == self.spec_text(),
    {
        match self {
            ChatType::Private => "private".to_owned(),
            ChatType::Group => "group".to_owned(),
        }
    }

    pub open spec fn spec_parse(s: Seq<char>) -> Option<ChatType> {
        if s == "private"@ {
            Some(ChatType::Private)
        } else if s == "group"@ {
            Some(ChatType::Group)
        } else {
            None
        }
    }

    pub fn parse(s: &str) -> (r: Option<ChatType>)
        ensures
            r == ChatType::spec_parse(s@),
    {
        if str_eq(s, "private") {
            Some(ChatType::Private)
        } else if str_eq(s, "group") {
            Some(ChatType::Group)
        } else {
            None
        }
    }

    /// Integer code used by the persisted store.
    pub open spec fn spec_code(self) -> i32 {
        match self {
            ChatType::Private => 0,
            ChatType::Group => 1,
        }
    }

    pub fn code(&self) -> (r: i32)
        ensures
            r == self.spec_code(),
    {
        match self {
            ChatType::Private => 0,
            ChatType::Group => 1,
        }
    }

    pub fn from_code(code: i32) -> (r: Option<ChatType>)
        ensures
            match r {
                Some(t) => t.spec_code() == code,
                None => code != 0 && code != 1,
            },
    {
        if code == 0 {
            Some(ChatType::Private)
        } else if code == 1 {
            Some(ChatType::Group)
        } else {
            None
        }
    }
}

#[derive(Debug, Clone, Copy, PartialEq, Eq, Hash, Structural)]
pub enum DeliveryStatus {
    Pending,
    Failed,
    Sent,
    Recalled,
}

impl DeliveryStatus {
    pub open spec fn spec_text(self) -> Seq<char> {
        match self {
            DeliveryStatus::Pending => "pending"@,
            DeliveryStatus::Failed => "failed"@,
            DeliveryStatus::Sent => "sent"@,
            DeliveryStatus::Recalled => "recalled"@,
        }
    }

    pub fn to_text(&self) -> (r: String)
        ensures
            r@ == self.spec_text(),
    {
        match self {
            DeliveryStatus::Pending => "pending".to_owned(),
            DeliveryStatus::Failed => "failed".to_owned(),
            DeliveryStatus::Sent => "sent".to_owned(),
            DeliveryStatus::Recalled => "recalled".to_owned(),
        }
    }

    pub open spec fn spec_parse(s: Seq<char>) -> Option<DeliveryStatus> {
        if s == "pending"@ {
            Some(DeliveryStatus::Pending)
        } else if s == "failed"@ {
            Some(DeliveryStatus::Failed)
        } else if s == "sent"@ {
            Some(DeliveryStatus::Sent)
        } else if s == "recalled"@ {
            Some(DeliveryStatus::Recalled)
        } else {
            None
        }
    }

    pub fn parse(s: &str) -> (r: Option<DeliveryStatus>)
        ensures
            r == DeliveryStatus::spec_parse(s@),
    {
        if str_eq(s, "pending") {
            Some(DeliveryStatus::Pending)
        } else if str_eq(s, "failed") {
            Some(DeliveryStatus::Failed)
        } else if str_eq(s, "sent") {
            Some(DeliveryStatus::Sent)
        } else if str_eq(s, "recalled") {
            Some(DeliveryStatus::Recalled)
        } else {
            None
        }
    }

    /// Integer code used by the persisted store.
    pub open spec fn spec_code(self) -> i32 {
        match self {
            DeliveryStatus::Pending => 0,
            DeliveryStatus::Failed => 1,
            DeliveryStatus::Sent => 2,
            DeliveryStatus::Recalled => 3,
        }
    }

    pub fn code(&self) -> (r: i32)
        ensures
            r == self.spec_code(),
    {
        match self {
            DeliveryStatus::Pending => 0,
            DeliveryStatus::Failed => 1,
            DeliveryStatus::Sent => 2,
            DeliveryStatus::Recalled => 3,
        }
    }

    pub fn from_code(code: i32) -> (r: Option<DeliveryStatus>)
        ensures
            match r {
                Some(t) => t.spec_code() == code,
                None => !(0 <= code <= 3),
            },
    {
        if code == 0 {
            Some(DeliveryStatus::Pending)
        } else if code == 1 {
            Some(DeliveryStatus::Failed)
        } else if code == 2 {
            Some(DeliveryStatus::Sent)
        } else if code == 3 {
            Some(DeliveryStatus::Recalled)
        } else {
            None
        }
    }
}

} // verus!
