//! API responses: the envelope with its echo, status and retcode, and the
//! typed data a response carries, matched untagged in a fixed order.

use vstd::prelude::*;

verus! {

use crate::onebot::protocol::json::{
    JsonVal, JsonValue, spec_get, spec_str_field, spec_opt_str_field, spec_id_field,
    spec_int_field, spec_decode_list, lemma_decode_list_all, lemma_decode_list_element,
    json_views, lemma_json_views, str_field, opt_str_field, id_field, int_field,
};
use crate::onebot::protocol::segment::opt_text;
use crate::text::str_eq;

#[derive(Debug, Clone)]
pub struct MessageId {
    pub message_id: String,
}

#[derive(Debug, Clone)]
pub struct UserInfo {
    pub user_id: String,
    pub nickname: String,
    pub remark: Option<String>,
    pub avatar: Option<String>,
}

#[derive(Debug, Clone)]
pub struct GroupInfo {
    pub group_id: String,
    pub group_name: String,
    pub avatar: Option<String>,
}

#[derive(Debug, Clone)]
pub struct MemberInfo {
    pub user_id: String,
    pub group_id: String,
    pub nickname: String,
    pub card: Option<String>,
    /// `owner`, `admin` or `member`.
    pub role: String,
    pub avatar: Option<String>,
}

#[derive(Debug, Clone)]
pub struct FileInfo {
    pub file: String,
    pub file_name: String,
    pub file_size: Option<String>,
    pub url: Option<String>,
    /// Base64-encoded file content, when the adapter inlines it.
    pub base64: Option<String>,
}

/// Typed response data; which variant applies is decided by the shape of
/// the JSON, tried in this order.
#[derive(Debug, Clone)]
pub enum ResponseData {
    /// A response that carries no data (`null`).
    Empty,
    MessageId(MessageId),
    MemberInfo(MemberInfo),
    UserInfo(UserInfo),
    GroupInfo(GroupInfo),
    GroupMemberList(Vec<MemberInfo>),
    FriendList(Vec<UserInfo>),
    GroupList(Vec<GroupInfo>),
    FileInfo(FileInfo),
}

/// The response envelope.
#[derive(Debug, Clone)]
pub struct Response {
    pub echo: String,
    /// `ok`, `async` or `failed`.
    pub status: String,
    pub retcode: i32,
    pub data: ResponseData,
}

// ---------- display names ----------

impl UserInfo {
    /// The name to show: the remark when non-empty, else the nickname.
    pub fn display_name(&self) -> (r: String)
        ensures
            r@ == (match self.remark {
                Some(m) => if m@.len() > 0 {
                    m@
                } else {
                    self.nickname@
                },
                None => self.nickname@,
            }),
    {
        match &self.remark {
            Some(remark) => {
                if !remark.as_str().is_empty() {
                    remark.clone()
                } else {
                    self.nickname.clone()
                }
            },
            None => self.nickname.clone(),
        }
    }
}

impl GroupInfo {
    pub fn display_name(&self) -> (r: String)
        ensures
            r@ == self.group_name@,
    {
        self.group_name.clone()
    }
}

impl MemberInfo {
    /// The name to show: the group card when non-empty, else the nickname.
    pub fn display_name(&self) -> (r: String)
        ensures
            r@ == (match self.card {
                Some(c) => if c@.len() > 0 {
                    c@
                } else {
                    self.nickname@
                },
                None => self.nickname@,
            }),
    {
        match &self.card {
            Some(card) => {
                if !card.as_str().is_empty() {
                    card.clone()
                } else {
                    self.nickname.clone()
                }
            },
            None => self.nickname.clone(),
        }
    }
}

// ---------- views ----------

pub struct MessageIdView {
    pub message_id: Seq<char>,
}

impl View for MessageId {
    type V = MessageIdView;

    open spec fn view(&self) -> MessageIdView {
        MessageIdView { message_id: self.message_id@ }
    }
}

pub struct UserInfoView {
    pub user_id: Seq<char>,
    pub nickname: Seq<char>,
    pub remark: Option<Seq<char>>,
    pub avatar: Option<Seq<char>>,
}

impl View for UserInfo {
    type V = UserInfoView;

    open spec fn view(&self) -> UserInfoView {
        UserInfoView {
            user_id: self.user_id@,
            nickname: self.nickname@,
            remark: opt_text(self.remark),
            avatar: opt_text(self.avatar),
        }
    }
}

pub struct GroupInfoView {
    pub group_id: Seq<char>,
    pub group_name: Seq<char>,
    pub avatar: Option<Seq<char>>,
}

impl View for GroupInfo {
    type V = GroupInfoView;

    open spec fn view(&self) -> GroupInfoView {
        GroupInfoView {
            group_id: self.group_id@,
            group_name: self.group_name@,
            avatar: opt_text(self.avatar),
        }
    }
}

pub struct MemberInfoView {
    pub user_id: Seq<char>,
    pub group_id: Seq<char>,
    pub nickname: Seq<char>,
    pub card: Option<Seq<char>>,
    pub role: Seq<char>,
    pub avatar: Option<Seq<char>>,
}

impl View for MemberInfo {
    type V = MemberInfoView;

    open spec fn view(&self) -> MemberInfoView {
        MemberInfoView {
            user_id: self.user_id@,
            group_id: self.group_id@,
            nickname: self.nickname@,
            card: opt_text(self.card),
            role: self.role@,
            avatar: opt_text(self.avatar),
        }
    }
}

pub struct FileInfoView {
    pub file: Seq<char>,
    pub file_name: Seq<char>,
    pub file_size: Option<Seq<char>>,
    pub url: Option<Seq<char>>,
    pub base64: Option<Seq<char>>,
}

impl View for FileInfo {
    type V = FileInfoView;

    open spec fn view(&self) -> FileInfoView {
        FileInfoView {
            file: self.file@,
            file_name: self.file_name@,
            file_size: opt_text(self.file_size),
            url: opt_text(self.url),
            base64: opt_text(self.base64),
        }
    }
}

pub enum ResponseDataView {
    Empty,
    MessageId(MessageIdView),
    MemberInfo(MemberInfoView),
    UserInfo(UserInfoView),
    GroupInfo(GroupInfoView),
    GroupMemberList(Seq<MemberInfoView>),
    FriendList(Seq<UserInfoView>),
    GroupList(Seq<GroupInfoView>),
    FileInfo(FileInfoView),
}

pub open spec fn member_views(items: Seq<MemberInfo>) -> Seq<MemberInfoView> {
    Seq::new(items.len(), |i: int| items[i]@)
}

pub open spec fn user_views(items: Seq<UserInfo>) -> Seq<UserInfoView> {
    Seq::new(items.len(), |i: int| items[i]@)
}

pub open spec fn group_views(items: Seq<GroupInfo>) -> Seq<GroupInfoView> {
    Seq::new(items.len(), |i: int| items[i]@)
}

impl View for ResponseData {
    type V = ResponseDataView;

    open spec fn view(&self) -> ResponseDataView {
        match self {
            ResponseData::Empty => ResponseDataView::Empty,
            ResponseData::MessageId(x) => ResponseDataView::MessageId(x@),
            ResponseData::MemberInfo(x) => ResponseDataView::MemberInfo(x@),
            ResponseData::UserInfo(x) => ResponseDataView::UserInfo(x@),
            ResponseData::GroupInfo(x) => ResponseDataView::GroupInfo(x@),
            ResponseData::GroupMemberList(x) => ResponseDataView::GroupMemberList(
                member_views(x@),
            ),
            ResponseData::FriendList(x) => ResponseDataView::FriendList(user_views(x@)),
            ResponseData::GroupList(x) => ResponseDataView::GroupList(group_views(x@)),
            ResponseData::FileInfo(x) => ResponseDataView::FileInfo(x@),
        }
    }
}

pub struct ResponseView {
    pub echo: Seq<char>,
    pub status: Seq<char>,
    pub retcode: int,
    pub data: ResponseDataView,
}

impl View for Response {
    type V = ResponseView;

    open spec fn view(&self) -> ResponseView {
        ResponseView {
            echo: self.echo@,
            status: self.status@,
            retcode: self.retcode as int,
            data: self.data@,
        }
    }
}

// ---------- decoding ----------

pub open spec fn spec_decode_message_id(v: JsonVal) -> Option<MessageIdView> {
    match spec_id_field(v, "message_id"@) {
        Some(message_id) => Some(MessageIdView { message_id }),
        None => None,
    }
}

pub fn decode_message_id(v: &JsonValue) -> (r: Option<MessageId>)
    ensures
        match r {
            Some(x) => spec_decode_message_id(v@) == Some(x@),
            None => spec_decode_message_id(v@) is None,
        },
{
    match id_field(v, "message_id") {
        Some(message_id) => Some(MessageId { message_id }),
        None => None,
    }
}

pub open spec fn spec_decode_user_info(v: JsonVal) -> Option<UserInfoView> {
    match (
        spec_id_field(v, "user_id"@),
        spec_str_field(v, "nickname"@),
        spec_opt_str_field(v, "remark"@),
        spec_opt_str_field(v, "avatar"@),
    ) {
        (Some(user_id), Some(nickname), Ok(remark), Ok(avatar)) => Some(
            UserInfoView { user_id, nickname, remark, avatar },
        ),
        _ => None,
    }
}

pub fn decode_user_info(v: &JsonValue) -> (r: Option<UserInfo>)
    ensures
        match r {
            Some(x) => spec_decode_user_info(v@) == Some(x@),
            None => spec_decode_user_info(v@) is None,
        },
{
    match (
        id_field(v, "user_id"),
        str_field(v, "nickname"),
        opt_str_field(v, "remark"),
        opt_str_field(v, "avatar"),
    ) {
        (Some(user_id), Some(nickname), Ok(remark), Ok(avatar)) => Some(
            UserInfo { user_id, nickname, remark, avatar },
        ),
        _ => None,
    }
}

pub open spec fn spec_decode_group_info(v: JsonVal) -> Option<GroupInfoView> {
    match (
        spec_id_field(v, "group_id"@),
        spec_str_field(v, "group_name"@),
        spec_opt_str_field(v, "avatar"@),
    ) {
        (Some(group_id), Some(group_name), Ok(avatar)) => Some(
            GroupInfoView { group_id, group_name, avatar },
        ),
        _ => None,
    }
}

pub fn decode_group_info(v: &JsonValue) -> (r: Option<GroupInfo>)
    ensures
        match r {
            Some(x) => spec_decode_group_info(v@) == Some(x@),
            None => spec_decode_group_info(v@) is None,
        },
{
    match (
        id_field(v, "group_id"),
        str_field(v, "group_name"),
        opt_str_field(v, "avatar"),
    ) {
        (Some(group_id), Some(group_name), Ok(avatar)) => Some(
            GroupInfo { group_id, group_name, avatar },
        ),
        _ => None,
    }
}

pub open spec fn spec_decode_member_info(v: JsonVal) -> Option<MemberInfoView> {
    match (
        spec_id_field(v, "user_id"@),
        spec_id_field(v, "group_id"@),
        spec_str_field(v, "nickname"@),
        spec_opt_str_field(v, "card"@),
        spec_str_field(v, "role"@),
        spec_opt_str_field(v, "avatar"@),
    ) {
        (Some(user_id), Some(group_id), Some(nickname), Ok(card), Some(role), Ok(avatar)) => Some(
            MemberInfoView { user_id, group_id, nickname, card, role, avatar },
        ),
        _ => None,
    }
}

pub fn decode_member_info(v: &JsonValue) -> (r: Option<MemberInfo>)
    ensures
        match r {
            Some(x) => spec_decode_member_info(v@) == Some(x@),
            None => spec_decode_member_info(v@) is None,
        },
{
    match (
        id_field(v, "user_id"),
        id_field(v, "group_id"),
        str_field(v, "nickname"),
        opt_str_field(v, "card"),
        str_field(v, "role"),
        opt_str_field(v, "avatar"),
    ) {
        (Some(user_id), Some(group_id), Some(nickname), Ok(card), Some(role), Ok(avatar)) => Some(
            MemberInfo { user_id, group_id, nickname, card, role, avatar },
        ),
        _ => None,
    }
}

pub open spec fn spec_decode_file_info(v: JsonVal) -> Option<FileInfoView> {
    match (
        spec_str_field(v, "file"@),
        spec_str_field(v, "file_name"@),
        spec_opt_str_field(v, "file_size"@),
        spec_opt_str_field(v, "url"@),
        spec_opt_str_field(v, "base64"@),
    ) {
        (Some(file), Some(file_name), Ok(file_size), Ok(url), Ok(base64)) => Some(
            FileInfoView { file, file_name, file_size, url, base64 },
        ),
        _ => None,
    }
}

pub fn decode_file_info(v: &JsonValue) -> (r: Option<FileInfo>)
    ensures
        match r {
            Some(x) => spec_decode_file_info(v@) == Some(x@),
            None => spec_decode_file_info(v@) is None,
        },
{
    match (
        str_field(v, "file"),
        str_field(v, "file_name"),
        opt_str_field(v, "file_size"),
        opt_str_field(v, "url"),
        opt_str_field(v, "base64"),
    ) {
        (Some(file), Some(file_name), Ok(file_size), Ok(url), Ok(base64)) => Some(
            FileInfo { file, file_name, file_size, url, base64 },
        ),
        _ => None,
    }
}

fn decode_member_list(items: &Vec<JsonValue>) -> (r: Option<Vec<MemberInfo>>)
    ensures
        match r {
            Some(out) => spec_decode_list(json_views(items@), |v: JsonVal| spec_decode_member_info(v))
                == Some(member_views(out@)),
            None => spec_decode_list(
                json_views(items@),
                |v: JsonVal| spec_decode_member_info(v),
            ) is None,
        },
{
    let ghost views = json_views(items@);
    let ghost f = |v: JsonVal| spec_decode_member_info(v);
    proof {
        lemma_json_views(items@);
    }
    let n = items.len();
    let mut out: Vec<MemberInfo> = Vec::new();
    let mut i: usize = 0;
    while i < n
        invariant
            0 <= i <= n,
            n == items@.len(),
            views == json_views(items@),
            views.len() == n,
            forall|k: int| 0 <= k < n ==> views[k] == #[trigger] items@[k]@,
            f == (|v: JsonVal| spec_decode_member_info(v)),
            out@.len() == i,
            forall|k: int| 0 <= k < i ==> Some(#[trigger] out@[k]@) == f(views[k]),
        decreases n - i,
    {
        match decode_member_info(&items[i]) {
            Some(x) => {
                out.push(x);
            },
            None => {
                proof {
                    lemma_decode_list_element(views, f, i as int);
                }
                return None;
            },
        }
        i = i + 1;
    }
    proof {
        lemma_decode_list_all(views, f, member_views(out@));
    }
    Some(out)
}

fn decode_user_list(items: &Vec<JsonValue>) -> (r: Option<Vec<UserInfo>>)
    ensures
        match r {
            Some(out) => spec_decode_list(json_views(items@), |v: JsonVal| spec_decode_user_info(v))
                == Some(user_views(out@)),
            None => spec_decode_list(
                json_views(items@),
                |v: JsonVal| spec_decode_user_info(v),
            ) is None,
        },
{
    let ghost views = json_views(items@);
    let ghost f = |v: JsonVal| spec_decode_user_info(v);
    proof {
        lemma_json_views(items@);
    }
    let n = items.len();
    let mut out: Vec<UserInfo> = Vec::new();
    let mut i: usize = 0;
    while i < n
        invariant
            0 <= i <= n,
            n == items@.len(),
            views == json_views(items@),
            views.len() == n,
            forall|k: int| 0 <= k < n ==> views[k] == #[trigger] items@[k]@,
            f == (|v: JsonVal| spec_decode_user_info(v)),
            out@.len() == i,
            forall|k: int| 0 <= k < i ==> Some(#[trigger] out@[k]@) == f(views[k]),
        decreases n - i,
    {
        match decode_user_info(&items[i]) {
            Some(x) => {
                out.push(x);
            },
            None => {
                proof {
                    lemma_decode_list_element(views, f, i as int);
                }
                return None;
            },
        }
        i = i + 1;
    }
    proof {
        lemma_decode_list_all(views, f, user_views(out@));
    }
    Some(out)
}

fn decode_group_list(items: &Vec<JsonValue>) -> (r: Option<Vec<GroupInfo>>)
    ensures
        match r {
            Some(out) => spec_decode_list(json_views(items@), |v: JsonVal| spec_decode_group_info(v))
                == Some(group_views(out@)),
            None => spec_decode_list(
                json_views(items@),
                |v: JsonVal| spec_decode_group_info(v),
            ) is None,
        },
{
    let ghost views = json_views(items@);
    let ghost f = |v: JsonVal| spec_decode_group_info(v);
    proof {
        lemma_json_views(items@);
    }
    let n = items.len();
    let mut out: Vec<GroupInfo> = Vec::new();
    let mut i: usize = 0;
    while i < n
        invariant
            0 <= i <= n,
            n == items@.len(),
            views == json_views(items@),
            views.len() == n,
            forall|k: int| 0 <= k < n ==> views[k] == #[trigger] items@[k]@,
            f == (|v: JsonVal| spec_decode_group_info(v)),
            out@.len() == i,
            forall|k: int| 0 <= k < i ==> Some(#[trigger] out@[k]@) == f(views[k]),
        decreases n - i,
    {
        match decode_group_info(&items[i]) {
            Some(x) => {
                out.push(x);
            },
            None => {
                proof {
                    lemma_decode_list_element(views, f, i as int);
                }
                return None;
            },
        }
        i = i + 1;
    }
    proof {
        lemma_decode_list_all(views, f, group_views(out@));
    }
    Some(out)
}

/// What the `data` field decodes to: `null` carries no data; objects and
/// arrays are matched against the typed shapes in a fixed order, most
/// specific first, mirroring untagged matching.
pub open spec fn spec_decode_response_data(v: JsonVal) -> Option<ResponseDataView> {
    match v {
        JsonVal::Null => Some(ResponseDataView::Empty),
        JsonVal::Object(_) => {
            if spec_decode_message_id(v) is Some {
                Some(ResponseDataView::MessageId(spec_decode_message_id(v).unwrap()))
            } else if spec_decode_member_info(v) is Some {
                Some(ResponseDataView::MemberInfo(spec_decode_member_info(v).unwrap()))
            } else if spec_decode_user_info(v) is Some {
                Some(ResponseDataView::UserInfo(spec_decode_user_info(v).unwrap()))
            } else if spec_decode_group_info(v) is Some {
                Some(ResponseDataView::GroupInfo(spec_decode_group_info(v).unwrap()))
            } else if spec_decode_file_info(v) is Some {
                Some(ResponseDataView::FileInfo(spec_decode_file_info(v).unwrap()))
            } else {
                None
            }
        },
        JsonVal::Array(items) => {
            if spec_decode_list(items, |x: JsonVal| spec_decode_member_info(x)) is Some {
                Some(
                    ResponseDataView::GroupMemberList(
                        spec_decode_list(items, |x: JsonVal| spec_decode_member_info(x)).unwrap(),
                    ),
                )
            } else if spec_decode_list(items, |x: JsonVal| spec_decode_user_info(x)) is Some {
                Some(
                    ResponseDataView::FriendList(
                        spec_decode_list(items, |x: JsonVal| spec_decode_user_info(x)).unwrap(),
                    ),
                )
            } else if spec_decode_list(items, |x: JsonVal| spec_decode_group_info(x)) is Some {
                Some(
                    ResponseDataView::GroupList(
                        spec_decode_list(items, |x: JsonVal| spec_decode_group_info(x)).unwrap(),
                    ),
                )
            } else {
                None
            }
        },
        _ => None,
    }
}

pub fn decode_response_data(v: &JsonValue) -> (r: Option<ResponseData>)
    ensures
        match r {
            Some(x) => spec_decode_response_data(v@) == Some(x@),
            None => spec_decode_response_data(v@) is None,
        },
{
    match v {
        JsonValue::Null => Some(ResponseData::Empty),
        JsonValue::Object(_) => {
            if let Some(x) = decode_message_id(v) {
                return Some(ResponseData::MessageId(x));
            }
            if let Some(x) = decode_member_info(v) {
                return Some(ResponseData::MemberInfo(x));
            }
            if let Some(x) = decode_user_info(v) {
                return Some(ResponseData::UserInfo(x));
            }
            if let Some(x) = decode_group_info(v) {
                return Some(ResponseData::GroupInfo(x));
            }
            if let Some(x) = decode_file_info(v) {
                return Some(ResponseData::FileInfo(x));
            }
            None
        },
        JsonValue::Array(items) => {
            if let Some(x) = decode_member_list(items) {
                return Some(ResponseData::GroupMemberList(x));
            }
            if let Some(x) = decode_user_list(items) {
                return Some(ResponseData::FriendList(x));
            }
            if let Some(x) = decode_group_list(items) {
                return Some(ResponseData::GroupList(x));
            }
            None
        },
        _ => None,
    }
}

/// What a response envelope decodes to: a string echo and status, a
/// 32-bit retcode, and a present `data` field.
pub open spec fn spec_decode_response(v: JsonVal) -> Option<ResponseView> {
    match (
        spec_str_field(v, "echo"@),
        spec_str_field(v, "status"@),
        spec_int_field(v, "retcode"@),
        spec_get(v, "data"@),
    ) {
        (Some(echo), Some(status), Some(retcode), Some(data_json)) => {
            if i32::MIN <= retcode <= i32::MAX {
                match spec_decode_response_data(data_json) {
                    Some(data) => Some(ResponseView { echo, status, retcode, data }),
                    None => None,
                }
            } else {
                None
            }
        },
        _ => None,
    }
}

pub fn decode_response(v: &JsonValue) -> (r: Option<Response>)
    ensures
        match r {
            Some(x) => spec_decode_response(v@) == Some(x@),
            None => spec_decode_response(v@) is None,
        },
{
    match (str_field(v, "echo"), str_field(v, "status"), int_field(v, "retcode"), v.get("data")) {
        (Some(echo), Some(status), Some(retcode), Some(data_json)) => {
            if -2147483648i64 <= retcode && retcode <= 2147483647i64 {
                match decode_response_data(data_json) {
                    Some(data) => Some(
                        Response { echo, status, retcode: retcode as i32, data },
                    ),
                    None => None,
                }
            } else {
                None
            }
        },
        _ => None,
    }
}

/// Whether a JSON object has a response's shape: `echo` with `status`.
pub open spec fn spec_is_response_shape(v: JsonVal) -> bool {
    spec_str_field(v, "echo"@) is Some && spec_str_field(v, "status"@) is Some
}

// ---------- typed extraction ----------

/// Why a typed API call failed.
#[derive(Debug, Clone, PartialEq, Eq, Structural)]
pub enum ApiError {
    /// The adapter answered with a status other than `ok`.
    Status { retcode: i32 },
    /// The adapter answered `ok` but with data of the wrong shape.
    WrongVariant,
}

impl Response {
    /// Whether the envelope reports success.
    pub open spec fn spec_is_ok(&self) -> bool {
        self.status@ == "ok"@
    }

    pub fn is_ok(&self) -> (r: bool)
        ensures
            r == self.spec_is_ok(),
    {
        str_eq(self.status.as_str(), "ok")
    }

    /// Success check shared by every typed accessor: a non-`ok` status is
    /// an error carrying the retcode.
    pub fn check_ok(&self) -> (r: Result<(), ApiError>)
        ensures
            match r {
                Ok(()) => self.spec_is_ok(),
                Err(e) => !self.spec_is_ok() && e == (ApiError::Status { retcode: self.retcode }),
            },
    {
        if self.is_ok() {
            Ok(())
        } else {
            Err(ApiError::Status { retcode: self.retcode })
        }
    }

    /// Typed user-info result: `ok` status and a user-info payload, or
    /// the error that says which check failed.
    pub fn expect_user_info(&self) -> (r: Result<&UserInfo, ApiError>)
        ensures
            match r {
                Ok(x) => self.spec_is_ok() && self.data@ == ResponseDataView::UserInfo(x@),
                Err(ApiError::Status { retcode }) => !self.spec_is_ok() && retcode
                    == self.retcode,
                Err(ApiError::WrongVariant) => self.spec_is_ok() && !(self.data@ is UserInfo),
            },
    {
        match self.check_ok() {
            Err(e) => Err(e),
            Ok(()) => match &self.data {
                ResponseData::UserInfo(x) => Ok(x),
                _ => Err(ApiError::WrongVariant),
            },
        }
    }

    pub fn expect_group_info(&self) -> (r: Result<&GroupInfo, ApiError>)
        ensures
            match r {
                Ok(x) => self.spec_is_ok() && self.data@ == ResponseDataView::GroupInfo(x@),
                Err(ApiError::Status { retcode }) => !self.spec_is_ok() && retcode
                    == self.retcode,
                Err(ApiError::WrongVariant) => self.spec_is_ok() && !(self.data@ is GroupInfo),
            },
    {
        match self.check_ok() {
            Err(e) => Err(e),
            Ok(()) => match &self.data {
                ResponseData::GroupInfo(x) => Ok(x),
                _ => Err(ApiError::WrongVariant),
            },
        }
    }

    pub fn expect_member_info(&self) -> (r: Result<&MemberInfo, ApiError>)
        ensures
            match r {
                Ok(x) => self.spec_is_ok() && self.data@ == ResponseDataView::MemberInfo(x@),
                Err(ApiError::Status { retcode }) => !self.spec_is_ok() && retcode
                    == self.retcode,
                Err(ApiError::WrongVariant) => self.spec_is_ok() && !(self.data@ is MemberInfo),
            },
    {
        match self.check_ok() {
            Err(e) => Err(e),
            Ok(()) => match &self.data {
                ResponseData::MemberInfo(x) => Ok(x),
                _ => Err(ApiError::WrongVariant),
            },
        }
    }

    pub fn expect_message_id(&self) -> (r: Result<&MessageId, ApiError>)
        ensures
            match r {
                Ok(x) => self.spec_is_ok() && self.data@ == ResponseDataView::MessageId(x@),
                Err(ApiError::Status { retcode }) => !self.spec_is_ok() && retcode
                    == self.retcode,
                Err(ApiError::WrongVariant) => self.spec_is_ok() && !(self.data@ is MessageId),
            },
    {
        match self.check_ok() {
            Err(e) => Err(e),
            Ok(()) => match &self.data {
                ResponseData::MessageId(x) => Ok(x),
                _ => Err(ApiError::WrongVariant),
            },
        }
    }

    pub fn expect_file_info(&self) -> (r: Result<&FileInfo, ApiError>)
        ensures
            match r {
                Ok(x) => self.spec_is_ok() && self.data@ == ResponseDataView::FileInfo(x@),
                Err(ApiError::Status { retcode }) => !self.spec_is_ok() && retcode
                    == self.retcode,
                Err(ApiError::WrongVariant) => self.spec_is_ok() && !(self.data@ is FileInfo),
            },
    {
        match self.check_ok() {
            Err(e) => Err(e),
            Ok(()) => match &self.data {
                ResponseData::FileInfo(x) => Ok(x),
                _ => Err(ApiError::WrongVariant),
            },
        }
    }

    pub fn expect_friend_list(&self) -> (r: Result<&Vec<UserInfo>, ApiError>)
        ensures
            match r {
                Ok(x) => self.spec_is_ok() && self.data@ == ResponseDataView::FriendList(
                    user_views(x@),
                ),
                Err(ApiError::Status { retcode }) => !self.spec_is_ok() && retcode
                    == self.retcode,
                Err(ApiError::WrongVariant) => self.spec_is_ok() && !(self.data@ is FriendList),
            },
    {
        match self.check_ok() {
            Err(e) => Err(e),
            Ok(()) => match &self.data {
                ResponseData::FriendList(x) => Ok(x),
                _ => Err(ApiError::WrongVariant),
            },
        }
    }

    pub fn expect_group_list(&self) -> (r: Result<&Vec<GroupInfo>, ApiError>)
        ensures
            match r {
                Ok(x) => self.spec_is_ok() && self.data@ == ResponseDataView::GroupList(
                    group_views(x@),
                ),
                Err(ApiError::Status { retcode }) => !self.spec_is_ok() && retcode
                    == self.retcode,
                Err(ApiError::WrongVariant) => self.spec_is_ok() && !(self.data@ is GroupList),
            },
    {
        match self.check_ok() {
            Err(e) => Err(e),
            Ok(()) => match &self.data {
                ResponseData::GroupList(x) => Ok(x),
                _ => Err(ApiError::WrongVariant),
            },
        }
    }

    pub fn expect_group_member_list(&self) -> (r: Result<&Vec<MemberInfo>, ApiError>)
        ensures
            match r {
                Ok(x) => self.spec_is_ok() && self.data@ == ResponseDataView::GroupMemberList(
                    member_views(x@),
                ),
                Err(ApiError::Status { retcode }) => !self.spec_is_ok() && retcode
                    == self.retcode,
                Err(ApiError::WrongVariant) => self.spec_is_ok() && !(
                self.data@ is GroupMemberList),
            },
    {
        match self.check_ok() {
            Err(e) => Err(e),
            Ok(()) => match &self.data {
                ResponseData::GroupMemberList(x) => Ok(x),
                _ => Err(ApiError::WrongVariant),
            },
        }
    }

    /// For actions that return no data: success is the `ok` status alone.
    pub fn expect_none(&self) -> (r: Result<(), ApiError>)
        ensures
            match r {
                Ok(()) => self.spec_is_ok(),
                Err(e) => !self.spec_is_ok() && e == (ApiError::Status { retcode: self.retcode }),
            },
    {
        self.check_ok()
    }
}

} // verus!
