//! API requests: the twelve supported actions, their parameters, and the
//! process-unique echo tokens that correlate responses.

use vstd::prelude::*;

verus! {

use crate::onebot::protocol::segment::Segment;
use crate::onebot::protocol::json::{JsonVal, JsonValue};
use crate::text::{dec_digits, u64_to_dec, lemma_dec_digits_injective};

#[derive(Debug, Clone)]
pub struct GetStrangerInfo {
    pub user_id: String,
    pub no_cache: bool,
}

#[derive(Debug, Clone)]
pub struct GetGroupInfo {
    pub group_id: String,
    pub no_cache: bool,
}

#[derive(Debug, Clone)]
pub struct GetGroupMemberList {
    pub group_id: String,
}

#[derive(Debug, Clone)]
pub struct GetGroupMemberInfo {
    pub group_id: String,
    pub user_id: String,
    pub no_cache: bool,
}

#[derive(Debug, Clone)]
pub struct GetRecord {
    pub file: String,
    /// Requested output format, such as `wav` or `ogg`.
    pub out_format: String,
}

#[derive(Debug, Clone)]
pub struct GetImage {
    pub file: String,
    pub file_id: String,
    pub emoji_id: Option<String>,
}

#[derive(Debug, Clone)]
pub struct GetFile {
    pub file: String,
    pub file_id: String,
}

#[derive(Debug, Clone)]
pub struct DeleteMsg {
    pub message_id: String,
}

#[derive(Debug)]
pub struct SendMsg {
    /// `private` or `group`.
    pub message_type: String,
    pub user_id: Option<String>,
    pub group_id: Option<String>,
    pub message: Vec<Segment>,
}

/// An API request, tagged by `action`.
#[derive(Debug)]
pub enum Request {
    GetLoginInfo { echo: String },
    GetStrangerInfo { echo: String, params: GetStrangerInfo },
    GetGroupInfo { echo: String, params: GetGroupInfo },
    GetFriendList { echo: String },
    GetGroupList { echo: String },
    GetGroupMemberList { echo: String, params: GetGroupMemberList },
    GetGroupMemberInfo { echo: String, params: GetGroupMemberInfo },
    GetRecord { echo: String, params: GetRecord },
    GetImage { echo: String, params: GetImage },
    GetFile { echo: String, params: GetFile },
    DeleteMsg { echo: String, params: DeleteMsg },
    SendMsg { echo: String, params: SendMsg },
}

impl Request {
    /// The echo token carried by any request.
    pub open spec fn spec_echo(&self) -> Seq<char> {
        match self {
            Request::GetLoginInfo { echo } => echo@,
            Request::GetStrangerInfo { echo, .. } => echo@,
            Request::GetGroupInfo { echo, .. } => echo@,
            Request::GetFriendList { echo } => echo@,
            Request::GetGroupList { echo } => echo@,
            Request::GetGroupMemberList { echo, .. } => echo@,
            Request::GetGroupMemberInfo { echo, .. } => echo@,
            Request::GetRecord { echo, .. } => echo@,
            Request::GetImage { echo, .. } => echo@,
            Request::GetFile { echo, .. } => echo@,
            Request::DeleteMsg { echo, .. } => echo@,
            Request::SendMsg { echo, .. } => echo@,
        }
    }

    pub fn get_echo(&self) -> (r: String)
        ensures
            r@ == self.spec_echo(),
    {
        match self {
            Request::GetLoginInfo { echo } => echo.clone(),
            Request::GetStrangerInfo { echo, .. } => echo.clone(),
            Request::GetGroupInfo { echo, .. } => echo.clone(),
            Request::GetFriendList { echo } => echo.clone(),
            Request::GetGroupList { echo } => echo.clone(),
            Request::GetGroupMemberList { echo, .. } => echo.clone(),
            Request::GetGroupMemberInfo { echo, .. } => echo.clone(),
            Request::GetRecord { echo, .. } => echo.clone(),
            Request::GetImage { echo, .. } => echo.clone(),
            Request::GetFile { echo, .. } => echo.clone(),
            Request::DeleteMsg { echo, .. } => echo.clone(),
            Request::SendMsg { echo, .. } => echo.clone(),
        }
    }
}

// ---------- echo generation ----------

/// Source of process-unique echo tokens: a counter that only moves
/// forward, starting at 1.
pub struct EchoCounter {
    pub next: u64,
}

impl EchoCounter {
    pub fn new() -> (r: EchoCounter)
        ensures
            r.next == 1,
    {
        EchoCounter { next: 1 }
    }
}

/// Draws the next echo value and advances the counter; distinct draws of
/// one counter yield distinct values.
pub fn generate_echo(counter: &mut EchoCounter) -> (r: u64)
    requires
        old(counter).next < u64::MAX,
    ensures
        r == old(counter).next,
        final(counter).next == old(counter).next + 1,
{
    let r = counter.next;
    counter.next = counter.next + 1;
    r
}

/// The echo text issued for a counter value.
pub open spec fn echo_text(n: u64) -> Seq<char> {
    dec_digits(n as nat)
}

/// Echo texts of distinct counter values never collide, so every echo is
/// unique within a process.
pub proof fn lemma_echo_text_injective(a: u64, b: u64)
    requires
        echo_text(a) == echo_text(b),
    ensures
        a == b,
{
    lemma_dec_digits_injective(a as nat, b as nat);
}

fn fresh_echo(counter: &mut EchoCounter) -> (r: String)
    requires
        old(counter).next < u64::MAX,
    ensures
        r@ == echo_text(old(counter).next),
        final(counter).next == old(counter).next + 1,
{
    let n = generate_echo(counter);
    u64_to_dec(n)
}

// ---------- builders ----------

impl Request {
    pub fn get_login_info(counter: &mut EchoCounter) -> (r: Request)
        requires
            old(counter).next < u64::MAX,
        ensures
            r matches Request::GetLoginInfo { echo } && echo@ == echo_text(old(counter).next),
            final(counter).next == old(counter).next + 1,
    {
        Request::GetLoginInfo { echo: fresh_echo(counter) }
    }

    pub fn get_friend_list(counter: &mut EchoCounter) -> (r: Request)
        requires
            old(counter).next < u64::MAX,
        ensures
            r matches Request::GetFriendList { echo } && echo@ == echo_text(old(counter).next),
            final(counter).next == old(counter).next + 1,
    {
        Request::GetFriendList { echo: fresh_echo(counter) }
    }

    pub fn get_group_list(counter: &mut EchoCounter) -> (r: Request)
        requires
            old(counter).next < u64::MAX,
        ensures
            r matches Request::GetGroupList { echo } && echo@ == echo_text(old(counter).next),
            final(counter).next == old(counter).next + 1,
    {
        Request::GetGroupList { echo: fresh_echo(counter) }
    }

    pub fn get_stranger_info(counter: &mut EchoCounter, params: GetStrangerInfo) -> (r: Request)
        requires
            old(counter).next < u64::MAX,
        ensures
            r matches Request::GetStrangerInfo { echo, params: p } && echo@ == echo_text(
                old(counter).next,
            ) && p == params,
            final(counter).next == old(counter).next + 1,
    {
        Request::GetStrangerInfo { echo: fresh_echo(counter), params }
    }

    pub fn get_group_info(counter: &mut EchoCounter, params: GetGroupInfo) -> (r: Request)
        requires
            old(counter).next < u64::MAX,
        ensures
            r matches Request::GetGroupInfo { echo, params: p } && echo@ == echo_text(
                old(counter).next,
            ) && p == params,
            final(counter).next == old(counter).next + 1,
    {
        Request::GetGroupInfo { echo: fresh_echo(counter), params }
    }

    pub fn get_group_member_list(
        counter: &mut EchoCounter,
        params: GetGroupMemberList,
    ) -> (r: Request)
        requires
            old(counter).next < u64::MAX,
        ensures
            r matches Request::GetGroupMemberList { echo, params: p } && echo@ == echo_text(
                old(counter).next,
            ) && p == params,
            final(counter).next == old(counter).next + 1,
    {
        Request::GetGroupMemberList { echo: fresh_echo(counter), params }
    }

    pub fn get_group_member_info(
        counter: &mut EchoCounter,
        params: GetGroupMemberInfo,
    ) -> (r: Request)
        requires
            old(counter).next < u64::MAX,
        ensures
            r matches Request::GetGroupMemberInfo { echo, params: p } && echo@ == echo_text(
                old(counter).next,
            ) && p == params,
            final(counter).next == old(counter).next + 1,
    {
        Request::GetGroupMemberInfo { echo: fresh_echo(counter), params }
    }

    pub fn get_record(counter: &mut EchoCounter, params: GetRecord) -> (r: Request)
        requires
            old(counter).next < u64::MAX,
        ensures
            r matches Request::GetRecord { echo, params: p } && echo@ == echo_text(
                old(counter).next,
            ) && p == params,
            final(counter).next == old(counter).next + 1,
    {
        Request::GetRecord { echo: fresh_echo(counter), params }
    }

    pub fn get_image(counter: &mut EchoCounter, params: GetImage) -> (r: Request)
        requires
            old(counter).next < u64::MAX,
        ensures
            r matches Request::GetImage { echo, params: p } && echo@ == echo_text(
                old(counter).next,
            ) && p == params,
            final(counter).next == old(counter).next + 1,
    {
        Request::GetImage { echo: fresh_echo(counter), params }
    }

    pub fn get_file(counter: &mut EchoCounter, params: GetFile) -> (r: Request)
        requires
            old(counter).next < u64::MAX,
        ensures
            r matches Request::GetFile { echo, params: p } && echo@ == echo_text(
                old(counter).next,
            ) && p == params,
            final(counter).next == old(counter).next + 1,
    {
        Request::GetFile { echo: fresh_echo(counter), params }
    }

    pub fn delete_msg(counter: &mut EchoCounter, params: DeleteMsg) -> (r: Request)
        requires
            old(counter).next < u64::MAX,
        ensures
            r matches Request::DeleteMsg { echo, params: p } && echo@ == echo_text(
                old(counter).next,
            ) && p == params,
            final(counter).next == old(counter).next + 1,
    {
        Request::DeleteMsg { echo: fresh_echo(counter), params }
    }

    pub fn send_msg(counter: &mut EchoCounter, params: SendMsg) -> (r: Request)
        requires
            old(counter).next < u64::MAX,
        ensures
            r matches Request::SendMsg { echo, params: p } && echo@ == echo_text(
                old(counter).next,
            ) && p == params,
            final(counter).next == old(counter).next + 1,
    {
        Request::SendMsg { echo: fresh_echo(counter), params }
    }
}


// ---------- encoding to JSON ----------

/// The wire object of an action without parameters.
pub open spec fn req_obj(action: Seq<char>, echo: Seq<char>) -> JsonVal {
    JsonVal::Object(
        seq![("action"@, JsonVal::Text(action)), ("echo"@, JsonVal::Text(echo))],
    )
}

/// The wire object of an action with parameters.
pub open spec fn req_obj_params(
    action: Seq<char>,
    echo: Seq<char>,
    params: Seq<(Seq<char>, JsonVal)>,
) -> JsonVal {
    JsonVal::Object(
        seq![
            ("action"@, JsonVal::Text(action)),
            ("echo"@, JsonVal::Text(echo)),
            ("params"@, JsonVal::Object(params)),
        ],
    )
}

/// The wire form of a request: tagged by `action`, the echo beside it,
/// parameters under `params`, optional ids as `null` when absent.
pub open spec fn spec_encode_request(req: Request) -> JsonVal {
    match req {
        Request::GetLoginInfo { echo } => req_obj("get_login_info"@, echo@),
        Request::GetFriendList { echo } => req_obj("get_friend_list"@, echo@),
        Request::GetGroupList { echo } => req_obj("get_group_list"@, echo@),
        Request::GetStrangerInfo { echo, params } => req_obj_params(
            "get_stranger_info"@,
            echo@,
            seq![
                ("user_id"@, JsonVal::Text(params.user_id@)),
                ("no_cache"@, JsonVal::Bool(params.no_cache)),
            ],
        ),
        Request::GetGroupInfo { echo, params } => req_obj_params(
            "get_group_info"@,
            echo@,
            seq![
                ("group_id"@, JsonVal::Text(params.group_id@)),
                ("no_cache"@, JsonVal::Bool(params.no_cache)),
            ],
        ),
        Request::GetGroupMemberList { echo, params } => req_obj_params(
            "get_group_member_list"@,
            echo@,
            seq![("group_id"@, JsonVal::Text(params.group_id@))],
        ),
        Request::GetGroupMemberInfo { echo, params } => req_obj_params(
            "get_group_member_info"@,
            echo@,
            seq![
                ("group_id"@, JsonVal::Text(params.group_id@)),
                ("user_id"@, JsonVal::Text(params.user_id@)),
                ("no_cache"@, JsonVal::Bool(params.no_cache)),
            ],
        ),
        Request::GetRecord { echo, params } => req_obj_params(
            "get_record"@,
            echo@,
            seq![
                ("file"@, JsonVal::Text(params.file@)),
                ("out_format"@, JsonVal::Text(params.out_format@)),
            ],
        ),
        Request::GetImage { echo, params } => req_obj_params(
            "get_image"@,
            echo@,
            seq![
                ("file"@, JsonVal::Text(params.file@)),
                ("file_id"@, JsonVal::Text(params.file_id@)),
                ("emoji_id"@, crate::onebot::protocol::segment::enc_opt(
                    crate::onebot::protocol::segment::opt_text(params.emoji_id),
                )),
            ],
        ),
        Request::GetFile { echo, params } => req_obj_params(
            "get_file"@,
            echo@,
            seq![
                ("file"@, JsonVal::Text(params.file@)),
                ("file_id"@, JsonVal::Text(params.file_id@)),
            ],
        ),
        Request::DeleteMsg { echo, params } => req_obj_params(
            "delete_msg"@,
            echo@,
            seq![("message_id"@, JsonVal::Text(params.message_id@))],
        ),
        Request::SendMsg { echo, params } => req_obj_params(
            "send_msg"@,
            echo@,
            seq![
                ("message_type"@, JsonVal::Text(params.message_type@)),
                ("user_id"@, crate::onebot::protocol::segment::enc_opt(
                    crate::onebot::protocol::segment::opt_text(params.user_id),
                )),
                ("group_id"@, crate::onebot::protocol::segment::enc_opt(
                    crate::onebot::protocol::segment::opt_text(params.group_id),
                )),
                ("message"@, JsonVal::Array(
                    crate::onebot::protocol::segment::spec_encode_segments(params.message@),
                )),
            ],
        ),
    }
}

fn req_wrap(action: &str, echo: &String) -> (r: JsonValue)
    ensures
        r@ == req_obj(action@, echo@),
{
    let mut fields: Vec<(String, JsonValue)> = Vec::new();
    fields.push(crate::onebot::protocol::segment::pair(
        "action",
        JsonValue::Text(action.to_owned()),
    ));
    fields.push(crate::onebot::protocol::segment::pair("echo", JsonValue::Text(echo.clone())));
    let r = JsonValue::Object(fields);
    proof {
        crate::onebot::protocol::json::lemma_json_field_views(
            (match &r {
                JsonValue::Object(fs) => fs@,
                _ => Seq::empty(),
            }),
        );
        assert(crate::onebot::protocol::json::json_field_views(
            (match &r {
                JsonValue::Object(fs) => fs@,
                _ => Seq::empty(),
            }),
        ) =~= seq![("action"@, JsonVal::Text(action@)), ("echo"@, JsonVal::Text(echo@))]);
    }
    r
}

fn req_wrap_params(action: &str, echo: &String, params: Vec<(String, JsonValue)>) -> (r:
    JsonValue)
    ensures
        r@ == req_obj_params(
            action@,
            echo@,
            crate::onebot::protocol::json::json_field_views(params@),
        ),
{
    let mut fields: Vec<(String, JsonValue)> = Vec::new();
    fields.push(crate::onebot::protocol::segment::pair(
        "action",
        JsonValue::Text(action.to_owned()),
    ));
    fields.push(crate::onebot::protocol::segment::pair("echo", JsonValue::Text(echo.clone())));
    let ghost params_view = crate::onebot::protocol::json::json_field_views(params@);
    fields.push(crate::onebot::protocol::segment::pair("params", JsonValue::Object(params)));
    let r = JsonValue::Object(fields);
    proof {
        crate::onebot::protocol::json::lemma_json_field_views(
            (match &r {
                JsonValue::Object(fs) => fs@,
                _ => Seq::empty(),
            }),
        );
        assert(crate::onebot::protocol::json::json_field_views(
            (match &r {
                JsonValue::Object(fs) => fs@,
                _ => Seq::empty(),
            }),
        ) =~= seq![
            ("action"@, JsonVal::Text(action@)),
            ("echo"@, JsonVal::Text(echo@)),
            ("params"@, JsonVal::Object(params_view)),
        ]);
    }
    r
}

fn bool_val(b: bool) -> (r: JsonValue)
    ensures
        r@ == JsonVal::Bool(b),
{
    JsonValue::Bool(b)
}

/// Encodes a request for the wire.
pub fn encode_request(req: &Request) -> (r: JsonValue)
    ensures
        r@ == spec_encode_request(*req),
{
    match req {
        Request::GetLoginInfo { echo } => req_wrap("get_login_info", echo),
        Request::GetFriendList { echo } => req_wrap("get_friend_list", echo),
        Request::GetGroupList { echo } => req_wrap("get_group_list", echo),
        Request::GetStrangerInfo { echo, params } => {
            let mut d: Vec<(String, JsonValue)> = Vec::new();
            d.push(crate::onebot::protocol::segment::pair(
                "user_id",
                crate::onebot::protocol::segment::text_val(&params.user_id),
            ));
            d.push(crate::onebot::protocol::segment::pair("no_cache", bool_val(params.no_cache)));
            proof {
                crate::onebot::protocol::json::lemma_json_field_views(d@);
                assert(crate::onebot::protocol::json::json_field_views(d@) =~= seq![
                    ("user_id"@, JsonVal::Text(params.user_id@)),
                    ("no_cache"@, JsonVal::Bool(params.no_cache)),
                ]);
            }
            req_wrap_params("get_stranger_info", echo, d)
        },
        Request::GetGroupInfo { echo, params } => {
            let mut d: Vec<(String, JsonValue)> = Vec::new();
            d.push(crate::onebot::protocol::segment::pair(
                "group_id",
                crate::onebot::protocol::segment::text_val(&params.group_id),
            ));
            d.push(crate::onebot::protocol::segment::pair("no_cache", bool_val(params.no_cache)));
            proof {
                crate::onebot::protocol::json::lemma_json_field_views(d@);
                assert(crate::onebot::protocol::json::json_field_views(d@) =~= seq![
                    ("group_id"@, JsonVal::Text(params.group_id@)),
                    ("no_cache"@, JsonVal::Bool(params.no_cache)),
                ]);
            }
            req_wrap_params("get_group_info", echo, d)
        },
        Request::GetGroupMemberList { echo, params } => {
            let mut d: Vec<(String, JsonValue)> = Vec::new();
            d.push(crate::onebot::protocol::segment::pair(
                "group_id",
                crate::onebot::protocol::segment::text_val(&params.group_id),
            ));
            proof {
                crate::onebot::protocol::json::lemma_json_field_views(d@);
                assert(crate::onebot::protocol::json::json_field_views(d@) =~= seq![
                    ("group_id"@, JsonVal::Text(params.group_id@)),
                ]);
            }
            req_wrap_params("get_group_member_list", echo, d)
        },
        Request::GetGroupMemberInfo { echo, params } => {
            let mut d: Vec<(String, JsonValue)> = Vec::new();
            d.push(crate::onebot::protocol::segment::pair(
                "group_id",
                crate::onebot::protocol::segment::text_val(&params.group_id),
            ));
            d.push(crate::onebot::protocol::segment::pair(
                "user_id",
                crate::onebot::protocol::segment::text_val(&params.user_id),
            ));
            d.push(crate::onebot::protocol::segment::pair("no_cache", bool_val(params.no_cache)));
            proof {
                crate::onebot::protocol::json::lemma_json_field_views(d@);
                assert(crate::onebot::protocol::json::json_field_views(d@) =~= seq![
                    ("group_id"@, JsonVal::Text(params.group_id@)),
                    ("user_id"@, JsonVal::Text(params.user_id@)),
                    ("no_cache"@, JsonVal::Bool(params.no_cache)),
                ]);
            }
            req_wrap_params("get_group_member_info", echo, d)
        },
        Request::GetRecord { echo, params } => {
            let mut d: Vec<(String, JsonValue)> = Vec::new();
            d.push(crate::onebot::protocol::segment::pair(
                "file",
                crate::onebot::protocol::segment::text_val(&params.file),
            ));
            d.push(crate::onebot::protocol::segment::pair(
                "out_format",
                crate::onebot::protocol::segment::text_val(&params.out_format),
            ));
            proof {
                crate::onebot::protocol::json::lemma_json_field_views(d@);
                assert(crate::onebot::protocol::json::json_field_views(d@) =~= seq![
                    ("file"@, JsonVal::Text(params.file@)),
                    ("out_format"@, JsonVal::Text(params.out_format@)),
                ]);
            }
            req_wrap_params("get_record", echo, d)
        },
        Request::GetImage { echo, params } => {
            let mut d: Vec<(String, JsonValue)> = Vec::new();
            d.push(crate::onebot::protocol::segment::pair(
                "file",
                crate::onebot::protocol::segment::text_val(&params.file),
            ));
            d.push(crate::onebot::protocol::segment::pair(
                "file_id",
                crate::onebot::protocol::segment::text_val(&params.file_id),
            ));
            d.push(crate::onebot::protocol::segment::pair(
                "emoji_id",
                crate::onebot::protocol::segment::opt_val(&params.emoji_id),
            ));
            proof {
                crate::onebot::protocol::json::lemma_json_field_views(d@);
                assert(crate::onebot::protocol::json::json_field_views(d@) =~= seq![
                    ("file"@, JsonVal::Text(params.file@)),
                    ("file_id"@, JsonVal::Text(params.file_id@)),
                    ("emoji_id"@, crate::onebot::protocol::segment::enc_opt(
                        crate::onebot::protocol::segment::opt_text(params.emoji_id),
                    )),
                ]);
            }
            req_wrap_params("get_image", echo, d)
        },
        Request::GetFile { echo, params } => {
            let mut d: Vec<(String, JsonValue)> = Vec::new();
            d.push(crate::onebot::protocol::segment::pair(
                "file",
                crate::onebot::protocol::segment::text_val(&params.file),
            ));
            d.push(crate::onebot::protocol::segment::pair(
                "file_id",
                crate::onebot::protocol::segment::text_val(&params.file_id),
            ));
            proof {
                crate::onebot::protocol::json::lemma_json_field_views(d@);
                assert(crate::onebot::protocol::json::json_field_views(d@) =~= seq![
                    ("file"@, JsonVal::Text(params.file@)),
                    ("file_id"@, JsonVal::Text(params.file_id@)),
                ]);
            }
            req_wrap_params("get_file", echo, d)
        },
        Request::DeleteMsg { echo, params } => {
            let mut d: Vec<(String, JsonValue)> = Vec::new();
            d.push(crate::onebot::protocol::segment::pair(
                "message_id",
                crate::onebot::protocol::segment::text_val(&params.message_id),
            ));
            proof {
                crate::onebot::protocol::json::lemma_json_field_views(d@);
                assert(crate::onebot::protocol::json::json_field_views(d@) =~= seq![
                    ("message_id"@, JsonVal::Text(params.message_id@)),
                ]);
            }
            req_wrap_params("delete_msg", echo, d)
        },
        Request::SendMsg { echo, params } => {
            let message = crate::onebot::protocol::segment::encode_segments(&params.message);
            let ghost message_view = crate::onebot::protocol::json::json_views(message@);
            let mut d: Vec<(String, JsonValue)> = Vec::new();
            d.push(crate::onebot::protocol::segment::pair(
                "message_type",
                crate::onebot::protocol::segment::text_val(&params.message_type),
            ));
            d.push(crate::onebot::protocol::segment::pair(
                "user_id",
                crate::onebot::protocol::segment::opt_val(&params.user_id),
            ));
            d.push(crate::onebot::protocol::segment::pair(
                "group_id",
                crate::onebot::protocol::segment::opt_val(&params.group_id),
            ));
            d.push(crate::onebot::protocol::segment::pair(
                "message",
                JsonValue::Array(message),
            ));
            proof {
                crate::onebot::protocol::json::lemma_json_field_views(d@);
                assert(crate::onebot::protocol::json::json_field_views(d@) =~= seq![
                    ("message_type"@, JsonVal::Text(params.message_type@)),
                    ("user_id"@, crate::onebot::protocol::segment::enc_opt(
                        crate::onebot::protocol::segment::opt_text(params.user_id),
                    )),
                    ("group_id"@, crate::onebot::protocol::segment::enc_opt(
                        crate::onebot::protocol::segment::opt_text(params.group_id),
                    )),
                    ("message"@, JsonVal::Array(
                        crate::onebot::protocol::segment::spec_encode_segments(params.message@),
                    )),
                ]);
            }
            req_wrap_params("send_msg", echo, d)
        },
    }
}

} // verus!
