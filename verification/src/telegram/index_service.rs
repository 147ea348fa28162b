//! The message index's decision core: what goes into a document, when
//! the writer commits, what a query asks for, and how a hit is shown.

use vstd::prelude::*;

verus! {

use crate::text::{dec_int, i64_to_dec, i32_to_dec};
use vstd::string::StringExecFns;

/// Channel capacity around the writer.
pub const BUFFER_SIZE: usize = 1024;

/// Documents accumulated before a commit.
pub const COMMIT_RATE: usize = 100;

/// Seconds between forced commits.
pub const COMMIT_TIME_SECS: u64 = 30;

/// Longest snippet, in characters.
pub const SNIPPET_MAX_CHARS: usize = 50;

/// One document of the index.
#[derive(Debug)]
pub struct IndexDoc {
    pub chat_id: i64,
    pub message_id: i64,
    /// The topic the message sits under, `0` when none.
    pub reply_to: i64,
    pub timestamp: i64,
    pub content: String,
}

/// Builds the document for one delivered message.
pub fn make_index_doc(
    chat_id: i64,
    message_id: i32,
    topic_id: Option<i32>,
    timestamp: i64,
    content: String,
) -> (r: IndexDoc)
    ensures
        r.chat_id == chat_id,
        r.message_id == message_id as i64,
        r.reply_to == (match topic_id {
            Some(t) => t as i64,
            None => 0,
        }),
        r.timestamp == timestamp,
        r.content == content,
{
    IndexDoc {
        chat_id,
        message_id: message_id as i64,
        reply_to: (match topic_id {
            Some(t) => t as i64,
            None => 0,
        }),
        timestamp,
        content,
    }
}

/// The writer commits once a hundred documents accumulated or thirty
/// seconds passed since the last commit.
pub fn should_commit(added_docs: usize, elapsed_secs: u64) -> (r: bool)
    ensures
        r == (added_docs >= 100 || elapsed_secs >= 30),
{
    added_docs >= COMMIT_RATE || elapsed_secs >= COMMIT_TIME_SECS
}

/// The writer's batch counter after one more document and a possible
/// commit: a commit resets it.
pub fn next_batch_count(added_docs: usize, committed: bool) -> (r: usize)
    requires
        added_docs < usize::MAX,
    ensures
        committed ==> r == 0,
        !committed ==> r == added_docs + 1,
{
    if committed {
        0
    } else {
        added_docs + 1
    }
}

/// What one search asks of the index: conjunctive filters and a page
/// limit, ordered by message id descending.
#[derive(Debug)]
pub struct SearchRequest {
    pub chat_id: i64,
    /// Topic-scoped searches filter on the stored `reply_to`.
    pub reply_to: Option<i64>,
    /// Pagination cursor: only ids strictly below this one.
    pub before_id: Option<i64>,
    pub keyword: String,
    pub limit: u64,
}

/// Builds the query for one search page: the chat filter always, the
/// topic and cursor filters when given, the keyword as entered, and the
/// page-size limit.
pub fn make_search_request(
    chat_id: i64,
    reply_to: Option<i32>,
    keyword: String,
    last_id: Option<i32>,
    page_size: u64,
) -> (r: SearchRequest)
    ensures
        r.chat_id == chat_id,
        r.reply_to == (match reply_to {
            Some(t) => Some(t as i64),
            None => None::<i64>,
        }),
        r.before_id == (match last_id {
            Some(t) => Some(t as i64),
            None => None::<i64>,
        }),
        r.keyword == keyword,
        r.limit == page_size,
{
    SearchRequest {
        chat_id,
        reply_to: (match reply_to {
            Some(t) => Some(t as i64),
            None => None,
        }),
        before_id: (match last_id {
            Some(t) => Some(t as i64),
            None => None,
        }),
        keyword,
        limit: page_size,
    }
}

/// One rendered hit: the deep link, the timestamp line and the snippet
/// in a quote block.
pub open spec fn spec_result_line(
    chat_id: int,
    reply_to: Option<i32>,
    message_id: int,
    ts_text: Seq<char>,
    snippet: Seq<char>,
) -> Seq<char> {
    (match reply_to {
        Some(topic) => "https://t.me/c/"@ + dec_int(chat_id) + "/"@ + dec_int(topic as int) + "/"@
            + dec_int(message_id),
        None => "https://t.me/c/"@ + dec_int(chat_id) + "/"@ + dec_int(message_id),
    }) + "\n<blockquote>["@ + ts_text + "]\n"@ + snippet + "</blockquote>"@
}

pub fn search_result_line(
    chat_id: i64,
    reply_to: Option<i32>,
    message_id: i32,
    ts_text: &str,
    snippet: &str,
) -> (r: String)
    ensures
        r@ == spec_result_line(chat_id as int, reply_to, message_id as int, ts_text@, snippet@),
{
    let mut r = "https://t.me/c/".to_owned();
    let chat = i64_to_dec(chat_id);
    r.append(chat.as_str());
    r.append("/");
    match reply_to {
        Some(topic) => {
            let t = i32_to_dec(topic);
            r.append(t.as_str());
            r.append("/");
        },
        None => {
        },
    }
    let msg = i32_to_dec(message_id);
    r.append(msg.as_str());
    r.append("\n<blockquote>[");
    r.append(ts_text);
    r.append("]\n");
    r.append(snippet);
    r.append("</blockquote>");
    proof {
        assert(r@ =~= spec_result_line(
            chat_id as int,
            reply_to,
            message_id as int,
            ts_text@,
            snippet@,
        ));
    }
    r
}

} // verus!
