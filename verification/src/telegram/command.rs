//! The command surface: command routing with its chat-class gates,
//! single-use callback tokens, and the paginated archive, link and
//! search views.

use vstd::prelude::*;

verus! {

use crate::telegram::bridge::{Bridge, CommandCallback};
use crate::telegram::telegram_helper::TgChat;
use crate::text::{dec_digits, u64_to_dec, str_eq, spec_trim, trim};
use vstd::string::StrSliceExecFns;
use vstd::string::StringExecFns;

/// Results and remote chats shown per page.
pub const PAGE_SIZE: u64 = 10;

/// The no-op callback data carried by placeholder buttons.
pub const PLACE_HOLDER: &'static str = "porter";

// ---------- command routing ----------

#[derive(Debug, Clone, Copy, PartialEq, Eq, Structural)]
pub enum CommandKind {
    Help,
    Archive,
    Link,
    Search,
    Unknown,
}

pub fn route_command(command: &str) -> (r: CommandKind)
    ensures
        r == (if command@ == "/help"@ {
            CommandKind::Help
        } else if command@ == "/archive"@ {
            CommandKind::Archive
        } else if command@ == "/link"@ {
            CommandKind::Link
        } else if command@ == "/search"@ {
            CommandKind::Search
        } else {
            CommandKind::Unknown
        }),
{
    if str_eq(command, "/help") {
        CommandKind::Help
    } else if str_eq(command, "/archive") {
        CommandKind::Archive
    } else if str_eq(command, "/link") {
        CommandKind::Link
    } else if str_eq(command, "/search") {
        CommandKind::Search
    } else {
        CommandKind::Unknown
    }
}

/// Archiving needs a forum supergroup.
pub fn archive_allowed(chat: &TgChat) -> (r: bool)
    ensures
        r == (chat matches TgChat::Megagroup { forum: true }),
{
    match chat {
        TgChat::Megagroup { forum } => *forum,
        _ => false,
    }
}

/// Linking needs a regular group: a basic group or a megagroup without
/// topics.
pub fn link_allowed(chat: &TgChat) -> (r: bool)
    ensures
        r == (chat is BasicGroup || (chat matches TgChat::Megagroup { forum: false })),
{
    match chat {
        TgChat::BasicGroup => true,
        TgChat::Megagroup { forum } => !*forum,
        _ => false,
    }
}

/// Searching needs a megagroup.
pub fn search_allowed(chat: &TgChat) -> (r: bool)
    ensures
        r == (chat is Megagroup),
{
    match chat {
        TgChat::Megagroup { .. } => true,
        _ => false,
    }
}

/// The keyword after a command: everything past the prefix, trimmed.
pub fn command_keyword(text: &str, prefix_len: usize) -> (r: String)
    ensures
        prefix_len <= text@.len() ==> r@ == spec_trim(text@.skip(prefix_len as int)),
        prefix_len > text@.len() ==> r@ == Seq::<char>::empty(),
{
    let n = text.unicode_len();
    if prefix_len > n {
        return String::new();
    }
    let rest = text.substring_char(prefix_len, n);
    proof {
        assert(rest@ =~= text@.skip(prefix_len as int));
    }
    trim(rest)
}

// ---------- callback tokens ----------

/// One step of the rolling token hash, kept inside 64 bits.
pub open spec fn spec_hash_step(h: nat, c: nat) -> nat {
    (h * 31 + c) % 0x10000000000000000
}

pub open spec fn spec_hash_chars(h: nat, s: Seq<char>) -> nat
    decreases s.len(),
{
    if s.len() == 0 {
        h % 0x10000000000000000
    } else {
        spec_hash_chars(spec_hash_step(h, s[0] as nat), s.skip(1))
    }
}

/// The stable hash of a callback: its fields chained through the rolling
/// hash with a separator step between them, the page mixed in by value.
pub open spec fn spec_callback_hash(
    category: Seq<char>,
    action: Seq<char>,
    page: u64,
    keyword: Seq<char>,
    data: Seq<char>,
) -> nat {
    let h1 = spec_hash_chars(0, category);
    let h2 = spec_hash_step(h1, 31);
    let h3 = spec_hash_chars(h2, action);
    let h4 = spec_hash_step(h3, 31);
    let h5 = (h4 + page as nat) % 0x10000000000000000;
    let h6 = spec_hash_chars(h5, keyword);
    let h7 = spec_hash_step(h6, 31);
    let h8 = spec_hash_chars(h7, data);
    spec_hash_step(h8, 31)
}

fn hash_chars(h0: u64, s: &str) -> (r: u64)
    ensures
        r as nat == spec_hash_chars(h0 as nat, s@),
{
    let n = s.unicode_len();
    let mut h = h0;
    let mut i: usize = 0;
    proof {
        assert(s@.skip(0) =~= s@);
    }
    while i < n
        invariant
            0 <= i <= n,
            n == s@.len(),
            spec_hash_chars(h as nat, s@.skip(i as int)) == spec_hash_chars(h0 as nat, s@),
        decreases n - i,
    {
        let ghost tail = s@.skip(i as int);
        proof {
            assert(tail[0] == s@[i as int]);
            assert(tail.skip(1) =~= s@.skip(i as int + 1));
        }
        let c = s.get_char(i);
        let wide: u128 = (h as u128) * 31 + (c as u128);
        h = (wide % 0x10000000000000000u128) as u64;
        i = i + 1;
    }
    proof {
        assert(s@.skip(n as int) =~= Seq::<char>::empty());
    }
    h
}

fn hash_step(h: u64, c: u64) -> (r: u64)
    requires
        c <= u64::MAX - 31,
    ensures
        r as nat == spec_hash_step(h as nat, c as nat),
{
    let wide: u128 = (h as u128) * 31 + (c as u128);
    (wide % 0x10000000000000000u128) as u64
}

/// The token a callback is filed under: the decimal text of its stable
/// hash.
pub fn callback_token(cb: &CommandCallback) -> (r: String)
    ensures
        r@ == dec_digits(
            spec_callback_hash(cb.category@, cb.action@, cb.page, cb.keyword@, cb.data@),
        ),
{
    let h1 = hash_chars(0, cb.category.as_str());
    let h2 = hash_step(h1, 31);
    let h3 = hash_chars(h2, cb.action.as_str());
    let h4 = hash_step(h3, 31);
    let wide: u128 = (h4 as u128) + (cb.page as u128);
    let h5 = (wide % 0x10000000000000000u128) as u64;
    let h6 = hash_chars(h5, cb.keyword.as_str());
    let h7 = hash_step(h6, 31);
    let h8 = hash_chars(h7, cb.data.as_str());
    let h9 = hash_step(h8, 31);
    u64_to_dec(h9)
}

/// Files a callback and hands back its token; the token resolves the
/// callback exactly once.
pub fn put_callback(bridge: &mut Bridge, callback: &CommandCallback) -> (r: String)
    requires
        old(bridge).wf(),
    ensures
        final(bridge).wf(),
        r@ == dec_digits(
            spec_callback_hash(
                callback.category@,
                callback.action@,
                callback.page,
                callback.keyword@,
                callback.data@,
            ),
        ),
        crate::telegram::bridge::spec_callback_lookup(
            final(bridge).spec_callbacks(),
            r@,
        ) matches Some(stored) && stored.category@ == callback.category@ && stored.action@ == callback.action@
            && stored.page == callback.page && stored.keyword@ == callback.keyword@
            && stored.data@ == callback.data@,
        forall|t: Seq<char>|
            t != r@ ==> crate::telegram::bridge::spec_callback_lookup(
                final(bridge).spec_callbacks(),
                t,
            ) == crate::telegram::bridge::spec_callback_lookup(old(bridge).spec_callbacks(), t),
        final(bridge).spec_admin_id() == old(bridge).spec_admin_id(),
        final(bridge).spec_remote_chats() == old(bridge).spec_remote_chats(),
        final(bridge).spec_archives() == old(bridge).spec_archives(),
        final(bridge).spec_topics() == old(bridge).spec_topics(),
        final(bridge).spec_links() == old(bridge).spec_links(),
        final(bridge).spec_messages() == old(bridge).spec_messages(),
        final(bridge).spec_next_id() == old(bridge).spec_next_id(),
{
    let token = callback_token(callback);
    let stored = callback.duplicate();
    bridge.put_callback_token(token.clone(), stored);
    token
}

/// An inline button: its label and the token its press sends back.
#[derive(Debug)]
pub struct InlineButton {
    pub text: String,
    pub token: String,
}

// ---------- the search view ----------

/// What `/search` does with a keyword: an empty keyword draws an
/// advisory, anything else runs the query.
#[derive(Debug, Clone, Copy, PartialEq, Eq, Structural)]
pub enum SearchAction {
    Advise,
    Run,
}

pub fn plan_search(keyword: &String) -> (r: SearchAction)
    ensures
        r == (if keyword@.len() == 0 {
            SearchAction::Advise
        } else {
            SearchAction::Run
        }),
{
    if keyword.as_str().is_empty() {
        SearchAction::Advise
    } else {
        SearchAction::Run
    }
}

/// The advisory shown for an empty search keyword.
pub fn search_advisory_text() -> (r: String)
    ensures
        r@ == "<b>Please input a keyword</b>"@,
{
    "<b>Please input a keyword</b>".to_owned()
}

/// The body shown when a page has no results.
pub fn search_empty_text() -> (r: String)
    ensures
        r@ == "<blockquote>Have reached the edge of the world.</blockquote>"@,
{
    "<blockquote>Have reached the edge of the world.</blockquote>".to_owned()
}

/// A rendered search page: the body, the cancel button, and a next
/// button exactly when the page came back full.
#[derive(Debug)]
pub struct SearchView {
    pub content: String,
    pub cancel: InlineButton,
    pub next: Option<InlineButton>,
}

/// Builds the search page. The body is the rendered lines joined, or
/// the edge-of-the-world text when there are none; the `Next` button
/// exists exactly when the page holds a full `PAGE_SIZE` of results, and
/// carries the last result's message id for the cursor.
pub fn build_search_view(
    bridge: &mut Bridge,
    page: u64,
    keyword: &String,
    lines: &Vec<String>,
    last_message_id: i32,
) -> (r: SearchView)
    requires
        old(bridge).wf(),
    ensures
        final(bridge).wf(),
        final(bridge).spec_remote_chats() == old(bridge).spec_remote_chats(),
        final(bridge).spec_links() == old(bridge).spec_links(),
        final(bridge).spec_archives() == old(bridge).spec_archives(),
        r.next is Some <==> lines@.len() == 10,
        r.content@ == (if spec_concat_lines(Seq::new(lines@.len(), |i: int| lines@[i]@)).len()
            == 0 {
            "<blockquote>Have reached the edge of the world.</blockquote>"@
        } else {
            spec_concat_lines(Seq::new(lines@.len(), |i: int| lines@[i]@))
        }),
        match r.next {
            Some(b) => b.text@ == "Next >"@ && b.token@ == dec_digits(
                spec_callback_hash(
                    "search"@,
                    "list"@,
                    page,
                    keyword@,
                    crate::text::dec_int(last_message_id as int),
                ),
            ),
            None => true,
        },
        r.cancel.text@ == "Cancel"@,
{
    let mut content = String::new();
    let n = lines.len();
    let mut i: usize = 0;
    proof {
        assert(Seq::new(lines@.len(), |k: int| lines@[k]@).take(0) =~= Seq::<Seq<char>>::empty());
    }
    while i < n
        invariant
            0 <= i <= n,
            n == lines@.len(),
            bridge == old(bridge),
            content@ == spec_concat_lines(Seq::new(lines@.len(), |k: int| lines@[k]@).take(i as int)),
        decreases n - i,
    {
        content.append(lines[i].as_str());
        proof {
            let all = Seq::new(lines@.len(), |k: int| lines@[k]@);
            assert(all.take(i as int + 1).drop_last() =~= all.take(i as int));
            assert(all.take(i as int + 1).last() == lines@[i as int]@);
        }
        i = i + 1;
    }
    proof {
        assert(Seq::new(lines@.len(), |k: int| lines@[k]@).take(n as int) =~= Seq::new(
            lines@.len(),
            |k: int| lines@[k]@,
        ));
    }
    if content.as_str().is_empty() {
        content = search_empty_text();
    }
    let cancel_cb = CommandCallback::new("search", "cancel", page, keyword.clone(), String::new());
    let cancel_token = put_callback(bridge, &cancel_cb);
    let cancel = InlineButton { text: "Cancel".to_owned(), token: cancel_token };
    let next = if lines.len() == 10 {
        let next_cb = CommandCallback::new(
            "search",
            "list",
            page,
            keyword.clone(),
            crate::text::i32_to_dec(last_message_id),
        );
        let next_token = put_callback(bridge, &next_cb);
        Some(InlineButton { text: "Next >".to_owned(), token: next_token })
    } else {
        None
    };
    SearchView { content, cancel, next }
}

/// The rendered lines, joined in order.
pub open spec fn spec_concat_lines(lines: Seq<Seq<char>>) -> Seq<char>
    decreases lines.len(),
{
    if lines.len() == 0 {
        Seq::empty()
    } else {
        spec_concat_lines(lines.drop_last()) + lines.last()
    }
}

// ---------- link pagination ----------

/// The bottom row of the link list: a page-back button when there are
/// earlier pages, the page indicator with cancel, and a page-forward
/// button when there are later pages; missing directions become
/// placeholder buttons with no-op data.
#[derive(Debug)]
pub struct LinkPageRow {
    pub prev: Option<InlineButton>,
    pub indicator: InlineButton,
    pub next: Option<InlineButton>,
}

#[verifier::rlimit(50)]
pub fn build_link_page_row(
    bridge: &mut Bridge,
    page: u64,
    total_pages: u64,
    keyword: &String,
    data: &String,
) -> (r: LinkPageRow)
    requires
        old(bridge).wf(),
        page < u64::MAX,
        total_pages > 0,
    ensures
        final(bridge).wf(),
        final(bridge).spec_remote_chats() == old(bridge).spec_remote_chats(),
        final(bridge).spec_links() == old(bridge).spec_links(),
        final(bridge).spec_archives() == old(bridge).spec_archives(),
        r.prev is Some <==> page > 0,
        r.next is Some <==> page < total_pages - 1,
        match r.prev {
            Some(b) => b.text@ == "< Prev"@ && b.token@ == dec_digits(
                spec_callback_hash("link"@, "list"@, (page - 1) as u64, keyword@, data@),
            ),
            None => true,
        },
        match r.next {
            Some(b) => b.text@ == "Next >"@ && b.token@ == dec_digits(
                spec_callback_hash("link"@, "list"@, (page + 1) as u64, keyword@, data@),
            ),
            None => true,
        },
        r.indicator.text@ == dec_digits((page + 1) as nat) + "/"@ + dec_digits(
            total_pages as nat,
        ) + " | Cancel"@,
        r.indicator.token@ == dec_digits(
            spec_callback_hash("link"@, "cancel"@, page, keyword@, Seq::<char>::empty()),
        ),
{
    let prev = if page > 0 {
        let cb = CommandCallback::new("link", "list", page - 1, keyword.clone(), data.clone());
        let token = put_callback(bridge, &cb);
        Some(InlineButton { text: "< Prev".to_owned(), token })
    } else {
        None
    };
    let indicator_cb = CommandCallback::new(
        "link",
        "cancel",
        page,
        keyword.clone(),
        String::new(),
    );
    let mut indicator_text = u64_to_dec(page + 1);
    indicator_text.append("/");
    let total_text = u64_to_dec(total_pages);
    indicator_text.append(total_text.as_str());
    indicator_text.append(" | Cancel");
    proof {
        assert(indicator_text@ =~= dec_digits((page + 1) as nat) + "/"@ + dec_digits(
            total_pages as nat,
        ) + " | Cancel"@);
    }
    let indicator_token = put_callback(bridge, &indicator_cb);
    let indicator = InlineButton { text: indicator_text, token: indicator_token };
    let next = if page < total_pages - 1 {
        let cb = CommandCallback::new("link", "list", page + 1, keyword.clone(), data.clone());
        let token = put_callback(bridge, &cb);
        Some(InlineButton { text: "Next >".to_owned(), token })
    } else {
        None
    };
    LinkPageRow { prev, indicator, next }
}

/// How many pages a result count fills, at 10 per page.
pub fn page_count(total_items: u64) -> (r: u64)
    ensures
        total_items == 0 ==> r == 0,
        total_items > 0 ==> r == (total_items + 9) / 10,
{
    if total_items == 0 {
        0
    } else {
        (total_items - 1) / 10 + 1
    }
}


// ---------- advisory texts ----------

/// The reply to an unknown command.
pub fn command_not_supported_text() -> (r: String)
    ensures
        r@ == "<b>Command not supported</b>"@,
{
    "<b>Command not supported</b>".to_owned()
}

/// The `/help` body.
pub fn help_text() -> (r: String)
    ensures
        r@ == "help - Show command list.\nlink - Manage remote chat link.\narchive - Archive remote chat.\nsearch - search messages."@,
{
    "help - Show command list.\nlink - Manage remote chat link.\narchive - Archive remote chat.\nsearch - search messages.".to_owned()
}

/// The advisory shown when `/archive` runs outside a forum supergroup.
pub fn archive_advisory_text() -> (r: String)
    ensures
        r@ == "<b>Currently, archive is only supported in forum groups</b>"@,
{
    "<b>Currently, archive is only supported in forum groups</b>".to_owned()
}

/// The advisory shown when `/link` runs outside a regular group.
pub fn link_advisory_text() -> (r: String)
    ensures
        r@ == "<b>Currently, link creation is only supported in regular groups</b>"@,
{
    "<b>Currently, link creation is only supported in regular groups</b>".to_owned()
}

/// The advisory shown when `/search` runs outside a megagroup.
pub fn search_scope_advisory_text() -> (r: String)
    ensures
        r@ == "<b>Currently, search is only supported in mega groups</b>"@,
{
    "<b>Currently, search is only supported in mega groups</b>".to_owned()
}

/// The body shown when the link listing matches no remote chat. The
/// wording, typo included, is the one users already know.
pub fn no_remote_chats_text() -> (r: String)
    ensures
        r@ == "<b>There are no remote chats avaiable</b>"@,
{
    "<b>There are no remote chats avaiable</b>".to_owned()
}

// ---------- the link listing ----------

/// The label of one listed remote chat: the link marker when a link
/// binds it, the chat-kind marker, then name, target and endpoint.
pub open spec fn spec_link_row_label(b: Bridge, row: crate::telegram::entities::remote_chat::Model) -> Seq<char> {
    (if exists|l: int|
        0 <= l < b.spec_links().len() && (#[trigger] b.spec_links()[l]).remote_chat_id == row.id {
        "🔗"@
    } else {
        Seq::<char>::empty()
    }) + (match row.chat_type {
        crate::common::ChatType::Private => "👤"@,
        crate::common::ChatType::Group => "👥"@,
    }) + row.name@ + "("@ + row.target_id@ + ") from ("@ + row.endpoint.spec_text() + ")"@
}

/// One page of the `/link` listing.
#[derive(Debug)]
pub struct LinkListPage {
    pub header: String,
    pub rows: Vec<InlineButton>,
    pub nav: LinkPageRow,
}

/// What `/link` renders: the advisory when nothing matches, else one
/// page of rows with its navigation.
#[derive(Debug)]
pub enum LinkListView {
    Empty { text: String },
    Page(LinkListPage),
}

/// The first row index of a page: ten per page, clamped to the end.
pub open spec fn spec_page_start(page: u64, total: int) -> int {
    if page * 10 <= total {
        page * 10
    } else {
        total
    }
}

/// Builds one `/link` page over the filtered remote chats: kept rows in
/// ascending id order, ten per page, each labelled and bound to its
/// create-or-delete callback; the advisory when nothing matches.
/// The header of the link listing: when some link of this Telegram chat
/// has a known remote chat, the header names it; otherwise it is bare.
pub open spec fn spec_link_header_ok(b: Bridge, tg_chat_id: i64, text: Seq<char>) -> bool {
    if exists|l: int, c: int|
        0 <= l < b.spec_links().len() && 0 <= c < b.spec_remote_chats().len() && (
        #[trigger] b.spec_links()[l]).tg_chat_id == tg_chat_id && (
        #[trigger] b.spec_remote_chats()[c]).id == b.spec_links()[l].remote_chat_id {
        exists|l: int, c: int|
            {
                &&& 0 <= l < b.spec_links().len()
                &&& 0 <= c < b.spec_remote_chats().len()
                &&& (#[trigger] b.spec_links()[l]).tg_chat_id == tg_chat_id
                &&& (#[trigger] b.spec_remote_chats()[c]).id == b.spec_links()[l].remote_chat_id
                &&& text == "Link: 🔗"@ + b.spec_remote_chats()[c].name@ + "("@
                    + b.spec_remote_chats()[c].target_id@ + ") from ("@
                    + b.spec_remote_chats()[c].endpoint.spec_text() + ")"@
            }
    } else {
        text == "Link:"@
    }
}

fn build_link_header(bridge: &Bridge, tg_chat_id: i64) -> (r: String)
    requires
        bridge.wf(),
    ensures
        spec_link_header_ok(*bridge, tg_chat_id, r@),
{
    match bridge.find_link_by_tg(tg_chat_id) {
        Some(link) => {
            let found = *link;
            let remote_id = found.remote_chat_id;
            match bridge.find_remote_chat_by_id(remote_id) {
                Some(chat) => {
                    let mut h = "Link: 🔗".to_owned();
                    h.append(chat.name.as_str());
                    h.append("(");
                    h.append(chat.target_id.as_str());
                    h.append(") from (");
                    let ep = chat.endpoint.to_text();
                    h.append(ep.as_str());
                    h.append(")");
                    proof {
                        assert(h@ =~= "Link: 🔗"@ + chat.name@ + "("@ + chat.target_id@
                            + ") from ("@ + chat.endpoint.spec_text() + ")"@);
                    }
                    h
                },
                None => {
                    proof {
                        // The one link of this chat points at a missing
                        // row, so no joined pair exists at all.
                        if exists|l: int, c: int|
                            0 <= l < bridge.spec_links().len() && 0 <= c
                                < bridge.spec_remote_chats().len() && (
                            #[trigger] bridge.spec_links()[l]).tg_chat_id == tg_chat_id && (
                            #[trigger] bridge.spec_remote_chats()[c]).id
                                == bridge.spec_links()[l].remote_chat_id {
                            let (l, c) = choose|l: int, c: int|
                                0 <= l < bridge.spec_links().len() && 0 <= c
                                    < bridge.spec_remote_chats().len() && (
                                #[trigger] bridge.spec_links()[l]).tg_chat_id == tg_chat_id && (
                                #[trigger] bridge.spec_remote_chats()[c]).id
                                    == bridge.spec_links()[l].remote_chat_id;
                            let i0 = choose|i: int|
                                0 <= i < bridge.spec_links().len() && bridge.spec_links()[i]
                                    == found && (#[trigger] bridge.spec_links()[i]).tg_chat_id
                                    == tg_chat_id;
                            if l != i0 {
                                assert(bridge.spec_links()[l].tg_chat_id
                                    != bridge.spec_links()[i0].tg_chat_id);
                            }
                            assert(bridge.spec_remote_chats()[c].id != remote_id);
                            assert(false);
                        }
                    }
                    "Link:".to_owned()
                },
            }
        },
        None => {
            proof {
                if exists|l: int, c: int|
                    0 <= l < bridge.spec_links().len() && 0 <= c
                        < bridge.spec_remote_chats().len() && (
                    #[trigger] bridge.spec_links()[l]).tg_chat_id == tg_chat_id && (
                    #[trigger] bridge.spec_remote_chats()[c]).id
                        == bridge.spec_links()[l].remote_chat_id {
                    let (l, c) = choose|l: int, c: int|
                        0 <= l < bridge.spec_links().len() && 0 <= c
                            < bridge.spec_remote_chats().len() && (
                        #[trigger] bridge.spec_links()[l]).tg_chat_id == tg_chat_id && (
                        #[trigger] bridge.spec_remote_chats()[c]).id
                            == bridge.spec_links()[l].remote_chat_id;
                    assert(bridge.spec_links()[l].tg_chat_id != tg_chat_id);
                    assert(false);
                }
            }
            "Link:".to_owned()
        },
    }
}

/// The delete-or-create callback token of one listed remote chat.
pub open spec fn spec_link_row_token(
    b: Bridge,
    page: u64,
    keyword: Seq<char>,
    row: crate::telegram::entities::remote_chat::Model,
    token: Seq<char>,
) -> bool {
    ||| (exists|l: int|
        0 <= l < b.spec_links().len() && (#[trigger] b.spec_links()[l]).remote_chat_id == row.id
            && token == dec_digits(
            spec_callback_hash(
                "link"@,
                "delete"@,
                page,
                keyword,
                crate::text::dec_int(b.spec_links()[l].id as int),
            ),
        ))
    ||| ((forall|l: int|
        0 <= l < b.spec_links().len() ==> (#[trigger] b.spec_links()[l]).remote_chat_id
            != row.id) && token == dec_digits(
        spec_callback_hash(
            "link"@,
            "create"@,
            page,
            keyword,
            crate::text::dec_int(row.id as int),
        ),
    ))
}

/// The labelled, token-bound rows of one listing page.
#[verifier::rlimit(100)]
fn build_link_rows(
    bridge: &mut Bridge,
    page: u64,
    keyword: &String,
    filtered: &Vec<crate::telegram::entities::remote_chat::Model>,
    start: usize,
    end: usize,
) -> (r: Vec<InlineButton>)
    requires
        old(bridge).wf(),
        start <= end <= filtered@.len(),
    ensures
        final(bridge).wf(),
        final(bridge).spec_remote_chats() == old(bridge).spec_remote_chats(),
        final(bridge).spec_links() == old(bridge).spec_links(),
        final(bridge).spec_archives() == old(bridge).spec_archives(),
        r@.len() == end - start,
        forall|i: int|
            0 <= i < r@.len() ==> (#[trigger] r@[i]).text@ == spec_link_row_label(
                *old(bridge),
                filtered@[start + i],
            ),
        forall|i: int|
            0 <= i < r@.len() ==> spec_link_row_token(
                *old(bridge),
                page,
                keyword@,
                filtered@[start + i],
                (#[trigger] r@[i]).token@,
            ),
{
    let mut rows: Vec<InlineButton> = Vec::new();
    let mut idx: usize = start;
    while idx < end
        invariant
            start <= idx <= end <= filtered@.len(),
            bridge.wf(),
            bridge.spec_links() == old(bridge).spec_links(),
            bridge.spec_remote_chats() == old(bridge).spec_remote_chats(),
            bridge.spec_archives() == old(bridge).spec_archives(),
            rows@.len() == idx - start,
            forall|i: int|
                0 <= i < rows@.len() ==> (#[trigger] rows@[i]).text@ == spec_link_row_label(
                    *old(bridge),
                    filtered@[start + i],
                ),
            forall|i: int|
                0 <= i < rows@.len() ==> spec_link_row_token(
                    *old(bridge),
                    page,
                    keyword@,
                    filtered@[start + i],
                    (#[trigger] rows@[i]).token@,
                ),
        decreases end - idx,
    {
        let row = &filtered[idx];
        let row_id = row.id;
        let linked = match bridge.find_link_by_remote(row_id) {
            Some(link) => Some(*link),
            None => None,
        };
        let mut label = match linked {
            Some(_) => "🔗".to_owned(),
            None => String::new(),
        };
        match row.chat_type {
            crate::common::ChatType::Private => label.append("👤"),
            crate::common::ChatType::Group => label.append("👥"),
        }
        label.append(row.name.as_str());
        label.append("(");
        label.append(row.target_id.as_str());
        label.append(") from (");
        let ep = row.endpoint.to_text();
        label.append(ep.as_str());
        label.append(")");
        proof {
            assert(label@ =~= spec_link_row_label(*old(bridge), filtered@[idx as int]));
        }
        let cb = match linked {
            Some(link) => CommandCallback::new(
                "link",
                "delete",
                page,
                keyword.clone(),
                crate::text::i64_to_dec(link.id),
            ),
            None => CommandCallback::new(
                "link",
                "create",
                page,
                keyword.clone(),
                crate::text::i64_to_dec(row_id),
            ),
        };
        let token = put_callback(bridge, &cb);
        proof {
            assert(spec_link_row_token(
                *old(bridge),
                page,
                keyword@,
                filtered@[idx as int],
                token@,
            ));
        }
        rows.push(InlineButton { text: label, token });
        idx = idx + 1;
    }
    rows
}

/// What the rows of one rendered page must hold: exactly the filtered
/// rows of the page slice, each with its label and its callback token.
pub open spec fn spec_link_rows_ok(
    b: Bridge,
    page: u64,
    keyword: Seq<char>,
    rows: Seq<InlineButton>,
) -> bool {
    let filtered = crate::telegram::bridge::spec_link_filter(b.spec_remote_chats(), keyword);
    let total = filtered.len() as int;
    let start = spec_page_start(page, total);
    &&& rows.len() == (if total - start <= 10 {
        total - start
    } else {
        10
    })
    &&& (forall|i: int|
        0 <= i < rows.len() ==> (#[trigger] rows[i]).text@ == spec_link_row_label(
            b,
            filtered[start + i],
        ))
    &&& (forall|i: int|
        0 <= i < rows.len() ==> spec_link_row_token(
            b,
            page,
            keyword,
            filtered[start + i],
            (#[trigger] rows[i]).token@,
        ))
}

/// Builds one `/link` page over the filtered remote chats: kept rows in
/// ascending id order, ten per page, each labelled and bound to its
/// create-or-delete callback; the advisory when nothing matches.
pub fn build_link_list(
    bridge: &mut Bridge,
    tg_chat_id: i64,
    page: u64,
    keyword: &String,
    nav_data: &String,
) -> (r: LinkListView)
    requires
        old(bridge).wf(),
        page < u64::MAX,
    ensures
        final(bridge).wf(),
        final(bridge).spec_remote_chats() == old(bridge).spec_remote_chats(),
        final(bridge).spec_links() == old(bridge).spec_links(),
        r is Empty <==> crate::telegram::bridge::spec_link_filter(
            old(bridge).spec_remote_chats(),
            keyword@,
        ).len() == 0,
        r matches LinkListView::Empty { text } ==> text@
            == "<b>There are no remote chats avaiable</b>"@,
        r matches LinkListView::Page(view) ==> spec_link_header_ok(
            *old(bridge),
            tg_chat_id,
            view.header@,
        ),
        r matches LinkListView::Page(view) ==> spec_link_rows_ok(
            *old(bridge),
            page,
            keyword@,
            view.rows@,
        ),
        r matches LinkListView::Page(view) ==> (view.nav.prev is Some <==> page > 0),
{
    let filtered = bridge.filter_remote_chats(keyword);
    let total = filtered.len();
    if total == 0 {
        return LinkListView::Empty { text: no_remote_chats_text() };
    }
    let header = build_link_header(bridge, tg_chat_id);

    let start128: u128 = (page as u128) * 10;
    let start: usize = if start128 >= total as u128 {
        total
    } else {
        start128 as usize
    };
    let end: usize = if total - start <= 10 {
        total
    } else {
        start + 10
    };
    proof {
        assert(start as int == spec_page_start(
            page,
            crate::telegram::bridge::spec_link_filter(
                old(bridge).spec_remote_chats(),
                keyword@,
            ).len() as int,
        ));
    }
    let rows = build_link_rows(bridge, page, keyword, &filtered, start, end);

    let total_pages = page_count(total as u64);
    let nav = build_link_page_row(bridge, page, total_pages, keyword, nav_data);
    LinkListView::Page(LinkListPage { header, rows, nav })
}

// ---------- the archive listing ----------

/// The label of one listed endpoint: the archive marker when an archive
/// binds it, then the endpoint's text.
pub open spec fn spec_archive_row_label(b: Bridge, endpoint: crate::common::Endpoint) -> Seq<
    char,
> {
    (if exists|a: int|
        0 <= a < b.spec_archives().len() && (#[trigger] b.spec_archives()[a]).endpoint.spec_same(
            endpoint,
        ) {
        "🗃"@
    } else {
        Seq::<char>::empty()
    }) + endpoint.spec_text()
}

/// The `/archive` listing: the archived-endpoints header for this chat,
/// one row per known endpoint, and the cancel button.
pub struct ArchiveListView {
    pub content: String,
    pub rows: Vec<InlineButton>,
    pub cancel: InlineButton,
}

/// Builds the `/archive` listing: every endpoint the store has seen,
/// once each in first-appearance order, marked when an archive already
/// binds it and wired to its create-or-delete callback.
pub fn build_archive_list(bridge: &mut Bridge, tg_chat_id: i64) -> (r: ArchiveListView)
    requires
        old(bridge).wf(),
    ensures
        final(bridge).wf(),
        final(bridge).spec_remote_chats() == old(bridge).spec_remote_chats(),
        final(bridge).spec_archives() == old(bridge).spec_archives(),
        r.content@ == "Archive: "@ + crate::telegram::bridge::spec_archive_header(
            old(bridge).spec_archives(),
            tg_chat_id,
        ),
        ({
            let endpoints = crate::telegram::bridge::spec_distinct_endpoints(
                old(bridge).spec_remote_chats(),
            );
            &&& r.rows@.len() == endpoints.len()
            &&& (forall|i: int|
                0 <= i < r.rows@.len() ==> (#[trigger] r.rows@[i]).text@
                    == spec_archive_row_label(*old(bridge), endpoints[i]))
            &&& (forall|i: int|
                0 <= i < r.rows@.len() ==> ((exists|a: int|
                    0 <= a < old(bridge).spec_archives().len() && (#[trigger] old(
                        bridge,
                    ).spec_archives()[a]).endpoint.spec_same(endpoints[i]) && (
                    #[trigger] r.rows@[i]).token@ == dec_digits(
                        spec_callback_hash(
                            "archive"@,
                            "delete"@,
                            0,
                            Seq::<char>::empty(),
                            crate::text::dec_int(old(bridge).spec_archives()[a].id as int),
                        ),
                    )) || ((forall|a: int|
                    0 <= a < old(bridge).spec_archives().len() ==> !(#[trigger] old(
                        bridge,
                    ).spec_archives()[a]).endpoint.spec_same(endpoints[i])) && (
                #[trigger] r.rows@[i]).token@ == dec_digits(
                    spec_callback_hash(
                        "archive"@,
                        "create"@,
                        0,
                        Seq::<char>::empty(),
                        endpoints[i].spec_text(),
                    ),
                ))))
        }),
        r.cancel.text@ == "cancel"@,
        r.cancel.token@ == dec_digits(
            spec_callback_hash(
                "archive"@,
                "cancel"@,
                0,
                Seq::<char>::empty(),
                Seq::<char>::empty(),
            ),
        ),
{
    let mut content = "Archive: ".to_owned();
    let suffix = bridge.archived_endpoints_text(tg_chat_id);
    content.append(suffix.as_str());
    proof {
        assert(content@ =~= "Archive: "@ + crate::telegram::bridge::spec_archive_header(
            old(bridge).spec_archives(),
            tg_chat_id,
        ));
    }

    let endpoints = bridge.distinct_endpoints();
    let ghost endpoints_view = crate::telegram::bridge::spec_distinct_endpoints(
        old(bridge).spec_remote_chats(),
    );
    let n = endpoints.len();
    let mut rows: Vec<InlineButton> = Vec::new();
    let mut i: usize = 0;
    while i < n
        invariant
            0 <= i <= n,
            n == endpoints@.len(),
            endpoints@ == endpoints_view,
            bridge.wf(),
            bridge.spec_archives() == old(bridge).spec_archives(),
            bridge.spec_remote_chats() == old(bridge).spec_remote_chats(),
            rows@.len() == i,
            forall|k: int|
                0 <= k < i ==> (#[trigger] rows@[k]).text@ == spec_archive_row_label(
                    *old(bridge),
                    endpoints_view[k],
                ),
            forall|k: int|
                0 <= k < i ==> ((exists|a: int|
                    0 <= a < old(bridge).spec_archives().len() && (#[trigger] old(
                        bridge,
                    ).spec_archives()[a]).endpoint.spec_same(endpoints_view[k]) && (
                    #[trigger] rows@[k]).token@ == dec_digits(
                        spec_callback_hash(
                            "archive"@,
                            "delete"@,
                            0,
                            Seq::<char>::empty(),
                            crate::text::dec_int(old(bridge).spec_archives()[a].id as int),
                        ),
                    )) || ((forall|a: int|
                    0 <= a < old(bridge).spec_archives().len() ==> !(#[trigger] old(
                        bridge,
                    ).spec_archives()[a]).endpoint.spec_same(endpoints_view[k])) && (
                #[trigger] rows@[k]).token@ == dec_digits(
                    spec_callback_hash(
                        "archive"@,
                        "create"@,
                        0,
                        Seq::<char>::empty(),
                        endpoints_view[k].spec_text(),
                    ),
                ))),
        decreases n - i,
    {
        let endpoint = &endpoints[i];
        let archived = match bridge.find_archive_by_endpoint(endpoint) {
            Some(archive) => Some(archive.id),
            None => None,
        };
        let mut label = match archived {
            Some(_) => "🗃".to_owned(),
            None => String::new(),
        };
        let ep_text = endpoint.to_text();
        label.append(ep_text.as_str());
        proof {
            assert(label@ =~= spec_archive_row_label(*old(bridge), endpoints_view[i as int]));
        }
        let cb = match archived {
            Some(archive_id) => CommandCallback::new(
                "archive",
                "delete",
                0,
                String::new(),
                crate::text::i64_to_dec(archive_id),
            ),
            None => CommandCallback::new(
                "archive",
                "create",
                0,
                String::new(),
                endpoint.to_text(),
            ),
        };
        let token = put_callback(bridge, &cb);
        rows.push(InlineButton { text: label, token });
        i = i + 1;
    }

    let cancel_cb = CommandCallback::new("archive", "cancel", 0, String::new(), String::new());
    let cancel_token = put_callback(bridge, &cancel_cb);
    let cancel = InlineButton { text: "cancel".to_owned(), token: cancel_token };
    ArchiveListView { content, rows, cancel }
}

} // verus!
