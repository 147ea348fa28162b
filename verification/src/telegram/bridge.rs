//! The relay bridge: the mapping fabric (remote chats, archives, topics,
//! links, message correspondences) with its uniqueness invariants, and
//! the single-use callback-token store.
//!
//! Every operation mirrors one database access of the relay; the
//! surrounding loops only move bytes and perform I/O.

use vstd::prelude::*;

verus! {

use crate::common::{ChatType, DeliveryStatus, Endpoint};
use crate::telegram::entities::{archive, link, message, remote_chat, topic};
use crate::text::str_eq;
use vstd::string::StringExecFns;
use vstd::string::StrSliceExecFns;

// ---------- well-formedness of each table ----------

pub open spec fn remote_chats_wf(rows: Seq<remote_chat::Model>, next_id: int) -> bool {
    (forall|i: int| 0 <= i < rows.len() ==> (#[trigger] rows[i]).id < next_id)
    && (forall|i: int, j: int|
        0 <= i < j < rows.len() ==> (#[trigger] rows[i]).id < (#[trigger] rows[j]).id)
    && (forall|i: int, j: int|
        0 <= i < j < rows.len() ==> !(#[trigger] rows[i]).spec_key_is(
            (#[trigger] rows[j]).endpoint,
            rows[j].chat_type,
            rows[j].target_id@,
        ))
}

pub open spec fn archives_wf(rows: Seq<archive::Model>, next_id: int) -> bool {
    (forall|i: int| 0 <= i < rows.len() ==> (#[trigger] rows[i]).id < next_id)
    && (forall|i: int, j: int|
        0 <= i < j < rows.len() ==> (#[trigger] rows[i]).id != (#[trigger] rows[j]).id)
    && (forall|i: int, j: int|
        0 <= i < j < rows.len() ==> !(#[trigger] rows[i]).endpoint.spec_same(
            (#[trigger] rows[j]).endpoint,
        ))
}

pub open spec fn topics_wf(rows: Seq<topic::Model>, next_id: int) -> bool {
    (forall|i: int| 0 <= i < rows.len() ==> (#[trigger] rows[i]).id < next_id)
    && (forall|i: int, j: int|
        0 <= i < j < rows.len() ==> (#[trigger] rows[i]).id != (#[trigger] rows[j]).id)
    && (forall|i: int, j: int|
        0 <= i < j < rows.len() ==> (#[trigger] rows[i]).remote_chat_id != (
        #[trigger] rows[j]).remote_chat_id)
}

pub open spec fn links_wf(rows: Seq<link::Model>, next_id: int) -> bool {
    (forall|i: int| 0 <= i < rows.len() ==> (#[trigger] rows[i]).id < next_id)
    && (forall|i: int, j: int|
        0 <= i < j < rows.len() ==> (#[trigger] rows[i]).id != (#[trigger] rows[j]).id)
    && (forall|i: int, j: int|
        0 <= i < j < rows.len() ==> (#[trigger] rows[i]).tg_chat_id != (
        #[trigger] rows[j]).tg_chat_id)
    && (forall|i: int, j: int|
        0 <= i < j < rows.len() ==> (#[trigger] rows[i]).remote_chat_id != (
        #[trigger] rows[j]).remote_chat_id)
}

pub open spec fn messages_wf(rows: Seq<message::Model>, next_id: int) -> bool {
    (forall|i: int| 0 <= i < rows.len() ==> (#[trigger] rows[i]).id < next_id)
    && (forall|i: int, j: int|
        0 <= i < j < rows.len() ==> (#[trigger] rows[i]).id != (#[trigger] rows[j]).id)
    && (forall|i: int, j: int|
        0 <= i < j < rows.len() ==> !((#[trigger] rows[i]).tg_chat_id == (
        #[trigger] rows[j]).tg_chat_id && rows[i].tg_msg_id == rows[j].tg_msg_id))
    && (forall|i: int, j: int|
        0 <= i < j < rows.len() ==> !((#[trigger] rows[i]).remote_chat_id == (
        #[trigger] rows[j]).remote_chat_id && rows[i].remote_msg_id@ == rows[j].remote_msg_id@
            && rows[i].tg_chat_id == rows[j].tg_chat_id && rows[i].tg_msg_id
            == rows[j].tg_msg_id))
}

/// What an upload to Telegram produced. The uploaded file itself stays
/// with the client loop, addressed by an opaque handle.
#[derive(Debug)]
pub struct UploadedInfo {
    pub handle: u64,
    pub file_name: String,
    pub file_size: usize,
    pub mime_type: String,
    pub width: u32,
    pub height: u32,
}


// ---------- callback tokens ----------

/// The state one inline button carries, resolved through a single-use
/// token.
#[derive(Debug, Clone)]
pub struct CommandCallback {
    pub category: String,
    pub action: String,
    pub page: u64,
    pub keyword: String,
    pub data: String,
}

impl CommandCallback {
    pub fn new(category: &str, action: &str, page: u64, keyword: String, data: String) -> (r:
        CommandCallback)
        ensures
            r.category@ == category@,
            r.action@ == action@,
            r.page == page,
            r.keyword == keyword,
            r.data == data,
    {
        CommandCallback {
            category: category.to_owned(),
            action: action.to_owned(),
            page,
            keyword,
            data,
        }
    }

    pub fn duplicate(&self) -> (r: CommandCallback)
        ensures
            r == *self,
    {
        CommandCallback {
            category: self.category.clone(),
            action: self.action.clone(),
            page: self.page,
            keyword: self.keyword.clone(),
            data: self.data.clone(),
        }
    }
}

// ---------- the bridge ----------

/// Grants and mappings the relay owns. Surrogate ids come from one
/// counter shared by all tables.
pub struct Bridge {
    admin_id: i64,
    next_id: i64,
    remote_chats: Vec<remote_chat::Model>,
    archives: Vec<archive::Model>,
    topics: Vec<topic::Model>,
    links: Vec<link::Model>,
    messages: Vec<message::Model>,
    callbacks: Vec<(String, CommandCallback)>,
}

impl Bridge {
    /// The only Telegram user whose outbound messages are relayed.
    pub closed spec fn spec_admin_id(&self) -> i64 {
        self.admin_id
    }

    pub fn admin_id(&self) -> (r: i64)
        ensures
            r == self.spec_admin_id(),
    {
        self.admin_id
    }

    pub closed spec fn spec_remote_chats(&self) -> Seq<remote_chat::Model> {
        self.remote_chats@
    }

    pub closed spec fn spec_archives(&self) -> Seq<archive::Model> {
        self.archives@
    }

    pub closed spec fn spec_topics(&self) -> Seq<topic::Model> {
        self.topics@
    }

    pub closed spec fn spec_links(&self) -> Seq<link::Model> {
        self.links@
    }

    pub closed spec fn spec_messages(&self) -> Seq<message::Model> {
        self.messages@
    }

    pub closed spec fn spec_next_id(&self) -> int {
        self.next_id as int
    }

    pub closed spec fn spec_callbacks(&self) -> Seq<(Seq<char>, CommandCallback)> {
        Seq::new(self.callbacks@.len(), |i: int| (self.callbacks@[i].0@, self.callbacks@[i].1))
    }

    /// The uniqueness fabric of §3: every table's keys are unique.
    pub open spec fn wf(&self) -> bool {
        remote_chats_wf(self.spec_remote_chats(), self.spec_next_id()) && archives_wf(
            self.spec_archives(),
            self.spec_next_id(),
        ) && topics_wf(self.spec_topics(), self.spec_next_id()) && links_wf(
            self.spec_links(),
            self.spec_next_id(),
        ) && messages_wf(self.spec_messages(), self.spec_next_id()) && (forall|i: int, j: int|
            0 <= i < j < self.spec_callbacks().len() ==> (#[trigger] self.spec_callbacks()[i]).0
                != (#[trigger] self.spec_callbacks()[j]).0)
    }

    pub fn new(admin_id: i64) -> (r: Bridge)
        ensures
            r.wf(),
            r.spec_admin_id() == admin_id,
            r.spec_next_id() == 1,
            r.spec_remote_chats().len() == 0,
            r.spec_archives().len() == 0,
            r.spec_topics().len() == 0,
            r.spec_links().len() == 0,
            r.spec_messages().len() == 0,
            r.spec_callbacks().len() == 0,
    {
        Bridge {
            admin_id,
            next_id: 1,
            remote_chats: Vec::new(),
            archives: Vec::new(),
            topics: Vec::new(),
            links: Vec::new(),
            messages: Vec::new(),
            callbacks: Vec::new(),
        }
    }

    // ---------- remote chats ----------

    /// The row describing a conversation, if the store knows it.
    pub fn find_remote_chat(
        &self,
        endpoint: &Endpoint,
        chat_type: ChatType,
        target_id: &str,
    ) -> (r: Option<&remote_chat::Model>)
        ensures
            match r {
                Some(m) => exists|i: int|
                    0 <= i < self.spec_remote_chats().len() && self.spec_remote_chats()[i] == *m
                        && (#[trigger] self.spec_remote_chats()[i]).spec_key_is(
                        *endpoint,
                        chat_type,
                        target_id@,
                    ),
                None => forall|i: int|
                    0 <= i < self.spec_remote_chats().len() ==> !(
                    #[trigger] self.spec_remote_chats()[i]).spec_key_is(
                        *endpoint,
                        chat_type,
                        target_id@,
                    ),
            },
    {
        let n = self.remote_chats.len();
        let mut i: usize = 0;
        while i < n
            invariant
                0 <= i <= n,
                n == self.remote_chats@.len(),
                forall|j: int| 0 <= j < i ==> !(#[trigger] self.remote_chats@[j]).spec_key_is(
                    *endpoint,
                    chat_type,
                    target_id@,
                ),
            decreases n - i,
        {
            let row = &self.remote_chats[i];
            if row.endpoint.same(endpoint) && row.chat_type == chat_type && str_eq(
                row.target_id.as_str(),
                target_id,
            ) {
                proof {
                    assert(self.spec_remote_chats()[i as int].spec_key_is(
                        *endpoint,
                        chat_type,
                        target_id@,
                    ));
                }
                return Some(row);
            }
            i = i + 1;
        }
        None
    }

    /// The row with a given surrogate id.
    pub fn find_remote_chat_by_id(&self, id: i64) -> (r: Option<&remote_chat::Model>)
        ensures
            match r {
                Some(m) => exists|i: int|
                    0 <= i < self.spec_remote_chats().len() && self.spec_remote_chats()[i] == *m
                        && (#[trigger] self.spec_remote_chats()[i]).id == id,
                None => forall|i: int|
                    0 <= i < self.spec_remote_chats().len() ==> (
                    #[trigger] self.spec_remote_chats()[i]).id != id,
            },
    {
        let n = self.remote_chats.len();
        let mut i: usize = 0;
        while i < n
            invariant
                0 <= i <= n,
                n == self.remote_chats@.len(),
                forall|j: int| 0 <= j < i ==> (#[trigger] self.remote_chats@[j]).id != id,
            decreases n - i,
        {
            if self.remote_chats[i].id == id {
                proof {
                    assert(self.spec_remote_chats()[i as int].id == id);
                }
                return Some(&self.remote_chats[i]);
            }
            i = i + 1;
        }
        None
    }

    /// Records a conversation first observed now. The caller has already
    /// looked it up and fetched its name from the remote side; concurrent
    /// creations converge because the key must still be absent.
    pub fn insert_remote_chat(
        &mut self,
        endpoint: &Endpoint,
        chat_type: ChatType,
        target_id: String,
        name: String,
        now: i64,
    ) -> (r: i64)
        requires
            old(self).wf(),
            old(self).spec_next_id() < i64::MAX,
            forall|i: int|
                0 <= i < old(self).spec_remote_chats().len() ==> !(#[trigger] old(self).spec_remote_chats()[i]).spec_key_is(*endpoint, chat_type, target_id@),
        ensures
            final(self).wf(),
            final(self).spec_admin_id() == old(self).spec_admin_id(),
            final(self).spec_next_id() == old(self).spec_next_id() + 1,
            final(self).spec_remote_chats().len() == old(self).spec_remote_chats().len() + 1,
            final(self).spec_remote_chats().last().id == r,
            r == old(self).spec_next_id(),
            final(self).spec_remote_chats().last().spec_key_is(*endpoint, chat_type, target_id@),
            final(self).spec_remote_chats().last().name@ == name@,
            final(self).spec_remote_chats().drop_last() == old(self).spec_remote_chats(),
            final(self).spec_archives() == old(self).spec_archives(),
            final(self).spec_topics() == old(self).spec_topics(),
            final(self).spec_links() == old(self).spec_links(),
            final(self).spec_messages() == old(self).spec_messages(),
            final(self).spec_callbacks() == old(self).spec_callbacks(),
    {
        let id = self.next_id;
        let row = remote_chat::Model {
            id,
            endpoint: endpoint.clone_endpoint(),
            chat_type,
            target_id,
            name,
            created_at: now,
            updated_at: now,
        };
        let ghost pre = self.remote_chats@;
        self.remote_chats.push(row);
        self.next_id = self.next_id + 1;
        proof {
            assert(self.remote_chats@.drop_last() =~= pre);
            assert(self.spec_callbacks() =~= old(self).spec_callbacks());
            assert forall|i: int, j: int|
                0 <= i < j < self.remote_chats@.len() implies !(
            #[trigger] self.remote_chats@[i]).spec_key_is(
                (#[trigger] self.remote_chats@[j]).endpoint,
                self.remote_chats@[j].chat_type,
                self.remote_chats@[j].target_id@,
            ) by {
                if j == self.remote_chats@.len() - 1 {
                    assert(self.remote_chats@[i] == pre[i]);
                }
            }
        }
        id
    }

    /// Refreshes a conversation's name, creating the row when absent:
    /// the upsert used by connect-time list refreshes.
    pub fn update_remote_chat(
        &mut self,
        endpoint: &Endpoint,
        chat_type: ChatType,
        target_id: &String,
        name: String,
        now: i64,
    )
        requires
            old(self).wf(),
            old(self).spec_next_id() < i64::MAX,
        ensures
            final(self).wf(),
            final(self).spec_admin_id() == old(self).spec_admin_id(),
            old(self).spec_next_id() <= final(self).spec_next_id() <= old(self).spec_next_id()
                + 1,
            exists|i: int|
                0 <= i < final(self).spec_remote_chats().len() && (#[trigger] final(self).spec_remote_chats()[i]).spec_key_is(*endpoint, chat_type, target_id@) && final(self).spec_remote_chats()[i].name@ == name@,
            final(self).spec_archives() == old(self).spec_archives(),
            final(self).spec_topics() == old(self).spec_topics(),
            final(self).spec_links() == old(self).spec_links(),
            final(self).spec_messages() == old(self).spec_messages(),
            final(self).spec_callbacks() == old(self).spec_callbacks(),
    {
        let n = self.remote_chats.len();
        let mut i: usize = 0;
        while i < n
            invariant
                0 <= i <= n,
                n == self.remote_chats@.len(),
                self == old(self),
                old(self).wf(),
                old(self).spec_next_id() < i64::MAX,
                forall|j: int| 0 <= j < i ==> !(#[trigger] self.remote_chats@[j]).spec_key_is(
                    *endpoint,
                    chat_type,
                    target_id@,
                ),
            decreases n - i,
        {
            let row = &self.remote_chats[i];
            let hit = row.endpoint.same(endpoint) && row.chat_type == chat_type && str_eq(
                row.target_id.as_str(),
                target_id.as_str(),
            );
            if hit {
                let old_row = self.remote_chats[i].duplicate();
                let new_row = remote_chat::Model {
                    id: old_row.id,
                    endpoint: old_row.endpoint,
                    chat_type: old_row.chat_type,
                    target_id: old_row.target_id,
                    name,
                    created_at: old_row.created_at,
                    updated_at: now,
                };
                let ghost pre = self.remote_chats@;
                proof {
                    assert(pre == old(self).spec_remote_chats());
                    assert(remote_chats_wf(pre, old(self).spec_next_id()));
                }
                self.remote_chats.set(i, new_row);
                proof {
                    assert(self.spec_remote_chats()[i as int].spec_key_is(
                        *endpoint,
                        chat_type,
                        target_id@,
                    ));
                    assert(self.spec_callbacks() =~= old(self).spec_callbacks());
                    assert forall|a: int, b: int|
                        0 <= a < b < self.remote_chats@.len() implies !(
                    #[trigger] self.remote_chats@[a]).spec_key_is(
                        (#[trigger] self.remote_chats@[b]).endpoint,
                        self.remote_chats@[b].chat_type,
                        self.remote_chats@[b].target_id@,
                    ) by {
                        assert(!pre[a].spec_key_is(
                            pre[b].endpoint,
                            pre[b].chat_type,
                            pre[b].target_id@,
                        ));
                    }
                    assert forall|a: int, b: int|
                        0 <= a < b < self.remote_chats@.len() implies (
                    #[trigger] self.remote_chats@[a]).id < (#[trigger] self.remote_chats@[b]).id by {
                        assert(pre[a].id < pre[b].id);
                    }
                }
                return;
            }
            i = i + 1;
        }
        let target = target_id.clone();
        self.insert_remote_chat(endpoint, chat_type, target, name, now);
    }

    // ---------- messages ----------

    /// The mapping row for a remote message, if one was delivered.
    pub fn find_message_by_remote(
        &self,
        remote_chat_id: i64,
        message_id: &str,
    ) -> (r: Option<&message::Model>)
        ensures
            match r {
                Some(m) => exists|i: int|
                    0 <= i < self.spec_messages().len() && self.spec_messages()[i] == *m && (
                    #[trigger] self.spec_messages()[i]).spec_remote_key_is(
                        remote_chat_id,
                        message_id@,
                    ),
                None => forall|i: int|
                    0 <= i < self.spec_messages().len() ==> !(
                    #[trigger] self.spec_messages()[i]).spec_remote_key_is(
                        remote_chat_id,
                        message_id@,
                    ),
            },
    {
        let n = self.messages.len();
        let mut i: usize = 0;
        while i < n
            invariant
                0 <= i <= n,
                n == self.messages@.len(),
                forall|j: int| 0 <= j < i ==> !(#[trigger] self.messages@[j]).spec_remote_key_is(
                    remote_chat_id,
                    message_id@,
                ),
            decreases n - i,
        {
            let row = &self.messages[i];
            if row.remote_chat_id == remote_chat_id && str_eq(
                row.remote_msg_id.as_str(),
                message_id,
            ) {
                proof {
                    assert(self.spec_messages()[i as int].spec_remote_key_is(
                        remote_chat_id,
                        message_id@,
                    ));
                }
                return Some(row);
            }
            i = i + 1;
        }
        None
    }

    /// The mapping row for a Telegram message, if one exists.
    pub fn find_message_by_tg(
        &self,
        tg_chat_id: i64,
        tg_msg_id: i32,
    ) -> (r: Option<&message::Model>)
        ensures
            match r {
                Some(m) => exists|i: int|
                    0 <= i < self.spec_messages().len() && self.spec_messages()[i] == *m && (
                    #[trigger] self.spec_messages()[i]).spec_tg_key_is(tg_chat_id, tg_msg_id),
                None => forall|i: int|
                    0 <= i < self.spec_messages().len() ==> !(
                    #[trigger] self.spec_messages()[i]).spec_tg_key_is(tg_chat_id, tg_msg_id),
            },
    {
        let n = self.messages.len();
        let mut i: usize = 0;
        while i < n
            invariant
                0 <= i <= n,
                n == self.messages@.len(),
                forall|j: int| 0 <= j < i ==> !(#[trigger] self.messages@[j]).spec_tg_key_is(
                    tg_chat_id,
                    tg_msg_id,
                ),
            decreases n - i,
        {
            let row = &self.messages[i];
            if row.tg_chat_id == tg_chat_id && row.tg_msg_id == tg_msg_id {
                proof {
                    assert(self.spec_messages()[i as int].spec_tg_key_is(tg_chat_id, tg_msg_id));
                }
                return Some(row);
            }
            i = i + 1;
        }
        None
    }

    /// Records a successful delivery. A row that would repeat either
    /// unique key is skipped and the store stays as it was.
    pub fn save_message_by_remote(
        &mut self,
        remote_chat_id: i64,
        remote_message_id: &String,
        tg_chat_id: i64,
        tg_msg_id: i32,
        content: String,
        now: i64,
    ) -> (r: Result<(), ()>)
        requires
            old(self).wf(),
            old(self).spec_next_id() < i64::MAX,
        ensures
            final(self).wf(),
            final(self).spec_admin_id() == old(self).spec_admin_id(),
            match r {
                Ok(()) => {
                    &&& forall|i: int|
                        0 <= i < old(self).spec_messages().len() ==> !(#[trigger] old(self).spec_messages()[i]).spec_tg_key_is(tg_chat_id, tg_msg_id)
                    &&& final(self).spec_messages().len() == old(self).spec_messages().len() + 1
                    &&& final(self).spec_messages().drop_last() == old(self).spec_messages()
                    &&& final(self).spec_messages().last().spec_tg_key_is(tg_chat_id, tg_msg_id)
                    &&& final(self).spec_messages().last().spec_remote_key_is(
                        remote_chat_id,
                        remote_message_id@,
                    )
                    &&& final(self).spec_messages().last().delivery_status
                        == DeliveryStatus::Sent
                    &&& final(self).spec_messages().last().content@ == content@
                },
                Err(()) => final(self).spec_messages() == old(self).spec_messages() && (exists|
                    i: int,
                |
                    0 <= i < old(self).spec_messages().len() && (#[trigger] old(self).spec_messages()[i]).spec_tg_key_is(tg_chat_id, tg_msg_id)),
            },
            final(self).spec_remote_chats() == old(self).spec_remote_chats(),
            final(self).spec_archives() == old(self).spec_archives(),
            final(self).spec_topics() == old(self).spec_topics(),
            final(self).spec_links() == old(self).spec_links(),
            final(self).spec_callbacks() == old(self).spec_callbacks(),
    {
        if self.find_message_by_tg(tg_chat_id, tg_msg_id).is_some() {
            return Err(());
        }
        let row = message::Model {
            id: self.next_id,
            tg_chat_id,
            tg_msg_id,
            remote_chat_id,
            remote_msg_id: remote_message_id.clone(),
            content,
            delivery_status: DeliveryStatus::Sent,
            created_at: now,
            updated_at: now,
        };
        let ghost pre = self.messages@;
        self.messages.push(row);
        self.next_id = self.next_id + 1;
        proof {
            assert(self.messages@.drop_last() =~= pre);
            assert(self.spec_callbacks() =~= old(self).spec_callbacks());
            assert forall|i: int, j: int|
                0 <= i < j < self.messages@.len() implies !((#[trigger] self.messages@[i]).tg_chat_id
                == (#[trigger] self.messages@[j]).tg_chat_id && self.messages@[i].tg_msg_id
                == self.messages@[j].tg_msg_id) by {
                if j == self.messages@.len() - 1 {
                    assert(self.messages@[i] == pre[i]);
                }
            }
            assert forall|i: int, j: int|
                0 <= i < j < self.messages@.len() implies !((
            #[trigger] self.messages@[i]).remote_chat_id == (
            #[trigger] self.messages@[j]).remote_chat_id && self.messages@[i].remote_msg_id@
                == self.messages@[j].remote_msg_id@ && self.messages@[i].tg_chat_id
                == self.messages@[j].tg_chat_id && self.messages@[i].tg_msg_id
                == self.messages@[j].tg_msg_id) by {
                if j == self.messages@.len() - 1 {
                    assert(self.messages@[i] == pre[i]);
                }
            }
        }
        Ok(())
    }

    /// Every successful delivery leaves exactly one mapping row for its
    /// Telegram message: one row carries both keys, and no other row
    /// repeats the Telegram key, so replays and reverse lookups stay
    /// coherent.
    pub proof fn lemma_delivery_recorded(
        self,
        remote_chat_id: i64,
        remote_msg_id: Seq<char>,
        tg_chat_id: i64,
        tg_msg_id: i32,
    )
        requires
            self.wf(),
            self.spec_messages().len() > 0,
            self.spec_messages().last().spec_remote_key_is(remote_chat_id, remote_msg_id),
            self.spec_messages().last().spec_tg_key_is(tg_chat_id, tg_msg_id),
        ensures
            exists|i: int|
                0 <= i < self.spec_messages().len() && (
                #[trigger] self.spec_messages()[i]).spec_remote_key_is(
                    remote_chat_id,
                    remote_msg_id,
                ) && self.spec_messages()[i].spec_tg_key_is(tg_chat_id, tg_msg_id),
            forall|i: int, j: int|
                0 <= i < j < self.spec_messages().len() ==> !((
                #[trigger] self.spec_messages()[i]).spec_tg_key_is(tg_chat_id, tg_msg_id) && (
                #[trigger] self.spec_messages()[j]).spec_tg_key_is(tg_chat_id, tg_msg_id)),
    {
        let last = self.spec_messages().len() - 1;
        assert(self.spec_messages()[last].spec_remote_key_is(remote_chat_id, remote_msg_id));
    }

    /// Marks the mapping of a recalled remote message. With a mapping the
    /// original row moves to `Recalled` and its Telegram address comes
    /// back; without one nothing at all is inserted or modified.
    pub fn mark_message_recalled(
        &mut self,
        remote_chat_id: i64,
        message_id: &str,
        now: i64,
    ) -> (r: Option<(i64, i32)>)
        requires
            old(self).wf(),
        ensures
            final(self).wf(),
            final(self).spec_admin_id() == old(self).spec_admin_id(),
            match r {
                Some((tg_chat_id, tg_msg_id)) => {
                    &&& exists|i: int|
                        0 <= i < old(self).spec_messages().len() && (#[trigger] old(self).spec_messages()[i]).spec_remote_key_is(remote_chat_id, message_id@)
                    &&& final(self).spec_messages().len() == old(self).spec_messages().len()
                    &&& exists|i: int|
                        {
                            &&& 0 <= i < old(self).spec_messages().len()
                            &&& (#[trigger] old(self).spec_messages()[i]).spec_remote_key_is(
                                remote_chat_id,
                                message_id@,
                            )
                            &&& old(self).spec_messages()[i].tg_chat_id == tg_chat_id
                            &&& old(self).spec_messages()[i].tg_msg_id == tg_msg_id
                            &&& final(self).spec_messages()[i].delivery_status
                                == DeliveryStatus::Recalled
                            &&& final(self).spec_messages()[i].spec_remote_key_is(
                                remote_chat_id,
                                message_id@,
                            )
                            &&& final(self).spec_messages()[i].spec_tg_key_is(
                                tg_chat_id,
                                tg_msg_id,
                            )
                            &&& forall|j: int|
                                0 <= j < old(self).spec_messages().len() && j != i ==> final(self).spec_messages()[j] == old(self).spec_messages()[j]
                        }
                },
                None => final(self).spec_messages() == old(self).spec_messages() && (forall|
                    i: int,
                |
                    0 <= i < old(self).spec_messages().len() ==> !(#[trigger] old(self).spec_messages()[i]).spec_remote_key_is(remote_chat_id, message_id@)),
            },
            final(self).spec_remote_chats() == old(self).spec_remote_chats(),
            final(self).spec_archives() == old(self).spec_archives(),
            final(self).spec_topics() == old(self).spec_topics(),
            final(self).spec_links() == old(self).spec_links(),
            final(self).spec_callbacks() == old(self).spec_callbacks(),
            final(self).spec_next_id() == old(self).spec_next_id(),
    {
        let n = self.messages.len();
        let mut i: usize = 0;
        while i < n
            invariant
                0 <= i <= n,
                n == self.messages@.len(),
                self == old(self),
                old(self).wf(),
                forall|j: int| 0 <= j < i ==> !(#[trigger] self.messages@[j]).spec_remote_key_is(
                    remote_chat_id,
                    message_id@,
                ),
            decreases n - i,
        {
            let row = &self.messages[i];
            let hit = row.remote_chat_id == remote_chat_id && str_eq(
                row.remote_msg_id.as_str(),
                message_id,
            );
            if hit {
                let old_row = self.messages[i].duplicate();
                let tg_chat_id = old_row.tg_chat_id;
                let tg_msg_id = old_row.tg_msg_id;
                let new_row = message::Model {
                    id: old_row.id,
                    tg_chat_id: old_row.tg_chat_id,
                    tg_msg_id: old_row.tg_msg_id,
                    remote_chat_id: old_row.remote_chat_id,
                    remote_msg_id: old_row.remote_msg_id,
                    content: old_row.content,
                    delivery_status: DeliveryStatus::Recalled,
                    created_at: old_row.created_at,
                    updated_at: now,
                };
                let ghost pre = self.messages@;
                proof {
                    assert(pre == old(self).spec_messages());
                    assert(messages_wf(pre, old(self).spec_next_id()));
                    assert(pre[i as int].spec_remote_key_is(remote_chat_id, message_id@));
                }
                self.messages.set(i, new_row);
                proof {
                    assert(self.spec_messages()[i as int].delivery_status
                        == DeliveryStatus::Recalled);
                    assert(self.spec_callbacks() =~= old(self).spec_callbacks());
                    assert forall|a: int, b: int|
                        0 <= a < b < self.messages@.len() implies !((
                    #[trigger] self.messages@[a]).tg_chat_id == (
                    #[trigger] self.messages@[b]).tg_chat_id && self.messages@[a].tg_msg_id
                        == self.messages@[b].tg_msg_id) by {
                        assert(!(pre[a].tg_chat_id == pre[b].tg_chat_id && pre[a].tg_msg_id
                            == pre[b].tg_msg_id));
                    }
                    assert forall|a: int, b: int|
                        0 <= a < b < self.messages@.len() implies !((
                    #[trigger] self.messages@[a]).remote_chat_id == (
                    #[trigger] self.messages@[b]).remote_chat_id
                        && self.messages@[a].remote_msg_id@ == self.messages@[b].remote_msg_id@
                        && self.messages@[a].tg_chat_id == self.messages@[b].tg_chat_id
                        && self.messages@[a].tg_msg_id == self.messages@[b].tg_msg_id) by {
                        assert(!(pre[a].remote_chat_id == pre[b].remote_chat_id
                            && pre[a].remote_msg_id@ == pre[b].remote_msg_id@
                            && pre[a].tg_chat_id == pre[b].tg_chat_id && pre[a].tg_msg_id
                            == pre[b].tg_msg_id));
                    }
                    assert forall|a: int, b: int|
                        0 <= a < b < self.messages@.len() implies (#[trigger] self.messages@[a]).id
                        != (#[trigger] self.messages@[b]).id by {
                        assert(pre[a].id != pre[b].id);
                    }
                }
                return Some((tg_chat_id, tg_msg_id));
            }
            i = i + 1;
        }
        None
    }

    // ---------- links ----------

    pub fn find_link_by_remote(&self, remote_chat_id: i64) -> (r: Option<&link::Model>)
        ensures
            match r {
                Some(m) => exists|i: int|
                    0 <= i < self.spec_links().len() && self.spec_links()[i] == *m && (
                    #[trigger] self.spec_links()[i]).remote_chat_id == remote_chat_id,
                None => forall|i: int|
                    0 <= i < self.spec_links().len() ==> (
                    #[trigger] self.spec_links()[i]).remote_chat_id != remote_chat_id,
            },
    {
        let n = self.links.len();
        let mut i: usize = 0;
        while i < n
            invariant
                0 <= i <= n,
                n == self.links@.len(),
                forall|j: int| 0 <= j < i ==> (#[trigger] self.links@[j]).remote_chat_id
                    != remote_chat_id,
            decreases n - i,
        {
            if self.links[i].remote_chat_id == remote_chat_id {
                proof {
                    assert(self.spec_links()[i as int].remote_chat_id == remote_chat_id);
                }
                return Some(&self.links[i]);
            }
            i = i + 1;
        }
        None
    }

    pub fn find_link_by_tg(&self, tg_chat_id: i64) -> (r: Option<&link::Model>)
        ensures
            match r {
                Some(m) => exists|i: int|
                    0 <= i < self.spec_links().len() && self.spec_links()[i] == *m && (
                    #[trigger] self.spec_links()[i]).tg_chat_id == tg_chat_id,
                None => forall|i: int|
                    0 <= i < self.spec_links().len() ==> (#[trigger] self.spec_links()[i]).tg_chat_id
                        != tg_chat_id,
            },
    {
        let n = self.links.len();
        let mut i: usize = 0;
        while i < n
            invariant
                0 <= i <= n,
                n == self.links@.len(),
                forall|j: int| 0 <= j < i ==> (#[trigger] self.links@[j]).tg_chat_id != tg_chat_id,
            decreases n - i,
        {
            if self.links[i].tg_chat_id == tg_chat_id {
                proof {
                    assert(self.spec_links()[i as int].tg_chat_id == tg_chat_id);
                }
                return Some(&self.links[i]);
            }
            i = i + 1;
        }
        None
    }

    /// Creates a link when neither side is bound yet; a conflict on
    /// either unique side leaves the store unchanged.
    pub fn create_link(
        &mut self,
        tg_chat_type: u8,
        tg_chat_id: i64,
        remote_chat_id: i64,
        now: i64,
    ) -> (r: Result<i64, ()>)
        requires
            old(self).wf(),
            old(self).spec_next_id() < i64::MAX,
        ensures
            final(self).wf(),
            final(self).spec_admin_id() == old(self).spec_admin_id(),
            final(self).spec_next_id() == (if r is Ok {
                old(self).spec_next_id() + 1
            } else {
                old(self).spec_next_id()
            }),
            match r {
                Ok(id) => {
                    &&& final(self).spec_links().len() == old(self).spec_links().len() + 1
                    &&& final(self).spec_links().drop_last() == old(self).spec_links()
                    &&& final(self).spec_links().last().id == id
                    &&& final(self).spec_links().last().tg_chat_type == tg_chat_type
                    &&& final(self).spec_links().last().tg_chat_id == tg_chat_id
                    &&& final(self).spec_links().last().remote_chat_id == remote_chat_id
                    &&& forall|i: int|
                        0 <= i < old(self).spec_links().len() ==> (#[trigger] old(self).spec_links()[i]).tg_chat_id != tg_chat_id && old(self).spec_links()[i].remote_chat_id != remote_chat_id
                },
                Err(()) => final(self).spec_links() == old(self).spec_links() && (exists|i: int|
                    0 <= i < old(self).spec_links().len() && ((#[trigger] old(self).spec_links()[i]).tg_chat_id == tg_chat_id || old(self).spec_links()[i].remote_chat_id == remote_chat_id)),
            },
            final(self).spec_remote_chats() == old(self).spec_remote_chats(),
            final(self).spec_archives() == old(self).spec_archives(),
            final(self).spec_topics() == old(self).spec_topics(),
            final(self).spec_messages() == old(self).spec_messages(),
            final(self).spec_callbacks() == old(self).spec_callbacks(),
    {
        if self.find_link_by_tg(tg_chat_id).is_some() {
            return Err(());
        }
        if self.find_link_by_remote(remote_chat_id).is_some() {
            return Err(());
        }
        let id = self.next_id;
        let row = link::Model {
            id,
            tg_chat_type,
            tg_chat_id,
            remote_chat_id,
            created_at: now,
            updated_at: now,
        };
        let ghost pre = self.links@;
        self.links.push(row);
        self.next_id = self.next_id + 1;
        proof {
            assert(self.links@.drop_last() =~= pre);
            assert(self.spec_callbacks() =~= old(self).spec_callbacks());
            assert forall|i: int, j: int|
                0 <= i < j < self.links@.len() implies (#[trigger] self.links@[i]).tg_chat_id != (
            #[trigger] self.links@[j]).tg_chat_id && self.links@[i].remote_chat_id
                != self.links@[j].remote_chat_id && self.links@[i].id != self.links@[j].id by {
                if j == self.links@.len() - 1 {
                    assert(self.links@[i] == pre[i]);
                }
            }
        }
        Ok(id)
    }

    /// Deletes the link with this id, if it exists.
    pub fn delete_link(&mut self, id: i64)
        requires
            old(self).wf(),
        ensures
            final(self).wf(),
            final(self).spec_admin_id() == old(self).spec_admin_id(),
            forall|i: int|
                0 <= i < final(self).spec_links().len() ==> (
                #[trigger] final(self).spec_links()[i]).id != id,
            (exists|j: int|
                0 <= j < old(self).spec_links().len() && (#[trigger] old(self).spec_links()[j]).id
                    == id && final(self).spec_links() == old(self).spec_links().remove(j)) || (
            final(self).spec_links() == old(self).spec_links()),
            final(self).spec_remote_chats() == old(self).spec_remote_chats(),
            final(self).spec_archives() == old(self).spec_archives(),
            final(self).spec_topics() == old(self).spec_topics(),
            final(self).spec_messages() == old(self).spec_messages(),
            final(self).spec_callbacks() == old(self).spec_callbacks(),
            final(self).spec_next_id() == old(self).spec_next_id(),
    {
        let n = self.links.len();
        let mut i: usize = 0;
        while i < n
            invariant
                0 <= i <= n,
                n == self.links@.len(),
                self == old(self),
                old(self).wf(),
                forall|j: int| 0 <= j < i ==> (#[trigger] self.links@[j]).id != id,
            decreases n - i,
        {
            if self.links[i].id == id {
                let ghost pre = self.links@;
                proof {
                    assert(pre == old(self).spec_links());
                }
                self.links.remove(i);
                proof {
                    assert(self.spec_callbacks() =~= old(self).spec_callbacks());
                    assert((old(self).spec_links()[i as int]).id == id);
                    assert(self.spec_links() == old(self).spec_links().remove(i as int));
                    assert forall|a: int|
                        0 <= a < self.links@.len() implies (#[trigger] self.links@[a]).id != id by {
                        if a < i {
                            assert(self.links@[a] == pre[a]);
                        } else {
                            assert(self.links@[a] == pre[a + 1]);
                        }
                    }
                    assert forall|a: int, b: int|
                        0 <= a < b < self.links@.len() implies (#[trigger] self.links@[a]).tg_chat_id
                        != (#[trigger] self.links@[b]).tg_chat_id && self.links@[a].remote_chat_id
                        != self.links@[b].remote_chat_id && self.links@[a].id
                        != self.links@[b].id by {
                        let a2: int = if a < i {
                            a
                        } else {
                            a + 1
                        };
                        let b2: int = if b < i {
                            b
                        } else {
                            b + 1
                        };
                        assert(self.links@[a] == pre[a2] && self.links@[b] == pre[b2]);
                    }
                }
                return;
            }
            i = i + 1;
        }
    }

    // ---------- archives and topics ----------

    pub fn find_archive_by_endpoint(&self, endpoint: &Endpoint) -> (r: Option<&archive::Model>)
        ensures
            match r {
                Some(m) => exists|i: int|
                    0 <= i < self.spec_archives().len() && self.spec_archives()[i] == *m && (
                    #[trigger] self.spec_archives()[i]).endpoint.spec_same(*endpoint),
                None => forall|i: int|
                    0 <= i < self.spec_archives().len() ==> !(
                    #[trigger] self.spec_archives()[i]).endpoint.spec_same(*endpoint),
            },
    {
        let n = self.archives.len();
        let mut i: usize = 0;
        while i < n
            invariant
                0 <= i <= n,
                n == self.archives@.len(),
                forall|j: int| 0 <= j < i ==> !(#[trigger] self.archives@[j]).endpoint.spec_same(
                    *endpoint,
                ),
            decreases n - i,
        {
            if self.archives[i].endpoint.same(endpoint) {
                proof {
                    assert(self.spec_archives()[i as int].endpoint.spec_same(*endpoint));
                }
                return Some(&self.archives[i]);
            }
            i = i + 1;
        }
        None
    }

    /// Creates an archive when the endpoint is not yet archived; a
    /// conflict leaves the store unchanged.
    pub fn create_archive(&mut self, endpoint: &Endpoint, tg_chat_id: i64, now: i64) -> (r: Result<
        i64,
        (),
    >)
        requires
            old(self).wf(),
            old(self).spec_next_id() < i64::MAX,
        ensures
            final(self).wf(),
            final(self).spec_admin_id() == old(self).spec_admin_id(),
            final(self).spec_next_id() == (if r is Ok {
                old(self).spec_next_id() + 1
            } else {
                old(self).spec_next_id()
            }),
            match r {
                Ok(id) => {
                    &&& final(self).spec_archives().len() == old(self).spec_archives().len() + 1
                    &&& final(self).spec_archives().drop_last() == old(self).spec_archives()
                    &&& final(self).spec_archives().last().id == id
                    &&& final(self).spec_archives().last().endpoint.spec_same(*endpoint)
                    &&& final(self).spec_archives().last().tg_chat_id == tg_chat_id
                    &&& forall|i: int|
                        0 <= i < old(self).spec_archives().len() ==> !(#[trigger] old(self).spec_archives()[i]).endpoint.spec_same(*endpoint)
                },
                Err(()) => final(self).spec_archives() == old(self).spec_archives() && (exists|
                    i: int,
                |
                    0 <= i < old(self).spec_archives().len() && (#[trigger] old(self).spec_archives()[i]).endpoint.spec_same(*endpoint)),
            },
            final(self).spec_remote_chats() == old(self).spec_remote_chats(),
            final(self).spec_topics() == old(self).spec_topics(),
            final(self).spec_links() == old(self).spec_links(),
            final(self).spec_messages() == old(self).spec_messages(),
            final(self).spec_callbacks() == old(self).spec_callbacks(),
    {
        if self.find_archive_by_endpoint(endpoint).is_some() {
            return Err(());
        }
        let id = self.next_id;
        let row = archive::Model {
            id,
            endpoint: endpoint.clone_endpoint(),
            tg_chat_id,
            created_at: now,
            updated_at: now,
        };
        let ghost pre = self.archives@;
        self.archives.push(row);
        self.next_id = self.next_id + 1;
        proof {
            assert(self.archives@.drop_last() =~= pre);
            assert(self.spec_callbacks() =~= old(self).spec_callbacks());
            assert forall|i: int, j: int|
                0 <= i < j < self.archives@.len() implies !(
            #[trigger] self.archives@[i]).endpoint.spec_same(
                (#[trigger] self.archives@[j]).endpoint,
            ) && self.archives@[i].id != self.archives@[j].id by {
                if j == self.archives@.len() - 1 {
                    assert(self.archives@[i] == pre[i]);
                }
            }
        }
        Ok(id)
    }

    /// Deletes an archive and every topic under it.
    pub fn delete_archive(&mut self, id: i64)
        requires
            old(self).wf(),
        ensures
            final(self).wf(),
            final(self).spec_admin_id() == old(self).spec_admin_id(),
            forall|i: int|
                0 <= i < final(self).spec_archives().len() ==> (#[trigger] final(self).spec_archives()[i]).id != id,
            forall|i: int|
                0 <= i < final(self).spec_topics().len() ==> (#[trigger] final(self).spec_topics()[i]).archive_id != id,
            final(self).spec_remote_chats() == old(self).spec_remote_chats(),
            final(self).spec_links() == old(self).spec_links(),
            final(self).spec_messages() == old(self).spec_messages(),
            final(self).spec_callbacks() == old(self).spec_callbacks(),
            final(self).spec_next_id() == old(self).spec_next_id(),
    {
        // Topics of the archive go first.
        let mut kept: Vec<topic::Model> = Vec::new();
        let ghost mut src: Seq<int> = Seq::empty();
        let n = self.topics.len();
        let mut i: usize = 0;
        while i < n
            invariant
                0 <= i <= n,
                n == self.topics@.len(),
                self == old(self),
                old(self).wf(),
                src.len() == kept@.len(),
                forall|a: int|
                    0 <= a < src.len() ==> 0 <= #[trigger] src[a] < i && kept@[a]
                        == self.topics@[src[a]] && self.topics@[src[a]].archive_id != id,
                forall|a: int, b: int| 0 <= a < b < src.len() ==> src[a] < src[b],
            decreases n - i,
        {
            let t = self.topics[i];
            if t.archive_id != id {
                kept.push(t);
                proof {
                    src = src.push(i as int);
                }
            }
            i = i + 1;
        }
        let ghost old_topics = self.topics@;
        self.topics = kept;
        proof {
            assert forall|a: int, b: int|
                0 <= a < b < self.topics@.len() implies (#[trigger] self.topics@[a]).id != (
            #[trigger] self.topics@[b]).id && self.topics@[a].remote_chat_id
                != self.topics@[b].remote_chat_id by {
                assert(self.topics@[a] == old_topics[src[a]]);
                assert(self.topics@[b] == old_topics[src[b]]);
                assert(src[a] < src[b]);
            }
            assert forall|a: int|
                0 <= a < self.topics@.len() implies (#[trigger] self.topics@[a]).id
                < self.spec_next_id() by {
                assert(self.topics@[a] == old_topics[src[a]]);
            }
            assert forall|a: int|
                0 <= a < self.topics@.len() implies (#[trigger] self.topics@[a]).archive_id
                != id by {
                assert(self.topics@[a] == old_topics[src[a]]);
            }
        }
        // Then the archive row itself.
        let m = self.archives.len();
        let mut k: usize = 0;
        while k < m
            invariant
                0 <= k <= m,
                m == self.archives@.len(),
                old(self).wf(),
                self.archives@ == old(self).archives@,
                self.remote_chats@ == old(self).remote_chats@,
                self.links@ == old(self).links@,
                self.messages@ == old(self).messages@,
                self.callbacks@ == old(self).callbacks@,
                self.next_id == old(self).next_id,
                self.admin_id == old(self).admin_id,
                archives_wf(self.archives@, self.spec_next_id()),
                forall|j: int| 0 <= j < k ==> (#[trigger] self.archives@[j]).id != id,
                forall|a: int| 0 <= a < self.topics@.len() ==> (
                #[trigger] self.topics@[a]).archive_id != id,
                topics_wf(self.topics@, self.spec_next_id()),
            decreases m - k,
        {
            if self.archives[k].id == id {
                let ghost pre = self.archives@;
                self.archives.remove(k);
                proof {
                    assert(self.spec_callbacks() =~= old(self).spec_callbacks());
                    assert forall|a: int|
                        0 <= a < self.archives@.len() implies (#[trigger] self.archives@[a]).id
                        != id by {
                        if a < k {
                            assert(self.archives@[a] == pre[a]);
                        } else {
                            assert(self.archives@[a] == pre[a + 1]);
                        }
                    }
                    assert forall|a: int, b: int|
                        0 <= a < b < self.archives@.len() implies !(
                    #[trigger] self.archives@[a]).endpoint.spec_same(
                        (#[trigger] self.archives@[b]).endpoint,
                    ) && self.archives@[a].id != self.archives@[b].id by {
                        let a2: int = if a < k {
                            a
                        } else {
                            a + 1
                        };
                        let b2: int = if b < k {
                            b
                        } else {
                            b + 1
                        };
                        assert(self.archives@[a] == pre[a2] && self.archives@[b] == pre[b2]);
                    }
                    assert forall|a: int|
                        0 <= a < self.archives@.len() implies (#[trigger] self.archives@[a]).id
                        < self.spec_next_id() by {
                        let a2: int = if a < k {
                            a
                        } else {
                            a + 1
                        };
                        assert(self.archives@[a] == pre[a2]);
                    }
                }
                return;
            }
            k = k + 1;
        }
        proof {
            assert(self.spec_callbacks() =~= old(self).spec_callbacks());
        }
    }

    /// The topic already mirroring a remote chat, if any.
    pub fn find_topic_by_remote_chat(&self, remote_chat_id: i64) -> (r: Option<topic::Model>)
        ensures
            match r {
                Some(t) => exists|i: int|
                    0 <= i < self.spec_topics().len() && self.spec_topics()[i] == t && (
                    #[trigger] self.spec_topics()[i]).remote_chat_id == remote_chat_id,
                None => forall|i: int|
                    0 <= i < self.spec_topics().len() ==> (
                    #[trigger] self.spec_topics()[i]).remote_chat_id != remote_chat_id,
            },
    {
        let n = self.topics.len();
        let mut i: usize = 0;
        while i < n
            invariant
                0 <= i <= n,
                n == self.topics@.len(),
                forall|j: int| 0 <= j < i ==> (#[trigger] self.topics@[j]).remote_chat_id
                    != remote_chat_id,
            decreases n - i,
        {
            if self.topics[i].remote_chat_id == remote_chat_id {
                proof {
                    assert(self.spec_topics()[i as int].remote_chat_id == remote_chat_id);
                }
                return Some(self.topics[i]);
            }
            i = i + 1;
        }
        None
    }

    /// Records a topic freshly created in Telegram for a remote chat that
    /// had none.
    pub fn create_topic(
        &mut self,
        archive_id: i64,
        tg_topic_id: i32,
        remote_chat_id: i64,
        now: i64,
    ) -> (r: Result<i64, ()>)
        requires
            old(self).wf(),
            old(self).spec_next_id() < i64::MAX,
        ensures
            final(self).wf(),
            final(self).spec_admin_id() == old(self).spec_admin_id(),
            final(self).spec_next_id() == (if r is Ok {
                old(self).spec_next_id() + 1
            } else {
                old(self).spec_next_id()
            }),
            match r {
                Ok(id) => {
                    &&& final(self).spec_topics().len() == old(self).spec_topics().len() + 1
                    &&& final(self).spec_topics().drop_last() == old(self).spec_topics()
                    &&& final(self).spec_topics().last().id == id
                    &&& final(self).spec_topics().last().archive_id == archive_id
                    &&& final(self).spec_topics().last().tg_topic_id == tg_topic_id
                    &&& final(self).spec_topics().last().remote_chat_id == remote_chat_id
                    &&& forall|i: int|
                        0 <= i < old(self).spec_topics().len() ==> (#[trigger] old(self).spec_topics()[i]).remote_chat_id != remote_chat_id
                },
                Err(()) => final(self).spec_topics() == old(self).spec_topics() && (exists|i: int|
                    0 <= i < old(self).spec_topics().len() && (#[trigger] old(self).spec_topics()[i]).remote_chat_id == remote_chat_id),
            },
            final(self).spec_remote_chats() == old(self).spec_remote_chats(),
            final(self).spec_archives() == old(self).spec_archives(),
            final(self).spec_links() == old(self).spec_links(),
            final(self).spec_messages() == old(self).spec_messages(),
            final(self).spec_callbacks() == old(self).spec_callbacks(),
    {
        if self.find_topic_by_remote_chat(remote_chat_id).is_some() {
            return Err(());
        }
        let id = self.next_id;
        let row = topic::Model {
            id,
            archive_id,
            tg_topic_id,
            remote_chat_id,
            created_at: now,
            updated_at: now,
        };
        let ghost pre = self.topics@;
        self.topics.push(row);
        self.next_id = self.next_id + 1;
        proof {
            assert(self.topics@.drop_last() =~= pre);
            assert(self.spec_callbacks() =~= old(self).spec_callbacks());
            assert forall|i: int, j: int|
                0 <= i < j < self.topics@.len() implies (#[trigger] self.topics@[i]).remote_chat_id
                != (#[trigger] self.topics@[j]).remote_chat_id && self.topics@[i].id
                != self.topics@[j].id by {
                if j == self.topics@.len() - 1 {
                    assert(self.topics@[i] == pre[i]);
                }
            }
        }
        Ok(id)
    }

    /// One full row of the forum join: topic `t` carries the Telegram
    /// topic id, its archive `a` sits in the Telegram chat, and `c` is
    /// the remote-chat row the topic mirrors.
    pub open spec fn spec_topic_join(
        &self,
        tg_chat_id: i64,
        tg_topic_id: i32,
        t: int,
        a: int,
        c: int,
    ) -> bool {
        &&& 0 <= t < self.spec_topics().len()
        &&& 0 <= a < self.spec_archives().len()
        &&& 0 <= c < self.spec_remote_chats().len()
        &&& self.spec_topics()[t].tg_topic_id == tg_topic_id
        &&& self.spec_archives()[a].tg_chat_id == tg_chat_id
        &&& self.spec_topics()[t].archive_id == self.spec_archives()[a].id
        &&& self.spec_remote_chats()[c].id == self.spec_topics()[t].remote_chat_id
    }

    /// The archive with this id when it sits in this Telegram chat.
    fn matching_archive(&self, archive_id: i64, tg_chat_id: i64) -> (r: Option<usize>)
        ensures
            match r {
                Some(k) => k < self.spec_archives().len() && (
                #[trigger] self.spec_archives()[k as int]).id == archive_id
                    && self.spec_archives()[k as int].tg_chat_id == tg_chat_id,
                None => forall|a: int|
                    0 <= a < self.spec_archives().len() ==> !((
                    #[trigger] self.spec_archives()[a]).id == archive_id
                        && self.spec_archives()[a].tg_chat_id == tg_chat_id),
            },
    {
        let m = self.archives.len();
        let mut k: usize = 0;
        while k < m
            invariant
                0 <= k <= m,
                m == self.archives@.len(),
                forall|a: int| 0 <= a < k ==> !((#[trigger] self.archives@[a]).id == archive_id
                    && self.archives@[a].tg_chat_id == tg_chat_id),
            decreases m - k,
        {
            if self.archives[k].id == archive_id && self.archives[k].tg_chat_id == tg_chat_id {
                proof {
                    assert((self.spec_archives()[k as int]).id == archive_id);
                }
                return Some(k);
            }
            k = k + 1;
        }
        None
    }

    /// The remote chat mirrored by a Telegram forum topic: the topic with
    /// this id whose archive sits in this Telegram chat, when its
    /// remote-chat row exists. Nothing comes back exactly when no such
    /// fully joined row exists.
    pub fn find_archive_by_tg(&self, tg_chat_id: i64, tg_topic_id: i32) -> (r: Option<
        &remote_chat::Model,
    >)
        ensures
            match r {
                Some(m) => exists|t: int, a: int, c: int|
                    #[trigger] self.spec_topic_join(tg_chat_id, tg_topic_id, t, a, c)
                        && self.spec_remote_chats()[c] == *m,
                None => forall|t: int, a: int, c: int|
                    !(#[trigger] self.spec_topic_join(tg_chat_id, tg_topic_id, t, a, c)),
            },
    {
        let n = self.topics.len();
        let mut i: usize = 0;
        while i < n
            invariant
                0 <= i <= n,
                n == self.topics@.len(),
                forall|t: int, a: int, c: int|
                    0 <= t < i ==> !(#[trigger] self.spec_topic_join(
                        tg_chat_id,
                        tg_topic_id,
                        t,
                        a,
                        c,
                    )),
            decreases n - i,
        {
            let t = self.topics[i];
            if t.tg_topic_id == tg_topic_id {
                match self.matching_archive(t.archive_id, tg_chat_id) {
                    Some(k) => {
                        match self.find_remote_chat_by_id(t.remote_chat_id) {
                            Some(chat) => {
                                proof {
                                    let c = choose|c: int|
                                        0 <= c < self.spec_remote_chats().len()
                                            && self.spec_remote_chats()[c] == *chat && (
                                        #[trigger] self.spec_remote_chats()[c]).id
                                            == t.remote_chat_id;
                                    assert(self.spec_topic_join(
                                        tg_chat_id,
                                        tg_topic_id,
                                        i as int,
                                        k as int,
                                        c,
                                    ));
                                }
                                return Some(chat);
                            },
                            None => {
                                // The topic's remote-chat row is absent,
                                // so no row of this topic joins at all.
                                proof {
                                    assert forall|a: int, c: int|
                                        !(#[trigger] self.spec_topic_join(
                                            tg_chat_id,
                                            tg_topic_id,
                                            i as int,
                                            a,
                                            c,
                                        )) by {
                                        if 0 <= c < self.spec_remote_chats().len() {
                                            assert(self.spec_remote_chats()[c].id
                                                != t.remote_chat_id);
                                        }
                                    }
                                }
                            },
                        }
                    },
                    None => {
                        proof {
                            assert forall|a: int, c: int|
                                !(#[trigger] self.spec_topic_join(
                                    tg_chat_id,
                                    tg_topic_id,
                                    i as int,
                                    a,
                                    c,
                                )) by {
                                if 0 <= a < self.spec_archives().len() {
                                    assert(!(self.spec_archives()[a].id == t.archive_id
                                        && self.spec_archives()[a].tg_chat_id == tg_chat_id));
                                }
                            }
                        }
                    },
                }
            } else {
                proof {
                    assert forall|a: int, c: int|
                        !(#[trigger] self.spec_topic_join(tg_chat_id, tg_topic_id, i as int, a, c)) by {
                        assert(self.spec_topics()[i as int].tg_topic_id != tg_topic_id);
                    }
                }
            }
            i = i + 1;
        }
        None
    }

    // ---------- callback tokens ----------

    /// Stores a callback under its token; a token already present is
    /// replaced, as a keyed insert would.
    pub fn put_callback_token(&mut self, token: String, callback: CommandCallback)
        requires
            old(self).wf(),
        ensures
            final(self).wf(),
            final(self).spec_admin_id() == old(self).spec_admin_id(),
            spec_callback_lookup(final(self).spec_callbacks(), token@) == Some(callback),
            forall|t: Seq<char>|
                t != token@ ==> spec_callback_lookup(final(self).spec_callbacks(), t)
                    == spec_callback_lookup(old(self).spec_callbacks(), t),
            final(self).spec_remote_chats() == old(self).spec_remote_chats(),
            final(self).spec_archives() == old(self).spec_archives(),
            final(self).spec_topics() == old(self).spec_topics(),
            final(self).spec_links() == old(self).spec_links(),
            final(self).spec_messages() == old(self).spec_messages(),
            final(self).spec_next_id() == old(self).spec_next_id(),
    {
        self.drop_callback(token.as_str());
        let ghost mid = self.spec_callbacks();
        let ghost t0 = token@;
        let ghost cb = callback;
        self.callbacks.push((token, callback));
        proof {
            assert(self.spec_callbacks() =~= mid.push((t0, cb)));
            lemma_callback_push(mid, t0, cb);
        }
    }

    /// Resolves a token and burns it: the callback comes out once, the
    /// entry is gone, and no other token moves.
    pub fn get_callback(&mut self, token: &str) -> (r: Option<CommandCallback>)
        requires
            old(self).wf(),
        ensures
            final(self).wf(),
            final(self).spec_admin_id() == old(self).spec_admin_id(),
            r == spec_callback_lookup(old(self).spec_callbacks(), token@),
            spec_callback_lookup(final(self).spec_callbacks(), token@) is None,
            forall|t: Seq<char>|
                t != token@ ==> spec_callback_lookup(final(self).spec_callbacks(), t)
                    == spec_callback_lookup(old(self).spec_callbacks(), t),
            final(self).spec_remote_chats() == old(self).spec_remote_chats(),
            final(self).spec_archives() == old(self).spec_archives(),
            final(self).spec_topics() == old(self).spec_topics(),
            final(self).spec_links() == old(self).spec_links(),
            final(self).spec_messages() == old(self).spec_messages(),
            final(self).spec_next_id() == old(self).spec_next_id(),
    {
        let n = self.callbacks.len();
        let mut i: usize = 0;
        while i < n
            invariant
                0 <= i <= n,
                n == self.callbacks@.len(),
                self == old(self),
                old(self).wf(),
                forall|j: int| 0 <= j < i ==> (#[trigger] self.callbacks@[j]).0@ != token@,
            decreases n - i,
        {
            if str_eq(self.callbacks[i].0.as_str(), token) {
                let found = self.callbacks[i].1.duplicate();
                let ghost frozen = self.callbacks@[i as int].1;
                proof {
                    lemma_callback_remove(self.spec_callbacks(), i as int, token@);
                }
                let ghost pre = self.spec_callbacks();
                self.callbacks.remove(i);
                proof {
                    assert(self.spec_callbacks() =~= pre.remove(i as int));
                }
                return Some(found);
            }
            i = i + 1;
        }
        proof {
            lemma_callback_absent(self.spec_callbacks(), token@);
        }
        None
    }

    /// Removes a token without answering, used when a token is replaced.
    fn drop_callback(&mut self, token: &str)
        requires
            old(self).wf(),
        ensures
            final(self).wf(),
            final(self).spec_admin_id() == old(self).spec_admin_id(),
            spec_callback_lookup(final(self).spec_callbacks(), token@) is None,
            forall|t: Seq<char>|
                t != token@ ==> spec_callback_lookup(final(self).spec_callbacks(), t)
                    == spec_callback_lookup(old(self).spec_callbacks(), t),
            final(self).spec_remote_chats() == old(self).spec_remote_chats(),
            final(self).spec_archives() == old(self).spec_archives(),
            final(self).spec_topics() == old(self).spec_topics(),
            final(self).spec_links() == old(self).spec_links(),
            final(self).spec_messages() == old(self).spec_messages(),
            final(self).spec_next_id() == old(self).spec_next_id(),
    {
        self.get_callback(token);
    }
}


// ---------- media plumbing ----------

/// The base64 text of a byte string; standard alphabet, padded.
pub uninterp spec fn b64_of(b: Seq<u8>) -> Seq<char>;

/// The bytes a base64 text decodes to, when it decodes at all.
pub uninterp spec fn b64_dec_of(s: Seq<char>) -> Seq<u8>;

/// Whether a text is valid base64 at all: decoding succeeds exactly on
/// these texts, a property of the text alone.
pub uninterp spec fn b64_decodes(s: Seq<char>) -> bool;

/// Relies on base64's standard-alphabet encoder: the encoding depends on
/// the bytes alone, and no bytes encode to the empty string but the
/// empty ones.
#[verifier::external_body]
pub fn base64_encode(data: &Vec<u8>) -> (r: String)
    ensures
        r@ == b64_of(data@),
        data@.len() == 0 ==> r@.len() == 0,
{
    base64::Engine::encode(&base64::engine::general_purpose::STANDARD, data)
}

/// Relies on base64's standard-alphabet decoder: whether a text decodes
/// and what it decodes to both depend on the text alone; invalid text is
/// an error.
#[verifier::external_body]
pub fn base64_decode(data: &str) -> (r: Result<Vec<u8>, ()>)
    ensures
        r is Ok <==> b64_decodes(data@),
        r matches Ok(b) ==> b@ == b64_dec_of(data@),
{
    match base64::Engine::decode(&base64::engine::general_purpose::STANDARD, data) {
        Ok(v) => Ok(v),
        Err(_) => Err(()),
    }
}

/// The file kind content sniffing detects: extension and MIME type, a
/// function of the bytes alone.
pub uninterp spec fn sniffed_kind(b: Seq<u8>) -> Option<(Seq<char>, Seq<char>)>;

/// Relies on infer's magic-number matcher.
#[verifier::external_body]
pub fn sniff_kind(data: &Vec<u8>) -> (r: Option<(String, String)>)
    ensures
        match r {
            Some(k) => sniffed_kind(data@) == Some((k.0@, k.1@)),
            None => sniffed_kind(data@) is None,
        },
{
    infer::get(data).map(|t| (t.extension().to_string(), t.mime_type().to_string()))
}

/// The filename extensions registered for a MIME type, a fixed table.
pub uninterp spec fn mime_extensions(mime: Seq<char>) -> Option<Seq<Seq<char>>>;

/// Relies on mime_guess's extension table.
#[verifier::external_body]
pub fn mime_guess_extensions(mime: &str) -> (r: Option<Vec<String>>)
    ensures
        match r {
            Some(v) => mime_extensions(mime@) == Some(Seq::new(v@.len(), |i: int| v@[i]@)),
            None => mime_extensions(mime@) is None,
        },
{
    mime_guess::get_mime_extensions_str(mime).map(
        |exts| exts.iter().map(|s| (*s).to_string()).collect(),
    )
}

/// The `base64://` payload carried by outbound media segments.
pub fn generate_file_base64(data: &Vec<u8>) -> (r: String)
    ensures
        r@ == "base64://"@ + b64_of(data@),
{
    let mut r = "base64://".to_owned();
    let enc = base64_encode(data);
    r.append(enc.as_str());
    proof {
        assert(r@ =~= "base64://"@ + b64_of(data@));
    }
    r
}

/// The bytes an adapter inlined into a file-info response: the `base64`
/// field decoded. Success is owed exactly when the field is present and
/// holds valid base64.
pub fn extract_file_payload(info: &crate::onebot::protocol::response::FileInfo) -> (r: Result<
    (String, Vec<u8>),
    (),
>)
    ensures
        r is Ok <==> (info.base64 matches Some(b) && b64_decodes(b@)),
        r matches Ok(p) ==> info.base64 matches Some(b) && p.0@ == info.file_name@ && p.1@
            == b64_dec_of(b@),
{
    match &info.base64 {
        Some(encoded) => {
            match base64_decode(encoded.as_str()) {
                Ok(bytes) => Ok((info.file_name.clone(), bytes)),
                Err(()) => Err(()),
            }
        },
        None => Err(()),
    }
}

// ---------- filename fixing ----------

/// Position `p` starts a filename extension: a dot that is neither the
/// first character of the last path component nor followed by another
/// dot or separator.
pub open spec fn is_ext_start(s: Seq<char>, p: int) -> bool {
    0 < p < s.len() && s[p] == '.' && s[p - 1] != '/' && (forall|j: int|
        p < j < s.len() ==> s[j] != '.' && s[j] != '/')
}

/// Extension starts are unique: both point at the last dot.
pub proof fn lemma_ext_start_unique(s: Seq<char>, p1: int, p2: int)
    requires
        is_ext_start(s, p1),
        is_ext_start(s, p2),
    ensures
        p1 == p2,
{
    if p1 < p2 {
        assert(s[p2] == '.');
    } else if p2 < p1 {
        assert(s[p1] == '.');
    }
}

/// Gives a filename the sniffed extension: an existing extension that
/// already matches case-insensitively is kept, any other is replaced,
/// and a name without one gets it appended.
pub fn fix_filename(filename: &str, ext: &str) -> (r: Option<String>)
    ensures
        r is Some,
        ({
            let name = filename@;
            match r {
                Some(out) => {
                    if exists|p: int| is_ext_start(name, p) {
                        let p = choose|p: int| is_ext_start(name, p);
                        if crate::text::spec_eq_ignore_ascii_case(name.skip(p + 1), ext@) {
                            out@ == name
                        } else {
                            out@ == name.take(p + 1) + ext@
                        }
                    } else {
                        out@ == name + "."@ + ext@
                    }
                },
                None => false,
            }
        }),
{
    let n = filename.unicode_len();
    let dot = crate::text::rfind_char(filename, '.');
    let slash = crate::text::rfind_char(filename, '/');
    let ext_start: Option<usize> = match dot {
        Some(p) => {
            let after_sep = match slash {
                Some(sl) => sl < p,
                None => true,
            };
            let not_component_head = if p > 0 {
                filename.get_char(p - 1) != '/'
            } else {
                false
            };
            if after_sep && not_component_head {
                Some(p)
            } else {
                None
            }
        },
        None => None,
    };
    match ext_start {
        Some(p) => {
            proof {
                assert(is_ext_start(filename@, p as int));
                lemma_ext_start_unique(
                    filename@,
                    p as int,
                    choose|q: int| is_ext_start(filename@, q),
                );
            }
            let current = filename.substring_char(p + 1, n);
            assert(current@ =~= filename@.skip(p as int + 1));
            if crate::text::eq_ignore_ascii_case(current, ext) {
                Some(filename.to_owned())
            } else {
                let mut out = filename.substring_char(0, p + 1).to_owned();
                out.append(ext);
                proof {
                    assert(out@ =~= filename@.take(p as int + 1) + ext@);
                }
                Some(out)
            }
        },
        None => {
            proof {
                if exists|q: int| is_ext_start(filename@, q) {
                    let q = choose|q: int| is_ext_start(filename@, q);
                    match dot {
                        Some(p) => {
                            assert(filename@[q] == '.');
                        },
                        None => {
                            assert(filename@[q] == '.');
                        },
                    }
                }
            }
            let mut out = filename.to_owned();
            out.append(".");
            out.append(ext);
            proof {
                assert(out@ =~= filename@ + "."@ + ext@);
            }
            Some(out)
        },
    }
}

// ---------- transcode and download decisions ----------

/// How media bytes are converted before the Telegram upload, per the
/// sticker and voice heuristics.
#[derive(Debug, Clone, Copy, PartialEq, Eq, Structural)]
pub enum TranscodePlan {
    /// An animated sticker source: GIF to WebM.
    GifToWebm,
    /// A still sticker source: image to WebP.
    ImageToWebp,
    /// A QQ voice note: WAV to Opus-in-Ogg.
    WavToOgg,
    /// Anything else keeps its original bytes.
    Keep,
}

pub fn mime_is_gif(mime: &str) -> (r: bool)
    ensures
        r == (mime@ == "image/gif"@),
{
    crate::text::str_eq(mime, "image/gif")
}

/// Decides the conversion for one downloaded segment: sticker-classified
/// images convert to WebM when they sniff as GIF and to WebP otherwise;
/// QQ voice notes convert to Ogg; everything else stays.
pub fn plan_transcode(segment: &crate::onebot::protocol::segment::Segment, platform: crate::common::Platform, is_gif: bool) -> (r: TranscodePlan)
    ensures
        r == (if crate::telegram::onebot_helper::spec_is_sticker(segment@) {
            if is_gif {
                TranscodePlan::GifToWebm
            } else {
                TranscodePlan::ImageToWebp
            }
        } else if segment@ is Record && platform == crate::common::Platform::QQ {
            TranscodePlan::WavToOgg
        } else {
            TranscodePlan::Keep
        }),
{
    if crate::telegram::onebot_helper::is_sticker(segment) {
        if is_gif {
            TranscodePlan::GifToWebm
        } else {
            TranscodePlan::ImageToWebp
        }
    } else {
        match segment {
            crate::onebot::protocol::segment::Segment::Record(_) => {
                match platform {
                    crate::common::Platform::QQ => TranscodePlan::WavToOgg,
                    _ => TranscodePlan::Keep,
                }
            },
            _ => TranscodePlan::Keep,
        }
    }
}

/// Where a segment's bytes come from.
#[derive(Debug)]
pub enum DownloadPlan {
    /// The adapter's `get_image` action.
    GetImage { file: String, file_id: String, emoji_id: Option<String> },
    /// A plain HTTP fetch of the segment's URL.
    FetchUrl { url: String },
    /// The adapter's `get_record` action with this output format.
    GetRecord { file: String, out_format: String },
    /// The adapter's `get_file` action.
    GetFile { file: String, file_id: String },
    /// Nothing downloadable.
    Unsupported,
}

/// Decides the download source for one segment: emoji images and market
/// faces with an HTTP URL are fetched directly, QQ voice notes ask for
/// WAV and others for Ogg, videos and files go through the file action.
pub fn plan_download(segment: &crate::onebot::protocol::segment::Segment, platform: crate::common::Platform) -> (r: DownloadPlan)
    ensures
        match segment@ {
            crate::onebot::protocol::segment::SegView::Image { file, url, emoji_id, .. } => {
                if emoji_id is Some && (url matches Some(u) && crate::text::has_prefix(u, "http"@)) {
                    r matches DownloadPlan::FetchUrl { url: target } && Some(target@) == url
                } else {
                    r matches DownloadPlan::GetImage { file: f, file_id, emoji_id: e } && f@
                        == file && file_id@ == file && (match (e, emoji_id) {
                        (Some(a), Some(b)) => a@ == b,
                        (None, None) => true,
                        _ => false,
                    })
                }
            },
            crate::onebot::protocol::segment::SegView::MarketFace { emoji_id, url } => {
                if url matches Some(u) && crate::text::has_prefix(u, "http"@) {
                    r matches DownloadPlan::FetchUrl { url: target } && Some(target@) == url
                } else {
                    r matches DownloadPlan::GetImage { file: f, file_id, emoji_id: e } && f@
                        == emoji_id && file_id@ == emoji_id && (e matches Some(x) && x@
                        == emoji_id)
                }
            },
            crate::onebot::protocol::segment::SegView::Record { file, .. } => r matches DownloadPlan::GetRecord {
                file: f,
                out_format,
            } && f@ == file && out_format@ == (if platform == crate::common::Platform::QQ {
                "wav"@
            } else {
                "ogg"@
            }),
            crate::onebot::protocol::segment::SegView::Video { file, .. } => r matches DownloadPlan::GetFile {
                file: f,
                file_id,
            } && f@ == file && file_id@ == file,
            crate::onebot::protocol::segment::SegView::File { file, .. } => r matches DownloadPlan::GetFile {
                file: f,
                file_id,
            } && f@ == file && file_id@ == file,
            _ => r is Unsupported,
        },
{
    match segment {
        crate::onebot::protocol::segment::Segment::Image(seg) => {
            let mut fetch: Option<String> = None;
            if seg.emoji_id.is_some() {
                match &seg.url {
                    Some(u) => {
                        if crate::text::starts_with(u.as_str(), "http") {
                            fetch = Some(u.clone());
                        }
                    },
                    None => {
                    },
                }
            }
            match fetch {
                Some(url) => DownloadPlan::FetchUrl { url },
                None => DownloadPlan::GetImage {
                    file: seg.file.clone(),
                    file_id: seg.file.clone(),
                    emoji_id: (match &seg.emoji_id {
                        Some(e) => Some(e.clone()),
                        None => None,
                    }),
                },
            }
        },
        crate::onebot::protocol::segment::Segment::MarketFace(seg) => {
            let mut fetch: Option<String> = None;
            match &seg.url {
                Some(u) => {
                    if crate::text::starts_with(u.as_str(), "http") {
                        fetch = Some(u.clone());
                    }
                },
                None => {
                },
            }
            match fetch {
                Some(url) => DownloadPlan::FetchUrl { url },
                None => DownloadPlan::GetImage {
                    file: seg.emoji_id.clone(),
                    file_id: seg.emoji_id.clone(),
                    emoji_id: Some(seg.emoji_id.clone()),
                },
            }
        },
        crate::onebot::protocol::segment::Segment::Record(seg) => {
            let out_format = match platform {
                crate::common::Platform::QQ => "wav".to_owned(),
                _ => "ogg".to_owned(),
            };
            DownloadPlan::GetRecord { file: seg.file.clone(), out_format }
        },
        crate::onebot::protocol::segment::Segment::Video(seg) => DownloadPlan::GetFile {
            file: seg.file.clone(),
            file_id: seg.file.clone(),
        },
        crate::onebot::protocol::segment::Segment::File(seg) => DownloadPlan::GetFile {
            file: seg.file.clone(),
            file_id: seg.file.clone(),
        },
        _ => DownloadPlan::Unsupported,
    }
}


// ---------- downloaded-file naming ----------

pub open spec fn is_hex_byte(b: u8) -> bool {
    (48 <= b && b <= 57) || (97 <= b && b <= 102) || (65 <= b && b <= 70)
}

pub open spec fn hex_byte_val(b: u8) -> nat
    recommends
        is_hex_byte(b),
{
    if 48 <= b && b <= 57 {
        (b - 48) as nat
    } else if 97 <= b && b <= 102 {
        (b - 87) as nat
    } else {
        (b - 55) as nat
    }
}

/// Percent-decoding over bytes: a `%` followed by two hex digits becomes
/// one byte, anything else passes through.
pub open spec fn spec_percent_decode(s: Seq<u8>) -> Seq<u8>
    decreases s.len(),
{
    if s.len() == 0 {
        Seq::empty()
    } else if s[0] == 37 && s.len() >= 3 && is_hex_byte(s[1]) && is_hex_byte(s[2]) {
        seq![(hex_byte_val(s[1]) * 16 + hex_byte_val(s[2])) as u8] + spec_percent_decode(s.skip(3))
    } else {
        seq![s[0]] + spec_percent_decode(s.skip(1))
    }
}

fn hex_byte(b: u8) -> (r: Option<u8>)
    ensures
        match r {
            Some(v) => is_hex_byte(b) && v as nat == hex_byte_val(b) && v < 16,
            None => !is_hex_byte(b),
        },
{
    if 48 <= b && b <= 57 {
        Some(b - 48)
    } else if 97 <= b && b <= 102 {
        Some(b - 87)
    } else if 65 <= b && b <= 70 {
        Some(b - 55)
    } else {
        None
    }
}

pub fn percent_decode(s: &Vec<u8>) -> (r: Vec<u8>)
    ensures
        r@ == spec_percent_decode(s@),
{
    let n = s.len();
    let mut out: Vec<u8> = Vec::new();
    let mut i: usize = 0;
    proof {
        assert(s@.skip(0) =~= s@);
        assert(out@ + spec_percent_decode(s@) =~= spec_percent_decode(s@));
    }
    while i < n
        invariant
            0 <= i <= n,
            n == s@.len(),
            spec_percent_decode(s@) == out@ + spec_percent_decode(s@.skip(i as int)),
        decreases n - i,
    {
        let ghost pre = out@;
        let ghost tail = s@.skip(i as int);
        let mut decoded: Option<u8> = None;
        if s[i] == 37 && n - i > 2 {
            match (hex_byte(s[i + 1]), hex_byte(s[i + 2])) {
                (Some(hi), Some(lo)) => {
                    decoded = Some(hi * 16 + lo);
                },
                _ => {
                },
            }
        }
        proof {
            assert(tail[0] == s@[i as int]);
            if i + 2 < n {
                assert(tail[1] == s@[i as int + 1]);
                assert(tail[2] == s@[i as int + 2]);
            }
        }
        match decoded {
            Some(b) => {
                out.push(b);
                proof {
                    assert(tail.skip(3) =~= s@.skip(i as int + 3));
                    assert(out@ =~= pre + seq![b]);
                    assert(pre + (seq![b] + spec_percent_decode(s@.skip(i as int + 3))) =~= (pre
                        + seq![b]) + spec_percent_decode(s@.skip(i as int + 3)));
                }
                i = i + 3;
            },
            None => {
                let c = s[i];
                out.push(c);
                proof {
                    assert(tail.skip(1) =~= s@.skip(i as int + 1));
                    assert(out@ =~= pre + seq![c]);
                    assert(pre + (seq![c] + spec_percent_decode(s@.skip(i as int + 1))) =~= (pre
                        + seq![c]) + spec_percent_decode(s@.skip(i as int + 1)));
                }
                i = i + 1;
            },
        }
    }
    proof {
        assert(s@.skip(n as int) =~= Seq::<u8>::empty());
    }
    out
}

/// The text valid UTF-8 bytes decode to, a function of the bytes alone.
pub uninterp spec fn utf8_text_of(b: Seq<u8>) -> Option<Seq<char>>;

/// Relies on String::from_utf8: valid bytes decode to their text,
/// invalid bytes are refused.
#[verifier::external_body]
pub fn utf8_to_string(bytes: Vec<u8>) -> (r: Option<String>)
    ensures
        match r {
            Some(s) => utf8_text_of(bytes@) == Some(s@),
            None => utf8_text_of(bytes@) is None,
        },
{
    String::from_utf8(bytes).ok()
}

/// The bytes of an all-ASCII text, character for character.
pub open spec fn ascii_bytes_of(s: Seq<char>) -> Seq<u8> {
    Seq::new(s.len(), |i: int| s[i] as u8)
}

pub open spec fn all_ascii(s: Seq<char>) -> bool {
    forall|i: int| 0 <= i < s.len() ==> ((#[trigger] s[i]) as int) < 128
}

fn ascii_bytes(s: &str) -> (r: Option<Vec<u8>>)
    ensures
        match r {
            Some(b) => all_ascii(s@) && b@ == ascii_bytes_of(s@),
            None => !all_ascii(s@),
        },
{
    let n = s.unicode_len();
    let mut out: Vec<u8> = Vec::new();
    let mut i: usize = 0;
    while i < n
        invariant
            0 <= i <= n,
            n == s@.len(),
            out@.len() == i,
            forall|j: int| 0 <= j < i ==> ((#[trigger] s@[j]) as int) < 128 && out@[j] == s@[j] as u8,
        decreases n - i,
    {
        let c = s.get_char(i);
        let code = c as u32;
        if code >= 128 {
            return None;
        }
        out.push(code as u8);
        i = i + 1;
    }
    proof {
        assert(out@ =~= ascii_bytes_of(s@));
    }
    Some(out)
}

// ---------- the content-disposition scan ----------

/// The value of an RFC 5987 `filename*=` directive: the text after the
/// second apostrophe, percent-decoded as UTF-8. A directive with fewer
/// than two apostrophes has no value; one carrying non-ASCII text is
/// refused outright.
pub open spec fn spec_rfc5987_value(p: Seq<char>) -> Option<Option<Seq<char>>> {
    let after_eq = p.skip(10);
    match crate::common::first_pos(after_eq, '\'') {
        None => None,
        Some(q1) => {
            let rest = after_eq.skip(q1 + 1);
            match crate::common::first_pos(rest, '\'') {
                None => None,
                Some(q2) => {
                    let encoded = rest.skip(q2 + 1);
                    if all_ascii(encoded) {
                        Some(utf8_text_of(spec_percent_decode(ascii_bytes_of(encoded))))
                    } else {
                        Some(None)
                    }
                },
            }
        },
    }
}

/// The value of a plain `filename=` directive: the text between the
/// first and second equals sign, stripped of double quotes at both ends.
pub open spec fn spec_plain_filename_value(p: Seq<char>) -> Seq<char> {
    let after = p.skip(crate::common::first_pos(p, '=').unwrap() + 1);
    let piece = match crate::common::first_pos(after, '=') {
        Some(e2) => after.take(e2),
        None => after,
    };
    spec_strip_quotes(piece)
}

pub open spec fn spec_strip_quotes(s: Seq<char>) -> Seq<char>
    decreases s.len(),
{
    if s.len() > 0 && s[0] == '"' {
        spec_strip_quotes(s.skip(1))
    } else if s.len() > 0 && s.last() == '"' {
        spec_strip_quotes(s.drop_last())
    } else {
        s
    }
}

/// One pass over the semicolon-separated directives, carrying the last
/// plain filename seen. An RFC 5987 directive ends the scan with its
/// value; a malformed one fails the whole scan, as the source does.
pub open spec fn spec_disposition_scan(s: Seq<char>, acc: Option<Seq<char>>) -> Option<Seq<char>>
    decreases s.len(),
{
    proof {
        crate::common::lemma_first_pos_range(s, ';');
    }
    let (part, rest, more) = (match crate::common::first_pos(s, ';') {
        Some(i) => (s.take(i), s.skip(i + 1), true),
        None => (s, Seq::<char>::empty(), false),
    });
    let p = crate::text::spec_trim(part);
    let acc2 = (if crate::text::has_prefix(p, "filename*="@) {
        match spec_rfc5987_value(p) {
            None => Option::<Option<Seq<char>>>::None,
            Some(v) => Some(v),
        }
    } else if crate::text::has_prefix(p, "filename="@) {
        Some(Some(spec_plain_filename_value(p)))
    } else {
        Some(acc)
    });
    match acc2 {
        None => None,
        Some(next) => {
            if crate::text::has_prefix(p, "filename*="@) {
                next
            } else if more {
                spec_disposition_scan(rest, next)
            } else {
                next
            }
        },
    }
}

fn strip_quotes(s: &str) -> (r: String)
    ensures
        r@ == spec_strip_quotes(s@),
{
    let n = s.unicode_len();
    let mut a: usize = 0;
    proof {
        assert(s@.skip(0) =~= s@);
    }
    while a < n && s.get_char(a) == '"'
        invariant
            0 <= a <= n,
            n == s@.len(),
            spec_strip_quotes(s@) == spec_strip_quotes(s@.skip(a as int)),
        decreases n - a,
    {
        proof {
            assert(s@.skip(a as int)[0] == s@[a as int]);
            assert(s@.skip(a as int).skip(1) =~= s@.skip(a as int + 1));
        }
        a = a + 1;
    }
    let mut b: usize = n;
    proof {
        assert(s@.skip(a as int).take(n as int - a as int) =~= s@.skip(a as int));
    }
    while b > a && s.get_char(b - 1) == '"'
        invariant
            a <= b <= n,
            n == s@.len(),
            spec_strip_quotes(s@) == spec_strip_quotes(s@.skip(a as int).take(b as int - a as int)),
            a < n ==> s@[a as int] != '"',
            a == n ==> b == a,
        decreases b,
    {
        proof {
            let cur = s@.skip(a as int).take(b as int - a as int);
            assert(cur[0] == s@[a as int]);
            assert(cur.last() == s@[b as int - 1]);
            assert(cur.drop_last() =~= s@.skip(a as int).take(b as int - 1 - a as int));
        }
        b = b - 1;
    }
    proof {
        let cur = s@.skip(a as int).take(b as int - a as int);
        if b > a {
            assert(cur[0] == s@[a as int]);
            assert(cur.last() == s@[b as int - 1]);
            assert(spec_strip_quotes(cur) == cur);
        } else {
            assert(cur =~= Seq::<char>::empty());
        }
        if a < n {
        } else {
            assert(s@.skip(a as int) =~= Seq::<char>::empty());
        }
    }
    let out = s.substring_char(a, b);
    proof {
        assert(out@ =~= s@.skip(a as int).take(b as int - a as int));
    }
    out.to_owned()
}

fn rfc5987_value(p: &str) -> (r: Option<Option<String>>)
    requires
        crate::text::has_prefix(p@, "filename*="@),
    ensures
        match r {
            Some(x) => spec_rfc5987_value(p@) == Some(spec_opt_text(x)),
            None => spec_rfc5987_value(p@) is None,
        },
{
    let n = p.unicode_len();
    let prefix_len: usize = 10;
    proof {
        reveal_strlit("filename*=");
    }
    let after_eq = p.substring_char(prefix_len, n);
    proof {
        assert(after_eq@ =~= p@.skip(10));
    }
    let q1 = match crate::text::find_char(after_eq, '\'') {
        Some(q1) => q1,
        None => {
            proof {
                crate::common::lemma_first_pos_none(after_eq@, '\'');
            }
            return None;
        },
    };
    proof {
        crate::common::lemma_first_pos_some(after_eq@, '\'', q1 as int);
    }
    let m = after_eq.unicode_len();
    let rest = after_eq.substring_char(q1 + 1, m);
    proof {
        assert(rest@ =~= after_eq@.skip(q1 as int + 1));
    }
    let q2 = match crate::text::find_char(rest, '\'') {
        Some(q2) => q2,
        None => {
            proof {
                crate::common::lemma_first_pos_none(rest@, '\'');
            }
            return None;
        },
    };
    proof {
        crate::common::lemma_first_pos_some(rest@, '\'', q2 as int);
    }
    let k = rest.unicode_len();
    let encoded = rest.substring_char(q2 + 1, k);
    proof {
        assert(encoded@ =~= rest@.skip(q2 as int + 1));
    }
    match ascii_bytes(encoded) {
        Some(bytes) => {
            let decoded = percent_decode(&bytes);
            Some(utf8_to_string(decoded))
        },
        None => Some(None),
    }
}

fn plain_filename_value(p: &str) -> (r: String)
    requires
        crate::text::has_prefix(p@, "filename="@),
    ensures
        r@ == spec_plain_filename_value(p@),
{
    proof {
        reveal_strlit("filename=");
        assert forall|j: int| 0 <= j < 9 implies p@[j] == "filename="@[j] by {
            assert(p@.take(9)[j] == p@[j]);
        }
        assert(p@[8] == '=');
        assert forall|j: int| 0 <= j < 8 implies p@[j] != '=' by {
            assert(p@[j] == "filename="@[j]);
        }
        crate::common::lemma_first_pos_some(p@, '=', 8);
    }
    let n = p.unicode_len();
    let after = p.substring_char(9, n);
    proof {
        assert(after@ =~= p@.skip(9));
    }
    let piece = match crate::text::find_char(after, '=') {
        Some(e2) => {
            proof {
                crate::common::lemma_first_pos_some(after@, '=', e2 as int);
            }
            let cut = after.substring_char(0, e2);
            proof {
                assert(cut@ =~= after@.take(e2 as int));
            }
            cut.to_owned()
        },
        None => {
            proof {
                crate::common::lemma_first_pos_none(after@, '=');
            }
            after.to_owned()
        },
    };
    strip_quotes(piece.as_str())
}

/// The filename a `Content-Disposition` header names: the RFC 5987
/// `filename*=` directive when present, else the last plain `filename=`
/// directive.
pub fn extract_filename_from_headers(content_disposition: &str) -> (r: Option<String>)
    ensures
        spec_disposition_scan(content_disposition@, None) == spec_opt_text(r),
{
    let mut acc: Option<String> = None;
    let mut remaining = content_disposition.to_owned();
    let ghost whole = content_disposition@;
    proof {
        assert(spec_disposition_scan(whole, spec_opt_text(acc)) == spec_disposition_scan(
            remaining@,
            spec_opt_text(acc),
        ));
    }
    loop
        invariant
            whole == content_disposition@,
            spec_disposition_scan(whole, None) == spec_disposition_scan(
                remaining@,
                spec_opt_text(acc),
            ),
        decreases remaining@.len(),
    {
        let (part, rest, more) = match crate::text::find_char(remaining.as_str(), ';') {
            Some(i) => {
                proof {
                    crate::common::lemma_first_pos_some(remaining@, ';', i as int);
                }
                let n = remaining.unicode_len();
                let part = remaining.as_str().substring_char(0, i).to_owned();
                let rest = remaining.as_str().substring_char(i + 1, n).to_owned();
                proof {
                    assert(part@ =~= remaining@.take(i as int));
                    assert(rest@ =~= remaining@.skip(i as int + 1));
                }
                (part, rest, true)
            },
            None => {
                proof {
                    crate::common::lemma_first_pos_none(remaining@, ';');
                }
                (remaining.as_str().to_owned(), String::new(), false)
            },
        };
        let p = crate::text::trim(part.as_str());
        if crate::text::starts_with(p.as_str(), "filename*=") {
            proof {
                assert(spec_disposition_scan(remaining@, spec_opt_text(acc)) == (
                match spec_rfc5987_value(p@) {
                    None => None::<Seq<char>>,
                    Some(x) => x,
                }));
            }
            match rfc5987_value(p.as_str()) {
                Some(v) => {
                    proof {
                        assert(spec_disposition_scan(content_disposition@, None)
                            == spec_opt_text(v));
                    }
                    return v;
                },
                None => {
                    proof {
                        assert(spec_rfc5987_value(p@) is None);
                        assert(spec_disposition_scan(content_disposition@, None)
                            == spec_opt_text(None::<String>));
                    }
                    return None;
                },
            }
        } else if crate::text::starts_with(p.as_str(), "filename=") {
            let value = plain_filename_value(p.as_str());
            proof {
                if more {
                    assert(spec_disposition_scan(remaining@, spec_opt_text(acc))
                        == spec_disposition_scan(rest@, Some(value@)));
                } else {
                    assert(spec_disposition_scan(remaining@, spec_opt_text(acc)) == Some(
                        value@,
                    ));
                }
            }
            acc = Some(value);
        } else {
            proof {
                if more {
                    assert(spec_disposition_scan(remaining@, spec_opt_text(acc))
                        == spec_disposition_scan(rest@, spec_opt_text(acc)));
                } else {
                    assert(spec_disposition_scan(remaining@, spec_opt_text(acc))
                        == spec_opt_text(acc));
                }
            }
        }
        if !more {
            proof {
                assert(spec_disposition_scan(content_disposition@, None) == spec_opt_text(acc));
            }
            return acc;
        }
        remaining = rest;
    }
}

/// The view of an optional filename accumulator.
pub open spec fn spec_opt_text(o: Option<String>) -> Option<Seq<char>> {
    match o {
        Some(s) => Some(s@),
        None => None,
    }
}

// ---------- fallback names ----------

/// The last non-empty `/`-separated segment of a URL path.
pub open spec fn spec_last_path_segment(path: Seq<char>) -> Option<Seq<char>>
    decreases path.len(),
{
    proof {
        crate::common::lemma_first_pos_range(path, '/');
    }
    match crate::common::first_pos(path, '/') {
        None => if path.len() > 0 {
            Some(path)
        } else {
            None
        },
        Some(i) => match spec_last_path_segment(path.skip(i + 1)) {
            Some(seg) => Some(seg),
            None => if i > 0 {
                Some(path.take(i))
            } else {
                None
            },
        },
    }
}

pub fn extract_filename_from_url(path: &str) -> (r: Option<String>)
    ensures
        match r {
            Some(seg) => spec_last_path_segment(path@) == Some(seg@),
            None => spec_last_path_segment(path@) is None,
        },
    decreases path@.len(),
{
    match crate::text::find_char(path, '/') {
        None => {
            proof {
                crate::common::lemma_first_pos_none(path@, '/');
            }
            if path.unicode_len() > 0 {
                Some(path.to_owned())
            } else {
                None
            }
        },
        Some(i) => {
            proof {
                crate::common::lemma_first_pos_some(path@, '/', i as int);
            }
            let n = path.unicode_len();
            let rest = path.substring_char(i + 1, n);
            proof {
                assert(rest@ =~= path@.skip(i as int + 1));
            }
            match extract_filename_from_url(rest) {
                Some(seg) => Some(seg),
                None => {
                    if i > 0 {
                        let head = path.substring_char(0, i);
                        proof {
                            assert(head@ =~= path@.take(i as int));
                        }
                        Some(head.to_owned())
                    } else {
                        None
                    }
                },
            }
        },
    }
}

/// The first run of non-semicolon characters of a MIME header, trimmed:
/// `text/html; charset=utf-8` names `text/html`.
pub open spec fn spec_mime_of_content_type(s: Seq<char>) -> Seq<char>
    decreases s.len(),
{
    let t = crate::text::spec_trim(s);
    if t.len() > 0 && t[0] == ';' {
        proof {
            crate::text::lemma_trim_shorter(s);
        }
        spec_mime_of_content_type(t.skip(1))
    } else {
        match crate::common::first_pos(t, ';') {
            Some(i) => crate::text::spec_trim(t.take(i)),
            None => t,
        }
    }
}

pub fn mime_of_content_type(s: &str) -> (r: String)
    ensures
        r@ == spec_mime_of_content_type(s@),
    decreases s@.len(),
{
    let t = crate::text::trim(s);
    let n = t.unicode_len();
    if n > 0 && t.as_str().get_char(0) == ';' {
        let rest = t.as_str().substring_char(1, n);
        proof {
            assert(rest@ =~= t@.skip(1));
        }
        proof {
            crate::text::lemma_trim_shorter(s@);
        }
        mime_of_content_type(rest)
    } else {
        match crate::text::find_char(t.as_str(), ';') {
            Some(i) => {
                proof {
                    crate::common::lemma_first_pos_some(t@, ';', i as int);
                }
                let head = t.as_str().substring_char(0, i);
                proof {
                    assert(head@ =~= t@.take(i as int));
                }
                crate::text::trim(head)
            },
            None => {
                proof {
                    crate::common::lemma_first_pos_none(t@, ';');
                }
                t
            },
        }
    }
}

/// The extensions registered for a content type, after the parameters
/// are cut away; an unknown type has none.
pub fn guess_exts(content_type: &str) -> (r: Vec<String>)
    ensures
        ({
            let mime = spec_mime_of_content_type(content_type@);
            match mime_extensions(mime) {
                Some(exts) => Seq::new(r@.len(), |i: int| r@[i]@) == exts,
                None => r@.len() == 0,
            }
        }),
{
    let mime = mime_of_content_type(content_type);
    match mime_guess_extensions(mime.as_str()) {
        Some(exts) => exts,
        None => {
            let empty: Vec<String> = Vec::new();
            proof {
                assert(Seq::new(empty@.len(), |i: int| empty@[i]@) =~= Seq::<Seq<char>>::empty());
            }
            empty
        },
    }
}

/// The stand-in name derived from a content type: `data.<ext>`, with
/// `bin` when the type names no extension.
pub open spec fn spec_default_filename(content_type: Option<Seq<char>>) -> Seq<char> {
    "data."@ + (match content_type {
        Some(ct) => match mime_extensions(spec_mime_of_content_type(ct)) {
            Some(exts) => if exts.len() > 0 {
                exts[0]
            } else {
                "bin"@
            },
            None => "bin"@,
        },
        None => "bin"@,
    })
}

pub fn generate_default_filename(content_type: &Option<String>) -> (r: String)
    ensures
        r@ == spec_default_filename(
            (match content_type {
                Some(ct) => Some(ct@),
                None => None::<Seq<char>>,
            }),
        ),
{
    let mut r = "data.".to_owned();
    match content_type {
        Some(ct) => {
            let exts = guess_exts(ct.as_str());
            if exts.len() > 0 {
                r.append(exts[0].as_str());
                proof {
                    assert(Seq::new(exts@.len(), |i: int| exts@[i]@)[0] == exts@[0]@);
                }
            } else {
                r.append("bin");
            }
        },
        None => {
            r.append("bin");
        },
    }
    r
}

/// Filesystem-hostile characters replaced by underscores.
pub open spec fn spec_sanitize_char(c: char) -> char {
    if c == '/' || c == '\\' || c == ':' || c == '*' || c == '?' || c == '"' || c == '<' || c
        == '>' || c == '|' {
        '_'
    } else {
        c
    }
}

pub fn sanitize_filename(name: &str) -> (r: String)
    ensures
        r@ == Seq::new(name@.len(), |i: int| spec_sanitize_char(name@[i])),
{
    let n = name.unicode_len();
    let mut r = String::new();
    let mut i: usize = 0;
    while i < n
        invariant
            0 <= i <= n,
            n == name@.len(),
            r@.len() == i,
            forall|j: int| 0 <= j < i ==> #[trigger] r@[j] == spec_sanitize_char(name@[j]),
        decreases n - i,
    {
        let c = name.get_char(i);
        let mapped = if c == '/' || c == '\\' || c == ':' || c == '*' || c == '?' || c == '"' || c
            == '<' || c == '>' || c == '|' {
            '_'
        } else {
            c
        };
        crate::text::push_char(&mut r, mapped);
        i = i + 1;
    }
    proof {
        assert(r@ =~= Seq::new(name@.len(), |i: int| spec_sanitize_char(name@[i])));
    }
    r
}

/// The name an HTTP-fetched file should carry, before sanitizing: the
/// header's filename, else the URL path's last non-empty segment, else
/// the content-type stand-in.
pub open spec fn spec_fetched_filename(
    content_disposition: Option<Seq<char>>,
    url_path: Seq<char>,
    content_type: Option<Seq<char>>,
) -> Seq<char> {
    let picked = (match content_disposition {
        Some(cd) => spec_disposition_scan(cd, None),
        None => None,
    });
    match picked {
        Some(name) => name,
        None => match spec_last_path_segment(url_path) {
            Some(seg) => seg,
            None => spec_default_filename(content_type),
        },
    }
}

/// The final name of an HTTP-fetched file: the header's filename, else
/// the URL path's last segment, else the content-type stand-in, with
/// hostile characters replaced.
pub fn get_final_filename(
    content_disposition: &Option<String>,
    url_path: &str,
    content_type: &Option<String>,
) -> (r: String)
    ensures
        ({
            let name = spec_fetched_filename(
                (match content_disposition {
                    Some(cd) => Some(cd@),
                    None => None::<Seq<char>>,
                }),
                url_path@,
                (match content_type {
                    Some(ct) => Some(ct@),
                    None => None::<Seq<char>>,
                }),
            );
            r@ == Seq::new(name.len(), |i: int| spec_sanitize_char(name[i]))
        }),
{
    let name = match content_disposition {
        Some(cd) => extract_filename_from_headers(cd.as_str()),
        None => None,
    };
    let name = match name {
        Some(name) => name,
        None => match extract_filename_from_url(url_path) {
            Some(seg) => seg,
            None => generate_default_filename(content_type),
        },
    };
    sanitize_filename(name.as_str())
}

/// The base name a Telegram document starts from: its own name, or its
/// id with the MIME type's first registered extension.
pub open spec fn spec_tg_doc_base(
    doc_name: Seq<char>,
    doc_id: int,
    mime: Option<Seq<char>>,
) -> Seq<char> {
    if doc_name.len() > 0 {
        doc_name
    } else {
        match mime {
            Some(m) => match mime_extensions(spec_mime_of_content_type(m)) {
                Some(exts) => if exts.len() > 0 {
                    crate::text::dec_int(doc_id) + "."@ + exts[0]
                } else {
                    crate::text::dec_int(doc_id)
                },
                None => crate::text::dec_int(doc_id),
            },
            None => doc_name,
        }
    }
}

/// The name a document lands under, from its base and the sniffed kind:
/// a base that already has an extension stays, one without gets the
/// sniffed extension appended.
pub open spec fn spec_tg_doc_name(base: Seq<char>, sniff: Option<(Seq<char>, Seq<char>)>) -> Seq<
    char,
> {
    if exists|p: int| is_ext_start(base, p) {
        base
    } else {
        match sniff {
            Some(kind) => base + "."@ + kind.0,
            None => base,
        }
    }
}

/// The name a Telegram document lands under: the base name, with the
/// sniffed extension appended when the base still has none.
pub fn get_tg_doc_file_name(
    doc_name: &String,
    doc_id: i64,
    mime: &Option<String>,
    data: &Vec<u8>,
) -> (r: String)
    ensures
        r@ == spec_tg_doc_name(
            spec_tg_doc_base(
                doc_name@,
                doc_id as int,
                (match mime {
                    Some(m) => Some(m@),
                    None => None::<Seq<char>>,
                }),
            ),
            sniffed_kind(data@),
        ),
{
    let mut file_name = doc_name.clone();
    if file_name.as_str().is_empty() {
        match mime {
            Some(m) => {
                let exts = guess_exts(m.as_str());
                file_name = crate::text::i64_to_dec(doc_id);
                if exts.len() > 0 {
                    file_name.append(".");
                    file_name.append(exts[0].as_str());
                    proof {
                        assert(Seq::new(exts@.len(), |i: int| exts@[i]@)[0] == exts@[0]@);
                    }
                }
            },
            None => {
            },
        }
    }
    let ghost base = file_name@;
    let dot = crate::text::rfind_char(file_name.as_str(), '.');
    let slash = crate::text::rfind_char(file_name.as_str(), '/');
    let has_ext = match dot {
        Some(p) => {
            let after_sep = match slash {
                Some(sl) => sl < p,
                None => true,
            };
            let not_component_head = if p > 0 {
                file_name.as_str().get_char(p - 1) != '/'
            } else {
                false
            };
            after_sep && not_component_head
        },
        None => false,
    };
    proof {
        if has_ext {
            let p = dot.unwrap() as int;
            assert(is_ext_start(base, p));
        } else {
            if exists|p: int| is_ext_start(base, p) {
                let p = choose|p: int| is_ext_start(base, p);
                assert(base[p] == '.');
            }
        }
    }
    if !has_ext {
        match sniff_kind(data) {
            Some(kind) => {
                file_name.append(".");
                file_name.append(kind.0.as_str());
                proof {
                    assert(file_name@ =~= base + "."@ + kind.0@);
                }
            },
            None => {
            },
        }
    }
    file_name
}


// ---------- listing queries ----------

/// The rows that a name filter keeps, in stored (id-ascending) order:
/// every row when the keyword is empty, else those whose name contains
/// the keyword, matched case-insensitively as the store's filter does.
pub open spec fn spec_link_filter(
    rows: Seq<remote_chat::Model>,
    keyword: Seq<char>,
) -> Seq<remote_chat::Model>
    decreases rows.len(),
{
    if rows.len() == 0 {
        Seq::empty()
    } else {
        spec_link_filter(rows.drop_last(), keyword) + (if keyword.len() == 0
            || crate::text::spec_contains_ci(rows.last().name@, keyword) {
            seq![rows.last()]
        } else {
            Seq::empty()
        })
    }
}

/// Every kept row is one of the scanned rows.
pub proof fn lemma_link_filter_subset(rows: Seq<remote_chat::Model>, keyword: Seq<char>)
    ensures
        forall|k: int|
            0 <= k < spec_link_filter(rows, keyword).len() ==> exists|j: int|
                0 <= j < rows.len() && #[trigger] spec_link_filter(rows, keyword)[k] == rows[j],
    decreases rows.len(),
{
    if rows.len() > 0 {
        lemma_link_filter_subset(rows.drop_last(), keyword);
        let f = spec_link_filter(rows, keyword);
        let fd = spec_link_filter(rows.drop_last(), keyword);
        assert forall|k: int| 0 <= k < f.len() implies exists|j: int|
            0 <= j < rows.len() && #[trigger] f[k] == rows[j] by {
            if k < fd.len() {
                assert(f[k] == fd[k]);
                let j = choose|j: int| 0 <= j < rows.drop_last().len() && fd[k] == rows.drop_last()[j];
                assert(rows.drop_last()[j] == rows[j]);
                assert(f[k] == rows[j]);
            } else {
                assert(f[k] == rows.last());
                assert(f[k] == rows[rows.len() - 1]);
            }
        }
    }
}

/// Filtering keeps the store's ascending id order: a kept row earlier in
/// the page has the smaller id.
pub proof fn lemma_link_filter_ordered(rows: Seq<remote_chat::Model>, keyword: Seq<char>)
    requires
        forall|i: int, j: int|
            0 <= i < j < rows.len() ==> (#[trigger] rows[i]).id < (#[trigger] rows[j]).id,
    ensures
        forall|i: int, j: int|
            0 <= i < j < spec_link_filter(rows, keyword).len() ==> (#[trigger] spec_link_filter(
                rows,
                keyword,
            )[i]).id < (#[trigger] spec_link_filter(rows, keyword)[j]).id,
    decreases rows.len(),
{
    if rows.len() > 0 {
        let init = rows.drop_last();
        assert forall|i: int, j: int|
            0 <= i < j < init.len() implies (#[trigger] init[i]).id < (#[trigger] init[j]).id by {
            assert(init[i] == rows[i] && init[j] == rows[j]);
        }
        lemma_link_filter_ordered(init, keyword);
        lemma_link_filter_subset(init, keyword);
        let f = spec_link_filter(rows, keyword);
        let fd = spec_link_filter(init, keyword);
        assert forall|i: int, j: int| 0 <= i < j < f.len() implies (#[trigger] f[i]).id < (
        #[trigger] f[j]).id by {
            if j < fd.len() {
                assert(f[i] == fd[i] && f[j] == fd[j]);
            } else {
                assert(f[j] == rows.last());
                assert(f[i] == fd[i]);
                let k = choose|k: int| 0 <= k < init.len() && fd[i] == init[k];
                assert(init[k] == rows[k]);
                assert(rows[k].id < rows[rows.len() - 1].id);
            }
        }
    }
}

impl Bridge {
    /// The remote chats a `/link` listing shows, in id order.
    pub fn filter_remote_chats(&self, keyword: &String) -> (r: Vec<remote_chat::Model>)
        ensures
            r@ == spec_link_filter(self.spec_remote_chats(), keyword@),
    {
        let n = self.remote_chats.len();
        let mut out: Vec<remote_chat::Model> = Vec::new();
        let mut i: usize = 0;
        proof {
            assert(self.spec_remote_chats().take(0) =~= Seq::<remote_chat::Model>::empty());
        }
        while i < n
            invariant
                0 <= i <= n,
                n == self.remote_chats@.len(),
                out@ == spec_link_filter(self.spec_remote_chats().take(i as int), keyword@),
            decreases n - i,
        {
            let keep = keyword.as_str().is_empty() || crate::text::contains_ci(
                self.remote_chats[i].name.as_str(),
                keyword.as_str(),
            );
            let ghost pre = out@;
            if keep {
                out.push(self.remote_chats[i].duplicate());
            }
            proof {
                let rows = self.spec_remote_chats();
                assert(rows.take(i as int + 1).drop_last() =~= rows.take(i as int));
                assert(rows.take(i as int + 1).last() == rows[i as int]);
                if keep {
                    assert(out@ =~= pre + seq![rows[i as int]]);
                } else {
                    assert(out@ =~= pre + Seq::<remote_chat::Model>::empty());
                }
            }
            i = i + 1;
        }
        proof {
            assert(self.spec_remote_chats().take(n as int) =~= self.spec_remote_chats());
        }
        out
    }

    /// The endpoints the store has seen, each once, in first-appearance
    /// order.
    pub fn distinct_endpoints(&self) -> (r: Vec<Endpoint>)
        ensures
            r@ == spec_distinct_endpoints(self.spec_remote_chats()),
    {
        let n = self.remote_chats.len();
        let mut out: Vec<Endpoint> = Vec::new();
        let mut i: usize = 0;
        proof {
            assert(self.spec_remote_chats().take(0) =~= Seq::<remote_chat::Model>::empty());
        }
        while i < n
            invariant
                0 <= i <= n,
                n == self.remote_chats@.len(),
                out@ == spec_distinct_endpoints(self.spec_remote_chats().take(i as int)),
            decreases n - i,
        {
            let mut seen = false;
            let mut j: usize = 0;
            while j < i
                invariant
                    0 <= j <= i < n,
                    n == self.remote_chats@.len(),
                    seen == exists|k: int|
                        0 <= k < j && (#[trigger] self.remote_chats@[k]).endpoint.spec_same(
                            self.remote_chats@[i as int].endpoint,
                        ),
                decreases i - j,
            {
                if self.remote_chats[j].endpoint.same(&self.remote_chats[i].endpoint) {
                    seen = true;
                }
                j = j + 1;
            }
            let ghost pre = out@;
            if !seen {
                out.push(self.remote_chats[i].endpoint.clone_endpoint());
            }
            proof {
                let rows = self.spec_remote_chats();
                let tk = rows.take(i as int + 1);
                assert(tk.drop_last() =~= rows.take(i as int));
                assert(tk.last() == rows[i as int]);
                assert forall|k: int| 0 <= k < i implies #[trigger] tk[k] == rows[k] by {
                }
                let dup = exists|j: int|
                    0 <= j < tk.len() - 1 && (#[trigger] tk[j]).endpoint.spec_same(
                        tk.last().endpoint,
                    );
                assert(dup == seen) by {
                    if seen {
                        let k = choose|k: int|
                            0 <= k < i && (#[trigger] self.remote_chats@[k]).endpoint.spec_same(
                                self.remote_chats@[i as int].endpoint,
                            );
                        assert(tk[k] == rows[k]);
                        assert(0 <= k < tk.len() - 1 && tk[k].endpoint.spec_same(
                            tk.last().endpoint,
                        ));
                    } else {
                        if dup {
                            let k = choose|k: int|
                                0 <= k < tk.len() - 1 && (#[trigger] tk[k]).endpoint.spec_same(
                                    tk.last().endpoint,
                                );
                            assert(rows[k].endpoint.spec_same(rows[i as int].endpoint));
                            assert(false);
                        }
                    }
                }
                if !seen {
                    assert(out@ =~= pre + seq![rows[i as int].endpoint]);
                } else {
                    assert(out@ =~= pre + Seq::<Endpoint>::empty());
                }
            }
            i = i + 1;
        }
        proof {
            assert(self.spec_remote_chats().take(n as int) =~= self.spec_remote_chats());
        }
        out
    }

    /// The endpoints already archived into this Telegram chat, joined as
    /// the `/archive` header shows them.
    pub fn archived_endpoints_text(&self, tg_chat_id: i64) -> (r: String)
        ensures
            r@ == spec_archive_header(self.spec_archives(), tg_chat_id),
    {
        let n = self.archives.len();
        let mut out = String::new();
        let mut i: usize = 0;
        proof {
            assert(self.spec_archives().take(0) =~= Seq::<archive::Model>::empty());
        }
        while i < n
            invariant
                0 <= i <= n,
                n == self.archives@.len(),
                out@ == spec_archive_header(self.spec_archives().take(i as int), tg_chat_id),
            decreases n - i,
        {
            let ghost pre = out@;
            if self.archives[i].tg_chat_id == tg_chat_id {
                let text = self.archives[i].endpoint.to_text();
                out.append(text.as_str());
            }
            proof {
                let rows = self.spec_archives();
                assert(rows.take(i as int + 1).drop_last() =~= rows.take(i as int));
                assert(rows.take(i as int + 1).last() == rows[i as int]);
                if rows[i as int].tg_chat_id == tg_chat_id {
                    assert(out@ =~= pre + rows[i as int].endpoint.spec_text());
                } else {
                    assert(out@ =~= pre + Seq::<char>::empty());
                }
            }
            i = i + 1;
        }
        proof {
            assert(self.spec_archives().take(n as int) =~= self.spec_archives());
        }
        out
    }
}

/// The endpoints of the rows, each kept at its first appearance.
pub open spec fn spec_distinct_endpoints(rows: Seq<remote_chat::Model>) -> Seq<Endpoint>
    decreases rows.len(),
{
    if rows.len() == 0 {
        Seq::empty()
    } else {
        spec_distinct_endpoints(rows.drop_last()) + (if exists|j: int|
            0 <= j < rows.len() - 1 && (#[trigger] rows[j]).endpoint.spec_same(
                rows.last().endpoint,
            ) {
            Seq::empty()
        } else {
            seq![rows.last().endpoint]
        })
    }
}

/// The archived endpoints of one Telegram chat, serialized and joined in
/// stored order.
pub open spec fn spec_archive_header(rows: Seq<archive::Model>, tg_chat_id: i64) -> Seq<char>
    decreases rows.len(),
{
    if rows.len() == 0 {
        Seq::empty()
    } else {
        spec_archive_header(rows.drop_last(), tg_chat_id) + (if rows.last().tg_chat_id
            == tg_chat_id {
            rows.last().endpoint.spec_text()
        } else {
            Seq::empty()
        })
    }
}

// ---------- callback lookup ----------

pub open spec fn spec_callback_lookup(
    entries: Seq<(Seq<char>, CommandCallback)>,
    key: Seq<char>,
) -> Option<CommandCallback>
    decreases entries.len(),
{
    if entries.len() == 0 {
        None
    } else if entries[0].0 == key {
        Some(entries[0].1)
    } else {
        spec_callback_lookup(entries.skip(1), key)
    }
}

proof fn lemma_callback_absent(entries: Seq<(Seq<char>, CommandCallback)>, key: Seq<char>)
    requires
        forall|j: int| 0 <= j < entries.len() ==> (#[trigger] entries[j]).0 != key,
    ensures
        spec_callback_lookup(entries, key) is None,
    decreases entries.len(),
{
    if entries.len() > 0 {
        assert forall|j: int| 0 <= j < entries.skip(1).len() implies (#[trigger] entries.skip(
            1,
        )[j]).0 != key by {
            assert(entries.skip(1)[j] == entries[j + 1]);
        }
        lemma_callback_absent(entries.skip(1), key);
    }
}

proof fn lemma_callback_push(
    entries: Seq<(Seq<char>, CommandCallback)>,
    key: Seq<char>,
    val: CommandCallback,
)
    requires
        spec_callback_lookup(entries, key) is None,
        forall|i: int, j: int|
            0 <= i < j < entries.len() ==> (#[trigger] entries[i]).0 != (#[trigger] entries[j]).0,
    ensures
        forall|i: int, j: int|
            0 <= i < j < entries.push((key, val)).len() ==> (#[trigger] entries.push(
                (key, val),
            )[i]).0 != (#[trigger] entries.push((key, val))[j]).0,
        spec_callback_lookup(entries.push((key, val)), key) == Some(val),
        forall|t: Seq<char>|
            t != key ==> spec_callback_lookup(entries.push((key, val)), t)
                == spec_callback_lookup(entries, t),
{
    lemma_callback_not_found_absent(entries, key);
    let pushed = entries.push((key, val));
    assert forall|i: int, j: int| 0 <= i < j < pushed.len() implies (#[trigger] pushed[i]).0 != (
    #[trigger] pushed[j]).0 by {
        if j < pushed.len() - 1 {
            assert(pushed[i] == entries[i] && pushed[j] == entries[j]);
        } else {
            assert(pushed[i] == entries[i] && pushed[j] == (key, val));
        }
    }
    assert forall|t: Seq<char>| true implies (t != key ==> spec_callback_lookup(pushed, t)
        == spec_callback_lookup(entries, t)) && spec_callback_lookup(pushed, key) == Some(
        val,
    ) by {
        lemma_callback_push_one(entries, key, val, t);
    }
}

proof fn lemma_callback_not_found_absent(
    entries: Seq<(Seq<char>, CommandCallback)>,
    key: Seq<char>,
)
    requires
        spec_callback_lookup(entries, key) is None,
    ensures
        forall|i: int| 0 <= i < entries.len() ==> (#[trigger] entries[i]).0 != key,
    decreases entries.len(),
{
    if entries.len() > 0 {
        lemma_callback_not_found_absent(entries.skip(1), key);
        assert forall|i: int| 0 <= i < entries.len() implies (#[trigger] entries[i]).0 != key by {
            if i > 0 {
                assert(entries.skip(1)[i - 1] == entries[i]);
            }
        }
    }
}

proof fn lemma_callback_push_one(
    entries: Seq<(Seq<char>, CommandCallback)>,
    key: Seq<char>,
    val: CommandCallback,
    t: Seq<char>,
)
    requires
        forall|i: int| 0 <= i < entries.len() ==> (#[trigger] entries[i]).0 != key,
    ensures
        t != key ==> spec_callback_lookup(entries.push((key, val)), t) == spec_callback_lookup(
            entries,
            t,
        ),
        spec_callback_lookup(entries.push((key, val)), key) == Some(val),
    decreases entries.len(),
{
    let pushed = entries.push((key, val));
    if entries.len() == 0 {
        assert(pushed[0] == (key, val));
        assert(pushed.skip(1) =~= Seq::<(Seq<char>, CommandCallback)>::empty());
    } else {
        assert(pushed[0] == entries[0]);
        assert(pushed.skip(1) =~= entries.skip(1).push((key, val)));
        assert forall|i: int| 0 <= i < entries.skip(1).len() implies (#[trigger] entries.skip(
            1,
        )[i]).0 != key by {
            assert(entries.skip(1)[i] == entries[i + 1]);
        }
        lemma_callback_push_one(entries.skip(1), key, val, t);
        assert(spec_callback_lookup(pushed.skip(1), t) == spec_callback_lookup(
            entries.skip(1).push((key, val)),
            t,
        ));
        assert(spec_callback_lookup(pushed.skip(1), key) == spec_callback_lookup(
            entries.skip(1).push((key, val)),
            key,
        ));
        assert(entries[0].0 != key);
    }
}

proof fn lemma_callback_remove(
    entries: Seq<(Seq<char>, CommandCallback)>,
    i: int,
    key: Seq<char>,
)
    requires
        forall|a: int, b: int|
            0 <= a < b < entries.len() ==> (#[trigger] entries[a]).0 != (#[trigger] entries[b]).0,
        0 <= i < entries.len(),
        entries[i].0 == key,
        forall|j: int| 0 <= j < i ==> (#[trigger] entries[j]).0 != key,
    ensures
        spec_callback_lookup(entries, key) == Some(entries[i].1),
        forall|a: int, b: int|
            0 <= a < b < entries.remove(i).len() ==> (#[trigger] entries.remove(i)[a]).0 != (
            #[trigger] entries.remove(i)[b]).0,
        spec_callback_lookup(entries.remove(i), key) is None,
        forall|t: Seq<char>|
            t != key ==> spec_callback_lookup(entries.remove(i), t) == spec_callback_lookup(
                entries,
                t,
            ),
    decreases entries.len(),
{
    let removed = entries.remove(i);
    assert forall|a: int, b: int| 0 <= a < b < removed.len() implies (#[trigger] removed[a]).0 != (
    #[trigger] removed[b]).0 by {
        let a2: int = if a < i {
            a
        } else {
            a + 1
        };
        let b2: int = if b < i {
            b
        } else {
            b + 1
        };
        assert(removed[a] == entries[a2] && removed[b] == entries[b2]);
    }
    if i == 0 {
        assert(removed =~= entries.skip(1));
        assert(spec_callback_lookup(entries, key) == Some(entries[0].1));
        assert forall|j: int| 0 <= j < removed.len() implies (#[trigger] removed[j]).0 != key by {
            assert(removed[j] == entries[j + 1]);
        }
        lemma_callback_absent(removed, key);
        assert forall|t: Seq<char>| t != key implies spec_callback_lookup(removed, t)
            == spec_callback_lookup(entries, t) by {
            assert(spec_callback_lookup(entries, t) == spec_callback_lookup(entries.skip(1), t));
        }
    } else {
        assert(entries[0].0 != key);
        assert(removed[0] == entries[0]);
        assert(removed.skip(1) =~= entries.skip(1).remove(i - 1));
        assert forall|j: int| 0 <= j < i - 1 implies (#[trigger] entries.skip(1)[j]).0 != key by {
            assert(entries.skip(1)[j] == entries[j + 1]);
        }
        assert(entries.skip(1)[i - 1] == entries[i]);
        assert forall|a: int, b: int|
            0 <= a < b < entries.skip(1).len() implies (#[trigger] entries.skip(1)[a]).0 != (
        #[trigger] entries.skip(1)[b]).0 by {
            assert(entries.skip(1)[a] == entries[a + 1]);
            assert(entries.skip(1)[b] == entries[b + 1]);
        }
        lemma_callback_remove(entries.skip(1), i - 1, key);
        assert forall|t: Seq<char>| t != key implies spec_callback_lookup(removed, t)
            == spec_callback_lookup(entries, t) by {
            if entries[0].0 == t {
                assert(spec_callback_lookup(removed, t) == Some(removed[0].1));
                assert(spec_callback_lookup(entries, t) == Some(entries[0].1));
            } else {
                assert(spec_callback_lookup(removed, t) == spec_callback_lookup(
                    removed.skip(1),
                    t,
                ));
                assert(spec_callback_lookup(entries, t) == spec_callback_lookup(
                    entries.skip(1),
                    t,
                ));
            }
        }
        assert(spec_callback_lookup(removed, key) == spec_callback_lookup(removed.skip(1), key));
    }
}

} // verus!
