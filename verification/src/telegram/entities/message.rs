//! One delivered message, mapping a Telegram message to its remote
//! counterpart.

use vstd::prelude::*;

verus! {

use crate::common::DeliveryStatus;

#[derive(Debug)]
pub struct Model {
    pub id: i64,
    pub tg_chat_id: i64,
    pub tg_msg_id: i32,
    pub remote_chat_id: i64,
    pub remote_msg_id: String,
    pub content: String,
    pub delivery_status: DeliveryStatus,
    pub created_at: i64,
    pub updated_at: i64,
}

impl Model {
    /// Whether this row maps the given Telegram message.
    pub open spec fn spec_tg_key_is(&self, tg_chat_id: i64, tg_msg_id: i32) -> bool {
        self.tg_chat_id == tg_chat_id && self.tg_msg_id == tg_msg_id
    }

    /// Whether this row maps the given remote message.
    pub open spec fn spec_remote_key_is(&self, remote_chat_id: i64, remote_msg_id: Seq<char>) -> bool {
        self.remote_chat_id == remote_chat_id && self.remote_msg_id@ == remote_msg_id
    }

    pub fn duplicate(&self) -> (r: Model)
        ensures
            r == *self,
    {
        Model {
            id: self.id,
            tg_chat_id: self.tg_chat_id,
            tg_msg_id: self.tg_msg_id,
            remote_chat_id: self.remote_chat_id,
            remote_msg_id: self.remote_msg_id.clone(),
            content: self.content.clone(),
            delivery_status: self.delivery_status,
            created_at: self.created_at,
            updated_at: self.updated_at,
        }
    }
}

} // verus!
