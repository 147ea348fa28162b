//! One archive binding: every conversation of an endpoint is mirrored
//! under one Telegram forum supergroup.

use vstd::prelude::*;

verus! {

use crate::common::Endpoint;

#[derive(Debug)]
pub struct Model {
    pub id: i64,
    pub endpoint: Endpoint,
    pub tg_chat_id: i64,
    pub created_at: i64,
    pub updated_at: i64,
}

impl Model {
    pub fn duplicate(&self) -> (r: Model)
        ensures
            r == *self,
    {
        Model {
            id: self.id,
            endpoint: self.endpoint.clone_endpoint(),
            tg_chat_id: self.tg_chat_id,
            created_at: self.created_at,
            updated_at: self.updated_at,
        }
    }
}

} // verus!
