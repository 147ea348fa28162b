//! One remote conversation, keyed by `(endpoint, chat_type, target_id)`.

use vstd::prelude::*;

verus! {

use crate::common::{ChatType, Endpoint};

#[derive(Debug)]
pub struct Model {
    pub id: i64,
    pub endpoint: Endpoint,
    pub chat_type: ChatType,
    pub target_id: String,
    pub name: String,
    pub created_at: i64,
    pub updated_at: i64,
}

impl Model {
    /// Whether this row describes the given conversation.
    pub open spec fn spec_key_is(
        &self,
        endpoint: Endpoint,
        chat_type: ChatType,
        target_id: Seq<char>,
    ) -> bool {
        self.endpoint.spec_same(endpoint) && self.chat_type == chat_type && self.target_id@
            == target_id
    }

    pub fn duplicate(&self) -> (r: Model)
        ensures
            r == *self,
    {
        Model {
            id: self.id,
            endpoint: self.endpoint.clone_endpoint(),
            chat_type: self.chat_type,
            target_id: self.target_id.clone(),
            name: self.name.clone(),
            created_at: self.created_at,
            updated_at: self.updated_at,
        }
    }
}

} // verus!
