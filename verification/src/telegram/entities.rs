//! Persisted rows of the mapping fabric: remote chats, archives, topics,
//! links and messages, with explicit copies and integer codes for the
//! store.

pub mod archive;
pub mod link;
pub mod message;
pub mod remote_chat;
pub mod topic;

use vstd::prelude::*;

verus! {

use crate::common::{ChatType, Endpoint};

impl remote_chat::Model {
    /// The identifying key of the conversation this row describes.
    pub fn to_id(&self) -> (r: (Endpoint, ChatType, String))
        ensures
            r.0.platform == self.endpoint.platform,
            r.0.id@ == self.endpoint.id@,
            r.1 == self.chat_type,
            r.2@ == self.target_id@,
    {
        (self.endpoint.clone_endpoint(), self.chat_type, self.target_id.clone())
    }
}

} // verus!
