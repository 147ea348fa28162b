//! One forum topic serving as the mirror of one remote chat under an
//! archive.

use vstd::prelude::*;

verus! {

#[derive(Debug, Clone, Copy, PartialEq, Eq, Structural)]
pub struct Model {
    pub id: i64,
    pub archive_id: i64,
    pub tg_topic_id: i32,
    pub remote_chat_id: i64,
    pub created_at: i64,
    pub updated_at: i64,
}

} // verus!
