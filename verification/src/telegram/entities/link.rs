//! One link binding: a Telegram chat that is the 1:1 mirror of a remote
//! chat.

use vstd::prelude::*;

verus! {

#[derive(Debug, Clone, Copy, PartialEq, Eq, Structural)]
pub struct Model {
    pub id: i64,
    /// Packed Telegram chat kind, as the client encodes it.
    pub tg_chat_type: u8,
    pub tg_chat_id: i64,
    pub remote_chat_id: i64,
    pub created_at: i64,
    pub updated_at: i64,
}

} // verus!
