//! Relay engine for a bidirectional chat-message bridge between a Telegram
//! bot account and remote OneBot endpoints (QQ, WeChat).
//!
//! The crate holds the verified core: the protocol model with its tolerant
//! id decoding, the WebSocket handshake and request/response correlation
//! rules, the routing and mapping store with its uniqueness invariants, the
//! two translation pipelines, the command surface with its paginated views,
//! and the per-chat rate limiting and serialization logic. Network, database
//! and media transcoding sit outside, behind plain-value interfaces.

pub mod common;
pub mod onebot;
pub mod telegram;
pub mod text;
