//! The OneBot protocol model: JSON values as the wire hands them over,
//! payload discrimination, events, requests, responses and message
//! segments, with tolerant id decoding.

pub mod event;
pub mod json;
pub mod payload;
pub mod request;
pub mod response;
pub mod segment;

use vstd::prelude::*;

verus! {

use crate::common::Endpoint;
use crate::onebot::protocol::event::Event;
use crate::onebot::protocol::request::Request;

/// An event as it leaves the server loop: tagged with the connection's
/// endpoint.
pub struct OnebotEvent {
    pub endpoint: Endpoint,
    pub raw: Event,
}

/// An API request on its way to a connection, tagged with the waiter that
/// expects the response; the correlation table resolves the tag.
pub struct OnebotRequest {
    pub endpoint: Endpoint,
    pub raw: Request,
    pub waiter: u64,
}

} // verus!
