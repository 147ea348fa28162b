//! Payload discrimination: a text frame is a request, a response or an
//! event, tried in that order.

use vstd::prelude::*;

verus! {

use crate::onebot::protocol::event::{Event, EventView, spec_decode_event, decode_event};
use crate::onebot::protocol::json::{JsonVal, JsonValue, spec_str_field, str_field};
use crate::onebot::protocol::response::{
    Response, ResponseView, spec_decode_response, decode_response, spec_is_response_shape,
};

/// One decoded wire frame.
#[derive(Debug)]
pub enum Payload {
    /// An inbound API request. The server never expects these and only
    /// logs them, so the frame is kept as raw JSON.
    Request(JsonValue),
    Response(Response),
    Event(Event),
}

pub enum PayloadView {
    Request(JsonVal),
    Response(ResponseView),
    Event(EventView),
}

impl View for Payload {
    type V = PayloadView;

    open spec fn view(&self) -> PayloadView {
        match self {
            Payload::Request(v) => PayloadView::Request(v@),
            Payload::Response(r) => PayloadView::Response(r@),
            Payload::Event(e) => PayloadView::Event(e@),
        }
    }
}

/// What a frame decodes to. A frame with an `action` field is a request;
/// otherwise a frame shaped like a response (`echo` with `status`) must
/// decode as one; anything else must decode as an event.
pub open spec fn spec_decode_payload(v: JsonVal) -> Option<PayloadView> {
    if spec_str_field(v, "action"@) is Some {
        Some(PayloadView::Request(v))
    } else if spec_is_response_shape(v) {
        match spec_decode_response(v) {
            Some(r) => Some(PayloadView::Response(r)),
            None => None,
        }
    } else {
        match spec_decode_event(v) {
            Some(e) => Some(PayloadView::Event(e)),
            None => None,
        }
    }
}

pub fn decode_payload(v: JsonValue) -> (r: Option<Payload>)
    ensures
        match r {
            Some(p) => spec_decode_payload(v@) == Some(p@),
            None => spec_decode_payload(v@) is None,
        },
{
    if str_field(&v, "action").is_some() {
        return Some(Payload::Request(v));
    }
    let is_response = str_field(&v, "echo").is_some() && str_field(&v, "status").is_some();
    if is_response {
        match decode_response(&v) {
            Some(resp) => Some(Payload::Response(resp)),
            None => None,
        }
    } else {
        match decode_event(&v) {
            Some(e) => Some(Payload::Event(e)),
            None => None,
        }
    }
}

} // verus!
