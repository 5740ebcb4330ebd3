//! Control events exchanged on the WebSocket channel and reported to the user interface.
use vstd::prelude::*;

use crate::clock::unix_millis;
use crate::ids::{is_prefixed_random_uuid, is_prefixed_uuid, new_event_id};
use crate::session::LocalWsIdentity;

verus! {

/// A JSON value, carried through as the payload of a control event.
#[verifier::external_type_specification]
#[verifier::external_body]
pub struct ExJsonValue(serde_json::Value);

/// A control event sent over the WebSocket channel.
#[derive(Debug)]
pub struct WsEvent {
    pub event_id: String,
    pub event_type: String,
    pub from_device_id: String,
    pub from_device_name: String,
    pub created_at: i64,
    pub payload: serde_json::Value,
}

impl WsEvent {
    /// A fresh event of type `event_type` from the local device, stamped now, with a new
    /// `evt_` id.
    pub fn new(event_type: String, local: &LocalWsIdentity, payload: serde_json::Value) -> (e: Self)
        ensures
            is_prefixed_uuid(e.event_id@, "evt_"@),
            is_prefixed_random_uuid(e.event_id@, "evt_"@),
            e.event_type@ == event_type@,
            e.from_device_id@ == local.device_id@,
            e.from_device_name@ == local.device_name@,
            e.created_at >= 0,
            e.payload == payload,
    {
        WsEvent {
            event_id: new_event_id(),
            event_type,
            from_device_id: local.device_id.clone(),
            from_device_name: local.device_name.clone(),
            created_at: unix_millis(),
            payload,
        }
    }
}

/// A control event reported to the user interface with the peer it concerns.
#[derive(Debug)]
pub struct DeviceWsEvent {
    pub peer_device_id: String,
    pub peer_device_name: Option<String>,
    pub event: WsEvent,
}

/// The report of `event`, received from or concerning `peer_device_id`.
pub fn device_ws_event(peer_device_id: &str, peer_device_name: Option<String>, event: WsEvent) -> (r:
    DeviceWsEvent)
    ensures
        r.peer_device_id@ == peer_device_id@,
        r.peer_device_name == peer_device_name,
        r.event == event,
{
    DeviceWsEvent { peer_device_id: peer_device_id.to_owned(), peer_device_name, event }
}

} // verus!
