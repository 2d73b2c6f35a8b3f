//! Requests of `wl_display`.
//!
//! A request is a message to the object with the request's opcode and, as
//! its payload, the arguments one after the other in the order in which the
//! protocol declares them. Every argument already ends on a 32-bit boundary,
//! so nothing stands between two of them.

use vstd::prelude::*;
use crate::protocol::message::{message_wire, MessageView, WlMessage};
use crate::protocol::types::primitive::{
    lemma_u16_wire_round_trip, lemma_u32_wire_round_trip, put_u32, u16_wire, u32_wire,
};
use crate::protocol::types::WlNewId;
use crate::protocol::WlObjectId;

verus! {

/// The requests that `wl_display` takes.
#[derive(Debug, Clone, Copy, PartialEq, Eq, Structural)]
pub enum Opcode {
    /// Asks for a callback that fires once every earlier request is done.
    Sync,
    /// Asks for the registry of global objects.
    GetRegistry,
}

impl Opcode {
    /// The opcode that stands for the request on the wire.
    pub open spec fn number(self) -> u16 {
        match self {
            Opcode::Sync => 0,
            Opcode::GetRegistry => 1,
        }
    }

    /// The opcode that stands for the request on the wire.
    pub fn to_u16(self) -> (opcode: u16)
        ensures
            opcode == self.number(),
    {
        match self {
            Opcode::Sync => 0,
            Opcode::GetRegistry => 1,
        }
    }
}

/// The arguments of `wl_display.sync`.
#[derive(Debug, Clone, Copy, PartialEq, Eq, Structural)]
pub struct SyncParam {
    /// The id under which the compositor is to create the callback.
    new_id: WlNewId,
}

impl SyncParam {
    /// The arguments of a `sync` request that creates its callback under
    /// `new_id`.
    pub fn new(new_id: WlNewId) -> (p: SyncParam)
        ensures
            p.new_id() == new_id,
    {
        SyncParam { new_id }
    }

    /// The id under which the compositor is to create the callback.
    pub closed spec fn new_id(self) -> WlNewId {
        self.new_id
    }

    /// The arguments as they go on the wire.
    pub fn to_bytes(&self) -> (out: Vec<u8>)
        ensures
            out@ == u32_wire(self.new_id()),
    {
        let mut out: Vec<u8> = Vec::new();
        put_u32(&mut out, self.new_id);
        out
    }
}

/// The arguments of `wl_display.get_registry`.
#[derive(Debug, Clone, Copy, PartialEq, Eq, Structural)]
pub struct RequestParam {
    /// The id under which the compositor is to create the registry.
    new_id: WlNewId,
}

impl RequestParam {
    /// The arguments of a `get_registry` request that creates the registry
    /// under `new_id`.
    pub fn new(new_id: WlNewId) -> (p: RequestParam)
        ensures
            p.new_id() == new_id,
    {
        RequestParam { new_id }
    }

    /// The id under which the compositor is to create the registry.
    pub closed spec fn new_id(self) -> WlNewId {
        self.new_id
    }

    /// The arguments as they go on the wire.
    pub fn to_bytes(&self) -> (out: Vec<u8>)
        ensures
            out@ == u32_wire(self.new_id()),
    {
        let mut out: Vec<u8> = Vec::new();
        put_u32(&mut out, self.new_id);
        out
    }
}

/// A request to `wl_display`: the message to object 1 with the request's
/// opcode and the one new id that both requests take.
pub open spec fn display_request(opcode: Opcode, new_id: WlNewId) -> MessageView {
    MessageView {
        object_id: WlObjectId::Display.number(),
        opcode: opcode.number(),
        payload: u32_wire(new_id),
    }
}

/// A request to `wl_display` is twelve bytes on the wire: the object id 1,
/// the opcode, the length 12 and the new id, in that order.
pub proof fn lemma_display_request_wire(opcode: Opcode, new_id: WlNewId)
    ensures
        message_wire(display_request(opcode, new_id)) == u32_wire(1) + u16_wire(opcode.number())
            + u16_wire(12) + u32_wire(new_id),
        message_wire(display_request(opcode, new_id)).len() == 12,
{
    lemma_u32_wire_round_trip(new_id);
    lemma_u32_wire_round_trip(1);
    lemma_u16_wire_round_trip(opcode.number());
    lemma_u16_wire_round_trip(12);
}

/// The `sync` request that creates its callback under `new_id`.
pub fn sync_request(new_id: WlNewId) -> (msg: WlMessage)
    ensures
        msg@ == display_request(Opcode::Sync, new_id),
        msg@.payload.len() == 4,
{
    let data: Vec<u8> = SyncParam::new(new_id).to_bytes();
    proof {
        lemma_u32_wire_round_trip(new_id);
    }
    WlMessage::new(WlObjectId::Display.to_u32(), Opcode::Sync.to_u16(), data.as_slice())
}

/// The `get_registry` request that creates the registry under `new_id`.
pub fn get_registry_request(new_id: WlNewId) -> (msg: WlMessage)
    ensures
        msg@ == display_request(Opcode::GetRegistry, new_id),
        msg@.payload.len() == 4,
{
    let data: Vec<u8> = RequestParam::new(new_id).to_bytes();
    proof {
        lemma_u32_wire_round_trip(new_id);
    }
    WlMessage::new(WlObjectId::Display.to_u32(), Opcode::GetRegistry.to_u16(), data.as_slice())
}

} // verus!
