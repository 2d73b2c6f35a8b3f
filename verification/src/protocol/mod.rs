//! The Wayland wire protocol: primitive types, message framing and the
//! per-interface requests and events.

pub mod bootstrap;
pub mod display;
pub mod error;
pub mod message;
pub mod registry;
pub mod types;

use vstd::prelude::*;
use crate::protocol::display::event::delete_id::WlDisplayDeleteId;
use crate::protocol::display::event::{display_event_outcome, handle_wl_display_event};
use crate::protocol::error::{result_view, WlError, WlErrorView};
use crate::protocol::message::{MessageView, WlMessage};
use crate::protocol::registry::event::{
    handle_wl_registry_event, registry_event_outcome, RegistryEventView, WlRegistryEvent,
};

verus! {

/// The interfaces of the core protocol, each under the object id at which
/// this client expects its one instance.
#[derive(Debug, Clone, Copy, PartialEq, Eq, Structural)]
pub enum WlObjectId {
    Display,
    Registry,
    Callback,
    Compositor,
    ShmPool,
    Shm,
    Buffer,
    DataOffer,
    DataSource,
    DataDevice,
    DataDeviceManager,
    Shell,
    ShellSurface,
    Surface,
    Seat,
    Pointer,
    Keyboard,
    Touch,
    Output,
    Region,
    SubCompositor,
    SubSurface,
    Fixes,
}

impl WlObjectId {
    /// The object id that stands for the interface.
    pub open spec fn number(self) -> u32 {
        match self {
            WlObjectId::Display => 1,
            WlObjectId::Registry => 2,
            WlObjectId::Callback => 3,
            WlObjectId::Compositor => 4,
            WlObjectId::ShmPool => 5,
            WlObjectId::Shm => 6,
            WlObjectId::Buffer => 7,
            WlObjectId::DataOffer => 8,
            WlObjectId::DataSource => 9,
            WlObjectId::DataDevice => 10,
            WlObjectId::DataDeviceManager => 11,
            WlObjectId::Shell => 12,
            WlObjectId::ShellSurface => 13,
            WlObjectId::Surface => 14,
            WlObjectId::Seat => 15,
            WlObjectId::Pointer => 16,
            WlObjectId::Keyboard => 17,
            WlObjectId::Touch => 18,
            WlObjectId::Output => 19,
            WlObjectId::Region => 20,
            WlObjectId::SubCompositor => 21,
            WlObjectId::SubSurface => 22,
            WlObjectId::Fixes => 23,
        }
    }

    /// The object id that stands for the interface.
    pub fn to_u32(self) -> (id: u32)
        ensures
            id == self.number(),
            1 <= id <= 23,
    {
        match self {
            WlObjectId::Display => 1,
            WlObjectId::Registry => 2,
            WlObjectId::Callback => 3,
            WlObjectId::Compositor => 4,
            WlObjectId::ShmPool => 5,
            WlObjectId::Shm => 6,
            WlObjectId::Buffer => 7,
            WlObjectId::DataOffer => 8,
            WlObjectId::DataSource => 9,
            WlObjectId::DataDevice => 10,
            WlObjectId::DataDeviceManager => 11,
            WlObjectId::Shell => 12,
            WlObjectId::ShellSurface => 13,
            WlObjectId::Surface => 14,
            WlObjectId::Seat => 15,
            WlObjectId::Pointer => 16,
            WlObjectId::Keyboard => 17,
            WlObjectId::Touch => 18,
            WlObjectId::Output => 19,
            WlObjectId::Region => 20,
            WlObjectId::SubCompositor => 21,
            WlObjectId::SubSurface => 22,
            WlObjectId::Fixes => 23,
        }
    }

    /// The interface that lives at the object id `value`. Where there is
    /// none, the message that named the id cannot be routed.
    pub fn from_u32(value: u32) -> (r: Result<WlObjectId, WlError>)
        ensures
            r is Ok <==> 1 <= value <= 23,
            r matches Ok(id) ==> id.number() == value,
            r matches Err(e) ==> e@ == WlErrorView::UnroutableObject(value),
    {
        match value {
            1 => Ok(WlObjectId::Display),
            2 => Ok(WlObjectId::Registry),
            3 => Ok(WlObjectId::Callback),
            4 => Ok(WlObjectId::Compositor),
            5 => Ok(WlObjectId::ShmPool),
            6 => Ok(WlObjectId::Shm),
            7 => Ok(WlObjectId::Buffer),
            8 => Ok(WlObjectId::DataOffer),
            9 => Ok(WlObjectId::DataSource),
            10 => Ok(WlObjectId::DataDevice),
            11 => Ok(WlObjectId::DataDeviceManager),
            12 => Ok(WlObjectId::Shell),
            13 => Ok(WlObjectId::ShellSurface),
            14 => Ok(WlObjectId::Surface),
            15 => Ok(WlObjectId::Seat),
            16 => Ok(WlObjectId::Pointer),
            17 => Ok(WlObjectId::Keyboard),
            18 => Ok(WlObjectId::Touch),
            19 => Ok(WlObjectId::Output),
            20 => Ok(WlObjectId::Region),
            21 => Ok(WlObjectId::SubCompositor),
            22 => Ok(WlObjectId::SubSurface),
            23 => Ok(WlObjectId::Fixes),
            _ => Err(WlError::UnroutableObject(value)),
        }
    }
}

/// A decoded event, under the interface that sent it.
#[derive(Debug, Clone, PartialEq, Eq)]
pub enum WlEvent {
    /// `wl_display` freed an object id.
    Display(WlDisplayDeleteId),
    /// `wl_registry` advertised a global or took one back.
    Registry(WlRegistryEvent),
}

/// A decoded event, apart from how it is held in memory.
pub ghost enum EventView {
    Display(WlDisplayDeleteId),
    Registry(RegistryEventView),
}

impl View for WlEvent {
    type V = EventView;

    open spec fn view(&self) -> EventView {
        match self {
            WlEvent::Display(freed) => EventView::Display(*freed),
            WlEvent::Registry(event) => EventView::Registry(event@),
        }
    }
}

/// What a message from the compositor comes to. The object it names decides
/// which interface decodes it: `wl_display` at id 1, `wl_registry` at id 2.
/// A message from any other object cannot be routed.
pub open spec fn dispatch_outcome(m: MessageView) -> Result<EventView, WlErrorView> {
    if m.object_id == WlObjectId::Display.number() {
        match display_event_outcome(m) {
            Ok(freed) => Ok(EventView::Display(freed)),
            Err(e) => Err(e),
        }
    } else if m.object_id == WlObjectId::Registry.number() {
        match registry_event_outcome(m) {
            Ok(event) => Ok(EventView::Registry(event)),
            Err(e) => Err(e),
        }
    } else {
        Err(WlErrorView::UnroutableObject(m.object_id))
    }
}

/// Routes a message from the compositor to the interface of the object that
/// sent it, and gives back the decoded event.
pub fn dispatch(msg: WlMessage) -> (r: Result<WlEvent, WlError>)
    ensures
        result_view(r) == dispatch_outcome(msg@),
{
    let object_id: u32 = msg.object_id();
    let event_object = match WlObjectId::from_u32(object_id) {
        Ok(id) => id,
        Err(e) => {
            return Err(e);
        },
    };
    match event_object {
        WlObjectId::Display => match handle_wl_display_event(msg) {
            Ok(freed) => Ok(WlEvent::Display(freed)),
            Err(e) => Err(e),
        },
        WlObjectId::Registry => match handle_wl_registry_event(msg) {
            Ok(event) => Ok(WlEvent::Registry(event)),
            Err(e) => Err(e),
        },
        _ => Err(WlError::UnroutableObject(object_id)),
    }
}

} // verus!
