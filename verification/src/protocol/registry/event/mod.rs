//! Events of `wl_registry`.

pub mod global;
pub mod global_remove;

use vstd::prelude::*;
use crate::protocol::error::{error_view, result_view, WlError, WlErrorView};
use crate::protocol::message::{MessageView, WlMessage};
use crate::protocol::registry::event::global::{
    handle_wl_registry_global, parse_global, GlobalView, WlRegistryGlobal,
};
use crate::protocol::registry::event::global_remove::{
    handle_wl_registry_global_remove, parse_global_remove, WlRegistryGlobalRemove,
};

verus! {

/// The events that `wl_registry` sends.
#[derive(Debug, Clone, Copy, PartialEq, Eq, Structural)]
pub enum Event {
    /// A global object is on offer.
    Global,
    /// A global object is no longer on offer.
    GlobalRemove,
}

impl Event {
    /// The opcode that stands for the event on the wire.
    pub open spec fn opcode(self) -> u16 {
        match self {
            Event::Global => 0,
            Event::GlobalRemove => 1,
        }
    }

    /// The event that an opcode stands for, if any.
    pub open spec fn of_opcode(opcode: u16) -> Option<Event> {
        if opcode == 0 {
            Some(Event::Global)
        } else if opcode == 1 {
            Some(Event::GlobalRemove)
        } else {
            None
        }
    }

    /// The opcode that stands for the event on the wire.
    pub fn to_u16(self) -> (opcode: u16)
        ensures
            opcode == self.opcode(),
            Event::of_opcode(opcode) == Some(self),
    {
        match self {
            Event::Global => 0,
            Event::GlobalRemove => 1,
        }
    }

    /// The event that `value` stands for. An opcode that `wl_registry` does
    /// not define is an error that carries the opcode.
    pub fn from_u16(value: u16) -> (r: Result<Event, WlError>)
        ensures
            r is Ok <==> value <= 1,
            error_view(r) == match Event::of_opcode(value) {
                Some(event) => Ok(event),
                None => Err(WlErrorView::InvalidOpcode(value)),
            },
    {
        match value {
            0 => Ok(Event::Global),
            1 => Ok(Event::GlobalRemove),
            _ => Err(WlError::InvalidOpcode(value)),
        }
    }
}

/// A decoded event of `wl_registry`.
#[derive(Debug, Clone, PartialEq, Eq)]
pub enum WlRegistryEvent {
    /// A global object is on offer.
    Global(WlRegistryGlobal),
    /// A global object is no longer on offer.
    GlobalRemove(WlRegistryGlobalRemove),
}

/// A decoded event of `wl_registry`, apart from how it is held in memory.
pub ghost enum RegistryEventView {
    Global(GlobalView),
    GlobalRemove(WlRegistryGlobalRemove),
}

impl View for WlRegistryEvent {
    type V = RegistryEventView;

    open spec fn view(&self) -> RegistryEventView {
        match self {
            WlRegistryEvent::Global(global) => RegistryEventView::Global(global@),
            WlRegistryEvent::GlobalRemove(removed) => RegistryEventView::GlobalRemove(*removed),
        }
    }
}

/// What handling a message from `wl_registry` comes to: the decoded event,
/// or the reason why the message could not be decoded.
pub open spec fn registry_event_outcome(m: MessageView) -> Result<RegistryEventView, WlErrorView> {
    match Event::of_opcode(m.opcode) {
        None => Err(WlErrorView::InvalidOpcode(m.opcode)),
        Some(Event::Global) => match parse_global(m.payload) {
            Ok(global) => Ok(RegistryEventView::Global(global)),
            Err(e) => Err(e),
        },
        Some(Event::GlobalRemove) => match parse_global_remove(m.payload) {
            Ok(removed) => Ok(RegistryEventView::GlobalRemove(removed)),
            Err(e) => Err(e),
        },
    }
}

/// An opcode that `wl_registry` does not define is an error that names the
/// opcode, whatever the payload holds.
pub proof fn lemma_registry_unknown_opcode(m: MessageView)
    requires
        m.opcode > 1,
    ensures
        registry_event_outcome(m) == Err::<RegistryEventView, _>(
            WlErrorView::InvalidOpcode(m.opcode),
        ),
{
}

/// Decodes a message that comes from `wl_registry` by its opcode and hands
/// it to the handler of that event.
pub fn handle_wl_registry_event(msg: WlMessage) -> (r: Result<WlRegistryEvent, WlError>)
    ensures
        result_view(r) == registry_event_outcome(msg@),
{
    let event_code = match Event::from_u16(msg.opcode()) {
        Ok(event) => event,
        Err(e) => {
            return Err(e);
        },
    };
    match event_code {
        Event::Global => match handle_wl_registry_global(msg.payload()) {
            Ok(global) => Ok(WlRegistryEvent::Global(global)),
            Err(e) => Err(e),
        },
        Event::GlobalRemove => match handle_wl_registry_global_remove(msg.payload()) {
            Ok(removed) => Ok(WlRegistryEvent::GlobalRemove(removed)),
            Err(e) => Err(e),
        },
    }
}

} // verus!
