//! Events of `wl_display`.

pub mod delete_id;
pub mod error;

use vstd::prelude::*;
use crate::protocol::display::event::delete_id::{
    handle_wl_display_delete_id, parse_delete_id, WlDisplayDeleteId,
};
use crate::protocol::display::event::error::{
    display_error_outcome, handle_wl_display_error, parse_display_error,
};
use crate::protocol::error::{error_view, result_view, WlError, WlErrorView};
use crate::protocol::message::{MessageView, WlMessage};

verus! {

/// The events that `wl_display` sends.
#[derive(Debug, Clone, Copy, PartialEq, Eq, Structural)]
pub enum Event {
    /// A fatal error: the connection is over.
    Error,
    /// An object id is free again.
    DeleteId,
}

impl Event {
    /// The opcode that stands for the event on the wire.
    pub open spec fn opcode(self) -> u16 {
        match self {
            Event::Error => 0,
            Event::DeleteId => 1,
        }
    }

    /// The event that an opcode stands for, if any.
    pub open spec fn of_opcode(opcode: u16) -> Option<Event> {
        if opcode == 0 {
            Some(Event::Error)
        } else if opcode == 1 {
            Some(Event::DeleteId)
        } else {
            None
        }
    }

    /// The opcode that stands for the event on the wire.
    pub fn to_u16(self) -> (opcode: u16)
        ensures
            opcode == self.opcode(),
            Event::of_opcode(opcode) == Some(self),
    {
        match self {
            Event::Error => 0,
            Event::DeleteId => 1,
        }
    }

    /// The event that `value` stands for. An opcode that `wl_display` does
    /// not define is an error that carries the opcode.
    pub fn from_u16(value: u16) -> (r: Result<Event, WlError>)
        ensures
            r is Ok <==> value <= 1,
            error_view(r) == match Event::of_opcode(value) {
                Some(event) => Ok(event),
                None => Err(WlErrorView::InvalidOpcode(value)),
            },
    {
        match value {
            0 => Ok(Event::Error),
            1 => Ok(Event::DeleteId),
            _ => Err(WlError::InvalidOpcode(value)),
        }
    }
}

/// What handling a message from `wl_display` comes to: the arguments of a
/// `delete_id` event, a fatal error for an `error` event, or the reason why
/// the message could not be decoded.
pub open spec fn display_event_outcome(m: MessageView) -> Result<WlDisplayDeleteId, WlErrorView> {
    match Event::of_opcode(m.opcode) {
        None => Err(WlErrorView::InvalidOpcode(m.opcode)),
        Some(Event::Error) => Err(display_error_outcome(m.payload)),
        Some(Event::DeleteId) => parse_delete_id(m.payload),
    }
}

/// An opcode that `wl_display` does not define is an error that names the
/// opcode, whatever the payload holds.
pub proof fn lemma_display_unknown_opcode(m: MessageView)
    requires
        m.opcode > 1,
    ensures
        display_event_outcome(m) == Err::<WlDisplayDeleteId, _>(
            WlErrorView::InvalidOpcode(m.opcode),
        ),
{
}

/// An `error` event never decodes to a value: it is an error whatever its
/// payload holds, and a fatal one that carries the compositor's record where
/// the payload decodes.
pub proof fn lemma_display_error_event_is_error(m: MessageView)
    requires
        m.opcode == Event::Error.opcode(),
    ensures
        display_event_outcome(m) is Err,
        parse_display_error(m.payload) matches Ok(record) ==> display_event_outcome(m) == Err::<
            WlDisplayDeleteId,
            _,
        >(WlErrorView::ProtocolFatal(record)),
{
}

/// Decodes a message that comes from `wl_display` by its opcode and hands it
/// to the handler of that event.
pub fn handle_wl_display_event(msg: WlMessage) -> (r: Result<WlDisplayDeleteId, WlError>)
    ensures
        result_view(r) == display_event_outcome(msg@),
{
    let event_code = match Event::from_u16(msg.opcode()) {
        Ok(event) => event,
        Err(e) => {
            return Err(e);
        },
    };
    match event_code {
        Event::Error => Err(handle_wl_display_error(msg.payload())),
        Event::DeleteId => handle_wl_display_delete_id(msg.payload()),
    }
}

} // verus!
