//! `wl_display.error`: the compositor gives up on the connection and says
//! why.

use vstd::prelude::*;
use vstd::slice::slice_subrange;
use crate::protocol::error::{error_view, result_view, WlError, WlErrorView};
use crate::protocol::types::primitive::{
    get_u32, lemma_u32_wire_round_trip, spec_get_u32, u32_wire,
};
use crate::protocol::types::wlstring::{
    lemma_string_round_trip, parse_string, string_fits, string_wire, WlString,
};

verus! {

/// Width in bytes of the object id that an `error` event starts with.
pub const WL_DISPLAY_ERROR_OBJECT_LEN: usize = 4;

/// Width in bytes of the error code that follows the object id.
pub const WL_DISPLAY_ERROR_CODE_LEN: usize = 4;

/// The error codes that `wl_display` itself defines.
#[derive(Debug, Clone, Copy, PartialEq, Eq, Structural)]
pub enum WlDisplayErrorId {
    /// The compositor could not find the object.
    InvalidObject,
    /// The object has no such method, or the request was malformed.
    InvalidMethod,
    /// The compositor ran out of memory.
    NoMemory,
    /// The compositor itself is at fault.
    ImplementationError,
}

impl WlDisplayErrorId {
    /// The number that stands for the code on the wire.
    pub open spec fn code(self) -> u32 {
        match self {
            WlDisplayErrorId::InvalidObject => 0,
            WlDisplayErrorId::InvalidMethod => 1,
            WlDisplayErrorId::NoMemory => 2,
            WlDisplayErrorId::ImplementationError => 3,
        }
    }

    /// The code that a number on the wire stands for, if any.
    pub open spec fn of_code(value: u32) -> Option<WlDisplayErrorId> {
        if value == 0 {
            Some(WlDisplayErrorId::InvalidObject)
        } else if value == 1 {
            Some(WlDisplayErrorId::InvalidMethod)
        } else if value == 2 {
            Some(WlDisplayErrorId::NoMemory)
        } else if value == 3 {
            Some(WlDisplayErrorId::ImplementationError)
        } else {
            None
        }
    }

    /// How the code is written out for a reader.
    pub open spec fn label(self) -> &'static str {
        match self {
            WlDisplayErrorId::InvalidObject => "WlDisplayError::InvalidObject",
            WlDisplayErrorId::InvalidMethod => "WlDisplayError::InvalidMethod",
            WlDisplayErrorId::NoMemory => "WlDisplayError::NoMemory",
            WlDisplayErrorId::ImplementationError => "WlDisplayError::ImplementationError",
        }
    }

    /// The number that stands for the code on the wire.
    pub fn to_u32(self) -> (value: u32)
        ensures
            value == self.code(),
            WlDisplayErrorId::of_code(value) == Some(self),
    {
        match self {
            WlDisplayErrorId::InvalidObject => 0,
            WlDisplayErrorId::InvalidMethod => 1,
            WlDisplayErrorId::NoMemory => 2,
            WlDisplayErrorId::ImplementationError => 3,
        }
    }

    /// The code that `value` stands for. A number outside the enumeration is
    /// an error that carries the number.
    pub fn from_u32(value: u32) -> (r: Result<WlDisplayErrorId, WlError>)
        ensures
            r is Ok <==> value <= 3,
            error_view(r) == match WlDisplayErrorId::of_code(value) {
                Some(code) => Ok(code),
                None => Err(WlErrorView::InvalidEnumValue(value)),
            },
            r matches Ok(code) ==> code.code() == value,
    {
        match value {
            0 => Ok(WlDisplayErrorId::InvalidObject),
            1 => Ok(WlDisplayErrorId::InvalidMethod),
            2 => Ok(WlDisplayErrorId::NoMemory),
            3 => Ok(WlDisplayErrorId::ImplementationError),
            _ => Err(WlError::InvalidEnumValue(value)),
        }
    }

    /// How the code is written out for a reader.
    pub fn name(self) -> (s: &'static str)
        ensures
            s@ == self.label()@,
    {
        match self {
            WlDisplayErrorId::InvalidObject => "WlDisplayError::InvalidObject",
            WlDisplayErrorId::InvalidMethod => "WlDisplayError::InvalidMethod",
            WlDisplayErrorId::NoMemory => "WlDisplayError::NoMemory",
            WlDisplayErrorId::ImplementationError => "WlDisplayError::ImplementationError",
        }
    }
}

/// The arguments of an `error` event.
#[derive(Debug, Clone, PartialEq, Eq)]
pub struct WlDisplayError {
    /// The object on which the error occurred.
    object_id: u32,
    /// What went wrong.
    code: WlDisplayErrorId,
    /// A description for whoever debugs the client.
    message: WlString,
}

/// What an `error` event says, apart from how it is held in memory.
pub ghost struct DisplayErrorView {
    pub object_id: u32,
    pub code: WlDisplayErrorId,
    pub message: Seq<u8>,
}

impl View for WlDisplayError {
    type V = DisplayErrorView;

    closed spec fn view(&self) -> DisplayErrorView {
        DisplayErrorView { object_id: self.object_id, code: self.code, message: self.message@ }
    }
}

/// The `error` arguments that the payload `buf` holds: an object id, a code
/// of the enumeration, and a string.
pub open spec fn parse_display_error(buf: Seq<u8>) -> Result<DisplayErrorView, WlErrorView> {
    match spec_get_u32(buf, 0) {
        Err(e) => Err(e),
        Ok(object_id) => match spec_get_u32(buf, 4) {
            Err(e) => Err(e),
            Ok(raw) => match WlDisplayErrorId::of_code(raw) {
                None => Err(WlErrorView::InvalidEnumValue(raw)),
                Some(code) => match parse_string(buf.skip(8)) {
                    Err(e) => Err(e),
                    Ok((message, _)) => Ok(DisplayErrorView { object_id, code, message }),
                },
            },
        },
    }
}

/// The payload of an `error` event with the given arguments.
pub open spec fn display_error_wire(e: DisplayErrorView) -> Seq<u8>
    recommends
        string_fits(e.message.len()),
{
    u32_wire(e.object_id) + u32_wire(e.code.code()) + string_wire(e.message)
}

/// An `error` event decodes to the arguments it was encoded from, whatever
/// follows the event in the buffer.
pub proof fn lemma_display_error_round_trip(e: DisplayErrorView, rest: Seq<u8>)
    requires
        string_fits(e.message.len()),
        !e.message.contains(0u8),
        display_error_wire(e).len() + rest.len() <= usize::MAX,
    ensures
        parse_display_error(display_error_wire(e) + rest) == Ok::<_, WlErrorView>(e),
        display_error_outcome(display_error_wire(e) + rest) == WlErrorView::ProtocolFatal(e),
{
    let buf = display_error_wire(e) + rest;
    lemma_u32_wire_round_trip(e.object_id);
    lemma_u32_wire_round_trip(e.code.code());
    lemma_string_round_trip(e.message, rest);
    assert(buf.subrange(0, 4) =~= u32_wire(e.object_id));
    assert(buf.subrange(4, 8) =~= u32_wire(e.code.code()));
    assert(buf.skip(8) =~= string_wire(e.message) + rest);
}

impl WlDisplayError {
    /// An error record with the given parts.
    pub fn new(object_id: u32, code: WlDisplayErrorId, message: WlString) -> (e: WlDisplayError)
        ensures
            e@ == (DisplayErrorView { object_id, code, message: message@ }),
    {
        WlDisplayError { object_id, code, message }
    }

    /// The object on which the error occurred.
    pub fn object_id(&self) -> (id: u32)
        ensures
            id == self@.object_id,
    {
        self.object_id
    }

    /// What went wrong.
    pub fn code(&self) -> (code: WlDisplayErrorId)
        ensures
            code == self@.code,
    {
        self.code
    }

    /// The compositor's description of the error.
    pub fn message(&self) -> (message: &WlString)
        ensures
            message@ == self@.message,
    {
        &self.message
    }

    /// Reads the arguments of an `error` event from its payload.
    pub fn from_bytes(buf: &[u8]) -> (r: Result<WlDisplayError, WlError>)
        ensures
            result_view(r) == parse_display_error(buf@),
    {
        let object_id = match get_u32(buf, 0) {
            Ok(v) => v,
            Err(e) => {
                return Err(e);
            },
        };
        let raw = match get_u32(buf, WL_DISPLAY_ERROR_OBJECT_LEN) {
            Ok(v) => v,
            Err(e) => {
                return Err(e);
            },
        };
        let code = match WlDisplayErrorId::from_u32(raw) {
            Ok(c) => c,
            Err(e) => {
                return Err(e);
            },
        };
        let tail = slice_subrange(
            buf,
            WL_DISPLAY_ERROR_OBJECT_LEN + WL_DISPLAY_ERROR_CODE_LEN,
            buf.len(),
        );
        assert(tail@ =~= buf@.skip(8));
        match WlString::from_bytes(tail) {
            Ok((message, _)) => Ok(WlDisplayError { object_id, code, message }),
            Err(e) => Err(e),
        }
    }
}

/// What handling an `error` event with the payload `buf` comes to. It is
/// always an error: the compositor's record where the payload holds one, and
/// else the reason why it holds none.
pub open spec fn display_error_outcome(buf: Seq<u8>) -> WlErrorView {
    match parse_display_error(buf) {
        Ok(record) => WlErrorView::ProtocolFatal(record),
        Err(e) => e,
    }
}

/// Decodes an `error` event. Whatever the payload holds, the connection
/// cannot go on, so the outcome is an error: a fatal one that carries the
/// compositor's record, or the failure to decode it.
pub fn handle_wl_display_error(buf: &[u8]) -> (e: WlError)
    ensures
        e@ == display_error_outcome(buf@),
{
    match WlDisplayError::from_bytes(buf) {
        Ok(record) => WlError::ProtocolFatal(record),
        Err(e) => e,
    }
}

} // verus!
