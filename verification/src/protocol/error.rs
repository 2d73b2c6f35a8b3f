//! The ways in which decoding, routing or the transport can fail.

use vstd::prelude::*;
use crate::protocol::display::event::error::{DisplayErrorView, WlDisplayError};

verus! {

/// Why a buffer, a message or the connection could not be used.
#[derive(Debug, Clone, PartialEq, Eq)]
pub enum WlError {
    /// The buffer ends before the field or header that is being read.
    TruncatedBuffer,
    /// A string's declared span holds no zero byte.
    MissingTerminator,
    /// The opcode names no event of the interface the message belongs to.
    InvalidOpcode(u16),
    /// An enumerated argument holds a number that the enumeration lacks.
    InvalidEnumValue(u32),
    /// The message comes from an object for which no interface is known.
    UnroutableObject(u32),
    /// The compositor sent `wl_display.error`: the connection is over.
    ProtocolFatal(WlDisplayError),
    /// The transport failed to read or to write.
    Io,
    /// The transport took fewer bytes than it was handed.
    ShortWrite { requested: usize, written: usize },
}

/// An error, apart from how it is held in memory.
pub ghost enum WlErrorView {
    TruncatedBuffer,
    MissingTerminator,
    InvalidOpcode(u16),
    InvalidEnumValue(u32),
    UnroutableObject(u32),
    ProtocolFatal(DisplayErrorView),
    Io,
    ShortWrite { requested: usize, written: usize },
}

impl View for WlError {
    type V = WlErrorView;

    open spec fn view(&self) -> WlErrorView {
        match self {
            WlError::TruncatedBuffer => WlErrorView::TruncatedBuffer,
            WlError::MissingTerminator => WlErrorView::MissingTerminator,
            WlError::InvalidOpcode(opcode) => WlErrorView::InvalidOpcode(*opcode),
            WlError::InvalidEnumValue(value) => WlErrorView::InvalidEnumValue(*value),
            WlError::UnroutableObject(id) => WlErrorView::UnroutableObject(*id),
            WlError::ProtocolFatal(record) => WlErrorView::ProtocolFatal(record@),
            WlError::Io => WlErrorView::Io,
            WlError::ShortWrite { requested, written } => WlErrorView::ShortWrite {
                requested: *requested,
                written: *written,
            },
        }
    }
}

/// A result with the value and the error each replaced by its view, so that
/// a contract can compare it with what the bytes stand for.
pub open spec fn result_view<T: View>(r: Result<T, WlError>) -> Result<T::V, WlErrorView> {
    match r {
        Ok(value) => Ok(value@),
        Err(e) => Err(e@),
    }
}

/// A result with the error replaced by its view, for values that are their
/// own view.
pub open spec fn error_view<T>(r: Result<T, WlError>) -> Result<T, WlErrorView> {
    match r {
        Ok(value) => Ok(value),
        Err(e) => Err(e@),
    }
}

/// An optional value replaced by its view.
pub open spec fn view_some<T: View>(o: Option<T>) -> Option<T::V> {
    match o {
        Some(value) => Some(value@),
        None => None,
    }
}

} // verus!
